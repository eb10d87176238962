pub mod error_feedback;
pub mod help_system;
pub mod page;
pub mod metric_definitions;
pub mod metric;
pub mod metric_utils;
pub mod list_styling;
pub mod metrics_dashboard;
pub mod aws_chart;
pub mod border_factory;
pub mod universal_box;
pub mod time_range_utils;
pub mod service_selector;
pub mod instance_details;
pub mod metrics_summary;
pub mod style_guide;
pub mod aws_metrics_grid;
pub mod metric_list_utils;
pub mod sparkline_utils;
pub mod instance;
