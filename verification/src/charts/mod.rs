pub mod chart_utils;
pub mod data_collector;
pub mod grid_layout;
pub mod types;
pub mod validation;
pub mod formatter;
pub mod sparkline;
pub mod labels;
pub mod chart_data;
pub mod error_display;
pub mod time_series;
pub mod name_order;
