pub mod display_format;
pub mod health_thresholds;
pub mod metric_definition;
pub mod metric_registry;
pub mod rds_definitions;
pub mod sqs_definitions;
