//! Verified core of a CloudWatch terminal dashboard: navigation state, error
//! feedback, help content, metric catalogues, list formatting and grid layout.

pub mod charts;
pub mod components;
pub mod display_utils;
pub mod models;
pub mod text;
pub mod time;
pub mod style;
pub mod layout;
