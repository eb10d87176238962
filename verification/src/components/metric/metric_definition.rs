//! A metric's catalogue entry and its health status.
use vstd::prelude::*;
use crate::style::{Color, ThemeColor};
use super::display_format::DisplayFormat;
use super::health_thresholds::HealthThresholds;

verus! {

/// The chart colour of a metric: a fixed colour, or one that the theme supplies.
#[derive(Debug, Clone, Copy, PartialEq, Eq, Structural)]
pub enum MetricColor {
    Fixed(Color),
    Themed(ThemeColor),
}

/// The catalogue entry of a metric.
#[derive(Debug, Clone)]
pub struct MetricDefinition {
    pub name: &'static str,
    pub display_format: DisplayFormat,
    pub thresholds: Option<HealthThresholds>,
    pub color: MetricColor,
    pub description: &'static str,
}

/// A catalogue entry.
pub open spec fn spec_entry(
    name: &'static str,
    display_format: DisplayFormat,
    thresholds: Option<HealthThresholds>,
    color: MetricColor,
    description: &'static str,
) -> MetricDefinition {
    MetricDefinition { name, display_format, thresholds, color, description }
}

impl MetricDefinition {
    /// Create a new metric definition.
    pub fn new(
        name: &'static str,
        display_format: DisplayFormat,
        thresholds: Option<HealthThresholds>,
        color: MetricColor,
        description: &'static str,
    ) -> (res: Self)
        ensures
            res == spec_entry(name, display_format, thresholds, color, description),
    {
        MetricDefinition { name, display_format, thresholds, color, description }
    }

    /// Check if metric has health thresholds.
    pub fn has_thresholds(&self) -> (res: bool)
        ensures
            res == self.thresholds is Some,
    {
        self.thresholds.is_some()
    }
}

/// The health of a reading against a metric's thresholds.
#[derive(Debug, Clone, Copy, PartialEq, Eq, Structural)]
pub enum MetricStatus {
    Healthy,
    Warning,
    Critical,
    Unknown,
}

impl MetricStatus {
    /// The theme colour of the status.
    pub fn color(&self) -> (res: ThemeColor)
        ensures
            res == match *self {
                MetricStatus::Healthy => ThemeColor::Success,
                MetricStatus::Warning => ThemeColor::Warning,
                MetricStatus::Critical => ThemeColor::Error,
                MetricStatus::Unknown => ThemeColor::Muted,
            },
    {
        match self {
            MetricStatus::Healthy => ThemeColor::Success,
            MetricStatus::Warning => ThemeColor::Warning,
            MetricStatus::Critical => ThemeColor::Error,
            MetricStatus::Unknown => ThemeColor::Muted,
        }
    }
}

} // verus!
