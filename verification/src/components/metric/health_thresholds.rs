//! Health thresholds of a metric.
use vstd::prelude::*;

verus! {

/// Health thresholds of a metric, in thousandths of the metric's unit
/// (`critical_milli as f64 / 1000.0` is the critical level as a reading).
#[derive(Debug, Clone, Copy, PartialEq, Eq, Structural)]
pub struct HealthThresholds {
    pub critical_milli: u64,
    pub warning_milli: u64,
    /// true for metrics where lower values are bad (like free memory)
    pub reverse_logic: bool,
}

impl HealthThresholds {
    /// Create new health thresholds.
    pub fn new(critical_milli: u64, warning_milli: u64, reverse_logic: bool) -> (res: Self)
        ensures
            res == (HealthThresholds { critical_milli, warning_milli, reverse_logic }),
    {
        HealthThresholds { critical_milli, warning_milli, reverse_logic }
    }
}

/// The warning level lies on the healthy side of the critical level: below it
/// where higher readings are worse, above it where lower readings are worse.
pub open spec fn thresholds_ordered(t: HealthThresholds) -> bool {
    if t.reverse_logic {
        t.critical_milli < t.warning_milli
    } else {
        t.warning_milli < t.critical_milli
    }
}

} // verus!
