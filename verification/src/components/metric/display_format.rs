//! How a reading of a metric is written.
use vstd::prelude::*;

verus! {

/// Display format configuration for metrics.
#[derive(Debug, Clone, Copy, PartialEq, Eq, Structural)]
pub enum DisplayFormat {
    Integer,
    /// number of decimal places
    Decimal(u8),
    Bytes,
    Duration,
    Percentage,
}

} // verus!
