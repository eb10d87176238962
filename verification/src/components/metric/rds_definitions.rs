//! Catalogue entries of the RDS metrics.
use vstd::prelude::*;
use crate::models::MetricType;
use crate::components::metric_definitions::measures_remaining;
use crate::style::Color;
use super::display_format::DisplayFormat;
use super::health_thresholds::{thresholds_ordered, HealthThresholds};
use super::metric_definition::{spec_entry, MetricColor, MetricDefinition};

verus! {

/// The RDS catalogue; other metric types share the "Unknown Metric" entry.
pub open spec fn rds_definition(metric_type: MetricType) -> MetricDefinition {
    match metric_type {
        MetricType::CpuUtilization => spec_entry(
            "CPU Utilization",
            DisplayFormat::Percentage,
            Some(HealthThresholds { critical_milli: 80_000, warning_milli: 60_000, reverse_logic: false }),
            MetricColor::Fixed(Color::Blue),
            "Percentage of CPU utilization",
        ),
        MetricType::DatabaseConnections => spec_entry(
            "Database Connections",
            DisplayFormat::Integer,
            Some(HealthThresholds { critical_milli: 1_000_000, warning_milli: 500_000, reverse_logic: false }),
            MetricColor::Fixed(Color::Green),
            "Number of client network connections to the database",
        ),
        MetricType::FreeStorageSpace => spec_entry(
            "Free Storage Space",
            DisplayFormat::Bytes,
            Some(HealthThresholds { critical_milli: 1_073_741_824_000, warning_milli: 5_368_709_120_000, reverse_logic: true }),
            MetricColor::Fixed(Color::Cyan),
            "Amount of available storage space",
        ),
        MetricType::ReadLatency => spec_entry(
            "Read Latency",
            DisplayFormat::Duration,
            Some(HealthThresholds { critical_milli: 100, warning_milli: 50, reverse_logic: false }),
            MetricColor::Fixed(Color::Red),
            "Average time taken for read operations",
        ),
        MetricType::WriteLatency => spec_entry(
            "Write Latency",
            DisplayFormat::Duration,
            Some(HealthThresholds { critical_milli: 100, warning_milli: 50, reverse_logic: false }),
            MetricColor::Fixed(Color::Magenta),
            "Average time taken for write operations",
        ),
        MetricType::ReadIops => spec_entry(
            "Read IOPS",
            DisplayFormat::Integer,
            None,
            MetricColor::Fixed(Color::Green),
            "Read input/output operations per second",
        ),
        MetricType::WriteIops => spec_entry(
            "Write IOPS",
            DisplayFormat::Integer,
            None,
            MetricColor::Fixed(Color::Yellow),
            "Write input/output operations per second",
        ),
        MetricType::ReadThroughput => spec_entry(
            "Read Throughput",
            DisplayFormat::Bytes,
            None,
            MetricColor::Fixed(Color::Cyan),
            "Read throughput in bytes per second",
        ),
        MetricType::WriteThroughput => spec_entry(
            "Write Throughput",
            DisplayFormat::Bytes,
            None,
            MetricColor::Fixed(Color::Magenta),
            "Write throughput in bytes per second",
        ),
        MetricType::NetworkReceiveThroughput => spec_entry(
            "Network Receive Throughput",
            DisplayFormat::Bytes,
            None,
            MetricColor::Fixed(Color::LightGreen),
            "Network receive throughput in bytes per second",
        ),
        MetricType::NetworkTransmitThroughput => spec_entry(
            "Network Transmit Throughput",
            DisplayFormat::Bytes,
            None,
            MetricColor::Fixed(Color::LightBlue),
            "Network transmit throughput in bytes per second",
        ),
        MetricType::SwapUsage => spec_entry(
            "Swap Usage",
            DisplayFormat::Bytes,
            Some(HealthThresholds { critical_milli: 1_073_741_824_000, warning_milli: 536_870_912_000, reverse_logic: false }),
            MetricColor::Fixed(Color::LightRed),
            "Amount of swap space used",
        ),
        MetricType::QueueDepth => spec_entry(
            "Queue Depth",
            DisplayFormat::Integer,
            Some(HealthThresholds { critical_milli: 10_000, warning_milli: 5_000, reverse_logic: false }),
            MetricColor::Fixed(Color::LightYellow),
            "Number of outstanding I/O requests",
        ),
        MetricType::FreeableMemory => spec_entry(
            "Freeable Memory",
            DisplayFormat::Bytes,
            Some(HealthThresholds { critical_milli: 536_870_912_000, warning_milli: 1_073_741_824_000, reverse_logic: true }),
            MetricColor::Fixed(Color::LightBlue),
            "Amount of available RAM",
        ),
        MetricType::BurstBalance => spec_entry(
            "Burst Balance",
            DisplayFormat::Percentage,
            Some(HealthThresholds { critical_milli: 20_000, warning_milli: 50_000, reverse_logic: true }),
            MetricColor::Fixed(Color::LightCyan),
            "Percentage of burst bucket credits available",
        ),
        MetricType::CpuCreditUsage => spec_entry(
            "CPU Credit Usage",
            DisplayFormat::Decimal(2),
            None,
            MetricColor::Fixed(Color::LightMagenta),
            "CPU credits consumed by the instance",
        ),
        MetricType::CpuCreditBalance => spec_entry(
            "CPU Credit Balance",
            DisplayFormat::Decimal(2),
            Some(HealthThresholds { critical_milli: 50_000, warning_milli: 100_000, reverse_logic: true }),
            MetricColor::Fixed(Color::Green),
            "Number of earned CPU credits accumulated",
        ),
        _ => spec_entry(
            "Unknown Metric",
            DisplayFormat::Decimal(2),
            None,
            MetricColor::Fixed(Color::Gray),
            "Unknown metric type",
        ),
    }
}

/// Get RDS metric definitions.
pub fn get_rds_metric_definition(metric_type: &MetricType) -> (res: MetricDefinition)
    ensures
        res == rds_definition(*metric_type),
{
    match *metric_type {
        MetricType::CpuUtilization => MetricDefinition::new(
            "CPU Utilization",
            DisplayFormat::Percentage,
            Some(HealthThresholds { critical_milli: 80_000, warning_milli: 60_000, reverse_logic: false }),
            MetricColor::Fixed(Color::Blue),
            "Percentage of CPU utilization",
        ),
        MetricType::DatabaseConnections => MetricDefinition::new(
            "Database Connections",
            DisplayFormat::Integer,
            Some(HealthThresholds { critical_milli: 1_000_000, warning_milli: 500_000, reverse_logic: false }),
            MetricColor::Fixed(Color::Green),
            "Number of client network connections to the database",
        ),
        MetricType::FreeStorageSpace => MetricDefinition::new(
            "Free Storage Space",
            DisplayFormat::Bytes,
            Some(HealthThresholds { critical_milli: 1_073_741_824_000, warning_milli: 5_368_709_120_000, reverse_logic: true }),
            MetricColor::Fixed(Color::Cyan),
            "Amount of available storage space",
        ),
        MetricType::ReadLatency => MetricDefinition::new(
            "Read Latency",
            DisplayFormat::Duration,
            Some(HealthThresholds { critical_milli: 100, warning_milli: 50, reverse_logic: false }),
            MetricColor::Fixed(Color::Red),
            "Average time taken for read operations",
        ),
        MetricType::WriteLatency => MetricDefinition::new(
            "Write Latency",
            DisplayFormat::Duration,
            Some(HealthThresholds { critical_milli: 100, warning_milli: 50, reverse_logic: false }),
            MetricColor::Fixed(Color::Magenta),
            "Average time taken for write operations",
        ),
        MetricType::ReadIops => MetricDefinition::new(
            "Read IOPS",
            DisplayFormat::Integer,
            None,
            MetricColor::Fixed(Color::Green),
            "Read input/output operations per second",
        ),
        MetricType::WriteIops => MetricDefinition::new(
            "Write IOPS",
            DisplayFormat::Integer,
            None,
            MetricColor::Fixed(Color::Yellow),
            "Write input/output operations per second",
        ),
        MetricType::ReadThroughput => MetricDefinition::new(
            "Read Throughput",
            DisplayFormat::Bytes,
            None,
            MetricColor::Fixed(Color::Cyan),
            "Read throughput in bytes per second",
        ),
        MetricType::WriteThroughput => MetricDefinition::new(
            "Write Throughput",
            DisplayFormat::Bytes,
            None,
            MetricColor::Fixed(Color::Magenta),
            "Write throughput in bytes per second",
        ),
        MetricType::NetworkReceiveThroughput => MetricDefinition::new(
            "Network Receive Throughput",
            DisplayFormat::Bytes,
            None,
            MetricColor::Fixed(Color::LightGreen),
            "Network receive throughput in bytes per second",
        ),
        MetricType::NetworkTransmitThroughput => MetricDefinition::new(
            "Network Transmit Throughput",
            DisplayFormat::Bytes,
            None,
            MetricColor::Fixed(Color::LightBlue),
            "Network transmit throughput in bytes per second",
        ),
        MetricType::SwapUsage => MetricDefinition::new(
            "Swap Usage",
            DisplayFormat::Bytes,
            Some(HealthThresholds { critical_milli: 1_073_741_824_000, warning_milli: 536_870_912_000, reverse_logic: false }),
            MetricColor::Fixed(Color::LightRed),
            "Amount of swap space used",
        ),
        MetricType::QueueDepth => MetricDefinition::new(
            "Queue Depth",
            DisplayFormat::Integer,
            Some(HealthThresholds { critical_milli: 10_000, warning_milli: 5_000, reverse_logic: false }),
            MetricColor::Fixed(Color::LightYellow),
            "Number of outstanding I/O requests",
        ),
        MetricType::FreeableMemory => MetricDefinition::new(
            "Freeable Memory",
            DisplayFormat::Bytes,
            Some(HealthThresholds { critical_milli: 536_870_912_000, warning_milli: 1_073_741_824_000, reverse_logic: true }),
            MetricColor::Fixed(Color::LightBlue),
            "Amount of available RAM",
        ),
        MetricType::BurstBalance => MetricDefinition::new(
            "Burst Balance",
            DisplayFormat::Percentage,
            Some(HealthThresholds { critical_milli: 20_000, warning_milli: 50_000, reverse_logic: true }),
            MetricColor::Fixed(Color::LightCyan),
            "Percentage of burst bucket credits available",
        ),
        MetricType::CpuCreditUsage => MetricDefinition::new(
            "CPU Credit Usage",
            DisplayFormat::Decimal(2),
            None,
            MetricColor::Fixed(Color::LightMagenta),
            "CPU credits consumed by the instance",
        ),
        MetricType::CpuCreditBalance => MetricDefinition::new(
            "CPU Credit Balance",
            DisplayFormat::Decimal(2),
            Some(HealthThresholds { critical_milli: 50_000, warning_milli: 100_000, reverse_logic: true }),
            MetricColor::Fixed(Color::Green),
            "Number of earned CPU credits accumulated",
        ),
        _ => MetricDefinition::new(
            "Unknown Metric",
            DisplayFormat::Decimal(2),
            None,
            MetricColor::Fixed(Color::Gray),
            "Unknown metric type",
        ),
    }
}

/// Every RDS catalogue entry that has health thresholds has them ordered.
pub proof fn lemma_rds_definition_thresholds_ordered(metric_type: MetricType)
    ensures
        rds_definition(metric_type).thresholds matches Some(t) ==> thresholds_ordered(t),
{
}

/// Where an entry has health thresholds, lower readings are the worse ones exactly
/// for the metrics that measure what is left, and the critical level lies past the
/// warning level in that direction.
pub proof fn lemma_rds_threshold_direction(metric_type: MetricType)
    ensures
        rds_definition(metric_type).thresholds matches Some(t) ==> {
            &&& t.reverse_logic == measures_remaining(metric_type)
            &&& measures_remaining(metric_type) ==> t.critical_milli < t.warning_milli
            &&& !measures_remaining(metric_type) ==> t.warning_milli < t.critical_milli
        },
{
}

} // verus!
