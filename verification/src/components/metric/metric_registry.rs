//! AWS console-style metric catalogue, with the theme's colours for the core
//! metrics.
use vstd::prelude::*;
use crate::models::MetricType;
use crate::components::metric_definitions::measures_remaining;
use crate::style::{Color, ThemeColor};
use super::display_format::DisplayFormat;
use super::health_thresholds::{thresholds_ordered, HealthThresholds};
use super::metric_definition::{spec_entry, MetricColor, MetricDefinition};

verus! {

/// The theme colour of a metric type, by the group the metric belongs to.
pub open spec fn metric_theme_color(metric_type: MetricType) -> ThemeColor {
    match metric_type {
        MetricType::CpuUtilization | MetricType::CpuCreditBalance | MetricType::CpuCreditUsage => ThemeColor::Accent,
        MetricType::DatabaseConnections | MetricType::ReadLatency | MetricType::WriteLatency => ThemeColor::Info,
        MetricType::FreeStorageSpace | MetricType::FreeableMemory => ThemeColor::ChartSecondary,
        MetricType::ReadIops | MetricType::WriteIops | MetricType::ReadThroughput | MetricType::WriteThroughput => ThemeColor::ChartAccent,
        MetricType::ApproximateNumberOfMessages | MetricType::ApproximateNumberOfMessagesVisible
        | MetricType::ApproximateNumberOfMessagesNotVisible | MetricType::ApproximateAgeOfOldestMessage => ThemeColor::Accent,
        MetricType::NumberOfMessagesSent | MetricType::NumberOfMessagesReceived | MetricType::NumberOfMessagesDeleted
        | MetricType::NumberOfEmptyReceives => ThemeColor::Info,
        MetricType::SentMessageSize => ThemeColor::ChartSecondary,
        _ => ThemeColor::ChartPrimary,
    }
}

/// The catalogue entry of each metric type; types without an entry of their own
/// share the "Unknown Metric" entry.
pub open spec fn registry_definition(metric_type: MetricType) -> MetricDefinition {
    match metric_type {
        MetricType::CpuUtilization => spec_entry(
            "CPU Utilization",
            DisplayFormat::Percentage,
            Some(HealthThresholds { critical_milli: 80_000, warning_milli: 60_000, reverse_logic: false }),
            MetricColor::Themed(metric_theme_color(metric_type)),
            "Percentage of CPU utilization",
        ),
        MetricType::DatabaseConnections => spec_entry(
            "Database Connections",
            DisplayFormat::Integer,
            Some(HealthThresholds { critical_milli: 1_000_000, warning_milli: 500_000, reverse_logic: false }),
            MetricColor::Themed(metric_theme_color(metric_type)),
            "Number of client network connections to the database",
        ),
        MetricType::FreeStorageSpace => spec_entry(
            "Free Storage Space",
            DisplayFormat::Bytes,
            Some(HealthThresholds { critical_milli: 1_073_741_824_000, warning_milli: 5_368_709_120_000, reverse_logic: true }),
            MetricColor::Themed(metric_theme_color(metric_type)),
            "Amount of available storage space",
        ),
        MetricType::ReadLatency => spec_entry(
            "Read Latency",
            DisplayFormat::Duration,
            Some(HealthThresholds { critical_milli: 100, warning_milli: 50, reverse_logic: false }),
            MetricColor::Themed(metric_theme_color(metric_type)),
            "Average time taken for read operations",
        ),
        MetricType::WriteLatency => spec_entry(
            "Write Latency",
            DisplayFormat::Duration,
            Some(HealthThresholds { critical_milli: 100, warning_milli: 50, reverse_logic: false }),
            MetricColor::Themed(metric_theme_color(metric_type)),
            "Average time taken for write operations",
        ),
        MetricType::ReadIops => spec_entry(
            "Read IOPS",
            DisplayFormat::Integer,
            None,
            MetricColor::Fixed(Color::Green),
            "Read input/output operations per second",
        ),
        MetricType::WriteIops => spec_entry(
            "Write IOPS",
            DisplayFormat::Integer,
            None,
            MetricColor::Themed(metric_theme_color(metric_type)),
            "Write input/output operations per second",
        ),
        MetricType::ReadThroughput => spec_entry(
            "Read Throughput",
            DisplayFormat::Bytes,
            None,
            MetricColor::Themed(metric_theme_color(metric_type)),
            "Read throughput in bytes per second",
        ),
        MetricType::WriteThroughput => spec_entry(
            "Write Throughput",
            DisplayFormat::Bytes,
            None,
            MetricColor::Themed(metric_theme_color(metric_type)),
            "Write throughput in bytes per second",
        ),
        MetricType::NetworkReceiveThroughput => spec_entry(
            "Network Receive Throughput",
            DisplayFormat::Bytes,
            None,
            MetricColor::Fixed(Color::LightGreen),
            "Network receive throughput in bytes per second",
        ),
        MetricType::NetworkTransmitThroughput => spec_entry(
            "Network Transmit Throughput",
            DisplayFormat::Bytes,
            None,
            MetricColor::Fixed(Color::LightBlue),
            "Network transmit throughput in bytes per second",
        ),
        MetricType::SwapUsage => spec_entry(
            "Swap Usage",
            DisplayFormat::Bytes,
            Some(HealthThresholds { critical_milli: 1_073_741_824_000, warning_milli: 536_870_912_000, reverse_logic: false }),
            MetricColor::Fixed(Color::Red),
            "Amount of swap space used",
        ),
        MetricType::FreeableMemory => spec_entry(
            "Freeable Memory",
            DisplayFormat::Bytes,
            Some(HealthThresholds { critical_milli: 268_435_456_000, warning_milli: 536_870_912_000, reverse_logic: true }),
            MetricColor::Fixed(Color::Blue),
            "Amount of available memory",
        ),
        MetricType::QueueDepth => spec_entry(
            "Queue Depth",
            DisplayFormat::Integer,
            Some(HealthThresholds { critical_milli: 64_000, warning_milli: 32_000, reverse_logic: false }),
            MetricColor::Fixed(Color::Yellow),
            "Number of outstanding I/O requests",
        ),
        MetricType::BurstBalance => spec_entry(
            "Burst Balance",
            DisplayFormat::Percentage,
            Some(HealthThresholds { critical_milli: 10_000, warning_milli: 20_000, reverse_logic: true }),
            MetricColor::Fixed(Color::Magenta),
            "Percentage of General Purpose SSD burst-bucket I/O credits remaining",
        ),
        MetricType::CpuCreditUsage => spec_entry(
            "CPU Credit Usage",
            DisplayFormat::Integer,
            None,
            MetricColor::Fixed(Color::Blue),
            "CPU credits consumed during the period",
        ),
        MetricType::CpuCreditBalance => spec_entry(
            "CPU Credit Balance",
            DisplayFormat::Integer,
            Some(HealthThresholds { critical_milli: 10_000, warning_milli: 50_000, reverse_logic: true }),
            MetricColor::Fixed(Color::Green),
            "Number of CPU credits available for bursting",
        ),
        MetricType::BinLogDiskUsage => spec_entry(
            "Binary Log Disk Usage",
            DisplayFormat::Bytes,
            None,
            MetricColor::Fixed(Color::Yellow),
            "Amount of disk space occupied by binary logs",
        ),
        MetricType::ReplicaLag => spec_entry(
            "Replica Lag",
            DisplayFormat::Duration,
            Some(HealthThresholds { critical_milli: 300_000, warning_milli: 60_000, reverse_logic: false }),
            MetricColor::Fixed(Color::Red),
            "Time when the replica DB instance lags behind the source DB instance",
        ),
        MetricType::TransactionLogsGeneration => spec_entry(
            "Transaction Logs Generation",
            DisplayFormat::Bytes,
            None,
            MetricColor::Fixed(Color::Cyan),
            "Size of transaction logs generated per second",
        ),
        MetricType::TransactionLogsDiskUsage => spec_entry(
            "Transaction Logs Disk Usage",
            DisplayFormat::Bytes,
            None,
            MetricColor::Fixed(Color::Magenta),
            "Disk space used by transaction logs",
        ),
        MetricType::MaximumUsedTransactionIds => spec_entry(
            "Maximum Used Transaction IDs",
            DisplayFormat::Integer,
            None,
            MetricColor::Fixed(Color::Yellow),
            "Maximum transaction IDs that have been used",
        ),
        MetricType::OldestReplicationSlotLag => spec_entry(
            "Oldest Replication Slot Lag",
            DisplayFormat::Duration,
            Some(HealthThresholds { critical_milli: 3_600_000, warning_milli: 1_800_000, reverse_logic: false }),
            MetricColor::Fixed(Color::Red),
            "Age of the oldest replication slot lag",
        ),
        MetricType::ReplicationSlotDiskUsage => spec_entry(
            "Replication Slot Disk Usage",
            DisplayFormat::Bytes,
            None,
            MetricColor::Fixed(Color::Blue),
            "Disk space used by replication slot files",
        ),
        MetricType::FailedSqlServerAgentJobsCount => spec_entry(
            "Failed SQL Server Agent Jobs",
            DisplayFormat::Integer,
            Some(HealthThresholds { critical_milli: 1_000, warning_milli: 0, reverse_logic: false }),
            MetricColor::Fixed(Color::Red),
            "Number of failed Microsoft SQL Server Agent jobs",
        ),
        MetricType::CheckpointLag => spec_entry(
            "Checkpoint Lag",
            DisplayFormat::Duration,
            Some(HealthThresholds { critical_milli: 600_000, warning_milli: 300_000, reverse_logic: false }),
            MetricColor::Fixed(Color::Yellow),
            "Time since the last checkpoint",
        ),
        MetricType::ConnectionAttempts => spec_entry(
            "Connection Attempts",
            DisplayFormat::Integer,
            None,
            MetricColor::Fixed(Color::Green),
            "Number of attempts to connect to the instance",
        ),
        MetricType::ApproximateNumberOfMessages => spec_entry(
            "Approximate Number of Messages",
            DisplayFormat::Integer,
            None,
            MetricColor::Fixed(Color::Blue),
            "Approximate number of messages available for retrieval from the queue",
        ),
        MetricType::ApproximateNumberOfMessagesVisible => spec_entry(
            "Approximate Number of Messages Visible",
            DisplayFormat::Integer,
            None,
            MetricColor::Fixed(Color::Green),
            "Approximate number of messages visible in the queue",
        ),
        MetricType::ApproximateNumberOfMessagesNotVisible => spec_entry(
            "Approximate Number of Messages Not Visible",
            DisplayFormat::Integer,
            None,
            MetricColor::Fixed(Color::Yellow),
            "Approximate number of messages that are in flight",
        ),
        MetricType::ApproximateAgeOfOldestMessage => spec_entry(
            "Approximate Age of Oldest Message",
            DisplayFormat::Duration,
            Some(HealthThresholds { critical_milli: 3_600_000, warning_milli: 1_800_000, reverse_logic: false }),
            MetricColor::Fixed(Color::Red),
            "Approximate age of the oldest non-deleted message in the queue",
        ),
        MetricType::ApproximateNumberOfMessagesDelayed => spec_entry(
            "Approximate Number of Messages Delayed",
            DisplayFormat::Integer,
            None,
            MetricColor::Fixed(Color::Magenta),
            "Approximate number of messages in the queue that are delayed",
        ),
        MetricType::NumberOfMessagesSent => spec_entry(
            "Number of Messages Sent",
            DisplayFormat::Integer,
            None,
            MetricColor::Fixed(Color::Green),
            "Number of messages added to a queue",
        ),
        MetricType::NumberOfMessagesReceived => spec_entry(
            "Number of Messages Received",
            DisplayFormat::Integer,
            None,
            MetricColor::Fixed(Color::Blue),
            "Number of messages returned by calls to the ReceiveMessage action",
        ),
        MetricType::NumberOfMessagesDeleted => spec_entry(
            "Number of Messages Deleted",
            DisplayFormat::Integer,
            None,
            MetricColor::Fixed(Color::Cyan),
            "Number of messages deleted from the queue",
        ),
        MetricType::NumberOfEmptyReceives => spec_entry(
            "Number of Empty Receives",
            DisplayFormat::Integer,
            None,
            MetricColor::Fixed(Color::Yellow),
            "Number of ReceiveMessage API calls that did not return a message",
        ),
        MetricType::SentMessageSize => spec_entry(
            "Sent Message Size",
            DisplayFormat::Bytes,
            None,
            MetricColor::Fixed(Color::Magenta),
            "Size of messages added to a queue",
        ),
        _ => spec_entry(
            "Unknown Metric",
            DisplayFormat::Decimal(2),
            None,
            MetricColor::Fixed(Color::Gray),
            "Unknown metric type",
        ),
    }
}

/// AWS console-style metric definitions registry.
#[derive(Debug)]
pub struct MetricRegistry;

impl MetricRegistry {
    /// Get metric definition for a given metric type.
    pub fn get_definition(metric_type: &MetricType) -> (res: MetricDefinition)
        ensures
            res == registry_definition(*metric_type),
    {
        Self::get_definition_simplified(metric_type)
    }

    /// The theme colour of a metric type.
    fn get_metric_color(metric_type: MetricType) -> (res: ThemeColor)
        ensures
            res == metric_theme_color(metric_type),
    {
        match metric_type {
            MetricType::CpuUtilization | MetricType::CpuCreditBalance | MetricType::CpuCreditUsage => ThemeColor::Accent,
            MetricType::DatabaseConnections | MetricType::ReadLatency | MetricType::WriteLatency => ThemeColor::Info,
            MetricType::FreeStorageSpace | MetricType::FreeableMemory => ThemeColor::ChartSecondary,
            MetricType::ReadIops | MetricType::WriteIops | MetricType::ReadThroughput | MetricType::WriteThroughput => ThemeColor::ChartAccent,
            MetricType::ApproximateNumberOfMessages | MetricType::ApproximateNumberOfMessagesVisible
            | MetricType::ApproximateNumberOfMessagesNotVisible | MetricType::ApproximateAgeOfOldestMessage => ThemeColor::Accent,
            MetricType::NumberOfMessagesSent | MetricType::NumberOfMessagesReceived | MetricType::NumberOfMessagesDeleted
            | MetricType::NumberOfEmptyReceives => ThemeColor::Info,
            MetricType::SentMessageSize => ThemeColor::ChartSecondary,
            _ => ThemeColor::ChartPrimary,
        }
    }

    /// Get metric definition (simplified without dynamic info).
    pub fn get_definition_simplified(metric_type: &MetricType) -> (res: MetricDefinition)
        ensures
            res == registry_definition(*metric_type),
    {
        let metric_type = *metric_type;
        match metric_type {
            MetricType::CpuUtilization => MetricDefinition::new(
                "CPU Utilization",
                DisplayFormat::Percentage,
                Some(HealthThresholds { critical_milli: 80_000, warning_milli: 60_000, reverse_logic: false }),
                MetricColor::Themed(Self::get_metric_color(metric_type)),
                "Percentage of CPU utilization",
            ),
            MetricType::DatabaseConnections => MetricDefinition::new(
                "Database Connections",
                DisplayFormat::Integer,
                Some(HealthThresholds { critical_milli: 1_000_000, warning_milli: 500_000, reverse_logic: false }),
                MetricColor::Themed(Self::get_metric_color(metric_type)),
                "Number of client network connections to the database",
            ),
            MetricType::FreeStorageSpace => MetricDefinition::new(
                "Free Storage Space",
                DisplayFormat::Bytes,
                Some(HealthThresholds { critical_milli: 1_073_741_824_000, warning_milli: 5_368_709_120_000, reverse_logic: true }),
                MetricColor::Themed(Self::get_metric_color(metric_type)),
                "Amount of available storage space",
            ),
            MetricType::ReadLatency => MetricDefinition::new(
                "Read Latency",
                DisplayFormat::Duration,
                Some(HealthThresholds { critical_milli: 100, warning_milli: 50, reverse_logic: false }),
                MetricColor::Themed(Self::get_metric_color(metric_type)),
                "Average time taken for read operations",
            ),
            MetricType::WriteLatency => MetricDefinition::new(
                "Write Latency",
                DisplayFormat::Duration,
                Some(HealthThresholds { critical_milli: 100, warning_milli: 50, reverse_logic: false }),
                MetricColor::Themed(Self::get_metric_color(metric_type)),
                "Average time taken for write operations",
            ),
            MetricType::ReadIops => MetricDefinition::new(
                "Read IOPS",
                DisplayFormat::Integer,
                None,
                MetricColor::Fixed(Color::Green),
                "Read input/output operations per second",
            ),
            MetricType::WriteIops => MetricDefinition::new(
                "Write IOPS",
                DisplayFormat::Integer,
                None,
                MetricColor::Themed(Self::get_metric_color(metric_type)),
                "Write input/output operations per second",
            ),
            MetricType::ReadThroughput => MetricDefinition::new(
                "Read Throughput",
                DisplayFormat::Bytes,
                None,
                MetricColor::Themed(Self::get_metric_color(metric_type)),
                "Read throughput in bytes per second",
            ),
            MetricType::WriteThroughput => MetricDefinition::new(
                "Write Throughput",
                DisplayFormat::Bytes,
                None,
                MetricColor::Themed(Self::get_metric_color(metric_type)),
                "Write throughput in bytes per second",
            ),
            MetricType::NetworkReceiveThroughput => MetricDefinition::new(
                "Network Receive Throughput",
                DisplayFormat::Bytes,
                None,
                MetricColor::Fixed(Color::LightGreen),
                "Network receive throughput in bytes per second",
            ),
            MetricType::NetworkTransmitThroughput => MetricDefinition::new(
                "Network Transmit Throughput",
                DisplayFormat::Bytes,
                None,
                MetricColor::Fixed(Color::LightBlue),
                "Network transmit throughput in bytes per second",
            ),
            MetricType::SwapUsage => MetricDefinition::new(
                "Swap Usage",
                DisplayFormat::Bytes,
                Some(HealthThresholds { critical_milli: 1_073_741_824_000, warning_milli: 536_870_912_000, reverse_logic: false }),
                MetricColor::Fixed(Color::Red),
                "Amount of swap space used",
            ),
            MetricType::FreeableMemory => MetricDefinition::new(
                "Freeable Memory",
                DisplayFormat::Bytes,
                Some(HealthThresholds { critical_milli: 268_435_456_000, warning_milli: 536_870_912_000, reverse_logic: true }),
                MetricColor::Fixed(Color::Blue),
                "Amount of available memory",
            ),
            MetricType::QueueDepth => MetricDefinition::new(
                "Queue Depth",
                DisplayFormat::Integer,
                Some(HealthThresholds { critical_milli: 64_000, warning_milli: 32_000, reverse_logic: false }),
                MetricColor::Fixed(Color::Yellow),
                "Number of outstanding I/O requests",
            ),
            MetricType::BurstBalance => MetricDefinition::new(
                "Burst Balance",
                DisplayFormat::Percentage,
                Some(HealthThresholds { critical_milli: 10_000, warning_milli: 20_000, reverse_logic: true }),
                MetricColor::Fixed(Color::Magenta),
                "Percentage of General Purpose SSD burst-bucket I/O credits remaining",
            ),
            MetricType::CpuCreditUsage => MetricDefinition::new(
                "CPU Credit Usage",
                DisplayFormat::Integer,
                None,
                MetricColor::Fixed(Color::Blue),
                "CPU credits consumed during the period",
            ),
            MetricType::CpuCreditBalance => MetricDefinition::new(
                "CPU Credit Balance",
                DisplayFormat::Integer,
                Some(HealthThresholds { critical_milli: 10_000, warning_milli: 50_000, reverse_logic: true }),
                MetricColor::Fixed(Color::Green),
                "Number of CPU credits available for bursting",
            ),
            MetricType::BinLogDiskUsage => MetricDefinition::new(
                "Binary Log Disk Usage",
                DisplayFormat::Bytes,
                None,
                MetricColor::Fixed(Color::Yellow),
                "Amount of disk space occupied by binary logs",
            ),
            MetricType::ReplicaLag => MetricDefinition::new(
                "Replica Lag",
                DisplayFormat::Duration,
                Some(HealthThresholds { critical_milli: 300_000, warning_milli: 60_000, reverse_logic: false }),
                MetricColor::Fixed(Color::Red),
                "Time when the replica DB instance lags behind the source DB instance",
            ),
            MetricType::TransactionLogsGeneration => MetricDefinition::new(
                "Transaction Logs Generation",
                DisplayFormat::Bytes,
                None,
                MetricColor::Fixed(Color::Cyan),
                "Size of transaction logs generated per second",
            ),
            MetricType::TransactionLogsDiskUsage => MetricDefinition::new(
                "Transaction Logs Disk Usage",
                DisplayFormat::Bytes,
                None,
                MetricColor::Fixed(Color::Magenta),
                "Disk space used by transaction logs",
            ),
            MetricType::MaximumUsedTransactionIds => MetricDefinition::new(
                "Maximum Used Transaction IDs",
                DisplayFormat::Integer,
                None,
                MetricColor::Fixed(Color::Yellow),
                "Maximum transaction IDs that have been used",
            ),
            MetricType::OldestReplicationSlotLag => MetricDefinition::new(
                "Oldest Replication Slot Lag",
                DisplayFormat::Duration,
                Some(HealthThresholds { critical_milli: 3_600_000, warning_milli: 1_800_000, reverse_logic: false }),
                MetricColor::Fixed(Color::Red),
                "Age of the oldest replication slot lag",
            ),
            MetricType::ReplicationSlotDiskUsage => MetricDefinition::new(
                "Replication Slot Disk Usage",
                DisplayFormat::Bytes,
                None,
                MetricColor::Fixed(Color::Blue),
                "Disk space used by replication slot files",
            ),
            MetricType::FailedSqlServerAgentJobsCount => MetricDefinition::new(
                "Failed SQL Server Agent Jobs",
                DisplayFormat::Integer,
                Some(HealthThresholds { critical_milli: 1_000, warning_milli: 0, reverse_logic: false }),
                MetricColor::Fixed(Color::Red),
                "Number of failed Microsoft SQL Server Agent jobs",
            ),
            MetricType::CheckpointLag => MetricDefinition::new(
                "Checkpoint Lag",
                DisplayFormat::Duration,
                Some(HealthThresholds { critical_milli: 600_000, warning_milli: 300_000, reverse_logic: false }),
                MetricColor::Fixed(Color::Yellow),
                "Time since the last checkpoint",
            ),
            MetricType::ConnectionAttempts => MetricDefinition::new(
                "Connection Attempts",
                DisplayFormat::Integer,
                None,
                MetricColor::Fixed(Color::Green),
                "Number of attempts to connect to the instance",
            ),
            MetricType::ApproximateNumberOfMessages => MetricDefinition::new(
                "Approximate Number of Messages",
                DisplayFormat::Integer,
                None,
                MetricColor::Fixed(Color::Blue),
                "Approximate number of messages available for retrieval from the queue",
            ),
            MetricType::ApproximateNumberOfMessagesVisible => MetricDefinition::new(
                "Approximate Number of Messages Visible",
                DisplayFormat::Integer,
                None,
                MetricColor::Fixed(Color::Green),
                "Approximate number of messages visible in the queue",
            ),
            MetricType::ApproximateNumberOfMessagesNotVisible => MetricDefinition::new(
                "Approximate Number of Messages Not Visible",
                DisplayFormat::Integer,
                None,
                MetricColor::Fixed(Color::Yellow),
                "Approximate number of messages that are in flight",
            ),
            MetricType::ApproximateAgeOfOldestMessage => MetricDefinition::new(
                "Approximate Age of Oldest Message",
                DisplayFormat::Duration,
                Some(HealthThresholds { critical_milli: 3_600_000, warning_milli: 1_800_000, reverse_logic: false }),
                MetricColor::Fixed(Color::Red),
                "Approximate age of the oldest non-deleted message in the queue",
            ),
            MetricType::ApproximateNumberOfMessagesDelayed => MetricDefinition::new(
                "Approximate Number of Messages Delayed",
                DisplayFormat::Integer,
                None,
                MetricColor::Fixed(Color::Magenta),
                "Approximate number of messages in the queue that are delayed",
            ),
            MetricType::NumberOfMessagesSent => MetricDefinition::new(
                "Number of Messages Sent",
                DisplayFormat::Integer,
                None,
                MetricColor::Fixed(Color::Green),
                "Number of messages added to a queue",
            ),
            MetricType::NumberOfMessagesReceived => MetricDefinition::new(
                "Number of Messages Received",
                DisplayFormat::Integer,
                None,
                MetricColor::Fixed(Color::Blue),
                "Number of messages returned by calls to the ReceiveMessage action",
            ),
            MetricType::NumberOfMessagesDeleted => MetricDefinition::new(
                "Number of Messages Deleted",
                DisplayFormat::Integer,
                None,
                MetricColor::Fixed(Color::Cyan),
                "Number of messages deleted from the queue",
            ),
            MetricType::NumberOfEmptyReceives => MetricDefinition::new(
                "Number of Empty Receives",
                DisplayFormat::Integer,
                None,
                MetricColor::Fixed(Color::Yellow),
                "Number of ReceiveMessage API calls that did not return a message",
            ),
            MetricType::SentMessageSize => MetricDefinition::new(
                "Sent Message Size",
                DisplayFormat::Bytes,
                None,
                MetricColor::Fixed(Color::Magenta),
                "Size of messages added to a queue",
            ),
            _ => MetricDefinition::new(
                "Unknown Metric",
                DisplayFormat::Decimal(2),
                None,
                MetricColor::Fixed(Color::Gray),
                "Unknown metric type",
            ),
        }
    }
}

/// Every catalogue entry that has health thresholds has them ordered.
pub proof fn lemma_registry_thresholds_ordered(metric_type: MetricType)
    ensures
        registry_definition(metric_type).thresholds matches Some(t) ==> thresholds_ordered(t),
{
}

/// Where an entry has health thresholds, lower readings are the worse ones exactly
/// for the metrics that measure what is left, and the critical level lies past the
/// warning level in that direction.
pub proof fn lemma_registry_threshold_direction(metric_type: MetricType)
    ensures
        registry_definition(metric_type).thresholds matches Some(t) ==> {
            &&& t.reverse_logic == measures_remaining(metric_type)
            &&& measures_remaining(metric_type) ==> t.critical_milli < t.warning_milli
            &&& !measures_remaining(metric_type) ==> t.warning_milli < t.critical_milli
        },
{
}

} // verus!
