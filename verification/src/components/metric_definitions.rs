//! The catalogue of CloudWatch metrics: display name, unit, display format, health
//! thresholds, chart colour and description of each metric type.
//!
//! Thresholds are held in thousandths of the metric's unit, so that every catalogue
//! value is exact; `critical_milli as f64 / 1000.0` is the threshold as a reading.
use vstd::prelude::*;
use crate::models::{AwsService, MetricType};
use crate::style::Color;

verus! {

broadcast use vstd::string::group_string_axioms;

/// Health thresholds of a metric, in thousandths of the metric's unit.
#[derive(Debug, Clone, Copy, PartialEq, Eq, Structural)]
pub struct HealthThresholds {
    pub critical_milli: u64,
    pub warning_milli: u64,
    /// true for metrics where lower values are bad (like free memory)
    pub reverse_logic: bool,
}

/// The unit a metric is measured in.
#[derive(Debug, Clone, Copy, PartialEq, Eq, Structural)]
pub enum MetricUnit {
    Percent,
    Count,
    Seconds,
    Bytes,
    BytesPerSecond,
    Credits,
}

/// How a reading of a metric is written.
#[derive(Debug, Clone, Copy, PartialEq, Eq, Structural)]
pub enum DisplayFormat {
    Integer,
    /// number of decimal places
    Decimal(u8),
    Bytes,
    Duration,
    Percentage,
}

/// The catalogue entry of a metric.
#[derive(Debug, Clone)]
pub struct MetricDefinition {
    pub name: &'static str,
    pub unit: MetricUnit,
    pub display_format: DisplayFormat,
    pub thresholds: Option<HealthThresholds>,
    pub color: Color,
    pub description: &'static str,
}

/// The suffix written after a reading in the unit.
pub open spec fn spec_unit_suffix(unit: MetricUnit) -> Seq<char> {
    match unit {
        MetricUnit::Percent => "%"@,
        MetricUnit::Count => ""@,
        MetricUnit::Seconds => "s"@,
        MetricUnit::Bytes => "B"@,
        MetricUnit::BytesPerSecond => "B/s"@,
        MetricUnit::Credits => " Credits"@,
    }
}

impl MetricDefinition {
    /// Get unit suffix for display.
    pub fn unit_suffix(&self) -> (res: &'static str)
        ensures
            res@ == spec_unit_suffix(self.unit),
    {
        match self.unit {
            MetricUnit::Percent => "%",
            MetricUnit::Count => "",
            MetricUnit::Seconds => "s",
            MetricUnit::Bytes => "B",
            MetricUnit::BytesPerSecond => "B/s",
            MetricUnit::Credits => " Credits",
        }
    }
}

/// A catalogue entry.
pub open spec fn spec_define(
    name: &'static str,
    unit: MetricUnit,
    display_format: DisplayFormat,
    thresholds: Option<HealthThresholds>,
    color: Color,
    description: &'static str,
) -> MetricDefinition {
    MetricDefinition { name, unit, display_format, thresholds, color, description }
}

fn define(
    name: &'static str,
    unit: MetricUnit,
    display_format: DisplayFormat,
    thresholds: Option<HealthThresholds>,
    color: Color,
    description: &'static str,
) -> (res: MetricDefinition)
    ensures
        res == spec_define(name, unit, display_format, thresholds, color, description),
{
    MetricDefinition { name, unit, display_format, thresholds, color, description }
}

/// The catalogue: the entry of each metric type; types without an entry of their
/// own share the "Unknown Metric" entry.
pub open spec fn definition_of(metric_type: MetricType) -> MetricDefinition {
    match metric_type {
        MetricType::CpuUtilization => spec_define(
            "CPU Utilization",
            MetricUnit::Percent,
            DisplayFormat::Percentage,
            Some(HealthThresholds { critical_milli: 80_000, warning_milli: 60_000, reverse_logic: false }),
            Color::Blue,
            "Percentage of CPU utilization",
        ),
        MetricType::FreeStorageSpace => spec_define(
            "Free Storage Space",
            MetricUnit::Bytes,
            DisplayFormat::Bytes,
            Some(HealthThresholds { critical_milli: 1_073_741_824_000, warning_milli: 5_368_709_120_000, reverse_logic: true }),
            Color::Cyan,
            "Amount of available storage space",
        ),
        MetricType::ReadLatency => spec_define(
            "Read Latency",
            MetricUnit::Seconds,
            DisplayFormat::Duration,
            Some(HealthThresholds { critical_milli: 100, warning_milli: 50, reverse_logic: false }),
            Color::Red,
            "Average time taken for read operations",
        ),
        MetricType::WriteLatency => spec_define(
            "Write Latency",
            MetricUnit::Seconds,
            DisplayFormat::Duration,
            Some(HealthThresholds { critical_milli: 100, warning_milli: 50, reverse_logic: false }),
            Color::Magenta,
            "Average time taken for write operations",
        ),
        MetricType::ReadIops => spec_define(
            "Read IOPS",
            MetricUnit::Count,
            DisplayFormat::Integer,
            None,
            Color::Green,
            "Read input/output operations per second",
        ),
        MetricType::WriteIops => spec_define(
            "Write IOPS",
            MetricUnit::Count,
            DisplayFormat::Integer,
            None,
            Color::Yellow,
            "Write input/output operations per second",
        ),
        MetricType::ReadThroughput => spec_define(
            "Read Throughput",
            MetricUnit::BytesPerSecond,
            DisplayFormat::Bytes,
            None,
            Color::Cyan,
            "Read throughput in bytes per second",
        ),
        MetricType::WriteThroughput => spec_define(
            "Write Throughput",
            MetricUnit::BytesPerSecond,
            DisplayFormat::Bytes,
            None,
            Color::Magenta,
            "Write throughput in bytes per second",
        ),
        MetricType::NetworkReceiveThroughput => spec_define(
            "Network Receive Throughput",
            MetricUnit::BytesPerSecond,
            DisplayFormat::Bytes,
            None,
            Color::LightGreen,
            "Network receive throughput in bytes per second",
        ),
        MetricType::NetworkTransmitThroughput => spec_define(
            "Network Transmit Throughput",
            MetricUnit::BytesPerSecond,
            DisplayFormat::Bytes,
            None,
            Color::LightBlue,
            "Network transmit throughput in bytes per second",
        ),
        MetricType::SwapUsage => spec_define(
            "Swap Usage",
            MetricUnit::Bytes,
            DisplayFormat::Bytes,
            Some(HealthThresholds { critical_milli: 1_073_741_824_000, warning_milli: 536_870_912_000, reverse_logic: false }),
            Color::LightRed,
            "Amount of swap space used",
        ),
        MetricType::QueueDepth => spec_define(
            "Queue Depth",
            MetricUnit::Count,
            DisplayFormat::Integer,
            Some(HealthThresholds { critical_milli: 10_000, warning_milli: 5_000, reverse_logic: false }),
            Color::LightYellow,
            "Number of outstanding I/O requests",
        ),
        MetricType::BurstBalance => spec_define(
            "Burst Balance",
            MetricUnit::Percent,
            DisplayFormat::Percentage,
            Some(HealthThresholds { critical_milli: 20_000, warning_milli: 50_000, reverse_logic: true }),
            Color::LightCyan,
            "Percentage of burst bucket credits available",
        ),
        MetricType::CpuCreditUsage => spec_define(
            "CPU Credit Usage",
            MetricUnit::Credits,
            DisplayFormat::Decimal(2),
            None,
            Color::LightMagenta,
            "CPU credits consumed by the instance",
        ),
        MetricType::CpuCreditBalance => spec_define(
            "CPU Credit Balance",
            MetricUnit::Credits,
            DisplayFormat::Decimal(2),
            Some(HealthThresholds { critical_milli: 50_000, warning_milli: 100_000, reverse_logic: true }),
            Color::Green,
            "Number of earned CPU credits accumulated",
        ),
        MetricType::CpuSurplusCreditBalance => spec_define(
            "CPU Surplus Credit Balance",
            MetricUnit::Credits,
            DisplayFormat::Decimal(2),
            None,
            Color::DarkGray,
            "Number of surplus CPU credits spent",
        ),
        MetricType::CpuSurplusCreditsCharged => spec_define(
            "CPU Surplus Credits Charged",
            MetricUnit::Credits,
            DisplayFormat::Decimal(2),
            None,
            Color::Gray,
            "Number of surplus CPU credits charged",
        ),
        MetricType::EbsByteBalance => spec_define(
            "EBS Byte Balance",
            MetricUnit::Percent,
            DisplayFormat::Percentage,
            Some(HealthThresholds { critical_milli: 20_000, warning_milli: 50_000, reverse_logic: true }),
            Color::Cyan,
            "Percentage of throughput credits available",
        ),
        MetricType::EbsIoBalance => spec_define(
            "EBS IO Balance",
            MetricUnit::Percent,
            DisplayFormat::Percentage,
            Some(HealthThresholds { critical_milli: 20_000, warning_milli: 50_000, reverse_logic: true }),
            Color::Blue,
            "Percentage of I/O credits available",
        ),
        MetricType::BinLogDiskUsage => spec_define(
            "Binary Log Disk Usage",
            MetricUnit::Bytes,
            DisplayFormat::Bytes,
            Some(HealthThresholds { critical_milli: 5_368_709_120_000, warning_milli: 1_073_741_824_000, reverse_logic: false }),
            Color::LightRed,
            "Amount of disk space occupied by binary logs",
        ),
        MetricType::ReplicaLag => spec_define(
            "Replica Lag",
            MetricUnit::Seconds,
            DisplayFormat::Duration,
            Some(HealthThresholds { critical_milli: 300_000, warning_milli: 60_000, reverse_logic: false }),
            Color::Red,
            "Amount of time a read replica lags behind",
        ),
        MetricType::MaximumUsedTransactionIds => spec_define(
            "Maximum Used Transaction IDs",
            MetricUnit::Count,
            DisplayFormat::Integer,
            Some(HealthThresholds { critical_milli: 1_500_000_000_000, warning_milli: 1_000_000_000_000, reverse_logic: false }),
            Color::LightRed,
            "Maximum transaction IDs used (PostgreSQL)",
        ),
        MetricType::OldestReplicationSlotLag => spec_define(
            "Oldest Replication Slot Lag",
            MetricUnit::Bytes,
            DisplayFormat::Bytes,
            Some(HealthThresholds { critical_milli: 10_737_418_240_000, warning_milli: 5_368_709_120_000, reverse_logic: false }),
            Color::LightYellow,
            "Lag of the oldest replication slot",
        ),
        MetricType::OldestLogicalReplicationSlotLag => spec_define(
            "Oldest Logical Replication Slot Lag",
            MetricUnit::Bytes,
            DisplayFormat::Bytes,
            Some(HealthThresholds { critical_milli: 10_737_418_240_000, warning_milli: 5_368_709_120_000, reverse_logic: false }),
            Color::Yellow,
            "Lag of the oldest logical replication slot",
        ),
        MetricType::ReplicationSlotDiskUsage => spec_define(
            "Replication Slot Disk Usage",
            MetricUnit::Bytes,
            DisplayFormat::Bytes,
            Some(HealthThresholds { critical_milli: 5_368_709_120_000, warning_milli: 1_073_741_824_000, reverse_logic: false }),
            Color::LightCyan,
            "Disk space used by replication slots",
        ),
        MetricType::TransactionLogsDiskUsage => spec_define(
            "Transaction Logs Disk Usage",
            MetricUnit::Bytes,
            DisplayFormat::Bytes,
            Some(HealthThresholds { critical_milli: 10_737_418_240_000, warning_milli: 5_368_709_120_000, reverse_logic: false }),
            Color::Magenta,
            "Disk space used by transaction logs",
        ),
        MetricType::TransactionLogsGeneration => spec_define(
            "Transaction Logs Generation",
            MetricUnit::BytesPerSecond,
            DisplayFormat::Bytes,
            None,
            Color::LightMagenta,
            "Rate of transaction log generation",
        ),
        MetricType::FailedSqlServerAgentJobsCount => spec_define(
            "Failed SQL Server Agent Jobs",
            MetricUnit::Count,
            DisplayFormat::Integer,
            Some(HealthThresholds { critical_milli: 3_000, warning_milli: 1_000, reverse_logic: false }),
            Color::Red,
            "Number of failed SQL Server Agent jobs",
        ),
        MetricType::CheckpointLag => spec_define(
            "Checkpoint Lag",
            MetricUnit::Seconds,
            DisplayFormat::Duration,
            Some(HealthThresholds { critical_milli: 300_000, warning_milli: 120_000, reverse_logic: false }),
            Color::LightBlue,
            "Time since last checkpoint",
        ),
        MetricType::ConnectionAttempts => spec_define(
            "Connection Attempts",
            MetricUnit::Count,
            DisplayFormat::Integer,
            None,
            Color::Blue,
            "Number of connection attempts to the database",
        ),
        MetricType::FreeableMemory => spec_define(
            "Freeable Memory",
            MetricUnit::Bytes,
            DisplayFormat::Bytes,
            Some(HealthThresholds { critical_milli: 536_870_912_000, warning_milli: 1_073_741_824_000, reverse_logic: true }),
            Color::LightBlue,
            "Amount of available RAM",
        ),
        MetricType::ApproximateNumberOfMessagesVisible => spec_define(
            "Messages Visible",
            MetricUnit::Count,
            DisplayFormat::Integer,
            Some(HealthThresholds { critical_milli: 1_000_000, warning_milli: 100_000, reverse_logic: false }),
            Color::LightCyan,
            "Messages available for retrieval from the queue",
        ),
        MetricType::ApproximateNumberOfMessagesNotVisible => spec_define(
            "Messages Not Visible",
            MetricUnit::Count,
            DisplayFormat::Integer,
            Some(HealthThresholds { critical_milli: 500_000, warning_milli: 50_000, reverse_logic: false }),
            Color::Magenta,
            "Messages that are in flight",
        ),
        MetricType::ApproximateAgeOfOldestMessage => spec_define(
            "Oldest Message Age",
            MetricUnit::Seconds,
            DisplayFormat::Duration,
            Some(HealthThresholds { critical_milli: 3_600_000, warning_milli: 300_000, reverse_logic: false }),
            Color::Red,
            "Age of the oldest message in the queue",
        ),
        MetricType::ApproximateNumberOfMessagesDelayed => spec_define(
            "Messages Delayed",
            MetricUnit::Count,
            DisplayFormat::Integer,
            Some(HealthThresholds { critical_milli: 100_000, warning_milli: 10_000, reverse_logic: false }),
            Color::LightRed,
            "Messages that are delayed and not yet visible",
        ),
        MetricType::NumberOfMessagesSent => spec_define(
            "Messages Sent",
            MetricUnit::Count,
            DisplayFormat::Integer,
            None,
            Color::Green,
            "Number of messages sent to the queue",
        ),
        MetricType::NumberOfMessagesReceived => spec_define(
            "Messages Received",
            MetricUnit::Count,
            DisplayFormat::Integer,
            None,
            Color::Blue,
            "Number of messages received from the queue",
        ),
        MetricType::NumberOfMessagesDeleted => spec_define(
            "Messages Deleted",
            MetricUnit::Count,
            DisplayFormat::Integer,
            None,
            Color::Yellow,
            "Number of messages deleted from the queue",
        ),
        MetricType::NumberOfMessagesInDlq => spec_define(
            "DLQ Messages",
            MetricUnit::Count,
            DisplayFormat::Integer,
            Some(HealthThresholds { critical_milli: 10_000, warning_milli: 1_000, reverse_logic: false }),
            Color::Red,
            "Messages in the dead letter queue",
        ),
        MetricType::ApproximateNumberOfMessages => spec_define(
            "Total Queue Depth",
            MetricUnit::Count,
            DisplayFormat::Integer,
            Some(HealthThresholds { critical_milli: 1_000_000, warning_milli: 100_000, reverse_logic: false }),
            Color::Cyan,
            "Total number of messages in the queue",
        ),
        MetricType::SentMessageSize => spec_define(
            "Message Size",
            MetricUnit::Bytes,
            DisplayFormat::Bytes,
            Some(HealthThresholds { critical_milli: 204_800_000, warning_milli: 102_400_000, reverse_logic: false }),
            Color::LightGreen,
            "Size of messages sent to the queue",
        ),
        MetricType::NumberOfEmptyReceives => spec_define(
            "Empty Receives",
            MetricUnit::Count,
            DisplayFormat::Integer,
            Some(HealthThresholds { critical_milli: 1_000_000, warning_milli: 100_000, reverse_logic: false }),
            Color::Gray,
            "Number of empty receives from the queue",
        ),
        MetricType::ApproximateNumberOfGroupsWithInflightMessages => spec_define(
            "Groups with In-flight Messages",
            MetricUnit::Count,
            DisplayFormat::Integer,
            Some(HealthThresholds { critical_milli: 100_000, warning_milli: 50_000, reverse_logic: false }),
            Color::LightBlue,
            "Number of message groups with in-flight messages",
        ),
        MetricType::NumberOfDeduplicatedSentMessages => spec_define(
            "Deduplicated Messages",
            MetricUnit::Count,
            DisplayFormat::Integer,
            None,
            Color::LightBlue,
            "Number of messages sent after deduplication",
        ),
        _ => spec_define(
            "Unknown Metric",
            MetricUnit::Count,
            DisplayFormat::Decimal(2),
            None,
            Color::Gray,
            "Unknown metric type",
        ),
    }
}

/// The metrics offered for a service, in display order.
pub open spec fn service_metrics(service: AwsService) -> Seq<MetricType> {
    match service {
        AwsService::Rds => seq![MetricType::CpuUtilization, MetricType::FreeStorageSpace, MetricType::ReadLatency, MetricType::WriteLatency, MetricType::ReadIops, MetricType::WriteIops, MetricType::FreeableMemory],
        AwsService::Sqs => seq![MetricType::ApproximateNumberOfMessagesVisible, MetricType::ApproximateNumberOfMessagesNotVisible, MetricType::ApproximateAgeOfOldestMessage, MetricType::ApproximateNumberOfMessagesDelayed, MetricType::NumberOfMessagesSent, MetricType::NumberOfMessagesReceived, MetricType::NumberOfMessagesDeleted, MetricType::NumberOfMessagesInDlq],
    }
}

/// AWS console-style metric definitions registry.
#[derive(Debug)]
pub struct MetricRegistry;

impl MetricRegistry {
    /// Get metric definition for a given metric type.
    pub fn get_definition(metric_type: &MetricType) -> (res: MetricDefinition)
        ensures
            res == definition_of(*metric_type),
    {
        match *metric_type {
            MetricType::CpuUtilization => define(
                "CPU Utilization",
                MetricUnit::Percent,
                DisplayFormat::Percentage,
                Some(HealthThresholds { critical_milli: 80_000, warning_milli: 60_000, reverse_logic: false }),
                Color::Blue,
                "Percentage of CPU utilization",
            ),
            MetricType::FreeStorageSpace => define(
                "Free Storage Space",
                MetricUnit::Bytes,
                DisplayFormat::Bytes,
                Some(HealthThresholds { critical_milli: 1_073_741_824_000, warning_milli: 5_368_709_120_000, reverse_logic: true }),
                Color::Cyan,
                "Amount of available storage space",
            ),
            MetricType::ReadLatency => define(
                "Read Latency",
                MetricUnit::Seconds,
                DisplayFormat::Duration,
                Some(HealthThresholds { critical_milli: 100, warning_milli: 50, reverse_logic: false }),
                Color::Red,
                "Average time taken for read operations",
            ),
            MetricType::WriteLatency => define(
                "Write Latency",
                MetricUnit::Seconds,
                DisplayFormat::Duration,
                Some(HealthThresholds { critical_milli: 100, warning_milli: 50, reverse_logic: false }),
                Color::Magenta,
                "Average time taken for write operations",
            ),
            MetricType::ReadIops => define(
                "Read IOPS",
                MetricUnit::Count,
                DisplayFormat::Integer,
                None,
                Color::Green,
                "Read input/output operations per second",
            ),
            MetricType::WriteIops => define(
                "Write IOPS",
                MetricUnit::Count,
                DisplayFormat::Integer,
                None,
                Color::Yellow,
                "Write input/output operations per second",
            ),
            MetricType::ReadThroughput => define(
                "Read Throughput",
                MetricUnit::BytesPerSecond,
                DisplayFormat::Bytes,
                None,
                Color::Cyan,
                "Read throughput in bytes per second",
            ),
            MetricType::WriteThroughput => define(
                "Write Throughput",
                MetricUnit::BytesPerSecond,
                DisplayFormat::Bytes,
                None,
                Color::Magenta,
                "Write throughput in bytes per second",
            ),
            MetricType::NetworkReceiveThroughput => define(
                "Network Receive Throughput",
                MetricUnit::BytesPerSecond,
                DisplayFormat::Bytes,
                None,
                Color::LightGreen,
                "Network receive throughput in bytes per second",
            ),
            MetricType::NetworkTransmitThroughput => define(
                "Network Transmit Throughput",
                MetricUnit::BytesPerSecond,
                DisplayFormat::Bytes,
                None,
                Color::LightBlue,
                "Network transmit throughput in bytes per second",
            ),
            MetricType::SwapUsage => define(
                "Swap Usage",
                MetricUnit::Bytes,
                DisplayFormat::Bytes,
                Some(HealthThresholds { critical_milli: 1_073_741_824_000, warning_milli: 536_870_912_000, reverse_logic: false }),
                Color::LightRed,
                "Amount of swap space used",
            ),
            MetricType::QueueDepth => define(
                "Queue Depth",
                MetricUnit::Count,
                DisplayFormat::Integer,
                Some(HealthThresholds { critical_milli: 10_000, warning_milli: 5_000, reverse_logic: false }),
                Color::LightYellow,
                "Number of outstanding I/O requests",
            ),
            MetricType::BurstBalance => define(
                "Burst Balance",
                MetricUnit::Percent,
                DisplayFormat::Percentage,
                Some(HealthThresholds { critical_milli: 20_000, warning_milli: 50_000, reverse_logic: true }),
                Color::LightCyan,
                "Percentage of burst bucket credits available",
            ),
            MetricType::CpuCreditUsage => define(
                "CPU Credit Usage",
                MetricUnit::Credits,
                DisplayFormat::Decimal(2),
                None,
                Color::LightMagenta,
                "CPU credits consumed by the instance",
            ),
            MetricType::CpuCreditBalance => define(
                "CPU Credit Balance",
                MetricUnit::Credits,
                DisplayFormat::Decimal(2),
                Some(HealthThresholds { critical_milli: 50_000, warning_milli: 100_000, reverse_logic: true }),
                Color::Green,
                "Number of earned CPU credits accumulated",
            ),
            MetricType::CpuSurplusCreditBalance => define(
                "CPU Surplus Credit Balance",
                MetricUnit::Credits,
                DisplayFormat::Decimal(2),
                None,
                Color::DarkGray,
                "Number of surplus CPU credits spent",
            ),
            MetricType::CpuSurplusCreditsCharged => define(
                "CPU Surplus Credits Charged",
                MetricUnit::Credits,
                DisplayFormat::Decimal(2),
                None,
                Color::Gray,
                "Number of surplus CPU credits charged",
            ),
            MetricType::EbsByteBalance => define(
                "EBS Byte Balance",
                MetricUnit::Percent,
                DisplayFormat::Percentage,
                Some(HealthThresholds { critical_milli: 20_000, warning_milli: 50_000, reverse_logic: true }),
                Color::Cyan,
                "Percentage of throughput credits available",
            ),
            MetricType::EbsIoBalance => define(
                "EBS IO Balance",
                MetricUnit::Percent,
                DisplayFormat::Percentage,
                Some(HealthThresholds { critical_milli: 20_000, warning_milli: 50_000, reverse_logic: true }),
                Color::Blue,
                "Percentage of I/O credits available",
            ),
            MetricType::BinLogDiskUsage => define(
                "Binary Log Disk Usage",
                MetricUnit::Bytes,
                DisplayFormat::Bytes,
                Some(HealthThresholds { critical_milli: 5_368_709_120_000, warning_milli: 1_073_741_824_000, reverse_logic: false }),
                Color::LightRed,
                "Amount of disk space occupied by binary logs",
            ),
            MetricType::ReplicaLag => define(
                "Replica Lag",
                MetricUnit::Seconds,
                DisplayFormat::Duration,
                Some(HealthThresholds { critical_milli: 300_000, warning_milli: 60_000, reverse_logic: false }),
                Color::Red,
                "Amount of time a read replica lags behind",
            ),
            MetricType::MaximumUsedTransactionIds => define(
                "Maximum Used Transaction IDs",
                MetricUnit::Count,
                DisplayFormat::Integer,
                Some(HealthThresholds { critical_milli: 1_500_000_000_000, warning_milli: 1_000_000_000_000, reverse_logic: false }),
                Color::LightRed,
                "Maximum transaction IDs used (PostgreSQL)",
            ),
            MetricType::OldestReplicationSlotLag => define(
                "Oldest Replication Slot Lag",
                MetricUnit::Bytes,
                DisplayFormat::Bytes,
                Some(HealthThresholds { critical_milli: 10_737_418_240_000, warning_milli: 5_368_709_120_000, reverse_logic: false }),
                Color::LightYellow,
                "Lag of the oldest replication slot",
            ),
            MetricType::OldestLogicalReplicationSlotLag => define(
                "Oldest Logical Replication Slot Lag",
                MetricUnit::Bytes,
                DisplayFormat::Bytes,
                Some(HealthThresholds { critical_milli: 10_737_418_240_000, warning_milli: 5_368_709_120_000, reverse_logic: false }),
                Color::Yellow,
                "Lag of the oldest logical replication slot",
            ),
            MetricType::ReplicationSlotDiskUsage => define(
                "Replication Slot Disk Usage",
                MetricUnit::Bytes,
                DisplayFormat::Bytes,
                Some(HealthThresholds { critical_milli: 5_368_709_120_000, warning_milli: 1_073_741_824_000, reverse_logic: false }),
                Color::LightCyan,
                "Disk space used by replication slots",
            ),
            MetricType::TransactionLogsDiskUsage => define(
                "Transaction Logs Disk Usage",
                MetricUnit::Bytes,
                DisplayFormat::Bytes,
                Some(HealthThresholds { critical_milli: 10_737_418_240_000, warning_milli: 5_368_709_120_000, reverse_logic: false }),
                Color::Magenta,
                "Disk space used by transaction logs",
            ),
            MetricType::TransactionLogsGeneration => define(
                "Transaction Logs Generation",
                MetricUnit::BytesPerSecond,
                DisplayFormat::Bytes,
                None,
                Color::LightMagenta,
                "Rate of transaction log generation",
            ),
            MetricType::FailedSqlServerAgentJobsCount => define(
                "Failed SQL Server Agent Jobs",
                MetricUnit::Count,
                DisplayFormat::Integer,
                Some(HealthThresholds { critical_milli: 3_000, warning_milli: 1_000, reverse_logic: false }),
                Color::Red,
                "Number of failed SQL Server Agent jobs",
            ),
            MetricType::CheckpointLag => define(
                "Checkpoint Lag",
                MetricUnit::Seconds,
                DisplayFormat::Duration,
                Some(HealthThresholds { critical_milli: 300_000, warning_milli: 120_000, reverse_logic: false }),
                Color::LightBlue,
                "Time since last checkpoint",
            ),
            MetricType::ConnectionAttempts => define(
                "Connection Attempts",
                MetricUnit::Count,
                DisplayFormat::Integer,
                None,
                Color::Blue,
                "Number of connection attempts to the database",
            ),
            MetricType::FreeableMemory => define(
                "Freeable Memory",
                MetricUnit::Bytes,
                DisplayFormat::Bytes,
                Some(HealthThresholds { critical_milli: 536_870_912_000, warning_milli: 1_073_741_824_000, reverse_logic: true }),
                Color::LightBlue,
                "Amount of available RAM",
            ),
            MetricType::ApproximateNumberOfMessagesVisible => define(
                "Messages Visible",
                MetricUnit::Count,
                DisplayFormat::Integer,
                Some(HealthThresholds { critical_milli: 1_000_000, warning_milli: 100_000, reverse_logic: false }),
                Color::LightCyan,
                "Messages available for retrieval from the queue",
            ),
            MetricType::ApproximateNumberOfMessagesNotVisible => define(
                "Messages Not Visible",
                MetricUnit::Count,
                DisplayFormat::Integer,
                Some(HealthThresholds { critical_milli: 500_000, warning_milli: 50_000, reverse_logic: false }),
                Color::Magenta,
                "Messages that are in flight",
            ),
            MetricType::ApproximateAgeOfOldestMessage => define(
                "Oldest Message Age",
                MetricUnit::Seconds,
                DisplayFormat::Duration,
                Some(HealthThresholds { critical_milli: 3_600_000, warning_milli: 300_000, reverse_logic: false }),
                Color::Red,
                "Age of the oldest message in the queue",
            ),
            MetricType::ApproximateNumberOfMessagesDelayed => define(
                "Messages Delayed",
                MetricUnit::Count,
                DisplayFormat::Integer,
                Some(HealthThresholds { critical_milli: 100_000, warning_milli: 10_000, reverse_logic: false }),
                Color::LightRed,
                "Messages that are delayed and not yet visible",
            ),
            MetricType::NumberOfMessagesSent => define(
                "Messages Sent",
                MetricUnit::Count,
                DisplayFormat::Integer,
                None,
                Color::Green,
                "Number of messages sent to the queue",
            ),
            MetricType::NumberOfMessagesReceived => define(
                "Messages Received",
                MetricUnit::Count,
                DisplayFormat::Integer,
                None,
                Color::Blue,
                "Number of messages received from the queue",
            ),
            MetricType::NumberOfMessagesDeleted => define(
                "Messages Deleted",
                MetricUnit::Count,
                DisplayFormat::Integer,
                None,
                Color::Yellow,
                "Number of messages deleted from the queue",
            ),
            MetricType::NumberOfMessagesInDlq => define(
                "DLQ Messages",
                MetricUnit::Count,
                DisplayFormat::Integer,
                Some(HealthThresholds { critical_milli: 10_000, warning_milli: 1_000, reverse_logic: false }),
                Color::Red,
                "Messages in the dead letter queue",
            ),
            MetricType::ApproximateNumberOfMessages => define(
                "Total Queue Depth",
                MetricUnit::Count,
                DisplayFormat::Integer,
                Some(HealthThresholds { critical_milli: 1_000_000, warning_milli: 100_000, reverse_logic: false }),
                Color::Cyan,
                "Total number of messages in the queue",
            ),
            MetricType::SentMessageSize => define(
                "Message Size",
                MetricUnit::Bytes,
                DisplayFormat::Bytes,
                Some(HealthThresholds { critical_milli: 204_800_000, warning_milli: 102_400_000, reverse_logic: false }),
                Color::LightGreen,
                "Size of messages sent to the queue",
            ),
            MetricType::NumberOfEmptyReceives => define(
                "Empty Receives",
                MetricUnit::Count,
                DisplayFormat::Integer,
                Some(HealthThresholds { critical_milli: 1_000_000, warning_milli: 100_000, reverse_logic: false }),
                Color::Gray,
                "Number of empty receives from the queue",
            ),
            MetricType::ApproximateNumberOfGroupsWithInflightMessages => define(
                "Groups with In-flight Messages",
                MetricUnit::Count,
                DisplayFormat::Integer,
                Some(HealthThresholds { critical_milli: 100_000, warning_milli: 50_000, reverse_logic: false }),
                Color::LightBlue,
                "Number of message groups with in-flight messages",
            ),
            MetricType::NumberOfDeduplicatedSentMessages => define(
                "Deduplicated Messages",
                MetricUnit::Count,
                DisplayFormat::Integer,
                None,
                Color::LightBlue,
                "Number of messages sent after deduplication",
            ),
            _ => define(
                "Unknown Metric",
                MetricUnit::Count,
                DisplayFormat::Decimal(2),
                None,
                Color::Gray,
                "Unknown metric type",
            ),
        }
    }

    /// Get all available metrics for a service.
    pub fn get_available_metrics_for_service(service: &AwsService) -> (res: Vec<MetricType>)
        ensures
            res@ == service_metrics(*service),
    {
        match *service {
            AwsService::Rds => {
                let v = vec![MetricType::CpuUtilization, MetricType::FreeStorageSpace, MetricType::ReadLatency, MetricType::WriteLatency, MetricType::ReadIops, MetricType::WriteIops, MetricType::FreeableMemory];
                assert(v@ =~= service_metrics(*service));
                v
            },
            AwsService::Sqs => {
                let v = vec![MetricType::ApproximateNumberOfMessagesVisible, MetricType::ApproximateNumberOfMessagesNotVisible, MetricType::ApproximateAgeOfOldestMessage, MetricType::ApproximateNumberOfMessagesDelayed, MetricType::NumberOfMessagesSent, MetricType::NumberOfMessagesReceived, MetricType::NumberOfMessagesDeleted, MetricType::NumberOfMessagesInDlq];
                assert(v@ =~= service_metrics(*service));
                v
            },
        }
    }
}

/// The warning level of a threshold pair lies on the healthy side of its critical
/// level: below it where higher readings are worse, above it where lower are worse.
pub open spec fn thresholds_ordered(t: HealthThresholds) -> bool {
    if t.reverse_logic {
        t.critical_milli < t.warning_milli
    } else {
        t.warning_milli < t.critical_milli
    }
}

/// Metrics that measure what is left (free storage, freeable memory, a remaining
/// burst, credit or EBS balance): for these a low reading is the bad one.
pub open spec fn measures_remaining(metric_type: MetricType) -> bool {
    match metric_type {
        MetricType::FreeStorageSpace
        | MetricType::FreeableMemory
        | MetricType::BurstBalance
        | MetricType::CpuCreditBalance
        | MetricType::EbsByteBalance
        | MetricType::EbsIoBalance => true,
        _ => false,
    }
}

/// The catalogue judges a reading in the direction of what the metric measures:
/// where it has health thresholds, lower readings are the worse ones exactly for
/// the metrics that measure what is left, and the critical level lies past the
/// warning level in that direction.
pub proof fn lemma_catalogue_threshold_direction(metric_type: MetricType)
    ensures
        definition_of(metric_type).thresholds matches Some(t) ==> {
            &&& t.reverse_logic == measures_remaining(metric_type)
            &&& measures_remaining(metric_type) ==> t.critical_milli < t.warning_milli
            &&& !measures_remaining(metric_type) ==> t.warning_milli < t.critical_milli
        },
{
}

/// Every catalogue entry that has health thresholds has them ordered, so that a
/// reading is never both past the critical level and short of the warning level.
pub proof fn lemma_catalogue_thresholds_ordered(metric_type: MetricType)
    ensures
        definition_of(metric_type).thresholds matches Some(t) ==> thresholds_ordered(t),
{
}

/// Every metric offered for a service has an entry of its own in the catalogue.
pub proof fn lemma_offered_metrics_catalogued(service: AwsService, i: int)
    requires
        0 <= i < service_metrics(service).len(),
    ensures
        definition_of(service_metrics(service)[i]).name@ != "Unknown Metric"@,
{
    reveal_strlit("Unknown Metric");
    reveal_strlit("CPU Utilization");
    reveal_strlit("Free Storage Space");
    reveal_strlit("Read Latency");
    reveal_strlit("Write Latency");
    reveal_strlit("Read IOPS");
    reveal_strlit("Write IOPS");
    reveal_strlit("Freeable Memory");
    reveal_strlit("Messages Visible");
    reveal_strlit("Messages Not Visible");
    reveal_strlit("Oldest Message Age");
    reveal_strlit("Messages Delayed");
    reveal_strlit("Messages Sent");
    reveal_strlit("Messages Received");
    reveal_strlit("Messages Deleted");
    reveal_strlit("DLQ Messages");
    let m = service_metrics(service)[i];
    assert(definition_of(m).name@.len() != 14) by {
        match service {
            AwsService::Rds => {
                assert(i == 0 || i == 1 || i == 2 || i == 3 || i == 4 || i == 5 || i == 6);
            },
            AwsService::Sqs => {
                assert(i == 0 || i == 1 || i == 2 || i == 3 || i == 4 || i == 5 || i == 6 || i == 7);
            },
        }
    }
}

} // verus!
