//! The CloudWatch unit of each metric type.
use vstd::prelude::*;
use crate::models::{MetricData, MetricSeries, MetricType};
use crate::components::metric_definitions::{definition_of, MetricRegistry, MetricUnit};
use crate::text::str_eq;

verus! {

broadcast use vstd::string::group_string_axioms;

/// The CloudWatch unit name of a metric type.
pub open spec fn metric_unit(metric_type: MetricType) -> Seq<char> {
    match metric_type {
        MetricType::CpuUtilization | MetricType::BurstBalance | MetricType::Percentage => "Percent"@,
        MetricType::DatabaseConnections
        | MetricType::ReadIops
        | MetricType::WriteIops
        | MetricType::QueueDepth
        | MetricType::ConnectionAttempts
        | MetricType::MaximumUsedTransactionIds
        | MetricType::FailedSqlServerAgentJobsCount
        | MetricType::NumberOfMessagesSent
        | MetricType::NumberOfMessagesReceived
        | MetricType::NumberOfMessagesDeleted
        | MetricType::ApproximateNumberOfMessages
        | MetricType::ApproximateNumberOfMessagesVisible
        | MetricType::ApproximateNumberOfMessagesNotVisible
        | MetricType::NumberOfEmptyReceives
        | MetricType::ApproximateNumberOfMessagesDelayed
        | MetricType::NumberOfMessagesInDlq
        | MetricType::ApproximateNumberOfGroupsWithInflightMessages
        | MetricType::NumberOfDeduplicatedSentMessages
        | MetricType::Count => "Count"@,
        MetricType::ReadLatency
        | MetricType::WriteLatency
        | MetricType::ReplicaLag
        | MetricType::CheckpointLag
        | MetricType::ApproximateAgeOfOldestMessage
        | MetricType::Seconds => "Seconds"@,
        MetricType::FreeStorageSpace
        | MetricType::FreeableMemory
        | MetricType::SwapUsage
        | MetricType::BinLogDiskUsage
        | MetricType::ReplicationSlotDiskUsage
        | MetricType::TransactionLogsDiskUsage
        | MetricType::OldestReplicationSlotLag
        | MetricType::OldestLogicalReplicationSlotLag
        | MetricType::SentMessageSize
        | MetricType::Bytes => "Bytes"@,
        MetricType::ReadThroughput
        | MetricType::WriteThroughput
        | MetricType::NetworkReceiveThroughput
        | MetricType::NetworkTransmitThroughput
        | MetricType::TransactionLogsGeneration => "Bytes/Second"@,
        MetricType::CpuCreditUsage
        | MetricType::CpuCreditBalance
        | MetricType::CpuSurplusCreditBalance
        | MetricType::CpuSurplusCreditsCharged => "Credits"@,
        MetricType::EbsByteBalance | MetricType::EbsIoBalance => "Percent"@,
    }
}

/// Get the unit string for a given metric type.
pub fn get_metric_unit(metric_type: &MetricType) -> (res: &'static str)
    ensures
        res@ == metric_unit(*metric_type),
{
    match *metric_type {
        MetricType::CpuUtilization | MetricType::BurstBalance | MetricType::Percentage => "Percent",
        MetricType::DatabaseConnections
        | MetricType::ReadIops
        | MetricType::WriteIops
        | MetricType::QueueDepth
        | MetricType::ConnectionAttempts
        | MetricType::MaximumUsedTransactionIds
        | MetricType::FailedSqlServerAgentJobsCount
        | MetricType::NumberOfMessagesSent
        | MetricType::NumberOfMessagesReceived
        | MetricType::NumberOfMessagesDeleted
        | MetricType::ApproximateNumberOfMessages
        | MetricType::ApproximateNumberOfMessagesVisible
        | MetricType::ApproximateNumberOfMessagesNotVisible
        | MetricType::NumberOfEmptyReceives
        | MetricType::ApproximateNumberOfMessagesDelayed
        | MetricType::NumberOfMessagesInDlq
        | MetricType::ApproximateNumberOfGroupsWithInflightMessages
        | MetricType::NumberOfDeduplicatedSentMessages
        | MetricType::Count => "Count",
        MetricType::ReadLatency
        | MetricType::WriteLatency
        | MetricType::ReplicaLag
        | MetricType::CheckpointLag
        | MetricType::ApproximateAgeOfOldestMessage
        | MetricType::Seconds => "Seconds",
        MetricType::FreeStorageSpace
        | MetricType::FreeableMemory
        | MetricType::SwapUsage
        | MetricType::BinLogDiskUsage
        | MetricType::ReplicationSlotDiskUsage
        | MetricType::TransactionLogsDiskUsage
        | MetricType::OldestReplicationSlotLag
        | MetricType::OldestLogicalReplicationSlotLag
        | MetricType::SentMessageSize
        | MetricType::Bytes => "Bytes",
        MetricType::ReadThroughput
        | MetricType::WriteThroughput
        | MetricType::NetworkReceiveThroughput
        | MetricType::NetworkTransmitThroughput
        | MetricType::TransactionLogsGeneration => "Bytes/Second",
        MetricType::CpuCreditUsage
        | MetricType::CpuCreditBalance
        | MetricType::CpuSurplusCreditBalance
        | MetricType::CpuSurplusCreditsCharged => "Credits",
        MetricType::EbsByteBalance | MetricType::EbsIoBalance => "Percent",
    }
}

/// How the colours of a metric follow its latest reading.
#[derive(Debug, Clone, Copy, PartialEq, Eq, Structural)]
pub enum ColorRule {
    /// Red above `high`, yellow above `medium`, green otherwise; both limits in
    /// thousandths of the metric's unit
    Above { high_milli: u64, medium_milli: u64 },
    /// Free space in bytes: red under 1 GiB, yellow under 5 GiB, green otherwise
    FreeSpace,
    /// Always cyan
    Plain,
}

/// The colour rule of a metric, by its display name.
pub open spec fn spec_color_rule(name: Seq<char>) -> ColorRule {
    if name == "CPU Utilization"@ {
        ColorRule::Above { high_milli: 80_000, medium_milli: 60_000 }
    } else if name == "Database Connections"@ {
        ColorRule::Above { high_milli: 1_000_000, medium_milli: 500_000 }
    } else if name == "Read Latency"@ || name == "Write Latency"@ {
        ColorRule::Above { high_milli: 100, medium_milli: 50 }
    } else if name == "Free Storage Space"@ || name == "Freeable Memory"@ {
        ColorRule::FreeSpace
    } else if name == "Burst Balance"@ {
        ColorRule::Above { high_milli: 20_000, medium_milli: 50_000 }
    } else if name == "Replica Lag"@ || name == "Approximate Age Of Oldest Message"@ {
        ColorRule::Above { high_milli: 300_000, medium_milli: 60_000 }
    } else {
        ColorRule::Plain
    }
}

/// The colour rule of a metric, by its display name.
pub fn metric_color_rule(metric_name: &str) -> (res: ColorRule)
    ensures
        res == spec_color_rule(metric_name@),
{
    if str_eq(metric_name, "CPU Utilization") {
        ColorRule::Above { high_milli: 80_000, medium_milli: 60_000 }
    } else if str_eq(metric_name, "Database Connections") {
        ColorRule::Above { high_milli: 1_000_000, medium_milli: 500_000 }
    } else if str_eq(metric_name, "Read Latency") || str_eq(metric_name, "Write Latency") {
        ColorRule::Above { high_milli: 100, medium_milli: 50 }
    } else if str_eq(metric_name, "Free Storage Space") || str_eq(metric_name, "Freeable Memory") {
        ColorRule::FreeSpace
    } else if str_eq(metric_name, "Burst Balance") {
        ColorRule::Above { high_milli: 20_000, medium_milli: 50_000 }
    } else if str_eq(metric_name, "Replica Lag") || str_eq(metric_name, "Approximate Age Of Oldest Message") {
        ColorRule::Above { high_milli: 300_000, medium_milli: 60_000 }
    } else {
        ColorRule::Plain
    }
}

/// Two texts that differ at some position are different.
proof fn lemma_texts_differ(a: Seq<char>, b: Seq<char>, i: int)
    requires
        0 <= i < a.len(),
        i < b.len(),
        a[i] != b[i],
    ensures
        a != b,
{
}

/// A catalogue entry counts lower readings as the worse ones for a reading in bytes.
pub open spec fn low_bytes_are_bad(d: crate::components::metric_definitions::MetricDefinition) -> bool {
    &&& d.unit == MetricUnit::Bytes
    &&& d.thresholds matches Some(t) && t.reverse_logic
}

/// The colour of a catalogued metric follows its catalogue entry: the free-space
/// rule (red under 1 GiB, yellow under 5 GiB) goes to the catalogue name of exactly
/// those metrics whose readings are bytes and whose thresholds count lower readings
/// as worse.
#[verifier::spinoff_prover]
#[verifier::rlimit(50)]
pub proof fn lemma_free_space_rule_follows_catalogue(metric_type: MetricType)
    ensures
        (spec_color_rule(definition_of(metric_type).name@) == ColorRule::FreeSpace)
            == low_bytes_are_bad(definition_of(metric_type)),
{
    reveal_strlit("Approximate Age Of Oldest Message");
    reveal_strlit("Binary Log Disk Usage");
    reveal_strlit("Burst Balance");
    reveal_strlit("CPU Credit Balance");
    reveal_strlit("CPU Credit Usage");
    reveal_strlit("CPU Surplus Credit Balance");
    reveal_strlit("CPU Surplus Credits Charged");
    reveal_strlit("CPU Utilization");
    reveal_strlit("Checkpoint Lag");
    reveal_strlit("Connection Attempts");
    reveal_strlit("DLQ Messages");
    reveal_strlit("Database Connections");
    reveal_strlit("Deduplicated Messages");
    reveal_strlit("EBS Byte Balance");
    reveal_strlit("EBS IO Balance");
    reveal_strlit("Empty Receives");
    reveal_strlit("Failed SQL Server Agent Jobs");
    reveal_strlit("Free Storage Space");
    reveal_strlit("Freeable Memory");
    reveal_strlit("Groups with In-flight Messages");
    reveal_strlit("Maximum Used Transaction IDs");
    reveal_strlit("Message Size");
    reveal_strlit("Messages Delayed");
    reveal_strlit("Messages Deleted");
    reveal_strlit("Messages Not Visible");
    reveal_strlit("Messages Received");
    reveal_strlit("Messages Sent");
    reveal_strlit("Messages Visible");
    reveal_strlit("Network Receive Throughput");
    reveal_strlit("Network Transmit Throughput");
    reveal_strlit("Oldest Logical Replication Slot Lag");
    reveal_strlit("Oldest Message Age");
    reveal_strlit("Oldest Replication Slot Lag");
    reveal_strlit("Queue Depth");
    reveal_strlit("Read IOPS");
    reveal_strlit("Read Latency");
    reveal_strlit("Read Throughput");
    reveal_strlit("Replica Lag");
    reveal_strlit("Replication Slot Disk Usage");
    reveal_strlit("Swap Usage");
    reveal_strlit("Total Queue Depth");
    reveal_strlit("Transaction Logs Disk Usage");
    reveal_strlit("Transaction Logs Generation");
    reveal_strlit("Unknown Metric");
    reveal_strlit("Write IOPS");
    reveal_strlit("Write Latency");
    reveal_strlit("Write Throughput");
    match metric_type {
        MetricType::CpuUtilization => {
            assert(definition_of(metric_type).name@ == "CPU Utilization"@);
            lemma_texts_differ("CPU Utilization"@, "Freeable Memory"@, 0);
            assert(spec_color_rule("CPU Utilization"@) == ColorRule::Above { high_milli: 80_000, medium_milli: 60_000 });
        },
        MetricType::BurstBalance => {
            assert(definition_of(metric_type).name@ == "Burst Balance"@);
            lemma_texts_differ("Burst Balance"@, "Write Latency"@, 0);
            assert(spec_color_rule("Burst Balance"@) == ColorRule::Above { high_milli: 20_000, medium_milli: 50_000 });
        },
        MetricType::Percentage => {
            assert(definition_of(metric_type).name@ == "Unknown Metric"@);
            assert(spec_color_rule("Unknown Metric"@) == ColorRule::Plain);
        },
        MetricType::DatabaseConnections => {
            assert(definition_of(metric_type).name@ == "Unknown Metric"@);
            assert(spec_color_rule("Unknown Metric"@) == ColorRule::Plain);
        },
        MetricType::ReadIops => {
            assert(definition_of(metric_type).name@ == "Read IOPS"@);
            assert(spec_color_rule("Read IOPS"@) == ColorRule::Plain);
        },
        MetricType::WriteIops => {
            assert(definition_of(metric_type).name@ == "Write IOPS"@);
            assert(spec_color_rule("Write IOPS"@) == ColorRule::Plain);
        },
        MetricType::QueueDepth => {
            assert(definition_of(metric_type).name@ == "Queue Depth"@);
            lemma_texts_differ("Queue Depth"@, "Replica Lag"@, 0);
            assert(spec_color_rule("Queue Depth"@) == ColorRule::Plain);
        },
        MetricType::ConnectionAttempts => {
            assert(definition_of(metric_type).name@ == "Connection Attempts"@);
            assert(spec_color_rule("Connection Attempts"@) == ColorRule::Plain);
        },
        MetricType::MaximumUsedTransactionIds => {
            assert(definition_of(metric_type).name@ == "Maximum Used Transaction IDs"@);
            assert(spec_color_rule("Maximum Used Transaction IDs"@) == ColorRule::Plain);
        },
        MetricType::FailedSqlServerAgentJobsCount => {
            assert(definition_of(metric_type).name@ == "Failed SQL Server Agent Jobs"@);
            assert(spec_color_rule("Failed SQL Server Agent Jobs"@) == ColorRule::Plain);
        },
        MetricType::NumberOfMessagesSent => {
            assert(definition_of(metric_type).name@ == "Messages Sent"@);
            lemma_texts_differ("Messages Sent"@, "Write Latency"@, 0);
            lemma_texts_differ("Messages Sent"@, "Burst Balance"@, 0);
            assert(spec_color_rule("Messages Sent"@) == ColorRule::Plain);
        },
        MetricType::NumberOfMessagesReceived => {
            assert(definition_of(metric_type).name@ == "Messages Received"@);
            assert(spec_color_rule("Messages Received"@) == ColorRule::Plain);
        },
        MetricType::NumberOfMessagesDeleted => {
            assert(definition_of(metric_type).name@ == "Messages Deleted"@);
            assert(spec_color_rule("Messages Deleted"@) == ColorRule::Plain);
        },
        MetricType::ApproximateNumberOfMessages => {
            assert(definition_of(metric_type).name@ == "Total Queue Depth"@);
            assert(spec_color_rule("Total Queue Depth"@) == ColorRule::Plain);
        },
        MetricType::ApproximateNumberOfMessagesVisible => {
            assert(definition_of(metric_type).name@ == "Messages Visible"@);
            assert(spec_color_rule("Messages Visible"@) == ColorRule::Plain);
        },
        MetricType::ApproximateNumberOfMessagesNotVisible => {
            assert(definition_of(metric_type).name@ == "Messages Not Visible"@);
            lemma_texts_differ("Messages Not Visible"@, "Database Connections"@, 0);
            assert(spec_color_rule("Messages Not Visible"@) == ColorRule::Plain);
        },
        MetricType::NumberOfEmptyReceives => {
            assert(definition_of(metric_type).name@ == "Empty Receives"@);
            assert(spec_color_rule("Empty Receives"@) == ColorRule::Plain);
        },
        MetricType::ApproximateNumberOfMessagesDelayed => {
            assert(definition_of(metric_type).name@ == "Messages Delayed"@);
            assert(spec_color_rule("Messages Delayed"@) == ColorRule::Plain);
        },
        MetricType::NumberOfMessagesInDlq => {
            assert(definition_of(metric_type).name@ == "DLQ Messages"@);
            lemma_texts_differ("DLQ Messages"@, "Read Latency"@, 0);
            assert(spec_color_rule("DLQ Messages"@) == ColorRule::Plain);
        },
        MetricType::ApproximateNumberOfGroupsWithInflightMessages => {
            assert(definition_of(metric_type).name@ == "Groups with In-flight Messages"@);
            assert(spec_color_rule("Groups with In-flight Messages"@) == ColorRule::Plain);
        },
        MetricType::NumberOfDeduplicatedSentMessages => {
            assert(definition_of(metric_type).name@ == "Deduplicated Messages"@);
            assert(spec_color_rule("Deduplicated Messages"@) == ColorRule::Plain);
        },
        MetricType::Count => {
            assert(definition_of(metric_type).name@ == "Unknown Metric"@);
            assert(spec_color_rule("Unknown Metric"@) == ColorRule::Plain);
        },
        MetricType::ReadLatency => {
            assert(definition_of(metric_type).name@ == "Read Latency"@);
            assert(spec_color_rule("Read Latency"@) == ColorRule::Above { high_milli: 100, medium_milli: 50 });
        },
        MetricType::WriteLatency => {
            assert(definition_of(metric_type).name@ == "Write Latency"@);
            lemma_texts_differ("Write Latency"@, "Burst Balance"@, 0);
            assert(spec_color_rule("Write Latency"@) == ColorRule::Above { high_milli: 100, medium_milli: 50 });
        },
        MetricType::ReplicaLag => {
            assert(definition_of(metric_type).name@ == "Replica Lag"@);
            assert(spec_color_rule("Replica Lag"@) == ColorRule::Above { high_milli: 300_000, medium_milli: 60_000 });
        },
        MetricType::CheckpointLag => {
            assert(definition_of(metric_type).name@ == "Checkpoint Lag"@);
            assert(spec_color_rule("Checkpoint Lag"@) == ColorRule::Plain);
        },
        MetricType::ApproximateAgeOfOldestMessage => {
            assert(definition_of(metric_type).name@ == "Oldest Message Age"@);
            lemma_texts_differ("Oldest Message Age"@, "Free Storage Space"@, 0);
            assert(spec_color_rule("Oldest Message Age"@) == ColorRule::Plain);
        },
        MetricType::Seconds => {
            assert(definition_of(metric_type).name@ == "Unknown Metric"@);
            assert(spec_color_rule("Unknown Metric"@) == ColorRule::Plain);
        },
        MetricType::FreeStorageSpace => {
            assert(definition_of(metric_type).name@ == "Free Storage Space"@);
            assert(spec_color_rule("Free Storage Space"@) == ColorRule::FreeSpace);
        },
        MetricType::FreeableMemory => {
            assert(definition_of(metric_type).name@ == "Freeable Memory"@);
            lemma_texts_differ("Freeable Memory"@, "CPU Utilization"@, 0);
            assert(spec_color_rule("Freeable Memory"@) == ColorRule::FreeSpace);
        },
        MetricType::SwapUsage => {
            assert(definition_of(metric_type).name@ == "Swap Usage"@);
            assert(spec_color_rule("Swap Usage"@) == ColorRule::Plain);
        },
        MetricType::BinLogDiskUsage => {
            assert(definition_of(metric_type).name@ == "Binary Log Disk Usage"@);
            assert(spec_color_rule("Binary Log Disk Usage"@) == ColorRule::Plain);
        },
        MetricType::ReplicationSlotDiskUsage => {
            assert(definition_of(metric_type).name@ == "Replication Slot Disk Usage"@);
            assert(spec_color_rule("Replication Slot Disk Usage"@) == ColorRule::Plain);
        },
        MetricType::TransactionLogsDiskUsage => {
            assert(definition_of(metric_type).name@ == "Transaction Logs Disk Usage"@);
            assert(spec_color_rule("Transaction Logs Disk Usage"@) == ColorRule::Plain);
        },
        MetricType::OldestReplicationSlotLag => {
            assert(definition_of(metric_type).name@ == "Oldest Replication Slot Lag"@);
            assert(spec_color_rule("Oldest Replication Slot Lag"@) == ColorRule::Plain);
        },
        MetricType::OldestLogicalReplicationSlotLag => {
            assert(definition_of(metric_type).name@ == "Oldest Logical Replication Slot Lag"@);
            assert(spec_color_rule("Oldest Logical Replication Slot Lag"@) == ColorRule::Plain);
        },
        MetricType::SentMessageSize => {
            assert(definition_of(metric_type).name@ == "Message Size"@);
            lemma_texts_differ("Message Size"@, "Read Latency"@, 0);
            assert(spec_color_rule("Message Size"@) == ColorRule::Plain);
        },
        MetricType::Bytes => {
            assert(definition_of(metric_type).name@ == "Unknown Metric"@);
            assert(spec_color_rule("Unknown Metric"@) == ColorRule::Plain);
        },
        MetricType::ReadThroughput => {
            assert(definition_of(metric_type).name@ == "Read Throughput"@);
            lemma_texts_differ("Read Throughput"@, "CPU Utilization"@, 0);
            lemma_texts_differ("Read Throughput"@, "Freeable Memory"@, 0);
            assert(spec_color_rule("Read Throughput"@) == ColorRule::Plain);
        },
        MetricType::WriteThroughput => {
            assert(definition_of(metric_type).name@ == "Write Throughput"@);
            assert(spec_color_rule("Write Throughput"@) == ColorRule::Plain);
        },
        MetricType::NetworkReceiveThroughput => {
            assert(definition_of(metric_type).name@ == "Network Receive Throughput"@);
            assert(spec_color_rule("Network Receive Throughput"@) == ColorRule::Plain);
        },
        MetricType::NetworkTransmitThroughput => {
            assert(definition_of(metric_type).name@ == "Network Transmit Throughput"@);
            assert(spec_color_rule("Network Transmit Throughput"@) == ColorRule::Plain);
        },
        MetricType::TransactionLogsGeneration => {
            assert(definition_of(metric_type).name@ == "Transaction Logs Generation"@);
            assert(spec_color_rule("Transaction Logs Generation"@) == ColorRule::Plain);
        },
        MetricType::CpuCreditUsage => {
            assert(definition_of(metric_type).name@ == "CPU Credit Usage"@);
            assert(spec_color_rule("CPU Credit Usage"@) == ColorRule::Plain);
        },
        MetricType::CpuCreditBalance => {
            assert(definition_of(metric_type).name@ == "CPU Credit Balance"@);
            lemma_texts_differ("CPU Credit Balance"@, "Free Storage Space"@, 0);
            assert(spec_color_rule("CPU Credit Balance"@) == ColorRule::Plain);
        },
        MetricType::CpuSurplusCreditBalance => {
            assert(definition_of(metric_type).name@ == "CPU Surplus Credit Balance"@);
            assert(spec_color_rule("CPU Surplus Credit Balance"@) == ColorRule::Plain);
        },
        MetricType::CpuSurplusCreditsCharged => {
            assert(definition_of(metric_type).name@ == "CPU Surplus Credits Charged"@);
            assert(spec_color_rule("CPU Surplus Credits Charged"@) == ColorRule::Plain);
        },
        MetricType::EbsByteBalance => {
            assert(definition_of(metric_type).name@ == "EBS Byte Balance"@);
            assert(spec_color_rule("EBS Byte Balance"@) == ColorRule::Plain);
        },
        MetricType::EbsIoBalance => {
            assert(definition_of(metric_type).name@ == "EBS IO Balance"@);
            assert(spec_color_rule("EBS IO Balance"@) == ColorRule::Plain);
        },
    }
}

/// How a reading in a CloudWatch unit is written.
#[derive(Debug, Clone, Copy, PartialEq, Eq, Structural)]
pub enum UnitFormat {
    /// Bytes, scaled by powers of 1024
    Bytes,
    /// A percentage with one decimal
    Percent,
    /// Seconds, written in µs, ms or s
    Seconds,
    /// A count, scaled to K and M
    Count,
    /// Any other number, two decimals
    Plain,
}

/// How a reading in the unit is written.
pub open spec fn spec_unit_format(unit: Seq<char>) -> UnitFormat {
    if unit == "Bytes"@ || unit == "Bytes/Second"@ {
        UnitFormat::Bytes
    } else if unit == "Percent"@ {
        UnitFormat::Percent
    } else if unit == "Seconds"@ {
        UnitFormat::Seconds
    } else if unit == "Count"@ || unit == "Credits"@ {
        UnitFormat::Count
    } else {
        UnitFormat::Plain
    }
}

/// How a reading in the unit is written.
pub fn unit_format(unit: &str) -> (res: UnitFormat)
    ensures
        res == spec_unit_format(unit@),
{
    if str_eq(unit, "Bytes") || str_eq(unit, "Bytes/Second") {
        UnitFormat::Bytes
    } else if str_eq(unit, "Percent") {
        UnitFormat::Percent
    } else if str_eq(unit, "Seconds") {
        UnitFormat::Seconds
    } else if str_eq(unit, "Count") || str_eq(unit, "Credits") {
        UnitFormat::Count
    } else {
        UnitFormat::Plain
    }
}

/// The series that hold at least one reading, in order.
pub open spec fn series_with_data(series: Seq<MetricSeries>) -> Seq<MetricSeries>
    decreases series.len(),
{
    if series.len() == 0 {
        Seq::empty()
    } else {
        let rest = series_with_data(series.drop_last());
        if series.last().history@.len() > 0 {
            rest.push(series.last())
        } else {
            rest
        }
    }
}

/// `row` shows the series `s`: the metric's display name, its latest reading (an
/// `f64` bit pattern), its history and its CloudWatch unit.
pub open spec fn is_history_row(row: (&'static str, u64, &Vec<u64>, &'static str), s: MetricSeries) -> bool {
    &&& row.0@ == definition_of(s.metric_type).name@
    &&& row.1 == s.current_value
    &&& row.2@ == s.history@
    &&& row.3@ == metric_unit(s.metric_type)
}

/// Metrics data with history for the enhanced display: one row for each series that
/// holds readings, in the order of the series.
pub fn get_available_metrics_with_history(metrics: &MetricData) -> (res: Vec<(&'static str, u64, &Vec<u64>, &'static str)>)
    ensures
        res@.len() == series_with_data(metrics.series@).len(),
        forall|k: int| 0 <= k < res@.len() ==> is_history_row(#[trigger] res@[k], series_with_data(metrics.series@)[k]),
{
    let mut res: Vec<(&'static str, u64, &Vec<u64>, &'static str)> = Vec::new();
    let mut i: usize = 0;
    while i < metrics.series.len()
        invariant
            0 <= i <= metrics.series@.len(),
            res@.len() == series_with_data(metrics.series@.subrange(0, i as int)).len(),
            forall|k: int| 0 <= k < res@.len() ==> is_history_row(
                #[trigger] res@[k],
                series_with_data(metrics.series@.subrange(0, i as int))[k],
            ),
        decreases metrics.series@.len() - i,
    {
        proof {
            assert(metrics.series@.subrange(0, i + 1).drop_last() =~= metrics.series@.subrange(0, i as int));
        }
        let s = &metrics.series[i];
        if s.history.len() > 0 {
            let name = MetricRegistry::get_definition(&s.metric_type).name;
            res.push((name, s.current_value, &s.history, get_metric_unit(&s.metric_type)));
        }
        i = i + 1;
    }
    assert(metrics.series@.subrange(0, metrics.series@.len() as int) =~= metrics.series@);
    res
}

} // verus!
