//! Catalogue entries of the SQS metrics.
use vstd::prelude::*;
use crate::models::MetricType;
use crate::components::metric_definitions::measures_remaining;
use crate::style::Color;
use super::display_format::DisplayFormat;
use super::health_thresholds::{thresholds_ordered, HealthThresholds};
use super::metric_definition::{spec_entry, MetricColor, MetricDefinition};

verus! {

/// The SQS catalogue; other metric types share the "Unknown Metric" entry.
pub open spec fn sqs_definition(metric_type: MetricType) -> MetricDefinition {
    match metric_type {
        MetricType::ApproximateNumberOfMessagesVisible => spec_entry(
            "Messages Visible",
            DisplayFormat::Integer,
            Some(HealthThresholds { critical_milli: 1_000_000, warning_milli: 100_000, reverse_logic: false }),
            MetricColor::Fixed(Color::LightCyan),
            "Messages available for retrieval from the queue",
        ),
        MetricType::ApproximateNumberOfMessagesNotVisible => spec_entry(
            "Messages Not Visible",
            DisplayFormat::Integer,
            Some(HealthThresholds { critical_milli: 500_000, warning_milli: 50_000, reverse_logic: false }),
            MetricColor::Fixed(Color::Magenta),
            "Messages that are in flight",
        ),
        MetricType::ApproximateAgeOfOldestMessage => spec_entry(
            "Oldest Message Age",
            DisplayFormat::Duration,
            Some(HealthThresholds { critical_milli: 3_600_000, warning_milli: 300_000, reverse_logic: false }),
            MetricColor::Fixed(Color::Red),
            "Age of the oldest message in the queue",
        ),
        MetricType::ApproximateNumberOfMessagesDelayed => spec_entry(
            "Messages Delayed",
            DisplayFormat::Integer,
            Some(HealthThresholds { critical_milli: 100_000, warning_milli: 10_000, reverse_logic: false }),
            MetricColor::Fixed(Color::LightRed),
            "Messages that are delayed and not yet visible",
        ),
        MetricType::NumberOfMessagesSent => spec_entry(
            "Messages Sent",
            DisplayFormat::Integer,
            None,
            MetricColor::Fixed(Color::Green),
            "Number of messages sent to the queue",
        ),
        MetricType::NumberOfMessagesReceived => spec_entry(
            "Messages Received",
            DisplayFormat::Integer,
            None,
            MetricColor::Fixed(Color::Blue),
            "Number of messages received from the queue",
        ),
        MetricType::NumberOfMessagesDeleted => spec_entry(
            "Messages Deleted",
            DisplayFormat::Integer,
            None,
            MetricColor::Fixed(Color::Yellow),
            "Number of messages deleted from the queue",
        ),
        MetricType::NumberOfMessagesInDlq => spec_entry(
            "DLQ Messages",
            DisplayFormat::Integer,
            Some(HealthThresholds { critical_milli: 10_000, warning_milli: 1_000, reverse_logic: false }),
            MetricColor::Fixed(Color::Red),
            "Messages in the dead letter queue",
        ),
        MetricType::ApproximateNumberOfMessages => spec_entry(
            "Total Queue Depth",
            DisplayFormat::Integer,
            Some(HealthThresholds { critical_milli: 1_000_000, warning_milli: 100_000, reverse_logic: false }),
            MetricColor::Fixed(Color::Cyan),
            "Total number of messages in the queue",
        ),
        MetricType::SentMessageSize => spec_entry(
            "Message Size",
            DisplayFormat::Bytes,
            Some(HealthThresholds { critical_milli: 204_800_000, warning_milli: 102_400_000, reverse_logic: false }),
            MetricColor::Fixed(Color::LightGreen),
            "Size of messages sent to the queue",
        ),
        MetricType::NumberOfEmptyReceives => spec_entry(
            "Empty Receives",
            DisplayFormat::Integer,
            Some(HealthThresholds { critical_milli: 1_000_000, warning_milli: 100_000, reverse_logic: false }),
            MetricColor::Fixed(Color::Gray),
            "Number of empty receives from the queue",
        ),
        MetricType::ApproximateNumberOfGroupsWithInflightMessages => spec_entry(
            "Groups with In-flight Messages",
            DisplayFormat::Integer,
            Some(HealthThresholds { critical_milli: 100_000, warning_milli: 50_000, reverse_logic: false }),
            MetricColor::Fixed(Color::LightBlue),
            "Number of message groups with in-flight messages",
        ),
        MetricType::NumberOfDeduplicatedSentMessages => spec_entry(
            "Deduplicated Messages",
            DisplayFormat::Integer,
            None,
            MetricColor::Fixed(Color::LightBlue),
            "Number of messages sent after deduplication",
        ),
        _ => spec_entry(
            "Unknown Metric",
            DisplayFormat::Decimal(2),
            None,
            MetricColor::Fixed(Color::Gray),
            "Unknown metric type",
        ),
    }
}

/// Get SQS metric definitions.
pub fn get_sqs_metric_definition(metric_type: &MetricType) -> (res: MetricDefinition)
    ensures
        res == sqs_definition(*metric_type),
{
    match *metric_type {
        MetricType::ApproximateNumberOfMessagesVisible => MetricDefinition::new(
            "Messages Visible",
            DisplayFormat::Integer,
            Some(HealthThresholds { critical_milli: 1_000_000, warning_milli: 100_000, reverse_logic: false }),
            MetricColor::Fixed(Color::LightCyan),
            "Messages available for retrieval from the queue",
        ),
        MetricType::ApproximateNumberOfMessagesNotVisible => MetricDefinition::new(
            "Messages Not Visible",
            DisplayFormat::Integer,
            Some(HealthThresholds { critical_milli: 500_000, warning_milli: 50_000, reverse_logic: false }),
            MetricColor::Fixed(Color::Magenta),
            "Messages that are in flight",
        ),
        MetricType::ApproximateAgeOfOldestMessage => MetricDefinition::new(
            "Oldest Message Age",
            DisplayFormat::Duration,
            Some(HealthThresholds { critical_milli: 3_600_000, warning_milli: 300_000, reverse_logic: false }),
            MetricColor::Fixed(Color::Red),
            "Age of the oldest message in the queue",
        ),
        MetricType::ApproximateNumberOfMessagesDelayed => MetricDefinition::new(
            "Messages Delayed",
            DisplayFormat::Integer,
            Some(HealthThresholds { critical_milli: 100_000, warning_milli: 10_000, reverse_logic: false }),
            MetricColor::Fixed(Color::LightRed),
            "Messages that are delayed and not yet visible",
        ),
        MetricType::NumberOfMessagesSent => MetricDefinition::new(
            "Messages Sent",
            DisplayFormat::Integer,
            None,
            MetricColor::Fixed(Color::Green),
            "Number of messages sent to the queue",
        ),
        MetricType::NumberOfMessagesReceived => MetricDefinition::new(
            "Messages Received",
            DisplayFormat::Integer,
            None,
            MetricColor::Fixed(Color::Blue),
            "Number of messages received from the queue",
        ),
        MetricType::NumberOfMessagesDeleted => MetricDefinition::new(
            "Messages Deleted",
            DisplayFormat::Integer,
            None,
            MetricColor::Fixed(Color::Yellow),
            "Number of messages deleted from the queue",
        ),
        MetricType::NumberOfMessagesInDlq => MetricDefinition::new(
            "DLQ Messages",
            DisplayFormat::Integer,
            Some(HealthThresholds { critical_milli: 10_000, warning_milli: 1_000, reverse_logic: false }),
            MetricColor::Fixed(Color::Red),
            "Messages in the dead letter queue",
        ),
        MetricType::ApproximateNumberOfMessages => MetricDefinition::new(
            "Total Queue Depth",
            DisplayFormat::Integer,
            Some(HealthThresholds { critical_milli: 1_000_000, warning_milli: 100_000, reverse_logic: false }),
            MetricColor::Fixed(Color::Cyan),
            "Total number of messages in the queue",
        ),
        MetricType::SentMessageSize => MetricDefinition::new(
            "Message Size",
            DisplayFormat::Bytes,
            Some(HealthThresholds { critical_milli: 204_800_000, warning_milli: 102_400_000, reverse_logic: false }),
            MetricColor::Fixed(Color::LightGreen),
            "Size of messages sent to the queue",
        ),
        MetricType::NumberOfEmptyReceives => MetricDefinition::new(
            "Empty Receives",
            DisplayFormat::Integer,
            Some(HealthThresholds { critical_milli: 1_000_000, warning_milli: 100_000, reverse_logic: false }),
            MetricColor::Fixed(Color::Gray),
            "Number of empty receives from the queue",
        ),
        MetricType::ApproximateNumberOfGroupsWithInflightMessages => MetricDefinition::new(
            "Groups with In-flight Messages",
            DisplayFormat::Integer,
            Some(HealthThresholds { critical_milli: 100_000, warning_milli: 50_000, reverse_logic: false }),
            MetricColor::Fixed(Color::LightBlue),
            "Number of message groups with in-flight messages",
        ),
        MetricType::NumberOfDeduplicatedSentMessages => MetricDefinition::new(
            "Deduplicated Messages",
            DisplayFormat::Integer,
            None,
            MetricColor::Fixed(Color::LightBlue),
            "Number of messages sent after deduplication",
        ),
        _ => MetricDefinition::new(
            "Unknown Metric",
            DisplayFormat::Decimal(2),
            None,
            MetricColor::Fixed(Color::Gray),
            "Unknown metric type",
        ),
    }
}

/// Every SQS catalogue entry that has health thresholds has them ordered.
pub proof fn lemma_sqs_definition_thresholds_ordered(metric_type: MetricType)
    ensures
        sqs_definition(metric_type).thresholds matches Some(t) ==> thresholds_ordered(t),
{
}

/// Where an entry has health thresholds, lower readings are the worse ones exactly
/// for the metrics that measure what is left, and the critical level lies past the
/// warning level in that direction.
pub proof fn lemma_sqs_threshold_direction(metric_type: MetricType)
    ensures
        sqs_definition(metric_type).thresholds matches Some(t) ==> {
            &&& t.reverse_logic == measures_remaining(metric_type)
            &&& measures_remaining(metric_type) ==> t.critical_milli < t.warning_milli
            &&& !measures_remaining(metric_type) ==> t.warning_milli < t.critical_milli
        },
{
}

} // verus!
