//! How the latest reading of a discovered metric is to be written, decided from
//! the metric's name.
use vstd::prelude::*;
use crate::models::{DynamicMetricData, MetricData, MetricType, SqsMetricData};
use crate::components::metric::metric_definition::MetricColor;
use crate::components::metric::metric_registry::{registry_definition, MetricRegistry};
use crate::style::ThemeColor;
use super::chart_data::{first_of_type, first_of_type_exists, get_rds_history, get_sqs_history, has_type, is_rds_chart_type, is_sqs_chart_type, lookup};
use crate::text::{chars_of, contains_seq, contains_str, spec_to_lowercase, to_lowercase};

verus! {

broadcast use vstd::string::group_string_axioms;

/// The ways a reading can be written.
#[derive(Debug, Clone, Copy, PartialEq, Eq, Structural)]
pub enum ValueKind {
    /// A byte count, scaled to B, KB, MB, ...
    Bytes,
    /// A percentage with two decimals
    Percent,
    /// A whole count
    Count,
    /// A duration given in milliseconds
    Duration,
    /// Any other number, scaled to K and M
    Generic,
}

/// The kind of a reading, from the lower-cased metric name: the first keyword
/// group that occurs decides.
pub open spec fn value_kind(lower: Seq<char>) -> ValueKind {
    if contains_seq(lower, "bytes"@) || contains_seq(lower, "size"@) {
        ValueKind::Bytes
    } else if contains_seq(lower, "percent"@) || contains_seq(lower, "cpu"@) {
        ValueKind::Percent
    } else if contains_seq(lower, "count"@) || contains_seq(lower, "connections"@) {
        ValueKind::Count
    } else if contains_seq(lower, "latency"@) || contains_seq(lower, "duration"@) {
        ValueKind::Duration
    } else {
        ValueKind::Generic
    }
}

/// The kind of a reading, from the lower-cased metric name.
pub fn value_kind_for_lowercase(lower: &str) -> (res: ValueKind)
    ensures
        res == value_kind(lower@),
{
    let l = chars_of(lower);
    if contains_str(&l, "bytes") || contains_str(&l, "size") {
        ValueKind::Bytes
    } else if contains_str(&l, "percent") || contains_str(&l, "cpu") {
        ValueKind::Percent
    } else if contains_str(&l, "count") || contains_str(&l, "connections") {
        ValueKind::Count
    } else if contains_str(&l, "latency") || contains_str(&l, "duration") {
        ValueKind::Duration
    } else {
        ValueKind::Generic
    }
}

/// The kind of an axis value of a metric, from the metric's name (case ignored).
pub fn metric_name_value_kind(metric_name: &str) -> (res: ValueKind)
    ensures
        res == value_kind(spec_to_lowercase(metric_name@)),
{
    let lower = to_lowercase(metric_name);
    value_kind_for_lowercase(lower.as_str())
}

/// What is shown for a discovered metric: nothing ("N/A") without readings;
/// otherwise the latest reading (as `f64` bits) and the way to write it.
pub fn dynamic_value_format(metric_data: &DynamicMetricData) -> (res: Option<(ValueKind, u64)>)
    ensures
        metric_data.history@.len() == 0 ==> res is None,
        metric_data.history@.len() > 0 ==> res == Some((
            value_kind(spec_to_lowercase(metric_data.metric_name@)),
            metric_data.history@.last(),
        )),
{
    if metric_data.history.len() == 0 {
        return None;
    }
    let current = metric_data.history[metric_data.history.len() - 1];
    let lower = to_lowercase(metric_data.metric_name.as_str());
    Some((value_kind_for_lowercase(lower.as_str()), current))
}

} // verus!

verus! {

/// How the latest reading of a predefined metric is written.
#[derive(Debug, Clone, Copy, PartialEq, Eq, Structural)]
pub enum ReadingFormat {
    /// As a percentage
    Percentage,
    /// As a whole count
    Count,
    /// Bytes as whole megabytes
    BytesMb,
    /// Bytes as gigabytes with two decimals
    BytesGb,
    /// Seconds as milliseconds with three decimals
    Latency,
    /// Bytes per second as megabytes per second with two decimals
    Throughput,
}

/// The top of a chart's scale.
#[derive(Debug, Clone, Copy, PartialEq, Eq, Structural)]
pub enum ScaleMax {
    /// 100, for percentages
    Hundred,
    /// The largest reading of the history, and at least 0
    HistoryMax,
    /// 1, when there is nothing to show
    One,
}

/// What a chart of a predefined metric shows: its name, how its latest reading is
/// written ("N/A" without a format or without readings), its history, its colour
/// and the top of its scale.
#[derive(Debug)]
pub struct MetricDisplayInfo<'a> {
    pub name: &'static str,
    pub format: Option<ReadingFormat>,
    pub history: Option<&'a Vec<u64>>,
    pub color: MetricColor,
    pub max: ScaleMax,
}

/// The name, reading format and scale of the RDS metrics that have a chart.
pub open spec fn rds_display_plan(t: MetricType) -> Option<(Seq<char>, ReadingFormat, ScaleMax)> {
    match t {
        MetricType::CpuUtilization => Some(("CPU Utilization (%)"@, ReadingFormat::Percentage, ScaleMax::Hundred)),
        MetricType::DatabaseConnections => Some(("Database Connections"@, ReadingFormat::Count, ScaleMax::HistoryMax)),
        MetricType::FreeableMemory => Some(("Freeable Memory (MB)"@, ReadingFormat::BytesMb, ScaleMax::HistoryMax)),
        MetricType::FreeStorageSpace => Some(("Free Storage Space (GB)"@, ReadingFormat::BytesGb, ScaleMax::HistoryMax)),
        MetricType::ReadIops => Some(("Read IOPS"@, ReadingFormat::Count, ScaleMax::HistoryMax)),
        MetricType::WriteIops => Some(("Write IOPS"@, ReadingFormat::Count, ScaleMax::HistoryMax)),
        MetricType::ReadLatency => Some(("Read Latency (ms)"@, ReadingFormat::Latency, ScaleMax::HistoryMax)),
        MetricType::WriteLatency => Some(("Write Latency (ms)"@, ReadingFormat::Latency, ScaleMax::HistoryMax)),
        MetricType::NetworkReceiveThroughput => Some(
            ("Network Receive Throughput (MB/s)"@, ReadingFormat::Throughput, ScaleMax::HistoryMax),
        ),
        MetricType::NetworkTransmitThroughput => Some(
            ("Network Transmit Throughput (MB/s)"@, ReadingFormat::Throughput, ScaleMax::HistoryMax),
        ),
        _ => None,
    }
}

/// The name, reading format and scale of the SQS metrics that have a chart.
pub open spec fn sqs_display_plan(t: MetricType) -> Option<(Seq<char>, ReadingFormat, ScaleMax)> {
    match t {
        MetricType::ApproximateNumberOfMessages => Some(("Approx Number of Messages"@, ReadingFormat::Count, ScaleMax::HistoryMax)),
        MetricType::ApproximateNumberOfMessagesDelayed => Some(
            ("Approx Number of Messages Delayed"@, ReadingFormat::Count, ScaleMax::HistoryMax),
        ),
        MetricType::ApproximateNumberOfMessagesNotVisible => Some(
            ("Approx Number of Messages Not Visible"@, ReadingFormat::Count, ScaleMax::HistoryMax),
        ),
        MetricType::NumberOfMessagesSent => Some(("Number of Messages Sent"@, ReadingFormat::Count, ScaleMax::HistoryMax)),
        MetricType::NumberOfMessagesReceived => Some(("Number of Messages Received"@, ReadingFormat::Count, ScaleMax::HistoryMax)),
        MetricType::NumberOfMessagesDeleted => Some(("Number of Messages Deleted"@, ReadingFormat::Count, ScaleMax::HistoryMax)),
        _ => None,
    }
}

/// `info` shows the metric `t` of `series` as `plan` lays out: a planned metric
/// with its name, format, history (as the lookup of `history_of` finds it),
/// catalogue colour and scale; any other as "Unknown Metric", in the muted theme
/// colour, without history, scaled to 1.
pub open spec fn shows(info: MetricDisplayInfo, plan: Option<(Seq<char>, ReadingFormat, ScaleMax)>, t: MetricType, history_of: Option<Seq<u64>>) -> bool {
    match plan {
        Some((name, format, max)) => {
            &&& info.name@ == name
            &&& info.format == Some(format)
            &&& info.color == registry_definition(t).color
            &&& info.max == max
            &&& opt_history_view(info.history) == history_of
        },
        None => {
            &&& info.name@ == "Unknown Metric"@
            &&& info.format is None
            &&& info.history is None
            &&& info.color == MetricColor::Themed(ThemeColor::Muted)
            &&& info.max == ScaleMax::One
        },
    }
}

/// The view of an optional history.
pub open spec fn opt_history_view(h: Option<&Vec<u64>>) -> Option<Seq<u64>> {
    match h {
        Some(v) => Some(v@),
        None => None,
    }
}

fn unknown_metric_info<'a>() -> (res: MetricDisplayInfo<'a>)
    ensures
        res.name@ == "Unknown Metric"@,
        res.format is None,
        res.history is None,
        res.color == MetricColor::Themed(ThemeColor::Muted),
        res.max == ScaleMax::One,
{
    MetricDisplayInfo {
        name: "Unknown Metric",
        format: None,
        history: None,
        color: MetricColor::Themed(ThemeColor::Muted),
        max: ScaleMax::One,
    }
}

/// Get display information for RDS metrics.
pub fn get_rds_metric_display_info<'a>(metric_type: &MetricType, metrics: &'a MetricData) -> (res: MetricDisplayInfo<'a>)
    ensures
        exists|i: Option<int>| #[trigger] lookup(metrics.series@, *metric_type, is_rds_chart_type(*metric_type), i)
            && shows(res, rds_display_plan(*metric_type), *metric_type, match i {
            Some(k) => Some(metrics.series@[k].history@),
            None => None,
        }),
{
    let t = *metric_type;
    let (name, format, max): (&'static str, ReadingFormat, ScaleMax) = match t {
        MetricType::CpuUtilization => ("CPU Utilization (%)", ReadingFormat::Percentage, ScaleMax::Hundred),
        MetricType::DatabaseConnections => ("Database Connections", ReadingFormat::Count, ScaleMax::HistoryMax),
        MetricType::FreeableMemory => ("Freeable Memory (MB)", ReadingFormat::BytesMb, ScaleMax::HistoryMax),
        MetricType::FreeStorageSpace => ("Free Storage Space (GB)", ReadingFormat::BytesGb, ScaleMax::HistoryMax),
        MetricType::ReadIops => ("Read IOPS", ReadingFormat::Count, ScaleMax::HistoryMax),
        MetricType::WriteIops => ("Write IOPS", ReadingFormat::Count, ScaleMax::HistoryMax),
        MetricType::ReadLatency => ("Read Latency (ms)", ReadingFormat::Latency, ScaleMax::HistoryMax),
        MetricType::WriteLatency => ("Write Latency (ms)", ReadingFormat::Latency, ScaleMax::HistoryMax),
        MetricType::NetworkReceiveThroughput => ("Network Receive Throughput (MB/s)", ReadingFormat::Throughput, ScaleMax::HistoryMax),
        MetricType::NetworkTransmitThroughput => ("Network Transmit Throughput (MB/s)", ReadingFormat::Throughput, ScaleMax::HistoryMax),
        _ => {
            let res = unknown_metric_info();
            proof {
                assert(lookup(metrics.series@, t, is_rds_chart_type(t), None) || exists|k: int| first_of_type(metrics.series@, t, k)) by {
                    if has_type(metrics.series@, t) {
                        let k0 = choose|k: int| 0 <= k < metrics.series@.len() && (#[trigger] metrics.series@[k]).metric_type == t;
                        first_of_type_exists(metrics.series@, t, k0);
                    }
                }
                if !lookup(metrics.series@, t, is_rds_chart_type(t), None) {
                    let k = choose|k: int| first_of_type(metrics.series@, t, k);
                    assert(lookup(metrics.series@, t, is_rds_chart_type(t), Some(k)));
                }
            }
            return res;
        },
    };
    let history = get_rds_history(metrics, metric_type);
    let color = MetricRegistry::get_definition(metric_type).color;
    MetricDisplayInfo { name, format: Some(format), history, color, max }
}

/// Get display information for SQS metrics.
pub fn get_sqs_metric_display_info<'a>(metric_type: &MetricType, metrics: &'a SqsMetricData) -> (res: MetricDisplayInfo<'a>)
    ensures
        exists|i: Option<int>| #[trigger] lookup(metrics.series@, *metric_type, is_sqs_chart_type(*metric_type), i)
            && shows(res, sqs_display_plan(*metric_type), *metric_type, match i {
            Some(k) => Some(metrics.series@[k].history@),
            None => None,
        }),
{
    let t = *metric_type;
    let (name, format, max): (&'static str, ReadingFormat, ScaleMax) = match t {
        MetricType::ApproximateNumberOfMessages => ("Approx Number of Messages", ReadingFormat::Count, ScaleMax::HistoryMax),
        MetricType::ApproximateNumberOfMessagesDelayed => ("Approx Number of Messages Delayed", ReadingFormat::Count, ScaleMax::HistoryMax),
        MetricType::ApproximateNumberOfMessagesNotVisible => ("Approx Number of Messages Not Visible", ReadingFormat::Count, ScaleMax::HistoryMax),
        MetricType::NumberOfMessagesSent => ("Number of Messages Sent", ReadingFormat::Count, ScaleMax::HistoryMax),
        MetricType::NumberOfMessagesReceived => ("Number of Messages Received", ReadingFormat::Count, ScaleMax::HistoryMax),
        MetricType::NumberOfMessagesDeleted => ("Number of Messages Deleted", ReadingFormat::Count, ScaleMax::HistoryMax),
        _ => {
            let res = unknown_metric_info();
            proof {
                assert(lookup(metrics.series@, t, is_sqs_chart_type(t), None) || exists|k: int| first_of_type(metrics.series@, t, k)) by {
                    if has_type(metrics.series@, t) {
                        let k0 = choose|k: int| 0 <= k < metrics.series@.len() && (#[trigger] metrics.series@[k]).metric_type == t;
                        first_of_type_exists(metrics.series@, t, k0);
                    }
                }
                if !lookup(metrics.series@, t, is_sqs_chart_type(t), None) {
                    let k = choose|k: int| first_of_type(metrics.series@, t, k);
                    assert(lookup(metrics.series@, t, is_sqs_chart_type(t), Some(k)));
                }
            }
            return res;
        },
    };
    let history = get_sqs_history(metrics, metric_type);
    let color = MetricRegistry::get_definition(metric_type).color;
    MetricDisplayInfo { name, format: Some(format), history, color, max }
}

} // verus!
