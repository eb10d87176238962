//! The chart data of a predefined metric: its latest reading, its history and
//! the timestamps of the service it belongs to.
use vstd::prelude::*;
use crate::models::{App, AwsService, MetricData, MetricSeries, MetricType, SqsMetricData};

verus! {

/// The RDS metrics that have a predefined series.
pub open spec fn is_rds_chart_type(t: MetricType) -> bool {
    match t {
        MetricType::CpuUtilization
        | MetricType::DatabaseConnections
        | MetricType::FreeStorageSpace
        | MetricType::ReadLatency
        | MetricType::WriteLatency
        | MetricType::ReadIops
        | MetricType::WriteIops
        | MetricType::FreeableMemory
        | MetricType::ReadThroughput
        | MetricType::WriteThroughput
        | MetricType::NetworkReceiveThroughput
        | MetricType::NetworkTransmitThroughput
        | MetricType::SwapUsage
        | MetricType::BurstBalance
        | MetricType::CpuCreditUsage
        | MetricType::CpuCreditBalance
        | MetricType::QueueDepth
        | MetricType::BinLogDiskUsage
        | MetricType::ReplicaLag
        | MetricType::TransactionLogsGeneration
        | MetricType::TransactionLogsDiskUsage
        | MetricType::MaximumUsedTransactionIds
        | MetricType::OldestReplicationSlotLag
        | MetricType::ReplicationSlotDiskUsage
        | MetricType::FailedSqlServerAgentJobsCount
        | MetricType::CheckpointLag
        | MetricType::ConnectionAttempts => true,
        _ => false,
    }
}

/// The SQS metrics that have a predefined series.
pub open spec fn is_sqs_chart_type(t: MetricType) -> bool {
    match t {
        MetricType::ApproximateNumberOfMessages
        | MetricType::ApproximateNumberOfMessagesVisible
        | MetricType::ApproximateNumberOfMessagesNotVisible
        | MetricType::ApproximateAgeOfOldestMessage
        | MetricType::ApproximateNumberOfMessagesDelayed
        | MetricType::NumberOfMessagesSent
        | MetricType::NumberOfMessagesReceived
        | MetricType::NumberOfMessagesDeleted
        | MetricType::NumberOfMessagesInDlq
        | MetricType::NumberOfEmptyReceives
        | MetricType::SentMessageSize
        | MetricType::ApproximateNumberOfGroupsWithInflightMessages
        | MetricType::NumberOfDeduplicatedSentMessages => true,
        _ => false,
    }
}

/// `i` is the position of the first series of type `t`.
pub open spec fn first_of_type(series: Seq<MetricSeries>, t: MetricType, i: int) -> bool {
    &&& 0 <= i < series.len()
    &&& series[i].metric_type == t
    &&& forall|j: int| 0 <= j < i ==> (#[trigger] series[j]).metric_type != t
}

/// Some series has type `t`.
pub open spec fn has_type(series: Seq<MetricSeries>, t: MetricType) -> bool {
    exists|j: int| 0 <= j < series.len() && (#[trigger] series[j]).metric_type == t
}

/// The series of type `t` that a lookup finds: the first one, among the types
/// `supported` offers.
pub open spec fn lookup(series: Seq<MetricSeries>, t: MetricType, supported: bool, res: Option<int>) -> bool {
    match res {
        Some(i) => supported && first_of_type(series, t, i),
        None => !supported || !has_type(series, t),
    }
}

/// When some series has type `t`, there is a first one.
pub proof fn first_of_type_exists(series: Seq<MetricSeries>, t: MetricType, k: int)
    requires
        0 <= k < series.len(),
        series[k].metric_type == t,
    ensures
        exists|i: int| first_of_type(series, t, i),
    decreases k,
{
    if exists|j: int| 0 <= j < k && (#[trigger] series[j]).metric_type == t {
        let j = choose|j: int| 0 <= j < k && (#[trigger] series[j]).metric_type == t;
        first_of_type_exists(series, t, j);
    } else {
        assert(first_of_type(series, t, k));
    }
}

/// Position of the first series of type `t`.
fn find_series(series: &Vec<MetricSeries>, t: MetricType) -> (res: Option<usize>)
    ensures
        match res {
            Some(i) => first_of_type(series@, t, i as int),
            None => !has_type(series@, t),
        },
{
    let mut i: usize = 0;
    while i < series.len()
        invariant
            0 <= i <= series@.len(),
            forall|j: int| 0 <= j < i ==> (#[trigger] series@[j]).metric_type != t,
        decreases series@.len() - i,
    {
        if series[i].metric_type == t {
            return Some(i);
        }
        i = i + 1;
    }
    None
}

fn is_rds_type(t: MetricType) -> (res: bool)
    ensures
        res == is_rds_chart_type(t),
{
    match t {
        MetricType::CpuUtilization
        | MetricType::DatabaseConnections
        | MetricType::FreeStorageSpace
        | MetricType::ReadLatency
        | MetricType::WriteLatency
        | MetricType::ReadIops
        | MetricType::WriteIops
        | MetricType::FreeableMemory
        | MetricType::ReadThroughput
        | MetricType::WriteThroughput
        | MetricType::NetworkReceiveThroughput
        | MetricType::NetworkTransmitThroughput
        | MetricType::SwapUsage
        | MetricType::BurstBalance
        | MetricType::CpuCreditUsage
        | MetricType::CpuCreditBalance
        | MetricType::QueueDepth
        | MetricType::BinLogDiskUsage
        | MetricType::ReplicaLag
        | MetricType::TransactionLogsGeneration
        | MetricType::TransactionLogsDiskUsage
        | MetricType::MaximumUsedTransactionIds
        | MetricType::OldestReplicationSlotLag
        | MetricType::ReplicationSlotDiskUsage
        | MetricType::FailedSqlServerAgentJobsCount
        | MetricType::CheckpointLag
        | MetricType::ConnectionAttempts => true,
        _ => false,
    }
}

fn is_sqs_type(t: MetricType) -> (res: bool)
    ensures
        res == is_sqs_chart_type(t),
{
    match t {
        MetricType::ApproximateNumberOfMessages
        | MetricType::ApproximateNumberOfMessagesVisible
        | MetricType::ApproximateNumberOfMessagesNotVisible
        | MetricType::ApproximateAgeOfOldestMessage
        | MetricType::ApproximateNumberOfMessagesDelayed
        | MetricType::NumberOfMessagesSent
        | MetricType::NumberOfMessagesReceived
        | MetricType::NumberOfMessagesDeleted
        | MetricType::NumberOfMessagesInDlq
        | MetricType::NumberOfEmptyReceives
        | MetricType::SentMessageSize
        | MetricType::ApproximateNumberOfGroupsWithInflightMessages
        | MetricType::NumberOfDeduplicatedSentMessages => true,
        _ => false,
    }
}

/// The latest reading of an RDS metric, from its series.
pub fn get_rds_current_value(metrics: &MetricData, metric_type: &MetricType) -> (res: Option<u64>)
    ensures
        exists|i: Option<int>| #[trigger] lookup(metrics.series@, *metric_type, is_rds_chart_type(*metric_type), i)
            && res == (match i {
            Some(k) => Some(metrics.series@[k].current_value),
            None => None,
        }),
{
    if !is_rds_type(*metric_type) {
        assert(lookup(metrics.series@, *metric_type, false, None));
        return None;
    }
    match find_series(&metrics.series, *metric_type) {
        Some(i) => {
            assert(lookup(metrics.series@, *metric_type, true, Some(i as int)));
            Some(metrics.series[i].current_value)
        },
        None => {
            assert(lookup(metrics.series@, *metric_type, true, None));
            None
        },
    }
}

/// The history of an RDS metric, from its series.
pub fn get_rds_history<'a>(metrics: &'a MetricData, metric_type: &MetricType) -> (res: Option<&'a Vec<u64>>)
    ensures
        exists|i: Option<int>| #[trigger] lookup(metrics.series@, *metric_type, is_rds_chart_type(*metric_type), i)
            && res == (match i {
            Some(k) => Some(&metrics.series@[k].history),
            None => None,
        }),
{
    if !is_rds_type(*metric_type) {
        assert(lookup(metrics.series@, *metric_type, false, None));
        return None;
    }
    match find_series(&metrics.series, *metric_type) {
        Some(i) => {
            assert(lookup(metrics.series@, *metric_type, true, Some(i as int)));
            Some(&metrics.series[i].history)
        },
        None => {
            assert(lookup(metrics.series@, *metric_type, true, None));
            None
        },
    }
}

/// The latest reading of an SQS metric, from its series.
pub fn get_sqs_current_value(metrics: &SqsMetricData, metric_type: &MetricType) -> (res: Option<u64>)
    ensures
        exists|i: Option<int>| #[trigger] lookup(metrics.series@, *metric_type, is_sqs_chart_type(*metric_type), i)
            && res == (match i {
            Some(k) => Some(metrics.series@[k].current_value),
            None => None,
        }),
{
    if !is_sqs_type(*metric_type) {
        assert(lookup(metrics.series@, *metric_type, false, None));
        return None;
    }
    match find_series(&metrics.series, *metric_type) {
        Some(i) => {
            assert(lookup(metrics.series@, *metric_type, true, Some(i as int)));
            Some(metrics.series[i].current_value)
        },
        None => {
            assert(lookup(metrics.series@, *metric_type, true, None));
            None
        },
    }
}

/// The history of an SQS metric, from its series.
pub fn get_sqs_history<'a>(metrics: &'a SqsMetricData, metric_type: &MetricType) -> (res: Option<&'a Vec<u64>>)
    ensures
        exists|i: Option<int>| #[trigger] lookup(metrics.series@, *metric_type, is_sqs_chart_type(*metric_type), i)
            && res == (match i {
            Some(k) => Some(&metrics.series@[k].history),
            None => None,
        }),
{
    if !is_sqs_type(*metric_type) {
        assert(lookup(metrics.series@, *metric_type, false, None));
        return None;
    }
    match find_series(&metrics.series, *metric_type) {
        Some(i) => {
            assert(lookup(metrics.series@, *metric_type, true, Some(i as int)));
            Some(&metrics.series[i].history)
        },
        None => {
            assert(lookup(metrics.series@, *metric_type, true, None));
            None
        },
    }
}

/// AWS Console-style metric chart data.
#[derive(Debug, Clone)]
pub struct MetricChartData {
    pub metric_type: MetricType,
    pub current_value: u64,
    pub history: Vec<u64>,
    pub timestamps: Vec<u64>,
}

/// A copy of a reading series.
pub(crate) fn copy_series(v: &Vec<u64>) -> (res: Vec<u64>)
    ensures
        res@ == v@,
{
    let mut res: Vec<u64> = Vec::new();
    let mut i: usize = 0;
    while i < v.len()
        invariant
            0 <= i <= v@.len(),
            res@ == v@.take(i as int),
        decreases v@.len() - i,
    {
        res.push(v[i]);
        assert(res@ =~= v@.take(i + 1));
        i = i + 1;
    }
    assert(v@.take(v@.len() as int) =~= v@);
    res
}

/// The chart data of `metric_type` in the series `series` with `timestamps`.
pub open spec fn chart_data_from(
    series: Seq<MetricSeries>,
    timestamps: Seq<u64>,
    t: MetricType,
    supported: bool,
    res: Option<MetricChartData>,
) -> bool {
    exists|i: Option<int>| #[trigger] lookup(series, t, supported, i) && match i {
        Some(k) => res matches Some(d) && d.metric_type == t && d.current_value == series[k].current_value
            && d.history@ == series[k].history@ && d.timestamps@ == timestamps,
        None => res is None,
    }
}

impl MetricChartData {
    /// Chart data of a metric of the selected service: its latest reading, its
    /// history and the service's timestamps; none without a selected service or a
    /// series of that metric.
    pub fn from_app(app: &App, metric_type: MetricType) -> (res: Option<Self>)
        ensures
            match app.selected_service {
                None => res is None,
                Some(AwsService::Rds) => chart_data_from(
                    app.metrics.series@,
                    app.metrics.timestamps@,
                    metric_type,
                    is_rds_chart_type(metric_type),
                    res,
                ),
                Some(AwsService::Sqs) => chart_data_from(
                    app.sqs_metrics.series@,
                    app.sqs_metrics.timestamps@,
                    metric_type,
                    is_sqs_chart_type(metric_type),
                    res,
                ),
            },
    {
        let service = match app.selected_service {
            Some(s) => s,
            None => {
                return None;
            },
        };
        let (series, timestamps, supported) = match service {
            AwsService::Rds => (&app.metrics.series, &app.metrics.timestamps, is_rds_type(metric_type)),
            AwsService::Sqs => (&app.sqs_metrics.series, &app.sqs_metrics.timestamps, is_sqs_type(metric_type)),
        };
        if !supported {
            assert(lookup(series@, metric_type, false, None));
            return None;
        }
        match find_series(series, metric_type) {
            Some(i) => {
                assert(lookup(series@, metric_type, true, Some(i as int)));
                Some(MetricChartData {
                    metric_type,
                    current_value: series[i].current_value,
                    history: copy_series(&series[i].history),
                    timestamps: copy_series(timestamps),
                })
            },
            None => {
                assert(lookup(series@, metric_type, true, None));
                None
            },
        }
    }
}

} // verus!
