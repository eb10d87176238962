use vstd::prelude::*;
use crate::components::error_feedback::ErrorFeedback;
use crate::components::help_system::HelpSystem;

verus! {

/// The AWS services whose metrics the dashboard shows.
#[derive(Debug, Clone, Copy, PartialEq, Eq, Structural)]
pub enum AwsService {
    Rds,
    Sqs,
}

impl AwsService {
    /// The short name of the service ("RDS", "SQS").
    pub open spec fn spec_short_name(self) -> Seq<char> {
        match self {
            AwsService::Rds => "RDS"@,
            AwsService::Sqs => "SQS"@,
        }
    }

    /// The short name of the service ("RDS", "SQS").
    pub fn short_name(&self) -> (name: &'static str)
        ensures
            name@ == self.spec_short_name(),
    {
        match self {
            AwsService::Rds => "RDS",
            AwsService::Sqs => "SQS",
        }
    }
}

/// The screen the application is on.
#[derive(Debug, Clone, Copy, PartialEq, Eq, Structural)]
pub enum AppState {
    ServiceList,
    InstanceList,
    MetricsSummary,
    InstanceDetails,
}

/// The panel of the metrics summary screen that has the keyboard focus.
#[derive(Debug, Clone, Copy, PartialEq, Eq, Structural)]
pub enum FocusedPanel {
    Timezone,
    Period,
    TimeRanges,
    SparklineGrid,
}

/// The CloudWatch metrics the dashboard knows by name.
#[derive(Debug, Clone, Copy, PartialEq, Eq, Structural)]
pub enum MetricType {
    CpuUtilization,
    BurstBalance,
    Percentage,
    DatabaseConnections,
    ReadIops,
    WriteIops,
    QueueDepth,
    ConnectionAttempts,
    MaximumUsedTransactionIds,
    FailedSqlServerAgentJobsCount,
    NumberOfMessagesSent,
    NumberOfMessagesReceived,
    NumberOfMessagesDeleted,
    ApproximateNumberOfMessages,
    ApproximateNumberOfMessagesVisible,
    ApproximateNumberOfMessagesNotVisible,
    NumberOfEmptyReceives,
    ApproximateNumberOfMessagesDelayed,
    NumberOfMessagesInDlq,
    ApproximateNumberOfGroupsWithInflightMessages,
    NumberOfDeduplicatedSentMessages,
    Count,
    ReadLatency,
    WriteLatency,
    ReplicaLag,
    CheckpointLag,
    ApproximateAgeOfOldestMessage,
    Seconds,
    FreeStorageSpace,
    FreeableMemory,
    SwapUsage,
    BinLogDiskUsage,
    ReplicationSlotDiskUsage,
    TransactionLogsDiskUsage,
    OldestReplicationSlotLag,
    OldestLogicalReplicationSlotLag,
    SentMessageSize,
    Bytes,
    ReadThroughput,
    WriteThroughput,
    NetworkReceiveThroughput,
    NetworkTransmitThroughput,
    TransactionLogsGeneration,
    CpuCreditUsage,
    CpuCreditBalance,
    CpuSurplusCreditBalance,
    CpuSurplusCreditsCharged,
    EbsByteBalance,
    EbsIoBalance,
}

/// A metric discovered at run time. Sample values are held as the IEEE-754 bit
/// patterns of the `f64` readings (`f64::to_bits`); timestamps as whole seconds
/// since the Unix epoch.
#[derive(Debug, Clone)]
pub struct DynamicMetricData {
    pub metric_name: String,
    pub display_name: String,
    pub current_value: u64,
    pub history: Vec<u64>,
    pub timestamps: Vec<u64>,
    pub unit: Option<String>,
}

/// The metrics discovered for the selected resource.
#[derive(Debug, Clone)]
pub struct DynamicMetrics {
    pub metrics: Vec<DynamicMetricData>,
}

impl DynamicMetrics {
    /// Whether no metric was discovered.
    pub fn is_empty(&self) -> (res: bool)
        ensures
            res == (self.metrics@.len() == 0),
    {
        self.metrics.len() == 0
    }
}

/// One predefined metric series: its type, the latest reading and the history
/// (readings as `f64` bit patterns).
#[derive(Debug, Clone)]
pub struct MetricSeries {
    pub metric_type: MetricType,
    pub current_value: u64,
    pub history: Vec<u64>,
}

/// The metric types of the series that hold at least one reading, in order.
pub open spec fn types_with_data(series: Seq<MetricSeries>) -> Seq<MetricType>
    decreases series.len(),
{
    if series.len() == 0 {
        Seq::empty()
    } else {
        let rest = types_with_data(series.drop_last());
        if series.last().history@.len() > 0 {
            rest.push(series.last().metric_type)
        } else {
            rest
        }
    }
}

/// Collects, in order, the types of the series that hold at least one reading.
fn collect_types_with_data(series: &Vec<MetricSeries>) -> (res: Vec<MetricType>)
    ensures
        res@ == types_with_data(series@),
{
    let mut res: Vec<MetricType> = Vec::new();
    let mut i: usize = 0;
    while i < series.len()
        invariant
            0 <= i <= series@.len(),
            res@ == types_with_data(series@.subrange(0, i as int)),
        decreases series@.len() - i,
    {
        proof {
            assert(series@.subrange(0, i + 1).drop_last() =~= series@.subrange(0, i as int));
        }
        if series[i].history.len() > 0 {
            res.push(series[i].metric_type);
        }
        i = i + 1;
    }
    assert(series@.subrange(0, series@.len() as int) =~= series@);
    res
}

/// Predefined RDS metrics of the selected instance.
#[derive(Debug, Clone)]
pub struct MetricData {
    pub timestamps: Vec<u64>,
    pub series: Vec<MetricSeries>,
}

impl MetricData {
    /// The metric types that hold readings, in the order of the series.
    pub fn get_available_metrics_with_data(&self) -> (res: Vec<MetricType>)
        ensures
            res@ == types_with_data(self.series@),
    {
        collect_types_with_data(&self.series)
    }
}

impl Default for MetricData {
    fn default() -> (res: Self)
        ensures
            res.timestamps@.len() == 0,
            res.series@.len() == 0,
    {
        MetricData { timestamps: Vec::new(), series: Vec::new() }
    }
}

/// Predefined SQS metrics of the selected queue.
#[derive(Debug, Clone)]
pub struct SqsMetricData {
    pub timestamps: Vec<u64>,
    pub series: Vec<MetricSeries>,
}

impl SqsMetricData {
    /// The metric types that hold readings, in the order of the series.
    pub fn get_available_metrics(&self) -> (res: Vec<MetricType>)
        ensures
            res@ == types_with_data(self.series@),
    {
        collect_types_with_data(&self.series)
    }
}

impl Default for SqsMetricData {
    fn default() -> (res: Self)
        ensures
            res.timestamps@.len() == 0,
            res.series@.len() == 0,
    {
        SqsMetricData { timestamps: Vec::new(), series: Vec::new() }
    }
}

/// How the time range of the metrics is chosen: relative to now, or between two
/// given instants.
#[derive(Debug, Clone, Copy, PartialEq, Eq, Structural)]
pub enum TimeRangeMode {
    Relative,
    Absolute,
}

/// The unit of a relative time range.
#[derive(Debug, Clone, Copy, PartialEq, Eq, Structural)]
pub enum TimeUnit {
    Minutes,
    Hours,
    Days,
    Weeks,
    Months,
}

/// An RDS database instance as listed by the dashboard.
#[derive(Debug, Clone)]
pub struct RdsInstance {
    pub identifier: String,
    pub engine: String,
    pub status: String,
    pub instance_class: String,
    pub endpoint: Option<String>,
}

/// An SQS queue as listed by the dashboard.
#[derive(Debug, Clone)]
pub struct SqsQueue {
    pub name: String,
    pub url: String,
    pub queue_type: String,
}

/// A listed resource of the selected service.
#[derive(Debug, Clone)]
pub enum ServiceInstance {
    Rds(RdsInstance),
    Sqs(SqsQueue),
}

/// The application state that the screens read and change. List selections are
/// the selected indices of the lists (`None` when nothing is selected).
#[derive(Debug, Clone)]
pub struct App {
    pub state: AppState,
    pub focused_panel: FocusedPanel,
    pub selected_service: Option<AwsService>,
    pub available_services: Vec<AwsService>,
    pub service_list_selected: Option<usize>,
    pub instances: Vec<ServiceInstance>,
    pub list_selected: Option<usize>,
    pub selected_instance: Option<usize>,
    pub sparkline_grid_selected: Option<usize>,
    pub metrics: MetricData,
    pub sqs_metrics: SqsMetricData,
    pub dynamic_metrics: Option<DynamicMetrics>,
    pub error_feedback: ErrorFeedback,
    pub help_system: HelpSystem,
    pub loading: bool,
    pub metrics_loading: bool,
    pub error_message: Option<String>,
}

/// The instance at the selected position of the list, if any.
pub open spec fn selected_instance_of(app: App) -> Option<ServiceInstance> {
    match app.selected_instance {
        Some(i) => if i < app.instances@.len() {
            Some(app.instances@[i as int])
        } else {
            None
        },
        None => None,
    }
}

impl App {
    /// The resources listed for the selected service.
    pub fn get_current_instances(&self) -> (res: &Vec<ServiceInstance>)
        ensures
            res == &self.instances,
    {
        &self.instances
    }

    /// The instance at the selected position of the list, if any.
    pub fn get_selected_instance(&self) -> (res: Option<&ServiceInstance>)
        ensures
            match selected_instance_of(*self) {
                Some(x) => res matches Some(r) && *r == x,
                None => res is None,
            },
    {
        match self.selected_instance {
            Some(i) => if i < self.instances.len() {
                Some(&self.instances[i])
            } else {
                None
            },
            None => None,
        }
    }

    /// The panel that has the keyboard focus.
    pub fn get_focused_panel(&self) -> (res: FocusedPanel)
        ensures
            res == self.focused_panel,
    {
        self.focused_panel
    }
}

impl Default for App {
    fn default() -> (res: Self)
        ensures
            res.state == AppState::ServiceList,
            res.focused_panel == FocusedPanel::TimeRanges,
            res.selected_service.is_none(),
            res.available_services@ == seq![AwsService::Rds, AwsService::Sqs],
            res.service_list_selected == Some(0usize),
            res.instances@.len() == 0,
            res.list_selected.is_none(),
            res.selected_instance.is_none(),
            res.sparkline_grid_selected.is_none(),
            res.metrics.timestamps@.len() == 0,
            res.metrics.series@.len() == 0,
            res.sqs_metrics.timestamps@.len() == 0,
            res.sqs_metrics.series@.len() == 0,
            res.dynamic_metrics.is_none(),
            !res.error_feedback.has_error_spec(),
            !res.help_system.visible,
            !res.loading,
            !res.metrics_loading,
            res.error_message.is_none(),
    {
        let mut services: Vec<AwsService> = Vec::new();
        services.push(AwsService::Rds);
        services.push(AwsService::Sqs);
        App {
            state: AppState::ServiceList,
            focused_panel: FocusedPanel::TimeRanges,
            selected_service: None,
            available_services: services,
            service_list_selected: Some(0),
            instances: Vec::new(),
            list_selected: None,
            selected_instance: None,
            sparkline_grid_selected: None,
            metrics: MetricData::default(),
            sqs_metrics: SqsMetricData::default(),
            dynamic_metrics: None,
            error_feedback: ErrorFeedback::new(),
            help_system: HelpSystem::new(),
            loading: false,
            metrics_loading: false,
            error_message: None,
        }
    }
}

} // verus!
