//! The AWS console-style grid of metric charts: which catalogue entry a
//! discovered metric takes, and in which order discovered metrics are laid out.
use vstd::prelude::*;
use crate::charts::chart_data::{chart_data_from, copy_series, MetricChartData};
use crate::charts::data_collector::{all_positions, sort_by_display_name, sorted_positions};
use crate::charts::grid_layout::{calculate_scrollable_grid_layout, ceil_div, GridLayout};
use crate::charts::name_order::{order_by_name, ordered_by_name};
use crate::components::aws_chart::{charted_types, METRICS_PER_ROW, METRICS_PER_SCREEN};
use crate::components::metric::display_format::DisplayFormat;
use crate::components::metric::metric_definition::{MetricColor, MetricDefinition};
use crate::components::metric::metric_registry::{registry_definition, MetricRegistry};
use crate::components::metric_list_utils::{grid_page, lemma_grid_page_shows_selection, spec_grid_page};
use crate::models::{types_with_data, App, AwsService, DynamicMetricData, MetricType};
use crate::style::{Color, ThemeColor};
use crate::text::{leak_text, str_eq};

verus! {

broadcast use vstd::string::group_string_axioms;

/// The metric type whose catalogue entry a discovered metric takes, by its exact
/// CloudWatch name.
pub open spec fn dynamic_metric_type(name: Seq<char>) -> Option<MetricType> {
    if name == "CPUUtilization"@ {
        Some(MetricType::CpuUtilization)
    } else if name == "DatabaseConnections"@ {
        Some(MetricType::DatabaseConnections)
    } else if name == "FreeStorageSpace"@ {
        Some(MetricType::FreeStorageSpace)
    } else if name == "ReadLatency"@ {
        Some(MetricType::ReadLatency)
    } else if name == "WriteLatency"@ {
        Some(MetricType::WriteLatency)
    } else if name == "ReadIOPS"@ {
        Some(MetricType::ReadIops)
    } else if name == "WriteIOPS"@ {
        Some(MetricType::WriteIops)
    } else if name == "ApproximateNumberOfMessagesVisible"@ {
        Some(MetricType::ApproximateNumberOfMessagesVisible)
    } else if name == "ApproximateNumberOfMessagesNotVisible"@ {
        Some(MetricType::ApproximateNumberOfMessagesNotVisible)
    } else if name == "ApproximateAgeOfOldestMessage"@ {
        Some(MetricType::ApproximateAgeOfOldestMessage)
    } else {
        None
    }
}

/// Map dynamic metric names to MetricType.
pub fn map_dynamic_to_metric_type(metric_name: &str) -> (res: Option<MetricType>)
    ensures
        res == dynamic_metric_type(metric_name@),
{
    if str_eq(metric_name, "CPUUtilization") {
        Some(MetricType::CpuUtilization)
    } else if str_eq(metric_name, "DatabaseConnections") {
        Some(MetricType::DatabaseConnections)
    } else if str_eq(metric_name, "FreeStorageSpace") {
        Some(MetricType::FreeStorageSpace)
    } else if str_eq(metric_name, "ReadLatency") {
        Some(MetricType::ReadLatency)
    } else if str_eq(metric_name, "WriteLatency") {
        Some(MetricType::WriteLatency)
    } else if str_eq(metric_name, "ReadIOPS") {
        Some(MetricType::ReadIops)
    } else if str_eq(metric_name, "WriteIOPS") {
        Some(MetricType::WriteIops)
    } else if str_eq(metric_name, "ApproximateNumberOfMessagesVisible") {
        Some(MetricType::ApproximateNumberOfMessagesVisible)
    } else if str_eq(metric_name, "ApproximateNumberOfMessagesNotVisible") {
        Some(MetricType::ApproximateNumberOfMessagesNotVisible)
    } else if str_eq(metric_name, "ApproximateAgeOfOldestMessage") {
        Some(MetricType::ApproximateAgeOfOldestMessage)
    } else {
        None
    }
}

/// The name CloudWatch publishes a metric type under (the generic kinds `Percentage`,
/// `Count`, `Seconds` and `Bytes` carry their own names).
pub open spec fn cloudwatch_metric_name(t: MetricType) -> Seq<char> {
    match t {
        MetricType::CpuUtilization => "CPUUtilization"@,
        MetricType::BurstBalance => "BurstBalance"@,
        MetricType::Percentage => "Percentage"@,
        MetricType::DatabaseConnections => "DatabaseConnections"@,
        MetricType::ReadIops => "ReadIOPS"@,
        MetricType::WriteIops => "WriteIOPS"@,
        MetricType::QueueDepth => "DiskQueueDepth"@,
        MetricType::ConnectionAttempts => "ConnectionAttempts"@,
        MetricType::MaximumUsedTransactionIds => "MaximumUsedTransactionIDs"@,
        MetricType::FailedSqlServerAgentJobsCount => "FailedSQLServerAgentJobsCount"@,
        MetricType::NumberOfMessagesSent => "NumberOfMessagesSent"@,
        MetricType::NumberOfMessagesReceived => "NumberOfMessagesReceived"@,
        MetricType::NumberOfMessagesDeleted => "NumberOfMessagesDeleted"@,
        MetricType::ApproximateNumberOfMessages => "ApproximateNumberOfMessages"@,
        MetricType::ApproximateNumberOfMessagesVisible => "ApproximateNumberOfMessagesVisible"@,
        MetricType::ApproximateNumberOfMessagesNotVisible => "ApproximateNumberOfMessagesNotVisible"@,
        MetricType::NumberOfEmptyReceives => "NumberOfEmptyReceives"@,
        MetricType::ApproximateNumberOfMessagesDelayed => "ApproximateNumberOfMessagesDelayed"@,
        MetricType::NumberOfMessagesInDlq => "NumberOfMessagesInDlq"@,
        MetricType::ApproximateNumberOfGroupsWithInflightMessages => "ApproximateNumberOfGroupsWithInflightMessages"@,
        MetricType::NumberOfDeduplicatedSentMessages => "NumberOfDeduplicatedSentMessages"@,
        MetricType::Count => "Count"@,
        MetricType::ReadLatency => "ReadLatency"@,
        MetricType::WriteLatency => "WriteLatency"@,
        MetricType::ReplicaLag => "ReplicaLag"@,
        MetricType::CheckpointLag => "CheckpointLag"@,
        MetricType::ApproximateAgeOfOldestMessage => "ApproximateAgeOfOldestMessage"@,
        MetricType::Seconds => "Seconds"@,
        MetricType::FreeStorageSpace => "FreeStorageSpace"@,
        MetricType::FreeableMemory => "FreeableMemory"@,
        MetricType::SwapUsage => "SwapUsage"@,
        MetricType::BinLogDiskUsage => "BinLogDiskUsage"@,
        MetricType::ReplicationSlotDiskUsage => "ReplicationSlotDiskUsage"@,
        MetricType::TransactionLogsDiskUsage => "TransactionLogsDiskUsage"@,
        MetricType::OldestReplicationSlotLag => "OldestReplicationSlotLag"@,
        MetricType::OldestLogicalReplicationSlotLag => "OldestLogicalReplicationSlotLag"@,
        MetricType::SentMessageSize => "SentMessageSize"@,
        MetricType::Bytes => "Bytes"@,
        MetricType::ReadThroughput => "ReadThroughput"@,
        MetricType::WriteThroughput => "WriteThroughput"@,
        MetricType::NetworkReceiveThroughput => "NetworkReceiveThroughput"@,
        MetricType::NetworkTransmitThroughput => "NetworkTransmitThroughput"@,
        MetricType::TransactionLogsGeneration => "TransactionLogsGeneration"@,
        MetricType::CpuCreditUsage => "CPUCreditUsage"@,
        MetricType::CpuCreditBalance => "CPUCreditBalance"@,
        MetricType::CpuSurplusCreditBalance => "CPUSurplusCreditBalance"@,
        MetricType::CpuSurplusCreditsCharged => "CPUSurplusCreditsCharged"@,
        MetricType::EbsByteBalance => "EBSByteBalance%"@,
        MetricType::EbsIoBalance => "EBSIOBalance%"@,
    }
}

/// A discovered metric takes the catalogue entry of the metric type published under
/// its name: whenever a name maps to a type, that type's CloudWatch name is the name.
pub proof fn lemma_dynamic_type_carries_name(name: Seq<char>)
    ensures
        dynamic_metric_type(name) matches Some(t) ==> cloudwatch_metric_name(t) == name,
{
}

/// Two different discovered names never take the same metric type.
pub proof fn lemma_dynamic_type_injective(a: Seq<char>, b: Seq<char>)
    requires
        dynamic_metric_type(a) is Some,
        dynamic_metric_type(a) == dynamic_metric_type(b),
    ensures
        a == b,
{
    lemma_dynamic_type_carries_name(a);
    lemma_dynamic_type_carries_name(b);
}

/// AWS Console-style metrics grid renderer with unified architecture.
#[derive(Debug)]
pub struct AwsMetricsGrid;

impl AwsMetricsGrid {
    /// The order in which discovered metrics fill the grid: every discovered
    /// metric, by display name (equal names in their original order); none when
    /// no metrics were discovered, so that the predefined metrics are shown.
    pub fn dynamic_metric_order(app: &App) -> (res: Option<Vec<usize>>)
        ensures
            match app.dynamic_metrics {
                Some(dm) => if dm.metrics@.len() > 0 {
                    res matches Some(order) && sorted_positions(dm.metrics@, order@, all_positions(dm.metrics@))
                } else {
                    res is None
                },
                None => res is None,
            },
    {
        match &app.dynamic_metrics {
            Some(dm) => {
                if dm.is_empty() {
                    None
                } else {
                    Some(sort_by_display_name(&dm.metrics))
                }
            },
            None => None,
        }
    }
}

/// `a` holds what `b` holds.
pub open spec fn same_dynamic(a: DynamicMetricData, b: DynamicMetricData) -> bool {
    &&& a.metric_name@ == b.metric_name@
    &&& a.display_name@ == b.display_name@
    &&& a.current_value == b.current_value
    &&& a.history@ == b.history@
    &&& a.timestamps@ == b.timestamps@
    &&& match (a.unit, b.unit) {
        (Some(x), Some(y)) => x@ == y@,
        (None, None) => true,
        _ => false,
    }
}

/// A copy of a discovered metric.
pub fn duplicate_dynamic(m: &DynamicMetricData) -> (res: DynamicMetricData)
    ensures
        same_dynamic(res, *m),
{
    DynamicMetricData {
        metric_name: m.metric_name.clone(),
        display_name: m.display_name.clone(),
        current_value: m.current_value,
        history: copy_series(&m.history),
        timestamps: copy_series(&m.timestamps),
        unit: match &m.unit {
            Some(u) => Some(u.clone()),
            None => None,
        },
    }
}

/// A copy of the chart data of a predefined metric.
pub fn duplicate_chart(c: &MetricChartData) -> (res: MetricChartData)
    ensures
        res.metric_type == c.metric_type,
        res.current_value == c.current_value,
        res.history@ == c.history@,
        res.timestamps@ == c.timestamps@,
{
    MetricChartData {
        metric_type: c.metric_type,
        current_value: c.current_value,
        history: copy_series(&c.history),
        timestamps: copy_series(&c.timestamps),
    }
}

/// Unified data structure for both predefined and discovered metrics.
#[derive(Debug)]
pub enum UnifiedMetricData {
    Legacy(MetricChartData),
    Dynamic(DynamicMetricData),
}

/// The definition of a discovered metric: the catalogue entry of the metric type
/// its name maps to, or else a gray entry under its display name with two
/// decimals, no thresholds and a generic description.
pub open spec fn is_dynamic_definition(data: DynamicMetricData, res: MetricDefinition) -> bool {
    match dynamic_metric_type(data.metric_name@) {
        Some(t) => res == registry_definition(t),
        None => {
            &&& res.name@ == data.display_name@
            &&& res.display_format == DisplayFormat::Decimal(2)
            &&& res.thresholds is None
            &&& res.color == MetricColor::Fixed(Color::Gray)
            &&& res.description@ == "Dynamic metric from CloudWatch"@
        },
    }
}

impl UnifiedMetricData {
    /// Get metric definition for this metric.
    pub fn get_definition(&self) -> (res: MetricDefinition)
        ensures
            match self {
                UnifiedMetricData::Legacy(data) => res == registry_definition(data.metric_type),
                UnifiedMetricData::Dynamic(data) => is_dynamic_definition(*data, res),
            },
    {
        match self {
            UnifiedMetricData::Legacy(data) => MetricRegistry::get_definition(&data.metric_type),
            UnifiedMetricData::Dynamic(data) => Self::create_dynamic_definition(data),
        }
    }

    /// Get current value for this metric (as `f64` bits).
    pub fn get_current_value(&self) -> (res: u64)
        ensures
            res == match self {
                UnifiedMetricData::Legacy(data) => data.current_value,
                UnifiedMetricData::Dynamic(data) => data.current_value,
            },
    {
        match self {
            UnifiedMetricData::Legacy(data) => data.current_value,
            UnifiedMetricData::Dynamic(data) => data.current_value,
        }
    }

    /// Get display name for this metric: the catalogue name of a predefined
    /// metric, the display name of a discovered one.
    pub fn get_display_name(&self) -> (res: String)
        ensures
            res@ == match self {
                UnifiedMetricData::Legacy(data) => registry_definition(data.metric_type).name@,
                UnifiedMetricData::Dynamic(data) => data.display_name@,
            },
    {
        match self {
            UnifiedMetricData::Legacy(data) => MetricRegistry::get_definition(&data.metric_type).name.to_owned(),
            UnifiedMetricData::Dynamic(data) => data.display_name.clone(),
        }
    }

    /// Create metric definition for dynamic metrics. An unknown metric's entry
    /// keeps its display name for the rest of the program.
    pub fn create_dynamic_definition(data: &DynamicMetricData) -> (res: MetricDefinition)
        ensures
            is_dynamic_definition(*data, res),
    {
        match map_dynamic_to_metric_type(data.metric_name.as_str()) {
            Some(t) => MetricRegistry::get_definition(&t),
            None => MetricDefinition::new(
                leak_text(data.display_name.clone()),
                DisplayFormat::Decimal(2),
                None,
                MetricColor::Fixed(Color::Gray),
                "Dynamic metric from CloudWatch",
            ),
        }
    }
}

/// Whether discovered metrics are at hand.
pub open spec fn has_discovered(app: App) -> bool {
    app.dynamic_metrics matches Some(dm) && dm.metrics@.len() > 0
}

/// The catalogue names of the given metric types.
pub open spec fn catalogue_names(types: Seq<MetricType>) -> Seq<&'static str> {
    Seq::new(types.len(), |j: int| catalogue_name(types[j]))
}

/// The catalogue name of a metric type.
pub open spec fn catalogue_name(t: MetricType) -> &'static str {
    registry_definition(t).name
}

/// The metrics the grid lists: the discovered metrics, by display name (equal
/// names in their original order), when there are any; else, for a selected
/// database, the charted predefined metrics with readings, by catalogue name;
/// else none.
pub open spec fn is_unified_list(app: App, res: Seq<UnifiedMetricData>) -> bool {
    if has_discovered(app) {
        let ms = app.dynamic_metrics->0.metrics@;
        exists|order: Seq<usize>| {
            &&& sorted_positions(ms, order, all_positions(ms))
            &&& order.len() == ms.len()
            &&& order.len() == res.len()
            &&& forall|k: int| 0 <= k < res.len() ==> (#[trigger] res[k] matches UnifiedMetricData::Dynamic(d) && same_dynamic(d, ms[order[k] as int]))
        }
    } else if app.selected_service == Some(AwsService::Rds) {
        let series = app.metrics.series@;
        let shown = charted_types(AwsService::Rds, types_with_data(series));
        exists|order: Seq<usize>| {
            &&& ordered_by_name(catalogue_names(shown), order)
            &&& order.len() == res.len()
            &&& forall|k: int| 0 <= k < res.len() ==> (#[trigger] res[k] matches UnifiedMetricData::Legacy(c) && chart_data_from(series, app.metrics.timestamps@, shown[order[k] as int], true, Some(c)))
        }
    } else {
        res.len() == 0
    }
}

impl AwsMetricsGrid {
    /// Collect all available metrics using unified approach.
    pub fn collect_unified_metrics(app: &App) -> (res: Vec<UnifiedMetricData>)
        ensures
            is_unified_list(*app, res@),
    {
        let mut res: Vec<UnifiedMetricData> = Vec::new();
        if let Some(dm) = &app.dynamic_metrics {
            if dm.metrics.len() > 0 {
                let order = sort_by_display_name(&dm.metrics);
                let mut k: usize = 0;
                while k < order.len()
                    invariant
                        app.dynamic_metrics == Some(*dm),
                        sorted_positions(dm.metrics@, order@, all_positions(dm.metrics@)),
                        order@.len() == dm.metrics@.len(),
                        0 <= k <= order@.len(),
                        res@.len() == k,
                        forall|j: int| 0 <= j < k ==> (#[trigger] res@[j] matches UnifiedMetricData::Dynamic(d) && same_dynamic(d, dm.metrics@[order@[j] as int])),
                    decreases order@.len() - k,
                {
                    proof {
                        assert(all_positions(dm.metrics@).contains(order@[k as int] as int));
                    }
                    let m = duplicate_dynamic(&dm.metrics[order[k]]);
                    res.push(UnifiedMetricData::Dynamic(m));
                    k = k + 1;
                }
                return res;
            }
        }
        if app.selected_service != Some(AwsService::Rds) {
            return res;
        }
        let ghost series = app.metrics.series@;
        let available = app.metrics.get_available_metrics_with_data();
        let ghost shown = charted_types(AwsService::Rds, available@);
        let mut charts: Vec<MetricChartData> = Vec::new();
        let mut i: usize = 0;
        while i < available.len()
            invariant
                app.selected_service == Some(AwsService::Rds),
                series == app.metrics.series@,
                available@ == types_with_data(series),
                shown == charted_types(AwsService::Rds, available@),
                0 <= i <= available@.len(),
                charts@.len() == charted_types(AwsService::Rds, available@.take(i as int)).len(),
                forall|j: int| 0 <= j < charts@.len() ==> chart_data_from(
                    series,
                    app.metrics.timestamps@,
                    charted_types(AwsService::Rds, available@.take(i as int))[j],
                    true,
                    Some(#[trigger] charts@[j]),
                ),
            decreases available@.len() - i,
        {
            let t = available[i];
            proof {
                assert(available@.take(i + 1).drop_last() =~= available@.take(i as int));
                assert(available@.take(i + 1).last() == t);
                assert(types_with_data(series).contains(t)) by {
                    assert(available@[i as int] == t);
                }
                crate::components::aws_chart::lemma_listed_type_has_series(series, t);
            }
            match MetricChartData::from_app(app, t) {
                Some(c) => {
                    charts.push(c);
                },
                None => {},
            }
            i = i + 1;
        }
        proof {
            assert(available@.take(available@.len() as int) =~= available@);
        }
        let mut names: Vec<&str> = Vec::new();
        let mut j: usize = 0;
        while j < charts.len()
            invariant
                charts@.len() == shown.len(),
                forall|q: int| 0 <= q < charts@.len() ==> chart_data_from(series, app.metrics.timestamps@, shown[q], true, Some(#[trigger] charts@[q])),
                0 <= j <= charts@.len(),
                names@.len() == j,
                forall|q: int| 0 <= q < j ==> #[trigger] names@[q] == catalogue_name(shown[q]),
            decreases charts@.len() - j,
        {
            proof {
                assert(chart_data_from(series, app.metrics.timestamps@, shown[j as int], true, Some(charts@[j as int])));
            }
            let name = MetricRegistry::get_definition(&charts[j].metric_type).name;
            names.push(name);
            j = j + 1;
        }
        assert(names@ =~= catalogue_names(shown));
        let order = order_by_name(&names);
        let mut k: usize = 0;
        while k < order.len()
            invariant
                charts@.len() == shown.len(),
                forall|q: int| 0 <= q < charts@.len() ==> chart_data_from(series, app.metrics.timestamps@, shown[q], true, Some(#[trigger] charts@[q])),
                ordered_by_name(catalogue_names(shown), order@),
                0 <= k <= order@.len(),
                res@.len() == k,
                forall|q: int| 0 <= q < k ==> (#[trigger] res@[q] matches UnifiedMetricData::Legacy(c) && chart_data_from(series, app.metrics.timestamps@, shown[order@[q] as int], true, Some(c))),
            decreases order@.len() - k,
        {
            let c = duplicate_chart(&charts[order[k]]);
            proof {
                let p = order@[k as int] as int;
                assert(chart_data_from(series, app.metrics.timestamps@, shown[p], true, Some(charts@[p])));
            }
            res.push(UnifiedMetricData::Legacy(c));
            k = k + 1;
        }
        res
    }
}

/// What the unified grid shows.
#[derive(Debug)]
pub enum UnifiedView {
    /// No service is selected: nothing is drawn.
    NoService,
    /// No metrics: an information box with this title, message and colour role.
    NoMetrics { title: String, message: &'static str, role: ThemeColor },
    /// The screen of metrics holding the selection, the grid they fill, and the
    /// selected metric counted from the start of the screen.
    Metrics { metrics: Vec<UnifiedMetricData>, layout: GridLayout, selected: usize },
}

/// What the unified grid shows for the selected service: nothing without one;
/// without metrics, a box naming the service ("No RDS instances found..." in
/// the info colour for databases, "No metrics available..." as a warning
/// otherwise); else the screen of four metrics of the unified list holding the
/// selection (the first when nothing is selected), two to a row.
pub open spec fn is_unified_view(app: App, selected: nat, all: Seq<UnifiedMetricData>, res: UnifiedView) -> bool {
    match app.selected_service {
        None => res is NoService,
        Some(s) => {
            &&& is_unified_list(app, all)
            &&& if all.len() == 0 {
                res matches UnifiedView::NoMetrics { title, message, role }
                    && title@ == s.spec_short_name() + " Metrics"@
                    && (s == AwsService::Rds ==> message@ == "No RDS instances found.\nEnsure you have RDS instances running in your AWS account."@ && role == ThemeColor::Info)
                    && (s == AwsService::Sqs ==> message@ == "No metrics available for this service."@ && role == ThemeColor::Warning)
            } else {
                let p = spec_grid_page(all.len(), selected, METRICS_PER_SCREEN as nat);
                res matches UnifiedView::Metrics { metrics, layout, selected: rel }
                    && metrics@ == all.subrange(p.start as int, p.end as int)
                    && layout == (GridLayout { rows: ceil_div(metrics@.len(), 2) as usize, cols: 2 })
                    && rel == p.relative_selected
            }
        },
    }
}

/// The grid's selection: the first metric when nothing is selected.
pub open spec fn grid_selection(app: App) -> nat {
    match app.sparkline_grid_selected {
        Some(s) => s as nat,
        None => 0,
    }
}

impl AwsMetricsGrid {
    /// What the unified grid shows for the selected service and the grid's
    /// selection.
    pub fn unified_view(app: &App) -> (res: UnifiedView)
        requires
            app.dynamic_metrics matches Some(dm) ==> dm.metrics@.len() + METRICS_PER_SCREEN <= usize::MAX,
            app.metrics.series@.len() + METRICS_PER_SCREEN <= usize::MAX,
        ensures
            exists|all: Seq<UnifiedMetricData>| #[trigger] is_unified_view(*app, grid_selection(*app), all, res),
    {
        let service = match app.selected_service {
            Some(s) => s,
            None => {
                assert(is_unified_view(*app, grid_selection(*app), Seq::empty(), UnifiedView::NoService));
                return UnifiedView::NoService;
            },
        };
        let mut all = Self::collect_unified_metrics(app);
        let ghost whole = all@;
        if all.len() == 0 {
            let mut title = service.short_name().to_owned();
            title.append(" Metrics");
            let (message, role) = match service {
                AwsService::Rds => (
                    "No RDS instances found.\nEnsure you have RDS instances running in your AWS account.",
                    ThemeColor::Info,
                ),
                AwsService::Sqs => ("No metrics available for this service.", ThemeColor::Warning),
            };
            let res = UnifiedView::NoMetrics { title, message, role };
            assert(is_unified_view(*app, grid_selection(*app), whole, res));
            return res;
        }
        proof {
            if !has_discovered(*app) {
                let series = app.metrics.series@;
                crate::components::aws_chart::lemma_types_with_data_len(series);
                crate::components::aws_chart::lemma_charted_types_len(AwsService::Rds, types_with_data(series));
            }
        }
        let selected = match app.sparkline_grid_selected {
            Some(s) => s,
            None => 0,
        };
        let page = grid_page(all.len(), selected, METRICS_PER_SCREEN);
        proof {
            lemma_grid_page_shows_selection(all@.len(), selected as nat, METRICS_PER_SCREEN as nat);
        }
        let mut visible = all.split_off(page.start);
        visible.truncate(page.end - page.start);
        assert(visible@ =~= whole.subrange(page.start as int, page.end as int));
        let layout = calculate_scrollable_grid_layout(visible.len(), METRICS_PER_ROW);
        let res = UnifiedView::Metrics { metrics: visible, layout, selected: page.relative_selected };
        assert(is_unified_view(*app, grid_selection(*app), whole, res));
        res
    }
}

} // verus!
