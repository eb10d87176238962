//! The AWS console-style grid of metric charts: what the grid shows for the
//! selected service and selection, and how it divides its area. Its data helpers
//! are those of `charts::chart_data`.
use vstd::prelude::*;
use crate::charts::chart_data::{chart_data_from, has_type, is_rds_chart_type, is_sqs_chart_type, MetricChartData};
use crate::charts::grid_layout::{calculate_scrollable_grid_layout, ceil_div, GridLayout};
use crate::components::metric_list_utils::{grid_page, spec_grid_page};
use crate::layout::{layout_split, spec_split, Constraint, Direction, Rect};
use crate::models::{types_with_data, App, AwsService, MetricSeries, MetricType};
use crate::style::Color;

verus! {

/// AWS Console-style metrics grid renderer.
#[derive(Debug)]
pub struct AwsMetricsGrid;

/// Metrics on one screen of the grid.
pub const METRICS_PER_SCREEN: usize = 4;

/// Metrics in one row of the grid.
pub const METRICS_PER_ROW: usize = 2;

/// The least height of a row of charts, when the area has room for it.
pub const MIN_ROW_HEIGHT: u16 = 12;

/// What the grid shows.
#[derive(Debug)]
pub enum GridView {
    /// No service is selected: nothing is drawn.
    NoService,
    /// "No metrics available for this service".
    NoMetrics,
    /// "Loading metrics...": metrics hold readings, but none has chart data yet.
    Loading,
    /// The screen of charts holding the selection, the grid they fill, and the
    /// selected chart counted from the start of the screen.
    Charts { charts: Vec<MetricChartData>, layout: GridLayout, selected: usize },
}

/// The metric types the service draws charts of.
pub open spec fn charted(service: AwsService, t: MetricType) -> bool {
    match service {
        AwsService::Rds => is_rds_chart_type(t),
        AwsService::Sqs => is_sqs_chart_type(t),
    }
}

/// The predefined series of the service.
pub open spec fn service_series(app: App, service: AwsService) -> Seq<MetricSeries> {
    match service {
        AwsService::Rds => app.metrics.series@,
        AwsService::Sqs => app.sqs_metrics.series@,
    }
}

/// The timestamps of the service's readings.
pub open spec fn service_timestamps(app: App, service: AwsService) -> Seq<u64> {
    match service {
        AwsService::Rds => app.metrics.timestamps@,
        AwsService::Sqs => app.sqs_metrics.timestamps@,
    }
}

/// The types among `types` that the service draws charts of, in order.
pub open spec fn charted_types(service: AwsService, types: Seq<MetricType>) -> Seq<MetricType>
    decreases types.len(),
{
    if types.len() == 0 {
        Seq::empty()
    } else {
        let rest = charted_types(service, types.drop_last());
        if charted(service, types.last()) {
            rest.push(types.last())
        } else {
            rest
        }
    }
}

/// What the grid shows: nothing without a service; "no metrics" when no series
/// of the service holds readings; "loading" when none of those is charted;
/// otherwise the screen of four charts holding the selection (the first chart
/// when nothing is selected), in the order of the series, laid out two to a row.
pub open spec fn is_grid_view(app: App, selected: nat, res: GridView) -> bool {
    match app.selected_service {
        None => res is NoService,
        Some(s) => {
            let series = service_series(app, s);
            let available = types_with_data(series);
            let shown = charted_types(s, available);
            if available.len() == 0 {
                res is NoMetrics
            } else if shown.len() == 0 {
                res is Loading
            } else {
                let p = spec_grid_page(shown.len(), selected, METRICS_PER_SCREEN as nat);
                res matches GridView::Charts { charts, layout, selected: rel }
                    && charts@.len() == p.end - p.start
                    && (forall|i: int| 0 <= i < charts@.len() ==> chart_data_from(
                        series,
                        service_timestamps(app, s),
                        shown[p.start + i],
                        true,
                        Some(#[trigger] charts@[i]),
                    ))
                    && layout == (GridLayout { rows: ceil_div(charts@.len(), 2) as usize, cols: 2 })
                    && rel == p.relative_selected
            }
        },
    }
}

/// A metric type listed among those with readings has a series of that type.
pub(crate) proof fn lemma_listed_type_has_series(series: Seq<MetricSeries>, t: MetricType)
    requires
        types_with_data(series).contains(t),
    ensures
        has_type(series, t),
    decreases series.len(),
{
    let rest = types_with_data(series.drop_last());
    if series.last().history@.len() > 0 && t == series.last().metric_type {
        assert(series[series.len() - 1].metric_type == t);
    } else {
        assert(rest.contains(t)) by {
            if series.last().history@.len() > 0 {
                let k = choose|k: int| 0 <= k < types_with_data(series).len() && types_with_data(series)[k] == t;
                assert(k < rest.len());
                assert(rest[k] == t);
            }
        }
        lemma_listed_type_has_series(series.drop_last(), t);
        let j = choose|j: int| 0 <= j < series.drop_last().len() && (#[trigger] series.drop_last()[j]).metric_type == t;
        assert(series[j] == series.drop_last()[j]);
    }
}

/// No more types have readings than there are series.
pub(crate) proof fn lemma_types_with_data_len(series: Seq<MetricSeries>)
    ensures
        types_with_data(series).len() <= series.len(),
    decreases series.len(),
{
    if series.len() > 0 {
        lemma_types_with_data_len(series.drop_last());
    }
}

/// No more types are charted than are listed.
pub(crate) proof fn lemma_charted_types_len(service: AwsService, types: Seq<MetricType>)
    ensures
        charted_types(service, types).len() <= types.len(),
    decreases types.len(),
{
    if types.len() > 0 {
        lemma_charted_types_len(service, types.drop_last());
    }
}

impl AwsMetricsGrid {
    /// What the grid shows for the selected service and the grid's selection.
    pub fn grid_view(app: &App) -> (res: GridView)
        requires
            app.metrics.series@.len() + METRICS_PER_SCREEN <= usize::MAX,
            app.sqs_metrics.series@.len() + METRICS_PER_SCREEN <= usize::MAX,
        ensures
            is_grid_view(*app, (match app.sparkline_grid_selected {
                Some(s) => s,
                None => 0,
            }) as nat, res),
    {
        let service = match app.selected_service {
            Some(s) => s,
            None => {
                return GridView::NoService;
            },
        };
        let ghost series = service_series(*app, service);
        let available = match service {
            AwsService::Rds => app.metrics.get_available_metrics_with_data(),
            AwsService::Sqs => app.sqs_metrics.get_available_metrics(),
        };
        if available.len() == 0 {
            return GridView::NoMetrics;
        }
        let mut all: Vec<MetricChartData> = Vec::new();
        let mut i: usize = 0;
        while i < available.len()
            invariant
                app.selected_service == Some(service),
                series == service_series(*app, service),
                available@ == types_with_data(series),
                0 <= i <= available@.len(),
                all@.len() == charted_types(service, available@.take(i as int)).len(),
                forall|j: int| 0 <= j < all@.len() ==> chart_data_from(
                    series,
                    service_timestamps(*app, service),
                    charted_types(service, available@.take(i as int))[j],
                    true,
                    Some(#[trigger] all@[j]),
                ),
            decreases available@.len() - i,
        {
            let t = available[i];
            proof {
                assert(available@.take(i + 1).drop_last() =~= available@.take(i as int));
                assert(available@.take(i + 1).last() == t);
                assert(types_with_data(series).contains(t)) by {
                    assert(available@[i as int] == t);
                }
                lemma_listed_type_has_series(series, t);
            }
            match MetricChartData::from_app(app, t) {
                Some(c) => {
                    all.push(c);
                },
                None => {},
            }
            i = i + 1;
        }
        proof {
            assert(available@.take(available@.len() as int) =~= available@);
            lemma_types_with_data_len(series);
            lemma_charted_types_len(service, available@);
        }
        if all.len() == 0 {
            return GridView::Loading;
        }
        let selected = match app.sparkline_grid_selected {
            Some(s) => s,
            None => 0,
        };
        let page = grid_page(all.len(), selected, METRICS_PER_SCREEN);
        proof {
            crate::components::metric_list_utils::lemma_grid_page_shows_selection(
                all@.len(),
                selected as nat,
                METRICS_PER_SCREEN as nat,
            );
        }
        let ghost whole = all@;
        let mut visible = all.split_off(page.start);
        visible.truncate(page.end - page.start);
        assert(visible@ =~= whole.subrange(page.start as int, page.end as int));
        let layout = calculate_scrollable_grid_layout(visible.len(), METRICS_PER_ROW);
        GridView::Charts { charts: visible, layout, selected: page.relative_selected }
    }
}

/// The constraints of the grid's rows: each at least `MIN_ROW_HEIGHT` cells when
/// the area has room for that many; otherwise each an equal percentage of the area
/// (the row count taken as a 16-bit number, as the drawing code does).
pub open spec fn row_constraints(rows: nat, available_height: u16) -> Seq<Constraint> {
    if rows * (MIN_ROW_HEIGHT as nat) <= available_height {
        Seq::new(rows, |i: int| Constraint::Min(MIN_ROW_HEIGHT))
    } else {
        Seq::new(rows, |i: int| equal_share(rows))
    }
}

/// The constraints of the grid's rows.
pub fn grid_row_constraints(rows: usize, available_height: u16) -> (res: Vec<Constraint>)
    requires
        rows * (MIN_ROW_HEIGHT as nat) > available_height ==> (#[verifier::truncate] (rows as u16)) != 0,
    ensures
        res@ == row_constraints(rows as nat, available_height),
{
    let fits = rows <= (available_height / MIN_ROW_HEIGHT) as usize;
    proof {
        let h = available_height as int;
        let q = h / 12;
        assert(q * 12 <= h && h < q * 12 + 12) by (nonlinear_arith)
            requires q == h / 12, h >= 0;
        assert(fits <==> rows * 12 <= h) by (nonlinear_arith)
            requires q * 12 <= h, h < q * 12 + 12, fits == (rows <= q), rows >= 0;
    }
    let c = if fits {
        Constraint::Min(MIN_ROW_HEIGHT)
    } else {
        let r = #[verifier::truncate] (rows as u16);
        Constraint::Percentage(100 / r)
    };
    let mut res: Vec<Constraint> = Vec::new();
    let mut i: usize = 0;
    while i < rows
        invariant
            0 <= i <= rows,
            res@.len() == i,
            forall|j: int| 0 <= j < i ==> #[trigger] res@[j] == c,
        decreases rows - i,
    {
        res.push(c);
        i = i + 1;
    }
    assert(res@ =~= row_constraints(rows as nat, available_height));
    res
}

/// An equal percentage of an area divided in `count` parts (the count taken as a
/// 16-bit number, as the drawing code does).
pub open spec fn equal_share(count: nat) -> Constraint {
    Constraint::Percentage(100u16 / (#[verifier::truncate] (count as u16)))
}

/// The constraints of a row's columns: an equal percentage of the row each (the
/// column count taken as a 16-bit number, as the drawing code does).
pub open spec fn column_constraints(count: nat) -> Seq<Constraint> {
    Seq::new(count, |i: int| equal_share(count))
}

/// The constraints of a row's columns.
pub fn grid_column_constraints(cols: usize) -> (res: Vec<Constraint>)
    requires
        cols > 0 ==> (#[verifier::truncate] (cols as u16)) != 0,
    ensures
        res@ == column_constraints(cols as nat),
{
    let c = if cols == 0 {
        Constraint::Percentage(0)
    } else {
        let r = #[verifier::truncate] (cols as u16);
        Constraint::Percentage(100 / r)
    };
    let mut res: Vec<Constraint> = Vec::new();
    let mut i: usize = 0;
    while i < cols
        invariant
            0 <= i <= cols,
            cols > 0 ==> c == equal_share(cols as nat),
            res@.len() == i,
            forall|j: int| 0 <= j < i ==> #[trigger] res@[j] == c,
        decreases cols - i,
    {
        res.push(c);
        i = i + 1;
    }
    assert(res@ =~= column_constraints(cols as nat));
    res
}

/// The constraints of a chart cell: a title of three rows over a body of at
/// least eight.
pub open spec fn cell_constraints() -> Seq<Constraint> {
    seq![Constraint::Length(3), Constraint::Min(8)]
}

/// The parts of a chart cell: the title area, the body area, and whether the body
/// draws the time series (it is at least eight rows high and there is a
/// history) rather than the short description.
pub fn chart_cell_areas(area: Rect, history_len: usize) -> (res: (Rect, Rect, bool))
    ensures
        res.0 == spec_split(Direction::Vertical, cell_constraints(), area)[0],
        res.1 == spec_split(Direction::Vertical, cell_constraints(), area)[1],
        res.2 == (res.1.height >= 8 && history_len > 0),
{
    let constraints = vec![Constraint::Length(3), Constraint::Min(8)];
    assert(constraints@ =~= cell_constraints());
    let parts = layout_split(Direction::Vertical, &constraints, area);
    let title = parts[0];
    let body = parts[1];
    (title, body, body.height >= 8 && history_len > 0)
}

/// The border of a chart cell: yellow for the selected chart, white otherwise.
pub fn cell_border_color(is_focused: bool) -> (res: Color)
    ensures
        res == (if is_focused { Color::Yellow } else { Color::White }),
{
    if is_focused {
        Color::Yellow
    } else {
        Color::White
    }
}

/// The x position of a reading: the seconds from the first timestamp to its own
/// (none for a timestamp before the first).
pub open spec fn time_offset(first: u64, t: u64) -> u64 {
    if t >= first {
        (t - first) as u64
    } else {
        0
    }
}

/// The x positions of the plotted readings: one for each reading that has a
/// timestamp, counted from the first timestamp.
pub fn time_offsets(timestamps: &[u64], readings: usize) -> (res: Vec<u64>)
    ensures
        res@.len() == (if readings < timestamps@.len() { readings as nat } else { timestamps@.len() }),
        forall|i: int| 0 <= i < res@.len() ==> #[trigger] res@[i] == time_offset(timestamps@[0], timestamps@[i]),
{
    let n = if readings < timestamps.len() { readings } else { timestamps.len() };
    let mut res: Vec<u64> = Vec::new();
    let mut i: usize = 0;
    while i < n
        invariant
            n <= timestamps@.len(),
            0 <= i <= n,
            res@.len() == i,
            forall|j: int| 0 <= j < i ==> #[trigger] res@[j] == time_offset(timestamps@[0], timestamps@[j]),
        decreases n - i,
    {
        let first = timestamps[0];
        let t = timestamps[i];
        res.push(if t >= first { t - first } else { 0 });
        i = i + 1;
    }
    res
}

} // verus!
