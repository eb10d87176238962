//! What the charts read from the application state: timestamps, metric counts and
//! the service name.
use vstd::prelude::*;
use crate::models::{types_with_data, App, AwsService, DynamicMetricData};
use crate::text::{compare_text, lemma_lex_transitive, lex_lt, TextOrder};
use super::validation::{spec_is_finite, validate_metric_data};

verus! {

broadcast use vstd::string::group_string_axioms;

/// The selected service, RDS when none is selected.
pub open spec fn service_or_rds(app: App) -> AwsService {
    match app.selected_service {
        Some(s) => s,
        None => AwsService::Rds,
    }
}

/// `i` is the first position of a metric with at least one timestamp.
pub open spec fn first_with_timestamps(ms: Seq<DynamicMetricData>, i: int) -> bool {
    &&& 0 <= i < ms.len()
    &&& ms[i].timestamps@.len() > 0
    &&& forall|j: int| 0 <= j < i ==> (#[trigger] ms[j]).timestamps@.len() == 0
}

/// Some metric holds a reading.
pub open spec fn any_history(ms: Seq<DynamicMetricData>) -> bool {
    exists|j: int| 0 <= j < ms.len() && (#[trigger] ms[j]).history@.len() > 0
}

/// Some metric holds a timestamp.
pub open spec fn any_timestamps(ms: Seq<DynamicMetricData>) -> bool {
    exists|j: int| 0 <= j < ms.len() && (#[trigger] ms[j]).timestamps@.len() > 0
}

/// The predefined series of the selected service.
pub open spec fn legacy_types_with_data(app: App) -> Seq<crate::models::MetricType> {
    match service_or_rds(app) {
        AwsService::Rds => types_with_data(app.metrics.series@),
        AwsService::Sqs => types_with_data(app.sqs_metrics.series@),
    }
}

/// The timestamps of the predefined metrics of the selected service.
pub open spec fn legacy_timestamps(app: App) -> Seq<u64> {
    match service_or_rds(app) {
        AwsService::Rds => app.metrics.timestamps@,
        AwsService::Sqs => app.sqs_metrics.timestamps@,
    }
}

/// What `get_timestamps_for_app` may return for `app`: with discovered metrics,
/// the timestamps of the first one that has any; otherwise those of the selected
/// service's predefined metrics when there are any.
pub open spec fn timestamps_result(app: App, res: Option<Seq<u64>>) -> bool {
    match app.dynamic_metrics {
        Some(dm) => match res {
            Some(ts) => exists|i: int| first_with_timestamps(dm.metrics@, i) && ts == dm.metrics@[i].timestamps@,
            None => !any_timestamps(dm.metrics@),
        },
        None => match res {
            Some(ts) => ts == legacy_timestamps(app) && ts.len() > 0,
            None => legacy_timestamps(app).len() == 0,
        },
    }
}

/// Whether there is anything to chart.
pub open spec fn spec_has_metrics_data(app: App) -> bool {
    match app.dynamic_metrics {
        Some(dm) => dm.metrics@.len() > 0 && any_history(dm.metrics@),
        None => legacy_types_with_data(app).len() > 0,
    }
}

/// The number of metrics on offer.
pub open spec fn spec_metrics_count(app: App) -> nat {
    match app.dynamic_metrics {
        Some(dm) => dm.metrics@.len(),
        None => legacy_types_with_data(app).len(),
    }
}

/// The view of an optional slice.
pub open spec fn slice_view(s: Option<&[u64]>) -> Option<Seq<u64>> {
    match s {
        Some(x) => Some(x@),
        None => None,
    }
}

/// Position of the first discovered metric that has timestamps.
fn find_first_with_timestamps(ms: &Vec<DynamicMetricData>) -> (res: Option<usize>)
    ensures
        match res {
            Some(i) => first_with_timestamps(ms@, i as int),
            None => !any_timestamps(ms@),
        },
{
    let mut i: usize = 0;
    while i < ms.len()
        invariant
            0 <= i <= ms@.len(),
            forall|j: int| 0 <= j < i ==> (#[trigger] ms@[j]).timestamps@.len() == 0,
        decreases ms@.len() - i,
    {
        if ms[i].timestamps.len() > 0 {
            return Some(i);
        }
        i = i + 1;
    }
    None
}

/// The timestamps the charts are drawn against: with discovered metrics, those of
/// the first metric that has any; otherwise those of the selected service's
/// predefined metrics, if there are any.
pub fn get_timestamps_for_app(app: &App) -> (res: Option<&[u64]>)
    ensures
        timestamps_result(*app, slice_view(res)),
{
    match &app.dynamic_metrics {
        Some(dm) => match find_first_with_timestamps(&dm.metrics) {
            Some(i) => Some(dm.metrics[i].timestamps.as_slice()),
            None => None,
        },
        None => {
            let service = match app.selected_service {
                Some(s) => s,
                None => AwsService::Rds,
            };
            match service {
                AwsService::Rds => if app.metrics.timestamps.len() == 0 {
                    None
                } else {
                    Some(app.metrics.timestamps.as_slice())
                },
                AwsService::Sqs => if app.sqs_metrics.timestamps.len() == 0 {
                    None
                } else {
                    Some(app.sqs_metrics.timestamps.as_slice())
                },
            }
        },
    }
}

/// Whether some discovered metric holds a reading.
fn any_metric_has_history(ms: &Vec<DynamicMetricData>) -> (res: bool)
    ensures
        res == any_history(ms@),
{
    let mut i: usize = 0;
    while i < ms.len()
        invariant
            0 <= i <= ms@.len(),
            forall|j: int| 0 <= j < i ==> (#[trigger] ms@[j]).history@.len() == 0,
        decreases ms@.len() - i,
    {
        if ms[i].history.len() > 0 {
            return true;
        }
        i = i + 1;
    }
    false
}

/// Whether there is anything to chart: a discovered metric with readings, or
/// (without discovered metrics) a predefined series of the selected service with
/// readings.
pub fn has_metrics_data(app: &App) -> (res: bool)
    ensures
        res == spec_has_metrics_data(*app),
{
    match &app.dynamic_metrics {
        Some(dm) => !dm.is_empty() && any_metric_has_history(&dm.metrics),
        None => {
            let service = match app.selected_service {
                Some(s) => s,
                None => AwsService::Rds,
            };
            match service {
                AwsService::Rds => app.metrics.get_available_metrics_with_data().len() > 0,
                AwsService::Sqs => app.sqs_metrics.get_available_metrics().len() > 0,
            }
        },
    }
}

/// The number of metrics on offer: every discovered metric, or (without discovered
/// metrics) the predefined series of the selected service that hold readings.
pub fn get_metrics_count(app: &App) -> (res: usize)
    ensures
        res == spec_metrics_count(*app),
{
    match &app.dynamic_metrics {
        Some(dm) => dm.metrics.len(),
        None => {
            let service = match app.selected_service {
                Some(s) => s,
                None => AwsService::Rds,
            };
            match service {
                AwsService::Rds => app.metrics.get_available_metrics_with_data().len(),
                AwsService::Sqs => app.sqs_metrics.get_available_metrics().len(),
            }
        },
    }
}

/// The short name of the selected service ("RDS" when none is selected).
pub fn get_service_name(app: &App) -> (res: &'static str)
    ensures
        res@ == service_or_rds(*app).spec_short_name(),
{
    match app.selected_service {
        Some(s) => s.short_name(),
        None => AwsService::Rds.short_name(),
    }
}

/// The header line of a chart: the metric's name and its formatted value.
pub fn title_text(display_name: &str, formatted_value: &str) -> (res: String)
    ensures
        res@ == display_name@ + ": "@ + formatted_value@,
{
    let mut res = display_name.to_owned();
    res.append(": ");
    res.append(formatted_value);
    res
}

/// Whenever there is something to chart, the count of metrics on offer is not zero.
pub proof fn lemma_data_implies_metrics(app: App)
    requires
        spec_has_metrics_data(app),
    ensures
        spec_metrics_count(app) > 0,
{
}

/// A discovered metric passes validation: it has readings, as many timestamps as
/// readings, and every reading is finite.
pub open spec fn metric_valid(m: DynamicMetricData) -> bool {
    &&& m.history@.len() > 0
    &&& m.history@.len() == m.timestamps@.len()
    &&& forall|j: int| 0 <= j < m.history@.len() ==> spec_is_finite(#[trigger] m.history@[j])
}

/// The metric at position `i` is listed before the one at `j`: its display name
/// comes first, or the names are equal and it came first.
pub open spec fn listed_before(ms: Seq<DynamicMetricData>, i: int, j: int) -> bool {
    ||| lex_lt(ms[i].display_name@, ms[j].display_name@)
    ||| (ms[i].display_name@ == ms[j].display_name@ && i < j)
}

/// `res` holds the position `p`.
pub open spec fn lists(res: Seq<usize>, p: int) -> bool {
    exists|a: int| 0 <= a < res.len() && res[a] == p
}

/// `res` lists the positions of `ms` that `chosen` holds, each once, ordered by
/// display name, equal names in their original order.
pub open spec fn sorted_positions(ms: Seq<DynamicMetricData>, res: Seq<usize>, chosen: Set<int>) -> bool {
    &&& forall|a: int| 0 <= a < res.len() ==> #[trigger] chosen.contains(res[a] as int) && res[a] < ms.len()
    &&& forall|p: int| 0 <= p < ms.len() && chosen.contains(p) ==> #[trigger] lists(res, p)
    &&& forall|a: int, b: int| 0 <= a < b < res.len() ==> listed_before(ms, #[trigger] res[a] as int, #[trigger] res[b] as int)
}

/// The positions of the valid metrics.
pub open spec fn valid_positions(ms: Seq<DynamicMetricData>) -> Set<int> {
    Set::new(|p: int| 0 <= p < ms.len() && metric_valid(ms[p]))
}

/// All positions of `ms`.
pub open spec fn all_positions(ms: Seq<DynamicMetricData>) -> Set<int> {
    Set::new(|p: int| 0 <= p < ms.len())
}

/// The order of listing is transitive.
proof fn lemma_listed_before_transitive(ms: Seq<DynamicMetricData>, i: int, j: int, k: int)
    requires
        listed_before(ms, i, j),
        listed_before(ms, j, k),
    ensures
        listed_before(ms, i, k),
{
    let (a, b, c) = (ms[i].display_name@, ms[j].display_name@, ms[k].display_name@);
    if lex_lt(a, b) && lex_lt(b, c) {
        lemma_lex_transitive(a, b, c);
    }
}

/// Inserts position `i` into `res`, a sorted listing of positions before `i`,
/// after every position whose name does not come after the name at `i`.
fn insert_by_name(ms: &Vec<DynamicMetricData>, res: &mut Vec<usize>, i: usize)
    requires
        i < ms@.len(),
        forall|a: int| 0 <= a < old(res)@.len() ==> #[trigger] old(res)@[a] < i,
        forall|a: int, b: int| 0 <= a < b < old(res)@.len() ==> listed_before(ms@, #[trigger] old(res)@[a] as int, #[trigger] old(res)@[b] as int),
    ensures
        exists|p: int| 0 <= p <= old(res)@.len() && final(res)@ == old(res)@.insert(p, i),
        forall|a: int, b: int| 0 <= a < b < final(res)@.len() ==> listed_before(ms@, #[trigger] final(res)@[a] as int, #[trigger] final(res)@[b] as int),
{
    let name = ms[i].display_name.as_str();
    let mut p: usize = 0;
    while p < res.len()
        invariant
            i < ms@.len(),
            name@ == ms@[i as int].display_name@,
            *res == *old(res),
            0 <= p <= res@.len(),
            forall|a: int| 0 <= a < p ==> listed_before(ms@, #[trigger] res@[a] as int, i as int),
            forall|a: int| 0 <= a < res@.len() ==> #[trigger] res@[a] < i,
        ensures
            0 <= p <= res@.len(),
            *res == *old(res),
            forall|a: int| 0 <= a < p ==> listed_before(ms@, #[trigger] res@[a] as int, i as int),
            p < res@.len() ==> lex_lt(name@, ms@[res@[p as int] as int].display_name@),
        decreases res@.len() - p,
    {
        let r = res[p];
        let ord = compare_text(ms[r].display_name.as_str(), name);
        if ord == TextOrder::Greater {
            break;
        }
        proof {
            assert(listed_before(ms@, r as int, i as int));
        }
        p = p + 1;
    }
    let ghost old_res = res@;
    proof {
        if p < old_res.len() {
            let r = old_res[p as int];
            assert(lex_lt(name@, ms@[r as int].display_name@));
            assert forall|b: int| p <= b < old_res.len() implies listed_before(ms@, i as int, #[trigger] old_res[b] as int) by {
                if b > p {
                    let nb = ms@[old_res[b] as int].display_name@;
                    let np = ms@[r as int].display_name@;
                    assert(listed_before(ms@, old_res[p as int] as int, old_res[b] as int));
                    if lex_lt(np, nb) {
                        lemma_lex_transitive(name@, np, nb);
                    }
                }
            }
        }
    }
    res.insert(p, i);
    proof {
        assert(res@ == old_res.insert(p as int, i));
        assert forall|a: int, b: int| 0 <= a < b < res@.len() implies listed_before(ms@, #[trigger] res@[a] as int, #[trigger] res@[b] as int) by {
            if b < p {
                assert(res@[a] == old_res[a] && res@[b] == old_res[b]);
            } else if b == p {
                assert(res@[a] == old_res[a]);
            } else if a == p {
                assert(res@[b] == old_res[b - 1]);
            } else if a < p {
                assert(res@[a] == old_res[a] && res@[b] == old_res[b - 1]);
                assert(listed_before(ms@, old_res[a] as int, i as int));
                assert(listed_before(ms@, i as int, old_res[b - 1] as int));
                lemma_listed_before_transitive(ms@, old_res[a] as int, i as int, old_res[b - 1] as int);
            } else {
                assert(res@[a] == old_res[a - 1] && res@[b] == old_res[b - 1]);
            }
        }
    }
}

/// Whether a discovered metric passes validation.
fn is_valid_metric(m: &DynamicMetricData) -> (res: bool)
    ensures
        res == metric_valid(*m),
{
    let r = validate_metric_data(m.history.as_slice(), m.timestamps.as_slice());
    match r {
        Ok(_) => true,
        Err(_) => {
            proof {
                if metric_valid(*m) {
                    let e = r->Err_0;
                    assert(exists|i: int| crate::charts::validation::first_non_finite(m.history@, i) && e@ == crate::charts::validation::invalid_value_message(i as nat, m.history@[i]));
                    let i = choose|i: int| crate::charts::validation::first_non_finite(m.history@, i);
                    assert(spec_is_finite(m.history@[i]));
                }
            }
            false
        },
    }
}

/// The positions of the discovered metrics that pass validation, ordered by
/// display name (equal names in their original order).
pub fn select_dynamic_metrics(metrics: &Vec<DynamicMetricData>) -> (res: Vec<usize>)
    ensures
        sorted_positions(metrics@, res@, valid_positions(metrics@)),
{
    let mut res: Vec<usize> = Vec::new();
    let mut i: usize = 0;
    while i < metrics.len()
        invariant
            0 <= i <= metrics@.len(),
            forall|a: int| 0 <= a < res@.len() ==> #[trigger] res@[a] < i && valid_positions(metrics@).contains(res@[a] as int),
            forall|p: int| 0 <= p < i && valid_positions(metrics@).contains(p) ==> #[trigger] lists(res@, p),
            forall|a: int, b: int| 0 <= a < b < res@.len() ==> listed_before(metrics@, #[trigger] res@[a] as int, #[trigger] res@[b] as int),
        decreases metrics@.len() - i,
    {
        if is_valid_metric(&metrics[i]) {
            let ghost before = res@;
            insert_by_name(metrics, &mut res, i);
            proof {
                let p = choose|p: int| 0 <= p <= before.len() && res@ == before.insert(p, i);
                assert forall|a: int| 0 <= a < res@.len() implies #[trigger] res@[a] < i + 1 && valid_positions(metrics@).contains(res@[a] as int) by {
                    if a < p {
                        assert(res@[a] == before[a]);
                    } else if a > p {
                        assert(res@[a] == before[a - 1]);
                    }
                }
                assert forall|q: int| 0 <= q < i + 1 && valid_positions(metrics@).contains(q) implies #[trigger] lists(res@, q) by {
                    if q == i {
                        assert(res@[p] == i);
                    } else {
                        assert(lists(before, q));
                        let a0 = choose|a: int| 0 <= a < before.len() && before[a] == q;
                        if a0 < p {
                            assert(res@[a0] == q);
                        } else {
                            assert(res@[a0 + 1] == q);
                        }
                    }
                }
            }
        }
        i = i + 1;
    }
    res
}

/// All positions of the discovered metrics, ordered by display name (equal names
/// in their original order).
pub fn sort_by_display_name(metrics: &Vec<DynamicMetricData>) -> (res: Vec<usize>)
    ensures
        sorted_positions(metrics@, res@, all_positions(metrics@)),
        res@.len() == metrics@.len(),
{
    let mut res: Vec<usize> = Vec::new();
    let mut i: usize = 0;
    while i < metrics.len()
        invariant
            0 <= i <= metrics@.len(),
            res@.len() == i,
            forall|a: int| 0 <= a < res@.len() ==> #[trigger] res@[a] < i && all_positions(metrics@).contains(res@[a] as int),
            forall|p: int| 0 <= p < i ==> #[trigger] lists(res@, p),
            forall|a: int, b: int| 0 <= a < b < res@.len() ==> listed_before(metrics@, #[trigger] res@[a] as int, #[trigger] res@[b] as int),
        decreases metrics@.len() - i,
    {
        let ghost before = res@;
        insert_by_name(metrics, &mut res, i);
        proof {
            let p = choose|p: int| 0 <= p <= before.len() && res@ == before.insert(p, i);
            assert forall|a: int| 0 <= a < res@.len() implies #[trigger] res@[a] < i + 1 && all_positions(metrics@).contains(res@[a] as int) by {
                if a < p {
                    assert(res@[a] == before[a]);
                } else if a > p {
                    assert(res@[a] == before[a - 1]);
                }
            }
            assert forall|q: int| 0 <= q < i + 1 implies #[trigger] lists(res@, q) by {
                if q == i {
                    assert(res@[p] == i);
                } else {
                    assert(lists(before, q));
                        let a0 = choose|a: int| 0 <= a < before.len() && before[a] == q;
                    if a0 < p {
                        assert(res@[a0] == q);
                    } else {
                        assert(res@[a0 + 1] == q);
                    }
                }
            }
        }
        i = i + 1;
    }
    res
}

} // verus!
