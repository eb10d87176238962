//! Checks on metric data before it is charted. Readings are `f64` bit patterns.
use vstd::prelude::*;
use crate::models::{App, AwsService, DynamicMetricData};
use super::data_collector::first_with_timestamps;
use crate::text::{decimal, spec_decimal};
use super::data_collector::{any_timestamps, legacy_timestamps, timestamps_result};

verus! {

broadcast use vstd::string::group_string_axioms;

/// Whether the `f64` with these bits is finite (its exponent field is not all ones).
pub open spec fn spec_is_finite(bits: u64) -> bool {
    (bits >> 52u64) & 0x7ffu64 != 0x7ffu64
}

/// How `f64`'s `Display` writes a value that is not finite.
pub open spec fn non_finite_text(bits: u64) -> Seq<char> {
    if bits & 0x000f_ffff_ffff_ffffu64 != 0 {
        "NaN"@
    } else if bits >> 63u64 == 1 {
        "-inf"@
    } else {
        "inf"@
    }
}

/// Whether the reading with these bits is finite.
pub fn is_finite(bits: u64) -> (res: bool)
    ensures
        res == spec_is_finite(bits),
{
    (bits >> 52u64) & 0x7ffu64 != 0x7ffu64
}

fn non_finite_display(bits: u64) -> (res: &'static str)
    ensures
        res@ == non_finite_text(bits),
{
    if bits & 0x000f_ffff_ffff_ffffu64 != 0 {
        "NaN"
    } else if bits >> 63u64 == 1 {
        "-inf"
    } else {
        "inf"
    }
}

/// The first position of a reading that is not finite, if any.
pub open spec fn first_non_finite(history: Seq<u64>, i: int) -> bool {
    &&& 0 <= i < history.len()
    &&& !spec_is_finite(history[i])
    &&& forall|j: int| 0 <= j < i ==> spec_is_finite(#[trigger] history[j])
}

/// The message of a length mismatch.
pub open spec fn mismatch_message(h: nat, t: nat) -> Seq<char> {
    "Data length mismatch: history has "@ + spec_decimal(h) + " points, timestamps has "@ + spec_decimal(t)
        + " points"@
}

/// The message of a reading that is not finite.
pub open spec fn invalid_value_message(i: nat, bits: u64) -> Seq<char> {
    "Invalid value at index "@ + spec_decimal(i) + ": "@ + non_finite_text(bits)
}

/// Validates metric data for rendering: both series non-empty, of equal length,
/// and every reading finite.
pub fn validate_metric_data(history: &[u64], timestamps: &[u64]) -> (res: Result<(), String>)
    ensures
        history@.len() == 0 || timestamps@.len() == 0 ==> (res matches Err(e) && e@ == "Empty data arrays"@),
        history@.len() > 0 && timestamps@.len() > 0 && history@.len() != timestamps@.len() ==> (res matches Err(e)
            && e@ == mismatch_message(history@.len(), timestamps@.len())),
        history@.len() > 0 && history@.len() == timestamps@.len() ==> match res {
            Ok(_) => forall|j: int| 0 <= j < history@.len() ==> spec_is_finite(#[trigger] history@[j]),
            Err(e) => exists|i: int| first_non_finite(history@, i) && e@ == invalid_value_message(i as nat, history@[i]),
        },
{
    if history.len() == 0 || timestamps.len() == 0 {
        return Err("Empty data arrays".to_owned());
    }
    if history.len() != timestamps.len() {
        let mut msg = "Data length mismatch: history has ".to_owned();
        let h = decimal(history.len() as u64);
        msg.append(h.as_str());
        msg.append(" points, timestamps has ");
        let t = decimal(timestamps.len() as u64);
        msg.append(t.as_str());
        msg.append(" points");
        return Err(msg);
    }
    let mut i: usize = 0;
    while i < history.len()
        invariant
            0 <= i <= history@.len(),
            history@.len() > 0,
            history@.len() == timestamps@.len(),
            forall|j: int| 0 <= j < i ==> spec_is_finite(#[trigger] history@[j]),
        decreases history@.len() - i,
    {
        if !is_finite(history[i]) {
            let mut msg = "Invalid value at index ".to_owned();
            let n = decimal(i as u64);
            msg.append(n.as_str());
            msg.append(": ");
            msg.append(non_finite_display(history[i]));
            assert(first_non_finite(history@, i as int));
            return Err(msg);
        }
        i = i + 1;
    }
    Ok(())
}

/// The readings and timestamps kept by sanitizing: the pairs, up to the shorter
/// series, whose reading is finite, in order.
pub open spec fn sanitized(history: Seq<u64>, timestamps: Seq<u64>) -> Seq<(u64, u64)>
    decreases history.len() + timestamps.len(),
{
    if history.len() == 0 || timestamps.len() == 0 {
        Seq::empty()
    } else if history.len() > timestamps.len() {
        sanitized(history.take(timestamps.len() as int), timestamps)
    } else if timestamps.len() > history.len() {
        sanitized(history, timestamps.take(history.len() as int))
    } else {
        let rest = sanitized(history.drop_last(), timestamps.drop_last());
        if spec_is_finite(history.last()) {
            rest.push((history.last(), timestamps.last()))
        } else {
            rest
        }
    }
}

/// Removes the readings that are not finite, with their timestamps.
pub fn sanitize_metric_data(history: &[u64], timestamps: &[u64]) -> (res: (Vec<u64>, Vec<u64>))
    ensures
        res.0@.len() == res.1@.len(),
        res.0@.len() == sanitized(history@, timestamps@).len(),
        forall|k: int| 0 <= k < res.0@.len() ==> (#[trigger] res.0@[k], res.1@[k]) == sanitized(history@, timestamps@)[k],
{
    let n = if history.len() < timestamps.len() { history.len() } else { timestamps.len() };
    let ghost h = history@.take(n as int);
    let ghost t = timestamps@.take(n as int);
    proof {
        if history@.len() > timestamps@.len() {
            assert(sanitized(history@, timestamps@) == sanitized(h, timestamps@));
            assert(timestamps@ =~= t);
        } else if timestamps@.len() > history@.len() {
            assert(sanitized(history@, timestamps@) == sanitized(history@, t));
            assert(history@ =~= h);
        } else {
            assert(history@ =~= h);
            assert(timestamps@ =~= t);
        }
    }
    let mut clean_history: Vec<u64> = Vec::new();
    let mut clean_timestamps: Vec<u64> = Vec::new();
    let mut i: usize = 0;
    while i < n
        invariant
            n <= history@.len(),
            n <= timestamps@.len(),
            0 <= i <= n,
            h == history@.take(n as int),
            t == timestamps@.take(n as int),
            clean_history@.len() == clean_timestamps@.len(),
            clean_history@.len() == sanitized(h.take(i as int), t.take(i as int)).len(),
            forall|k: int| 0 <= k < clean_history@.len() ==> (#[trigger] clean_history@[k], clean_timestamps@[k])
                == sanitized(h.take(i as int), t.take(i as int))[k],
        decreases n - i,
    {
        proof {
            assert(h.take(i + 1).drop_last() =~= h.take(i as int));
            assert(t.take(i + 1).drop_last() =~= t.take(i as int));
            assert(h.take(i + 1).last() == history@[i as int]);
            assert(t.take(i + 1).last() == timestamps@[i as int]);
        }
        if is_finite(history[i]) {
            clean_history.push(history[i]);
            clean_timestamps.push(timestamps[i]);
        }
        i = i + 1;
    }
    proof {
        assert(h.take(n as int) =~= h);
        assert(t.take(n as int) =~= t);
    }
    (clean_history, clean_timestamps)
}

/// Whether the charts have timestamps to be drawn against.
pub open spec fn spec_timestamps_available(app: App) -> bool {
    match app.dynamic_metrics {
        Some(dm) => dm.metrics@.len() > 0 && any_timestamps(dm.metrics@),
        None => legacy_timestamps(app).len() > 0,
    }
}

/// Whether some discovered metric holds a timestamp.
fn any_metric_has_timestamps(ms: &Vec<DynamicMetricData>) -> (res: bool)
    ensures
        res == any_timestamps(ms@),
{
    let mut i: usize = 0;
    while i < ms.len()
        invariant
            0 <= i <= ms@.len(),
            forall|j: int| 0 <= j < i ==> (#[trigger] ms@[j]).timestamps@.len() == 0,
        decreases ms@.len() - i,
    {
        if ms[i].timestamps.len() > 0 {
            return true;
        }
        i = i + 1;
    }
    false
}

/// Whether the charts have timestamps to be drawn against: with discovered
/// metrics, some metric has timestamps; otherwise the selected service's
/// predefined metrics have timestamps.
pub fn validate_timestamps_available(app: &App) -> (res: bool)
    ensures
        res == spec_timestamps_available(*app),
{
    match &app.dynamic_metrics {
        Some(dm) => !dm.is_empty() && any_metric_has_timestamps(&dm.metrics),
        None => {
            let service = match app.selected_service {
                Some(s) => s,
                None => AwsService::Rds,
            };
            match service {
                AwsService::Rds => app.metrics.timestamps.len() > 0,
                AwsService::Sqs => app.sqs_metrics.timestamps.len() > 0,
            }
        },
    }
}

/// Timestamps are reported available exactly when there are timestamps to draw
/// the charts against.
pub proof fn lemma_available_iff_timestamps(app: App, res: Option<Seq<u64>>)
    requires
        timestamps_result(app, res),
    ensures
        spec_timestamps_available(app) <==> res is Some,
{
    if let Some(dm) = app.dynamic_metrics {
        if res is Some {
            let i = choose|i: int| first_with_timestamps(dm.metrics@, i) && res->0 == dm.metrics@[i].timestamps@;
            assert(dm.metrics@[i].timestamps@.len() > 0);
        }
    }
}

/// The pairs of two series of equal length, position by position.
pub open spec fn zipped(history: Seq<u64>, timestamps: Seq<u64>) -> Seq<(u64, u64)> {
    Seq::new(history.len(), |i: int| (history[i], timestamps[i]))
}

/// Data that passes validation comes out of sanitizing unchanged.
pub proof fn lemma_valid_data_is_clean(history: Seq<u64>, timestamps: Seq<u64>)
    requires
        history.len() == timestamps.len(),
        forall|j: int| 0 <= j < history.len() ==> spec_is_finite(#[trigger] history[j]),
    ensures
        sanitized(history, timestamps) == zipped(history, timestamps),
    decreases history.len(),
{
    if history.len() > 0 {
        let h = history.drop_last();
        let t = timestamps.drop_last();
        assert forall|j: int| 0 <= j < h.len() implies spec_is_finite(#[trigger] h[j]) by {
            assert(h[j] == history[j]);
        }
        lemma_valid_data_is_clean(h, t);
        assert(zipped(history, timestamps) =~= zipped(h, t).push((history.last(), timestamps.last())));
    } else {
        assert(zipped(history, timestamps) =~= Seq::<(u64, u64)>::empty());
    }
}

} // verus!
