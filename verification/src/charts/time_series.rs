//! The points of a time-series chart, and the reasons a series cannot be
//! charted. Readings are `f64` bit patterns; timestamps whole seconds.
use vstd::prelude::*;
use crate::components::aws_chart::time_offset;
use super::validation::{sanitize_metric_data, sanitized};

verus! {

broadcast use vstd::string::group_string_axioms;

/// The points a series is plotted with: for each finite reading, in order, the
/// seconds from the first timestamp to its own, and the reading.
pub open spec fn plotted(history: Seq<u64>, timestamps: Seq<u64>) -> Seq<(u64, u64)> {
    let kept = sanitized(history, timestamps);
    Seq::new(kept.len(), |k: int| (time_offset(timestamps[0], kept[k].1), kept[k].0))
}

/// The points of a time-series chart, or why there are none: "No data points"
/// without readings or timestamps, "Data length mismatch" when their counts
/// differ, "No valid data points" when no reading is finite.
pub fn plot_points(history: &[u64], timestamps: &[u64]) -> (res: Result<Vec<(u64, u64)>, &'static str>)
    ensures
        history@.len() == 0 || timestamps@.len() == 0 ==> (res matches Err(m) && m@ == "No data points"@),
        history@.len() > 0 && timestamps@.len() > 0 && history@.len() != timestamps@.len()
            ==> (res matches Err(m) && m@ == "Data length mismatch"@),
        history@.len() > 0 && history@.len() == timestamps@.len() && sanitized(history@, timestamps@).len() == 0
            ==> (res matches Err(m) && m@ == "No valid data points"@),
        history@.len() > 0 && history@.len() == timestamps@.len() && sanitized(history@, timestamps@).len() > 0
            ==> (res matches Ok(points) && points@ == plotted(history@, timestamps@)),
{
    if history.len() == 0 || timestamps.len() == 0 {
        return Err("No data points");
    }
    if history.len() != timestamps.len() {
        return Err("Data length mismatch");
    }
    let (values, times) = sanitize_metric_data(history, timestamps);
    if values.len() == 0 {
        return Err("No valid data points");
    }
    let first = timestamps[0];
    let ghost kept = sanitized(history@, timestamps@);
    let mut points: Vec<(u64, u64)> = Vec::new();
    let mut k: usize = 0;
    while k < values.len()
        invariant
            first == timestamps@[0],
            kept == sanitized(history@, timestamps@),
            values@.len() == times@.len(),
            values@.len() == kept.len(),
            forall|j: int| 0 <= j < values@.len() ==> (#[trigger] values@[j], times@[j]) == kept[j],
            0 <= k <= values@.len(),
            points@.len() == k,
            forall|j: int| 0 <= j < k ==> #[trigger] points@[j] == (time_offset(first, kept[j].1), kept[j].0),
        decreases values@.len() - k,
    {
        let t = times[k];
        let offset = if t >= first { t - first } else { 0 };
        proof {
            assert((values@[k as int], times@[k as int]) == kept[k as int]);
        }
        points.push((offset, values[k]));
        k = k + 1;
    }
    assert(points@ =~= plotted(history@, timestamps@));
    Ok(points)
}

/// The text of a chart that cannot be drawn: "Error: " and the reason.
pub fn error_chart_text(error_msg: &str) -> (res: String)
    ensures
        res@ == "Error: "@ + error_msg@,
{
    let mut res = "Error: ".to_owned();
    res.append(error_msg);
    res
}

} // verus!
