//! Down-sampling of a reading history to the width a sparkline can show.
use vstd::prelude::*;

verus! {

/// The position of the `i`-th of `target` samples taken evenly from `len`
/// readings, first and last included.
pub open spec fn sample_index(i: nat, len: nat, target: nat) -> nat {
    if target <= 1 {
        0
    } else {
        (i * (len - 1) as nat) / (target - 1) as nat
    }
}

/// `res` holds `target` readings of `history` taken at the sample positions, or
/// `history` itself when it is no longer than `target`.
pub open spec fn sampled<T>(history: Seq<T>, target: nat, res: Seq<T>) -> bool {
    if history.len() <= target {
        res == history
    } else {
        &&& res.len() == target
        &&& forall|i: int| 0 <= i < target ==> #[trigger] res[i] == history[sample_index(i as nat, history.len(), target) as int]
    }
}

proof fn lemma_sample_index_in_bounds(i: nat, len: nat, target: nat)
    requires
        i < target,
        len > target,
    ensures
        sample_index(i, len, target) < len,
{
    if target > 1 {
        let a = (len - 1) as nat;
        let b = (target - 1) as nat;
        assert(i * a <= b * a) by (nonlinear_arith)
            requires i <= b;
        assert((i * a) / b <= a) by (nonlinear_arith)
            requires i * a <= b * a, b > 0;
    }
}

/// A vector holding the readings of the slice.
fn copy_readings(history: &[u64]) -> (res: Vec<u64>)
    ensures
        res@ == history@,
{
    let mut res: Vec<u64> = Vec::new();
    let mut i: usize = 0;
    while i < history.len()
        invariant
            0 <= i <= history@.len(),
            res@ == history@.take(i as int),
        decreases history@.len() - i,
    {
        res.push(history[i]);
        proof {
            assert(res@ =~= history@.take(i + 1));
        }
        i = i + 1;
    }
    proof {
        assert(history@.take(history@.len() as int) =~= history@);
    }
    res
}

/// Samples `history` down to `target_points` readings, evenly spaced, keeping the
/// first and the last; a history that already fits is returned whole.
pub fn sample_data(history: &[u64], target_points: usize) -> (res: Vec<u64>)
    requires
        history@.len() > target_points ==> target_points != 1,
        history@.len() > target_points ==> (target_points - 1) * (history@.len() - 1) <= usize::MAX,
    ensures
        sampled(history@, target_points as nat, res@),
{
    if history.len() <= target_points {
        return copy_readings(history);
    }
    let len = history.len();
    let mut res: Vec<u64> = Vec::new();
    let mut i: usize = 0;
    while i < target_points
        invariant
            len == history@.len(),
            len > target_points,
            target_points != 1,
            (target_points - 1) * (len - 1) <= usize::MAX,
            0 <= i <= target_points,
            res@.len() == i,
            forall|k: int| 0 <= k < i ==> #[trigger] res@[k] == history@[sample_index(k as nat, len as nat, target_points as nat) as int],
        decreases target_points - i,
    {
        proof {
            assert(i * (len - 1) <= (target_points - 1) * (len - 1)) by (nonlinear_arith)
                requires i < target_points, len >= 1;
            lemma_sample_index_in_bounds(i as nat, len as nat, target_points as nat);
        }
        let idx = (i * (len - 1)) / (target_points - 1);
        res.push(history[idx]);
        i = i + 1;
    }
    res
}

/// Samples `history` down to `target_width` readings for an inline sparkline:
/// evenly spaced, first and last kept; a single sample is the first reading.
pub fn sample_sparkline_data(history: &[u64], target_width: usize) -> (res: Vec<u64>)
    requires
        history@.len() > target_width ==> (target_width - 1) * (history@.len() - 1) <= usize::MAX,
    ensures
        sampled(history@, target_width as nat, res@),
{
    if history.len() <= target_width {
        return copy_readings(history);
    }
    let len = history.len();
    let mut res: Vec<u64> = Vec::new();
    let mut i: usize = 0;
    while i < target_width
        invariant
            len == history@.len(),
            len > target_width,
            target_width >= 1 ==> (target_width - 1) * (len - 1) <= usize::MAX,
            0 <= i <= target_width,
            res@.len() == i,
            forall|k: int| 0 <= k < i ==> #[trigger] res@[k] == history@[sample_index(k as nat, len as nat, target_width as nat) as int],
        decreases target_width - i,
    {
        proof {
            lemma_sample_index_in_bounds(i as nat, len as nat, target_width as nat);
        }
        let idx = if target_width == 1 {
            0
        } else {
            proof {
                assert(i * (len - 1) <= (target_width - 1) * (len - 1)) by (nonlinear_arith)
                    requires i < target_width, len >= 1;
            }
            (i * (len - 1)) / (target_width - 1)
        };
        res.push(history[idx]);
        i = i + 1;
    }
    res
}

/// Sampling a history that does not fit keeps its first and its last reading.
pub proof fn lemma_sampling_keeps_ends<T>(history: Seq<T>, target: nat, res: Seq<T>)
    requires
        sampled(history, target, res),
        history.len() > target,
        target >= 2,
    ensures
        res[0] == history[0],
        res[target - 1] == history[history.len() - 1],
{
    assert(res[0] == history[sample_index(0, history.len(), target) as int]);
    assert(res[target - 1] == history[sample_index((target - 1) as nat, history.len(), target) as int]);
    let a = (history.len() - 1) as nat;
    let b = (target - 1) as nat;
    assert(0 * a / b == 0) by (nonlinear_arith)
        requires b > 0;
    assert((b * a) / b == a) by (nonlinear_arith)
        requires b > 0;
}

} // verus!
