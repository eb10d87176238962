//! Axis labels of the time-series charts.
use vstd::prelude::*;
use crate::text::string_views;
use crate::time::{clock_text, spec_clock_text, spec_utc_hh_mm, utc_time_label, MAX_CLOCK_SECS};
use super::sparkline::sample_index;

verus! {

broadcast use vstd::string::group_string_axioms;

/// `text` is the x-axis label of the timestamp `secs`: its UTC "HH:MM", or "00:00"
/// for a time the calendar cannot represent.
pub open spec fn is_utc_label(secs: u64, text: Seq<char>) -> bool {
    &&& (text == spec_utc_hh_mm((secs as i64) as int) || text == "00:00"@)
    &&& secs <= MAX_CLOCK_SECS ==> text == spec_utc_hh_mm(secs as int)
}

/// The positions of the timestamps that get an x-axis label: all of them when
/// there are at most five, else the first, the middle and the last.
pub open spec fn x_label_positions(len: nat) -> Seq<int> {
    if len <= 5 {
        Seq::new(len, |i: int| i)
    } else {
        seq![0, (len / 2) as int, len - 1]
    }
}

/// X-axis labels: "No data" without timestamps; otherwise the UTC "HH:MM" of the
/// labelled timestamps.
pub fn x_label_texts(timestamps: &[u64]) -> (res: Vec<String>)
    ensures
        timestamps@.len() == 0 ==> string_views(res@) == seq!["No data"@],
        timestamps@.len() > 0 ==> {
            let pos = x_label_positions(timestamps@.len());
            &&& res@.len() == pos.len()
            &&& forall|k: int| 0 <= k < pos.len() ==> is_utc_label(timestamps@[pos[k]], #[trigger] res@[k]@)
        },
{
    let mut res: Vec<String> = Vec::new();
    let len = timestamps.len();
    if len == 0 {
        res.push("No data".to_owned());
        assert(string_views(res@) =~= seq!["No data"@]);
        return res;
    }
    if len <= 5 {
        let mut i: usize = 0;
        while i < len
            invariant
                len == timestamps@.len(),
                len <= 5,
                0 <= i <= len,
                res@.len() == i,
                forall|k: int| 0 <= k < i ==> is_utc_label(timestamps@[k], #[trigger] res@[k]@),
            decreases len - i,
        {
            res.push(utc_time_label(timestamps[i]));
            i = i + 1;
        }
    } else {
        res.push(utc_time_label(timestamps[0]));
        res.push(utc_time_label(timestamps[len / 2]));
        res.push(utc_time_label(timestamps[len - 1]));
    }
    res
}

/// How many time labels a chart with `len` timestamps gets: up to four.
pub open spec fn time_label_count(len: nat) -> nat {
    if len < 4 {
        len
    } else {
        4
    }
}

/// The position of the timestamp under the `k`-th time label, of `len` timestamps:
/// evenly spaced, first and last included.
pub open spec fn time_label_position(k: nat, len: nat) -> int {
    sample_index(k, len, time_label_count(len)) as int
}

/// The position of the `i`-th time label's timestamp.
fn time_label_index(i: usize, len: usize) -> (idx: usize)
    requires
        i < time_label_count(len as nat),
        len * 3 <= usize::MAX,
    ensures
        idx == time_label_position(i as nat, len as nat),
        idx < len,
{
    let n: usize = if len < 4 { len } else { 4 };
    if n == 1 {
        0
    } else {
        proof {
            assert(i * (len - 1) <= (n - 1) * (len - 1)) by (nonlinear_arith)
                requires i < n, len >= 1;
            assert((n - 1) * (len - 1) <= 3 * (len - 1)) by (nonlinear_arith)
                requires n <= 4, len >= 1;
            assert((i * (len - 1)) / (n - 1) <= len - 1) by (nonlinear_arith)
                requires i * (len - 1) <= (n - 1) * (len - 1), n >= 2;
        }
        (i * (len - 1)) / (n - 1)
    }
}

/// The timestamps that get a time label: up to four, evenly spaced, first and last
/// included.
pub fn time_label_stamps(timestamps: &[u64]) -> (res: Vec<u64>)
    requires
        timestamps@.len() * 3 <= usize::MAX,
    ensures
        res@.len() == time_label_count(timestamps@.len()),
        forall|k: int| 0 <= k < res@.len() ==>
            #[trigger] res@[k] == timestamps@[time_label_position(k as nat, timestamps@.len())],
        res@.len() > 0 ==> res@[0] == timestamps@[0] && res@.last() == timestamps@.last(),
{
    let len = timestamps.len();
    let n: usize = if len < 4 { len } else { 4 };
    let mut res: Vec<u64> = Vec::new();
    let mut i: usize = 0;
    while i < n
        invariant
            len == timestamps@.len(),
            n == time_label_count(len as nat),
            len * 3 <= usize::MAX,
            0 <= i <= n,
            res@.len() == i,
            forall|k: int| 0 <= k < i ==>
                #[trigger] res@[k] == timestamps@[time_label_position(k as nat, len as nat)],
        decreases n - i,
    {
        let idx = time_label_index(i, len);
        res.push(timestamps[idx]);
        i = i + 1;
    }
    if n > 1 {
        assert(((n - 1) * (len - 1)) / (n - 1) == len - 1) by (nonlinear_arith)
            requires n > 1;
    }
    res
}

/// Time labels: "No data" without timestamps; otherwise up to four labels at
/// evenly spaced timestamps, first and last included, each the "HH:MM" of its
/// timestamp in the local time zone, whose offset east of UTC at each timestamp
/// is the matching entry of `utc_offsets` (in seconds).
pub fn time_label_texts(timestamps: &[u64], utc_offsets: &[i32]) -> (res: Vec<String>)
    requires
        utc_offsets@.len() == timestamps@.len(),
        forall|i: int| 0 <= i < utc_offsets@.len() ==> -86400 < #[trigger] utc_offsets@[i] < 86400,
        timestamps@.len() * 3 <= usize::MAX,
    ensures
        timestamps@.len() == 0 ==> string_views(res@) == seq!["No data"@],
        timestamps@.len() > 0 ==> {
            &&& res@.len() == time_label_count(timestamps@.len())
            &&& forall|k: int| 0 <= k < res@.len() ==> {
                let p = time_label_position(k as nat, timestamps@.len());
                #[trigger] res@[k]@ == spec_clock_text(timestamps@[p] + utc_offsets@[p], false)
            }
        },
{
    let mut res: Vec<String> = Vec::new();
    let len = timestamps.len();
    if len == 0 {
        res.push("No data".to_owned());
        assert(string_views(res@) =~= seq!["No data"@]);
        return res;
    }
    let n: usize = if len < 4 { len } else { 4 };
    let mut i: usize = 0;
    while i < n
        invariant
            len == timestamps@.len(),
            len == utc_offsets@.len(),
            forall|t: int| 0 <= t < utc_offsets@.len() ==> -86400 < #[trigger] utc_offsets@[t] < 86400,
            n == time_label_count(len as nat),
            len * 3 <= usize::MAX,
            0 <= i <= n,
            res@.len() == i,
            forall|k: int| 0 <= k < i ==> {
                let p = time_label_position(k as nat, len as nat);
                #[trigger] res@[k]@ == spec_clock_text(timestamps@[p] + utc_offsets@[p], false)
            },
        decreases n - i,
    {
        let idx = time_label_index(i, len);
        res.push(clock_text(timestamps[idx], utc_offsets[idx], false));
        i = i + 1;
    }
    res
}

} // verus!
