//! Colours of the dynamically discovered metrics.
use vstd::prelude::*;
use crate::style::Color;
use crate::text::{chars_of, contains_seq, contains_str, spec_to_lowercase, to_lowercase};

verus! {

broadcast use vstd::string::group_string_axioms;

/// The hash of a metric name: each character's code point folded in as
/// `acc * 31 + c`, wrapping at 32 bits.
pub open spec fn name_hash(s: Seq<char>) -> u32
    decreases s.len(),
{
    if s.len() == 0 {
        0
    } else {
        ((name_hash(s.drop_last()) as nat * 31 + (s.last() as u32) as nat) % 0x1_0000_0000) as u32
    }
}

/// The colour that the hash of an unknown metric's name picks.
pub open spec fn hash_color(h: u32) -> Color {
    let k = h % 8;
    if k == 0 {
        Color::Blue
    } else if k == 1 {
        Color::Green
    } else if k == 2 {
        Color::Cyan
    } else if k == 3 {
        Color::Yellow
    } else if k == 4 {
        Color::Magenta
    } else if k == 5 {
        Color::LightBlue
    } else if k == 6 {
        Color::LightGreen
    } else {
        Color::LightCyan
    }
}

/// The colour of a metric, from its lower-cased name (`lower`) and its name: the
/// first keyword group that occurs in the lower-cased name decides; otherwise the
/// hash of the name.
pub open spec fn metric_color(lower: Seq<char>, name: Seq<char>) -> Color {
    if contains_seq(lower, "cpu"@) {
        Color::Red
    } else if contains_seq(lower, "memory"@) || contains_seq(lower, "ram"@) {
        Color::Blue
    } else if contains_seq(lower, "disk"@) || contains_seq(lower, "storage"@) {
        Color::Green
    } else if contains_seq(lower, "network"@) || contains_seq(lower, "bytes"@) {
        Color::Cyan
    } else if contains_seq(lower, "connection"@) || contains_seq(lower, "count"@) {
        Color::Yellow
    } else if contains_seq(lower, "latency"@) || contains_seq(lower, "duration"@) {
        Color::Magenta
    } else if contains_seq(lower, "error"@) || contains_seq(lower, "fault"@) {
        Color::LightRed
    } else if contains_seq(lower, "throughput"@) || contains_seq(lower, "rate"@) {
        Color::LightBlue
    } else {
        hash_color(name_hash(name))
    }
}

/// The hash of a metric name.
pub fn metric_name_hash(name: &str) -> (res: u32)
    ensures
        res == name_hash(name@),
{
    let cs = chars_of(name);
    let mut acc: u32 = 0;
    let mut i: usize = 0;
    while i < cs.len()
        invariant
            0 <= i <= cs@.len(),
            cs@ == name@,
            acc == name_hash(cs@.take(i as int)),
        decreases cs@.len() - i,
    {
        proof {
            assert(cs@.take(i + 1).drop_last() =~= cs@.take(i as int));
        }
        let c = #[verifier::truncate] (cs[i] as u32);
        acc = acc.wrapping_mul(31).wrapping_add(c);
        proof {
            let prev = name_hash(cs@.take(i as int));
            assert(cs@.take(i + 1).last() == cs@[i as int]);
            assert(c == cs@[i as int] as u32);
            let m = (prev as nat * 31) % 0x1_0000_0000;
            assert(((m + c as nat) % 0x1_0000_0000) == ((prev as nat * 31 + c as nat) % 0x1_0000_0000)) by (nonlinear_arith)
                requires m == (prev as nat * 31) % 0x1_0000_0000;
        }
        i = i + 1;
    }
    proof {
        assert(cs@.take(cs@.len() as int) =~= cs@);
    }
    acc
}

/// The colour of a metric from its lower-cased name and its name.
pub fn color_for_lowercase_name(lower: &str, name: &str) -> (res: Color)
    ensures
        res == metric_color(lower@, name@),
{
    let l = chars_of(lower);
    if contains_str(&l, "cpu") {
        Color::Red
    } else if contains_str(&l, "memory") || contains_str(&l, "ram") {
        Color::Blue
    } else if contains_str(&l, "disk") || contains_str(&l, "storage") {
        Color::Green
    } else if contains_str(&l, "network") || contains_str(&l, "bytes") {
        Color::Cyan
    } else if contains_str(&l, "connection") || contains_str(&l, "count") {
        Color::Yellow
    } else if contains_str(&l, "latency") || contains_str(&l, "duration") {
        Color::Magenta
    } else if contains_str(&l, "error") || contains_str(&l, "fault") {
        Color::LightRed
    } else if contains_str(&l, "throughput") || contains_str(&l, "rate") {
        Color::LightBlue
    } else {
        let hash = metric_name_hash(name);
        let k = hash % 8;
        if k == 0 {
            Color::Blue
        } else if k == 1 {
            Color::Green
        } else if k == 2 {
            Color::Cyan
        } else if k == 3 {
            Color::Yellow
        } else if k == 4 {
            Color::Magenta
        } else if k == 5 {
            Color::LightBlue
        } else if k == 6 {
            Color::LightGreen
        } else {
            Color::LightCyan
        }
    }
}

/// The colour of a dynamically discovered metric, chosen by keywords of its
/// lower-cased name, or by a hash of the name when no keyword occurs.
pub fn get_dynamic_metric_color(metric_name: &str) -> (res: Color)
    ensures
        res == metric_color(spec_to_lowercase(metric_name@), metric_name@),
{
    let lower = to_lowercase(metric_name);
    color_for_lowercase_name(lower.as_str(), metric_name)
}

} // verus!
