use vstd::prelude::*;
use vstd::string::*;
use vstd::utf8::*;
use crate::text::{repeat_char, repeat_str, str_eq};

verus! {

broadcast use vstd::string::group_string_axioms;

/// Width of the time panel for a terminal of the given total width.
pub open spec fn spec_time_panel_width(total_width: u16) -> u16 {
    if total_width < 60 {
        20
    } else if total_width < 100 {
        22
    } else {
        25
    }
}

/// Calculate responsive time panel width based on terminal width.
pub fn calculate_time_panel_width(total_width: u16) -> (width: u16)
    ensures
        width == spec_time_panel_width(total_width),
        20 <= width <= 25,
{
    if total_width < 60 {
        20
    } else if total_width < 100 {
        22
    } else {
        25
    }
}

/// The abbreviation of a known time-range label ("1 hour" is "1h"), if it has one.
pub open spec fn time_range_abbreviation(label: Seq<char>) -> Option<Seq<char>> {
    if label == "1 minute"@ {
        Some("1m"@)
    } else if label == "3 minutes"@ {
        Some("3m"@)
    } else if label == "5 minutes"@ {
        Some("5m"@)
    } else if label == "15 minutes"@ {
        Some("15m"@)
    } else if label == "30 minutes"@ {
        Some("30m"@)
    } else if label == "45 minutes"@ {
        Some("45m"@)
    } else if label == "1 hour"@ {
        Some("1h"@)
    } else if label == "2 hours"@ {
        Some("2h"@)
    } else if label == "3 hours"@ {
        Some("3h"@)
    } else if label == "6 hours"@ {
        Some("6h"@)
    } else if label == "8 hours"@ {
        Some("8h"@)
    } else if label == "12 hours"@ {
        Some("12h"@)
    } else if label == "1 day"@ {
        Some("1d"@)
    } else if label == "2 days"@ {
        Some("2d"@)
    } else if label == "3 days"@ {
        Some("3d"@)
    } else if label == "4 days"@ {
        Some("4d"@)
    } else if label == "5 days"@ {
        Some("5d"@)
    } else if label == "6 days"@ {
        Some("6d"@)
    } else if label == "1 week"@ {
        Some("1w"@)
    } else if label == "2 weeks"@ {
        Some("2w"@)
    } else if label == "4 weeks"@ {
        Some("4w"@)
    } else if label == "6 weeks"@ {
        Some("6w"@)
    } else if label == "3 months"@ {
        Some("3mo"@)
    } else if label == "6 months"@ {
        Some("6mo"@)
    } else if label == "12 months"@ {
        Some("12mo"@)
    } else if label == "15 months"@ {
        Some("15mo"@)
    } else {
        None
    }
}

/// The units a time range is counted in.
pub enum SpanUnit {
    Minute,
    Hour,
    Day,
    Week,
    Month,
}

/// The word naming a unit in a time-range label (singular).
pub open spec fn unit_word(unit: SpanUnit) -> Seq<char> {
    match unit {
        SpanUnit::Minute => seq!['m', 'i', 'n', 'u', 't', 'e'],
        SpanUnit::Hour => seq!['h', 'o', 'u', 'r'],
        SpanUnit::Day => seq!['d', 'a', 'y'],
        SpanUnit::Week => seq!['w', 'e', 'e', 'k'],
        SpanUnit::Month => seq!['m', 'o', 'n', 't', 'h'],
    }
}

/// The symbol of a unit in an abbreviated time range.
pub open spec fn unit_symbol(unit: SpanUnit) -> Seq<char> {
    match unit {
        SpanUnit::Minute => seq!['m'],
        SpanUnit::Hour => seq!['h'],
        SpanUnit::Day => seq!['d'],
        SpanUnit::Week => seq!['w'],
        SpanUnit::Month => seq!['m', 'o'],
    }
}

/// `count` is a number written in decimal digits.
pub open spec fn is_count(count: Seq<char>) -> bool {
    &&& count.len() > 0
    &&& forall|i: int| 0 <= i < count.len() ==> '0' <= #[trigger] count[i] <= '9'
}

/// `label` names a span of `count` units: the count, a space and the unit's word,
/// singular or plural ("1 hour", "3 hours").
pub open spec fn names_span(label: Seq<char>, count: Seq<char>, unit: SpanUnit) -> bool {
    ||| label == count + seq![' '] + unit_word(unit)
    ||| label == count + seq![' '] + unit_word(unit) + seq!['s']
}

/// `short` abbreviates a span of `count` units: the count followed by the unit's
/// symbol ("1h", "3mo").
pub open spec fn abbreviates_span(short: Seq<char>, count: Seq<char>, unit: SpanUnit) -> bool {
    short == count + unit_symbol(unit)
}

proof fn lemma_span_witness(label: Seq<char>, count: Seq<char>, unit: SpanUnit)
    requires
        is_count(count),
        names_span(label, count, unit),
        time_range_abbreviation(label) is Some,
        abbreviates_span(time_range_abbreviation(label).unwrap(), count, unit),
    ensures
        exists|c: Seq<char>, u: SpanUnit| #[trigger] names_span(label, c, u) && is_count(c)
            && abbreviates_span(time_range_abbreviation(label).unwrap(), c, u),
{
}

/// An abbreviated time range denotes the same span as its label: both give the same
/// count of the same unit ("1 hour" is "1h", "3 months" is "3mo").
pub proof fn lemma_abbreviation_keeps_span(label: Seq<char>)
    requires
        time_range_abbreviation(label) is Some,
    ensures
        exists|c: Seq<char>, u: SpanUnit| #[trigger] names_span(label, c, u) && is_count(c)
            && abbreviates_span(time_range_abbreviation(label).unwrap(), c, u),
{
    if label == "1 minute"@ {
        reveal_strlit("1 minute");
        reveal_strlit("1m");
        assert(label =~= seq!['1'] + seq![' '] + unit_word(SpanUnit::Minute));
        assert("1m"@ =~= seq!['1'] + unit_symbol(SpanUnit::Minute));
        lemma_span_witness(label, seq!['1'], SpanUnit::Minute);
    } else if label == "3 minutes"@ {
        reveal_strlit("3 minutes");
        reveal_strlit("3m");
        assert(label =~= seq!['3'] + seq![' '] + unit_word(SpanUnit::Minute) + seq!['s']);
        assert("3m"@ =~= seq!['3'] + unit_symbol(SpanUnit::Minute));
        lemma_span_witness(label, seq!['3'], SpanUnit::Minute);
    } else if label == "5 minutes"@ {
        reveal_strlit("5 minutes");
        reveal_strlit("5m");
        assert(label =~= seq!['5'] + seq![' '] + unit_word(SpanUnit::Minute) + seq!['s']);
        assert("5m"@ =~= seq!['5'] + unit_symbol(SpanUnit::Minute));
        lemma_span_witness(label, seq!['5'], SpanUnit::Minute);
    } else if label == "15 minutes"@ {
        reveal_strlit("15 minutes");
        reveal_strlit("15m");
        assert(label =~= seq!['1', '5'] + seq![' '] + unit_word(SpanUnit::Minute) + seq!['s']);
        assert("15m"@ =~= seq!['1', '5'] + unit_symbol(SpanUnit::Minute));
        lemma_span_witness(label, seq!['1', '5'], SpanUnit::Minute);
    } else if label == "30 minutes"@ {
        reveal_strlit("30 minutes");
        reveal_strlit("30m");
        assert(label =~= seq!['3', '0'] + seq![' '] + unit_word(SpanUnit::Minute) + seq!['s']);
        assert("30m"@ =~= seq!['3', '0'] + unit_symbol(SpanUnit::Minute));
        lemma_span_witness(label, seq!['3', '0'], SpanUnit::Minute);
    } else if label == "45 minutes"@ {
        reveal_strlit("45 minutes");
        reveal_strlit("45m");
        assert(label =~= seq!['4', '5'] + seq![' '] + unit_word(SpanUnit::Minute) + seq!['s']);
        assert("45m"@ =~= seq!['4', '5'] + unit_symbol(SpanUnit::Minute));
        lemma_span_witness(label, seq!['4', '5'], SpanUnit::Minute);
    } else if label == "1 hour"@ {
        reveal_strlit("1 hour");
        reveal_strlit("1h");
        assert(label =~= seq!['1'] + seq![' '] + unit_word(SpanUnit::Hour));
        assert("1h"@ =~= seq!['1'] + unit_symbol(SpanUnit::Hour));
        lemma_span_witness(label, seq!['1'], SpanUnit::Hour);
    } else if label == "2 hours"@ {
        reveal_strlit("2 hours");
        reveal_strlit("2h");
        assert(label =~= seq!['2'] + seq![' '] + unit_word(SpanUnit::Hour) + seq!['s']);
        assert("2h"@ =~= seq!['2'] + unit_symbol(SpanUnit::Hour));
        lemma_span_witness(label, seq!['2'], SpanUnit::Hour);
    } else if label == "3 hours"@ {
        reveal_strlit("3 hours");
        reveal_strlit("3h");
        assert(label =~= seq!['3'] + seq![' '] + unit_word(SpanUnit::Hour) + seq!['s']);
        assert("3h"@ =~= seq!['3'] + unit_symbol(SpanUnit::Hour));
        lemma_span_witness(label, seq!['3'], SpanUnit::Hour);
    } else if label == "6 hours"@ {
        reveal_strlit("6 hours");
        reveal_strlit("6h");
        assert(label =~= seq!['6'] + seq![' '] + unit_word(SpanUnit::Hour) + seq!['s']);
        assert("6h"@ =~= seq!['6'] + unit_symbol(SpanUnit::Hour));
        lemma_span_witness(label, seq!['6'], SpanUnit::Hour);
    } else if label == "8 hours"@ {
        reveal_strlit("8 hours");
        reveal_strlit("8h");
        assert(label =~= seq!['8'] + seq![' '] + unit_word(SpanUnit::Hour) + seq!['s']);
        assert("8h"@ =~= seq!['8'] + unit_symbol(SpanUnit::Hour));
        lemma_span_witness(label, seq!['8'], SpanUnit::Hour);
    } else if label == "12 hours"@ {
        reveal_strlit("12 hours");
        reveal_strlit("12h");
        assert(label =~= seq!['1', '2'] + seq![' '] + unit_word(SpanUnit::Hour) + seq!['s']);
        assert("12h"@ =~= seq!['1', '2'] + unit_symbol(SpanUnit::Hour));
        lemma_span_witness(label, seq!['1', '2'], SpanUnit::Hour);
    } else if label == "1 day"@ {
        reveal_strlit("1 day");
        reveal_strlit("1d");
        assert(label =~= seq!['1'] + seq![' '] + unit_word(SpanUnit::Day));
        assert("1d"@ =~= seq!['1'] + unit_symbol(SpanUnit::Day));
        lemma_span_witness(label, seq!['1'], SpanUnit::Day);
    } else if label == "2 days"@ {
        reveal_strlit("2 days");
        reveal_strlit("2d");
        assert(label =~= seq!['2'] + seq![' '] + unit_word(SpanUnit::Day) + seq!['s']);
        assert("2d"@ =~= seq!['2'] + unit_symbol(SpanUnit::Day));
        lemma_span_witness(label, seq!['2'], SpanUnit::Day);
    } else if label == "3 days"@ {
        reveal_strlit("3 days");
        reveal_strlit("3d");
        assert(label =~= seq!['3'] + seq![' '] + unit_word(SpanUnit::Day) + seq!['s']);
        assert("3d"@ =~= seq!['3'] + unit_symbol(SpanUnit::Day));
        lemma_span_witness(label, seq!['3'], SpanUnit::Day);
    } else if label == "4 days"@ {
        reveal_strlit("4 days");
        reveal_strlit("4d");
        assert(label =~= seq!['4'] + seq![' '] + unit_word(SpanUnit::Day) + seq!['s']);
        assert("4d"@ =~= seq!['4'] + unit_symbol(SpanUnit::Day));
        lemma_span_witness(label, seq!['4'], SpanUnit::Day);
    } else if label == "5 days"@ {
        reveal_strlit("5 days");
        reveal_strlit("5d");
        assert(label =~= seq!['5'] + seq![' '] + unit_word(SpanUnit::Day) + seq!['s']);
        assert("5d"@ =~= seq!['5'] + unit_symbol(SpanUnit::Day));
        lemma_span_witness(label, seq!['5'], SpanUnit::Day);
    } else if label == "6 days"@ {
        reveal_strlit("6 days");
        reveal_strlit("6d");
        assert(label =~= seq!['6'] + seq![' '] + unit_word(SpanUnit::Day) + seq!['s']);
        assert("6d"@ =~= seq!['6'] + unit_symbol(SpanUnit::Day));
        lemma_span_witness(label, seq!['6'], SpanUnit::Day);
    } else if label == "1 week"@ {
        reveal_strlit("1 week");
        reveal_strlit("1w");
        assert(label =~= seq!['1'] + seq![' '] + unit_word(SpanUnit::Week));
        assert("1w"@ =~= seq!['1'] + unit_symbol(SpanUnit::Week));
        lemma_span_witness(label, seq!['1'], SpanUnit::Week);
    } else if label == "2 weeks"@ {
        reveal_strlit("2 weeks");
        reveal_strlit("2w");
        assert(label =~= seq!['2'] + seq![' '] + unit_word(SpanUnit::Week) + seq!['s']);
        assert("2w"@ =~= seq!['2'] + unit_symbol(SpanUnit::Week));
        lemma_span_witness(label, seq!['2'], SpanUnit::Week);
    } else if label == "4 weeks"@ {
        reveal_strlit("4 weeks");
        reveal_strlit("4w");
        assert(label =~= seq!['4'] + seq![' '] + unit_word(SpanUnit::Week) + seq!['s']);
        assert("4w"@ =~= seq!['4'] + unit_symbol(SpanUnit::Week));
        lemma_span_witness(label, seq!['4'], SpanUnit::Week);
    } else if label == "6 weeks"@ {
        reveal_strlit("6 weeks");
        reveal_strlit("6w");
        assert(label =~= seq!['6'] + seq![' '] + unit_word(SpanUnit::Week) + seq!['s']);
        assert("6w"@ =~= seq!['6'] + unit_symbol(SpanUnit::Week));
        lemma_span_witness(label, seq!['6'], SpanUnit::Week);
    } else if label == "3 months"@ {
        reveal_strlit("3 months");
        reveal_strlit("3mo");
        assert(label =~= seq!['3'] + seq![' '] + unit_word(SpanUnit::Month) + seq!['s']);
        assert("3mo"@ =~= seq!['3'] + unit_symbol(SpanUnit::Month));
        lemma_span_witness(label, seq!['3'], SpanUnit::Month);
    } else if label == "6 months"@ {
        reveal_strlit("6 months");
        reveal_strlit("6mo");
        assert(label =~= seq!['6'] + seq![' '] + unit_word(SpanUnit::Month) + seq!['s']);
        assert("6mo"@ =~= seq!['6'] + unit_symbol(SpanUnit::Month));
        lemma_span_witness(label, seq!['6'], SpanUnit::Month);
    } else if label == "12 months"@ {
        reveal_strlit("12 months");
        reveal_strlit("12mo");
        assert(label =~= seq!['1', '2'] + seq![' '] + unit_word(SpanUnit::Month) + seq!['s']);
        assert("12mo"@ =~= seq!['1', '2'] + unit_symbol(SpanUnit::Month));
        lemma_span_witness(label, seq!['1', '2'], SpanUnit::Month);
    } else if label == "15 months"@ {
        reveal_strlit("15 months");
        reveal_strlit("15mo");
        assert(label =~= seq!['1', '5'] + seq![' '] + unit_word(SpanUnit::Month) + seq!['s']);
        assert("15mo"@ =~= seq!['1', '5'] + unit_symbol(SpanUnit::Month));
        lemma_span_witness(label, seq!['1', '5'], SpanUnit::Month);
    }
}

/// A count followed by a unit symbol reads back one way only.
proof fn lemma_abbreviation_reads_back(c1: Seq<char>, u1: SpanUnit, c2: Seq<char>, u2: SpanUnit)
    requires
        is_count(c1),
        is_count(c2),
        c1 + unit_symbol(u1) == c2 + unit_symbol(u2),
    ensures
        c1 == c2,
        u1 == u2,
{
    let x = c1 + unit_symbol(u1);
    assert(x == c2 + unit_symbol(u2));
    if c1.len() < c2.len() {
        assert(x[c1.len() as int] == unit_symbol(u1)[0]);
        assert(x[c1.len() as int] == c2[c1.len() as int]);
        assert(false);
    }
    if c2.len() < c1.len() {
        assert(x[c2.len() as int] == unit_symbol(u2)[0]);
        assert(x[c2.len() as int] == c1[c2.len() as int]);
        assert(false);
    }
    assert(c1 =~= x.subrange(0, c1.len() as int));
    assert(c2 =~= x.subrange(0, c2.len() as int));
    assert(unit_symbol(u1) =~= x.subrange(c1.len() as int, x.len() as int));
    assert(unit_symbol(u2) =~= x.subrange(c2.len() as int, x.len() as int));
    assert(unit_symbol(u1) == unit_symbol(u2));
    assert(unit_symbol(u1).len() == unit_symbol(u2).len());
    assert(unit_symbol(u1)[0] == unit_symbol(u2)[0]);
}

/// Time-range labels that share an abbreviation name the same span: no two labels
/// of different durations are shown alike.
pub proof fn lemma_shared_abbreviation_same_span(a: Seq<char>, b: Seq<char>)
    requires
        time_range_abbreviation(a) is Some,
        time_range_abbreviation(a) == time_range_abbreviation(b),
    ensures
        exists|c: Seq<char>, u: SpanUnit| #[trigger] names_span(a, c, u) && names_span(b, c, u) && is_count(c),
{
    lemma_abbreviation_keeps_span(a);
    lemma_abbreviation_keeps_span(b);
    let (ca, ua) = choose|c: Seq<char>, u: SpanUnit| #[trigger] names_span(a, c, u) && is_count(c)
        && abbreviates_span(time_range_abbreviation(a).unwrap(), c, u);
    let (cb, ub) = choose|c: Seq<char>, u: SpanUnit| #[trigger] names_span(b, c, u) && is_count(c)
        && abbreviates_span(time_range_abbreviation(b).unwrap(), c, u);
    lemma_abbreviation_reads_back(ca, ua, cb, ub);
    assert(names_span(a, ca, ua) && names_span(b, ca, ua) && is_count(ca));
}

/// What the time-range panel shows for a selected period: its abbreviation,
/// or the label itself where it has none.
pub open spec fn spec_time_range_display(label: Seq<char>) -> Seq<char> {
    match time_range_abbreviation(label) {
        Some(short) => short,
        None => label,
    }
}

/// Get abbreviated display name for time range selection.
pub fn get_selected_time_range_display(selected_time_period: &str) -> (res: String)
    ensures
        res@ == spec_time_range_display(selected_time_period@),
{
    if str_eq(selected_time_period, "1 minute") {
        return "1m".to_owned();
    }
    if str_eq(selected_time_period, "3 minutes") {
        return "3m".to_owned();
    }
    if str_eq(selected_time_period, "5 minutes") {
        return "5m".to_owned();
    }
    if str_eq(selected_time_period, "15 minutes") {
        return "15m".to_owned();
    }
    if str_eq(selected_time_period, "30 minutes") {
        return "30m".to_owned();
    }
    if str_eq(selected_time_period, "45 minutes") {
        return "45m".to_owned();
    }
    if str_eq(selected_time_period, "1 hour") {
        return "1h".to_owned();
    }
    if str_eq(selected_time_period, "2 hours") {
        return "2h".to_owned();
    }
    if str_eq(selected_time_period, "3 hours") {
        return "3h".to_owned();
    }
    if str_eq(selected_time_period, "6 hours") {
        return "6h".to_owned();
    }
    if str_eq(selected_time_period, "8 hours") {
        return "8h".to_owned();
    }
    if str_eq(selected_time_period, "12 hours") {
        return "12h".to_owned();
    }
    if str_eq(selected_time_period, "1 day") {
        return "1d".to_owned();
    }
    if str_eq(selected_time_period, "2 days") {
        return "2d".to_owned();
    }
    if str_eq(selected_time_period, "3 days") {
        return "3d".to_owned();
    }
    if str_eq(selected_time_period, "4 days") {
        return "4d".to_owned();
    }
    if str_eq(selected_time_period, "5 days") {
        return "5d".to_owned();
    }
    if str_eq(selected_time_period, "6 days") {
        return "6d".to_owned();
    }
    if str_eq(selected_time_period, "1 week") {
        return "1w".to_owned();
    }
    if str_eq(selected_time_period, "2 weeks") {
        return "2w".to_owned();
    }
    if str_eq(selected_time_period, "4 weeks") {
        return "4w".to_owned();
    }
    if str_eq(selected_time_period, "6 weeks") {
        return "6w".to_owned();
    }
    if str_eq(selected_time_period, "3 months") {
        return "3mo".to_owned();
    }
    if str_eq(selected_time_period, "6 months") {
        return "6mo".to_owned();
    }
    if str_eq(selected_time_period, "12 months") {
        return "12mo".to_owned();
    }
    if str_eq(selected_time_period, "15 months") {
        return "15mo".to_owned();
    }
    selected_time_period.to_owned()
}

/// The characters of a string truncated to `max_len` bytes: unchanged when it fits,
/// dots alone when there is no room for text, else its first `max_len - 3` bytes
/// followed by "...".
pub open spec fn spec_truncate(s: Seq<char>, max_len: nat) -> Seq<char> {
    let bytes = encode_utf8(s);
    if bytes.len() <= max_len {
        s
    } else if max_len <= 3 {
        repeat_char('.', max_len)
    } else {
        decode_utf8(bytes.subrange(0, max_len - 3)) + seq!['.', '.', '.']
    }
}

/// Truncate string to fit within specified length with ellipsis.
/// Lengths are counted in UTF-8 bytes; the cut must fall on a character boundary.
pub fn truncate_string(s: &str, max_len: usize) -> (res: String)
    requires
        s.spec_bytes().len() <= max_len || max_len <= 3 || is_char_boundary(
            s.spec_bytes(),
            max_len - 3,
        ),
    ensures
        res@ == spec_truncate(s@, max_len as nat),
{
    let byte_len = s.as_bytes().len();
    assert(s.spec_bytes() == encode_utf8(s@));
    if byte_len <= max_len {
        s.to_owned()
    } else if max_len <= 3 {
        proof {
            reveal_strlit(".");
        }
        repeat_str(".", max_len)
    } else {
        let (prefix, _rest) = s.split_at(max_len - 3);
        proof {
            encode_utf8_decode_utf8(prefix@);
            reveal_strlit("...");
            assert(prefix.spec_bytes() == encode_utf8(prefix@));
        }
        let mut res = prefix.to_owned();
        res.append("...");
        res
    }
}

} // verus!
