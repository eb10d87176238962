use vstd::prelude::*;
use std::time::{Duration, Instant};
use crate::text::{digit_char, digit_str};

verus! {

/// `std::time::Instant`, carried through the library as an opaque value.
#[verifier::external_type_specification]
#[verifier::external_body]
pub struct ExInstant(std::time::Instant);

/// Calls `Instant::now`. The reading depends on the clock, so nothing is stated of it.
#[verifier::external_body]
pub(crate) fn instant_now() -> (now: Instant) {
    Instant::now()
}

/// Calls `Instant::elapsed`. The duration depends on the clock, so nothing is stated of it.
#[verifier::external_body]
pub(crate) fn instant_elapsed(start: &Instant) -> (elapsed: Duration) {
    start.elapsed()
}

/// Calls `Duration::as_millis`. `Duration` is opaque here, so the contract states nothing
/// of the whole milliseconds it returns.
#[verifier::external_body]
pub(crate) fn duration_as_millis(d: &Duration) -> (millis: u128) {
    d.as_millis()
}

/// The latest instant, in seconds after the Unix epoch, that the calendar library
/// can represent: 23:59:59 UTC on 31 December of the year 262,142.
pub const MAX_CLOCK_SECS: u64 = 8_210_266_876_799;

/// Two decimal digits of `n` (for `0 <= n < 100`), zero-padded.
pub open spec fn two_digits(n: int) -> Seq<char> {
    seq![digit_char((n / 10) as nat), digit_char((n % 10) as nat)]
}

/// The UTC time of day `secs` seconds after the Unix epoch as "HH:MM" (times before
/// the epoch count back from midnight).
pub open spec fn spec_utc_hh_mm(secs: int) -> Seq<char> {
    let r = secs % 86400;
    two_digits(r / 3600) + seq![':'] + two_digits((r % 3600) / 60)
}

/// The time of day of the clock reading `local` (seconds after the epoch on that
/// clock) as "HH:MM", or "HH:MM:SS" `with_seconds`; readings before the epoch count
/// back from midnight.
pub open spec fn spec_clock_text(local: int, with_seconds: bool) -> Seq<char> {
    let r = local % 86400;
    let hh_mm = two_digits(r / 3600) + seq![':'] + two_digits((r % 3600) / 60);
    if with_seconds {
        hh_mm + seq![':'] + two_digits(r % 60)
    } else {
        hh_mm
    }
}

/// Appends the two zero-padded decimal digits of `n` to `s`.
fn push_two_digits(s: &mut String, n: u64)
    requires
        n < 100,
    ensures
        final(s)@ == old(s)@ + two_digits(n as int),
{
    s.append(digit_str(n / 10));
    s.append(digit_str(n % 10));
}

/// The time of day, in a time zone `utc_offset_secs` seconds east of UTC, of the
/// instant `secs` seconds after the Unix epoch: "HH:MM", or "HH:MM:SS" `with_seconds`.
pub fn clock_text(secs: u64, utc_offset_secs: i32, with_seconds: bool) -> (res: String)
    requires
        -86400 < utc_offset_secs < 86400,
    ensures
        res@ == spec_clock_text(secs + utc_offset_secs, with_seconds),
{
    let day_secs: i64 = (secs % 86400) as i64;
    let shifted: i64 = day_secs + utc_offset_secs as i64 + 86400;
    let r: u64 = (shifted % 86400) as u64;
    proof {
        let local: int = secs + utc_offset_secs;
        assert(secs == 86400 * (secs / 86400) + day_secs) by {
            vstd::arithmetic::div_mod::lemma_fundamental_div_mod(secs as int, 86400);
        }
        assert(r as int == local % 86400) by {
            vstd::arithmetic::div_mod::lemma_mod_multiples_vanish(
                (secs / 86400) as int - 1, shifted as int, 86400);
        }
        reveal_strlit(":");
    }
    let mut s = String::new();
    push_two_digits(&mut s, r / 3600);
    s.append(":");
    push_two_digits(&mut s, (r % 3600) / 60);
    if with_seconds {
        s.append(":");
        push_two_digits(&mut s, r % 60);
    }
    s
}

/// Calls `chrono::DateTime::<Utc>::from_timestamp(secs, 0)` and writes the result
/// with `format("%H:%M")`. chrono returns no date for a number of seconds outside
/// the dates it can represent; otherwise `%H` and `%M` are the zero-padded hour
/// (00-23) and minute (00-59) of the UTC time of day.
#[verifier::external_body]
fn utc_hour_minute(secs: i64) -> (res: Option<String>)
    ensures
        res matches Some(t) ==> t@ == spec_utc_hh_mm(secs as int),
        0 <= secs <= MAX_CLOCK_SECS ==> res is Some,
{
    match chrono::DateTime::<chrono::Utc>::from_timestamp(secs, 0) {
        Some(dt) => Some(dt.format("%H:%M").to_string()),
        None => None,
    }
}

/// The UTC "HH:MM" label of a timestamp (whole seconds after the Unix epoch). The
/// seconds are read as a signed number, wrapping above `i64::MAX`; a time the
/// calendar cannot represent is labelled as the epoch, "00:00".
pub fn utc_time_label(secs: u64) -> (res: String)
    ensures
        res@ == spec_utc_hh_mm((secs as i64) as int) || res@ == "00:00"@,
        secs <= MAX_CLOCK_SECS ==> res@ == spec_utc_hh_mm(secs as int),
{
    let s = #[verifier::truncate] (secs as i64);
    match utc_hour_minute(s) {
        Some(t) => t,
        None => "00:00".to_owned(),
    }
}

} // verus!

verus! {

/// `Instant` is `Copy`; its `clone` gives back the same instant.
pub assume_specification[ <std::time::Instant as Clone>::clone ](t: &Instant) -> (res: Instant)
    ensures
        res == *t,
;

} // verus!
