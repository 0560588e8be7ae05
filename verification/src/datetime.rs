//! Capture timestamps and their text forms, computed by `chrono`.

use std::fmt::Write;
use vstd::prelude::*;

verus! {

/// A capture time: whole seconds since the Unix epoch and a nanosecond part
/// (`nanos >= 1_000_000_000` marks a leap second, as in `chrono`).
#[derive(Clone, Copy, Debug, PartialEq, Eq, Structural)]
pub struct Timestamp {
    pub secs: i64,
    pub nanos: u32,
}

#[verifier::external_type_specification]
#[verifier::external_body]
pub struct ExChronoParseError(chrono::ParseError);

/// Whether `chrono` accepts `(secs, nanos)` as a date and time: the day lies
/// between `NaiveDate::MIN` and `NaiveDate::MAX` (years -262143 to 262142), the
/// nanosecond part is under two seconds, and it reaches a second only on the
/// last second of a minute (a leap second).
pub open spec fn chrono_timestamp_valid(secs: i64, nanos: u32) -> bool {
    &&& -8_334_601_228_800 <= secs <= 8_210_266_876_799
    &&& nanos < 2_000_000_000
    &&& (nanos < 1_000_000_000 || secs % 60 == 59)
}

/// What `chrono` writes for the date and time `(secs, nanos)` under a strftime `pattern`
/// (`None` where the time is rejected or the pattern cannot be written).
pub uninterp spec fn chrono_format(secs: i64, nanos: u32, pattern: Seq<char>) -> Option<Seq<char>>;

/// Whether the date of `secs` (seconds since the Unix epoch, UTC) lies in the
/// years 0 to 9999, from 0000-01-01 00:00:00 to 9999-12-31 23:59:59: the years
/// that `%Y` writes as four digits without a sign.
pub open spec fn in_four_digit_years(secs: i64) -> bool {
    -62_167_219_200 <= secs <= 253_402_300_799
}

/// The nanosecond part of a time read back from text that has whole seconds: none,
/// but a leap second (written as second 60) reads back as one whole second.
pub open spec fn whole_second_nanos(nanos: u32) -> u32 {
    if nanos >= 1_000_000_000 { 1_000_000_000 } else { 0 }
}

/// What `chrono`'s `Display` of the date and time `(secs, nanos)` writes.
pub uninterp spec fn chrono_display(secs: i64, nanos: u32) -> Seq<char>;

/// The time that `chrono` reads from `text` under a strftime `pattern`, as
/// seconds since the epoch and nanoseconds.
pub uninterp spec fn chrono_parse(text: Seq<char>, pattern: Seq<char>) -> Option<(i64, u32)>;

/// `n` (below 100) as two decimal digits.
pub open spec fn two_digits(n: int) -> Seq<char> {
    seq![(n / 10 + 48) as char, (n % 10 + 48) as char]
}

/// The time of day of `(secs, nanos)` as `HH:MM:SS`: the seconds are counted
/// from midnight UTC, and a leap second shows as second 60.
pub open spec fn clock_text(secs: i64, nanos: u32) -> Seq<char> {
    let of_day = secs % 86400;
    let second = of_day % 60 + if nanos >= 1_000_000_000 { 1int } else { 0int };
    two_digits(of_day / 3600) + seq![':'] + two_digits(of_day % 3600 / 60) + seq![':'] + two_digits(second)
}

/// Calls `chrono::DateTime::from_timestamp` (what `NaiveDateTime::from_timestamp_opt`
/// also calls) and reports whether it gives a time. Claimed from its source
/// (the day number must name a date between `NaiveDate::MIN` and
/// `NaiveDate::MAX`, and `NaiveTime::from_num_seconds_from_midnight_opt`
/// bounds the nanoseconds): it gives one exactly when `chrono_timestamp_valid`.
#[verifier::external_body]
pub(crate) fn timestamp_is_valid(secs: i64, nanos: u32) -> (r: bool)
    ensures
        r == chrono_timestamp_valid(secs, nanos),
{
    chrono::DateTime::from_timestamp(secs, nanos).is_some()
}

/// Formats `(secs, nanos)` as a `chrono::NaiveDateTime` with the strftime
/// `pattern` (`NaiveDateTime::format`, written out with `write!`). Claimed:
/// the text is `chrono`'s, and nothing is written for a rejected time; for the
/// pattern `%H:%M:%S` (zero-padded hour, minute and second, as `chrono`
/// documents them, the second being 60 in a leap second) an accepted time is
/// written as `clock_text`; the pattern `%Y-%m-%d %H:%M:%S` is written for
/// every accepted time (writing its items never fails), and in the years 0 to
/// 9999 `NaiveDateTime::parse_from_str` reads that text back under the same
/// pattern as the same second, with no nanoseconds but a leap second's (second
/// 60 reads back as second 59 and 1_000_000_000 nanoseconds). Not claimed: which
/// other patterns `chrono` can write, or what other texts read back as.
#[verifier::external_body]
pub(crate) fn format_timestamp(secs: i64, nanos: u32, pattern: &str) -> (r: Option<String>)
    ensures
        match r {
            Some(text) => chrono_format(secs, nanos, pattern@) == Some(text@),
            None => chrono_format(secs, nanos, pattern@) is None,
        },
        r is Some ==> chrono_timestamp_valid(secs, nanos),
        r is None ==> !(pattern@ == "%H:%M:%S"@ && chrono_timestamp_valid(secs, nanos)),
        r is None ==> !(pattern@ == "%Y-%m-%d %H:%M:%S"@ && chrono_timestamp_valid(secs, nanos)),
        r matches Some(text) ==> (pattern@ == "%H:%M:%S"@ ==> text@ == clock_text(secs, nanos)),
        r matches Some(text) ==> (pattern@ == "%Y-%m-%d %H:%M:%S"@ && in_four_digit_years(secs)
            ==> chrono_parse(text@, pattern@) == Some((secs, whole_second_nanos(nanos)))),
{
    let dt = chrono::DateTime::from_timestamp(secs, nanos)?.naive_utc();
    let mut text = String::new();
    match write!(text, "{}", dt.format(pattern)) {
        Ok(()) => Some(text),
        Err(_) => None,
    }
}

/// Writes `(secs, nanos)` with `chrono::NaiveDateTime`'s `Display`
/// (`YYYY-MM-DD HH:MM:SS` and a fraction where there is one). Claimed: the
/// text is written exactly when `chrono` accepts the time.
#[verifier::external_body]
pub(crate) fn display_timestamp(secs: i64, nanos: u32) -> (r: Option<String>)
    ensures
        r is Some <==> chrono_timestamp_valid(secs, nanos),
        r matches Some(text) ==> text@ == chrono_display(secs, nanos),
{
    let dt = chrono::DateTime::from_timestamp(secs, nanos)?.naive_utc();
    let mut text = String::new();
    match write!(text, "{}", dt) {
        Ok(()) => Some(text),
        Err(_) => None,
    }
}

/// Reads a date and time from `text` with `chrono::NaiveDateTime::parse_from_str`
/// and gives it as seconds since the epoch and nanoseconds
/// (`and_utc().timestamp()`, `timestamp_subsec_nanos()`), or `chrono`'s error.
/// Claimed beyond the name: under the pattern `%Y-%m-%d %H:%M:%S`, the text
/// that `chrono` writes for an accepted time in the years 0 to 9999 is read as
/// that second, with no nanoseconds but a leap second's (`Parsed::to_naive_time`
/// reads second 60 as second 59 and 1_000_000_000 nanoseconds).
#[verifier::external_body]
pub(crate) fn parse_timestamp(text: &str, pattern: &str) -> (r: Result<(i64, u32), chrono::ParseError>)
    ensures
        r is Ok <==> chrono_parse(text@, pattern@) is Some,
        r matches Ok(t) ==> chrono_parse(text@, pattern@) == Some(t),
        r is Err ==> forall|secs: i64, nanos: u32|
            #![trigger chrono_format(secs, nanos, pattern@)]
            !(pattern@ == "%Y-%m-%d %H:%M:%S"@ && in_four_digit_years(secs)
                && chrono_timestamp_valid(secs, nanos)
                && chrono_format(secs, nanos, pattern@) == Some(text@)),
        r matches Ok(t) ==> forall|secs: i64, nanos: u32|
            #![trigger chrono_format(secs, nanos, pattern@)]
            pattern@ == "%Y-%m-%d %H:%M:%S"@ && in_four_digit_years(secs)
                && chrono_timestamp_valid(secs, nanos)
                && chrono_format(secs, nanos, pattern@) == Some(text@)
                ==> t == (secs, whole_second_nanos(nanos)),
{
    let dt = chrono::NaiveDateTime::parse_from_str(text, pattern)?.and_utc();
    Ok((dt.timestamp(), dt.timestamp_subsec_nanos()))
}

} // verus!
