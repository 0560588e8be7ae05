//! The text form of capture times in stored packets: `YYYY-MM-DD HH:MM:SS`.

use crate::datetime::{
    chrono_format, chrono_parse, chrono_timestamp_valid, format_timestamp, in_four_digit_years,
    parse_timestamp, whole_second_nanos, Timestamp,
};
use vstd::prelude::*;

verus! {

/// The strftime pattern of stored capture times.
pub open spec fn stored_pattern() -> Seq<char> {
    "%Y-%m-%d %H:%M:%S"@
}

/// The capture time that the stored text of `date` reads back as: the same
/// second, without its fraction (a leap second stays a leap second).
pub open spec fn stored_value(date: Timestamp) -> Timestamp {
    Timestamp { secs: date.secs, nanos: whole_second_nanos(date.nanos) }
}

/// Writes a capture time as `YYYY-MM-DD HH:MM:SS` (whole seconds); written
/// exactly when `chrono` accepts the time. In the years 0 to 9999 the text
/// reads back (under `deserialize`) as `stored_value(*date)`.
pub fn serialize(date: &Timestamp) -> (r: Option<String>)
    ensures
        match r {
            Some(text) => chrono_format(date.secs, date.nanos, stored_pattern()) == Some(text@),
            None => chrono_format(date.secs, date.nanos, stored_pattern()) is None,
        },
        r is Some <==> chrono_timestamp_valid(date.secs, date.nanos),
        r matches Some(text) ==> (in_four_digit_years(date.secs) ==> chrono_parse(text@, stored_pattern())
            == Some((stored_value(*date).secs, stored_value(*date).nanos))),
{
    format_timestamp(date.secs, date.nanos, "%Y-%m-%d %H:%M:%S")
}

/// Reads a capture time written as `YYYY-MM-DD HH:MM:SS`, or gives `chrono`'s
/// reason for refusing the text. The text that `serialize` writes for a time in
/// the years 0 to 9999 reads back as `stored_value` of that time.
pub fn deserialize(text: &str) -> (r: Result<Timestamp, chrono::ParseError>)
    ensures
        r is Ok <==> chrono_parse(text@, stored_pattern()) is Some,
        r matches Ok(t) ==> chrono_parse(text@, stored_pattern()) == Some((t.secs, t.nanos)),
        forall|date: Timestamp|
            #![trigger chrono_format(date.secs, date.nanos, stored_pattern())]
            in_four_digit_years(date.secs) && chrono_timestamp_valid(date.secs, date.nanos)
                && chrono_format(date.secs, date.nanos, stored_pattern()) == Some(text@)
                ==> (r matches Ok(t) && t == stored_value(date)),
{
    match parse_timestamp(text, "%Y-%m-%d %H:%M:%S") {
        Ok((secs, nanos)) => Ok(Timestamp { secs, nanos }),
        Err(e) => Err(e),
    }
}

} // verus!
