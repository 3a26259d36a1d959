//! Wall-clock timestamps.
use vstd::prelude::*;

verus! {

/// The text that `chrono` formats an instant to, with the pattern `%Y-%m-%dT%H:%M:%S%.3fZ`; none
/// where the instant is out of its range. The instant is given in seconds and nanoseconds since
/// the Unix epoch, in UTC.
pub uninterp spec fn utc_text(secs: i64, nanos: u32) -> Option<Seq<char>>;

/// `t` has the shape `YYYY-MM-DDTHH:MM:SS.mmmZ`.
pub open spec fn has_iso8601_shape(t: Seq<char>) -> bool {
    &&& t.len() == 24
    &&& t[4] == '-'
    &&& t[7] == '-'
    &&& t[10] == 'T'
    &&& t[13] == ':'
    &&& t[16] == ':'
    &&& t[19] == '.'
    &&& t[23] == 'Z'
}

/// `chrono::Utc::now`: the seconds and nanoseconds since the Unix epoch.
///
/// Nothing is said of the value but that it can be formatted.
#[verifier::external_body]
pub(crate) fn utc_now() -> (now: (i64, u32))
    ensures
        utc_text(now.0, now.1) is Some,
{
    let now = chrono::Utc::now();
    (now.timestamp(), now.timestamp_subsec_nanos())
}

/// `chrono::DateTime::format` with the pattern `%Y-%m-%dT%H:%M:%S%.3fZ`.
///
/// From year 0 to year 9999 every instant is in range and every field of the pattern has its fixed
/// width.
#[verifier::external_body]
fn format_utc(secs: i64, nanos: u32) -> (t: Option<String>)
    ensures
        t is Some <==> utc_text(secs, nanos) is Some,
        t matches Some(s) ==> Some(s@) == utc_text(secs, nanos),
        -62_167_219_200 <= secs <= 253_402_300_799 && nanos < 1_000_000_000 ==> t is Some,
        t matches Some(s) ==> -62_167_219_200 <= secs <= 253_402_300_799 ==> has_iso8601_shape(s@),
{
    let at = chrono::DateTime::from_timestamp(secs, nanos)?;
    Some(at.format("%Y-%m-%dT%H:%M:%S%.3fZ").to_string())
}

/// The ISO-8601 text of an instant; none where it is out of the calendar's range.
pub fn iso8601(secs: i64, nanos: u32) -> (t: Option<String>)
    ensures
        t is Some <==> utc_text(secs, nanos) is Some,
        t matches Some(s) ==> Some(s@) == utc_text(secs, nanos),
        -62_167_219_200 <= secs <= 253_402_300_799 && nanos < 1_000_000_000 ==> t is Some,
        t matches Some(s) ==> -62_167_219_200 <= secs <= 253_402_300_799 ==> has_iso8601_shape(s@),
{
    format_utc(secs, nanos)
}

/// The current time of day as `YYYY-MM-DDTHH:MM:SS.mmmZ`, in UTC, for a clock between the years 0
/// and 9999.
pub fn utc_now_iso8601() -> (t: String)
    ensures
        exists|secs: i64, nanos: u32| #[trigger]
            utc_text(secs, nanos) == Some(t@) && (-62_167_219_200 <= secs <= 253_402_300_799
                ==> has_iso8601_shape(t@)),
{
    let (secs, nanos) = utc_now();
    match iso8601(secs, nanos) {
        Some(t) => t,
        None => String::new(),
    }
}

} // verus!
