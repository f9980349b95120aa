use vstd::prelude::*;

verus! {

/// The second-precision RFC 3339 rendering of a Unix timestamp in UTC,
/// with a numeric offset (for instance `1970-01-01T00:00:05+00:00`).
/// The rendering depends on the seconds value alone.
pub uninterp spec fn rfc3339_secs_of(ts: i64) -> Seq<char>;

/// Relies on chrono's `DateTime::<Utc>::from_timestamp` (documented to
/// return `None` only for seconds out of chrono's supported range,
/// which reaches far beyond the year 2100) and `to_rfc3339_opts` with
/// second precision and a numeric offset, whose output is a function
/// of the timestamp alone.
#[verifier::external_body]
pub fn rfc3339_utc_secs(ts: i64) -> (r: Option<String>)
    ensures
        r matches Some(s) ==> s@ == rfc3339_secs_of(ts),
        r matches Some(s) ==> vstd::string::string_is_ascii(&s),
        0 <= ts <= 4102444800 ==> r is Some,
{
    let dt = chrono::DateTime::<chrono::Utc>::from_timestamp(ts, 0)?;
    Some(dt.to_rfc3339_opts(chrono::SecondsFormat::Secs, false))
}

/// Relies on chrono's `Utc::now` for the wall clock, read as whole
/// seconds since the Unix epoch. Nothing is assumed of the value it
/// reports; callers must check it before using it as an anchor.
#[verifier::external_body]
pub fn current_unix_time() -> (r: i64) {
    chrono::Utc::now().timestamp()
}

} // verus!
