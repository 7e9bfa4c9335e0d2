//! Instants in time, read from and written as text by `chrono`.
//!
//! An instant is a pair: whole seconds since 1970-01-01 00:00:00 UTC, and
//! the nanoseconds within that second (one thousand million or more only
//! inside a leap second).

use vstd::prelude::*;

verus! {

/// `chrono::format::ParseError`, why a text is no date; opaque here.
#[verifier::external_type_specification]
#[verifier::external_body]
pub struct ExParseError(chrono::format::ParseError);

/// The instant that `chrono::DateTime::parse_from_rfc2822` reads from
/// `text`, or `None` where it rejects the text.
pub uninterp spec fn rfc2822_instant(text: Seq<char>) -> Option<(i64, u32)>;

/// What `chrono` prints for the UTC date and time at `secs` seconds and
/// `nanos` nanoseconds, or `None` where it has no date for that instant.
pub uninterp spec fn utc_display(secs: i64, nanos: u32) -> Option<Seq<char>>;

/// Calls `chrono::DateTime::parse_from_rfc2822` and takes the instant of
/// what it parsed by `timestamp` and `timestamp_subsec_nanos`.
///
/// Trusted: the outcome is the named one for this text, and an instant that
/// was parsed is one that `chrono::DateTime::from_timestamp` accepts (its
/// documentation gives that round trip).
#[verifier::external_body]
pub(crate) fn parse_rfc2822(text: &str) -> (r: Result<(i64, u32), chrono::format::ParseError>)
    ensures
        r is Ok <==> rfc2822_instant(text@) is Some,
        r matches Ok(t) ==> rfc2822_instant(text@) == Some(t) && utc_display(t.0, t.1) is Some,
{
    chrono::DateTime::parse_from_rfc2822(text).map(|d| (d.timestamp(), d.timestamp_subsec_nanos()))
}

/// Calls `chrono::DateTime::from_timestamp` and prints the date with its
/// `Display`, as in `2015-05-15 00:00:00 UTC`.
///
/// Trusted: the outcome is the named one for this instant.
#[verifier::external_body]
pub(crate) fn utc_text(secs: i64, nanos: u32) -> (r: Option<String>)
    ensures
        r is Some <==> utc_display(secs, nanos) is Some,
        r matches Some(s) ==> utc_display(secs, nanos) == Some(s@),
{
    chrono::DateTime::from_timestamp(secs, nanos).map(|d| d.to_string())
}

} // verus!
