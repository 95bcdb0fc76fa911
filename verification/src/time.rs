//! Instants in time, and the trusted boundary to chrono for RFC 3339 text.
//!
//! The wire format carries timestamps as ISO-8601 text (fractional seconds,
//! and both `Z` and explicit-offset forms). The library models an instant as
//! seconds since the Unix epoch plus a nanosecond part; chrono does the
//! calendar arithmetic behind the two trusted wrappers below.

use vstd::prelude::*;
use crate::error::Error;

verus! {

/// A point in time: seconds since 1970-01-01T00:00:00Z (negative for earlier
/// instants) plus nanoseconds past the whole second.
#[derive(Clone, Copy, Debug, PartialEq, Eq, Structural)]
pub struct Instant {
    pub secs: i64,
    pub nanos: u32,
}

/// What chrono's RFC 3339 parser returns on a given text: the instant it
/// denotes, or `None` where the text is not a valid timestamp.
pub uninterp spec fn instant_of_text(s: Seq<char>) -> Option<Instant>;

/// What chrono prints for a given instant, as UTC RFC 3339 text.
pub uninterp spec fn instant_text(i: Instant) -> Seq<char>;

/// Instants whose encoding is owed: comfortably inside chrono's representable
/// range (about 253,000 years either side of the epoch), with a normalized
/// nanosecond part.
pub open spec fn instant_in_range(i: Instant) -> bool {
    -8000000000000 <= i.secs <= 8000000000000 && i.nanos < 1000000000
}

/// Relies on chrono's `DateTime::parse_from_rfc3339` (it accepts both `Z`
/// and explicit offsets) and its timestamp accessors: the result depends on
/// the text alone.
#[verifier::external_body]
pub(crate) fn parse_instant(s: &str) -> (r: Option<Instant>)
    ensures
        r == instant_of_text(s@),
{
    match chrono::DateTime::parse_from_rfc3339(s) {
        Ok(dt) => Some(Instant { secs: dt.timestamp(), nanos: dt.timestamp_subsec_nanos() }),
        Err(_) => None,
    }
}

/// Relies on chrono's `DateTime::from_timestamp` and `to_rfc3339_opts`: the
/// text depends on the instant alone, and an instant within chrono's range
/// is always printable.
#[verifier::external_body]
pub(crate) fn print_instant(i: &Instant) -> (r: Option<String>)
    ensures
        r matches Some(s) ==> s@ == instant_text(*i),
        instant_in_range(*i) ==> r is Some,
{
    chrono::DateTime::from_timestamp(i.secs, i.nanos)
        .map(|dt| dt.to_rfc3339_opts(chrono::SecondsFormat::AutoSi, true))
}

impl Instant {
    /// Parses ISO-8601 / RFC 3339 text into an instant.
    pub fn parse(s: &str) -> (r: Option<Instant>)
        ensures
            r == instant_of_text(s@),
    {
        parse_instant(s)
    }

    /// Prints the instant as UTC RFC 3339 text, or fails with an encode
    /// error where the instant lies outside the printable range.
    pub fn to_text(&self) -> (r: Result<String, Error>)
        ensures
            r matches Ok(s) ==> s@ == instant_text(*self),
            instant_in_range(*self) ==> r is Ok,
            r matches Err(e) ==> e matches Error::Encode(_) && !instant_in_range(*self),
    {
        match print_instant(self) {
            Some(s) => Ok(s),
            None => Err(Error::Encode("timestamp out of the printable range".to_owned())),
        }
    }
}

} // verus!
