//! The wall clock and RFC 3339 timestamps.

use chrono::{DateTime, Utc};
use vstd::prelude::*;

verus! {

/// An instant of UTC time: whole seconds since the Unix epoch and the
/// nanoseconds past them.
#[derive(Debug, Clone, Copy, PartialEq, Eq, Structural)]
pub struct Timestamp {
    pub secs: i64,
    pub nanos: u32,
}

/// The first second that RFC 3339 cannot write: the start of the year 10000.
pub const RFC3339_END: i64 = 253_402_300_800;

impl Timestamp {
    /// Whether this instant lies strictly after `other`.
    pub open spec fn is_after(self, other: Timestamp) -> bool {
        self.secs > other.secs || (self.secs == other.secs && self.nanos > other.nanos)
    }

    /// Whether RFC 3339 text can hold this instant exactly: a year from
    /// 1970 through 9999 and fewer than a billion nanoseconds.
    pub open spec fn writable(self) -> bool {
        0 <= self.secs < RFC3339_END && self.nanos < 1_000_000_000
    }

    /// This instant as nanoseconds since the epoch.
    pub open spec fn total_nanos(self) -> int {
        self.secs * 1_000_000_000 + self.nanos
    }

    pub fn after(&self, other: &Timestamp) -> (res: bool)
        ensures
            res == self.is_after(*other),
    {
        self.secs > other.secs || (self.secs == other.secs && self.nanos > other.nanos)
    }
}

/// The RFC 3339 text of an instant, where the calendar can hold it.
pub uninterp spec fn spec_format_rfc3339(secs: i64, nanos: u32) -> Option<Seq<char>>;

/// The instant that a date-and-time text spells, if it spells one.
pub uninterp spec fn spec_parse_rfc3339(text: Seq<char>) -> Option<Timestamp>;

/// Calls `Utc::now` and `DateTime::to_rfc3339`: the current UTC time as an
/// RFC 3339 string. Nothing is claimed about the text.
#[verifier::external_body]
pub(crate) fn now_rfc3339() -> (text: String) {
    Utc::now().to_rfc3339()
}

/// Calls `Utc::now`, then `DateTime::timestamp` and
/// `DateTime::timestamp_subsec_nanos`: the current instant. Nothing is
/// claimed about it.
#[verifier::external_body]
pub(crate) fn now_timestamp() -> (at: Timestamp) {
    let now = Utc::now();
    Timestamp { secs: now.timestamp(), nanos: now.timestamp_subsec_nanos() }
}

/// Calls `DateTime::from_timestamp` and `DateTime::to_rfc3339`: the named
/// text. An instant from 1970 through 9999 always has one, and that text
/// reads back as the same instant.
#[verifier::external_body]
pub(crate) fn format_rfc3339(at: Timestamp) -> (text: Option<String>)
    ensures
        text is Some <==> spec_format_rfc3339(at.secs, at.nanos) is Some,
        text matches Some(t) ==> spec_format_rfc3339(at.secs, at.nanos) == Some(t@),
        at.writable() ==> text is Some,
        text matches Some(t) ==> (at.writable() ==> spec_parse_rfc3339(t@) == Some(at)),
{
    DateTime::<Utc>::from_timestamp(at.secs, at.nanos).map(|d| d.to_rfc3339())
}

/// Calls `str::parse::<DateTime<Utc>>`, then `DateTime::timestamp` and
/// `DateTime::timestamp_subsec_nanos`: the named instant, or `None` where
/// the text spells none.
#[verifier::external_body]
pub(crate) fn parse_rfc3339(text: &str) -> (at: Option<Timestamp>)
    ensures
        at == spec_parse_rfc3339(text@),
{
    text.parse::<DateTime<Utc>>().ok().map(
        |d| Timestamp { secs: d.timestamp(), nanos: d.timestamp_subsec_nanos() },
    )
}

} // verus!
