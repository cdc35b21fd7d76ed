//! Instants in time, held as plain integers, and the few calendar
//! operations the relay needs from `chrono`.

use vstd::prelude::*;

verus! {

/// Whether `chrono` has a UTC date-time for this many whole seconds since
/// the Unix epoch plus this many nanoseconds: the value of
/// `chrono::DateTime::from_timestamp(secs, nanos).is_some()`.
pub uninterp spec fn has_datetime(secs: i64, nanos: u32) -> bool;

/// The RFC 3339 text of an instant: what `chrono::DateTime::to_rfc3339`
/// returns for the UTC date-time made from `secs` and `nanos`.
pub uninterp spec fn rfc3339_text(secs: i64, nanos: u32) -> Seq<char>;

/// The instant that an RFC 3339 text denotes, if it is one: what
/// `chrono::DateTime::parse_from_rfc3339` returns, moved to UTC.
pub uninterp spec fn rfc3339_instant(text: Seq<char>) -> Option<Timestamp>;

/// An instant: whole seconds since 1970-01-01T00:00:00Z and the nanoseconds
/// past that second. Every value is one that `chrono` can represent.
#[derive(Clone, Copy, Debug, PartialEq, Eq)]
pub struct Timestamp {
    pub(crate) secs: i64,
    pub(crate) nanos: u32,
}

/// Reads the system clock through `chrono::Utc::now`, which makes its
/// date-time from the time that has passed since the Unix epoch: whole
/// seconds, and the nanoseconds of the second that has begun. So the
/// instant that comes back is one that `chrono` has, at or after the epoch,
/// with less than a second's worth of nanoseconds. Which instant it is
/// depends on the clock. The call aborts when the system clock stands
/// before the Unix epoch.
#[verifier::external_body]
fn utc_now() -> (now: Timestamp)
    ensures
        has_datetime(now.secs, now.nanos),
        now.secs >= 0,
        now.nanos < 1_000_000_000,
{
    let now = chrono::Utc::now();
    Timestamp { secs: now.timestamp(), nanos: now.timestamp_subsec_nanos() }
}

/// Asks `chrono::DateTime::from_timestamp` whether the two numbers name a
/// date-time, and keeps them if they do.
#[verifier::external_body]
fn checked_instant(secs: i64, nanos: u32) -> (made: Option<Timestamp>)
    ensures
        made is Some <==> has_datetime(secs, nanos),
        made matches Some(t) ==> t.secs == secs && t.nanos == nanos,
{
    chrono::DateTime::from_timestamp(secs, nanos).map(|_| Timestamp { secs, nanos })
}

/// Formats an instant with `chrono::DateTime::to_rfc3339`.
#[verifier::external_body]
fn format_rfc3339(secs: i64, nanos: u32) -> (text: String)
    requires
        has_datetime(secs, nanos),
    ensures
        text@ == rfc3339_text(secs, nanos),
{
    chrono::DateTime::from_timestamp(secs, nanos).map(|t| t.to_rfc3339()).unwrap_or_default()
}

/// Parses a text with `chrono::DateTime::parse_from_rfc3339` and moves the
/// result to UTC; `None` where `chrono` rejects the text.
#[verifier::external_body]
fn parse_rfc3339(text: &str) -> (parsed: Option<Timestamp>)
    ensures
        parsed == rfc3339_instant(text@),
        parsed matches Some(t) ==> has_datetime(t.secs, t.nanos),
{
    chrono::DateTime::parse_from_rfc3339(text).ok().map(|t| t.with_timezone(&chrono::Utc)).map(
        |t| Timestamp { secs: t.timestamp(), nanos: t.timestamp_subsec_nanos() },
    )
}

impl Timestamp {
    #[verifier::type_invariant]
    spec fn representable(self) -> bool {
        has_datetime(self.secs, self.nanos)
    }

    /// Whole seconds since the epoch.
    pub closed spec fn spec_secs(&self) -> i64 {
        self.secs
    }

    /// Nanoseconds past the whole second.
    pub closed spec fn spec_nanos(&self) -> u32 {
        self.nanos
    }

    /// The current instant, as the system clock has it: an instant of the
    /// calendar, at or after the epoch, with less than a second's worth of
    /// nanoseconds.
    pub fn now() -> (now: Timestamp)
        ensures
            has_datetime(now.secs(), now.nanos()),
            now.secs() >= 0,
            now.nanos() < 1_000_000_000,
    {
        utc_now()
    }

    /// The instant `secs` seconds and `nanos` nanoseconds after the epoch,
    /// where the calendar has such an instant.
    pub fn from_parts(secs: i64, nanos: u32) -> (made: Option<Timestamp>)
        ensures
            made is Some <==> has_datetime(secs, nanos),
            made matches Some(t) ==> t.secs() == secs && t.nanos() == nanos,
    {
        checked_instant(secs, nanos)
    }

    /// The instant written in `text`, where `text` is RFC 3339.
    pub fn parse(text: &str) -> (parsed: Option<Timestamp>)
        ensures
            parsed == rfc3339_instant(text@),
    {
        parse_rfc3339(text)
    }

    /// The instant written in `text`, or the current instant where `text`
    /// is not RFC 3339.
    pub fn parse_or_now(text: &str) -> (instant: Timestamp)
        ensures
            rfc3339_instant(text@) matches Some(t) ==> instant == t,
    {
        match parse_rfc3339(text) {
            Some(t) => t,
            None => utc_now(),
        }
    }

    /// Whole seconds since the epoch.
    #[verifier::when_used_as_spec(spec_secs)]
    pub fn secs(&self) -> (secs: i64)
        ensures
            secs == self.secs(),
    {
        self.secs
    }

    /// Nanoseconds past the whole second.
    #[verifier::when_used_as_spec(spec_nanos)]
    pub fn nanos(&self) -> (nanos: u32)
        ensures
            nanos == self.nanos(),
    {
        self.nanos
    }

    /// This instant as RFC 3339 text.
    pub fn to_rfc3339(&self) -> (text: String)
        ensures
            text@ == rfc3339_text(self.secs(), self.nanos()),
    {
        proof {
            use_type_invariant(self);
        }
        format_rfc3339(self.secs, self.nanos)
    }
}

} // verus!
