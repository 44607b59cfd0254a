//! Points in time, as the library compares them.

use chrono::{DateTime, Utc};
use vstd::prelude::*;

verus! {

/// The date and the time of day in UTC, in words, of the point in time
/// `secs` seconds and `nanos` nanoseconds after the Unix epoch; none where
/// the point in time lies outside the years that can be written.
pub uninterp spec fn utc_text(secs: i64, nanos: u32) -> Option<Seq<char>>;

/// `DateTime::from_timestamp` of chrono and, on the date and time that it
/// gives, `to_string`: the date and time as `utc_text` names them, or nothing
/// where chrono has no date for the seconds or no time of day for the
/// nanoseconds.
#[verifier::external_body]
pub(crate) fn format_utc(secs: i64, nanos: u32) -> (text: Option<String>)
    ensures
        text is Some <==> utc_text(secs, nanos) is Some,
        text matches Some(written) ==> utc_text(secs, nanos) == Some(written@),
{
    DateTime::<Utc>::from_timestamp(secs, nanos).map(|time| time.to_string())
}

/// Nanoseconds in one second.
pub const NANOS_PER_SEC: u32 = 1_000_000_000;

/// A point in time: whole seconds since the Unix epoch (negative before it)
/// and the nanoseconds that follow them.
#[derive(Clone, Copy, Debug, PartialEq, Eq, Structural)]
pub struct Timestamp {
    pub secs: i64,
    pub nanos: u32,
}

impl Timestamp {
    /// The point in time as nanoseconds since the epoch.
    pub open spec fn instant(self) -> int {
        self.secs * 1_000_000_000 + self.nanos
    }

    pub fn new(secs: i64, nanos: u32) -> (t: Self)
        ensures
            t.secs == secs,
            t.nanos == nanos,
    {
        Timestamp { secs, nanos }
    }

    /// The point in time as a date and a time of day in UTC.
    pub open spec fn spec_to_text(&self) -> Option<Seq<char>> {
        utc_text(self.secs, self.nanos)
    }

    /// The point in time as a date and a time of day in UTC, where it can be
    /// written so.
    pub fn to_text(&self) -> (text: Option<String>)
        ensures
            text is Some <==> self.spec_to_text() is Some,
            text matches Some(written) ==> self.spec_to_text() == Some(written@),
    {
        format_utc(self.secs, self.nanos)
    }

    /// Computes [`Timestamp::instant`].
    pub fn nanos_since_epoch(&self) -> (n: i128)
        ensures
            n == self.instant(),
    {
        (self.secs as i128) * 1_000_000_000 + (self.nanos as i128)
    }

    /// Whether this point in time lies strictly before `other`.
    pub fn is_before(&self, other: &Timestamp) -> (before: bool)
        ensures
            before == (self.instant() < other.instant()),
    {
        self.nanos_since_epoch() < other.nanos_since_epoch()
    }

    /// Whether this point in time lies less than `window_secs` seconds before
    /// `now`, or after it: `self > now - window`.
    pub open spec fn spec_is_within(self, now: Timestamp, window_secs: u32) -> bool {
        self.instant() > now.instant() - window_secs * 1_000_000_000
    }

    #[verifier::when_used_as_spec(spec_is_within)]
    pub fn is_within(self, now: Timestamp, window_secs: u32) -> (within: bool)
        ensures
            within == self.spec_is_within(now, window_secs),
    {
        let threshold: i128 = now.nanos_since_epoch() - (window_secs as i128) * 1_000_000_000;
        self.nanos_since_epoch() > threshold
    }

    /// The point in time `secs` seconds later, where its seconds still fit.
    pub fn checked_add_secs(&self, secs: u64) -> (later: Option<Timestamp>)
        ensures
            self.secs + secs <= i64::MAX ==> later == Some(
                Timestamp { secs: (self.secs + secs) as i64, nanos: self.nanos },
            ),
            self.secs + secs > i64::MAX ==> later is None,
    {
        let sum: i128 = self.secs as i128 + secs as i128;
        if sum <= i64::MAX as i128 {
            Some(Timestamp { secs: sum as i64, nanos: self.nanos })
        } else {
            None
        }
    }

    /// Nanoseconds from `earlier` to this point in time; zero where `earlier`
    /// is not earlier.
    pub fn nanos_since(&self, earlier: &Timestamp) -> (nanos: u128)
        ensures
            self.instant() >= earlier.instant() ==> nanos == self.instant() - earlier.instant(),
            self.instant() < earlier.instant() ==> nanos == 0,
    {
        let a = self.nanos_since_epoch();
        let b = earlier.nanos_since_epoch();
        if a >= b {
            (a - b) as u128
        } else {
            0
        }
    }
}

/// `nanos` nanoseconds as whole seconds and the nanoseconds left over. More
/// seconds than the first number can hold stand as the most that it and the
/// second can hold.
pub open spec fn spec_split_nanos(nanos: u128) -> (u64, u32) {
    if nanos / 1_000_000_000 > u64::MAX {
        (u64::MAX, 999_999_999u32)
    } else {
        ((nanos / 1_000_000_000) as u64, (nanos % 1_000_000_000) as u32)
    }
}

#[verifier::when_used_as_spec(spec_split_nanos)]
pub fn split_nanos(nanos: u128) -> (parts: (u64, u32))
    ensures
        parts == spec_split_nanos(nanos),
{
    let secs = nanos / 1_000_000_000;
    if secs > u64::MAX as u128 {
        (u64::MAX, 999_999_999)
    } else {
        (secs as u64, (nanos % 1_000_000_000) as u32)
    }
}

} // verus!
