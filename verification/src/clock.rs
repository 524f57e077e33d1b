//! Instants as plain values, and the calls that read the clock.
use chrono::{DateTime, Utc};
use std::time::SystemTime;
use vstd::prelude::*;

verus! {

/// An instant in UTC: whole seconds since the Unix epoch and the nanoseconds past them,
/// the two numbers that `chrono::DateTime::from_timestamp` takes back.
#[derive(Clone, Copy, Debug, PartialEq, Eq, Structural)]
pub struct Timestamp {
    pub secs: i64,
    pub nanos: u32,
}

/// The current time: `std::time::SystemTime::now` turned into `chrono::DateTime<Utc>` by
/// chrono's `From<SystemTime>`, read as seconds and nanoseconds. The clock decides the
/// value; chrono documents the nanoseconds below 2,000,000,000. Unlike `Utc::now`, this
/// conversion takes clocks set before 1970 too; it fails only for a clock beyond chrono's
/// range of about 262,000 years around year 0, far beyond what a Linux system clock (kept
/// in 64-bit nanoseconds, so before the year 2263) can read.
#[verifier::external_body]
pub(crate) fn utc_now() -> (t: Timestamp)
    ensures
        t.nanos < 2_000_000_000,
{
    let now: DateTime<Utc> = DateTime::from(SystemTime::now());
    Timestamp { secs: now.timestamp(), nanos: now.timestamp_subsec_nanos() }
}

/// The text that chrono's `DateTime::<Utc>::to_rfc3339` writes for the instant `secs`
/// seconds and `nanos` nanoseconds after the Unix epoch: a function of the instant alone,
/// since the offset is always UTC.
pub uninterp spec fn rfc3339_text(secs: i64, nanos: u32) -> Seq<char>;

/// The current time, read as in `utc_now`, together with the text that
/// `DateTime::to_rfc3339` writes for that same instant.
#[verifier::external_body]
pub(crate) fn utc_now_rfc3339() -> (r: (Timestamp, String))
    ensures
        r.0.nanos < 2_000_000_000,
        r.1@ == rfc3339_text(r.0.secs, r.0.nanos),
{
    let now: DateTime<Utc> = DateTime::from(SystemTime::now());
    (Timestamp { secs: now.timestamp(), nanos: now.timestamp_subsec_nanos() }, now.to_rfc3339())
}


impl Timestamp {
    /// The instant in whole milliseconds since the Unix epoch, sub-millisecond part dropped.
    pub open spec fn spec_millis(self) -> int {
        self.secs * 1000 + self.nanos / 1_000_000
    }

    /// The instant in milliseconds since the Unix epoch, as BSON stores dates: the
    /// sub-millisecond part is dropped, and instants beyond `i64`'s range are held at its
    /// ends.
    pub fn to_millis(&self) -> (r: i64)
        ensures
            self.spec_millis() < i64::MIN ==> r == i64::MIN,
            self.spec_millis() > i64::MAX ==> r == i64::MAX,
            i64::MIN <= self.spec_millis() <= i64::MAX ==> r == self.spec_millis(),
    {
        let total: i128 = (self.secs as i128) * 1000 + ((self.nanos / 1_000_000) as i128);
        if total > i64::MAX as i128 {
            i64::MAX
        } else if total < i64::MIN as i128 {
            i64::MIN
        } else {
            total as i64
        }
    }

    /// The instant `millis` milliseconds after the Unix epoch.
    pub fn from_millis(millis: i64) -> (r: Timestamp)
        ensures
            r.spec_millis() == millis,
            r.nanos < 1_000_000_000,
            r.nanos % 1_000_000 == 0,
    {
        let mut q = millis / 1000;
        let mut m = millis % 1000;
        if m < 0 {
            q = q - 1;
            m = m + 1000;
        }
        assert(q * 1000 + m == millis);
        Timestamp { secs: q, nanos: (m as u32) * 1_000_000 }
    }
}

} // verus!
