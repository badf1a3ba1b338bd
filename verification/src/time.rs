//! Time values with nanosecond resolution, as the pacing loop and the
//! packet records use them: a signed number of seconds and a nanosecond
//! part.  A value is normalized when the nanosecond part lies in
//! `[0, 1_000_000_000)`; all values built by this crate are normalized.
use vstd::prelude::*;

verus! {

pub const NANOS_PER_SEC: i64 = 1_000_000_000;

/// A point in time or an interval: `sec` seconds plus `nsec` nanoseconds.
#[derive(Clone, Copy, Debug, PartialEq, Eq, Structural)]
pub struct TimeSpec {
    pub sec: i64,
    pub nsec: i64,
}

impl TimeSpec {
    /// The value as a mathematical number of nanoseconds.
    pub open spec fn total_nanos(self) -> int {
        self.sec * (NANOS_PER_SEC as int) + self.nsec
    }

    /// Normalized form: the nanosecond part carries less than one second.
    pub open spec fn wf(self) -> bool {
        0 <= self.nsec < NANOS_PER_SEC
    }

    pub fn new(sec: i64, nsec: i64) -> (r: TimeSpec)
        ensures
            r.sec == sec,
            r.nsec == nsec,
    {
        TimeSpec { sec, nsec }
    }

    /// Sum of two normalized values, `None` exactly when no normalized
    /// value can hold the sum.  The pacing loop advances its absolute
    /// target this way.
    pub fn checked_add(self, other: TimeSpec) -> (r: Option<TimeSpec>)
        requires
            self.wf(),
            other.wf(),
        ensures
            match r {
                Some(t) => t.wf() && t.total_nanos() == self.total_nanos() + other.total_nanos(),
                None => self.total_nanos() + other.total_nanos() > i64::MAX * (NANOS_PER_SEC as int)
                    + (NANOS_PER_SEC - 1) || self.total_nanos() + other.total_nanos() < i64::MIN
                    * (NANOS_PER_SEC as int),
            },
    {
        let mut nsec: i64 = self.nsec + other.nsec;
        let mut carry: i64 = 0;
        if nsec >= NANOS_PER_SEC {
            nsec = nsec - NANOS_PER_SEC;
            carry = 1;
        }
        let total_sec: i128 = self.sec as i128 + other.sec as i128 + carry as i128;
        if total_sec > i64::MAX as i128 || total_sec < i64::MIN as i128 {
            None
        } else {
            Some(TimeSpec { sec: total_sec as i64, nsec })
        }
    }
    /// The interval `ms` milliseconds, normalized.
    pub fn from_millis(ms: u64) -> (r: TimeSpec)
        ensures
            r.wf(),
            r.total_nanos() == ms * 1_000_000,
    {
        proof {
            vstd::arithmetic::div_mod::lemma_fundamental_div_mod(ms as int, 1000);
        }
        TimeSpec { sec: (ms / 1000) as i64, nsec: ((ms % 1000) * 1_000_000) as i64 }
    }

    /// The interval `us` microseconds, normalized.
    pub fn from_micros(us: u64) -> (r: TimeSpec)
        ensures
            r.wf(),
            r.total_nanos() == us * 1000,
    {
        proof {
            vstd::arithmetic::div_mod::lemma_fundamental_div_mod(us as int, 1_000_000);
        }
        TimeSpec { sec: (us / 1_000_000) as i64, nsec: ((us % 1_000_000) * 1000) as i64 }
    }

    /// The interval `ns` nanoseconds, normalized.
    pub fn from_nanos(ns: u64) -> (r: TimeSpec)
        ensures
            r.wf(),
            r.total_nanos() == ns,
    {
        proof {
            vstd::arithmetic::div_mod::lemma_fundamental_div_mod(ns as int, 1_000_000_000);
        }
        TimeSpec { sec: (ns / 1_000_000_000) as i64, nsec: (ns % 1_000_000_000) as i64 }
    }
}

} // verus!
