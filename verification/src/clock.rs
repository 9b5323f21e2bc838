//! Points in time, counted in microseconds since the Unix epoch.

use vstd::prelude::*;

verus! {

pub const MICROS_PER_SECOND: i64 = 1_000_000;

pub const MICROS_PER_MINUTE: i64 = 60_000_000;

pub const MICROS_PER_DAY: i64 = 86_400_000_000;

/// A point in time: microseconds since 1970-01-01T00:00:00Z.
#[derive(Clone, Copy, Debug, PartialEq, Eq, Structural, Hash)]
pub struct Timestamp {
    pub micros: i64,
}

/// `v`, or the nearest bound of `i64` where `v` lies outside.
pub open spec fn clamp_i64(v: int) -> i64 {
    if v > i64::MAX {
        i64::MAX
    } else if v < i64::MIN {
        i64::MIN
    } else {
        v as i64
    }
}

/// `v` as an `i64`, held at the bounds.
pub fn clamp_to_i64(v: i128) -> (r: i64)
    ensures
        r == clamp_i64(v as int),
{
    if v > i64::MAX as i128 {
        i64::MAX
    } else if v < i64::MIN as i128 {
        i64::MIN
    } else {
        v as i64
    }
}

/// `chrono::Utc::now`, as microseconds since the epoch. The value is the
/// system clock's, so nothing is stated of it. The call does not return
/// where the system clock stands before 1970.
#[verifier::external_body]
fn utc_now() -> Timestamp {
    Timestamp { micros: chrono::Utc::now().timestamp_micros() }
}

impl Timestamp {
    /// The moment `delta` microseconds after this one, held at the bounds.
    pub open spec fn spec_plus(self, delta: int) -> Timestamp {
        Timestamp { micros: clamp_i64(self.micros + delta) }
    }

    /// Whole seconds since the epoch, rounded down.
    pub open spec fn spec_unix_seconds(self) -> int {
        self.micros as int / 1_000_000
    }

    pub fn from_micros(micros: i64) -> (t: Timestamp)
        ensures
            t.micros == micros,
    {
        Timestamp { micros }
    }

    /// The current time of the system clock.
    pub fn now() -> Timestamp {
        utc_now()
    }

    /// The moment `delta` microseconds later, held at the bounds of `i64`.
    pub fn plus_micros(self, delta: i64) -> (t: Timestamp)
        ensures
            t == self.spec_plus(delta as int),
    {
        Timestamp { micros: clamp_to_i64(self.micros as i128 + delta as i128) }
    }

    /// The moment `minutes` minutes later, held at the bounds of `i64`.
    pub fn plus_minutes(self, minutes: i64) -> (t: Timestamp)
        ensures
            t == self.spec_plus(minutes * MICROS_PER_MINUTE),
    {
        Timestamp {
            micros: clamp_to_i64(self.micros as i128 + minutes as i128 * 60_000_000i128),
        }
    }

    /// The moment `days` days later, held at the bounds of `i64`.
    pub fn plus_days(self, days: i64) -> (t: Timestamp)
        ensures
            t == self.spec_plus(days * MICROS_PER_DAY),
    {
        Timestamp {
            micros: clamp_to_i64(self.micros as i128 + days as i128 * 86_400_000_000i128),
        }
    }

    pub fn is_before(self, other: Timestamp) -> (b: bool)
        ensures
            b == (self.micros < other.micros),
    {
        self.micros < other.micros
    }

    pub fn unix_seconds(self) -> (s: i64)
        ensures
            s == self.spec_unix_seconds(),
    {
        match self.micros.checked_div_euclid(MICROS_PER_SECOND) {
            Some(s) => s,
            None => 0,
        }
    }
}

} // verus!
