//! UTC instants as plain numbers, with chrono's order and nanosecond conversions.
use vstd::prelude::*;

verus! {

/// Nanoseconds in a second.
pub const NANOS_PER_SEC: i64 = 1_000_000_000;

/// A UTC instant: whole non-leap seconds since the Unix epoch, and the nanoseconds since the
/// last whole second, as chrono's `DateTime<Utc>::timestamp` and
/// `DateTime<Utc>::timestamp_subsec_nanos` report them (the nanoseconds reach
/// 1_000_000_000 or more only within a leap second).
#[derive(Debug, Clone, Copy, PartialEq, Eq, Hash, Structural)]
pub struct Timestamp {
    /// Whole non-leap seconds since 1970-01-01T00:00:00Z.
    pub secs: i64,
    /// Nanoseconds since the last whole second.
    pub nanos: u32,
}

/// `a` is at or before `b`: the order of chrono's `DateTime<Utc>`.
pub open spec fn ts_le(a: Timestamp, b: Timestamp) -> bool {
    a.secs < b.secs || (a.secs == b.secs && a.nanos <= b.nanos)
}

/// The later of two instants (the second when they are equal).
pub open spec fn ts_max(a: Timestamp, b: Timestamp) -> Timestamp {
    if ts_le(a, b) {
        b
    } else {
        a
    }
}

/// What chrono's `DateTime::timestamp_nanos_opt` computes: the nanoseconds since the epoch,
/// when both the scaled seconds and the sum fit in an `i64` (negative seconds are shifted up by
/// one first, so that instants just above `i64::MIN` nanoseconds are still representable).
pub open spec fn nanos_of(t: Timestamp) -> Option<i64> {
    let s: int = if t.secs < 0 {
        t.secs + 1
    } else {
        t.secs as int
    };
    let n: int = if t.secs < 0 {
        t.nanos - 1_000_000_000
    } else {
        t.nanos as int
    };
    if i64::MIN <= s * 1_000_000_000 <= i64::MAX && i64::MIN <= s * 1_000_000_000 + n
        <= i64::MAX {
        Some((s * 1_000_000_000 + n) as i64)
    } else {
        None
    }
}

/// What chrono's `DateTime::from_timestamp_nanos` computes: the instant `n` nanoseconds after
/// the epoch.
pub open spec fn from_nanos(n: i64) -> Timestamp {
    Timestamp { secs: (n as int / 1_000_000_000) as i64, nanos: (n as int % 1_000_000_000) as u32 }
}

/// An instant read back from the nanoseconds it was stored as is the same instant.
pub proof fn lemma_nanos_roundtrip(n: i64)
    ensures
        nanos_of(from_nanos(n)) == Some(n),
{
    let q = n as int / 1_000_000_000;
    let r = n as int % 1_000_000_000;
    vstd::arithmetic::div_mod::lemma_fundamental_div_mod(n as int, 1_000_000_000);
    assert(n == q * 1_000_000_000 + r) by (nonlinear_arith)
        requires
            n == 1_000_000_000 * q + r,
    ;
    assert(0 <= r < 1_000_000_000);
    assert(i64::MIN <= q <= i64::MAX) by (nonlinear_arith)
        requires
            n == q * 1_000_000_000 + r,
            0 <= r < 1_000_000_000,
            i64::MIN <= n <= i64::MAX,
    ;
    if q < 0 {
        assert(i64::MIN <= (q + 1) * 1_000_000_000 <= 0) by (nonlinear_arith)
            requires
                n == q * 1_000_000_000 + r,
                0 <= r < 1_000_000_000,
                i64::MIN <= n,
                q < 0,
        ;
    } else {
        assert(0 <= q * 1_000_000_000 <= n) by (nonlinear_arith)
            requires
                n == q * 1_000_000_000 + r,
                0 <= r < 1_000_000_000,
                q >= 0,
        ;
    }
}

/// Storing an instant (outside a leap second) as nanoseconds and reading it back gives the
/// same instant.
pub proof fn lemma_timestamp_roundtrip(t: Timestamp)
    requires
        t.nanos < 1_000_000_000,
        nanos_of(t) is Some,
    ensures
        from_nanos(nanos_of(t).unwrap()) == t,
{
    let v = nanos_of(t).unwrap() as int;
    assert(v == t.secs * 1_000_000_000 + t.nanos) by (nonlinear_arith)
        requires
            v == (if t.secs < 0 {
                t.secs + 1
            } else {
                t.secs as int
            }) * 1_000_000_000 + (if t.secs < 0 {
                t.nanos - 1_000_000_000
            } else {
                t.nanos as int
            }),
    ;
    vstd::arithmetic::div_mod::lemma_fundamental_div_mod_converse(
        v,
        1_000_000_000,
        t.secs as int,
        t.nanos as int,
    );
}

impl Timestamp {
    /// The instant `secs` seconds and `nanos` nanoseconds after the epoch.
    pub fn new(secs: i64, nanos: u32) -> (t: Timestamp)
        ensures
            t.secs == secs,
            t.nanos == nanos,
    {
        Timestamp { secs, nanos }
    }

    /// The earliest instant chrono represents: `DateTime::<Utc>::MIN_UTC`,
    /// -262143-01-01T00:00:00Z.
    pub open spec fn min_utc_spec() -> Timestamp {
        Timestamp { secs: -8_334_601_228_800i64, nanos: 0 }
    }

    /// The earliest instant chrono represents: `DateTime::<Utc>::MIN_UTC`,
    /// -262143-01-01T00:00:00Z.
    pub fn min_utc() -> (t: Timestamp)
        ensures
            t == Self::min_utc_spec(),
    {
        Timestamp { secs: -8_334_601_228_800i64, nanos: 0 }
    }

    /// `self` is at or before `other`.
    pub fn le(&self, other: &Timestamp) -> (r: bool)
        ensures
            r == ts_le(*self, *other),
    {
        self.secs < other.secs || (self.secs == other.secs && self.nanos <= other.nanos)
    }

    /// The later of the two instants.
    pub fn max(self, other: Timestamp) -> (r: Timestamp)
        ensures
            r == ts_max(self, other),
    {
        if self.le(&other) {
            other
        } else {
            self
        }
    }

    /// The nanoseconds since the epoch, or `None` when they do not fit in an `i64`
    /// (as chrono's `DateTime::timestamp_nanos_opt`).
    pub fn timestamp_nanos_opt(&self) -> (r: Option<i64>)
        ensures
            r == nanos_of(*self),
    {
        let mut secs = self.secs;
        let mut nanos = self.nanos as i64;
        if secs < 0 {
            nanos = nanos - NANOS_PER_SEC;
            secs = secs + 1;
        }
        match secs.checked_mul(NANOS_PER_SEC) {
            Some(scaled) => scaled.checked_add(nanos),
            None => None,
        }
    }

    /// The instant `nanos` nanoseconds after the epoch (as chrono's
    /// `DateTime::from_timestamp_nanos`).
    pub fn from_timestamp_nanos(nanos: i64) -> (t: Timestamp)
        ensures
            t == from_nanos(nanos),
    {
        let secs = nanos.checked_div_euclid(NANOS_PER_SEC).unwrap();
        let sub = nanos.checked_rem_euclid(NANOS_PER_SEC).unwrap();
        assert(0 <= sub < 1_000_000_000);
        Timestamp { secs, nanos: sub as u32 }
    }
}

} // verus!
