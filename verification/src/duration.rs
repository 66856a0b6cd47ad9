//! A span of time with nanosecond precision.
use vstd::prelude::*;

verus! {

pub const NANOS_PER_SEC: u32 = 1_000_000_000;

/// A span of time: whole seconds and the nanoseconds beyond them. Its view is
/// the total number of nanoseconds.
#[derive(Clone, Copy, Debug, PartialEq, Eq, Structural)]
pub struct Duration {
    secs: u64,
    nanos: u32,
}

impl View for Duration {
    type V = (u64, u32);

    closed spec fn view(&self) -> (u64, u32) {
        (self.secs, self.nanos)
    }
}

impl Duration {
    #[verifier::type_invariant]
    spec fn nanos_below_one_second(self) -> bool {
        self.nanos < NANOS_PER_SEC
    }

    /// Total length in nanoseconds.
    pub open spec fn total(self) -> nat {
        self@.0 as nat * 1_000_000_000 + self@.1 as nat
    }

    /// The largest length a duration can have.
    pub open spec fn max_nanos() -> nat {
        u64::MAX as nat * 1_000_000_000 + 999_999_999
    }

    /// The empty duration.
    pub fn zero() -> (r: Duration)
        ensures
            r@ == (0u64, 0u32),
    {
        Duration { secs: 0, nanos: 0 }
    }

    /// A duration of whole seconds.
    pub fn from_secs(secs: u64) -> (r: Duration)
        ensures
            r@ == (secs, 0u32),
    {
        Duration { secs, nanos: 0 }
    }

    /// A duration of whole milliseconds.
    pub fn from_millis(millis: u64) -> (r: Duration)
        ensures
            r.total() == millis * 1_000_000,
            r@ == ((millis / 1000) as u64, ((millis % 1000) * 1_000_000) as u32),
    {
        let secs = millis / 1000;
        let rem = millis % 1000;
        let nanos: u32 = (rem as u32) * 1_000_000;
        proof {
            assert(millis * 1_000_000 == secs * 1_000_000_000 + rem * 1_000_000) by (
            nonlinear_arith)
                requires
                    secs == millis / 1000,
                    rem == millis % 1000,
            ;
        }
        Duration { secs, nanos }
    }

    /// A duration of whole seconds and a fraction below one second.
    pub fn from_secs_nanos(secs: u64, nanos: u32) -> (r: Duration)
        requires
            nanos < NANOS_PER_SEC,
        ensures
            r@ == (secs, nanos),
    {
        Duration { secs, nanos }
    }

    /// Whole seconds in the duration.
    pub fn as_secs(&self) -> (r: u64)
        ensures
            r == self@.0,
            r == self.total() / 1_000_000_000,
    {
        proof {
            use_type_invariant(self);
            let v = self.secs as nat * 1_000_000_000 + self.nanos as nat;
            assert(v / 1_000_000_000 == self.secs) by (nonlinear_arith)
                requires
                    v == self.secs as nat * 1_000_000_000 + self.nanos as nat,
                    self.nanos < 1_000_000_000,
            ;
        }
        self.secs
    }

    /// Nanoseconds beyond the whole seconds.
    pub fn subsec_nanos(&self) -> (r: u32)
        ensures
            r == self@.1,
            r == self.total() % 1_000_000_000,
    {
        proof {
            use_type_invariant(self);
            let v = self.secs as nat * 1_000_000_000 + self.nanos as nat;
            assert(v % 1_000_000_000 == self.nanos) by (nonlinear_arith)
                requires
                    v == self.secs as nat * 1_000_000_000 + self.nanos as nat,
                    self.nanos < 1_000_000_000,
            ;
        }
        self.nanos
    }

    /// Whole milliseconds in the duration.
    pub fn as_millis(&self) -> (r: u128)
        ensures
            r == self.total() / 1_000_000,
    {
        proof {
            use_type_invariant(self);
            let v = self.secs as nat * 1_000_000_000 + self.nanos as nat;
            assert(v / 1_000_000 == self.secs as nat * 1000 + self.nanos as nat / 1_000_000) by (
            nonlinear_arith)
                requires
                    v == self.secs as nat * 1_000_000_000 + self.nanos as nat,
                    self.nanos < 1_000_000_000,
            ;
        }
        (self.secs as u128) * 1000 + ((self.nanos / 1_000_000) as u128)
    }

    /// The sum of two durations, or `None` when it does not fit.
    pub fn checked_add(&self, other: Duration) -> (r: Option<Duration>)
        ensures
            r matches Some(d) ==> d.total() == self.total() + other.total(),
            r is None <==> self.total() + other.total() > Self::max_nanos(),
    {
        proof {
            use_type_invariant(self);
            use_type_invariant(other);
        }
        let n: u64 = (self.nanos + other.nanos) as u64;
        let carry: u64 = if n >= 1_000_000_000 {
            1
        } else {
            0
        };
        let nanos: u32 = (n - carry * 1_000_000_000) as u32;
        let total: u128 = self.secs as u128 + other.secs as u128 + carry as u128;
        proof {
            assert(self.total() + other.total() == total * 1_000_000_000 + nanos) by (nonlinear_arith)
                requires
                    self.total() == self.secs as nat * 1_000_000_000 + self.nanos as nat,
                    other.total() == other.secs as nat * 1_000_000_000 + other.nanos as nat,
                    n == self.nanos + other.nanos,
                    nanos == n - carry * 1_000_000_000,
                    total == self.secs + other.secs + carry,
            ;
        }
        if total > u64::MAX as u128 {
            proof {
                assert(total * 1_000_000_000 + nanos > Self::max_nanos()) by (nonlinear_arith)
                    requires
                        total >= u64::MAX + 1,
                ;
            }
            None
        } else {
            proof {
                assert(total * 1_000_000_000 + nanos <= Self::max_nanos()) by (nonlinear_arith)
                    requires
                        total <= u64::MAX,
                        nanos < 1_000_000_000,
                ;
            }
            Some(Duration { secs: total as u64, nanos })
        }
    }

    /// The longest duration.
    pub fn max_duration() -> (r: Duration)
        ensures
            r.total() == Self::max_nanos(),
    {
        Duration { secs: u64::MAX, nanos: 999_999_999 }
    }

    /// Whether this duration is longer than `other`.
    pub fn is_longer_than(&self, other: &Duration) -> (r: bool)
        ensures
            r == (self.total() > other.total()),
    {
        proof {
            use_type_invariant(self);
            use_type_invariant(other);
            assert(self.secs > other.secs ==> self.total() > other.total()) by (nonlinear_arith)
                requires
                    self.total() == self.secs as nat * 1_000_000_000 + self.nanos as nat,
                    other.total() == other.secs as nat * 1_000_000_000 + other.nanos as nat,
                    self.nanos < 1_000_000_000,
                    other.nanos < 1_000_000_000,
            ;
            assert(self.secs < other.secs ==> self.total() < other.total()) by (nonlinear_arith)
                requires
                    self.total() == self.secs as nat * 1_000_000_000 + self.nanos as nat,
                    other.total() == other.secs as nat * 1_000_000_000 + other.nanos as nat,
                    self.nanos < 1_000_000_000,
                    other.nanos < 1_000_000_000,
            ;
        }
        self.secs > other.secs || (self.secs == other.secs && self.nanos > other.nanos)
    }

    /// The sum of two durations, or the longest duration when it does not
    /// fit.
    pub fn saturating_add(&self, other: Duration) -> (r: Duration)
        ensures
            r.total() == if self.total() + other.total() > Self::max_nanos() {
                Self::max_nanos()
            } else {
                self.total() + other.total()
            },
    {
        match self.checked_add(other) {
            Some(d) => d,
            None => Self::max_duration(),
        }
    }

    /// The difference of two durations, or zero when `other` is longer.
    pub fn saturating_sub(&self, other: Duration) -> (r: Duration)
        ensures
            r.total() == if self.total() >= other.total() {
                self.total() - other.total()
            } else {
                0
            },
    {
        proof {
            use_type_invariant(self);
            use_type_invariant(other);
        }
        if other.is_longer_than(self) {
            return Duration { secs: 0, nanos: 0 };
        }
        let (secs, nanos): (u64, u32) = if self.nanos >= other.nanos {
            (self.secs - other.secs, self.nanos - other.nanos)
        } else {
            proof {
                assert(self.secs > other.secs) by (nonlinear_arith)
                    requires
                        self.total() >= other.total(),
                        self.total() == self.secs as nat * 1_000_000_000 + self.nanos as nat,
                        other.total() == other.secs as nat * 1_000_000_000 + other.nanos as nat,
                        self.nanos < other.nanos,
                        other.nanos < 1_000_000_000,
                ;
            }
            (self.secs - other.secs - 1, self.nanos + 1_000_000_000 - other.nanos)
        };
        proof {
            assert(self.secs >= other.secs) by (nonlinear_arith)
                requires
                    self.total() >= other.total(),
                    self.total() == self.secs as nat * 1_000_000_000 + self.nanos as nat,
                    other.total() == other.secs as nat * 1_000_000_000 + other.nanos as nat,
                    self.nanos < 1_000_000_000,
                    other.nanos < 1_000_000_000,
            ;
            assert(secs as nat * 1_000_000_000 + nanos as nat == self.total() - other.total()) by (
            nonlinear_arith)
                requires
                    self.total() == self.secs as nat * 1_000_000_000 + self.nanos as nat,
                    other.total() == other.secs as nat * 1_000_000_000 + other.nanos as nat,
                    self.nanos >= other.nanos ==> secs == self.secs - other.secs && nanos
                        == self.nanos - other.nanos,
                    self.nanos < other.nanos ==> secs == self.secs - other.secs - 1 && nanos
                        == self.nanos + 1_000_000_000 - other.nanos,
            ;
        }
        Duration { secs, nanos }
    }
}

} // verus!
