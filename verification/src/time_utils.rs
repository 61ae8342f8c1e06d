//! Durations and the conversions between them and platform time stamps.

use vstd::prelude::*;
use vstd::arithmetic::div_mod::{
    lemma_fundamental_div_mod_converse_div, lemma_fundamental_div_mod_converse_mod,
};

verus! {

/// Number of nanoseconds in a second.
pub const NANOS_PER_SEC: u32 = 1_000_000_000;

/// Largest value of a `u64`, as a mathematical integer.
pub open spec fn u64_max() -> int {
    0xffff_ffff_ffff_ffff
}

/// `x`, clamped into the range of a `u64`.
pub open spec fn clamp_u64(x: int) -> int {
    if x > u64_max() { u64_max() } else if x < 0 { 0 } else { x }
}

/// A span of time made of whole seconds and a number of nanoseconds below one second.
///
/// Its view is the whole span in nanoseconds.
#[derive(Debug, Copy, Clone, Hash, PartialEq, Eq, Structural)]
pub struct Duration {
    secs: u64,
    nanos: u32,
}

impl Duration {
    #[verifier::type_invariant]
    spec fn inv(self) -> bool {
        self.nanos < NANOS_PER_SEC
    }

    /// The whole span, in nanoseconds.
    pub closed spec fn total_nanos(self) -> nat {
        self.secs as nat * 1_000_000_000 + self.nanos as nat
    }

    /// A duration of `secs` seconds and `nanos` nanoseconds; nanoseconds beyond one
    /// second carry into the seconds.
    pub fn new(secs: u64, nanos: u32) -> (d: Duration)
        requires
            secs + nanos / 1_000_000_000 <= u64_max(),
        ensures
            d@ == secs * 1_000_000_000 + nanos,
    {
        let carry: u32 = nanos / NANOS_PER_SEC;
        let rest: u32 = nanos % NANOS_PER_SEC;
        let s: u64 = secs + carry as u64;
        Duration { secs: s, nanos: rest }
    }

    /// A duration of zero.
    pub fn zero() -> (d: Duration)
        ensures
            d@ == 0,
    {
        Duration { secs: 0, nanos: 0 }
    }

    /// Whole seconds in this duration.
    pub fn as_secs(&self) -> (r: u64)
        ensures
            r == self@ / 1_000_000_000,
    {
        proof {
            use_type_invariant(self);
            lemma_fundamental_div_mod_converse_div(
                self@ as int,
                1_000_000_000,
                self.secs as int,
                self.nanos as int,
            );
        }
        self.secs
    }

    /// Nanoseconds beyond the whole seconds of this duration.
    pub fn subsec_nanos(&self) -> (r: u32)
        ensures
            r == self@ % 1_000_000_000,
            r < NANOS_PER_SEC,
    {
        proof {
            use_type_invariant(self);
            lemma_fundamental_div_mod_converse_mod(
                self@ as int,
                1_000_000_000,
                self.secs as int,
                self.nanos as int,
            );
        }
        self.nanos
    }

    /// A duration of `ms` milliseconds.
    pub fn from_millis(ms: u64) -> (d: Duration)
        ensures
            d@ == ms * 1_000_000,
    {
        let secs: u64 = ms / 1000;
        let rest: u64 = ms % 1000;
        let nanos: u32 = (rest * 1_000_000) as u32;
        Duration { secs, nanos }
    }

    /// The difference `self - earlier`; it is not defined when `earlier` is longer.
    pub fn sub(self, earlier: Duration) -> (d: Duration)
        requires
            self@ >= earlier@,
        ensures
            d@ == self@ - earlier@,
    {
        proof {
            use_type_invariant(&self);
            use_type_invariant(&earlier);
        }
        if self.nanos >= earlier.nanos {
            Duration { secs: self.secs - earlier.secs, nanos: self.nanos - earlier.nanos }
        } else {
            Duration {
                secs: self.secs - earlier.secs - 1,
                nanos: self.nanos + NANOS_PER_SEC - earlier.nanos,
            }
        }
    }
}

impl View for Duration {
    type V = nat;

    open spec fn view(&self) -> nat {
        self.total_nanos()
    }
}

/// The span described by a `timeval` (`tv_sec`, `tv_usec`), in nanoseconds: negative
/// fields count as zero, the microseconds are multiplied by 1000 with the product held
/// at `i64::MAX`, and that product is then cut to its low 32 bits.
pub open spec fn timeval_nanos(tv_sec: i64, tv_usec: i64) -> nat {
    let secs: int = if tv_sec < 0 { 0 } else { tv_sec as int };
    let usec: int = if tv_usec < 0 { 0 } else { tv_usec as int };
    let prod: int = if usec * 1000 > i64::MAX { i64::MAX as int } else { usec * 1000 };
    (secs * 1_000_000_000 + prod % 0x1_0000_0000) as nat
}

/// The duration described by a `timeval`.
pub fn duration_from_timeval(tv_sec: i64, tv_usec: i64) -> (d: Duration)
    ensures
        d@ == timeval_nanos(tv_sec, tv_usec),
{
    let secs: u64 = if tv_sec < 0 { 0 } else { tv_sec as u64 };
    let usec: i64 = if tv_usec < 0 { 0 } else { tv_usec };
    let prod: i64 = if usec > i64::MAX / 1000 { i64::MAX } else { usec * 1000 };
    let nanos: u32 = prod as u32;
    proof {
        assert(prod >= 0);
        assert(nanos == prod % 0x1_0000_0000) by (bit_vector)
            requires
                nanos == prod as u32,
                prod >= 0,
        ;
        assert(usec > i64::MAX / 1000 <==> usec * 1000 > i64::MAX);
    }
    Duration::new(secs, nanos)
}

/// The duration of `usecs` microseconds.
pub fn duration_from_usecs(usecs: u64) -> (d: Duration)
    ensures
        d@ == usecs * 1000,
{
    let secs: u64 = usecs / 1_000_000;
    let rest: u64 = usecs - secs * 1_000_000;
    let nanos: u64 = rest * 1_000;
    Duration::new(secs, nanos as u32)
}

/// A duration in whole microseconds, held at `u64::MAX`.
pub fn duration_to_usecs(d: &Duration) -> (r: u64)
    ensures
        r == clamp_u64(d@ as int / 1000),
{
    let secs: u64 = d.as_secs();
    let nanos: u32 = d.subsec_nanos();
    proof {
        lemma_fundamental_div_mod_converse_div(
            d@ as int / 1000,
            1_000_000,
            secs as int,
            nanos as int / 1000,
        );
    }
    let a: u64 = if secs > u64::MAX / 1_000_000 { u64::MAX } else { secs * 1_000_000 };
    let b: u64 = (nanos / 1_000) as u64;
    if a > u64::MAX - b { u64::MAX } else { a + b }
}

/// A duration in whole milliseconds, held at `u64::MAX`.
pub fn duration_to_millis(d: &Duration) -> (r: u64)
    ensures
        r == clamp_u64(d@ as int / 1_000_000),
{
    let secs: u64 = d.as_secs();
    let nanos: u32 = d.subsec_nanos();
    let a: u64 = if secs > u64::MAX / 1_000 { u64::MAX } else { secs * 1_000 };
    let b: u64 = (nanos / 1_000_000) as u64;
    if a > u64::MAX - b { u64::MAX } else { a + b }
}

/// A number of microseconds made into a duration and back is unchanged.
pub proof fn lemma_usecs_round_trip(usecs: u64)
    ensures
        clamp_u64((usecs as int * 1000) / 1000) == usecs,
{
}

/// A number of milliseconds made into a duration and back is unchanged.
pub proof fn lemma_millis_round_trip(ms: u64)
    ensures
        clamp_u64((ms as int * 1_000_000) / 1_000_000) == ms,
{
}

} // verus!
