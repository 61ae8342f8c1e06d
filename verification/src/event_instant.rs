//! Time stamps of events reported by the platform.
//!
//! On Linux there are several sources of time stamps (the X server, `struct input_event`
//! from evdev, and udev); each counts from its own origin, so two instants can only be
//! compared, and subtracted, when they come from the same source.

use vstd::prelude::*;
use core::cmp::Ordering;
use crate::time_utils::{
    Duration, clamp_u64, timeval_nanos, duration_from_timeval, duration_from_usecs,
    duration_to_millis, duration_to_usecs,
};

verus! {

/// A time stamp from one of the Linux time sources.
#[derive(Debug, Copy, Clone, Hash, PartialEq, Eq, Structural)]
pub enum OsEventInstant {
    /// An X server time stamp, in milliseconds.
    X11EventTimeMillis(u64),
    /// The `time` field of a Linux `struct input_event`.
    LinuxInputEventTimeval { tv_sec: i64, tv_usec: i64 },
    /// A udev time stamp, in microseconds.
    UdevUsecs(u64),
}

/// A platform-specific timestamp for an event, starting from an unspecified instant.
#[derive(Debug, Copy, Clone, Hash, PartialEq, Eq, Structural)]
pub struct EventInstant(pub OsEventInstant);

/// The ordering of two unsigned integers.
pub open spec fn u64_order(a: u64, b: u64) -> Ordering {
    if a < b { Ordering::Less } else if a == b { Ordering::Equal } else { Ordering::Greater }
}

/// The ordering of two signed integers.
pub open spec fn i64_order(a: i64, b: i64) -> Ordering {
    if a < b { Ordering::Less } else if a == b { Ordering::Equal } else { Ordering::Greater }
}

/// The ordering of two instants, or `None` when they come from different sources.
/// `timeval`s are ordered by seconds, then by microseconds.
pub open spec fn instant_order(a: OsEventInstant, b: OsEventInstant) -> Option<Ordering> {
    match (a, b) {
        (OsEventInstant::X11EventTimeMillis(x), OsEventInstant::X11EventTimeMillis(y)) =>
            Some(u64_order(x, y)),
        (OsEventInstant::UdevUsecs(x), OsEventInstant::UdevUsecs(y)) =>
            Some(u64_order(x, y)),
        (
            OsEventInstant::LinuxInputEventTimeval { tv_sec: xs, tv_usec: xu },
            OsEventInstant::LinuxInputEventTimeval { tv_sec: ys, tv_usec: yu },
        ) => if xs != ys {
            Some(i64_order(xs, ys))
        } else {
            Some(i64_order(xu, yu))
        },
        _ => None,
    }
}

/// Is `a` comparable to `b` and not earlier than it?
pub open spec fn instant_ge(a: OsEventInstant, b: OsEventInstant) -> bool {
    match instant_order(a, b) {
        Some(o) => o != Ordering::Less,
        None => false,
    }
}

/// The time elapsed from `early` to `late`, in nanoseconds, for two instants of the
/// same source (a `timeval` is read as `timeval_nanos` reads it).
pub open spec fn elapsed_nanos(late: OsEventInstant, early: OsEventInstant) -> int {
    match (late, early) {
        (OsEventInstant::X11EventTimeMillis(x), OsEventInstant::X11EventTimeMillis(y)) =>
            (x - y) * 1_000_000,
        (OsEventInstant::UdevUsecs(x), OsEventInstant::UdevUsecs(y)) => (x - y) * 1000,
        (
            OsEventInstant::LinuxInputEventTimeval { tv_sec: xs, tv_usec: xu },
            OsEventInstant::LinuxInputEventTimeval { tv_sec: ys, tv_usec: yu },
        ) => timeval_nanos(xs, xu) - timeval_nanos(ys, yu),
        _ => 0,
    }
}

/// For `timeval`s, the order of the fields agrees with the order of the spans they
/// describe; this holds of every other pair of instants. A `timeval` whose microseconds
/// reach past one second, or whose fields are negative, can break it.
pub open spec fn timevals_consistent(a: OsEventInstant, b: OsEventInstant) -> bool {
    match (a, b) {
        (
            OsEventInstant::LinuxInputEventTimeval { tv_sec: xs, tv_usec: xu },
            OsEventInstant::LinuxInputEventTimeval { tv_sec: ys, tv_usec: yu },
        ) => instant_ge(a, b) ==> timeval_nanos(xs, xu) >= timeval_nanos(ys, yu),
        _ => true,
    }
}

/// The time between two instants of the same source, whichever is earlier.
pub open spec fn abs_elapsed_nanos(a: OsEventInstant, b: OsEventInstant) -> int {
    if instant_order(a, b) == Some(Ordering::Less) {
        elapsed_nanos(b, a)
    } else {
        elapsed_nanos(a, b)
    }
}

/// `x` as a two's complement `i64` (the `as i64` conversion).
pub open spec fn u64_as_i64(x: u64) -> int {
    if x <= i64::MAX { x as int } else { x - 0x1_0000_0000_0000_0000 }
}

/// `x`, held into the range of an `i64`.
pub open spec fn clamp_i64(x: int) -> int {
    if x > i64::MAX { i64::MAX as int } else if x < i64::MIN { i64::MIN as int } else { x }
}

/// The instant `d` nanoseconds after `t`; each field saturates at the bounds of its type.
pub open spec fn instant_add_spec(t: OsEventInstant, d: nat) -> OsEventInstant {
    match t {
        OsEventInstant::X11EventTimeMillis(ms) => OsEventInstant::X11EventTimeMillis(
            clamp_u64(ms + clamp_u64((d / 1_000_000) as int)) as u64,
        ),
        OsEventInstant::UdevUsecs(us) => OsEventInstant::UdevUsecs(
            clamp_u64(us + clamp_u64((d / 1000) as int)) as u64,
        ),
        OsEventInstant::LinuxInputEventTimeval { tv_sec, tv_usec } => {
            OsEventInstant::LinuxInputEventTimeval {
                tv_sec: clamp_i64(tv_sec + u64_as_i64((d / 1_000_000_000) as u64)) as i64,
                tv_usec: clamp_i64(tv_usec + (d % 1_000_000_000) / 1000) as i64,
            }
        },
    }
}

/// The instant `d` nanoseconds before `t`; each field saturates at the bounds of its type.
pub open spec fn instant_sub_spec(t: OsEventInstant, d: nat) -> OsEventInstant {
    match t {
        OsEventInstant::X11EventTimeMillis(ms) => OsEventInstant::X11EventTimeMillis(
            clamp_u64(ms - clamp_u64((d / 1_000_000) as int)) as u64,
        ),
        OsEventInstant::UdevUsecs(us) => OsEventInstant::UdevUsecs(
            clamp_u64(us - clamp_u64((d / 1000) as int)) as u64,
        ),
        OsEventInstant::LinuxInputEventTimeval { tv_sec, tv_usec } => {
            OsEventInstant::LinuxInputEventTimeval {
                tv_sec: clamp_i64(tv_sec - u64_as_i64((d / 1_000_000_000) as u64)) as i64,
                tv_usec: clamp_i64(tv_usec - (d % 1_000_000_000) / 1000) as i64,
            }
        },
    }
}

fn saturating_add_u64(a: u64, b: u64) -> (r: u64)
    ensures
        r == clamp_u64(a + b),
{
    if a > u64::MAX - b { u64::MAX } else { a + b }
}

fn saturating_sub_u64(a: u64, b: u64) -> (r: u64)
    ensures
        r == clamp_u64(a - b),
{
    if a < b { 0 } else { a - b }
}

fn saturating_add_i64(a: i64, b: i64) -> (r: i64)
    ensures
        r == clamp_i64(a + b),
{
    match a.checked_add(b) {
        Some(v) => v,
        None => if b > 0 { i64::MAX } else { i64::MIN },
    }
}

fn saturating_sub_i64(a: i64, b: i64) -> (r: i64)
    ensures
        r == clamp_i64(a - b),
{
    match a.checked_sub(b) {
        Some(v) => v,
        None => if b > 0 { i64::MIN } else { i64::MAX },
    }
}

fn u64_to_i64_wrapping(x: u64) -> (r: i64)
    ensures
        r == u64_as_i64(x),
{
    let r: i64 = x as i64;
    assert(r == u64_as_i64(x)) by (bit_vector)
        requires
            r == x as i64,
    ;
    r
}

fn order_u64(a: u64, b: u64) -> (r: Ordering)
    ensures
        r == u64_order(a, b),
{
    if a < b {
        Ordering::Less
    } else if a == b {
        Ordering::Equal
    } else {
        Ordering::Greater
    }
}

fn order_i64(a: i64, b: i64) -> (r: Ordering)
    ensures
        r == i64_order(a, b),
{
    if a < b {
        Ordering::Less
    } else if a == b {
        Ordering::Equal
    } else {
        Ordering::Greater
    }
}

impl OsEventInstant {
    /// Compares two instants; `None` when they come from different time sources.
    pub fn partial_cmp(&self, other: &Self) -> (r: Option<Ordering>)
        ensures
            r == instant_order(*self, *other),
    {
        match (*self, *other) {
            (OsEventInstant::X11EventTimeMillis(a), OsEventInstant::X11EventTimeMillis(b)) =>
                Some(order_u64(a, b)),
            (OsEventInstant::UdevUsecs(a), OsEventInstant::UdevUsecs(b)) => Some(order_u64(a, b)),
            (
                OsEventInstant::LinuxInputEventTimeval { tv_sec: a_sec, tv_usec: a_usec },
                OsEventInstant::LinuxInputEventTimeval { tv_sec: b_sec, tv_usec: b_usec },
            ) => {
                if a_sec != b_sec {
                    Some(order_i64(a_sec, b_sec))
                } else {
                    Some(order_i64(a_usec, b_usec))
                }
            },
            _ => None,
        }
    }

    /// The time elapsed from `earlier` to `self`; both must come from the same source
    /// and `earlier` must not be later than `self`.
    pub fn duration_since(&self, earlier: Self) -> (r: Option<Duration>)
        requires
            instant_ge(*self, earlier),
            timevals_consistent(*self, earlier),
        ensures
            r matches Some(d) && d@ == elapsed_nanos(*self, earlier),
    {
        match (*self, earlier) {
            (
                OsEventInstant::X11EventTimeMillis(late),
                OsEventInstant::X11EventTimeMillis(early),
            ) => Some(Duration::from_millis(late - early)),
            (OsEventInstant::UdevUsecs(late), OsEventInstant::UdevUsecs(early)) => {
                Some(duration_from_usecs(late - early))
            },
            (
                OsEventInstant::LinuxInputEventTimeval { tv_sec: late_sec, tv_usec: late_usec },
                OsEventInstant::LinuxInputEventTimeval { tv_sec: early_sec, tv_usec: early_usec },
            ) => {
                let early_d = duration_from_timeval(early_sec, early_usec);
                let late_d = duration_from_timeval(late_sec, late_usec);
                Some(late_d.sub(early_d))
            },
            _ => None,
        }
    }

    /// The instant `rhs` after `self`, saturating.
    pub fn add(self, rhs: Duration) -> (r: Self)
        ensures
            r == instant_add_spec(self, rhs@),
    {
        match self {
            OsEventInstant::X11EventTimeMillis(ms) => OsEventInstant::X11EventTimeMillis(
                saturating_add_u64(ms, duration_to_millis(&rhs)),
            ),
            OsEventInstant::UdevUsecs(us) => OsEventInstant::UdevUsecs(
                saturating_add_u64(us, duration_to_usecs(&rhs)),
            ),
            OsEventInstant::LinuxInputEventTimeval { tv_sec, tv_usec } => {
                let secs: i64 = u64_to_i64_wrapping(rhs.as_secs());
                let usecs: i64 = (rhs.subsec_nanos() / 1000) as i64;
                OsEventInstant::LinuxInputEventTimeval {
                    tv_sec: saturating_add_i64(tv_sec, secs),
                    tv_usec: saturating_add_i64(tv_usec, usecs),
                }
            },
        }
    }

    /// The instant `rhs` before `self`, saturating.
    pub fn sub(self, rhs: Duration) -> (r: Self)
        ensures
            r == instant_sub_spec(self, rhs@),
    {
        match self {
            OsEventInstant::X11EventTimeMillis(ms) => OsEventInstant::X11EventTimeMillis(
                saturating_sub_u64(ms, duration_to_millis(&rhs)),
            ),
            OsEventInstant::UdevUsecs(us) => OsEventInstant::UdevUsecs(
                saturating_sub_u64(us, duration_to_usecs(&rhs)),
            ),
            OsEventInstant::LinuxInputEventTimeval { tv_sec, tv_usec } => {
                let secs: i64 = u64_to_i64_wrapping(rhs.as_secs());
                let usecs: i64 = (rhs.subsec_nanos() / 1000) as i64;
                OsEventInstant::LinuxInputEventTimeval {
                    tv_sec: saturating_sub_i64(tv_sec, secs),
                    tv_usec: saturating_sub_i64(tv_usec, usecs),
                }
            },
        }
    }

    /// Moves `self` forward by `rhs`, saturating.
    pub fn add_assign(&mut self, rhs: Duration)
        ensures
            *final(self) == instant_add_spec(*old(self), rhs@),
    {
        *self = self.add(rhs);
    }

    /// Moves `self` backward by `rhs`, saturating.
    pub fn sub_assign(&mut self, rhs: Duration)
        ensures
            *final(self) == instant_sub_spec(*old(self), rhs@),
    {
        *self = self.sub(rhs);
    }
}

impl EventInstant {
    /// The time elapsed from `earlier` to `self`, if both come from the same time source
    /// and `earlier` is not later than `self`; `None` otherwise.
    pub fn duration_since(&self, earlier: Self) -> (r: Option<Duration>)
        requires
            timevals_consistent(self.0, earlier.0),
        ensures
            r is Some <==> instant_ge(self.0, earlier.0),
            r matches Some(d) ==> d@ == elapsed_nanos(self.0, earlier.0),
    {
        match self.0.partial_cmp(&earlier.0) {
            None => None,
            Some(Ordering::Less) => None,
            Some(_) => self.0.duration_since(earlier.0),
        }
    }

    /// The absolute difference between `self` and `other`, if both come from the same
    /// time source; `None` otherwise.
    pub fn abs_sub(&self, other: Self) -> (r: Option<Duration>)
        requires
            timevals_consistent(self.0, other.0),
            timevals_consistent(other.0, self.0),
        ensures
            r is Some <==> instant_order(self.0, other.0) is Some,
            r matches Some(d) ==> d@ == abs_elapsed_nanos(self.0, other.0),
    {
        match self.0.partial_cmp(&other.0) {
            None => None,
            Some(Ordering::Less) => {
                proof {
                    lemma_instant_order_antisymmetric(self.0, other.0);
                }
                other.0.duration_since(self.0)
            },
            Some(_) => self.0.duration_since(other.0),
        }
    }

    /// The instant `rhs` after `self`, saturating.
    pub fn add(self, rhs: Duration) -> (r: Self)
        ensures
            r.0 == instant_add_spec(self.0, rhs@),
    {
        EventInstant(self.0.add(rhs))
    }

    /// The instant `rhs` before `self`, saturating.
    pub fn sub(self, rhs: Duration) -> (r: Self)
        ensures
            r.0 == instant_sub_spec(self.0, rhs@),
    {
        EventInstant(self.0.sub(rhs))
    }
}

/// The order of instants is antisymmetric: comparing `b` to `a` gives the reverse of
/// comparing `a` to `b`, and two instants are comparable in one direction exactly when
/// they are in the other.
pub proof fn lemma_instant_order_antisymmetric(a: OsEventInstant, b: OsEventInstant)
    ensures
        instant_order(a, b) is Some <==> instant_order(b, a) is Some,
        instant_order(a, b) == Some(Ordering::Less) <==> instant_order(b, a) == Some(Ordering::Greater),
        instant_order(a, b) == Some(Ordering::Equal) <==> instant_order(b, a) == Some(Ordering::Equal),
{
}

/// Every instant is comparable to itself, equal to itself, and no time elapses from it to
/// itself.
pub proof fn lemma_instant_order_reflexive(a: OsEventInstant)
    ensures
        instant_order(a, a) == Some(Ordering::Equal),
        elapsed_nanos(a, a) == 0,
{
}

/// The absolute difference of two instants does not depend on their order.
pub proof fn lemma_abs_sub_symmetric(a: OsEventInstant, b: OsEventInstant)
    requires
        instant_order(a, b) is Some,
    ensures
        instant_order(b, a) is Some,
        abs_elapsed_nanos(a, b) == abs_elapsed_nanos(b, a),
{
}

/// Moving a udev time stamp forward by a whole number of microseconds, then measuring the
/// time elapsed since the start, gives back that duration (unless the time stamp saturates).
pub proof fn lemma_udev_add_then_elapsed(us: u64, d: nat)
    requires
        d % 1000 == 0,
        us + d / 1000 <= u64::MAX,
    ensures
        instant_ge(
            instant_add_spec(OsEventInstant::UdevUsecs(us), d),
            OsEventInstant::UdevUsecs(us),
        ),
        elapsed_nanos(instant_add_spec(OsEventInstant::UdevUsecs(us), d), OsEventInstant::UdevUsecs(us))
            == d,
{
}

/// Moving an X server time stamp forward by a whole number of milliseconds, then measuring
/// the time elapsed since the start, gives back that duration (unless the time stamp
/// saturates).
pub proof fn lemma_x11_add_then_elapsed(ms: u64, d: nat)
    requires
        d % 1_000_000 == 0,
        ms + d / 1_000_000 <= u64::MAX,
    ensures
        instant_ge(
            instant_add_spec(OsEventInstant::X11EventTimeMillis(ms), d),
            OsEventInstant::X11EventTimeMillis(ms),
        ),
        elapsed_nanos(
            instant_add_spec(OsEventInstant::X11EventTimeMillis(ms), d),
            OsEventInstant::X11EventTimeMillis(ms),
        ) == d,
{
}

} // verus!
