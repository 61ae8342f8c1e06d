use dmc::event_instant::{EventInstant, OsEventInstant};
use dmc::time_utils::{
    duration_from_timeval, duration_from_usecs, duration_to_millis, duration_to_usecs, Duration,
};
use std::cmp::Ordering;

#[test]
fn duration_new_carries_nanoseconds() {
    let d = Duration::new(1, 2_500_000_000);
    assert_eq!(d.as_secs(), 3);
    assert_eq!(d.subsec_nanos(), 500_000_000);
}

#[test]
fn duration_conversions() {
    let d = Duration::from_millis(1_234);
    assert_eq!(d.as_secs(), 1);
    assert_eq!(d.subsec_nanos(), 234_000_000);
    assert_eq!(duration_to_millis(&d), 1_234);
    assert_eq!(duration_to_usecs(&d), 1_234_000);
    let u = duration_from_usecs(2_000_003);
    assert_eq!(u.as_secs(), 2);
    assert_eq!(u.subsec_nanos(), 3_000);
    let t = duration_from_timeval(5, 250_000);
    assert_eq!(duration_to_usecs(&t), 5_250_000);
}

#[test]
fn duration_to_millis_saturates() {
    let d = Duration::new(u64::MAX, 999_999_999);
    assert_eq!(duration_to_millis(&d), u64::MAX);
    assert_eq!(duration_to_usecs(&d), u64::MAX);
}

#[test]
fn duration_sub() {
    let a = Duration::from_millis(1_500);
    let b = Duration::from_millis(700);
    let c = a.sub(b);
    assert_eq!(duration_to_millis(&c), 800);
}

#[test]
fn instants_of_one_source_are_ordered() {
    let a = OsEventInstant::UdevUsecs(10);
    let b = OsEventInstant::UdevUsecs(20);
    assert_eq!(a.partial_cmp(&b), Some(Ordering::Less));
    assert_eq!(b.partial_cmp(&a), Some(Ordering::Greater));
    assert_eq!(a.partial_cmp(&a), Some(Ordering::Equal));
    let t1 = OsEventInstant::LinuxInputEventTimeval { tv_sec: 1, tv_usec: 900_000 };
    let t2 = OsEventInstant::LinuxInputEventTimeval { tv_sec: 2, tv_usec: 100 };
    assert_eq!(t1.partial_cmp(&t2), Some(Ordering::Less));
}

#[test]
fn instants_of_different_sources_are_not_ordered() {
    let a = OsEventInstant::UdevUsecs(10);
    let b = OsEventInstant::X11EventTimeMillis(10);
    assert_eq!(a.partial_cmp(&b), None);
    assert!(EventInstant(a).duration_since(EventInstant(b)).is_none());
}

#[test]
fn duration_since_and_abs_sub() {
    let a = EventInstant(OsEventInstant::X11EventTimeMillis(1_000));
    let b = EventInstant(OsEventInstant::X11EventTimeMillis(1_250));
    let d = b.duration_since(a).unwrap();
    assert_eq!(duration_to_millis(&d), 250);
    assert!(a.duration_since(b).is_none());
    assert_eq!(duration_to_millis(&a.abs_sub(b).unwrap()), 250);
    assert_eq!(duration_to_millis(&b.abs_sub(a).unwrap()), 250);
    let t1 = EventInstant(OsEventInstant::LinuxInputEventTimeval { tv_sec: 1, tv_usec: 900_000 });
    let t2 = EventInstant(OsEventInstant::LinuxInputEventTimeval { tv_sec: 2, tv_usec: 100_000 });
    assert_eq!(duration_to_usecs(&t2.duration_since(t1).unwrap()), 200_000);
}

#[test]
fn adding_then_measuring_gives_the_duration_back() {
    let a = EventInstant(OsEventInstant::UdevUsecs(1_000));
    let b = a.add(Duration::from_millis(3));
    assert_eq!(b, EventInstant(OsEventInstant::UdevUsecs(4_000)));
    assert_eq!(duration_to_usecs(&b.duration_since(a).unwrap()), 3_000);
    let c = b.sub(Duration::from_millis(3));
    assert_eq!(c, a);
    let x = EventInstant(OsEventInstant::X11EventTimeMillis(5));
    assert_eq!(x.add(Duration::from_millis(7)), EventInstant(OsEventInstant::X11EventTimeMillis(12)));
}
