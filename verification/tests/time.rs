use dos_std::time::Duration;
use dos_std::time::Instant;
use dos_std::time::MonotonicClock;
use dos_std::time::SystemTime;
use dos_std::time::DAY_TICKS;

#[test]
fn monotonic_nondecreasing_readings_pass_through() {
    let mut clock = MonotonicClock::new();
    let readings: [u32; 5] = [0, 5, 5, 10, 4_000_000];
    for &raw in readings.iter() {
        let i = clock.now(raw);
        assert_eq!(i.ticks, raw as u64);
        assert_eq!(clock.offset, 0);
    }
}

#[test]
fn wraparound_adds_one_day_of_ticks() {
    let mut clock = MonotonicClock::new();
    let first = clock.now(100);
    assert_eq!(first.ticks, 100);
    let second = clock.now(50);
    assert_eq!(clock.offset, DAY_TICKS);
    assert_eq!(second.ticks, DAY_TICKS + 50);
    assert!(second.ticks > first.ticks);
}

#[test]
fn wraparound_is_detected_once_per_regression() {
    let mut clock = MonotonicClock::new();
    clock.now(100);
    clock.now(50);
    // A later, larger reading must not add another day.
    let third = clock.now(80);
    assert_eq!(clock.offset, DAY_TICKS);
    assert_eq!(third.ticks, DAY_TICKS + 80);
}

#[test]
fn first_call_establishes_baseline() {
    let mut clock = MonotonicClock::new();
    let i = clock.now(12345);
    assert_eq!(i.ticks, 12345);
    assert_eq!(clock.last_ticks, 12345);
    assert_eq!(clock.offset, 0);
}

#[test]
fn checked_duration_since_converts_exactly() {
    let a = Instant { ticks: 25 };
    let b = Instant { ticks: 5 };
    let d = a.checked_duration_since(b).unwrap();
    assert_eq!(d.secs, 1);
    assert_eq!(d.nanos, 110_000_000);
}

#[test]
fn checked_duration_since_underflow_is_none() {
    let a = Instant { ticks: 5 };
    let b = Instant { ticks: 25 };
    assert!(a.checked_duration_since(b).is_none());
    // Not-quite-underflow of zero ticks is Some(zero).
    let d = a.checked_duration_since(a).unwrap();
    assert_eq!(d, Duration::zero());
}

#[test]
fn saturating_duration_since_is_total() {
    let a = Instant { ticks: 5 };
    let b = Instant { ticks: 25 };
    assert_eq!(a.saturating_duration_since(b), Duration::zero());
    assert_eq!(a.duration_since(b), Duration::zero());
    let d = b.saturating_duration_since(a);
    assert_eq!(d.secs, 1);
    assert_eq!(d.nanos, 110_000_000);
}

#[test]
fn elapsed_measures_from_later_instant() {
    let earlier = Instant { ticks: 18 };
    let now = Instant { ticks: 54 };
    let d = earlier.elapsed(now);
    assert_eq!(d.secs, 2);
    assert_eq!(d.nanos, 0);
}

#[test]
fn instant_checked_add_converts_duration_to_ticks() {
    let i = Instant { ticks: 10 };
    // 2 s and 110 ms: 36 ticks plus 2 ticks.
    let d = Duration::new(2, 110_000_000);
    let j = i.checked_add(d).unwrap();
    assert_eq!(j.ticks, 10 + 38);
}

#[test]
fn instant_round_trip_add_sub() {
    let i = Instant { ticks: 1_000_000 };
    let d = Duration::new(3600, 123_000_000);
    let j = i.checked_add(d).unwrap();
    let k = j.checked_sub(d).unwrap();
    assert_eq!(k, i);
}

#[test]
fn instant_add_sub_named_operators() {
    let i = Instant { ticks: 360 };
    let d = Duration::from_secs(10);
    let j = i.add(d);
    assert_eq!(j.ticks, 540);
    assert_eq!(j.sub(d), i);
    assert_eq!(i.sub_instant(j), Duration::zero());
    let back = j.sub_instant(i);
    assert_eq!(back, Duration::from_secs(10));
}

#[test]
fn instant_checked_add_overflow_is_none() {
    let i = Instant {
        ticks: u64::MAX - 5,
    };
    let d = Duration::from_secs(1000);
    assert!(i.checked_add(d).is_none());
}

#[test]
fn instant_checked_sub_underflow_is_none() {
    let i = Instant { ticks: 17 };
    let d = Duration::from_secs(1);
    assert!(i.checked_sub(d).is_none());
}

#[test]
fn system_time_now_builds_from_time_of_day() {
    let t = SystemTime::now(1, 2, 3);
    assert_eq!(t.unix, 315_532_800 + 3600 + 120 + 3);
}

#[test]
fn system_time_duration_since_ordered() {
    let earlier = SystemTime { unix: 100 };
    let later = SystemTime { unix: 150 };
    let d = later.duration_since(earlier).unwrap();
    assert_eq!(d, Duration::from_secs(50));
}

#[test]
fn system_time_duration_since_reversed_is_error() {
    let earlier = SystemTime { unix: 150 };
    let later = SystemTime { unix: 100 };
    let e = later.duration_since(earlier).unwrap_err();
    assert_eq!(e.duration(), Duration::from_secs(50));
}

#[test]
fn system_time_equal_times_give_zero() {
    let t = SystemTime { unix: 77 };
    let d = t.duration_since(t).unwrap();
    assert_eq!(d, Duration::zero());
}

#[test]
fn system_time_elapsed_matches_duration_since() {
    let t = SystemTime { unix: 100 };
    let now = SystemTime { unix: 160 };
    assert_eq!(t.elapsed(now).unwrap(), Duration::from_secs(60));
    let before = SystemTime { unix: 40 };
    let e = t.elapsed(before).unwrap_err();
    assert_eq!(e.duration(), Duration::from_secs(60));
}

#[test]
fn system_time_checked_add_and_sub() {
    let t = SystemTime { unix: 1000 };
    let d = Duration::new(500, 999_999_999);
    // Sub-second parts are discarded.
    let u = t.checked_add(d).unwrap();
    assert_eq!(u.unix, 1500);
    assert_eq!(u.checked_sub(d).unwrap(), t);
}

#[test]
fn system_time_checked_add_overflow_is_none() {
    let t = SystemTime { unix: u32::MAX - 5 };
    assert!(t.checked_add(Duration::from_secs(10)).is_none());
}

#[test]
fn system_time_checked_sub_underflow_is_none() {
    let t = SystemTime { unix: 5 };
    assert!(t.checked_sub(Duration::from_secs(10)).is_none());
}

#[test]
fn system_time_round_trip_add_sub() {
    let t = SystemTime { unix: 123_456 };
    let d = Duration::from_secs(789);
    let u = t.checked_add(d).unwrap();
    assert_eq!(u.checked_sub(d).unwrap(), t);
}

#[test]
fn system_time_named_operators() {
    let t = SystemTime { unix: 100 };
    let d = Duration::from_secs(30);
    let u = t.add(d);
    assert_eq!(u.unix, 130);
    assert_eq!(u.sub(d), t);
}

#[test]
fn unix_epoch_is_zero() {
    assert_eq!(SystemTime::unix_epoch().unix, 0);
}

#[test]
fn duration_accessors() {
    let d = Duration::new(7, 42);
    assert_eq!(d.as_secs(), 7);
    assert_eq!(d.subsec_nanos(), 42);
    assert!(!d.is_zero());
    assert!(Duration::default().is_zero());
    assert_eq!(Duration::from_secs(7).as_secs(), 7);
    assert_eq!(Duration::from_secs(7).subsec_nanos(), 0);
}

#[test]
fn instant_assign_operators() {
    let mut i = Instant { ticks: 100 };
    i.add_assign(Duration::from_secs(1));
    assert_eq!(i.ticks, 118);
    i.sub_assign(Duration::from_secs(1));
    assert_eq!(i.ticks, 100);
    let mut t = SystemTime { unix: 10 };
    t.add_assign(Duration::from_secs(5));
    assert_eq!(t.unix, 15);
    t.sub_assign(Duration::from_secs(5));
    assert_eq!(t.unix, 10);
}

#[test]
fn system_time_checked_add_huge_seconds_is_none() {
    let t = SystemTime { unix: 7 };
    let d = Duration::from_secs(4_294_967_296);
    assert!(t.checked_add(d).is_none());
    assert!(t.checked_sub(d).is_none());
    let exact = Duration::from_secs(u32::MAX as u64 - 7);
    assert_eq!(t.checked_add(exact).unwrap().unix, u32::MAX);
}

#[test]
fn instant_checked_add_huge_conversion_is_none() {
    let i = Instant { ticks: 0 };
    let d = Duration::new(u64::MAX, 999_999_999);
    assert!(i.checked_add(d).is_none());
    let top = Instant { ticks: u64::MAX };
    assert!(top.checked_sub(d).is_none());
}

#[test]
fn mixed_seed_folds_readings() {
    let s = dos_std::random::mix_seed(0x00010000, 0x0F, 0x0001, 0x0002);
    assert_eq!(s, 0x00010000 ^ 0x0F ^ ((0x0001u32 << 4) | 0x0002));
}
