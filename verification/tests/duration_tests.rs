use coarsetime::Duration;

#[test]
fn no_overflow() {
    let _: u64 = Duration::from_ticks(u64::MAX).as_millis();
    let _: u64 = Duration::from_ticks(u64::MAX).as_micros();
    let _: u64 = Duration::from_ticks(u64::MAX).as_nanos();
    let _: u32 = Duration::from_ticks(u64::MAX).subsec_nanos();
}

#[test]
fn wide_conversions_exact_at_max() {
    let d = Duration::from_ticks(u64::MAX);
    assert_eq!(d.as_millis(), 4_294_967_295_999);
    assert_eq!(d.as_micros(), 4_294_967_295_999_999);
    assert_eq!(d.as_nanos(), 4_294_967_295_999_999_999);
    assert_eq!(d.subsec_nanos(), 999_999_999);
}

#[test]
fn secs_round_trip() {
    for s in [0u64, 1, 59, 3600, 86400, 4_294_967_295] {
        assert_eq!(Duration::from_secs(s).as_secs(), s);
    }
}

#[test]
fn millis_round_trip() {
    for ms in [0u64, 1, 999, 1000, 1500, 86_400_000, 4_294_967_295_999] {
        assert_eq!(Duration::from_millis(ms).as_millis(), ms);
    }
    assert_eq!(Duration::from_millis(1500).as_secs(), 1);
}

#[test]
fn new_carries_excess_nanoseconds() {
    let d = Duration::new(1, 1_500_000_000);
    assert_eq!(d.as_secs(), 2);
    assert_eq!(d.subsec_nanos(), 500_000_000);
    let plain = Duration::new(3, 250_000_000);
    assert_eq!(plain.as_secs(), 3);
    assert_eq!(plain.as_millis(), 3250);
    let carry_saturates = Duration::new(u64::MAX, 2_000_000_000);
    assert_eq!(carry_saturates.as_ticks(), u64::MAX);
}

#[test]
fn calendar_units() {
    assert_eq!(Duration::from_days(1).as_secs(), 86400);
    assert_eq!(Duration::from_days(1).as_hours(), 24);
    assert_eq!(Duration::from_hours(2).as_mins(), 120);
    assert_eq!(Duration::from_hours(48).as_days(), 2);
    assert_eq!(Duration::from_mins(3).as_secs(), 180);
    assert_eq!(Duration::from_days(u64::MAX).as_ticks(), u64::MAX);
}

#[test]
fn addition_saturates_near_the_top() {
    let half = Duration::from_secs(0x8000_0000);
    assert_eq!(half.as_ticks(), 1u64 << 63);
    let sum = half.saturating_add(half);
    assert_eq!(sum.as_ticks(), u64::MAX);
    let small = Duration::from_secs(1).saturating_add(Duration::from_secs(2));
    assert_eq!(small.as_secs(), 3);
}

#[test]
fn subtraction_saturates_at_zero() {
    let d = Duration::from_secs(1).saturating_sub(Duration::from_secs(2));
    assert_eq!(d.as_ticks(), 0);
    let e = Duration::from_secs(5).saturating_sub(Duration::from_secs(2));
    assert_eq!(e.as_secs(), 3);
}

#[test]
fn scalar_multiplication_and_division() {
    assert_eq!(Duration::from_secs(3).saturating_mul(2).as_secs(), 6);
    assert_eq!(
        Duration::from_ticks(1u64 << 63).saturating_mul(4).as_ticks(),
        u64::MAX
    );
    assert_eq!(Duration::from_secs(10).saturating_div(2).as_secs(), 5);
    assert_eq!(
        Duration::from_secs(10).saturating_div(0).as_ticks(),
        u64::MAX
    );
}

#[test]
fn absolute_difference() {
    let a = Duration::from_secs(5);
    let b = Duration::from_secs(3);
    assert_eq!(a.abs_diff(b).as_secs(), 2);
    assert_eq!(b.abs_diff(a).as_secs(), 2);
    assert_eq!(a.abs_diff(a).as_ticks(), 0);
}

#[test]
fn raw_value_round_trip() {
    assert_eq!(Duration::from_u64(123).as_u64(), 123);
    assert_eq!(Duration::from_ticks(456).as_ticks(), 456);
    assert_eq!(Duration::default().as_ticks(), 0);
}

#[test]
fn operators_saturate_like_the_named_methods() {
    let half = Duration::from_secs(0x8000_0000);
    assert_eq!((half + half).as_ticks(), u64::MAX);
    assert_eq!(
        (Duration::from_secs(1) - Duration::from_secs(2)).as_ticks(),
        0
    );
    assert_eq!((Duration::from_secs(1) + Duration::from_secs(2)).as_secs(), 3);
    assert_eq!((Duration::from_secs(3) * 2).as_secs(), 6);
    assert_eq!((Duration::from_secs(10) / 2).as_secs(), 5);
    assert_eq!((Duration::from_secs(10) / 0).as_ticks(), u64::MAX);
}

#[test]
fn compound_assignment_operators() {
    let mut d = Duration::from_secs(1);
    d += Duration::from_secs(2);
    assert_eq!(d.as_secs(), 3);
    d -= Duration::from_secs(5);
    assert_eq!(d.as_ticks(), 0);
    let mut m = Duration::from_secs(3);
    m *= 2;
    assert_eq!(m.as_secs(), 6);
    m /= 3;
    assert_eq!(m.as_secs(), 2);
    m /= 0;
    assert_eq!(m.as_ticks(), u64::MAX);
    let mut top = Duration::from_ticks(u64::MAX);
    top += Duration::from_secs(1);
    assert_eq!(top.as_ticks(), u64::MAX);
}

#[test]
fn ordering_follows_the_encoded_value() {
    assert!(Duration::from_secs(2) > Duration::from_secs(1));
    assert!(Duration::from_millis(500) < Duration::from_secs(1));
    assert_eq!(Duration::from_secs(1), Duration::from_millis(1000));
}
