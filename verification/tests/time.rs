use astrokit::time::{Duration, Error, Instant, Tai, TimeInterval, Tt, NANOSECONDS_PER_DAY};

#[test]
fn duration_from_microseconds_scales_exactly() {
    let d = Duration::from_microseconds(1_500).unwrap();
    assert_eq!(d.as_nanoseconds(), 1_500_000);
    assert!(matches!(Duration::from_microseconds(i128::MAX), Err(Error::Overflow { .. })));
}

#[test]
fn duration_magnitude_and_negation() {
    assert_eq!(Duration::from_nanoseconds(-7).checked_abs().unwrap().as_nanoseconds(), 7);
    assert_eq!(Duration::from_nanoseconds(7).checked_abs().unwrap().as_nanoseconds(), 7);
    assert!(matches!(Duration::from_nanoseconds(i128::MIN).checked_abs(), Err(Error::Overflow { .. })));
    assert_eq!(Duration::from_nanoseconds(9).checked_neg().unwrap().as_nanoseconds(), -9);
    assert!(Duration::from_nanoseconds(i128::MIN).checked_neg().is_err());
}

#[test]
fn duration_sum_minimum_and_maximum() {
    let a = Duration::from_nanoseconds(3);
    let b = Duration::from_nanoseconds(-5);
    assert_eq!(a.checked_add(b).unwrap().as_nanoseconds(), -2);
    assert!(Duration::from_nanoseconds(i128::MAX).checked_add(a).is_err());
    assert_eq!(a.min(b), b);
    assert_eq!(a.max(b), a);
    assert_eq!(Duration::zero().as_nanoseconds(), 0);
}

#[test]
fn instant_advance_round_trip() {
    let t = Instant::<Tai>::from_tai_nanoseconds_since_1900(1_000);
    let d = Duration::from_nanoseconds(NANOSECONDS_PER_DAY);
    let later = t.checked_add(d).unwrap();
    assert_eq!(later.tai_nanoseconds_since_1900(), 1_000 + NANOSECONDS_PER_DAY);
    assert_eq!(later.duration_since(t).unwrap(), d);
    assert_eq!(later.checked_sub(d).unwrap(), t);
    assert!(t.is_before(later));
    assert!(!later.is_before(t));
    assert!(t.same_instant(Instant::<Tai>::from_tai_nanoseconds_since_1900(1_000)));
}

#[test]
fn instant_arithmetic_overflow_is_reported() {
    let t = Instant::<Tt>::from_tai_nanoseconds_since_1900(i128::MAX);
    assert!(matches!(t.checked_add(Duration::from_nanoseconds(1)), Err(Error::Overflow { .. })));
    let u = Instant::<Tt>::from_tai_nanoseconds_since_1900(i128::MIN);
    assert!(u.checked_sub(Duration::from_nanoseconds(1)).is_err());
    assert!(t.duration_since(u).is_err());
}

#[test]
fn interval_rejects_inverted_bounds() {
    let a = Instant::<Tai>::from_tai_nanoseconds_since_1900(10);
    let b = Instant::<Tai>::from_tai_nanoseconds_since_1900(25);
    let interval = TimeInterval::new(a, b).unwrap();
    assert_eq!(interval.start(), a);
    assert_eq!(interval.end(), b);
    assert_eq!(interval.duration().unwrap().as_nanoseconds(), 15);
    assert_eq!(
        TimeInterval::new(b, a),
        Err(Error::InvertedInterval { start_tai_nanoseconds: 25, end_tai_nanoseconds: 10 })
    );
    assert!(TimeInterval::new(a, a).is_ok());
}
