use tutel::{TimeBase, Timestamp};

#[test]
fn time_base_new_keeps_components() {
    let tb = TimeBase::new(1, 48000);
    assert_eq!(tb.0, 1);
    assert_eq!(tb.1, 48000);
}

#[test]
fn checked_new_accepts_positive_components() {
    for (n, d) in [(1u32, 1u32), (1, 48000), (1001, 30000), (u32::MAX, u32::MAX)] {
        let tb = TimeBase::checked_new(n, d).expect("valid time base");
        assert_eq!((tb.0, tb.1), (n, d));
    }
}

#[test]
fn checked_new_rejects_zero_components() {
    assert!(TimeBase::checked_new(0, 1).is_none());
    assert!(TimeBase::checked_new(1, 0).is_none());
    assert!(TimeBase::checked_new(0, 0).is_none());
}

#[test]
fn rescale_one_second_to_milliseconds() {
    let src = TimeBase::new(1, 48000);
    let dst = TimeBase::new(1, 1000);
    assert_eq!(src.rescale(Timestamp(48000), dst), Timestamp(1000));
}

#[test]
fn rescale_identity_on_extremes() {
    let b = TimeBase::new(1001, 30000);
    for ts in [i64::MIN, -1, 0, 1, 12345, i64::MAX] {
        assert_eq!(b.rescale(Timestamp(ts), b), Timestamp(ts));
    }
}

#[test]
fn rescale_truncates_toward_zero() {
    let src = TimeBase::new(1, 3);
    let dst = TimeBase::new(1, 1);
    assert_eq!(src.rescale(Timestamp(5), dst), Timestamp(1));
    assert_eq!(src.rescale(Timestamp(-5), dst), Timestamp(-1));
}

#[test]
fn rescale_saturates_extreme_ratios() {
    let src = TimeBase::new(u32::MAX, 1);
    let dst = TimeBase::new(1, u32::MAX);
    assert_eq!(src.rescale(Timestamp(i64::MAX), dst), Timestamp(i64::MAX));
    assert_eq!(src.rescale(Timestamp(i64::MIN), dst), Timestamp(i64::MIN));
    assert_eq!(src.rescale(Timestamp(2), dst), Timestamp(i64::MAX));
    assert_eq!(src.rescale(Timestamp(-2), dst), Timestamp(i64::MIN));
}

#[test]
fn rescale_is_monotonic_on_samples() {
    let src = TimeBase::new(1, 30);
    let dst = TimeBase::new(1, 7);
    let mut prev = src.rescale(Timestamp(-100), dst);
    for ts in -99..100i64 {
        let r = src.rescale(Timestamp(ts), dst);
        assert!(prev.0 <= r.0);
        prev = r;
    }
}

#[test]
fn time_base_shows_as_fraction() {
    assert_eq!(TimeBase::new(1, 48000).to_string(), "1/48000");
    assert_eq!(TimeBase::new(1001, 30000).to_string(), "1001/30000");
}
