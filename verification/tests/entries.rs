use qc_traits::{
    Duration, Epoch, Polynomial, TimeCorrection, TimeCorrectionError, TimePolynomial, TimeScale,
};

/// Nanoseconds of an outside-library instant on this library's absolute
/// timeline.
fn to_abs_nanos(e: hifitime::Epoch) -> i128 {
    let base = hifitime::Epoch::from_gregorian_tai_at_midnight(2000, 1, 1);
    (e - base).total_nanoseconds()
}

#[test]
fn durations_carry_exact_nanoseconds() {
    assert_eq!(Duration::zero().nanos, 0);
    assert_eq!(Duration::from_nanoseconds(42).nanos, 42);
    assert_eq!(Duration::from_seconds(3).nanos, 3_000_000_000);
    assert_eq!(Duration::from_seconds(-2).nanos, -2_000_000_000);
    assert_eq!(Duration::from_hours(1).nanos, 3_600_000_000_000);
}

#[test]
fn construction_checks_the_reference_scale_tag() {
    let ref_epoch = Epoch::new(0, TimeScale::GST);
    let polynomial = Polynomial::zero();

    let ok = TimeCorrection::new(
        TimeScale::GST,
        TimeScale::GPST,
        ref_epoch,
        Duration::from_hours(1),
        polynomial,
    );
    assert!(ok.is_ok());
    assert_eq!(ok.unwrap().lhs_timescale, TimeScale::GST);

    let err = TimeCorrection::new(
        TimeScale::BDT,
        TimeScale::GPST,
        ref_epoch,
        Duration::from_hours(1),
        polynomial,
    );
    assert_eq!(
        err,
        Err(TimeCorrectionError::MalformedConstruction(
            TimeScale::BDT,
            TimeScale::GST
        ))
    );
}

#[test]
fn validity_window_bounds_and_applicability() {
    let entry = TimeCorrection::from_reference_epoch(
        Epoch::new(10_000, TimeScale::GST),
        Duration::from_nanoseconds(500),
        TimeScale::GPST,
        Polynomial::zero(),
    );

    let start = entry.validity_period_start();
    let end = entry.validity_period_end();
    assert_eq!(start.nanos, 9_500);
    assert_eq!(end.nanos, 10_500);
    assert_eq!(start.time_scale, TimeScale::GST);
    assert_eq!(end.time_scale, TimeScale::GST);

    assert!(entry.applies(Epoch::new(10_000, TimeScale::GST)));
    assert!(entry.applies(Epoch::new(10_499, TimeScale::GST)));
    assert!(!entry.applies(Epoch::new(10_500, TimeScale::GST)));
    assert!(!entry.applies(Epoch::new(9_500, TimeScale::GST)));
    assert!(entry.applies(Epoch::new(9_501, TimeScale::GST)));
}

#[test]
fn week_anchored_references_agree_with_the_time_library() {
    // GPS week 2086, 43200 seconds in: a concrete mid-week GPST instant.
    let entry = TimeCorrection::from_reference_time_of_week_seconds(
        2086,
        43_200,
        Duration::from_hours(1),
        TimeScale::GPST,
        TimeScale::UTC,
        Polynomial::zero(),
    );
    let expected = hifitime::Epoch::from_time_of_week(
        2086,
        43_200 * 1_000_000_000,
        hifitime::TimeScale::GPST,
    );
    assert_eq!(entry.ref_epoch.time_scale, TimeScale::GPST);
    assert_eq!(entry.ref_epoch.nanos, to_abs_nanos(expected));

    let by_nanos = TimeCorrection::from_reference_time_of_week_nanos(
        2086,
        43_200 * 1_000_000_000,
        Duration::from_hours(1),
        TimeScale::GPST,
        TimeScale::UTC,
        Polynomial::zero(),
    );
    assert_eq!(by_nanos.ref_epoch, entry.ref_epoch);

    let model = TimePolynomial::from_reference_time_of_week_seconds(
        2086,
        43_200,
        TimeScale::GPST,
        TimeScale::UTC,
        Polynomial::zero(),
    );
    assert_eq!(model.ref_epoch, entry.ref_epoch);

    let model_nanos = TimePolynomial::from_reference_time_of_week_nanos(
        2086,
        1_500,
        TimeScale::GST,
        TimeScale::GPST,
        Polynomial::zero(),
    );
    let expected_gst =
        hifitime::Epoch::from_time_of_week(2086, 1_500, hifitime::TimeScale::GST);
    assert_eq!(model_nanos.ref_epoch.time_scale, TimeScale::GST);
    assert_eq!(model_nanos.ref_epoch.nanos, to_abs_nanos(expected_gst));
}

#[test]
fn instants_relabel_without_drift() {
    let t = Epoch::new(777, TimeScale::UTC);
    let shifted = t.to_time_scale(TimeScale::BDT);
    assert_eq!(shifted.time_scale, TimeScale::BDT);
    assert_eq!(shifted.nanos, 777);
    assert!(t.is_in_range());
    assert!(!Epoch::new(i128::MAX, TimeScale::UTC).is_in_range());
}
