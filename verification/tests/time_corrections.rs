use std::str::FromStr;

use qc_traits::{
    Duration, Epoch, Merge, Polynomial, TimeCorrection, TimeCorrectionError, TimeCorrectionsDB,
    TimeScale, Timeshift,
};

/// Nanoseconds of an instant on this library's absolute timeline, read from
/// a textual date through the outside time library.
fn abs_nanos(s: &str) -> i128 {
    let e = hifitime::Epoch::from_str(s).unwrap();
    let base = hifitime::Epoch::from_gregorian_tai_at_midnight(2000, 1, 1);
    (e - base).total_nanoseconds()
}

fn epoch_of(s: &str, ts: TimeScale) -> Epoch {
    Epoch::new(abs_nanos(s), ts)
}

#[test]
fn time_corrections_db_without_strict_validity() {
    let t_ref_gpst = epoch_of("2020-01-01T00:00:00 GPST", TimeScale::GPST);

    let polynomial = Polynomial {
        constant: 1,
        rate: 0,
        accel: 0,
    };

    let mut database = TimeCorrectionsDB::default();

    database.add(TimeCorrection {
        lhs_timescale: TimeScale::GST,
        rhs_timescale: TimeScale::GPST,
        ref_epoch: t_ref_gpst,
        polynomial,
        validity_period: Duration::from_hours(1),
    });

    // Random date in GST
    let t_gst = epoch_of("2020-01-01T00:00:00 GST", TimeScale::GST);

    let t_gst_gpst = database
        .precise_epoch_correction(t_gst, TimeScale::GPST)
        .unwrap();

    assert_eq!(t_gst_gpst.time_scale, TimeScale::GPST);

    // Random date in GPST
    let t_gpst = epoch_of("2020-01-01T00:00:10 GPST", TimeScale::GPST);

    let t_gpst_gst = database
        .precise_epoch_correction(t_gpst, TimeScale::GST)
        .unwrap();

    assert_eq!(t_gpst_gst.time_scale, TimeScale::GST);

    // Random date in UTC
    let t_utc = epoch_of("2020-01-01T00:00:10 UTC", TimeScale::UTC);

    assert!(database
        .precise_epoch_correction(t_utc, TimeScale::GST)
        .is_none());

    assert!(database
        .precise_epoch_correction(t_utc, TimeScale::GPST)
        .is_none());
}

#[test]
fn identity_correction_returns_the_instant_unchanged() {
    let database = TimeCorrectionsDB::default();
    let t = Epoch::new(123_456_789, TimeScale::UTC);
    assert_eq!(
        database.precise_epoch_correction(t, TimeScale::UTC),
        Some(t)
    );
}

#[test]
fn direct_round_trip_recovers_the_instant() {
    let ref_epoch = Epoch::new(0, TimeScale::GST);
    let entry = TimeCorrection::from_reference_epoch(
        ref_epoch,
        Duration::from_hours(1),
        TimeScale::GPST,
        Polynomial {
            constant: 17,
            rate: 0,
            accel: 0,
        },
    );

    let mut database = TimeCorrectionsDB::default();
    database.add(entry);

    let t = Epoch::new(42_000, TimeScale::GST);
    let forward = database
        .precise_epoch_correction(t, TimeScale::GPST)
        .unwrap();
    assert_eq!(forward, Epoch::new(42_000 - 17, TimeScale::GPST));

    let back = database
        .precise_epoch_correction(forward, TimeScale::GST)
        .unwrap();
    assert_eq!(back, t);
}

#[test]
fn forward_and_reverse_displacements_negate() {
    let ref_epoch = Epoch::new(1_000_000, TimeScale::GST);
    let entry = TimeCorrection::from_reference_epoch(
        ref_epoch,
        Duration::from_hours(1),
        TimeScale::GPST,
        Polynomial {
            constant: 250,
            rate: 3,
            accel: 0,
        },
    );

    let mut database = TimeCorrectionsDB::default();
    database.add(entry);

    // Same instant difference to the reference, once tagged with the source
    // scale and once with the destination scale.
    let t_fwd = Epoch::new(3_000_000_000, TimeScale::GST);
    let t_rev = Epoch::new(3_000_000_000, TimeScale::GPST);

    let forward = database
        .precise_epoch_correction(t_fwd, TimeScale::GPST)
        .unwrap();
    let reverse = database
        .precise_epoch_correction(t_rev, TimeScale::GST)
        .unwrap();

    let fwd_shift = forward.nanos - t_fwd.nanos;
    let rev_shift = reverse.nanos - t_rev.nanos;
    // offset(dt) = 250 + 3 * 2.999 = 258 nanoseconds, truncated.
    assert_eq!(fwd_shift, -258);
    assert_eq!(rev_shift, 258);
    assert_eq!(fwd_shift, -rev_shift);
}

#[test]
fn strict_validity_gates_lapsed_entries() {
    let ref_epoch = Epoch::new(0, TimeScale::GST);
    let entry = TimeCorrection::from_reference_epoch(
        ref_epoch,
        Duration::from_hours(1),
        TimeScale::GPST,
        Polynomial {
            constant: 1,
            rate: 0,
            accel: 0,
        },
    );

    let mut lenient = TimeCorrectionsDB::default();
    lenient.add(entry);
    let strict = lenient.strict_validity();

    // Two hours past the reference: outside the one-hour window.
    let t = Epoch::new(7_200_000_000_000, TimeScale::GST);
    assert!(lenient.precise_epoch_correction(t, TimeScale::GPST).is_some());
    assert!(strict.precise_epoch_correction(t, TimeScale::GPST).is_none());

    // Half an hour past the reference: inside the window.
    let t_in = Epoch::new(1_800_000_000_000, TimeScale::GST);
    assert!(strict.precise_epoch_correction(t_in, TimeScale::GPST).is_some());
}

#[test]
fn nearest_reference_wins_within_a_tier() {
    let mut database = TimeCorrectionsDB::default();
    database.add(TimeCorrection::from_reference_epoch(
        Epoch::new(0, TimeScale::GST),
        Duration::from_hours(1),
        TimeScale::GPST,
        Polynomial {
            constant: 10,
            rate: 0,
            accel: 0,
        },
    ));
    database.add(TimeCorrection::from_reference_epoch(
        Epoch::new(1_000_000, TimeScale::GST),
        Duration::from_hours(1),
        TimeScale::GPST,
        Polynomial {
            constant: 20,
            rate: 0,
            accel: 0,
        },
    ));

    // Nearest to the second entry's reference.
    let t = Epoch::new(900_000, TimeScale::GST);
    let corrected = database
        .precise_epoch_correction(t, TimeScale::GPST)
        .unwrap();
    assert_eq!(corrected.nanos, 900_000 - 20);

    // Nearest to the first entry's reference.
    let t = Epoch::new(100_000, TimeScale::GST);
    let corrected = database
        .precise_epoch_correction(t, TimeScale::GPST)
        .unwrap();
    assert_eq!(corrected.nanos, 100_000 - 10);
}

#[test]
fn outdate_past_discards_old_entries() {
    let mut database = TimeCorrectionsDB::default();
    database.add(TimeCorrection::from_reference_epoch(
        Epoch::new(1_000, TimeScale::GST),
        Duration::from_hours(1),
        TimeScale::GPST,
        Polynomial {
            constant: 1,
            rate: 0,
            accel: 0,
        },
    ));
    database.add(TimeCorrection::from_reference_epoch(
        Epoch::new(5_000, TimeScale::BDT),
        Duration::from_hours(1),
        TimeScale::GST,
        Polynomial {
            constant: 2,
            rate: 0,
            accel: 0,
        },
    ));

    database.outdate_past(Epoch::new(1_000, TimeScale::GST));

    // The entry anchored at the cutoff itself is gone; the later one stays.
    let t_gst = Epoch::new(2_000, TimeScale::GST);
    assert!(database
        .precise_epoch_correction(t_gst, TimeScale::GPST)
        .is_none());
    let t_bdt = Epoch::new(2_000, TimeScale::BDT);
    assert!(database
        .precise_epoch_correction(t_bdt, TimeScale::GST)
        .is_some());
}

#[test]
fn outdate_weekly_discards_entries_a_week_old() {
    const DAY_NANOS: i128 = 86_400_000_000_000;

    let mut database = TimeCorrectionsDB::default();
    database.add(TimeCorrection::from_reference_epoch(
        Epoch::new(0, TimeScale::GST),
        Duration::from_hours(1),
        TimeScale::GPST,
        Polynomial {
            constant: 1,
            rate: 0,
            accel: 0,
        },
    ));
    database.add(TimeCorrection::from_reference_epoch(
        Epoch::new(2 * DAY_NANOS, TimeScale::BDT),
        Duration::from_hours(1),
        TimeScale::GST,
        Polynomial {
            constant: 2,
            rate: 0,
            accel: 0,
        },
    ));

    // Eight days after the first entry's reference: only the first entry is
    // older than seven days.
    database.outdate_weekly(Epoch::new(8 * DAY_NANOS, TimeScale::GST));

    let t_gst = Epoch::new(1_000, TimeScale::GST);
    assert!(database
        .precise_epoch_correction(t_gst, TimeScale::GPST)
        .is_none());
    let t_bdt = Epoch::new(1_000, TimeScale::BDT);
    assert!(database
        .precise_epoch_correction(t_bdt, TimeScale::GST)
        .is_some());
}

#[test]
fn merge_serves_entries_from_both_stores() {
    let mut left = TimeCorrectionsDB::default();
    left.add(TimeCorrection::from_reference_epoch(
        Epoch::new(0, TimeScale::GST),
        Duration::from_hours(1),
        TimeScale::GPST,
        Polynomial {
            constant: 1,
            rate: 0,
            accel: 0,
        },
    ));

    let mut right = TimeCorrectionsDB::default();
    right.add(TimeCorrection::from_reference_epoch(
        Epoch::new(0, TimeScale::BDT),
        Duration::from_hours(1),
        TimeScale::GST,
        Polynomial {
            constant: 2,
            rate: 0,
            accel: 0,
        },
    ));

    let merged = left.merge(&right).unwrap();
    let t_gst = Epoch::new(500, TimeScale::GST);
    let t_bdt = Epoch::new(500, TimeScale::BDT);
    assert!(merged.precise_epoch_correction(t_gst, TimeScale::GPST).is_some());
    assert!(merged.precise_epoch_correction(t_bdt, TimeScale::GST).is_some());

    let mut in_place = left;
    in_place.merge_mut(&right).unwrap();
    assert!(in_place.precise_epoch_correction(t_bdt, TimeScale::GST).is_some());
}

#[test]
fn timeshift_for_instants_reports_unreachable_pairs() {
    let database = TimeCorrectionsDB::default();
    let t = Epoch::new(0, TimeScale::GST);

    let shifted = t.timeshift(TimeScale::UTC);
    assert_eq!(shifted.time_scale, TimeScale::UTC);
    assert_eq!(shifted.nanos, t.nanos);

    let failure = t.precise_correction(&database, TimeScale::UTC);
    assert_eq!(
        failure,
        Err(TimeCorrectionError::NoCorrectionAvailable(
            TimeScale::GST,
            TimeScale::UTC
        ))
    );

    let mut t_mut = t;
    assert!(t_mut.precise_correction_mut(&database, TimeScale::GST).is_ok());
    assert_eq!(t_mut, t);
}

#[test]
fn strict_mode_skips_lapsed_nearer_entries() {
    let mut database = TimeCorrectionsDB::default();
    // Nearest to the instant below, but with a tiny validity window.
    database.add(TimeCorrection::from_reference_epoch(
        Epoch::new(1_000_000, TimeScale::GST),
        Duration::from_nanoseconds(10),
        TimeScale::GPST,
        Polynomial {
            constant: 100,
            rate: 0,
            accel: 0,
        },
    ));
    // Farther away, but valid for an hour.
    database.add(TimeCorrection::from_reference_epoch(
        Epoch::new(50_000_000, TimeScale::GST),
        Duration::from_hours(1),
        TimeScale::GPST,
        Polynomial {
            constant: 200,
            rate: 0,
            accel: 0,
        },
    ));

    let t = Epoch::new(2_000_000, TimeScale::GST);

    // Lenient: the nearer entry wins regardless of its lapsed window.
    let lenient = database
        .precise_epoch_correction(t, TimeScale::GPST)
        .unwrap();
    assert_eq!(lenient.nanos, 2_000_000 - 100);

    // Strict: the lapsed entry is ineligible; the farther valid one wins.
    let strict = database
        .strict_validity()
        .precise_epoch_correction(t, TimeScale::GPST)
        .unwrap();
    assert_eq!(strict.nanos, 2_000_000 - 200);
}

#[test]
fn drifting_round_trip_stays_within_one_nanosecond() {
    let entry = TimeCorrection::from_reference_epoch(
        Epoch::new(0, TimeScale::GST),
        Duration::from_hours(1),
        TimeScale::GPST,
        Polynomial {
            constant: 250,
            rate: 3,
            accel: 0,
        },
    );

    let mut database = TimeCorrectionsDB::default();
    database.add(entry);

    let t = Epoch::new(5_000_000_000, TimeScale::GST);
    let forward = database
        .precise_epoch_correction(t, TimeScale::GPST)
        .unwrap();
    // offset(5 s) = 250 + 3 * 5 = 265 nanoseconds.
    assert_eq!(forward.nanos, 5_000_000_000 - 265);

    let back = database
        .precise_epoch_correction(forward, TimeScale::GST)
        .unwrap();
    assert_eq!(back.time_scale, TimeScale::GST);
    assert!((back.nanos - t.nanos).abs() <= 1);
}
