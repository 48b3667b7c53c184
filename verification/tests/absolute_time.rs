use std::str::FromStr;

use qc_traits::{
    Epoch, GnssAbsoluteTime, Merge, Polynomial, TimePolynomial, TimeScale,
};

/// Nanoseconds of an instant on this library's absolute timeline, read from
/// a textual date through the outside time library.
fn abs_nanos(s: &str) -> i128 {
    let e = hifitime::Epoch::from_str(s).unwrap();
    let base = hifitime::Epoch::from_gregorian_tai_at_midnight(2000, 1, 1);
    (e - base).total_nanoseconds()
}

fn epoch_of(s: &str, ts: TimeScale) -> Epoch {
    Epoch::new(abs_nanos(s), ts)
}

#[test]
fn test_direct_absolute_time() {
    let t_ref_gpst = epoch_of("2020-01-01T00:00:00 GPST", TimeScale::GPST);

    let polynomial = Polynomial {
        constant: 1,
        rate: 0,
        accel: 0,
    };

    let polynomials = [TimePolynomial {
        lhs_timescale: TimeScale::GST,
        rhs_timescale: TimeScale::GPST,
        ref_epoch: t_ref_gpst,
        polynomial,
    }];

    let solver = GnssAbsoluteTime::new(&polynomials);

    // Random date in GST
    let t_gst = epoch_of("2020-01-01T00:00:00 GST", TimeScale::GST);

    let t_gst_gpst = solver
        .precise_epoch_correction(t_gst, TimeScale::GPST)
        .unwrap();

    assert_eq!(t_gst_gpst.time_scale, TimeScale::GPST);

    // Random date in GPST
    let t_gpst = epoch_of("2020-01-01T00:00:10 GPST", TimeScale::GPST);

    let t_gpst_gst = solver
        .precise_epoch_correction(t_gpst, TimeScale::GST)
        .unwrap();

    assert_eq!(t_gpst_gst.time_scale, TimeScale::GST);

    // Random date in UTC
    let t_utc = epoch_of("2020-01-01T00:00:10 UTC", TimeScale::UTC);

    assert!(solver
        .precise_epoch_correction(t_utc, TimeScale::GST)
        .is_none());

    assert!(solver
        .precise_epoch_correction(t_utc, TimeScale::GPST)
        .is_none());
}

#[test]
fn resolver_add_overwrites_the_scale_pair() {
    let mut solver = GnssAbsoluteTime::default();
    solver.add(TimePolynomial {
        lhs_timescale: TimeScale::GST,
        rhs_timescale: TimeScale::GPST,
        ref_epoch: Epoch::new(0, TimeScale::GST),
        polynomial: Polynomial {
            constant: 10,
            rate: 0,
            accel: 0,
        },
    });
    solver.add(TimePolynomial {
        lhs_timescale: TimeScale::BDT,
        rhs_timescale: TimeScale::GST,
        ref_epoch: Epoch::new(0, TimeScale::BDT),
        polynomial: Polynomial {
            constant: 5,
            rate: 0,
            accel: 0,
        },
    });
    // Same scale pair as the first model: replaces it.
    solver.add(TimePolynomial {
        lhs_timescale: TimeScale::GST,
        rhs_timescale: TimeScale::GPST,
        ref_epoch: Epoch::new(0, TimeScale::GST),
        polynomial: Polynomial {
            constant: 30,
            rate: 0,
            accel: 0,
        },
    });

    assert_eq!(solver.polynomials.len(), 2);

    let t = Epoch::new(1_000, TimeScale::GST);
    let corrected = solver
        .precise_epoch_correction(t, TimeScale::GPST)
        .unwrap();
    assert_eq!(corrected.nanos, 1_000 - 30);
}

#[test]
fn resolver_merge_concatenates_models() {
    let left = GnssAbsoluteTime::new(&[TimePolynomial {
        lhs_timescale: TimeScale::GST,
        rhs_timescale: TimeScale::GPST,
        ref_epoch: Epoch::new(0, TimeScale::GST),
        polynomial: Polynomial {
            constant: 1,
            rate: 0,
            accel: 0,
        },
    }]);
    let right = GnssAbsoluteTime::new(&[TimePolynomial {
        lhs_timescale: TimeScale::BDT,
        rhs_timescale: TimeScale::GST,
        ref_epoch: Epoch::new(0, TimeScale::BDT),
        polynomial: Polynomial {
            constant: 2,
            rate: 0,
            accel: 0,
        },
    }]);

    let merged = left.merge(&right).unwrap();
    assert_eq!(merged.polynomials.len(), 2);
    assert_eq!(merged.polynomials[0], left.polynomials[0]);
    assert_eq!(merged.polynomials[1], right.polynomials[0]);

    let mut in_place = left;
    in_place.merge_mut(&right).unwrap();
    assert_eq!(in_place.polynomials.len(), 2);
}

#[test]
fn resolver_eviction_discards_old_models() {
    const DAY_NANOS: i128 = 86_400_000_000_000;

    let mut solver = GnssAbsoluteTime::new(&[
        TimePolynomial {
            lhs_timescale: TimeScale::GST,
            rhs_timescale: TimeScale::GPST,
            ref_epoch: Epoch::new(0, TimeScale::GST),
            polynomial: Polynomial {
                constant: 1,
                rate: 0,
                accel: 0,
            },
        },
        TimePolynomial {
            lhs_timescale: TimeScale::BDT,
            rhs_timescale: TimeScale::GST,
            ref_epoch: Epoch::new(2 * DAY_NANOS, TimeScale::BDT),
            polynomial: Polynomial {
                constant: 2,
                rate: 0,
                accel: 0,
            },
        },
    ]);

    let mut weekly = solver.clone();
    weekly.outdate_weekly(Epoch::new(8 * DAY_NANOS, TimeScale::GST));
    assert_eq!(weekly.polynomials.len(), 1);
    assert_eq!(weekly.polynomials[0].lhs_timescale, TimeScale::BDT);

    solver.outdate_past(Epoch::new(DAY_NANOS, TimeScale::GST));
    assert_eq!(solver.polynomials.len(), 1);
    assert_eq!(solver.polynomials[0].lhs_timescale, TimeScale::BDT);
}
