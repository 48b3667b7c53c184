use std::str::FromStr;

use qc_traits::{
    Duration, Epoch, Polynomial, TimeCorrection, TimeCorrectionsDB, TimeScale,
};

/// Nanoseconds of an instant on this library's absolute timeline, read from
/// a textual date through the outside time library.
fn abs_nanos(s: &str) -> i128 {
    let e = hifitime::Epoch::from_str(s).unwrap();
    let base = hifitime::Epoch::from_gregorian_tai_at_midnight(2000, 1, 1);
    (e - base).total_nanoseconds()
}

fn epoch_of(s: &str, ts: TimeScale) -> Epoch {
    Epoch::new(abs_nanos(s), ts)
}

#[test]
fn single_galileo_gps_entry_scenario() {
    let ref_nanos = abs_nanos("2020-01-01T00:00:00 GPST");

    let mut database = TimeCorrectionsDB::default();
    database.add(TimeCorrection::from_reference_epoch(
        Epoch::new(ref_nanos, TimeScale::GST),
        Duration::from_hours(1),
        TimeScale::GPST,
        Polynomial {
            constant: 1,
            rate: 0,
            accel: 0,
        },
    ));

    // An instant on the Galileo scale corrects into GPS time.
    let t_gst = Epoch::new(ref_nanos, TimeScale::GST);
    let corrected = database
        .precise_epoch_correction(t_gst, TimeScale::GPST)
        .unwrap();
    assert_eq!(corrected.time_scale, TimeScale::GPST);
    assert_eq!(corrected.nanos, ref_nanos - 1);

    // No entry touches UTC: corrections from UTC fail.
    let t_utc = epoch_of("2020-06-15T12:00:00 UTC", TimeScale::UTC);
    assert!(database
        .precise_epoch_correction(t_utc, TimeScale::GPST)
        .is_none());
    assert!(database
        .precise_epoch_correction(t_utc, TimeScale::GST)
        .is_none());
}

#[test]
fn indirect_beidou_gps_scenario() {
    let ref_nanos = abs_nanos("2020-01-01T00:00:00 GPST");

    let mut database = TimeCorrectionsDB::default();
    database.add(TimeCorrection::from_reference_epoch(
        Epoch::new(ref_nanos, TimeScale::BDT),
        Duration::from_hours(1),
        TimeScale::GST,
        Polynomial {
            constant: 1,
            rate: 0,
            accel: 0,
        },
    ));
    database.add(TimeCorrection::from_reference_epoch(
        Epoch::new(ref_nanos, TimeScale::GST),
        Duration::from_hours(1),
        TimeScale::GPST,
        Polynomial {
            constant: 2,
            rate: 0,
            accel: 0,
        },
    ));

    // No direct BeiDou-to-GPS entry exists: the correction composes through
    // Galileo time, and differs from a coarse re-tag by exactly the summed
    // constants, three nanoseconds.
    let t_bdt = Epoch::new(ref_nanos, TimeScale::BDT);
    let corrected = database
        .precise_epoch_correction(t_bdt, TimeScale::GPST)
        .unwrap();
    assert_eq!(corrected.time_scale, TimeScale::GPST);

    let coarse = t_bdt.to_time_scale(TimeScale::GPST);
    assert_eq!(coarse.nanos - corrected.nanos, 3);

    // The composed correction equals correcting through the intermediate
    // scale in two steps.
    let mid = database
        .precise_epoch_correction(t_bdt, TimeScale::GST)
        .unwrap();
    let two_step = database
        .precise_epoch_correction(mid, TimeScale::GPST)
        .unwrap();
    assert_eq!(corrected, two_step);

    // The backward composition inverts it.
    let back = database
        .precise_epoch_correction(corrected, TimeScale::BDT)
        .unwrap();
    assert_eq!(back.time_scale, TimeScale::BDT);
    assert_eq!(back, t_bdt);
}
