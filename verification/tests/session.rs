use pretty_derby::session::Draws;
use pretty_derby::session::SessionParameters;
use pretty_derby::session::JITTER_HIGH;
use pretty_derby::session::JITTER_LOW;
use pretty_derby::session::OFFSET_HIGH;
use pretty_derby::session::OFFSET_LOW;
use pretty_derby::session::PACE_BASE;
use pretty_derby::session::PACE_JITTER_HIGH;
use pretty_derby::session::PACE_JITTER_LOW;

fn draws(mileage_offset: i64, keep_time_jitter: i64, pace_jitter: i64) -> Draws {
    Draws { mileage_offset, keep_time_jitter, pace_jitter }
}

#[test]
fn session_is_derived_from_mileage_time_and_draws() {
    let session = SessionParameters::derive(4_000_000, 1_700_000_000, draws(-10_000, 5, 20_000));
    assert_eq!(
        session,
        SessionParameters {
            mileage: 3_990_000,
            keep_time: 1335,
            pace: 620_000,
            start_time: 1_699_998_665,
            end_time: 1_700_000_000,
        }
    );
}

#[test]
fn derived_quantities_are_truncated() {
    let session = SessionParameters::derive(4_000_000, 1_700_000_000, draws(-10_000, 5, 20_000));
    assert_eq!(session.calorie(), 232);
    assert_eq!(session.ave_pace(), 334_000);
    assert_eq!(session.pace_number(), 3217);
}

#[test]
fn derived_quantities_at_the_ends_of_the_draws() {
    let low = SessionParameters::derive(4_000_000, 1_700_000_000, draws(-20_000, -15, -50_000));
    assert_eq!((low.mileage, low.keep_time, low.pace), (3_980_000, 1312, 550_000));
    assert_eq!((low.calorie(), low.ave_pace(), low.pace_number()), (232, 329_000, 3618));
    let high = SessionParameters::derive(4_000_000, 1_700_000_000, draws(-1_001, 14, 49_999));
    assert_eq!((high.mileage, high.keep_time, high.pace), (3_998_999, 1347, 649_999));
    assert_eq!((high.calorie(), high.ave_pace(), high.pace_number()), (233, 336_000, 3076));
}

#[test]
fn base_keep_time_is_rounded_to_the_nearest_second() {
    let at = |requested: i64| SessionParameters::derive(requested, 0, draws(-1_001, 0, 0)).keep_time;
    assert_eq!(at(1_001 + 1_499), 0);
    assert_eq!(at(1_001 + 1_500), 1);
    assert_eq!(at(1_001 + 4_499), 1);
    assert_eq!(at(1_001 + 4_500), 2);
    assert_eq!(at(1_001 + 3_000_000), 1000);
    assert_eq!(at(1_001 - 1_499), 0);
    assert_eq!(at(1_001 - 1_500), -1);
}

#[test]
fn start_is_end_less_keep_time() {
    let session = SessionParameters::derive(4_000_000, 1_700_000_000, draws(-10_000, -5, 0));
    assert_eq!(session.keep_time, 1325);
    assert_eq!(session.start_time, 1_700_000_000 - 1325);
    assert_eq!(session.end_time, 1_700_000_000);
}

#[test]
fn draws_lie_in_their_intervals() {
    for _ in 0..2000 {
        let d = Draws::draw();
        assert!(d.is_valid());
        assert!(OFFSET_LOW <= d.mileage_offset && d.mileage_offset < OFFSET_HIGH);
        assert!(JITTER_LOW <= d.keep_time_jitter && d.keep_time_jitter < JITTER_HIGH);
        assert!(PACE_JITTER_LOW <= d.pace_jitter && d.pace_jitter < PACE_JITTER_HIGH);
    }
}

#[test]
fn draws_vary() {
    let first = Draws::draw();
    let mut differs = false;
    for _ in 0..200 {
        if Draws::draw() != first {
            differs = true;
        }
    }
    assert!(differs);
}

#[test]
fn draws_outside_their_intervals_are_not_valid() {
    assert!(draws(-20_000, -15, -50_000).is_valid());
    assert!(draws(-1_001, 14, 49_999).is_valid());
    assert!(!draws(-20_001, 0, 0).is_valid());
    assert!(!draws(-1_000, 0, 0).is_valid());
    assert!(!draws(-10_000, -16, 0).is_valid());
    assert!(!draws(-10_000, 15, 0).is_valid());
    assert!(!draws(-10_000, 0, -50_001).is_valid());
    assert!(!draws(-10_000, 0, 50_000).is_valid());
}

#[test]
fn generated_sessions_stay_within_their_bounds() {
    for trial in 0..2000i64 {
        let requested = 1_000_000 + trial * 4_500;
        let end_time = 1_700_000_000 + trial;
        let session = SessionParameters::generate(requested, end_time);
        let offset = session.mileage - requested;
        assert!(-20_000 <= offset && offset < -1_000, "offset {}", offset);
        assert!(550_000 <= session.pace && session.pace < 650_000, "pace {}", session.pace);
        assert_eq!(PACE_BASE, 600_000);
        let base = (2 * session.mileage + 3000) / 6000;
        let jitter = session.keep_time - base;
        assert!(-15 <= jitter && jitter < 15, "jitter {}", jitter);
        assert_eq!(session.start_time, end_time - session.keep_time);
        assert_eq!(session.end_time, end_time);
        assert!(session.mileage < requested);
    }
}

#[test]
fn sessions_can_be_derived_within_the_limits_only() {
    assert!(SessionParameters::can_derive(0, 0));
    assert!(SessionParameters::can_derive(1_010_000_000, 1_000_000_000_000_000));
    assert!(SessionParameters::can_derive(-1_010_000_000, -1_000_000_000_000_000));
    assert!(!SessionParameters::can_derive(1_010_000_001, 0));
    assert!(!SessionParameters::can_derive(0, 1_000_000_000_000_001));
    assert!(!SessionParameters::can_derive(i64::MIN, i64::MAX));
}

#[test]
fn only_a_positive_mileage_in_a_duration_not_negative_is_runnable() {
    let session = |mileage: i64, keep_time: i64| SessionParameters {
        mileage,
        keep_time,
        pace: 600_000,
        start_time: -keep_time,
        end_time: 0,
    };
    assert!(session(1, 0).is_runnable());
    assert!(session(3_990_000, 1335).is_runnable());
    assert!(!session(0, 10).is_runnable());
    assert!(!session(-5, 10).is_runnable());
    assert!(!session(5, -1).is_runnable());
}
