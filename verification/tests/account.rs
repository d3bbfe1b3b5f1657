use pretty_derby::account::Account;
use pretty_derby::account::LoginData;
use pretty_derby::account::UploadRequest;
use pretty_derby::account::ACTIVITY_KIND;
use pretty_derby::account::DEVICE_TYPE;
use pretty_derby::account::SYSTEM_VERSION;
use pretty_derby::digest::upload_digest;
use pretty_derby::error::AccountError;
use pretty_derby::error::QuotaField;
use pretty_derby::quota::Quota;
use pretty_derby::quota::RunningLimits;
use pretty_derby::route::synthesize;
use pretty_derby::route::RouteGeometry;
use pretty_derby::session::Draws;

fn limits() -> RunningLimits {
    RunningLimits {
        daily_mileage: Some(5_000_000),
        effective_mileage_end: Some(6_000_000),
        effective_mileage_start: Some(1_000_000),
        limitation: Some(String::from("goal-7")),
        scoring_type: Some(1),
        total_day_mileage: Some(String::from("1")),
        total_week_mileage: Some(String::from("3.0")),
        weekly_mileage: Some(20_000_000),
    }
}

fn ready_account() -> Account {
    let mut account = Account::new(String::from("user"), String::from("secret"));
    account.logged_in(LoginData {
        id: String::from("id-1"),
        access_token: String::from("token-1"),
        campus_id: String::from("campus-1"),
    });
    account.set_version(String::from("3.8.2"));
    assert_eq!(account.get_state(String::from("term-1"), limits()), Ok(()));
    account
}

fn draws() -> Draws {
    Draws { mileage_offset: -10_000, keep_time_jitter: 5, pace_jitter: 20_000 }
}

#[test]
fn default_account_is_empty() {
    let account = Account::default();
    assert_eq!(account.username, "");
    assert_eq!(account.password, "");
    assert_eq!(account.token, "");
    assert_eq!(account.quota, Quota::empty());
    assert_eq!(account.max_mileage(), 0);
}

#[test]
fn profile_sets_the_credentials_only() {
    let mut account = ready_account();
    let before = account.clone();
    account.profile(String::from("other"), String::from("word")).set_version(String::from("4.0"));
    assert_eq!(account.username, "other");
    assert_eq!(account.password, "word");
    assert_eq!(account.version, "4.0");
    assert_eq!(account.token, before.token);
    assert_eq!(account.quota, before.quota);
    assert_eq!(account.semester, before.semester);
}

#[test]
fn login_request_carries_the_signed_credentials() {
    let account = Account::new(String::from("user"), String::from("secret"));
    let request = account.login();
    assert_eq!(request.entrance, "1");
    assert_eq!(request.user_name, "user");
    assert_eq!(request.password, "secret");
    assert_eq!(request.sign_digital, "d77fe9409c5480188efea184ef68c5eb91c554df");
}

#[test]
fn login_answer_sets_identity_token_and_organization() {
    let account = ready_account();
    assert_eq!(account.id, "id-1");
    assert_eq!(account.token, "token-1");
    assert_eq!(account.organization, "campus-1");
    assert_eq!(account.username, "user");
    assert_eq!(account.authorization(), "Bearer token-1");
}

#[test]
fn state_holds_the_term_and_the_eight_values() {
    let account = ready_account();
    assert_eq!(account.semester, "term-1");
    assert_eq!(
        account.quota,
        Quota {
            daily: 5_000_000,
            day: 1_000_000,
            weekly: 20_000_000,
            week: 3_000_000,
            start: 1_000_000,
            end: 6_000_000,
            scoring: 1,
            limitation: String::from("goal-7"),
        }
    );
}

#[test]
fn quota_is_unavailable_if_any_field_is_missing() {
    let mut cases = Vec::new();
    for missing in 0..8 {
        let mut l = limits();
        match missing {
            0 => l.daily_mileage = None,
            1 => l.effective_mileage_end = None,
            2 => l.effective_mileage_start = None,
            3 => l.limitation = None,
            4 => l.scoring_type = None,
            5 => l.total_day_mileage = None,
            6 => l.total_week_mileage = None,
            _ => l.weekly_mileage = None,
        }
        assert!(!l.is_complete());
        cases.push(l);
    }
    for l in cases {
        assert_eq!(Quota::resolve(l.clone()), Err(AccountError::QuotaUnavailable));
        let mut account = ready_account();
        let before = account.quota.clone();
        assert_eq!(account.get_state(String::from("term-2"), l), Err(AccountError::QuotaUnavailable));
        assert_eq!(account.quota, before);
        assert_eq!(account.semester, "term-2");
    }
    assert!(limits().is_complete());
    assert!(Quota::resolve(limits()).is_ok());
}

#[test]
fn quota_is_unavailable_if_all_fields_are_missing() {
    let nothing = RunningLimits {
        daily_mileage: None,
        effective_mileage_end: None,
        effective_mileage_start: None,
        limitation: None,
        scoring_type: None,
        total_day_mileage: None,
        total_week_mileage: None,
        weekly_mileage: None,
    };
    assert_eq!(Quota::resolve(nothing), Err(AccountError::QuotaUnavailable));
}

#[test]
fn missing_field_comes_before_an_unsound_one() {
    let mut l = limits();
    l.total_day_mileage = Some(String::from("much"));
    l.weekly_mileage = None;
    assert_eq!(Quota::resolve(l), Err(AccountError::QuotaUnavailable));
}

#[test]
fn unsound_numeric_field_is_named() {
    let mut l = limits();
    l.total_day_mileage = Some(String::from("much"));
    assert_eq!(Quota::resolve(l), Err(AccountError::NumericParseError { field: QuotaField::Day }));
    let mut l = limits();
    l.total_week_mileage = Some(String::from(""));
    assert_eq!(Quota::resolve(l), Err(AccountError::NumericParseError { field: QuotaField::Week }));
    let mut l = limits();
    l.daily_mileage = Some(1_000_000_001);
    assert_eq!(Quota::resolve(l), Err(AccountError::NumericParseError { field: QuotaField::Daily }));
    let mut l = limits();
    l.effective_mileage_end = Some(-1_000_000_001);
    assert_eq!(Quota::resolve(l), Err(AccountError::NumericParseError { field: QuotaField::End }));
    let mut l = limits();
    l.effective_mileage_start = Some(i64::MAX);
    assert_eq!(Quota::resolve(l), Err(AccountError::NumericParseError { field: QuotaField::Start }));
    let mut l = limits();
    l.weekly_mileage = Some(i64::MIN);
    assert_eq!(Quota::resolve(l), Err(AccountError::NumericParseError { field: QuotaField::Weekly }));
}

#[test]
fn first_unsound_field_is_the_one_named() {
    let mut l = limits();
    l.weekly_mileage = Some(i64::MIN);
    l.total_week_mileage = Some(String::from("x"));
    l.effective_mileage_start = Some(i64::MAX);
    assert_eq!(Quota::resolve(l), Err(AccountError::NumericParseError { field: QuotaField::Start }));
}

#[test]
fn share_of_the_quota_is_rounded_toward_zero() {
    let account = ready_account();
    assert_eq!(account.max_mileage(), 4_000_000);
    assert_eq!(account.target_mileage(100), 4_000_000);
    assert_eq!(account.target_mileage(50), 2_000_000);
    assert_eq!(account.target_mileage(0), 0);
    assert_eq!(account.target_mileage(33), 1_320_000);
    let mut odd = ready_account();
    odd.quota.daily = 1_000_001;
    odd.quota.day = 0;
    assert_eq!(odd.target_mileage(50), 500_000);
    odd.quota.day = 2_000_002;
    assert_eq!(odd.max_mileage(), -1_000_001);
    assert_eq!(odd.target_mileage(50), -500_000);
}

fn expected_request() -> UploadRequest {
    UploadRequest {
        app_version: String::from("3.8.2"),
        ave_pace: 334_000,
        calorie: 232,
        device_type: String::from("iPhone 13 Pro"),
        effective_mileage: 3_990_000,
        effective_part: 1,
        end_time: String::from("2023-11-14 22:13:20"),
        gps_mileage: 3_990_000,
        keep_time: 1335,
        limitation: String::from("goal-7"),
        pace_number: 3217,
        pace_range: 620_000,
        route: RouteGeometry::Synthesized(synthesize(3_990_000, 1_699_998_665, 1335)),
        scoring_type: 1,
        semester_id: String::from("term-1"),
        sign_digital: String::from("15d4b00e9d277aafacc1ec9aac741f6a6d53293d"),
        sign_point: Vec::new(),
        start_time: String::from("2023-11-14 21:51:05"),
        system_version: String::from("16.0.2"),
        total_mileage: 3_990_000,
        total_part: 1,
        kind: String::from("范围跑"),
        uneffective_reason: String::new(),
    }
}

#[test]
fn upload_request_reports_the_session() {
    let account = ready_account();
    let request = account.upload_running_with(4_000_000, 1_700_000_000, draws(), None);
    assert_eq!(request, Ok(expected_request()));
    assert_eq!(DEVICE_TYPE, "iPhone 13 Pro");
    assert_eq!(SYSTEM_VERSION, "16.0.2");
    assert_eq!(ACTIVITY_KIND, "范围跑");
}

#[test]
fn upload_request_is_signed_over_its_own_fields() {
    let account = ready_account();
    let request = account.upload_running_with(4_000_000, 1_700_000_000, draws(), None).unwrap();
    assert_eq!(
        request.sign_digital,
        upload_digest(
            request.total_mileage,
            &request.start_time,
            request.calorie,
            request.ave_pace,
            request.keep_time,
            request.pace_number
        )
    );
}

#[test]
fn supplied_document_takes_the_place_of_the_route() {
    let account = ready_account();
    let document = String::from("[[104.1, 30.5], [104.2, 30.6]]");
    let request = account.upload_running_with(4_000_000, 1_700_000_000, draws(), Some(document.clone()));
    let mut expected = expected_request();
    expected.route = RouteGeometry::Supplied(document);
    assert_eq!(request, Ok(expected));
}

#[test]
fn malformed_document_stops_the_upload() {
    let account = ready_account();
    let request = account.upload_running_with(4_000_000, 1_700_000_000, draws(), Some(String::from("[[")));
    assert_eq!(request, Err(AccountError::RouteSynthesisError));
}

#[test]
fn malformed_document_is_reported_before_the_range() {
    let account = ready_account();
    assert_eq!(
        account.upload_running_with(0, 1_700_000_000, draws(), Some(String::from("{"))),
        Err(AccountError::RouteSynthesisError)
    );
    assert_eq!(
        account.upload_running_with(0, 1_700_000_000, draws(), Some(String::from("{}"))),
        Err(AccountError::BelowMinimumRange { minimum: 1_000_000, mileage: 0 })
    );
}

#[test]
fn mileage_below_the_range_stops_the_upload() {
    let account = ready_account();
    assert_eq!(
        account.upload_running_with(999_999, 1_700_000_000, draws(), None),
        Err(AccountError::BelowMinimumRange { minimum: 1_000_000, mileage: 999_999 })
    );
    assert!(account.upload_running_with(1_000_000, 1_700_000_000, draws(), None).is_ok());
    assert_eq!(
        account.upload_running(0, 1_700_000_000, None),
        Err(AccountError::BelowMinimumRange { minimum: 1_000_000, mileage: 0 })
    );
}

#[test]
fn mileage_above_the_grace_band_stops_the_upload() {
    let account = ready_account();
    assert_eq!(
        account.upload_running_with(16_000_001, 1_700_000_000, draws(), None),
        Err(AccountError::AboveMaximumRange { maximum: 6_000_000, mileage: 16_000_001 })
    );
    assert!(account.upload_running_with(16_000_000, 1_700_000_000, draws(), None).is_ok());
    assert_eq!(
        account.upload_running(17_000_000, 1_700_000_000, None),
        Err(AccountError::AboveMaximumRange { maximum: 6_000_000, mileage: 17_000_000 })
    );
}

#[test]
fn session_without_positive_mileage_has_no_route() {
    let mut account = ready_account();
    account.quota.start = 0;
    assert_eq!(
        account.upload_running_with(10_000, 1_700_000_000, draws(), None),
        Err(AccountError::RouteSynthesisError)
    );
    assert_eq!(
        account.upload_running_with(0, 1_700_000_000, draws(), None),
        Err(AccountError::RouteSynthesisError)
    );
    account.quota.start = -5_000_000;
    assert_eq!(
        account.upload_running_with(-1_000_000, 1_700_000_000, draws(), None),
        Err(AccountError::RouteSynthesisError)
    );
}

#[test]
fn session_of_negative_duration_has_no_route() {
    let mut account = ready_account();
    account.quota.start = 0;
    let d = Draws { mileage_offset: -10_000, keep_time_jitter: -15, pace_jitter: 0 };
    assert_eq!(
        account.upload_running_with(20_000, 1_700_000_000, d, None),
        Err(AccountError::RouteSynthesisError)
    );
}

#[test]
fn end_time_outside_the_calendar_stops_the_upload() {
    let account = ready_account();
    assert_eq!(
        account.upload_running_with(4_000_000, i64::MAX, draws(), None),
        Err(AccountError::TimestampOutOfRange)
    );
    assert_eq!(
        account.upload_running_with(4_000_000, 1_000_000_000_000_000, draws(), None),
        Err(AccountError::TimestampOutOfRange)
    );
    assert_eq!(
        account.upload_running_with(4_000_000, -1_000_000_000_000_000, draws(), None),
        Err(AccountError::TimestampOutOfRange)
    );
}

#[test]
fn end_time_beyond_the_calendar_of_the_clock_stops_the_upload() {
    let account = ready_account();
    assert_eq!(
        account.upload_running_with(4_000_000, 10_000_000_000_000, draws(), None),
        Err(AccountError::TimestampOutOfRange)
    );
    assert_eq!(
        account.upload_running_with(4_000_000, -10_000_000_000_000, draws(), None),
        Err(AccountError::TimestampOutOfRange)
    );
    let far = account.upload_running_with(4_000_000, 253_402_300_799, draws(), None).unwrap();
    assert_eq!(far.end_time, "9999-12-31 23:59:59");
    assert_eq!(far.start_time, "9999-12-31 23:37:44");
}

#[test]
fn range_is_checked_before_the_end_time() {
    let account = ready_account();
    assert_eq!(
        account.upload_running_with(0, i64::MAX, draws(), None),
        Err(AccountError::BelowMinimumRange { minimum: 1_000_000, mileage: 0 })
    );
}

#[test]
fn times_before_the_epoch_are_written_too() {
    let account = ready_account();
    let request = account.upload_running_with(4_000_000, 1334, draws(), None).unwrap();
    assert_eq!(request.end_time, "1970-01-01 00:22:14");
    assert_eq!(request.start_time, "1969-12-31 23:59:59");
}

#[test]
fn drawn_upload_stays_within_the_bounds_of_the_draws() {
    let account = ready_account();
    for _ in 0..50 {
        let request = account.upload_running(4_000_000, 1_700_000_000, None).unwrap();
        let offset = request.total_mileage - 4_000_000;
        assert!(-20_000 <= offset && offset < -1_000);
        assert!(550_000 <= request.pace_range && request.pace_range < 650_000);
        let base = (2 * request.total_mileage + 3000) / 6000;
        assert!(-15 <= request.keep_time - base && request.keep_time - base < 15);
        assert_eq!(request.effective_mileage, request.total_mileage);
        assert_eq!(request.gps_mileage, request.total_mileage);
        assert_eq!(request.end_time, "2023-11-14 22:13:20");
        assert_eq!(
            request.route,
            RouteGeometry::Synthesized(synthesize(
                request.total_mileage,
                1_700_000_000 - request.keep_time,
                request.keep_time
            ))
        );
    }
}

#[test]
fn full_quota_of_the_example_is_four_units_and_passes_validation() {
    let mut account = ready_account();
    account.quota.start = 0;
    assert_eq!(
        (account.quota.daily, account.quota.day, account.quota.weekly, account.quota.week, account.quota.end),
        (5_000_000, 1_000_000, 20_000_000, 3_000_000, 6_000_000)
    );
    assert_eq!(account.max_mileage(), 4_000_000);
    let mileage = account.target_mileage(100);
    assert_eq!(mileage, 4_000_000);
    assert_eq!(account.quota.check_mileage(mileage), Ok(()));
    let request = account.upload_running(mileage, 1_700_000_000, None).unwrap();
    assert!(3_980_000 <= request.total_mileage && request.total_mileage < 3_999_000);
}
