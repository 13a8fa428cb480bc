use lop::cli::options_from_flags;
use lop::services::{Duration, ServiceOptions, MAX_EXPIRY_DAYS, MS_PER_DAY};

#[test]
fn days_to_millis() {
    assert_eq!(Duration::days(2).millis, 172_800_000);
    assert_eq!(Duration::days(0).millis, 0);
    assert_eq!(Duration::days(-1).millis, -86_400_000);
    assert_eq!(MS_PER_DAY, 86_400_000);
}

#[test]
fn largest_day_count_fits() {
    let d = Duration::days(MAX_EXPIRY_DAYS);
    assert_eq!(d.millis, MAX_EXPIRY_DAYS * 86_400_000);
}

#[test]
fn no_expiry_yields_absent_timestamp() {
    let opts = ServiceOptions { expiry: None };
    assert_eq!(opts.expiry_epoch_ms_at(123_456), None);
    assert_eq!(opts.expiry_epoch_ms(), None);
}

#[test]
fn duration_shifts_the_given_instant() {
    let opts = ServiceOptions { expiry: Some(Duration::days(5)) };
    assert_eq!(opts.expiry_epoch_ms_at(1_000), Some(1_000 + 5 * 86_400_000));
    let opts29 = ServiceOptions { expiry: Some(Duration::days(29)) };
    assert_eq!(
        opts29.expiry_epoch_ms_at(1_704_067_200_000),
        Some(1_704_067_200_000 + 29 * 86_400_000)
    );
}

#[test]
fn longer_expiry_never_yields_earlier_timestamp() {
    let short = ServiceOptions { expiry: Some(Duration::days(5)) };
    let long = ServiceOptions { expiry: Some(Duration::days(29)) };
    let now = 1_704_067_200_000;
    assert!(short.expiry_epoch_ms_at(now).unwrap() <= long.expiry_epoch_ms_at(now).unwrap());
}

#[test]
fn flags_default_to_twenty_nine_days() {
    let opts = options_from_flags(false, None);
    assert_eq!(opts.expiry.map(|d| d.millis), Some(29 * MS_PER_DAY));
}

#[test]
fn no_expire_flag_clears_the_default() {
    let opts = options_from_flags(true, None);
    assert!(opts.expiry.is_none());
}

#[test]
fn explicit_day_count_overrides_both() {
    let opts = options_from_flags(false, Some(5));
    assert_eq!(opts.expiry.map(|d| d.millis), Some(5 * MS_PER_DAY));
    let both = options_from_flags(true, Some(5));
    assert_eq!(both.expiry.map(|d| d.millis), Some(5 * MS_PER_DAY));
}

#[test]
fn clock_based_expiry_is_near_now_plus_duration() {
    let opts = ServiceOptions { expiry: Some(Duration::days(29)) };
    let before = chrono::Utc::now().timestamp_millis();
    let got = opts.expiry_epoch_ms().expect("an expiry was requested");
    let after = chrono::Utc::now().timestamp_millis();
    assert!(before + 29 * 86_400_000 <= got);
    assert!(got <= after + 29 * 86_400_000);
}
