use dex_account::error::AppError;
use dex_account::middleware::ip_lockout::{IpLockout, LOCKOUT_DURATION_MICROS};
use dex_account::routes::auth::{lockout_refusal_at, record_2fa_outcome, record_login_outcome};
use dex_account::services::auth::LoginResult;

#[test]
fn five_failures_lock_for_fifteen_minutes() {
    let mut l = IpLockout::new();
    for t in 0..4u64 {
        l.record_failure_at("1.2.3.4", t * 1_000_000);
        assert!(!l.is_locked_at("1.2.3.4", t * 1_000_000 + 1));
    }
    assert_eq!(l.failure_count("1.2.3.4"), 4);
    l.record_failure_at("1.2.3.4", 10_000_000);
    assert_eq!(l.failure_count("1.2.3.4"), 5);
    assert!(l.is_locked_at("1.2.3.4", 10_000_000));
    assert!(l.is_locked_at("1.2.3.4", 10_000_000 + LOCKOUT_DURATION_MICROS - 1));
    assert_eq!(l.get_remaining_lockout_secs_at("1.2.3.4", 10_000_000), Some(900));
    assert_eq!(l.get_remaining_lockout_secs_at("1.2.3.4", 10_000_000 + 60_500_000), Some(839));
    assert!(!l.is_locked_at("1.2.3.4", 10_000_000 + LOCKOUT_DURATION_MICROS));
    assert_eq!(l.failure_count("1.2.3.4"), 0);
    assert_eq!(l.get_remaining_lockout_secs_at("1.2.3.4", 0), None);
}

#[test]
fn other_ips_are_not_locked() {
    let mut l = IpLockout::new();
    for _ in 0..5 {
        l.record_failure_at("10.0.0.1", 5);
    }
    assert!(l.is_locked_at("10.0.0.1", 6));
    assert!(!l.is_locked_at("10.0.0.2", 6));
    assert_eq!(l.failure_count("10.0.0.2"), 0);
}

#[test]
fn success_resets_count() {
    let mut l = IpLockout::new();
    for _ in 0..4 {
        l.record_failure_at("ip", 1);
    }
    l.record_success("ip");
    assert_eq!(l.failure_count("ip"), 0);
    l.record_failure_at("ip", 2);
    assert_eq!(l.failure_count("ip"), 1);
    assert!(!l.is_locked_at("ip", 3));
}

#[test]
fn clear_unlocks() {
    let mut l = IpLockout::default();
    for _ in 0..6 {
        l.record_failure_at("ip", 100);
    }
    assert!(l.is_locked_at("ip", 200));
    l.clear_lockout("ip");
    assert!(!l.is_locked_at("ip", 200));
    assert_eq!(l.failure_count("ip"), 0);
}

#[test]
fn clock_versions() {
    let mut l = IpLockout::new();
    assert!(!l.is_locked("x"));
    for _ in 0..5 {
        assert!(l.record_failure("x"));
    }
    assert!(l.is_locked("x"));
    let r = l.get_remaining_lockout_secs("x").unwrap();
    assert!(r <= 900 && r >= 890);
}

#[test]
fn locked_client_is_refused_with_minutes_left() {
    let mut l = IpLockout::new();
    assert_eq!(lockout_refusal_at(&mut l, "ip", 0), None);
    for _ in 0..5 {
        l.record_failure_at("ip", 0);
    }
    assert_eq!(lockout_refusal_at(&mut l, "ip", 0), Some(AppError::IpLocked(15)));
    assert_eq!(lockout_refusal_at(&mut l, "ip", 300_000_000), Some(AppError::IpLocked(10)));
    assert_eq!(lockout_refusal_at(&mut l, "ip", 899_000_000), Some(AppError::IpLocked(0)));
    assert_eq!(lockout_refusal_at(&mut l, "ip", 900_000_000), None);
}

#[test]
fn login_outcomes_update_lockout() {
    let mut l = IpLockout::new();
    let fail: Result<LoginResult, AppError> = Err(AppError::InvalidCredentials);
    for _ in 0..3 {
        record_login_outcome(&mut l, "ip", &fail);
    }
    assert_eq!(l.failure_count("ip"), 3);
    record_login_outcome(&mut l, "ip", &Err(AppError::UserInactive));
    assert_eq!(l.failure_count("ip"), 3);
    let challenge = Ok(LoginResult::TwoFactorChallenge { challenge_token: "c".to_string(), expires_in: 300 });
    record_login_outcome(&mut l, "ip", &challenge);
    assert_eq!(l.failure_count("ip"), 3);
    let ok = Ok(LoginResult::Success { access_token: "a".to_string(), refresh_token: "r".to_string(), expires_in: 900 });
    record_login_outcome(&mut l, "ip", &ok);
    assert_eq!(l.failure_count("ip"), 0);
}

#[test]
fn second_factor_outcomes_update_lockout() {
    let mut l = IpLockout::new();
    for _ in 0..5 {
        record_2fa_outcome(&mut l, "ip", &Err(AppError::InvalidTwoFactorCode));
    }
    assert!(l.is_locked("ip"));
    let mut m = IpLockout::new();
    record_2fa_outcome(&mut m, "ip", &Err(AppError::InvalidCredentials));
    assert_eq!(m.failure_count("ip"), 0);
}

#[test]
fn lock_near_clock_end_lasts_to_the_last_instant() {
    let mut l = IpLockout::new();
    let now = u64::MAX - 10;
    for _ in 0..5 {
        l.record_failure_at("late", now);
    }
    assert_eq!(l.failure_count("late"), 5);
    assert!(l.is_locked_at("late", u64::MAX - 1));
    assert_eq!(l.get_remaining_lockout_secs_at("late", now), Some(0));
}
