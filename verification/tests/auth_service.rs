use dex_account::error::AppError;
use dex_account::models::{PasswordReset, RefreshTokenChain, Role, User, UserResponse};
use dex_account::services::auth::{
    AuthService, LoginCheck, LoginResult, RefreshStep, ResetStep,
};
use dex_account::services::crypto::CryptoService;

fn user(crypto: &CryptoService, id: u128, password: &str) -> User {
    User {
        id,
        email: "a@b.c".to_string(),
        password_hash: crypto.hash_password(password).unwrap(),
        totp_secret: None,
        is_2fa_enabled: false,
        is_active: true,
        created_at: 10,
        updated_at: 20,
    }
}

fn service() -> AuthService {
    AuthService::new(CryptoService::new("secret".to_string()))
}

#[test]
fn unknown_email_and_wrong_password_are_invalid_credentials() {
    let mut s = service();
    assert!(matches!(s.login_check(None, "pw"), Err(AppError::InvalidCredentials)));
    let u = user(s.crypto(), 1, "right");
    assert!(matches!(s.login_check(Some(u), "wrong"), Err(AppError::InvalidCredentials)));
    assert_eq!(s.metrics().login_failed_total, 2);
    assert_eq!(s.metrics().login_total, 0);
}

#[test]
fn inactive_user_is_refused_without_counting() {
    let mut s = service();
    let mut u = user(s.crypto(), 1, "right");
    u.is_active = false;
    assert!(matches!(s.login_check(Some(u), "right"), Err(AppError::UserInactive)));
    assert_eq!(s.metrics().login_failed_total, 0);
}

#[test]
fn unreadable_hash_is_internal_error() {
    let mut s = service();
    let mut u = user(s.crypto(), 1, "right");
    u.password_hash = "plain".to_string();
    assert!(matches!(s.login_check(Some(u), "right"), Err(AppError::InternalError)));
}

#[test]
fn login_without_second_factor_issues_session() {
    let mut s = service();
    let u = user(s.crypto(), 77, "right");
    let check = s.login_check(Some(u), "right").unwrap();
    let id = match check {
        LoginCheck::IssueSession(id) => id,
        _ => panic!("expected a session"),
    };
    assert_eq!(id, 77);
    let roles = vec![Role { id: 5, name: "Admin".to_string() }, Role { id: 6, name: "Ops".to_string() }];
    let grant = s.new_session(id, &roles).unwrap();
    assert_eq!(grant.user_id, 77);
    assert_eq!(grant.refresh_token_hash, s.crypto().hash_token(&grant.refresh_token));
    let claims = s.crypto().validate_token(&grant.access_token).unwrap();
    assert_eq!(claims.role, "Admin");
    let result = s.finish_login(grant);
    assert!(matches!(result, LoginResult::Success { expires_in: 900, .. }));
    assert_eq!(s.metrics().login_total, 1);
}

#[test]
fn session_without_roles_is_user() {
    let s = service();
    let grant = s.session_at(3, &vec![], 9, 1_700_000_000, &[0xfb, 0xff]).unwrap();
    assert_eq!(grant.chain_id, 9);
    assert_eq!(grant.refresh_token, "-_8");
    assert_eq!(grant.expires_at, 1_700_000_000 + 1296000);
    assert_eq!(grant.refresh_token_hash, s.crypto().hash_token("-_8"));
    let fresh = s.session_in_chain(3, &vec![], 9).unwrap();
    let claims = s.crypto().validate_token(&fresh.access_token).unwrap();
    assert_eq!(claims.role, "User");
    assert_eq!(claims.exp - claims.iat, 900);
}

#[test]
fn two_factor_login_flow() {
    let mut s = service();
    let mut u = user(s.crypto(), 42, "right");
    assert!(matches!(s.setup_2fa(None), Err(AppError::UserNotFound)));
    let setup = s.setup_2fa(Some(u.clone())).unwrap();
    assert_eq!(setup.secret.len(), 32);
    assert!(setup.totp_uri.contains(&format!("secret={}", setup.secret)));
    assert!(setup.totp_uri.starts_with("otpauth://totp/dex-account:a@b.c?"));
    u.totp_secret = Some(setup.secret.clone());
    u.is_2fa_enabled = true;
    let check = s.login_check(Some(u.clone()), "right").unwrap();
    let token = match check {
        LoginCheck::Challenge(LoginResult::TwoFactorChallenge { challenge_token, expires_in }) => {
            assert_eq!(expires_in, 300);
            challenge_token
        }
        _ => panic!("expected a challenge"),
    };
    assert_eq!(s.crypto().validate_challenge_token(&token), Ok(42));
    assert_eq!(s.begin_verify_2fa("unknown"), Err(AppError::InvalidToken));
    assert_eq!(s.begin_verify_2fa(&token), Ok(42));
    assert_eq!(s.metrics().twofa_attempts_total, 2);
    assert_eq!(s.check_second_factor(&token, Some(u.clone()), "000"), Err(AppError::InvalidTwoFactorCode));
    assert_eq!(s.begin_verify_2fa(&token), Ok(42));
    let key = base32::decode(base32::Alphabet::Rfc4648 { padding: false }, &setup.secret).unwrap();
    let totp = totp_rs::TOTP::new(totp_rs::Algorithm::SHA1, 6, 1, 30, key, None, "dex-account".to_string()).unwrap();
    let code = totp.generate_current().unwrap();
    assert_eq!(s.check_second_factor(&token, Some(u), &code), Ok(42));
    assert_eq!(s.begin_verify_2fa(&token), Err(AppError::InvalidToken));
}

#[test]
fn second_factor_refusals() {
    let mut s = service();
    assert_eq!(s.check_second_factor("t", None, "1"), Err(AppError::UserNotFound));
    let u = user(s.crypto(), 1, "pw");
    assert_eq!(s.check_second_factor("t", Some(u), "1"), Err(AppError::InternalError));
    assert_eq!(s.apply_second_factor("t", 1, Err(AppError::InternalError)), Err(AppError::InternalError));
    assert_eq!(s.apply_second_factor("t", 1, Ok(false)), Err(AppError::InvalidTwoFactorCode));
    assert_eq!(s.apply_second_factor("t", 1, Ok(true)), Ok(1));
}

fn stored(revoked: bool, expires_at: i64) -> RefreshTokenChain {
    RefreshTokenChain {
        id: 1,
        user_id: 2,
        chain_id: 3,
        token_hash: "h".to_string(),
        previous_token_hash: None,
        created_at: 0,
        expires_at,
        is_revoked: revoked,
    }
}

#[test]
fn refresh_steps() {
    assert!(matches!(AuthService::refresh_step_at(None, None, 100), Err(AppError::InvalidToken)));
    assert!(matches!(
        AuthService::refresh_step_at(Some(stored(true, 50)), None, 100),
        Ok(RefreshStep::RevokeChainThenReject { chain_id: 3 })
    ));
    assert!(matches!(AuthService::refresh_step_at(Some(stored(false, 50)), None, 100), Err(AppError::TokenExpired)));
    assert!(matches!(
        AuthService::refresh_step_at(Some(stored(false, 100)), None, 100),
        Ok(RefreshStep::Rotate { token_id: 1, chain_id: 3, user_id: 2 })
    ));
    assert!(matches!(AuthService::refresh_step(Some(stored(false, 0)), None), Err(AppError::TokenExpired)));
}

#[test]
fn refresh_rotation_keeps_chain() {
    let s = service();
    let grant = s.session_in_chain(2, &vec![], 3).unwrap();
    assert_eq!(grant.chain_id, 3);
    let r = AuthService::finish_refresh(grant);
    assert_eq!(r.expires_in, 900);
    assert_eq!(r.refresh_token.len(), 86);
}

#[test]
fn active_user_and_logout() {
    let s = service();
    assert!(matches!(AuthService::active_user(None), Err(AppError::UserNotFound)));
    let mut u = user(s.crypto(), 1, "pw");
    u.is_active = false;
    assert!(matches!(AuthService::active_user(Some(u)), Err(AppError::UserInactive)));
    assert_eq!(AuthService::logout_step(None), Err(AppError::InvalidToken));
    assert_eq!(AuthService::logout_step(Some(stored(false, 0))), Ok(1));
}

#[test]
fn enable_second_factor() {
    let s = service();
    assert_eq!(s.enable_2fa_check(None, "1"), Err(AppError::UserNotFound));
    let mut u = user(s.crypto(), 1, "pw");
    assert_eq!(s.enable_2fa_check(Some(u.clone()), "1"), Err(AppError::BadRequest("2FA not setup".to_string())));
    u.totp_secret = Some("!!".to_string());
    assert_eq!(s.enable_2fa_check(Some(u.clone()), "1"), Err(AppError::InternalError));
    u.totp_secret = Some(s.crypto().generate_totp_secret());
    assert_eq!(s.enable_2fa_check(Some(u), "1"), Err(AppError::InvalidTwoFactorCode));
    assert_eq!(AuthService::enable_2fa_outcome(Ok(true)), Ok(()));
}

#[test]
fn password_reset_flow() {
    let s = service();
    assert!(s.password_forgot(None).is_none());
    let u = user(s.crypto(), 8, "pw");
    let g = s.password_reset_grant_at(Some(u.clone()), 1000, b"Man").unwrap();
    assert_eq!(g.user_id, 8);
    assert_eq!(g.token, "TWFu");
    assert_eq!(g.token_hash, s.crypto().hash_token("TWFu"));
    assert_eq!(g.expires_at, 2800);
    let fresh = s.password_forgot(Some(u)).unwrap();
    assert_eq!(fresh.token.len(), 86);
    let reset = PasswordReset { token_hash: g.token_hash.clone(), user_id: 8, expires_at: 2800 };
    assert!(matches!(s.password_reset_step_at(None, "new", 0), Err(AppError::InvalidToken)));
    assert!(matches!(
        s.password_reset_step_at(Some(reset.clone()), "new", 2801),
        Ok(ResetStep::DeleteThenReject)
    ));
    match s.password_reset_step_at(Some(reset), "new", 2800).unwrap() {
        ResetStep::Apply { user_id, password_hash } => {
            assert_eq!(user_id, 8);
            assert_eq!(s.crypto().verify_password("new", &password_hash), Ok(true));
        }
        _ => panic!("expected the new password"),
    }
}

#[test]
fn create_get_and_emergency() {
    let s = service();
    let h = s.create_user("pw").unwrap();
    assert_eq!(s.crypto().verify_password("pw", &h), Ok(true));
    assert!(matches!(AuthService::get_user(None), Err(AppError::UserNotFound)));
    assert!(matches!(s.emergency_recover(None), Err(AppError::UserNotFound)));
    let u = user(s.crypto(), 5, "pw");
    let t = s.emergency_recover(Some(u.clone())).unwrap();
    let c = s.crypto().validate_token(&t).unwrap();
    assert_eq!(c.role, "Admin");
    assert_eq!(c.exp - c.iat, 300);
    let r = UserResponse::from(AuthService::get_user(Some(u)).unwrap());
    assert_eq!(r, UserResponse { id: 5, email: "a@b.c".to_string(), is_2fa_enabled: false, created_at: 10 });
}

#[test]
fn replayed_refresh_token_revokes_its_chain() {
    // The token was rotated: its record is gone and its successor names it.
    let mut successor = stored(false, 10_000);
    successor.id = 9;
    successor.previous_token_hash = Some("h".to_string());
    assert!(matches!(
        AuthService::refresh_step_at(None, Some(successor.clone()), 100),
        Ok(RefreshStep::RevokeChainThenReject { chain_id: 3 })
    ));
    assert!(matches!(
        AuthService::refresh_step(None, Some(successor)),
        Ok(RefreshStep::RevokeChainThenReject { chain_id: 3 })
    ));
}

#[test]
fn challenge_token_lasts_five_minutes() {
    let mut s = service();
    let mut u = user(s.crypto(), 42, "right");
    u.totp_secret = Some(s.crypto().generate_totp_secret());
    u.is_2fa_enabled = true;
    let token = match s.login_check_at(Some(u), "right", 1_000_000).unwrap() {
        LoginCheck::Challenge(LoginResult::TwoFactorChallenge { challenge_token, .. }) => challenge_token,
        _ => panic!("expected a challenge"),
    };
    assert_eq!(s.begin_verify_2fa_at(&token, 1_000_000), Ok(42));
    assert_eq!(s.begin_verify_2fa_at(&token, 1_000_300), Ok(42));
    assert_eq!(s.begin_verify_2fa_at(&token, 1_000_301), Err(AppError::TokenExpired));
    assert_eq!(s.begin_verify_2fa_at("other", 1_000_000), Err(AppError::InvalidToken));
    assert_eq!(s.metrics().twofa_attempts_total, 4);
}

#[test]
fn second_factor_at_a_given_time() {
    let mut s = service();
    let mut u = user(s.crypto(), 42, "right");
    let secret = s.crypto().generate_totp_secret();
    u.totp_secret = Some(secret.clone());
    let key = base32::decode(base32::Alphabet::Rfc4648 { padding: false }, &secret).unwrap();
    let totp = totp_rs::TOTP::new(totp_rs::Algorithm::SHA1, 6, 1, 30, key, None, "dex-account".to_string()).unwrap();
    let t = 1_700_000_000u64;
    let code = totp.generate(t);
    let stale = totp.generate(t - 120);
    assert_eq!(s.crypto().verify_totp_at(&secret, &code, t), Ok(true));
    assert_eq!(s.crypto().verify_totp_at(&secret, &code, t + 30), Ok(true));
    assert_eq!(s.crypto().verify_totp_at(&secret, &stale, t), Ok(stale == code));
    assert_eq!(s.enable_2fa_check_at(Some(u.clone()), &code, t), Ok(()));
    assert_eq!(s.check_second_factor_at("t", Some(u), &code, t), Ok(42));
}

#[test]
fn password_forgot_expires_in_thirty_minutes() {
    let s = service();
    let u = user(s.crypto(), 8, "pw");
    let g = s.password_forgot(Some(u)).unwrap();
    let now = chrono::Utc::now().timestamp();
    assert!(g.expires_at >= now + 1800 - 5 && g.expires_at <= now + 1800);
}

#[test]
fn new_session_chain_is_random_uuid() {
    let s = service();
    let g = s.new_session(1, &vec![]).unwrap();
    assert_eq!((g.chain_id >> 76) & 0xf, 4);
}

#[test]
fn stored_reset_always_leads_to_a_step() {
    let s = service();
    let reset = PasswordReset { token_hash: "h".to_string(), user_id: 8, expires_at: i64::MAX };
    match s.password_reset_step(Some(reset), "new").unwrap() {
        ResetStep::Apply { user_id, password_hash } => {
            assert_eq!(user_id, 8);
            assert!(password_hash.starts_with("$argon2id$v=19$"));
        }
        _ => panic!("expected the new password"),
    }
    let old = PasswordReset { token_hash: "h".to_string(), user_id: 8, expires_at: 0 };
    assert!(matches!(s.password_reset_step(Some(old), "new"), Ok(ResetStep::DeleteThenReject)));
    assert!(matches!(s.password_reset_step(None, "new"), Err(AppError::InvalidToken)));
}
