use dex_account::error::AppError;
use dex_account::routes::auth::{
    check_emergency_key, check_setup_token, clear_refresh_cookie, create_refresh_cookie,
    extract_refresh_token, second_factor_response, REFRESH_COOKIE_MAX_AGE_SECS,
};
use dex_account::services::auth::LoginResult;
use dex_account::services::crypto::CryptoService;

#[test]
fn refresh_cookie_text() {
    assert_eq!(
        create_refresh_cookie("abc", 1296000),
        "refresh_token=abc; HttpOnly; SameSite=Strict; Secure; Path=/; Max-Age=1296000"
    );
    assert_eq!(
        clear_refresh_cookie(),
        "refresh_token=; HttpOnly; SameSite=Strict; Secure; Path=/; Max-Age=0"
    );
    assert_eq!(create_refresh_cookie("", 0), clear_refresh_cookie());
    assert_eq!(REFRESH_COOKIE_MAX_AGE_SECS, 1296000);
}

#[test]
fn refresh_token_is_read_from_cookie_header() {
    assert_eq!(extract_refresh_token(Some("refresh_token=xyz")), Ok("xyz".to_string()));
    assert_eq!(
        extract_refresh_token(Some("theme=dark; refresh_token=abc-_1 ; other=1")),
        Ok("abc-_1".to_string())
    );
    assert_eq!(extract_refresh_token(Some("refresh_token=a=b")), Ok("a".to_string()));
    assert_eq!(
        extract_refresh_token(Some("refresh_token; refresh_token=second")),
        Ok("second".to_string())
    );
    assert_eq!(extract_refresh_token(Some("refresh_token=")), Ok("".to_string()));
    assert_eq!(extract_refresh_token(Some("\trefresh_token=t\t")), Ok("t".to_string()));
}

#[test]
fn missing_refresh_token_is_unauthorized() {
    assert_eq!(extract_refresh_token(None), Err(AppError::Unauthorized));
    assert_eq!(extract_refresh_token(Some("")), Err(AppError::Unauthorized));
    assert_eq!(extract_refresh_token(Some("session=1; refresh=2")), Err(AppError::Unauthorized));
    assert_eq!(extract_refresh_token(Some("Refresh_token=1")), Err(AppError::Unauthorized));
    assert_eq!(extract_refresh_token(Some("x refresh_token=1")), Err(AppError::Unauthorized));
}

#[test]
fn issued_cookie_reads_back() {
    let service = CryptoService::new("k".to_string());
    for _ in 0..5 {
        let t = service.generate_refresh_token();
        let cookie = create_refresh_cookie(&t, REFRESH_COOKIE_MAX_AGE_SECS);
        assert_eq!(extract_refresh_token(Some(&cookie)), Ok(t.clone()));
        assert_eq!(extract_refresh_token(Some(&format!("refresh_token={}", t))), Ok(t));
    }
}

#[test]
fn emergency_key_checks() {
    assert_eq!(check_emergency_key(None, "key"), Err(AppError::Unauthorized));
    assert_eq!(check_emergency_key(Some("nope"), "key"), Err(AppError::Forbidden));
    assert_eq!(check_emergency_key(Some("key"), "key"), Ok(()));
}

#[test]
fn setup_token_checks() {
    assert_eq!(check_setup_token("a", "b"), Err(AppError::Unauthorized));
    assert_eq!(check_setup_token("tok", "tok"), Ok(()));
}

#[test]
fn second_factor_response_never_challenges_again() {
    let c = Ok(LoginResult::TwoFactorChallenge { challenge_token: "c".to_string(), expires_in: 300 });
    assert!(matches!(second_factor_response(c), Err(AppError::InternalError)));
    let e = Err(AppError::InvalidToken);
    assert!(matches!(second_factor_response(e), Err(AppError::InvalidToken)));
    let s = Ok(LoginResult::Success { access_token: "a".to_string(), refresh_token: "r".to_string(), expires_in: 900 });
    match second_factor_response(s) {
        Ok(LoginResult::Success { access_token, refresh_token, expires_in }) => {
            assert_eq!((access_token.as_str(), refresh_token.as_str(), expires_in), ("a", "r", 900));
        }
        _ => panic!("expected success"),
    }
}
