use dex_account::error::AppError;

#[test]
fn error_texts_and_statuses() {
    let cases: Vec<(AppError, u16, &str)> = vec![
        (AppError::InvalidCredentials, 401, "Invalid credentials"),
        (AppError::UserNotFound, 404, "User not found"),
        (AppError::UserInactive, 403, "User inactive"),
        (AppError::InvalidToken, 401, "Invalid token"),
        (AppError::TokenExpired, 401, "Token expired"),
        (AppError::TokenRevoked, 401, "Token revoked"),
        (AppError::TwoFactorRequired, 401, "2FA required"),
        (AppError::InvalidTwoFactorCode, 401, "Invalid 2FA code"),
        (AppError::RateLimitExceeded, 429, "Rate limit exceeded"),
        (AppError::IpLocked(15), 429, "Too many failed attempts. Account locked for 15 minutes"),
        (AppError::Unauthorized, 401, "Unauthorized"),
        (AppError::Forbidden, 403, "Forbidden"),
        (AppError::InternalError, 500, "Internal server error"),
    ];
    for (e, status, text) in cases {
        assert_eq!(e.status_code(), status);
        assert_eq!(e.message(), text);
        assert_eq!(e.response_message(), text);
    }
}

#[test]
fn database_error_is_not_disclosed() {
    let e = AppError::Database("connection refused".to_string());
    assert_eq!(e.status_code(), 500);
    assert_eq!(e.message(), "Database error: connection refused");
    assert_eq!(e.response_message(), "Internal server error");
}

#[test]
fn bad_request_shows_its_message() {
    let e = AppError::BadRequest("2FA not setup".to_string());
    assert_eq!(e.status_code(), 400);
    assert_eq!(e.message(), "Invalid request: 2FA not setup");
    assert_eq!(e.response_message(), "2FA not setup");
}

#[test]
fn lock_minutes_are_written_in_decimal() {
    assert_eq!(AppError::IpLocked(0).message(), "Too many failed attempts. Account locked for 0 minutes");
    assert_eq!(
        AppError::IpLocked(u64::MAX).message(),
        "Too many failed attempts. Account locked for 18446744073709551615 minutes"
    );
}
