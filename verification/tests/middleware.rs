use dex_account::error::AppError;
use dex_account::middleware::auth::{
    authenticate, authenticate_admin, authenticate_admin_at, authenticate_at, authorize, bearer_token_of,
    user_of_claims, UserId, UserRole,
};
use dex_account::models::Claims;
use dex_account::middleware::client_ip::{choose_client_ip, first_forwarded_entry};
use dex_account::middleware::rate_limit::{
    general_rate_limit, login_rate_limit, password_forgot_rate_limit, verify_2fa_rate_limit,
    RateLimitPolicy,
};
use dex_account::services::crypto::CryptoService;

#[test]
fn bearer_prefix() {
    assert_eq!(bearer_token_of(Some("Bearer abc.def")), Ok("abc.def".to_string()));
    assert_eq!(bearer_token_of(Some("Bearer ")), Ok("".to_string()));
    assert_eq!(bearer_token_of(Some("bearer abc")), Err(AppError::Unauthorized));
    assert_eq!(bearer_token_of(Some("Basic abc")), Err(AppError::Unauthorized));
    assert_eq!(bearer_token_of(Some("Bearer")), Err(AppError::Unauthorized));
    assert_eq!(bearer_token_of(None), Err(AppError::Unauthorized));
}

#[test]
fn authenticate_signed_user() {
    let crypto = CryptoService::new("secret".to_string());
    let id = 0xfeedu128;
    let token = crypto.generate_access_token(id, "Admin").unwrap();
    let header = format!("Bearer {}", token);
    assert_eq!(authenticate(&crypto, Some(&header)), Ok(UserId(id)));
    assert_eq!(authenticate(&crypto, Some(&token)), Err(AppError::Unauthorized));
    assert_eq!(authenticate(&crypto, None), Err(AppError::Unauthorized));
    assert_eq!(authenticate(&crypto, Some("Bearer x.y.z")), Err(AppError::InvalidToken));
    let expired = crypto.access_token_at(id, "Admin", 100).unwrap();
    assert_eq!(
        authenticate(&crypto, Some(&format!("Bearer {}", expired))),
        Err(AppError::TokenExpired)
    );
}

#[test]
fn forwarded_header_first_entry() {
    assert_eq!(first_forwarded_entry(" 203.0.113.7 , 10.0.0.1"), "203.0.113.7");
    assert_eq!(first_forwarded_entry("::1"), "::1");
    assert_eq!(first_forwarded_entry(""), "");
    assert_eq!(first_forwarded_entry(",x"), "");
}

#[test]
fn client_ip_priority() {
    assert_eq!(choose_client_ip(Some(1), Some(2), Some(3), 0), 1);
    assert_eq!(choose_client_ip(None, Some(2), Some(3), 0), 2);
    assert_eq!(choose_client_ip(None, None, Some(3), 0), 3);
    assert_eq!(choose_client_ip::<u8>(None, None, None, 0), 0);
}

#[test]
fn rate_limits() {
    assert_eq!(login_rate_limit(), RateLimitPolicy { replenish_interval_ms: 1000, burst_size: 5 });
    assert_eq!(verify_2fa_rate_limit(), RateLimitPolicy { replenish_interval_ms: 1000, burst_size: 5 });
    assert_eq!(password_forgot_rate_limit(), RateLimitPolicy { replenish_interval_ms: 1000, burst_size: 3 });
    assert_eq!(general_rate_limit(), RateLimitPolicy { replenish_interval_ms: 100, burst_size: 50 });
}

#[test]
fn user_role_holds_its_name() {
    let r = UserRole("Admin");
    assert_eq!(r.0, "Admin");
}

#[test]
fn forwarded_address_wins_over_peer() {
    let forwarded = Some(first_forwarded_entry("203.0.113.7, 10.0.0.1"));
    let peer = Some("10.0.0.2".to_string());
    assert_eq!(
        choose_client_ip(forwarded, None, peer, "127.0.0.1".to_string()),
        "203.0.113.7"
    );
}

#[test]
fn challenge_token_opens_no_protected_route() {
    let crypto = CryptoService::new("secret".to_string());
    let challenge = crypto.generate_challenge_token(7).unwrap();
    assert_eq!(
        authenticate(&crypto, Some(&format!("Bearer {}", challenge))),
        Err(AppError::InvalidToken)
    );
}

#[test]
fn claims_and_validation_outcomes() {
    let c = Claims {
        sub: "00000000-0000-0000-0000-000000000007".to_string(),
        role: "User".to_string(),
        exp: 2,
        iat: 1,
    };
    assert_eq!(user_of_claims(&c), Ok(UserId(7)));
    let mut bad = c.clone();
    bad.sub = "nope".to_string();
    assert_eq!(user_of_claims(&bad), Err(AppError::InvalidToken));
    let mut ch = c.clone();
    ch.role = "2fa_challenge".to_string();
    assert_eq!(user_of_claims(&ch), Err(AppError::InvalidToken));
    assert_eq!(authorize(Err(AppError::TokenExpired)), Err(AppError::TokenExpired));
    assert_eq!(authorize(Ok(c)), Ok(UserId(7)));
}

#[test]
fn authentication_at_a_given_time() {
    let crypto = CryptoService::new("secret".to_string());
    let token = crypto.access_token_at(11, "User", 5_000_000).unwrap();
    let header = format!("Bearer {}", token);
    assert_eq!(authenticate_at(&crypto, Some(&header), 5_000_100), Ok(UserId(11)));
    assert_eq!(authenticate_at(&crypto, Some(&header), 5_000_961), Err(AppError::TokenExpired));
    assert_eq!(authenticate_at(&crypto, None, 5_000_100), Err(AppError::Unauthorized));
}

#[test]
fn administrators_route_needs_admin_role() {
    let crypto = CryptoService::new("secret".to_string());
    let user = crypto.generate_access_token(11, "User").unwrap();
    let admin = crypto.generate_access_token(12, "Admin").unwrap();
    assert_eq!(authenticate_admin(&crypto, Some(&format!("Bearer {}", user))), Err(AppError::Forbidden));
    assert_eq!(authenticate_admin(&crypto, Some(&format!("Bearer {}", admin))), Ok(UserId(12)));
    assert_eq!(authenticate_admin(&crypto, Some("Basic x")), Err(AppError::Unauthorized));
    let old = crypto.access_token_at(12, "Admin", 1000).unwrap();
    assert_eq!(
        authenticate_admin_at(&crypto, Some(&format!("Bearer {}", old)), 1_000_000),
        Err(AppError::TokenExpired)
    );
}
