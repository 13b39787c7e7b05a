use dex_account::error::AppError;
use dex_account::services::crypto::CryptoService;
use uuid::Uuid;

#[test]
fn test_password_hash_and_verify() {
    let service = CryptoService::new("test-secret".to_string());
    let hash = service.hash_password("password123").unwrap();
    assert!(service.verify_password("password123", &hash).unwrap());
    assert!(!service.verify_password("wrongpassword", &hash).unwrap());
}

#[test]
fn test_hash_token() {
    let service = CryptoService::new("test-secret".to_string());
    let hash1 = service.hash_token("token123");
    let hash2 = service.hash_token("token123");
    assert_eq!(hash1, hash2);
    assert_ne!(hash1, service.hash_token("token456"));
}

#[test]
fn test_generate_and_validate_access_token() {
    let service = CryptoService::new("test-secret".to_string());
    let user_id = Uuid::new_v4();
    let token = service.generate_access_token(user_id.as_u128(), "Admin").unwrap();
    let claims = service.validate_token(&token).unwrap();
    assert_eq!(claims.sub, user_id.to_string());
    assert_eq!(claims.role, "Admin");
}

#[test]
fn hash_token_is_hex_sha256() {
    let service = CryptoService::new("s".to_string());
    assert_eq!(
        service.hash_token("abc"),
        "ba7816bf8f01cfea414140de5dae2223b00361a396177a9cb410ff61f20015ad"
    );
    assert_eq!(
        service.hash_token(""),
        "e3b0c44298fc1c149afbf4c8996fb92427ae41e4649b934ca495991b7852b855"
    );
}

#[test]
fn verify_password_rejects_unreadable_hash() {
    let service = CryptoService::new("s".to_string());
    assert_eq!(service.verify_password("pw", "not a phc string"), Err(AppError::InternalError));
    assert_eq!(service.verify_password("pw", ""), Err(AppError::InternalError));
}

#[test]
fn access_token_claims_are_exact() {
    let service = CryptoService::new("secret-key".to_string());
    let now = chrono::Utc::now().timestamp();
    let id = 0x0123456789abcdef0123456789abcdefu128;
    let token = service.access_token_at(id, "User", now).unwrap();
    let claims = service.validate_token(&token).unwrap();
    assert_eq!(claims.sub, "01234567-89ab-cdef-0123-456789abcdef");
    assert_eq!(claims.role, "User");
    assert_eq!(claims.iat, now);
    assert_eq!(claims.exp, now + 900);
}

#[test]
fn expired_token_is_token_expired() {
    let service = CryptoService::new("secret-key".to_string());
    let token = service.access_token_at(7, "Admin", 1000).unwrap();
    assert_eq!(service.validate_token(&token), Err(AppError::TokenExpired));
}

#[test]
fn token_of_other_secret_is_invalid() {
    let a = CryptoService::new("secret-a".to_string());
    let b = CryptoService::new("secret-b".to_string());
    let token = a.generate_access_token(42, "Admin").unwrap();
    assert_eq!(b.validate_token(&token), Err(AppError::InvalidToken));
    assert_eq!(a.validate_token("garbage"), Err(AppError::InvalidToken));
}

#[test]
fn challenge_token_round_trip() {
    let service = CryptoService::new("k".to_string());
    let id = Uuid::new_v4().as_u128();
    let token = service.generate_challenge_token(id).unwrap();
    assert_eq!(service.validate_challenge_token(&token), Ok(id));
    let claims = service.validate_token(&token).unwrap();
    assert_eq!(claims.role, "2fa_challenge");
    assert_eq!(claims.exp - claims.iat, 300);
}

#[test]
fn access_token_is_not_a_challenge() {
    let service = CryptoService::new("k".to_string());
    let token = service.generate_access_token(5, "Admin").unwrap();
    assert_eq!(service.validate_challenge_token(&token), Err(AppError::InvalidToken));
    let expired = service.challenge_token_at(5, 1000).unwrap();
    assert_eq!(service.validate_challenge_token(&expired), Err(AppError::InvalidToken));
}

#[test]
fn emergency_token_is_admin_for_five_minutes() {
    let service = CryptoService::new("k".to_string());
    let id = 99u128;
    let token = service.generate_emergency_token(id).unwrap();
    let claims = service.validate_token(&token).unwrap();
    assert_eq!(claims.role, "Admin");
    assert_eq!(claims.sub, Uuid::from_u128(id).to_string());
    assert_eq!(claims.exp - claims.iat, 300);
}

#[test]
fn refresh_token_shape() {
    let service = CryptoService::new("k".to_string());
    let t = service.generate_refresh_token();
    assert_eq!(t.len(), 86);
    assert!(t.chars().all(|c| c.is_ascii_alphanumeric() || c == '-' || c == '_'));
    assert_ne!(t, service.generate_refresh_token());
}

#[test]
fn refresh_token_from_bytes_is_base64url() {
    assert_eq!(CryptoService::refresh_token_from_bytes(&[0xfb, 0xff]), "-_8");
    assert_eq!(CryptoService::refresh_token_from_bytes(b"Man"), "TWFu");
    assert_eq!(CryptoService::refresh_token_from_bytes(b"Ma"), "TWE");
    assert_eq!(CryptoService::refresh_token_from_bytes(b"M"), "TQ");
    assert_eq!(CryptoService::refresh_token_from_bytes(b""), "");
}

#[test]
fn expiry_instants() {
    assert_eq!(CryptoService::refresh_expiry_at(1000), 1000 + 1296000);
    assert_eq!(CryptoService::password_reset_expiry_at(1000), 2800);
    let service = CryptoService::new("k".to_string());
    let now = chrono::Utc::now().timestamp();
    let e = service.calculate_refresh_expiry();
    assert!(e >= now + 1296000 && e <= now + 1296000 + 5);
    let r = service.calculate_password_reset_expiry();
    assert!(r >= now + 1800 && r <= now + 1800 + 5);
}

#[test]
fn totp_secret_shape() {
    let service = CryptoService::new("k".to_string());
    let s = service.generate_totp_secret();
    assert_eq!(s.len(), 32);
    assert!(s.chars().all(|c| c.is_ascii_uppercase() || ('2'..='7').contains(&c)));
    assert_eq!(CryptoService::totp_secret_from_bytes(b"foobar"), "MZXW6YTBOI");
}

#[test]
fn totp_uri_format() {
    let service = CryptoService::new("k".to_string());
    assert_eq!(
        service.generate_totp_uri("JBSWY3DPEHPK3PXP", "a@b.c"),
        "otpauth://totp/dex-account:a@b.c?secret=JBSWY3DPEHPK3PXP&issuer=dex-account&algorithm=SHA1&digits=6&period=30"
    );
}

#[test]
fn verify_totp_outcomes() {
    let service = CryptoService::new("k".to_string());
    assert_eq!(service.verify_totp("!!!!", "123456"), Err(AppError::InternalError));
    let short = CryptoService::totp_secret_from_bytes(&[1u8; 10]);
    assert_eq!(service.verify_totp(&short, "123456"), Err(AppError::InternalError));
    let secret = service.generate_totp_secret();
    assert_eq!(service.verify_totp(&secret, "abc"), Ok(false));
    let key = base32::decode(base32::Alphabet::Rfc4648 { padding: false }, &secret).unwrap();
    let totp = totp_rs::TOTP::new(totp_rs::Algorithm::SHA1, 6, 1, 30, key, None, "dex-account".to_string()).unwrap();
    let code = totp.generate_current().unwrap();
    assert_eq!(service.verify_totp(&secret, &code), Ok(true));
}

#[test]
fn claims_need_all_four_fields() {
    let c = CryptoService::claims_from_decoded((Some("s".to_string()), Some("r".to_string()), Some(2), Some(1))).unwrap();
    assert_eq!((c.sub.as_str(), c.role.as_str(), c.exp, c.iat), ("s", "r", 2, 1));
    assert_eq!(
        CryptoService::claims_from_decoded((Some("s".to_string()), None, Some(2), Some(1))),
        Err(AppError::InvalidToken)
    );
}

#[test]
fn uuid_v7_is_time_ordered() {
    let service = CryptoService::new("k".to_string());
    let a = service.generate_uuid_v7();
    let b = service.generate_uuid_v7();
    assert!(a < b);
}

#[test]
fn uuid_v7_has_version_and_variant_bits() {
    let service = CryptoService::new("k".to_string());
    for _ in 0..16 {
        let u = service.generate_uuid_v7();
        assert_eq!((u >> 76) & 0xf, 7);
        assert_eq!((u >> 62) & 0x3, 2);
    }
}

#[test]
fn challenge_validation_refuses_other_roles() {
    let service = CryptoService::new("k".to_string());
    let access = service.generate_access_token(9, "Admin").unwrap();
    assert_eq!(service.validate_challenge_token(&access), Err(AppError::InvalidToken));
    let challenge = service.generate_challenge_token(9).unwrap();
    assert_eq!(service.validate_challenge_token(&challenge), Ok(9));
}

#[test]
fn password_hash_is_argon2id() {
    let service = CryptoService::new("k".to_string());
    let a = service.hash_password("pw").unwrap();
    let b = service.hash_password("pw").unwrap();
    assert!(a.starts_with("$argon2id$v=19$"));
    assert_ne!(a, b);
    assert_eq!(service.verify_password("pw", &b), Ok(true));
}

#[test]
fn token_accepted_until_leeway_after_expiry() {
    let service = CryptoService::new("k".to_string());
    let token = service.access_token_at(7, "Admin", 1_000_000).unwrap();
    let c = service.validate_token_at(&token, 1_000_000).unwrap();
    assert_eq!((c.exp, c.iat), (1_000_900, 1_000_000));
    assert!(service.validate_token_at(&token, 1_000_960).is_ok());
    assert_eq!(service.validate_token_at(&token, 1_000_961), Err(AppError::TokenExpired));
    assert_eq!(service.validate_token_at("garbage", 0), Err(AppError::InvalidToken));
}

#[test]
fn challenge_token_accepted_within_its_lifetime() {
    let service = CryptoService::new("k".to_string());
    let token = service.challenge_token_at(9, 2_000_000).unwrap();
    assert_eq!(service.validate_challenge_token_at(&token, 2_000_000), Ok(9));
    assert_eq!(service.validate_challenge_token_at(&token, 2_000_360), Ok(9));
    assert_eq!(service.validate_challenge_token_at(&token, 2_000_361), Err(AppError::InvalidToken));
}

#[test]
fn base32_rfc4648_vectors() {
    let cases: [(&[u8], &str); 7] = [
        (b"", ""),
        (b"f", "MY"),
        (b"fo", "MZXQ"),
        (b"foo", "MZXW6"),
        (b"foob", "MZXW6YQ"),
        (b"fooba", "MZXW6YTB"),
        (b"foobar", "MZXW6YTBOI"),
    ];
    for (bytes, text) in cases {
        assert_eq!(CryptoService::totp_secret_from_bytes(bytes), text);
    }
}

#[test]
fn totp_secret_alphabet() {
    let service = CryptoService::new("k".to_string());
    let s = service.generate_totp_secret();
    assert_eq!(s.len(), 32);
    assert!(s.chars().all(|c| c.is_ascii_uppercase() || ('2'..='7').contains(&c)));
}
