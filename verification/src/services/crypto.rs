//! Cryptographic services: password hashing, token hashing, signed tokens,
//! refresh tokens and time-based one-time passwords.

use vstd::prelude::*;
use argon2::{PasswordHasher, PasswordVerifier};
use crate::encoding::{
    base32_rfc4648, base32_rfc4648_decoded, base64url_nopad, decode_base32, encode_base32,
    is_base32_char, lemma_base32_shape,
    encode_base64url, hex_lower, lemma_hex_lower_len, parse_uuid, sha256, sha256_digest, to_hex_lower, uuid_parsed,
    uuid_text, uuid_to_text,
};
use crate::error::AppError;
use crate::models::Claims;
use crate::system::{is_uuid_v7, max_unix_secs, os_random_bytes, thread_random_bytes, time_ordered_uuid, unix_now_secs};
use crate::text::text_equals;

verus! {

/// Lifetime of an access token: fifteen minutes.
pub const ACCESS_TOKEN_EXPIRY_SECS: i64 = 900;

/// Lifetime of a refresh token: fifteen days.
pub const REFRESH_TOKEN_EXPIRY_SECS: i64 = 1296000;

/// Lifetime of a two-factor challenge token: five minutes.
pub const CHALLENGE_TOKEN_EXPIRY_SECS: i64 = 300;

/// Lifetime of a password-reset token: thirty minutes.
pub const PASSWORD_RESET_EXPIRY_SECS: i64 = 1800;

/// Lifetime of a token made by the command-line recovery tool: fifteen minutes.
pub const RECOVERY_TOKEN_EXPIRY_SECS: i64 = 900;

/// Lifetime of an emergency token: five minutes.
pub const EMERGENCY_TOKEN_EXPIRY_SECS: i64 = 300;

/// Number of random bytes in a refresh token.
pub const REFRESH_TOKEN_BYTES: usize = 64;

/// Number of random bytes in a TOTP secret.
pub const TOTP_SECRET_BYTES: usize = 20;

/// The role claimed by an emergency token.
pub open spec fn admin_role() -> Seq<char> {
    "Admin"@
}

/// The role claimed by a two-factor challenge token.
pub open spec fn challenge_role() -> Seq<char> {
    "2fa_challenge"@
}

#[verifier::external_type_specification]
#[verifier::external_body]
pub struct ExSaltString(argon2::password_hash::SaltString);

#[verifier::external_type_specification]
#[verifier::external_body]
pub struct ExPasswordHashError(argon2::password_hash::Error);

#[verifier::external_type_specification]
#[verifier::external_body]
pub struct ExJwtError(jsonwebtoken::errors::Error);

#[verifier::external_type_specification]
#[verifier::external_body]
pub struct ExTotp(totp_rs::TOTP);

#[verifier::external_type_specification]
#[verifier::external_body]
pub struct ExTotpUrlError(totp_rs::TotpUrlError);

/// `SaltString::generate(&mut OsRng)`: a random salt for Argon2.
#[verifier::external_body]
fn random_salt() -> argon2::password_hash::SaltString {
    argon2::password_hash::SaltString::generate(&mut argon2::password_hash::rand_core::OsRng)
}

/// What checking `password` against the PHC string `phc` gives with Argon2's
/// default instance: `None` when `phc` does not parse as a PHC string, else
/// whether the password matches.
pub uninterp spec fn argon2_check(password: Seq<char>, phc: Seq<char>) -> Option<bool>;

/// The start of every PHC string that Argon2's default instance writes: the
/// algorithm Argon2id, version 19 (0x13).
pub open spec fn argon2id_phc_prefix() -> Seq<char> {
    "$argon2id$v=19$"@
}

/// `Argon2::default().hash_password(password, salt)`, as its PHC string. The
/// `PasswordVerifier` impl in the `password-hash` source recomputes the hash
/// with the salt and parameters written in that string, so the string parses
/// and `password` checks against it. The default instance is Argon2id,
/// version 19, and `PasswordHash`'s `Display` starts with `$argon2id$v=19$`.
/// `hash_password_into` refuses only a password longer than `0xFFFFFFFF`
/// bytes (the salt of a generated `SaltString` and the default output length
/// are in range), so every shorter password is hashed. Which other passwords
/// would also match is not stated.
#[verifier::external_body]
fn argon2_hash(
    password: &str,
    salt: &argon2::password_hash::SaltString,
) -> (res: Result<String, argon2::password_hash::Error>)
    ensures
        vstd::utf8::encode_utf8(password@).len() <= 0xFFFF_FFFF ==> res is Ok,
        res matches Ok(h) ==> argon2_check(password@, h@) == Some(true),
        res matches Ok(h) ==> argon2id_phc_prefix().is_prefix_of(h@),
{
    argon2::Argon2::default().hash_password(password.as_bytes(), salt).map(|h| h.to_string())
}

/// `PasswordHash::new(phc)` followed by `Argon2::default().verify_password`:
/// an error when the PHC string does not parse, else whether the password
/// matches; both are the name `argon2_check`.
#[verifier::external_body]
fn argon2_verify(password: &str, phc: &str) -> (res: Result<bool, argon2::password_hash::Error>)
    ensures
        match argon2_check(password@, phc@) {
            None => res is Err,
            Some(b) => res matches Ok(r) && r == b,
        },
{
    let parsed = argon2::password_hash::PasswordHash::new(phc)?;
    Ok(argon2::Argon2::default().verify_password(password.as_bytes(), &parsed).is_ok())
}

/// The compact JWS that `jsonwebtoken::encode` makes with the default header
/// (HS256) of the claims `sub`, `role`, `exp`, `iat`, signed with `secret`.
pub uninterp spec fn jwt_hs256(
    sub: Seq<char>,
    role: Seq<char>,
    exp: i64,
    iat: i64,
    secret: Seq<char>,
) -> Seq<char>;

/// `jsonwebtoken::encode(&Header::default(), claims, &EncodingKey::from_secret(secret))`
/// for the claims object `{sub, role, exp, iat}`. Its source only fails for a
/// key of another family than the header's algorithm or claims that do not
/// serialize; neither happens for an HMAC secret and this object, so it
/// succeeds, with the token named `jwt_hs256`.
#[verifier::external_body]
fn jwt_encode(sub: &str, role: &str, exp: i64, iat: i64, secret: &str)
    -> (res: Result<String, jsonwebtoken::errors::Error>)
    ensures
        res is Ok,
        res matches Ok(t) ==> t@ == jwt_hs256(sub@, role@, exp, iat, secret@),
{
    let claims: serde_json::Map<String, serde_json::Value> = serde_json::Map::from_iter([
        ("sub".to_string(), serde_json::Value::from(sub)),
        ("role".to_string(), serde_json::Value::from(role)),
        ("exp".to_string(), serde_json::Value::from(exp)),
        ("iat".to_string(), serde_json::Value::from(iat)),
    ]);
    let key = jsonwebtoken::EncodingKey::from_secret(secret.as_bytes());
    jsonwebtoken::encode(&jsonwebtoken::Header::default(), &claims, &key)
}

/// The claims read from a token: `sub`, `role`, `exp`, `iat`, each present
/// only when the token holds it with the right JSON type.
pub type DecodedClaims = (Option<String>, Option<String>, Option<i64>, Option<i64>);

/// Whether decoded claims are exactly `sub`, `role`, `exp`, `iat`.
pub open spec fn decoded_claims_are(
    c: DecodedClaims,
    sub: Seq<char>,
    role: Seq<char>,
    exp: i64,
    iat: i64,
) -> bool {
    &&& c.0 matches Some(s) && s@ == sub
    &&& c.1 matches Some(r) && r@ == role
    &&& c.2 == Some(exp)
    &&& c.3 == Some(iat)
}

/// What a token reads as under `secret`, when its signature and form are
/// checked but not its expiry: the `sub`, `role`, `exp` and `iat` of its
/// claims (each present only with the right JSON type), or nothing when the
/// token is refused.
pub uninterp spec fn jwt_payload(token: Seq<char>, secret: Seq<char>) -> Option<
    (Option<Seq<char>>, Option<Seq<char>>, Option<i64>, Option<i64>),
>;

/// Decoded claims as plain text and numbers.
pub open spec fn decoded_view(c: DecodedClaims) -> (
    Option<Seq<char>>,
    Option<Seq<char>>,
    Option<i64>,
    Option<i64>,
) {
    (
        match c.0 {
            Some(s) => Some(s@),
            None => None,
        },
        match c.1 {
            Some(r) => Some(r@),
            None => None,
        },
        c.2,
        c.3,
    )
}

/// `jsonwebtoken::decode` into a JSON object, with `Validation::default()`
/// (HS256, `exp` required as a non-negative number) except that the expiry is
/// not compared with the clock (`validate_exp = false`); the object's `sub`,
/// `role`, `exp` and `iat` are then read. Without the clock the outcome is a
/// function of the token and the secret, named `jwt_payload`. A token that
/// `jwt_encode` made with the same secret and a non-negative `exp` is accepted
/// and reads back as the claims it was made of; one with a negative `exp` is
/// refused (`exp` does not parse as the `u64` the validation requires).
#[verifier::external_body]
fn jwt_decode(token: &str, secret: &str) -> (res: Result<DecodedClaims, jsonwebtoken::errors::Error>)
    ensures
        match jwt_payload(token@, secret@) {
            None => res is Err,
            Some(p) => res matches Ok(c) && decoded_view(c) == p,
        },
        forall|sub: Seq<char>, role: Seq<char>, exp: i64, iat: i64|
            #[trigger] jwt_hs256(sub, role, exp, iat, secret@) == token@ ==> if 0 <= exp {
                res matches Ok(c) && decoded_claims_are(c, sub, role, exp, iat)
            } else {
                res is Err
            },
{
    let key = jsonwebtoken::DecodingKey::from_secret(secret.as_bytes());
    let mut validation = jsonwebtoken::Validation::default();
    validation.validate_exp = false;
    let c = jsonwebtoken::decode::<serde_json::Map<String, serde_json::Value>>(token, &key, &validation)?.claims;
    let text = |k: &str| match c.get(k) { Some(serde_json::Value::String(s)) => Some(s.clone()), _ => None };
    let number = |k: &str| match c.get(k) { Some(serde_json::Value::Number(n)) => n.as_i64(), _ => None };
    Ok((text("sub"), text("role"), number("exp"), number("iat")))
}

/// Hash algorithm of a TOTP generator.
#[derive(Clone, Copy)]
pub enum TotpAlgorithm {
    Sha1,
    Sha256,
    Sha512,
}

/// Whether `code` is a valid code at Unix time `time` (seconds) for a TOTP
/// generator with these parameters and key, allowing `skew` steps either side:
/// what `totp_rs::TOTP::check` answers.
pub uninterp spec fn totp_code_valid(
    algorithm: TotpAlgorithm,
    digits: usize,
    skew: u8,
    step: u64,
    key: Seq<u8>,
    code: Seq<char>,
    time: u64,
) -> bool;

/// `totp_rs::TOTP::new` with these parameters, then `TOTP::check(code, time)`.
/// `new`'s source refuses exactly: `digits` outside 6..=8, a key shorter than
/// 16 bytes, and an issuer or account name holding `:`. `check` is a function
/// of the algorithm, digits, skew, step, key, code and time (the issuer and
/// account name do not enter it), named `totp_code_valid`; it divides by
/// `step` and subtracts `skew` steps from `time`, so those must not underflow.
#[verifier::external_body]
fn totp_check_at(
    algorithm: TotpAlgorithm,
    digits: usize,
    skew: u8,
    step: u64,
    secret: Vec<u8>,
    issuer: Option<String>,
    account_name: String,
    code: &str,
    time: u64,
) -> (res: Result<bool, totp_rs::TotpUrlError>)
    requires
        step > 0,
        skew as u64 <= time / step,
        time + 2 * (skew as u64) * step <= u64::MAX,
    ensures
        res is Ok <==> {
            &&& 6 <= digits <= 8
            &&& secret@.len() >= 16
            &&& (issuer matches Some(i) ==> !i@.contains(':'))
            &&& !account_name@.contains(':')
        },
        res matches Ok(b) ==> b == totp_code_valid(algorithm, digits, skew, step, secret@, code@, time),
{
    let algorithm = match algorithm {
        TotpAlgorithm::Sha1 => totp_rs::Algorithm::SHA1,
        TotpAlgorithm::Sha256 => totp_rs::Algorithm::SHA256,
        TotpAlgorithm::Sha512 => totp_rs::Algorithm::SHA512,
    };
    let totp = totp_rs::TOTP::new(algorithm, digits, skew, step, secret, issuer, account_name)?;
    Ok(totp.check(code, time))
}

/// What checking a password against a stored hash answers: whether it
/// matches, or `InternalError` when the hash does not parse.
pub open spec fn password_check(password: Seq<char>, hash: Seq<char>) -> Result<bool, AppError> {
    match argon2_check(password, hash) {
        None => Err(AppError::InternalError),
        Some(b) => Ok(b),
    }
}

/// Whether accepted claims are, for every way the token could have been signed
/// with `secret`, the claims it was signed with.
pub open spec fn claims_read_back(secret: Seq<char>, token: Seq<char>, c: Claims) -> bool {
    forall|sub: Seq<char>, role: Seq<char>, exp: i64, iat: i64|
        #[trigger] jwt_hs256(sub, role, exp, iat, secret) == token ==> (c.sub@ == sub && c.role@
            == role && c.exp == exp && c.iat == iat)
}

/// The token stored in place of a token: lower-case hexadecimal SHA-256 of its
/// UTF-8 bytes.
pub open spec fn token_digest(token: Seq<char>) -> Seq<char> {
    hex_lower(sha256_digest(vstd::utf8::encode_utf8(token)))
}

/// The `otpauth://` URI that an authenticator app reads a TOTP secret from.
pub open spec fn totp_uri(secret: Seq<char>, email: Seq<char>) -> Seq<char> {
    "otpauth://totp/dex-account:"@ + email + "?secret="@ + secret
        + "&issuer=dex-account&algorithm=SHA1&digits=6&period=30"@
}

/// Length of a TOTP step, in seconds.
pub const TOTP_STEP_SECS: u64 = 30;

/// What checking `code` against a Base32 TOTP secret at Unix time `now`
/// answers: `InternalError` when the secret does not decode to a usable key,
/// else whether the code is valid (SHA-1, six digits, 30-second steps, one
/// step of skew).
pub open spec fn totp_outcome(secret: Seq<char>, code: Seq<char>, now: u64) -> Result<bool, AppError> {
    match base32_rfc4648_decoded(secret) {
        Some(k) => if k.len() >= 16 {
            Ok(totp_code_valid(TotpAlgorithm::Sha1, 6, 1, TOTP_STEP_SECS, k, code, now))
        } else {
            Err(AppError::InternalError)
        },
        None => Err(AppError::InternalError),
    }
}

/// Whether a Base32 TOTP secret decodes to a key that TOTP accepts (at least 16 bytes).
pub open spec fn totp_secret_usable(secret: Seq<char>) -> bool {
    base32_rfc4648_decoded(secret) matches Some(k) && k.len() >= 16
}

/// What `generate_totp_secret` gives: the Base32 text of 20 bytes.
pub open spec fn generated_totp_secret(secret: Seq<char>) -> bool {
    exists|b: Seq<u8>|
        b.len() == 20 && secret == #[trigger] base32_rfc4648(b) && base32_rfc4648_decoded(secret)
            == Some(b)
}

/// The claims that a token decoded into, or `InvalidToken` when one is missing.
pub open spec fn claims_of(c: DecodedClaims) -> Result<Claims, AppError> {
    match c {
        (Some(sub), Some(role), Some(exp), Some(iat)) => Ok(
            Claims { sub: sub, role: role, exp: exp, iat: iat },
        ),
        _ => Err(AppError::InvalidToken),
    }
}

/// Seconds that a token is still accepted after its expiry.
pub const TOKEN_LEEWAY_SECS: i64 = 60;

/// Whether `res` is what checking a token at Unix time `now` answers, from
/// what the token reads as (`jwt_payload`): a refused token, or one that lacks
/// a claim, is `InvalidToken`; one whose `exp` is more than the leeway before
/// `now` is `TokenExpired`; else its claims.
pub open spec fn token_checked(
    p: Option<(Option<Seq<char>>, Option<Seq<char>>, Option<i64>, Option<i64>)>,
    now: i64,
    res: Result<Claims, AppError>,
) -> bool {
    match p {
        Some((Some(sub), Some(role), Some(exp), Some(iat))) => if exp < now - TOKEN_LEEWAY_SECS {
            res == Err::<Claims, AppError>(AppError::TokenExpired)
        } else {
            res matches Ok(c) && c.sub@ == sub && c.role@ == role && c.exp == exp && c.iat == iat
        },
        _ => res == Err::<Claims, AppError>(AppError::InvalidToken),
    }
}

/// Whether `res` is what checking a challenge token at Unix time `now`
/// answers, from what the token reads as: the user its subject names when it
/// passes `token_checked` with the challenge role and a UUID subject, and
/// `InvalidToken` otherwise.
pub open spec fn challenge_checked(
    p: Option<(Option<Seq<char>>, Option<Seq<char>>, Option<i64>, Option<i64>)>,
    now: i64,
    res: Result<u128, AppError>,
) -> bool {
    match p {
        Some((Some(sub), Some(role), Some(exp), Some(iat))) => if exp >= now - TOKEN_LEEWAY_SECS
            && role == challenge_role() {
            match uuid_parsed(sub) {
                Some(u) => res == Ok::<u128, AppError>(u),
                None => res == Err::<u128, AppError>(AppError::InvalidToken),
            }
        } else {
            res == Err::<u128, AppError>(AppError::InvalidToken)
        },
        _ => res == Err::<u128, AppError>(AppError::InvalidToken),
    }
}

/// The user a decoded challenge token names, if it is a challenge token whose
/// subject parses as a UUID.
pub open spec fn challenge_subject(c: Claims) -> Result<u128, AppError> {
    if c.role@ != challenge_role() {
        Err(AppError::InvalidToken)
    } else {
        match uuid_parsed(c.sub@) {
            Some(u) => Ok(u),
            None => Err(AppError::InvalidToken),
        }
    }
}

/// The service that holds the token-signing secret.
pub struct CryptoService {
    jwt_secret: String,
}

impl CryptoService {
    /// The secret that tokens are signed with.
    pub closed spec fn secret(&self) -> Seq<char> {
        self.jwt_secret@
    }

    pub fn new(jwt_secret: String) -> (res: Self)
        ensures
            res.secret() == jwt_secret@,
    {
        CryptoService { jwt_secret }
    }

    /// A token signed with this service's secret for the given claims.
    pub open spec fn signed(&self, sub: Seq<char>, role: Seq<char>, exp: i64, iat: i64) -> Seq<
        char,
    > {
        jwt_hs256(sub, role, exp, iat, self.secret())
    }

    /// Hashes a password with Argon2 and a fresh random salt. The hash checks
    /// back against the password and is an Argon2id (version 19) PHC string;
    /// every password of at most `0xFFFFFFFF` bytes is hashed, and a failure
    /// of the hasher is `InternalError`.
    pub fn hash_password(&self, password: &str) -> (res: Result<String, AppError>)
        ensures
            vstd::utf8::encode_utf8(password@).len() <= 0xFFFF_FFFF ==> res is Ok,
            res matches Ok(h) ==> argon2_check(password@, h@) == Some(true),
            res matches Ok(h) ==> argon2id_phc_prefix().is_prefix_of(h@),
            res matches Err(e) ==> e == AppError::InternalError,
    {
        let salt = random_salt();
        match argon2_hash(password, &salt) {
            Ok(h) => Ok(h),
            Err(_) => Err(AppError::InternalError),
        }
    }

    /// Checks a password against a stored Argon2 hash; a hash that does not
    /// parse is `InternalError`.
    pub fn verify_password(&self, password: &str, hash: &str) -> (res: Result<bool, AppError>)
        ensures
            res == password_check(password@, hash@),
    {
        match argon2_verify(password, hash) {
            Ok(b) => Ok(b),
            Err(_) => Err(AppError::InternalError),
        }
    }

    /// The hexadecimal SHA-256 of a token, which is what the store keeps:
    /// 64 lower-case hexadecimal digits.
    pub fn hash_token(&self, token: &str) -> (res: String)
        ensures
            res@ == token_digest(token@),
            res@.len() == 64,
    {
        let digest = sha256(token.as_bytes());
        proof {
            lemma_hex_lower_len(digest@);
        }
        to_hex_lower(&digest)
    }

    /// A signed token for `user_id` with `role`, issued at `now` and expiring
    /// `lifetime` seconds later.
    fn sign_for(&self, user_id: u128, role: &str, now: i64, lifetime: i64) -> (res: Result<
        String,
        AppError,
    >)
        requires
            0 <= now < max_unix_secs(),
            0 <= lifetime <= REFRESH_TOKEN_EXPIRY_SECS,
        ensures
            res matches Ok(t) && t@ == self.signed(uuid_text(user_id), role@, (now + lifetime) as i64, now),
    {
        let sub = uuid_to_text(user_id);
        match jwt_encode(sub.as_str(), role, now + lifetime, now, self.jwt_secret.as_str()) {
            Ok(t) => Ok(t),
            Err(_) => Err(AppError::InternalError),
        }
    }

    /// The access token for `user_id` with `role` issued at Unix time `now`.
    pub fn access_token_at(&self, user_id: u128, role: &str, now: i64) -> (res: Result<
        String,
        AppError,
    >)
        requires
            0 <= now < max_unix_secs(),
        ensures
            res matches Ok(t) && t@ == self.signed(
                uuid_text(user_id),
                role@,
                (now + ACCESS_TOKEN_EXPIRY_SECS) as i64,
                now,
            ),
    {
        self.sign_for(user_id, role, now, ACCESS_TOKEN_EXPIRY_SECS)
    }

    /// An access token for `user_id` with `role`, valid for fifteen minutes
    /// from now.
    pub fn generate_access_token(&self, user_id: u128, role: &str) -> (res: Result<
        String,
        AppError,
    >)
        ensures
            res matches Ok(t) && exists|now: i64|
                0 <= now < max_unix_secs() && t@ == #[trigger] jwt_hs256(
                    uuid_text(user_id),
                    role@,
                    (now + ACCESS_TOKEN_EXPIRY_SECS) as i64,
                    now,
                    self.secret(),
                ),
    {
        let now = unix_now_secs();
        self.access_token_at(user_id, role, now)
    }

    /// The two-factor challenge token for `user_id` issued at `now`.
    pub fn challenge_token_at(&self, user_id: u128, now: i64) -> (res: Result<String, AppError>)
        requires
            0 <= now < max_unix_secs(),
        ensures
            res matches Ok(t) && t@ == self.signed(
                uuid_text(user_id),
                challenge_role(),
                (now + CHALLENGE_TOKEN_EXPIRY_SECS) as i64,
                now,
            ),
    {
        self.sign_for(user_id, "2fa_challenge", now, CHALLENGE_TOKEN_EXPIRY_SECS)
    }

    /// A two-factor challenge token for `user_id`, valid for five minutes.
    pub fn generate_challenge_token(&self, user_id: u128) -> (res: Result<String, AppError>)
        ensures
            res matches Ok(t) && exists|now: i64|
                0 <= now < max_unix_secs() && t@ == #[trigger] jwt_hs256(
                    uuid_text(user_id),
                    challenge_role(),
                    (now + CHALLENGE_TOKEN_EXPIRY_SECS) as i64,
                    now,
                    self.secret(),
                ),
    {
        let now = unix_now_secs();
        self.challenge_token_at(user_id, now)
    }

    /// The emergency token for `user_id` issued at `now`: role `Admin`.
    pub fn emergency_token_at(&self, user_id: u128, now: i64) -> (res: Result<String, AppError>)
        requires
            0 <= now < max_unix_secs(),
        ensures
            res matches Ok(t) && t@ == self.signed(
                uuid_text(user_id),
                admin_role(),
                (now + EMERGENCY_TOKEN_EXPIRY_SECS) as i64,
                now,
            ),
    {
        self.sign_for(user_id, "Admin", now, EMERGENCY_TOKEN_EXPIRY_SECS)
    }

    /// An emergency `Admin` token for `user_id`, valid for five minutes.
    pub fn generate_emergency_token(&self, user_id: u128) -> (res: Result<String, AppError>)
        ensures
            res matches Ok(t) && exists|now: i64|
                0 <= now < max_unix_secs() && t@ == #[trigger] jwt_hs256(
                    uuid_text(user_id),
                    admin_role(),
                    (now + EMERGENCY_TOKEN_EXPIRY_SECS) as i64,
                    now,
                    self.secret(),
                ),
    {
        let now = unix_now_secs();
        self.emergency_token_at(user_id, now)
    }

    /// The token the recovery tool makes for `user_id` at `now`: role `Admin`,
    /// valid for fifteen minutes.
    pub fn recovery_token_at(&self, user_id: u128, now: i64) -> (res: Result<String, AppError>)
        requires
            0 <= now < max_unix_secs(),
        ensures
            res matches Ok(t) && t@ == self.signed(
                uuid_text(user_id),
                admin_role(),
                (now + RECOVERY_TOKEN_EXPIRY_SECS) as i64,
                now,
            ),
    {
        self.sign_for(user_id, "Admin", now, RECOVERY_TOKEN_EXPIRY_SECS)
    }

    /// An `Admin` token for `user_id`, valid for fifteen minutes from now, as
    /// the recovery tool prints it.
    pub fn generate_recovery_token(&self, user_id: u128) -> (res: Result<String, AppError>)
        ensures
            res matches Ok(t) && exists|now: i64|
                0 <= now < max_unix_secs() && t@ == #[trigger] jwt_hs256(
                    uuid_text(user_id),
                    admin_role(),
                    (now + RECOVERY_TOKEN_EXPIRY_SECS) as i64,
                    now,
                    self.secret(),
                ),
    {
        let now = unix_now_secs();
        self.recovery_token_at(user_id, now)
    }

    /// The claims of a decoded token: all four must be present.
    pub fn claims_from_decoded(c: DecodedClaims) -> (res: Result<Claims, AppError>)
        ensures
            res == claims_of(c),
    {
        match c {
            (Some(sub), Some(role), Some(exp), Some(iat)) => Ok(Claims { sub, role, exp, iat }),
            _ => Err(AppError::InvalidToken),
        }
    }

    /// Checks a token's signature and form, then its expiry at Unix time
    /// `now` (with `TOKEN_LEEWAY_SECS` of leeway), and reads its claims (see
    /// `token_checked`). A token this service signed with a non-negative
    /// expiry is accepted, with its own claims, until the leeway after its
    /// expiry has passed, and is `TokenExpired` from then on; one with a
    /// negative expiry is `InvalidToken`.
    pub fn validate_token_at(&self, token: &str, now: i64) -> (res: Result<Claims, AppError>)
        requires
            0 <= now < max_unix_secs(),
        ensures
            token_checked(jwt_payload(token@, self.secret()), now, res),
            forall|sub: Seq<char>, role: Seq<char>, exp: i64, iat: i64|
                #[trigger] self.signed(sub, role, exp, iat) == token@ ==> (if exp < 0 {
                    res == Err::<Claims, AppError>(AppError::InvalidToken)
                } else if exp < now - TOKEN_LEEWAY_SECS {
                    res == Err::<Claims, AppError>(AppError::TokenExpired)
                } else {
                    res matches Ok(c) && c.sub@ == sub && c.role@ == role && c.exp == exp && c.iat
                        == iat
                }),
    {
        let res = match jwt_decode(token, self.jwt_secret.as_str()) {
            Ok(c) => match Self::claims_from_decoded(c) {
                Ok(cl) => if cl.exp < now - TOKEN_LEEWAY_SECS {
                    Err(AppError::TokenExpired)
                } else {
                    Ok(cl)
                },
                Err(e) => Err(e),
            },
            Err(_) => Err(AppError::InvalidToken),
        };
        proof {
            assert forall|sub: Seq<char>, role: Seq<char>, exp: i64, iat: i64|
                #[trigger] self.signed(sub, role, exp, iat) == token@ implies (if exp < 0 {
                    res == Err::<Claims, AppError>(AppError::InvalidToken)
                } else if exp < now - TOKEN_LEEWAY_SECS {
                    res == Err::<Claims, AppError>(AppError::TokenExpired)
                } else {
                    res matches Ok(c) && c.sub@ == sub && c.role@ == role && c.exp == exp && c.iat
                        == iat
                }) by {
                assert(jwt_hs256(sub, role, exp, iat, self.secret()) == token@);
            }
        }
        res
    }

    /// Checks a token now (see `validate_token_at`): a refusal is
    /// `TokenExpired` or `InvalidToken`, and accepted claims are those the
    /// token was signed with.
    pub fn validate_token(&self, token: &str) -> (res: Result<Claims, AppError>)
        ensures
            exists|now: i64|
                0 <= now < max_unix_secs() && #[trigger] token_checked(
                    jwt_payload(token@, self.secret()),
                    now,
                    res,
                ),
            res matches Err(e) ==> (e == AppError::TokenExpired || e == AppError::InvalidToken),
            res matches Ok(c) ==> claims_read_back(self.secret(), token@, c),
    {
        let now = unix_now_secs();
        let res = self.validate_token_at(token, now);
        proof {
            if res is Ok {
                let c = res->Ok_0;
                assert forall|sub: Seq<char>, role: Seq<char>, exp: i64, iat: i64|
                    #[trigger] jwt_hs256(sub, role, exp, iat, self.secret()) == token@ implies (c.sub@
                        == sub && c.role@ == role && c.exp == exp && c.iat == iat) by {
                    assert(self.signed(sub, role, exp, iat) == token@);
                }
            }
        }
        res
    }

    /// The user that decoded claims name, if they are a challenge token's.
    pub fn challenge_user(claims: &Claims) -> (res: Result<u128, AppError>)
        ensures
            res == challenge_subject(*claims),
            forall|u: u128|
                #[trigger] uuid_text(u) == claims.sub@ && claims.role@ == challenge_role() ==> res
                    == Ok::<u128, AppError>(u),
    {
        if !text_equals(claims.role.as_str(), "2fa_challenge") {
            return Err(AppError::InvalidToken);
        }
        match parse_uuid(claims.sub.as_str()) {
            Some(u) => Ok(u),
            None => Err(AppError::InvalidToken),
        }
    }

    /// Checks a two-factor challenge token at Unix time `now` and gives the
    /// user it was issued for (see `challenge_checked`); every refusal is
    /// `InvalidToken`. A challenge token this service issued for a user is
    /// accepted, giving that user, until the leeway after its expiry has
    /// passed; a token it signed with any other role is refused.
    pub fn validate_challenge_token_at(&self, token: &str, now: i64) -> (res: Result<u128, AppError>)
        requires
            0 <= now < max_unix_secs(),
        ensures
            challenge_checked(jwt_payload(token@, self.secret()), now, res),
            res matches Err(e) ==> e == AppError::InvalidToken,
            forall|u: u128, exp: i64, iat: i64|
                #[trigger] self.signed(uuid_text(u), challenge_role(), exp, iat) == token@ ==> (if exp
                    < 0 || exp < now - TOKEN_LEEWAY_SECS {
                    res == Err::<u128, AppError>(AppError::InvalidToken)
                } else {
                    res == Ok::<u128, AppError>(u)
                }),
            forall|sub: Seq<char>, role: Seq<char>, exp: i64, iat: i64|
                #[trigger] self.signed(sub, role, exp, iat) == token@ && role != challenge_role()
                    ==> res == Err::<u128, AppError>(AppError::InvalidToken),
    {
        let res = match self.validate_token_at(token, now) {
            Ok(c) => Self::challenge_user(&c),
            Err(_) => Err(AppError::InvalidToken),
        };
        proof {
            assert forall|u: u128, exp: i64, iat: i64|
                #[trigger] self.signed(uuid_text(u), challenge_role(), exp, iat) == token@ implies (if exp
                    < 0 || exp < now - TOKEN_LEEWAY_SECS {
                    res == Err::<u128, AppError>(AppError::InvalidToken)
                } else {
                    res == Ok::<u128, AppError>(u)
                }) by {
                assert(self.signed(uuid_text(u), challenge_role(), exp, iat) == token@);
            }
            assert forall|sub: Seq<char>, role: Seq<char>, exp: i64, iat: i64|
                #[trigger] self.signed(sub, role, exp, iat) == token@ && role != challenge_role()
                    implies res == Err::<u128, AppError>(AppError::InvalidToken) by {
                assert(self.signed(sub, role, exp, iat) == token@);
            }
        }
        res
    }

    /// Checks a two-factor challenge token now (see `validate_challenge_token_at`).
    pub fn validate_challenge_token(&self, token: &str) -> (res: Result<u128, AppError>)
        ensures
            exists|now: i64|
                0 <= now < max_unix_secs() && #[trigger] challenge_checked(
                    jwt_payload(token@, self.secret()),
                    now,
                    res,
                ),
            res matches Err(e) ==> e == AppError::InvalidToken,
            forall|u: u128, exp: i64, iat: i64|
                #[trigger] self.signed(uuid_text(u), challenge_role(), exp, iat) == token@ ==> (
                res is Ok ==> res == Ok::<u128, AppError>(u)),
            forall|sub: Seq<char>, role: Seq<char>, exp: i64, iat: i64|
                #[trigger] self.signed(sub, role, exp, iat) == token@ && role != challenge_role()
                    ==> res == Err::<u128, AppError>(AppError::InvalidToken),
    {
        let now = unix_now_secs();
        let res = self.validate_challenge_token_at(token, now);
        proof {
            assert forall|u: u128, exp: i64, iat: i64|
                #[trigger] self.signed(uuid_text(u), challenge_role(), exp, iat) == token@ implies (
                res is Ok ==> res == Ok::<u128, AppError>(u)) by {
                assert(self.signed(uuid_text(u), challenge_role(), exp, iat) == token@);
            }
        }
        res
    }

    /// The refresh token made of some random bytes: their URL-safe Base64.
    pub fn refresh_token_from_bytes(bytes: &[u8]) -> (res: String)
        ensures
            res@ == base64url_nopad(bytes@),
    {
        encode_base64url(bytes)
    }

    /// A new refresh token: 64 bytes from the operating system's random
    /// source, in URL-safe Base64.
    pub fn generate_refresh_token(&self) -> (res: String)
        ensures
            exists|b: Seq<u8>| b.len() == REFRESH_TOKEN_BYTES && res@ == base64url_nopad(b),
    {
        let bytes = os_random_bytes(REFRESH_TOKEN_BYTES);
        Self::refresh_token_from_bytes(bytes.as_slice())
    }

    /// When a refresh token issued at `now` expires.
    pub fn refresh_expiry_at(now: i64) -> (res: i64)
        requires
            0 <= now < max_unix_secs(),
        ensures
            res == now + REFRESH_TOKEN_EXPIRY_SECS,
    {
        now + REFRESH_TOKEN_EXPIRY_SECS
    }

    /// When a refresh token issued now expires: fifteen days from now.
    pub fn calculate_refresh_expiry(&self) -> (res: i64)
        ensures
            REFRESH_TOKEN_EXPIRY_SECS <= res < max_unix_secs() + REFRESH_TOKEN_EXPIRY_SECS,
    {
        Self::refresh_expiry_at(unix_now_secs())
    }

    /// When a password-reset token issued at `now` expires.
    pub fn password_reset_expiry_at(now: i64) -> (res: i64)
        requires
            0 <= now < max_unix_secs(),
        ensures
            res == now + PASSWORD_RESET_EXPIRY_SECS,
    {
        now + PASSWORD_RESET_EXPIRY_SECS
    }

    /// When a password-reset token issued now expires: thirty minutes from now.
    pub fn calculate_password_reset_expiry(&self) -> (res: i64)
        ensures
            PASSWORD_RESET_EXPIRY_SECS <= res < max_unix_secs() + PASSWORD_RESET_EXPIRY_SECS,
    {
        Self::password_reset_expiry_at(unix_now_secs())
    }

    /// The TOTP secret made of some random bytes: their Base32.
    pub fn totp_secret_from_bytes(bytes: &[u8]) -> (res: String)
        ensures
            res@ == base32_rfc4648(bytes@),
            base32_rfc4648_decoded(res@) == Some(bytes@),
            res@.len() == (8 * bytes@.len() + 4) / 5,
            forall|i: int| 0 <= i < res@.len() ==> is_base32_char(#[trigger] res@[i]),
    {
        proof {
            lemma_base32_shape(bytes@);
        }
        encode_base32(bytes)
    }

    /// A new TOTP secret: 20 random bytes in Base32 (32 characters of `A`-`Z`
    /// and `2`-`7`).
    pub fn generate_totp_secret(&self) -> (res: String)
        ensures
            generated_totp_secret(res@),
            res@.len() == 32,
            forall|i: int| 0 <= i < res@.len() ==> is_base32_char(#[trigger] res@[i]),
    {
        let bytes = thread_random_bytes(TOTP_SECRET_BYTES);
        let res = Self::totp_secret_from_bytes(bytes.as_slice());
        assert(generated_totp_secret(res@)) by {
            assert(bytes@.len() == 20 && res@ == base32_rfc4648(bytes@));
        }
        res
    }

    /// The `otpauth://` URI for a secret and an account name.
    pub fn generate_totp_uri(&self, secret: &str, email: &str) -> (res: String)
        ensures
            res@ == totp_uri(secret@, email@),
    {
        let mut s = String::from_str("otpauth://totp/dex-account:");
        s.append(email);
        s.append("?secret=");
        s.append(secret);
        s.append("&issuer=dex-account&algorithm=SHA1&digits=6&period=30");
        s
    }

    /// Checks a six-digit code against a Base32 TOTP secret (SHA-1, 30-second
    /// steps, one step of skew) at Unix time `now`. A secret that does not
    /// decode, or decodes to fewer than 16 bytes, is `InternalError`.
    pub fn verify_totp_at(&self, secret: &str, code: &str, now: u64) -> (res: Result<bool, AppError>)
        requires
            TOTP_STEP_SECS <= now < max_unix_secs(),
        ensures
            res == totp_outcome(secret@, code@, now),
    {
        let key = match decode_base32(secret) {
            Some(k) => k,
            None => return Err(AppError::InternalError),
        };
        let account = String::from_str("dex-account");
        proof {
            reveal_strlit("dex-account");
        }
        match totp_check_at(TotpAlgorithm::Sha1, 6, 1, TOTP_STEP_SECS, key, None, account, code, now) {
            Ok(b) => Ok(b),
            Err(_) => Err(AppError::InternalError),
        }
    }

    /// The Unix time TOTP codes are checked at: now, in seconds; a clock less
    /// than one step after the epoch is read as one step after it.
    pub fn totp_clock() -> (res: u64)
        ensures
            TOTP_STEP_SECS <= res < max_unix_secs(),
    {
        let now = unix_now_secs();
        if now < 30 {
            TOTP_STEP_SECS
        } else {
            now as u64
        }
    }

    /// Checks a six-digit code against a Base32 TOTP secret at the current
    /// time (see `verify_totp_at`).
    pub fn verify_totp(&self, secret: &str, code: &str) -> (res: Result<bool, AppError>)
        ensures
            exists|now: u64|
                TOTP_STEP_SECS <= now < max_unix_secs() && res == #[trigger] totp_outcome(
                    secret@,
                    code@,
                    now,
                ),
            res is Ok <==> totp_secret_usable(secret@),
            res matches Err(e) ==> e == AppError::InternalError,
    {
        let now = Self::totp_clock();
        self.verify_totp_at(secret, code, now)
    }

    /// A time-ordered UUID (version 7, RFC 4122 variant) for a new record.
    pub fn generate_uuid_v7(&self) -> (res: u128)
        ensures
            is_uuid_v7(res),
    {
        time_ordered_uuid()
    }
}

/// Law: a password checks against the hash that `hash_password` made of it.
pub proof fn law_password_hash_verifies(password: Seq<char>, hash: Seq<char>)
    requires
        argon2_check(password, hash) == Some(true),
    ensures
        password_check(password, hash) == Ok::<bool, AppError>(true),
{
}

/// Law: a token signed for claims `sub`, `role`, `exp`, `iat`, when
/// `validate_token` accepts it, reads back as exactly those claims.
pub proof fn law_token_claims_read_back(
    secret: Seq<char>,
    sub: Seq<char>,
    role: Seq<char>,
    exp: i64,
    iat: i64,
    c: Claims,
)
    requires
        claims_read_back(secret, jwt_hs256(sub, role, exp, iat, secret), c),
    ensures
        c.sub@ == sub,
        c.role@ == role,
        c.exp == exp,
        c.iat == iat,
{
}

/// Law: a freshly generated TOTP secret can always be checked: `verify_totp`
/// never answers it with `InternalError`.
pub proof fn law_generated_totp_secret_is_usable(secret: Seq<char>)
    requires
        generated_totp_secret(secret),
    ensures
        totp_secret_usable(secret),
{
}

} // verus!
