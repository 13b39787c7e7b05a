//! The decisions of the authentication service. The service's store is
//! reached by its caller: each step here takes what was read from the store
//! and says what to write back or answer, so that every rule of login,
//! two-factor verification, refresh-token rotation, logout, password reset
//! and emergency access is checked here.

use vstd::prelude::*;
use crate::encoding::{base64url_nopad, is_base32_char, uuid_text};
use crate::error::AppError;
use crate::models::{PasswordReset, RefreshTokenChain, Role, User};
use crate::services::crypto::{
    admin_role, argon2_check, argon2id_phc_prefix, challenge_role, jwt_hs256, generated_totp_secret, token_digest,
    totp_outcome, totp_uri, CryptoService, ACCESS_TOKEN_EXPIRY_SECS, TOTP_STEP_SECS, CHALLENGE_TOKEN_EXPIRY_SECS,
    EMERGENCY_TOKEN_EXPIRY_SECS, PASSWORD_RESET_EXPIRY_SECS, REFRESH_TOKEN_BYTES,
    REFRESH_TOKEN_EXPIRY_SECS,
};
use crate::services::metrics::{
    bumped, increment_2fa_attempts, increment_login_failed, increment_login_success, AuthMetrics,
};
use crate::system::{is_uuid_v4, max_unix_secs, os_random_bytes, random_uuid, unix_now_secs};

verus! {

/// What a login or a second-factor verification gives.
pub enum LoginResult {
    /// Logged in: an access token and a refresh token.
    Success { access_token: String, refresh_token: String, expires_in: i64 },
    /// The password was right and a second factor is required.
    TwoFactorChallenge { challenge_token: String, expires_in: i64 },
}

/// What a refresh gives: new access and refresh tokens.
pub struct RefreshResult {
    pub access_token: String,
    pub refresh_token: String,
    pub expires_in: i64,
}

/// What setting up a second factor gives: the secret and its `otpauth://` URI.
pub struct TotpSetupResult {
    pub secret: String,
    pub totp_uri: String,
}

/// The role put in an access token: the user's first role, or `User`.
pub open spec fn session_role(roles: Seq<Role>) -> Seq<char> {
    if roles.len() > 0 {
        roles[0].name@
    } else {
        "User"@
    }
}

/// Where a login stands after the password check.
pub enum LoginCheck {
    /// A second factor is needed; the challenge has been issued.
    Challenge(LoginResult),
    /// Tokens are to be issued for this user.
    IssueSession(u128),
}

/// A session to be stored: the caller keeps a refresh-token record with these
/// values, then hands the tokens to the client.
pub struct SessionGrant {
    pub user_id: u128,
    pub chain_id: u128,
    pub access_token: String,
    pub refresh_token: String,
    pub refresh_token_hash: String,
    pub expires_at: i64,
}

/// What a refresh token leads to.
pub enum RefreshStep {
    /// The token was already used (its record is revoked, or it was rotated
    /// away): revoke its whole chain, then refuse with
    /// `TokenRevoked`.
    RevokeChainThenReject { chain_id: u128 },
    /// Replace the token (delete record `token_id`) by a new one in the same
    /// chain, which names the old token's hash as its previous token.
    Rotate { token_id: u128, chain_id: u128, user_id: u128 },
}

/// A password reset to be stored.
pub struct PasswordResetGrant {
    pub user_id: u128,
    pub token: String,
    pub token_hash: String,
    pub expires_at: i64,
}

/// What a password-reset token leads to.
pub enum ResetStep {
    /// The token has expired: delete it, then refuse with `TokenExpired`.
    DeleteThenReject,
    /// Store the new password hash for the user, then delete the token.
    Apply { user_id: u128, password_hash: String },
}

/// What a presented refresh token leads to at Unix time `now`, from its
/// record in the store (`stored`, if any) and the record that replaced it on
/// rotation (`successor`: the one whose previous token is this one, if any).
/// A token whose record is gone but which was rotated has been used before:
/// its chain is revoked, as is the chain of a record already revoked. An
/// unknown token is `InvalidToken`; an expired one is `TokenExpired`; else it
/// is rotated.
pub open spec fn refresh_outcome(
    stored: Option<RefreshTokenChain>,
    successor: Option<RefreshTokenChain>,
    now: i64,
) -> Result<RefreshStep, AppError> {
    match stored {
        None => match successor {
            Some(n) => Ok(RefreshStep::RevokeChainThenReject { chain_id: n.chain_id }),
            None => Err(AppError::InvalidToken),
        },
        Some(r) => if r.is_revoked {
            Ok(RefreshStep::RevokeChainThenReject { chain_id: r.chain_id })
        } else if r.expires_at < now {
            Err(AppError::TokenExpired)
        } else {
            Ok(RefreshStep::Rotate { token_id: r.id, chain_id: r.chain_id, user_id: r.user_id })
        },
    }
}

/// Law: a refresh token is good for one rotation. Rotation deletes its record
/// and stores a new one in the same chain that names it as previous token;
/// presenting the old token again, at any later time, finds that successor
/// and revokes the whole chain.
pub proof fn law_replayed_refresh_token_revokes_chain(
    r: RefreshTokenChain,
    n: RefreshTokenChain,
    now: i64,
    later: i64,
)
    requires
        refresh_outcome(Some(r), None, now) matches Ok(RefreshStep::Rotate { .. }),
        n.chain_id == r.chain_id,
        n.previous_token_hash matches Some(h) && h@ == r.token_hash@,
    ensures
        refresh_outcome(None, Some(n), later) == Ok::<RefreshStep, AppError>(
            RefreshStep::RevokeChainThenReject { chain_id: r.chain_id },
        ),
{
}

/// When a password-reset token issued at `now` expires: thirty minutes later.
pub open spec fn reset_expiry(now: i64) -> int {
    now + PASSWORD_RESET_EXPIRY_SECS
}

/// Whether `res` is what a password-reset token found in the store (if any)
/// leads to at `now` for `new_password`: an unknown token is `InvalidToken`;
/// an expired one is to be deleted and refused; else the new password's
/// Argon2id hash is to be stored for the reset's user. The hasher refuses only
/// passwords longer than `0xFFFFFFFF` bytes, which then may be `InternalError`.
pub open spec fn reset_answered(
    reset: Option<PasswordReset>,
    new_password: Seq<char>,
    now: i64,
    res: Result<ResetStep, AppError>,
) -> bool {
    match reset {
        None => res == Err::<ResetStep, AppError>(AppError::InvalidToken),
        Some(r) => if r.expires_at < now {
            res == Ok::<ResetStep, AppError>(ResetStep::DeleteThenReject)
        } else {
            &&& (vstd::utf8::encode_utf8(new_password).len() <= 0xFFFF_FFFF ==> res is Ok)
            &&& (res is Err ==> res == Err::<ResetStep, AppError>(AppError::InternalError))
            &&& (res matches Ok(step) ==> (step matches ResetStep::Apply { user_id, password_hash }
                && user_id == r.user_id && argon2_check(new_password, password_hash@) == Some(true)
                && argon2id_phc_prefix().is_prefix_of(password_hash@)))
        },
    }
}

/// How a login's password check comes out.
pub enum LoginVerdict {
    UnknownEmail,
    Inactive,
    UnreadableHash,
    WrongPassword,
    NeedsSecondFactor(u128),
    Accepted(u128),
}

/// The verdict of a login for the user found by e-mail (if any) and a password.
pub open spec fn login_verdict(user: Option<User>, password: Seq<char>) -> LoginVerdict {
    match user {
        None => LoginVerdict::UnknownEmail,
        Some(u) => if !u.is_active {
            LoginVerdict::Inactive
        } else {
            match argon2_check(password, u.password_hash@) {
                None => LoginVerdict::UnreadableHash,
                Some(false) => LoginVerdict::WrongPassword,
                Some(true) => if u.is_2fa_enabled {
                    LoginVerdict::NeedsSecondFactor(u.id)
                } else {
                    LoginVerdict::Accepted(u.id)
                },
            }
        },
    }
}

/// What presenting a challenge token at Unix time `now` answers, from its
/// pending entry (user, issue time): its user for five minutes from issue,
/// `TokenExpired` after that, and `InvalidToken` when it is not pending.
pub open spec fn challenge_outcome(pending: Option<(u128, i64)>, now: i64) -> Result<u128, AppError> {
    match pending {
        Some((u, issued)) => if now <= issued + CHALLENGE_TOKEN_EXPIRY_SECS {
            Ok(u)
        } else {
            Err(AppError::TokenExpired)
        },
        None => Err(AppError::InvalidToken),
    }
}

/// Law: a challenge token that has been answered with the right code is no
/// longer pending, so presenting it again is `InvalidToken`; a wrong code or
/// a checker error leaves it pending for the same user.
pub proof fn law_challenge_is_spent_once(
    before: AuthService,
    after: AuthService,
    token: Seq<char>,
    user_id: u128,
    code_check: Result<bool, AppError>,
)
    requires
        code_check == Ok::<bool, AppError>(true) ==> after.pending_challenge(token) is None,
        code_check != Ok::<bool, AppError>(true) ==> after.pending_challenge(token)
            == before.pending_challenge(token),
    ensures
        code_check == Ok::<bool, AppError>(true) ==> forall|now: i64|
            #[trigger] challenge_outcome(after.pending_challenge(token), now) == Err::<
                u128,
                AppError,
            >(AppError::InvalidToken),
        code_check != Ok::<bool, AppError>(true) ==> forall|now: i64|
            #[trigger] challenge_outcome(after.pending_challenge(token), now) == challenge_outcome(
                before.pending_challenge(token),
                now,
            ),
{
}

/// Law: a challenge token issued at `issued` for `user_id` answers that user
/// up to five minutes after its issue and `TokenExpired` at every later time.
pub proof fn law_challenge_lasts_five_minutes(s: AuthService, token: Seq<char>, user_id: u128, issued: i64, now: i64)
    requires
        s.pending_challenge(token) == Some((user_id, issued)),
    ensures
        now <= issued + CHALLENGE_TOKEN_EXPIRY_SECS ==> challenge_outcome(s.pending_challenge(token), now)
            == Ok::<u128, AppError>(user_id),
        now > issued + CHALLENGE_TOKEN_EXPIRY_SECS ==> challenge_outcome(s.pending_challenge(token), now)
            == Err::<u128, AppError>(AppError::TokenExpired),
{
}

/// What checking a second-factor code at Unix time `now` answers for the
/// user a challenge is pending for: a missing user is `UserNotFound`, a user
/// without a TOTP secret or with an unusable one `InternalError`, a wrong
/// code `InvalidTwoFactorCode`, a right one the user's id.
pub open spec fn second_factor_answer(user: Option<User>, code: Seq<char>, now: u64) -> Result<u128, AppError> {
    match user {
        None => Err(AppError::UserNotFound),
        Some(u) => match u.totp_secret {
            None => Err(AppError::InternalError),
            Some(s) => match totp_outcome(s@, code, now) {
                Err(e) => Err(e),
                Ok(false) => Err(AppError::InvalidTwoFactorCode),
                Ok(true) => Ok(u.id),
            },
        },
    }
}

/// Whether `res` is what checking the code that enables two factors at Unix
/// time `now` answers: a missing user is `UserNotFound`, a user who has not
/// set up a secret `BadRequest("2FA not setup")`, an unusable secret
/// `InternalError`, a wrong code `InvalidTwoFactorCode`, a right one `Ok`.
pub open spec fn enable_2fa_answered(user: Option<User>, code: Seq<char>, now: u64, res: Result<(), AppError>) -> bool {
    match user {
        None => res == Err::<(), AppError>(AppError::UserNotFound),
        Some(u) => match u.totp_secret {
            None => res matches Err(AppError::BadRequest(m)) && m@ == "2FA not setup"@,
            Some(s) => match totp_outcome(s@, code, now) {
                Err(e) => res == Err::<(), AppError>(e),
                Ok(false) => res == Err::<(), AppError>(AppError::InvalidTwoFactorCode),
                Ok(true) => res == Ok::<(), AppError>(()),
            },
        },
    }
}

/// Law: for an active user whose password checks, login asks for a second
/// factor exactly when two factors are enabled, and otherwise accepts the
/// user; a TOTP secret that is stored but not yet enabled changes nothing.
pub proof fn law_login_challenges_only_when_2fa_enabled(u: User, password: Seq<char>)
    requires
        u.is_active,
        argon2_check(password, u.password_hash@) == Some(true),
    ensures
        u.is_2fa_enabled ==> login_verdict(Some(u), password) == LoginVerdict::NeedsSecondFactor(u.id),
        !u.is_2fa_enabled ==> login_verdict(Some(u), password) == LoginVerdict::Accepted(u.id),
        forall|secret: Option<String>|
            login_verdict(Some(User { totp_secret: secret, ..u }), password) == login_verdict(
                Some(u),
                password,
            ),
{
}

/// Law: the role claimed by a session's access token is the user's first
/// role whenever the user has one, and `User` only for a user without roles.
pub proof fn law_session_role_is_first_role(roles: Seq<Role>)
    ensures
        roles.len() > 0 ==> session_role(roles) == roles[0].name@,
        roles.len() == 0 ==> session_role(roles) == "User"@,
        forall|r: Role| #[trigger] session_role(seq![r] + roles) == r.name@,
{
}

/// The user a pending challenge token is for and when it was issued, in a
/// table where later entries win.
pub open spec fn challenge_lookup(t: Seq<(String, u128, i64)>, token: Seq<char>) -> Option<(u128, i64)>
    decreases t.len(),
{
    if t.len() == 0 {
        None
    } else if t.last().0@ == token {
        Some((t.last().1, t.last().2))
    } else {
        challenge_lookup(t.drop_last(), token)
    }
}

fn table_get(t: &Vec<(String, u128, i64)>, token: &str) -> (res: Option<(u128, i64)>)
    ensures
        res == challenge_lookup(t@, token@),
{
    let mut j = t.len();
    assert(t@.take(t@.len() as int) =~= t@);
    while j > 0
        invariant
            j <= t@.len(),
            challenge_lookup(t@, token@) == challenge_lookup(t@.take(j as int), token@),
        decreases j,
    {
        let entry = &t[j - 1];
        proof {
            assert(t@.take(j as int).drop_last() =~= t@.take(j - 1));
        }
        if entry.0 == String::from_str(token) {
            return Some((entry.1, entry.2));
        }
        j -= 1;
    }
    None
}

fn table_remove(t: &Vec<(String, u128, i64)>, token: &str) -> (res: Vec<(String, u128, i64)>)
    ensures
        forall|k: Seq<char>| #[trigger]
            challenge_lookup(res@, k) == if k == token@ {
                None
            } else {
                challenge_lookup(t@, k)
            },
{
    let key = String::from_str(token);
    let mut out: Vec<(String, u128, i64)> = Vec::new();
    let mut i: usize = 0;
    while i < t.len()
        invariant
            i <= t@.len(),
            key@ == token@,
            forall|k: Seq<char>| #[trigger]
                challenge_lookup(out@, k) == if k == token@ {
                    None
                } else {
                    challenge_lookup(t@.take(i as int), k)
                },
        decreases t@.len() - i,
    {
        let entry = &t[i];
        let ghost old_out = out@;
        proof {
            assert(t@.take(i + 1).drop_last() =~= t@.take(i as int));
            assert(t@.take(i + 1).last() == t@[i as int]);
        }
        if !(entry.0 == key) {
            out.push((entry.0.clone(), entry.1, entry.2));
            proof {
                assert(out@.drop_last() =~= old_out);
            }
        }
        proof {
            assert forall|k: Seq<char>| #[trigger]
                challenge_lookup(out@, k) == if k == token@ {
                    None
                } else {
                    challenge_lookup(t@.take(i + 1), k)
                } by {
                assert(challenge_lookup(t@.take(i + 1), k) == if t@[i as int].0@ == k {
                    Some((t@[i as int].1, t@[i as int].2))
                } else {
                    challenge_lookup(t@.take(i as int), k)
                });
                if out@.len() != old_out.len() {
                    assert(challenge_lookup(out@, k) == if t@[i as int].0@ == k {
                        Some((t@[i as int].1, t@[i as int].2))
                    } else {
                        challenge_lookup(old_out, k)
                    });
                }
            }
        }
        i += 1;
    }
    assert(t@.take(t@.len() as int) =~= t@);
    out
}

/// The authentication service's own state: its signing secret, the pending
/// two-factor challenges, and its counters.
pub struct AuthService {
    crypto: CryptoService,
    challenge_tokens: Vec<(String, u128, i64)>,
    metrics: AuthMetrics,
}

impl AuthService {
    /// The secret this service signs tokens with.
    pub closed spec fn secret(&self) -> Seq<char> {
        self.crypto.secret()
    }

    /// The user that a pending challenge token is for, and when it was issued.
    pub closed spec fn pending_challenge(&self, token: Seq<char>) -> Option<(u128, i64)> {
        challenge_lookup(self.challenge_tokens@, token)
    }

    /// The service's counters.
    pub closed spec fn counters(&self) -> AuthMetrics {
        self.metrics
    }

    /// A token signed with this service's secret.
    pub open spec fn signed(&self, sub: Seq<char>, role: Seq<char>, exp: i64, iat: i64) -> Seq<char> {
        crate::services::crypto::jwt_hs256(sub, role, exp, iat, self.secret())
    }

    /// A service with no pending challenges and all counters at zero.
    pub fn new(crypto: CryptoService) -> (res: Self)
        ensures
            res.secret() == crypto.secret(),
            forall|t: Seq<char>| res.pending_challenge(t) is None,
            res.counters().login_total == 0,
            res.counters().login_failed_total == 0,
            res.counters().twofa_attempts_total == 0,
    {
        AuthService { crypto, challenge_tokens: Vec::new(), metrics: AuthMetrics::new() }
    }

    /// The token and password service used by this service.
    pub fn crypto(&self) -> (res: &CryptoService)
        ensures
            res.secret() == self.secret(),
    {
        &self.crypto
    }

    /// The current counters.
    pub fn metrics(&self) -> (res: AuthMetrics)
        ensures
            res == self.counters(),
    {
        self.metrics
    }

    /// Checks a login at Unix time `now`, for the user found by e-mail (if
    /// any): an unknown e-mail or a wrong password is `InvalidCredentials` and
    /// counts as a failed login; an inactive user is `UserInactive`; an
    /// unreadable password hash is `InternalError`. A user with two factors
    /// gets a challenge token, which is kept as pending for that user.
    pub fn login_check_at(&mut self, user: Option<User>, password: &str, now: i64) -> (res: Result<
        LoginCheck,
        AppError,
    >)
        requires
            0 <= now < max_unix_secs(),
        ensures
            final(self).secret() == old(self).secret(),
            final(self).counters().login_total == old(self).counters().login_total,
            final(self).counters().twofa_attempts_total == old(self).counters().twofa_attempts_total,
            match user {
                Some(u) => (u.is_active && argon2_check(password@, u.password_hash@) == Some(true))
                    ==> if u.is_2fa_enabled {
                    res matches Ok(LoginCheck::Challenge(LoginResult::TwoFactorChallenge { .. }))
                } else {
                    res == Ok::<LoginCheck, AppError>(LoginCheck::IssueSession(u.id))
                },
                None => true,
            },
            match login_verdict(user, password@) {
                LoginVerdict::UnknownEmail | LoginVerdict::WrongPassword => {
                    &&& res == Err::<LoginCheck, AppError>(AppError::InvalidCredentials)
                    &&& final(self).counters().login_failed_total == bumped(
                        old(self).counters().login_failed_total,
                    )
                    &&& forall|t: Seq<char>|
                        final(self).pending_challenge(t) == old(self).pending_challenge(t)
                },
                LoginVerdict::Inactive => {
                    &&& res == Err::<LoginCheck, AppError>(AppError::UserInactive)
                    &&& final(self).counters() == old(self).counters()
                    &&& forall|t: Seq<char>|
                        final(self).pending_challenge(t) == old(self).pending_challenge(t)
                },
                LoginVerdict::UnreadableHash => {
                    &&& res == Err::<LoginCheck, AppError>(AppError::InternalError)
                    &&& final(self).counters() == old(self).counters()
                    &&& forall|t: Seq<char>|
                        final(self).pending_challenge(t) == old(self).pending_challenge(t)
                },
                LoginVerdict::Accepted(id) => {
                    &&& res matches Ok(LoginCheck::IssueSession(u)) && u == id
                    &&& final(self).counters() == old(self).counters()
                    &&& forall|t: Seq<char>|
                        final(self).pending_challenge(t) == old(self).pending_challenge(t)
                },
                LoginVerdict::NeedsSecondFactor(id) => {
                    &&& res matches Ok(
                        LoginCheck::Challenge(
                            LoginResult::TwoFactorChallenge { challenge_token, expires_in },
                        ),
                    )
                    &&& challenge_token@ == old(self).signed(
                        uuid_text(id),
                        challenge_role(),
                        (now + CHALLENGE_TOKEN_EXPIRY_SECS) as i64,
                        now,
                    )
                    &&& expires_in == CHALLENGE_TOKEN_EXPIRY_SECS
                    &&& final(self).pending_challenge(challenge_token@) == Some((id, now))
                    &&& forall|t: Seq<char>|
                        t != challenge_token@ ==> final(self).pending_challenge(t)
                            == old(self).pending_challenge(t)
                    &&& final(self).counters() == old(self).counters()
                },
            },
    {
        let u = match user {
            None => {
                increment_login_failed(&mut self.metrics);
                return Err(AppError::InvalidCredentials);
            },
            Some(u) => u,
        };
        if !u.is_active {
            return Err(AppError::UserInactive);
        }
        let ok = match self.crypto.verify_password(password, u.password_hash.as_str()) {
            Ok(b) => b,
            Err(e) => return Err(e),
        };
        if !ok {
            increment_login_failed(&mut self.metrics);
            return Err(AppError::InvalidCredentials);
        }
        if u.is_2fa_enabled {
            let challenge_token = match self.crypto.challenge_token_at(u.id, now) {
                Ok(t) => t,
                Err(e) => return Err(e),
            };
            let ghost before = self.challenge_tokens@;
            self.challenge_tokens.push((challenge_token.clone(), u.id, now));
            proof {
                assert(self.challenge_tokens@.drop_last() =~= before);
            }
            return Ok(
                LoginCheck::Challenge(
                    LoginResult::TwoFactorChallenge {
                        challenge_token,
                        expires_in: CHALLENGE_TOKEN_EXPIRY_SECS,
                    },
                ),
            );
        }
        Ok(LoginCheck::IssueSession(u.id))
    }

    /// Checks a login now (see `login_check_at`).
    pub fn login_check(&mut self, user: Option<User>, password: &str) -> (res: Result<
        LoginCheck,
        AppError,
    >)
        ensures
            final(self).secret() == old(self).secret(),
            final(self).counters().login_total == old(self).counters().login_total,
            final(self).counters().twofa_attempts_total == old(self).counters().twofa_attempts_total,
            match user {
                Some(u) => (u.is_active && argon2_check(password@, u.password_hash@) == Some(true))
                    ==> if u.is_2fa_enabled {
                    res matches Ok(LoginCheck::Challenge(LoginResult::TwoFactorChallenge { .. }))
                } else {
                    res == Ok::<LoginCheck, AppError>(LoginCheck::IssueSession(u.id))
                },
                None => true,
            },
            match login_verdict(user, password@) {
                LoginVerdict::UnknownEmail | LoginVerdict::WrongPassword => {
                    &&& res == Err::<LoginCheck, AppError>(AppError::InvalidCredentials)
                    &&& final(self).counters().login_failed_total == bumped(
                        old(self).counters().login_failed_total,
                    )
                    &&& forall|t: Seq<char>|
                        final(self).pending_challenge(t) == old(self).pending_challenge(t)
                },
                LoginVerdict::Inactive => {
                    &&& res == Err::<LoginCheck, AppError>(AppError::UserInactive)
                    &&& final(self).counters() == old(self).counters()
                    &&& forall|t: Seq<char>|
                        final(self).pending_challenge(t) == old(self).pending_challenge(t)
                },
                LoginVerdict::UnreadableHash => {
                    &&& res == Err::<LoginCheck, AppError>(AppError::InternalError)
                    &&& final(self).counters() == old(self).counters()
                    &&& forall|t: Seq<char>|
                        final(self).pending_challenge(t) == old(self).pending_challenge(t)
                },
                LoginVerdict::Accepted(id) => {
                    &&& res matches Ok(LoginCheck::IssueSession(u)) && u == id
                    &&& final(self).counters() == old(self).counters()
                    &&& forall|t: Seq<char>|
                        final(self).pending_challenge(t) == old(self).pending_challenge(t)
                },
                LoginVerdict::NeedsSecondFactor(id) => {
                    &&& res matches Ok(
                        LoginCheck::Challenge(
                            LoginResult::TwoFactorChallenge { challenge_token, expires_in },
                        ),
                    )
                    &&& expires_in == CHALLENGE_TOKEN_EXPIRY_SECS
                    &&& exists|now: i64|
                        0 <= now < max_unix_secs() && challenge_token@ == #[trigger] old(
                            self,
                        ).signed(
                            uuid_text(id),
                            challenge_role(),
                            (now + CHALLENGE_TOKEN_EXPIRY_SECS) as i64,
                            now,
                        ) && final(self).pending_challenge(challenge_token@) == Some((id, now))
                    &&& forall|t: Seq<char>|
                        t != challenge_token@ ==> final(self).pending_challenge(t)
                            == old(self).pending_challenge(t)
                    &&& final(self).counters() == old(self).counters()
                },
            },
    {
        let now = unix_now_secs();
        self.login_check_at(user, password, now)
    }

    /// The session issued to `user_id` at `now` in chain `chain_id`, with a
    /// refresh token made of `refresh_bytes`.
    pub fn session_at(
        &self,
        user_id: u128,
        roles: &Vec<Role>,
        chain_id: u128,
        now: i64,
        refresh_bytes: &[u8],
    ) -> (res: Result<SessionGrant, AppError>)
        requires
            0 <= now < max_unix_secs(),
        ensures
            roles@.len() > 0 ==> (res matches Ok(g) && g.access_token@ == self.signed(
                uuid_text(user_id),
                roles@[0].name@,
                (now + ACCESS_TOKEN_EXPIRY_SECS) as i64,
                now,
            )),
            roles@.len() == 0 ==> (res matches Ok(g) && g.access_token@ == self.signed(
                uuid_text(user_id),
                "User"@,
                (now + ACCESS_TOKEN_EXPIRY_SECS) as i64,
                now,
            )),
            res matches Ok(g) && {
                &&& g.user_id == user_id
                &&& g.chain_id == chain_id
                &&& g.access_token@ == self.signed(
                    uuid_text(user_id),
                    session_role(roles@),
                    (now + ACCESS_TOKEN_EXPIRY_SECS) as i64,
                    now,
                )
                &&& g.refresh_token@ == base64url_nopad(refresh_bytes@)
                &&& g.refresh_token_hash@ == token_digest(g.refresh_token@)
                &&& g.expires_at == now + REFRESH_TOKEN_EXPIRY_SECS
            },
    {
        let access_token = if roles.len() > 0 {
            self.crypto.access_token_at(user_id, roles[0].name.as_str(), now)
        } else {
            self.crypto.access_token_at(user_id, "User", now)
        };
        let access_token = match access_token {
            Ok(t) => t,
            Err(e) => return Err(e),
        };
        let refresh_token = CryptoService::refresh_token_from_bytes(refresh_bytes);
        let refresh_token_hash = self.crypto.hash_token(refresh_token.as_str());
        let expires_at = CryptoService::refresh_expiry_at(now);
        Ok(
            SessionGrant {
                user_id,
                chain_id,
                access_token,
                refresh_token,
                refresh_token_hash,
                expires_at,
            },
        )
    }

    /// The session issued now to `user_id` in chain `chain_id`, with a fresh
    /// random refresh token.
    pub fn session_in_chain(&self, user_id: u128, roles: &Vec<Role>, chain_id: u128) -> (res:
        Result<SessionGrant, AppError>)
        ensures
            res matches Ok(g) && g.user_id == user_id && g.chain_id == chain_id && exists|
                now: i64,
                b: Seq<u8>,
            |
                0 <= now < max_unix_secs() && b.len() == REFRESH_TOKEN_BYTES && {
                    &&& g.access_token@ == #[trigger] self.signed(
                        uuid_text(user_id),
                        session_role(roles@),
                        (now + ACCESS_TOKEN_EXPIRY_SECS) as i64,
                        now,
                    )
                    &&& g.refresh_token@ == #[trigger] base64url_nopad(b)
                    &&& g.refresh_token_hash@ == token_digest(g.refresh_token@)
                    &&& g.expires_at == now + REFRESH_TOKEN_EXPIRY_SECS
                },
    {
        let now = unix_now_secs();
        let bytes = os_random_bytes(REFRESH_TOKEN_BYTES);
        self.session_at(user_id, roles, chain_id, now, bytes.as_slice())
    }

    /// The session issued now to `user_id` in a new chain, whose id is a
    /// random (version 4) UUID.
    pub fn new_session(&self, user_id: u128, roles: &Vec<Role>) -> (res: Result<
        SessionGrant,
        AppError,
    >)
        ensures
            res matches Ok(g) && g.user_id == user_id && is_uuid_v4(g.chain_id) && exists|now: i64, b: Seq<u8>|
                0 <= now < max_unix_secs() && b.len() == REFRESH_TOKEN_BYTES && {
                    &&& g.access_token@ == #[trigger] self.signed(
                        uuid_text(user_id),
                        session_role(roles@),
                        (now + ACCESS_TOKEN_EXPIRY_SECS) as i64,
                        now,
                    )
                    &&& g.refresh_token@ == #[trigger] base64url_nopad(b)
                    &&& g.refresh_token_hash@ == token_digest(g.refresh_token@)
                    &&& g.expires_at == now + REFRESH_TOKEN_EXPIRY_SECS
                },
    {
        let chain_id = random_uuid();
        self.session_in_chain(user_id, roles, chain_id)
    }

    /// Completes a login once its session is stored: counts the success and
    /// hands out the tokens.
    pub fn finish_login(&mut self, grant: SessionGrant) -> (res: LoginResult)
        ensures
            res matches LoginResult::Success { access_token, refresh_token, expires_in } && {
                &&& access_token == grant.access_token
                &&& refresh_token == grant.refresh_token
                &&& expires_in == ACCESS_TOKEN_EXPIRY_SECS
            },
            final(self).counters().login_total == bumped(old(self).counters().login_total),
            final(self).counters().login_failed_total == old(self).counters().login_failed_total,
            final(self).counters().twofa_attempts_total == old(self).counters().twofa_attempts_total,
            final(self).secret() == old(self).secret(),
            forall|t: Seq<char>| final(self).pending_challenge(t) == old(self).pending_challenge(t),
    {
        increment_login_success(&mut self.metrics);
        LoginResult::Success {
            access_token: grant.access_token,
            refresh_token: grant.refresh_token,
            expires_in: ACCESS_TOKEN_EXPIRY_SECS,
        }
    }

    /// Starts a second-factor verification at Unix time `now`: counts the
    /// attempt and finds the user the challenge token is pending for; an
    /// unknown token is `InvalidToken`, one issued more than five minutes
    /// before `now` is `TokenExpired`.
    pub fn begin_verify_2fa_at(&mut self, challenge_token: &str, now: i64) -> (res: Result<u128, AppError>)
        requires
            0 <= now < max_unix_secs(),
        ensures
            res == challenge_outcome(old(self).pending_challenge(challenge_token@), now),
            final(self).counters().twofa_attempts_total == bumped(
                old(self).counters().twofa_attempts_total,
            ),
            final(self).counters().login_total == old(self).counters().login_total,
            final(self).counters().login_failed_total == old(self).counters().login_failed_total,
            final(self).secret() == old(self).secret(),
            forall|t: Seq<char>| final(self).pending_challenge(t) == old(self).pending_challenge(t),
    {
        increment_2fa_attempts(&mut self.metrics);
        match table_get(&self.challenge_tokens, challenge_token) {
            Some((u, issued)) => {
                if now - CHALLENGE_TOKEN_EXPIRY_SECS <= issued {
                    Ok(u)
                } else {
                    Err(AppError::TokenExpired)
                }
            },
            None => Err(AppError::InvalidToken),
        }
    }

    /// Starts a second-factor verification now (see `begin_verify_2fa_at`).
    pub fn begin_verify_2fa(&mut self, challenge_token: &str) -> (res: Result<u128, AppError>)
        ensures
            exists|now: i64|
                0 <= now < max_unix_secs() && res == #[trigger] challenge_outcome(
                    old(self).pending_challenge(challenge_token@),
                    now,
                ),
            old(self).pending_challenge(challenge_token@) is None ==> res == Err::<u128, AppError>(
                AppError::InvalidToken,
            ),
            final(self).counters().twofa_attempts_total == bumped(
                old(self).counters().twofa_attempts_total,
            ),
            final(self).counters().login_total == old(self).counters().login_total,
            final(self).counters().login_failed_total == old(self).counters().login_failed_total,
            final(self).secret() == old(self).secret(),
            forall|t: Seq<char>| final(self).pending_challenge(t) == old(self).pending_challenge(t),
    {
        let now = unix_now_secs();
        self.begin_verify_2fa_at(challenge_token, now)
    }

    /// Applies the outcome of checking a second-factor code for `user_id`:
    /// a checker error is passed on, a wrong code is `InvalidTwoFactorCode`,
    /// and a right code takes the challenge off the pending ones.
    pub fn apply_second_factor(
        &mut self,
        challenge_token: &str,
        user_id: u128,
        code_check: Result<bool, AppError>,
    ) -> (res: Result<u128, AppError>)
        ensures
            final(self).secret() == old(self).secret(),
            final(self).counters() == old(self).counters(),
            match code_check {
                Err(e) => res == Err::<u128, AppError>(e) && forall|t: Seq<char>|
                    final(self).pending_challenge(t) == old(self).pending_challenge(t),
                Ok(false) => res == Err::<u128, AppError>(AppError::InvalidTwoFactorCode) && forall|
                    t: Seq<char>,
                | final(self).pending_challenge(t) == old(self).pending_challenge(t),
                Ok(true) => {
                    &&& res == Ok::<u128, AppError>(user_id)
                    &&& final(self).pending_challenge(challenge_token@) is None
                    &&& forall|t: Seq<char>|
                        t != challenge_token@ ==> final(self).pending_challenge(t)
                            == old(self).pending_challenge(t)
                },
            },
    {
        match code_check {
            Err(e) => Err(e),
            Ok(false) => Err(AppError::InvalidTwoFactorCode),
            Ok(true) => {
                self.challenge_tokens = table_remove(&self.challenge_tokens, challenge_token);
                Ok(user_id)
            },
        }
    }

    /// Checks the second factor of the user a challenge token is pending for,
    /// at Unix time `now`, and applies the outcome (see `apply_second_factor`).
    pub fn check_second_factor_at(
        &mut self,
        challenge_token: &str,
        user: Option<User>,
        code: &str,
        now: u64,
    ) -> (res: Result<u128, AppError>)
        requires
            TOTP_STEP_SECS <= now < max_unix_secs(),
        ensures
            final(self).secret() == old(self).secret(),
            final(self).counters() == old(self).counters(),
            res == second_factor_answer(user, code@, now),
            res is Err ==> forall|t: Seq<char>|
                final(self).pending_challenge(t) == old(self).pending_challenge(t),
            res is Ok ==> final(self).pending_challenge(challenge_token@) is None,
            res is Ok ==> forall|t: Seq<char>|
                t != challenge_token@ ==> final(self).pending_challenge(t) == old(
                    self,
                ).pending_challenge(t),
    {
        let u = match user {
            None => return Err(AppError::UserNotFound),
            Some(u) => u,
        };
        let secret = match &u.totp_secret {
            None => return Err(AppError::InternalError),
            Some(s) => s,
        };
        let check = self.crypto.verify_totp_at(secret.as_str(), code, now);
        self.apply_second_factor(challenge_token, u.id, check)
    }

    /// Checks the second factor of the user a challenge token is pending for
    /// at the current time (see `check_second_factor_at`).
    pub fn check_second_factor(&mut self, challenge_token: &str, user: Option<User>, code: &str) -> (res:
        Result<u128, AppError>)
        ensures
            final(self).secret() == old(self).secret(),
            final(self).counters() == old(self).counters(),
            exists|now: u64|
                TOTP_STEP_SECS <= now < max_unix_secs() && res == #[trigger] second_factor_answer(
                    user,
                    code@,
                    now,
                ),
            res is Err ==> forall|t: Seq<char>|
                final(self).pending_challenge(t) == old(self).pending_challenge(t),
            res is Ok ==> final(self).pending_challenge(challenge_token@) is None,
            res is Ok ==> forall|t: Seq<char>|
                t != challenge_token@ ==> final(self).pending_challenge(t) == old(
                    self,
                ).pending_challenge(t),
    {
        let now = CryptoService::totp_clock();
        self.check_second_factor_at(challenge_token, user, code, now)
    }

    /// What a presented refresh token leads to at `now`, from its record and
    /// the record that replaced it (see `refresh_outcome`).
    pub fn refresh_step_at(
        stored: Option<RefreshTokenChain>,
        successor: Option<RefreshTokenChain>,
        now: i64,
    ) -> (res: Result<RefreshStep, AppError>)
        ensures
            res == refresh_outcome(stored, successor, now),
    {
        let r = match stored {
            None => {
                return match successor {
                    Some(n) => Ok(RefreshStep::RevokeChainThenReject { chain_id: n.chain_id }),
                    None => Err(AppError::InvalidToken),
                };
            },
            Some(r) => r,
        };
        if r.is_revoked {
            return Ok(RefreshStep::RevokeChainThenReject { chain_id: r.chain_id });
        }
        if r.expires_at < now {
            return Err(AppError::TokenExpired);
        }
        Ok(RefreshStep::Rotate { token_id: r.id, chain_id: r.chain_id, user_id: r.user_id })
    }

    /// What a presented refresh token leads to now (see `refresh_outcome`).
    pub fn refresh_step(
        stored: Option<RefreshTokenChain>,
        successor: Option<RefreshTokenChain>,
    ) -> (res: Result<RefreshStep, AppError>)
        ensures
            exists|now: i64|
                0 <= now < max_unix_secs() && res == #[trigger] refresh_outcome(stored, successor, now),
            match stored {
                None => match successor {
                    Some(n) => res == Ok::<RefreshStep, AppError>(
                        RefreshStep::RevokeChainThenReject { chain_id: n.chain_id },
                    ),
                    None => res == Err::<RefreshStep, AppError>(AppError::InvalidToken),
                },
                Some(r) => if r.is_revoked {
                    res == Ok::<RefreshStep, AppError>(
                        RefreshStep::RevokeChainThenReject { chain_id: r.chain_id },
                    )
                } else {
                    ||| res == Err::<RefreshStep, AppError>(AppError::TokenExpired)
                    ||| res == Ok::<RefreshStep, AppError>(
                        RefreshStep::Rotate { token_id: r.id, chain_id: r.chain_id, user_id: r.user_id },
                    )
                },
            },
    {
        let now = unix_now_secs();
        Self::refresh_step_at(stored, successor, now)
    }

    /// The user a refresh is for, who must exist and be active.
    pub fn active_user(user: Option<User>) -> (res: Result<User, AppError>)
        ensures
            match user {
                None => res == Err::<User, AppError>(AppError::UserNotFound),
                Some(u) => if u.is_active {
                    res == Ok::<User, AppError>(u)
                } else {
                    res == Err::<User, AppError>(AppError::UserInactive)
                },
            },
    {
        match user {
            None => Err(AppError::UserNotFound),
            Some(u) => if u.is_active {
                Ok(u)
            } else {
                Err(AppError::UserInactive)
            },
        }
    }

    /// What a refresh hands out once the rotated session is stored.
    pub fn finish_refresh(grant: SessionGrant) -> (res: RefreshResult)
        ensures
            res.access_token == grant.access_token,
            res.refresh_token == grant.refresh_token,
            res.expires_in == ACCESS_TOKEN_EXPIRY_SECS,
    {
        RefreshResult {
            access_token: grant.access_token,
            refresh_token: grant.refresh_token,
            expires_in: ACCESS_TOKEN_EXPIRY_SECS,
        }
    }

    /// The record to revoke on logout: an unknown refresh token is `InvalidToken`.
    pub fn logout_step(stored: Option<RefreshTokenChain>) -> (res: Result<u128, AppError>)
        ensures
            match stored {
                None => res == Err::<u128, AppError>(AppError::InvalidToken),
                Some(r) => res == Ok::<u128, AppError>(r.id),
            },
    {
        match stored {
            None => Err(AppError::InvalidToken),
            Some(r) => Ok(r.id),
        }
    }

    /// The second-factor setup for an account with a given secret: the URI
    /// names the account by its e-mail.
    pub fn totp_setup_for(&self, email: &str, secret: String) -> (res: TotpSetupResult)
        ensures
            res.secret@ == secret@,
            res.totp_uri@ == totp_uri(secret@, email@),
    {
        let totp_uri = self.crypto.generate_totp_uri(secret.as_str(), email);
        TotpSetupResult { secret, totp_uri }
    }

    /// A new second-factor setup for the user looked up by id: a fresh
    /// secret and its URI, which names the user by e-mail; a missing user is
    /// `UserNotFound`. The caller stores the secret for the user.
    pub fn setup_2fa(&self, user: Option<User>) -> (res: Result<TotpSetupResult, AppError>)
        ensures
            match user {
                None => res matches Err(e) && e == AppError::UserNotFound,
                Some(u) => res matches Ok(r) && generated_totp_secret(r.secret@) && r.secret@.len()
                    == 32 && (forall|i: int|
                    0 <= i < r.secret@.len() ==> is_base32_char(#[trigger] r.secret@[i]))
                    && r.totp_uri@ == totp_uri(r.secret@, u.email@),
            },
    {
        match user {
            None => Err(AppError::UserNotFound),
            Some(u) => {
                let secret = self.crypto.generate_totp_secret();
                Ok(self.totp_setup_for(u.email.as_str(), secret))
            },
        }
    }

    /// The outcome of enabling two factors from the check of the code.
    pub fn enable_2fa_outcome(code_check: Result<bool, AppError>) -> (res: Result<(), AppError>)
        ensures
            match code_check {
                Err(e) => res == Err::<(), AppError>(e),
                Ok(false) => res == Err::<(), AppError>(AppError::InvalidTwoFactorCode),
                Ok(true) => res == Ok::<(), AppError>(()),
            },
    {
        match code_check {
            Err(e) => Err(e),
            Ok(false) => Err(AppError::InvalidTwoFactorCode),
            Ok(true) => Ok(()),
        }
    }

    /// Checks, at Unix time `now`, the code that enables two factors for a
    /// user (see `enable_2fa_answered`). On `Ok` the caller enables two
    /// factors for the user.
    pub fn enable_2fa_check_at(&self, user: Option<User>, code: &str, now: u64) -> (res: Result<(), AppError>)
        requires
            TOTP_STEP_SECS <= now < max_unix_secs(),
        ensures
            enable_2fa_answered(user, code@, now, res),
    {
        let u = match user {
            None => return Err(AppError::UserNotFound),
            Some(u) => u,
        };
        let secret = match &u.totp_secret {
            None => return Err(AppError::BadRequest(String::from_str("2FA not setup"))),
            Some(s) => s,
        };
        let check = self.crypto.verify_totp_at(secret.as_str(), code, now);
        Self::enable_2fa_outcome(check)
    }

    /// Checks the code that enables two factors for a user at the current
    /// time (see `enable_2fa_check_at`).
    pub fn enable_2fa_check(&self, user: Option<User>, code: &str) -> (res: Result<(), AppError>)
        ensures
            exists|now: u64|
                TOTP_STEP_SECS <= now < max_unix_secs() && #[trigger] enable_2fa_answered(
                    user,
                    code@,
                    now,
                    res,
                ),
    {
        let now = CryptoService::totp_clock();
        self.enable_2fa_check_at(user, code, now)
    }

    /// The password reset issued at `now` to the user found by e-mail, with a
    /// token made of `token_bytes`; nothing when no user has that e-mail.
    pub fn password_reset_grant_at(
        &self,
        user: Option<User>,
        now: i64,
        token_bytes: &[u8],
    ) -> (res: Option<PasswordResetGrant>)
        requires
            0 <= now < max_unix_secs(),
        ensures
            match user {
                None => res is None,
                Some(u) => res matches Some(g) && {
                    &&& g.user_id == u.id
                    &&& g.token@ == base64url_nopad(token_bytes@)
                    &&& g.token_hash@ == token_digest(g.token@)
                    &&& g.expires_at == now + PASSWORD_RESET_EXPIRY_SECS
                },
            },
    {
        match user {
            None => None,
            Some(u) => {
                let token = CryptoService::refresh_token_from_bytes(token_bytes);
                let token_hash = self.crypto.hash_token(token.as_str());
                let expires_at = CryptoService::password_reset_expiry_at(now);
                Some(PasswordResetGrant { user_id: u.id, token, token_hash, expires_at })
            },
        }
    }

    /// A password reset for the user found by e-mail, with a fresh random
    /// token valid for thirty minutes; nothing when no user has that e-mail.
    pub fn password_forgot(&self, user: Option<User>) -> (res: Option<PasswordResetGrant>)
        ensures
            match user {
                None => res is None,
                Some(u) => res matches Some(g) && g.user_id == u.id && g.token_hash@
                    == token_digest(g.token@) && (exists|now: i64|
                    0 <= now < max_unix_secs() && g.expires_at == #[trigger] reset_expiry(now))
                    && exists|b: Seq<u8>|
                    b.len() == REFRESH_TOKEN_BYTES && g.token@ == #[trigger] base64url_nopad(b),
            },
    {
        let now = unix_now_secs();
        let bytes = os_random_bytes(REFRESH_TOKEN_BYTES);
        let res = self.password_reset_grant_at(user, now, bytes.as_slice());
        proof {
            if res is Some {
                assert(res->0.expires_at == reset_expiry(now));
            }
        }
        res
    }

    /// What a password-reset token found in the store (if any) leads to at
    /// `now` (see `reset_answered`).
    pub fn password_reset_step_at(
        &self,
        reset: Option<PasswordReset>,
        new_password: &str,
        now: i64,
    ) -> (res: Result<ResetStep, AppError>)
        ensures
            reset_answered(reset, new_password@, now, res),
    {
        let r = match reset {
            None => return Err(AppError::InvalidToken),
            Some(r) => r,
        };
        if r.expires_at < now {
            return Ok(ResetStep::DeleteThenReject);
        }
        match self.crypto.hash_password(new_password) {
            Ok(h) => Ok(ResetStep::Apply { user_id: r.user_id, password_hash: h }),
            Err(e) => Err(e),
        }
    }

    /// What a stored password-reset token leads to now (see `reset_answered`):
    /// a stored token always leads to a step for a password of at most
    /// `0xFFFFFFFF` bytes, whatever the time.
    pub fn password_reset_step(&self, reset: Option<PasswordReset>, new_password: &str) -> (res:
        Result<ResetStep, AppError>)
        ensures
            exists|now: i64|
                0 <= now < max_unix_secs() && #[trigger] reset_answered(reset, new_password@, now, res),
            reset is None ==> res == Err::<ResetStep, AppError>(AppError::InvalidToken),
            reset is Some && vstd::utf8::encode_utf8(new_password@).len() <= 0xFFFF_FFFF ==> res is Ok,
    {
        let now = unix_now_secs();
        self.password_reset_step_at(reset, new_password, now)
    }

    /// The password hash a new user is stored with: an Argon2id hash that
    /// checks back against the password, made for every password of at most
    /// `0xFFFFFFFF` bytes; a failure of the hasher is `InternalError`.
    pub fn create_user(&self, password: &str) -> (res: Result<String, AppError>)
        ensures
            vstd::utf8::encode_utf8(password@).len() <= 0xFFFF_FFFF ==> res is Ok,
            res matches Ok(h) ==> argon2_check(password@, h@) == Some(true),
            res matches Ok(h) ==> argon2id_phc_prefix().is_prefix_of(h@),
            res matches Err(e) ==> e == AppError::InternalError,
    {
        self.crypto.hash_password(password)
    }

    /// The user looked up by id; a missing one is `UserNotFound`.
    pub fn get_user(user: Option<User>) -> (res: Result<User, AppError>)
        ensures
            match user {
                None => res == Err::<User, AppError>(AppError::UserNotFound),
                Some(u) => res == Ok::<User, AppError>(u),
            },
    {
        match user {
            None => Err(AppError::UserNotFound),
            Some(u) => Ok(u),
        }
    }

    /// An emergency `Admin` token, valid for five minutes, for the user found
    /// by e-mail; a missing one is `UserNotFound`.
    pub fn emergency_recover(&self, user: Option<User>) -> (res: Result<String, AppError>)
        ensures
            user is None ==> res == Err::<String, AppError>(AppError::UserNotFound),
            user matches Some(u) ==> res is Ok && exists|now: i64|
                0 <= now < max_unix_secs() && res->Ok_0@ == #[trigger] jwt_hs256(
                    uuid_text(u.id),
                    admin_role(),
                    (now + EMERGENCY_TOKEN_EXPIRY_SECS) as i64,
                    now,
                    self.secret(),
                ),
    {
        match user {
            None => Err(AppError::UserNotFound),
            Some(u) => {
                let r = self.crypto.generate_emergency_token(u.id);
                assert(self.crypto.secret() == self.secret());
                r
            },
        }
    }
}

} // verus!
