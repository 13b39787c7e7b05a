//! Request-level rules of the authentication routes: the refresh-token cookie
//! that is set and read back, and the checks made before a request reaches the
//! authentication service.

use vstd::prelude::*;
use crate::encoding::{base64url_nopad, is_base64url_char, lemma_base64url_shape};
use crate::error::AppError;
use crate::middleware::ip_lockout::{
    after_check, after_failure, after_success, can_record_failure, locked_at, remaining_lock_secs,
    IpLockout, LockoutState,
};
use crate::services::auth::LoginResult;
use crate::text::{
    back_white_space, back_ws, chars_of, decimal, find_char, find_in, lemma_back_ws_bounds,
    lemma_find_in_absent, lemma_find_in_bounds, lemma_find_in_first, lemma_skip_ws_bounds,
    is_white_space, push_decimal, range_equals, skip_white_space,
    skip_ws, string_of, text_equals,
};

verus! {

/// Name of the cookie that carries the refresh token.
pub open spec fn refresh_cookie_name() -> Seq<char> {
    "refresh_token"@
}

/// `Set-Cookie` value that hands the browser a refresh token.
pub open spec fn refresh_cookie(token: Seq<char>, max_age_secs: nat) -> Seq<char> {
    "refresh_token="@ + token + "; HttpOnly; SameSite=Strict; Secure; Path=/; Max-Age="@
        + decimal(max_age_secs)
}

/// `Set-Cookie` value that makes the browser forget its refresh token.
pub open spec fn cleared_refresh_cookie() -> Seq<char> {
    "refresh_token=; HttpOnly; SameSite=Strict; Secure; Path=/; Max-Age=0"@
}

/// Lifetime of the refresh-token cookie: fifteen days, in seconds.
pub const REFRESH_COOKIE_MAX_AGE_SECS: u64 = 1296000;

/// Text of the `Set-Cookie` header that carries `token` for `max_age_secs` seconds.
pub fn create_refresh_cookie(token: &str, max_age_secs: u64) -> (res: String)
    ensures
        res@ == refresh_cookie(token@, max_age_secs as nat),
{
    let mut s = String::from_str("refresh_token=");
    s.append(token);
    s.append("; HttpOnly; SameSite=Strict; Secure; Path=/; Max-Age=");
    push_decimal(&mut s, max_age_secs);
    s
}

/// Text of the `Set-Cookie` header sent on logout.
pub fn clear_refresh_cookie() -> (res: String)
    ensures
        res@ == cleared_refresh_cookie(),
{
    String::from_str("refresh_token=; HttpOnly; SameSite=Strict; Secure; Path=/; Max-Age=0")
}

/// What one `;`-separated piece `s[lo..hi]` of a `Cookie` header says of the
/// refresh token: the piece is trimmed and split at `=`; when its first field is
/// the cookie's name and a second field follows, that second field is the value.
pub open spec fn cookie_piece_value(s: Seq<char>, lo: int, hi: int) -> Option<Seq<char>> {
    let a = skip_ws(s, lo, hi);
    let b = back_ws(s, a, hi);
    let q = find_in(s, '=', a, b);
    if q < b && s.subrange(a, q) == refresh_cookie_name() {
        Some(s.subrange(q + 1, find_in(s, '=', q + 1, b)))
    } else {
        None
    }
}

/// The refresh token of the first piece, from index `lo` on, that names it.
pub open spec fn refresh_token_from(s: Seq<char>, lo: int) -> Option<Seq<char>>
    decreases s.len() - lo,
{
    if lo < 0 || lo > s.len() {
        None
    } else {
        let e = find_in(s, ';', lo, s.len() as int);
        match cookie_piece_value(s, lo, e) {
            Some(v) => Some(v),
            None => {
                if e < s.len() {
                    proof {
                        lemma_find_in_bounds(s, ';', lo, s.len() as int);
                    }
                    refresh_token_from(s, e + 1)
                } else {
                    None
                }
            },
        }
    }
}

/// The refresh token that a `Cookie` header carries, if any.
pub open spec fn refresh_token_in(header: Seq<char>) -> Option<Seq<char>> {
    refresh_token_from(header, 0)
}

/// A character that can stand in a cookie value without ending it early: not
/// `;`, not `=` and not white space.
pub open spec fn cookie_safe(c: char) -> bool {
    c != ';' && c != '=' && !is_white_space(c)
}

/// A token made of cookie-safe characters is read back from a `Cookie` header
/// that starts with `refresh_token=<token>` and ends there or goes on with `;`.
pub proof fn lemma_refresh_token_read_back(token: Seq<char>, rest: Seq<char>)
    requires
        forall|i: int| 0 <= i < token.len() ==> cookie_safe(#[trigger] token[i]),
        rest.len() == 0 || rest[0] == ';',
    ensures
        refresh_token_in("refresh_token="@ + token + rest) == Some(token),
{
    reveal_strlit("refresh_token=");
    reveal_strlit("refresh_token");
    let p = "refresh_token="@;
    let s = p + token + rest;
    let l: int = 14 + token.len() as int;
    assert(p.len() == 14);
    assert forall|j: int| 0 <= j < l implies s[j] != ';' by {
        if j >= 14 {
            assert(s[j] == token[j - 14]);
        }
    }
    if rest.len() == 0 {
        assert(s.len() == l);
        lemma_find_in_absent(s, ';', 0, s.len() as int);
    } else {
        assert(s[l] == rest[0]);
        lemma_find_in_first(s, ';', 0, l, s.len() as int);
    }
    assert(find_in(s, ';', 0, s.len() as int) == l);
    assert(!is_white_space(s[0]));
    assert(skip_ws(s, 0, l) == 0);
    if token.len() > 0 {
        assert(s[l - 1] == token[token.len() - 1]);
    } else {
        assert(s[l - 1] == '=');
    }
    assert(back_ws(s, 0, l) == l);
    assert(s[13] == '=');
    lemma_find_in_first(s, '=', 0, 13, l);
    assert(s.subrange(0, 13) =~= "refresh_token"@);
    assert forall|j: int| 14 <= j < l implies s[j] != '=' by {
        assert(s[j] == token[j - 14]);
    }
    lemma_find_in_absent(s, '=', 14, l);
    assert(s.subrange(14, l) =~= token);
    assert(cookie_piece_value(s, 0, l) == Some(token));
}

/// Law: the refresh token handed out in a `Set-Cookie` header is what
/// `extract_refresh_token` reads back from that header, for every token of
/// cookie-safe characters and every lifetime.
pub proof fn law_refresh_cookie_round_trip(token: Seq<char>, max_age_secs: nat)
    requires
        forall|i: int| 0 <= i < token.len() ==> cookie_safe(#[trigger] token[i]),
    ensures
        refresh_token_in(refresh_cookie(token, max_age_secs)) == Some(token),
{
    let rest = "; HttpOnly; SameSite=Strict; Secure; Path=/; Max-Age="@ + decimal(max_age_secs);
    reveal_strlit("; HttpOnly; SameSite=Strict; Secure; Path=/; Max-Age=");
    assert(refresh_cookie(token, max_age_secs) =~= "refresh_token="@ + token + rest);
    lemma_refresh_token_read_back(token, rest);
}

/// Law: a browser that sends back only `refresh_token=<token>` is read as
/// sending `token`.
pub proof fn law_cookie_header_read_back(token: Seq<char>)
    requires
        forall|i: int| 0 <= i < token.len() ==> cookie_safe(#[trigger] token[i]),
    ensures
        refresh_token_in("refresh_token="@ + token) == Some(token),
{
    lemma_refresh_token_read_back(token, Seq::empty());
    assert("refresh_token="@ + token + Seq::<char>::empty() =~= "refresh_token="@ + token);
}

/// Law: every refresh token the service hands out (URL-safe Base64 of random
/// bytes) is read back from the cookie it is set in, and from the cookie
/// header the browser then sends.
pub proof fn law_issued_refresh_token_survives_cookie(bytes: Seq<u8>, max_age_secs: nat)
    ensures
        refresh_token_in(refresh_cookie(base64url_nopad(bytes), max_age_secs)) == Some(
            base64url_nopad(bytes),
        ),
        refresh_token_in("refresh_token="@ + base64url_nopad(bytes)) == Some(base64url_nopad(bytes)),
{
    let t = base64url_nopad(bytes);
    lemma_base64url_shape(bytes);
    assert forall|i: int| 0 <= i < t.len() implies cookie_safe(#[trigger] t[i]) by {
        assert(is_base64url_char(t[i]));
    }
    law_refresh_cookie_round_trip(t, max_age_secs);
    law_cookie_header_read_back(t);
}

/// Law: the logout cookie is the refresh cookie with an empty token and no
/// lifetime left.
pub proof fn law_cleared_cookie_is_empty_refresh_cookie()
    ensures
        cleared_refresh_cookie() == refresh_cookie(Seq::empty(), 0),
{
    reveal_strlit("refresh_token=; HttpOnly; SameSite=Strict; Secure; Path=/; Max-Age=0");
    reveal_strlit("refresh_token=");
    reveal_strlit("; HttpOnly; SameSite=Strict; Secure; Path=/; Max-Age=");
    assert(decimal(0) == seq!['0']);
    assert(cleared_refresh_cookie() =~= refresh_cookie(Seq::empty(), 0));
}

fn piece_value(v: &Vec<char>, lo: usize, hi: usize) -> (res: Option<String>)
    requires
        lo <= hi <= v@.len(),
    ensures
        match cookie_piece_value(v@, lo as int, hi as int) {
            Some(t) => res matches Some(r) && r@ == t,
            None => res is None,
        },
{
    let a = skip_white_space(v, lo, hi);
    proof {
        lemma_skip_ws_bounds(v@, lo as int, hi as int);
    }
    let b = back_white_space(v, a, hi);
    proof {
        lemma_back_ws_bounds(v@, a as int, hi as int);
    }
    let q = find_char(v, '=', a, b);
    proof {
        lemma_find_in_bounds(v@, '=', a as int, b as int);
    }
    if q < b && range_equals(v, a, q, "refresh_token") {
        let e = find_char(v, '=', q + 1, b);
        proof {
            lemma_find_in_bounds(v@, '=', (q + 1) as int, b as int);
        }
        Some(string_of(v, q + 1, e))
    } else {
        None
    }
}

/// The refresh token sent in the `Cookie` header (`None` when the request has
/// no readable `Cookie` header); `Unauthorized` when it carries none.
pub fn extract_refresh_token(cookie_header: Option<&str>) -> (res: Result<String, AppError>)
    ensures
        match cookie_header {
            None => res == Err::<String, AppError>(AppError::Unauthorized),
            Some(h) => match refresh_token_in(h@) {
                Some(t) => res matches Ok(r) && r@ == t,
                None => res == Err::<String, AppError>(AppError::Unauthorized),
            },
        },
{
    let h = match cookie_header {
        None => return Err(AppError::Unauthorized),
        Some(h) => h,
    };
    let v = chars_of(h);
    let n = v.len();
    let mut lo: usize = 0;
    loop
        invariant
            cookie_header == Some(h),
            v@ == h@,
            n == v@.len(),
            lo <= n,
            refresh_token_in(h@) == refresh_token_from(h@, lo as int),
        decreases n - lo,
    {
        let e = find_char(&v, ';', lo, n);
        proof {
            lemma_find_in_bounds(v@, ';', lo as int, n as int);
        }
        let piece = piece_value(&v, lo, e);
        assert(refresh_token_from(v@, lo as int) == match cookie_piece_value(v@, lo as int, e as int) {
            Some(t) => Some(t),
            None => if e < n { refresh_token_from(v@, e + 1) } else { None },
        });
        match piece {
            Some(t) => return Ok(t),
            None => {
                if e < n {
                    lo = e + 1;
                } else {
                    return Err(AppError::Unauthorized);
                }
            },
        }
    }
}

/// Seconds of lock assumed for a client that is locked out but whose lock's
/// end is not known: fifteen minutes.
pub const DEFAULT_LOCK_SECS: u64 = 900;

/// How a locked-out client is answered at `now`: `IpLocked` with the whole
/// minutes left on the lock; nothing when the client is not locked.
pub open spec fn lock_refusal(s: LockoutState, ip: Seq<char>, now: u64) -> Option<AppError> {
    if locked_at(s, ip, now) {
        let secs = match remaining_lock_secs(s, ip, now) {
            Some(r) => r,
            None => DEFAULT_LOCK_SECS,
        };
        Some(AppError::IpLocked(secs / 60))
    } else {
        None
    }
}

/// The refusal of a request from `ip` at `now` if that IP is locked out (an
/// expired lock is dropped on the way).
pub fn lockout_refusal_at(lockout: &mut IpLockout, ip: &str, now: u64) -> (res: Option<AppError>)
    ensures
        res == lock_refusal(old(lockout)@, ip@, now),
        final(lockout)@ == after_check(old(lockout)@, ip@, now),
{
    if lockout.is_locked_at(ip, now) {
        let secs = match lockout.get_remaining_lockout_secs_at(ip, now) {
            Some(r) => r,
            None => DEFAULT_LOCK_SECS,
        };
        Some(AppError::IpLocked(secs / 60))
    } else {
        None
    }
}

/// The refusal of a request from `ip` now if that IP is locked out.
pub fn lockout_refusal(lockout: &mut IpLockout, ip: &str) -> (res: Option<AppError>)
    ensures
        exists|now: u64|
            res == lock_refusal(old(lockout)@, ip@, now) && final(lockout)@ == #[trigger] after_check(
                old(lockout)@,
                ip@,
                now,
            ),
{
    let now = lockout.now_micros();
    lockout_refusal_at(lockout, ip, now)
}

/// Whether the lockout after an attempt is the one before with a failure of
/// `ip` counted at some instant, or unchanged when its count is already at
/// the largest a count can hold.
pub open spec fn failure_counted(before: LockoutState, after: LockoutState, ip: Seq<char>) -> bool {
    if can_record_failure(before, ip) {
        exists|now: u64| after == #[trigger] after_failure(before, ip, now)
    } else {
        after == before
    }
}

/// Updates the lockout of `ip` after a login: a success clears its failure
/// count, wrong credentials count as a failure, anything else (a second
/// factor being required, or another error) leaves it as it is.
pub fn record_login_outcome(lockout: &mut IpLockout, ip: &str, result: &Result<LoginResult, AppError>)
    ensures
        match result {
            Ok(LoginResult::Success { .. }) => final(lockout)@ == after_success(old(lockout)@, ip@),
            Err(AppError::InvalidCredentials) => failure_counted(old(lockout)@, final(lockout)@, ip@),
            _ => final(lockout)@ == old(lockout)@,
        },
{
    match result {
        Ok(LoginResult::Success { .. }) => lockout.record_success(ip),
        Err(AppError::InvalidCredentials) => {
            let _ = lockout.record_failure(ip);
        },
        _ => {},
    }
}

/// Updates the lockout of `ip` after a second-factor verification: a success
/// clears its failure count, a wrong code counts as a failure, anything else
/// leaves it as it is.
pub fn record_2fa_outcome(lockout: &mut IpLockout, ip: &str, result: &Result<LoginResult, AppError>)
    ensures
        match result {
            Ok(LoginResult::Success { .. }) => final(lockout)@ == after_success(old(lockout)@, ip@),
            Err(AppError::InvalidTwoFactorCode) => failure_counted(old(lockout)@, final(lockout)@, ip@),
            _ => final(lockout)@ == old(lockout)@,
        },
{
    match result {
        Ok(LoginResult::Success { .. }) => lockout.record_success(ip),
        Err(AppError::InvalidTwoFactorCode) => {
            let _ = lockout.record_failure(ip);
        },
        _ => {},
    }
}

/// What a second-factor verification answers: its tokens, or its error; a
/// verification that asks for yet another challenge is `InternalError`.
pub fn second_factor_response(result: Result<LoginResult, AppError>) -> (res: Result<
    LoginResult,
    AppError,
>)
    ensures
        match result {
            Ok(LoginResult::Success { access_token, refresh_token, expires_in }) => res matches Ok(
                LoginResult::Success { access_token: a, refresh_token: r, expires_in: x },
            ) && a == access_token && r == refresh_token && x == expires_in,
            Ok(LoginResult::TwoFactorChallenge { .. }) => res == Err::<LoginResult, AppError>(
                AppError::InternalError,
            ),
            Err(e) => res == Err::<LoginResult, AppError>(e),
        },
{
    match result {
        Ok(LoginResult::Success { access_token, refresh_token, expires_in }) => Ok(
            LoginResult::Success { access_token, refresh_token, expires_in },
        ),
        Ok(LoginResult::TwoFactorChallenge { .. }) => Err(AppError::InternalError),
        Err(e) => Err(e),
    }
}

/// Checks the `X-Emergency-Key` header (`None` when absent or unreadable):
/// missing is `Unauthorized`, different from the configured key `Forbidden`.
pub fn check_emergency_key(provided: Option<&str>, expected: &str) -> (res: Result<(), AppError>)
    ensures
        match provided {
            None => res == Err::<(), AppError>(AppError::Unauthorized),
            Some(k) => if k@ == expected@ {
                res is Ok
            } else {
                res == Err::<(), AppError>(AppError::Forbidden)
            },
        },
{
    match provided {
        None => Err(AppError::Unauthorized),
        Some(k) => if text_equals(k, expected) {
            Ok(())
        } else {
            Err(AppError::Forbidden)
        },
    }
}

/// Checks the setup token of the request that creates the first admin: a
/// token different from the configured one is `Unauthorized`.
pub fn check_setup_token(token: &str, expected: &str) -> (res: Result<(), AppError>)
    ensures
        if token@ == expected@ {
            res is Ok
        } else {
            res == Err::<(), AppError>(AppError::Unauthorized)
        },
{
    if text_equals(token, expected) {
        Ok(())
    } else {
        Err(AppError::Unauthorized)
    }
}

} // verus!
