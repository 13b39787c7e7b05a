//! Authentication of requests to protected routes: the bearer token of the
//! `Authorization` header must be a valid token whose subject is a user id.

use vstd::prelude::*;
use crate::encoding::{parse_uuid, uuid_parsed, uuid_text};
use crate::error::AppError;
use crate::models::Claims;
use crate::services::crypto::{
    admin_role, challenge_role, jwt_hs256, jwt_payload, token_checked, CryptoService, TOKEN_LEEWAY_SECS,
};
use crate::system::{max_unix_secs, unix_now_secs};
use crate::text::{chars_of, range_equals, string_of, text_equals};

verus! {

/// The authenticated user of a request.
#[derive(Clone, Copy, Debug, PartialEq, Eq, Structural)]
pub struct UserId(pub u128);

/// The role of the authenticated user of a request.
#[derive(Clone, Copy, Debug)]
pub struct UserRole(pub &'static str);

/// The token of an `Authorization` header: what follows `Bearer `.
pub open spec fn bearer_token(header: Seq<char>) -> Option<Seq<char>> {
    if header.len() >= 7 && header.take(7) == "Bearer "@ {
        Some(header.skip(7))
    } else {
        None
    }
}

/// The bearer token of the `Authorization` header (`None` when the request
/// has no readable one); `Unauthorized` when there is none.
pub fn bearer_token_of(header: Option<&str>) -> (res: Result<String, AppError>)
    ensures
        match header {
            None => res == Err::<String, AppError>(AppError::Unauthorized),
            Some(h) => match bearer_token(h@) {
                None => res == Err::<String, AppError>(AppError::Unauthorized),
                Some(t) => res matches Ok(r) && r@ == t,
            },
        },
{
    let h = match header {
        None => return Err(AppError::Unauthorized),
        Some(h) => h,
    };
    let v = chars_of(h);
    if v.len() >= 7 && range_equals(&v, 0, 7, "Bearer ") {
        assert(v@.subrange(0, 7) == v@.take(7));
        let t = string_of(&v, 7, v.len());
        assert(v@.subrange(7, v@.len() as int) =~= v@.skip(7));
        Ok(t)
    } else {
        proof {
            if v@.len() >= 7 {
                assert(v@.subrange(0, 7) =~= v@.take(7));
            }
        }
        Err(AppError::Unauthorized)
    }
}

/// The user that an accepted token's claims authenticate: a two-factor
/// challenge token opens no protected route, and a subject that is not a UUID
/// is refused; both are `InvalidToken`.
pub open spec fn claims_user(c: Claims) -> Result<UserId, AppError> {
    if c.role@ == challenge_role() {
        Err(AppError::InvalidToken)
    } else {
        match uuid_parsed(c.sub@) {
            Some(u) => Ok(UserId(u)),
            None => Err(AppError::InvalidToken),
        }
    }
}

/// What a protected route answers for the outcome of validating its token:
/// a refusal keeps its error, accepted claims give their user.
pub open spec fn authorization(validated: Result<Claims, AppError>) -> Result<UserId, AppError> {
    match validated {
        Err(e) => Err(e),
        Ok(c) => claims_user(c),
    }
}

/// The text of a request's `Authorization` header, if it has a readable one.
pub open spec fn header_text(header: Option<&str>) -> Option<Seq<char>> {
    match header {
        Some(h) => Some(h@),
        None => None,
    }
}

/// Whether `res` is what checking the bearer token of an `Authorization`
/// header at Unix time `now` answers: a missing or non-bearer header is
/// `Unauthorized`; else the token is checked as `token_checked` says.
pub open spec fn bearer_checked(
    secret: Seq<char>,
    header: Option<Seq<char>>,
    now: i64,
    res: Result<Claims, AppError>,
) -> bool {
    match header {
        None => res == Err::<Claims, AppError>(AppError::Unauthorized),
        Some(h) => match bearer_token(h) {
            None => res == Err::<Claims, AppError>(AppError::Unauthorized),
            Some(t) => token_checked(jwt_payload(t, secret), now, res),
        },
    }
}

/// Whether `res` is what a protected route answers for a request at `now`:
/// `authorization` of what checking its bearer token answers.
pub open spec fn access_checked(
    secret: Seq<char>,
    header: Option<Seq<char>>,
    now: i64,
    res: Result<UserId, AppError>,
) -> bool {
    exists|checked: Result<Claims, AppError>|
        #[trigger] bearer_checked(secret, header, now, checked) && res == authorization(checked)
}

/// What an administrators' route answers for the outcome of validating its
/// token: as `authorization`, and then `Forbidden` unless the token's role is
/// `Admin`.
pub open spec fn admin_authorization(validated: Result<Claims, AppError>) -> Result<UserId, AppError> {
    match validated {
        Err(e) => Err(e),
        Ok(c) => match claims_user(c) {
            Err(e) => Err(e),
            Ok(u) => if c.role@ == admin_role() {
                Ok(u)
            } else {
                Err(AppError::Forbidden)
            },
        },
    }
}

/// The user that accepted claims authenticate (see `claims_user`).
pub fn user_of_claims(c: &Claims) -> (res: Result<UserId, AppError>)
    ensures
        res == claims_user(*c),
        forall|u: u128|
            #[trigger] uuid_text(u) == c.sub@ && c.role@ != challenge_role() ==> res == Ok::<
                UserId,
                AppError,
            >(UserId(u)),
{
    if text_equals(c.role.as_str(), "2fa_challenge") {
        proof {
            reveal_strlit("2fa_challenge");
        }
        return Err(AppError::InvalidToken);
    }
    proof {
        reveal_strlit("2fa_challenge");
    }
    match parse_uuid(c.sub.as_str()) {
        Some(u) => Ok(UserId(u)),
        None => Err(AppError::InvalidToken),
    }
}

/// What a protected route answers for the outcome of validating its token.
pub fn authorize(validated: Result<Claims, AppError>) -> (res: Result<UserId, AppError>)
    ensures
        res == authorization(validated),
        validated matches Ok(c) ==> forall|u: u128|
            #[trigger] uuid_text(u) == c.sub@ && c.role@ != challenge_role() ==> res == Ok::<
                UserId,
                AppError,
            >(UserId(u)),
{
    match validated {
        Err(e) => Err(e),
        Ok(c) => user_of_claims(&c),
    }
}

/// The claims of the bearer token of an `Authorization` header, checked at
/// `now` (see `bearer_checked`).
fn bearer_claims_at(crypto: &CryptoService, header: Option<&str>, now: i64) -> (res: Result<
    Claims,
    AppError,
>)
    requires
        0 <= now < max_unix_secs(),
    ensures
        bearer_checked(crypto.secret(), header_text(header), now, res),
        forall|sub: Seq<char>, role: Seq<char>, exp: i64, iat: i64|
            header matches Some(h) && bearer_token(h@) == Some(
                #[trigger] jwt_hs256(sub, role, exp, iat, crypto.secret()),
            ) ==> (if exp < 0 {
                res == Err::<Claims, AppError>(AppError::InvalidToken)
            } else if exp < now - TOKEN_LEEWAY_SECS {
                res == Err::<Claims, AppError>(AppError::TokenExpired)
            } else {
                res matches Ok(c) && c.sub@ == sub && c.role@ == role
            }),
{
    let token = match bearer_token_of(header) {
        Ok(t) => t,
        Err(e) => return Err(e),
    };
    let res = crypto.validate_token_at(token.as_str(), now);
    proof {
        assert forall|sub: Seq<char>, role: Seq<char>, exp: i64, iat: i64|
            header matches Some(h) && bearer_token(h@) == Some(
                #[trigger] jwt_hs256(sub, role, exp, iat, crypto.secret()),
            ) implies (if exp < 0 {
                res == Err::<Claims, AppError>(AppError::InvalidToken)
            } else if exp < now - TOKEN_LEEWAY_SECS {
                res == Err::<Claims, AppError>(AppError::TokenExpired)
            } else {
                res matches Ok(c) && c.sub@ == sub && c.role@ == role
            }) by {
            assert(crypto.signed(sub, role, exp, iat) == token@);
        }
    }
    res
}

/// Authenticates a request at Unix time `now` by its `Authorization` header:
/// a missing or non-bearer header is `Unauthorized`, and nothing else is; the
/// bearer token is checked (signature, form, expiry with leeway) and its
/// outcome answered as `authorization` says, so a refused or expired token
/// keeps its error, and a challenge token or a subject that is not a UUID is
/// `InvalidToken`. A token this service signed for a user with another role
/// than the challenge role authenticates that user until the leeway after its
/// expiry has passed.
pub fn authenticate_at(crypto: &CryptoService, header: Option<&str>, now: i64) -> (res: Result<
    UserId,
    AppError,
>)
    requires
        0 <= now < max_unix_secs(),
    ensures
        access_checked(crypto.secret(), header_text(header), now, res),
        res == Err::<UserId, AppError>(AppError::Unauthorized) <==> match header {
            None => true,
            Some(h) => bearer_token(h@) is None,
        },
        forall|u: u128, role: Seq<char>, exp: i64, iat: i64|
            header matches Some(h) && bearer_token(h@) == Some(
                #[trigger] jwt_hs256(uuid_text(u), role, exp, iat, crypto.secret()),
            ) ==> (if exp < 0 {
                res == Err::<UserId, AppError>(AppError::InvalidToken)
            } else if exp < now - TOKEN_LEEWAY_SECS {
                res == Err::<UserId, AppError>(AppError::TokenExpired)
            } else if role == challenge_role() {
                res == Err::<UserId, AppError>(AppError::InvalidToken)
            } else {
                res == Ok::<UserId, AppError>(UserId(u))
            }),
{
    let checked = bearer_claims_at(crypto, header, now);
    let res = authorize(checked);
    proof {
        assert(bearer_checked(crypto.secret(), header_text(header), now, checked));
        assert forall|u: u128, role: Seq<char>, exp: i64, iat: i64|
            header is Some && bearer_token(header->0@) == Some(
                #[trigger] jwt_hs256(uuid_text(u), role, exp, iat, crypto.secret()),
            ) implies (if exp < 0 {
                res == Err::<UserId, AppError>(AppError::InvalidToken)
            } else if exp < now - TOKEN_LEEWAY_SECS {
                res == Err::<UserId, AppError>(AppError::TokenExpired)
            } else if role == challenge_role() {
                res == Err::<UserId, AppError>(AppError::InvalidToken)
            } else {
                res == Ok::<UserId, AppError>(UserId(u))
            }) by {
            assert(bearer_token(header->0@) == Some(jwt_hs256(uuid_text(u), role, exp, iat, crypto.secret())));
            if checked is Ok {
                let c = checked->Ok_0;
                assert(c.sub@ == uuid_text(u));
            }
        }
    }
    res
}

/// Authenticates a request now (see `authenticate_at`).
pub fn authenticate(crypto: &CryptoService, header: Option<&str>) -> (res: Result<
    UserId,
    AppError,
>)
    ensures
        exists|now: i64|
            0 <= now < max_unix_secs() && #[trigger] access_checked(
                crypto.secret(),
                header_text(header),
                now,
                res,
            ),
        res == Err::<UserId, AppError>(AppError::Unauthorized) <==> match header {
            None => true,
            Some(h) => bearer_token(h@) is None,
        },
        forall|u: u128, role: Seq<char>, exp: i64, iat: i64|
            header matches Some(h) && bearer_token(h@) == Some(
                #[trigger] jwt_hs256(uuid_text(u), role, exp, iat, crypto.secret()),
            ) ==> (if exp < 0 {
                res == Err::<UserId, AppError>(AppError::InvalidToken)
            } else if role == challenge_role() {
                res == Err::<UserId, AppError>(AppError::InvalidToken) || res == Err::<
                    UserId,
                    AppError,
                >(AppError::TokenExpired)
            } else {
                res == Ok::<UserId, AppError>(UserId(u)) || res == Err::<UserId, AppError>(
                    AppError::TokenExpired,
                )
            }),
{
    let now = unix_now_secs();
    authenticate_at(crypto, header, now)
}

/// Authenticates a request to an administrators' route at Unix time `now`:
/// as `authenticate_at`, and then `Forbidden` unless the token's role is
/// `Admin`.
pub fn authenticate_admin_at(crypto: &CryptoService, header: Option<&str>, now: i64) -> (res: Result<
    UserId,
    AppError,
>)
    requires
        0 <= now < max_unix_secs(),
    ensures
        exists|checked: Result<Claims, AppError>|
            #[trigger] bearer_checked(crypto.secret(), header_text(header), now, checked) && res
                == admin_authorization(checked),
        res == Err::<UserId, AppError>(AppError::Unauthorized) <==> match header {
            None => true,
            Some(h) => bearer_token(h@) is None,
        },
        forall|u: u128, role: Seq<char>, exp: i64, iat: i64|
            header matches Some(h) && bearer_token(h@) == Some(
                #[trigger] jwt_hs256(uuid_text(u), role, exp, iat, crypto.secret()),
            ) ==> (if exp < 0 {
                res == Err::<UserId, AppError>(AppError::InvalidToken)
            } else if exp < now - TOKEN_LEEWAY_SECS {
                res == Err::<UserId, AppError>(AppError::TokenExpired)
            } else if role == challenge_role() {
                res == Err::<UserId, AppError>(AppError::InvalidToken)
            } else if role != admin_role() {
                res == Err::<UserId, AppError>(AppError::Forbidden)
            } else {
                res == Ok::<UserId, AppError>(UserId(u))
            }),
{
    let checked = bearer_claims_at(crypto, header, now);
    let res = match checked {
        Err(e) => Err(e),
        Ok(c) => match user_of_claims(&c) {
            Err(e) => Err(e),
            Ok(u) => if text_equals(c.role.as_str(), "Admin") {
                proof {
                    reveal_strlit("Admin");
                }
                Ok(u)
            } else {
                proof {
                    reveal_strlit("Admin");
                }
                Err(AppError::Forbidden)
            },
        },
    };
    proof {
        assert(bearer_checked(crypto.secret(), header_text(header), now, checked));
        assert forall|u: u128, role: Seq<char>, exp: i64, iat: i64|
            header is Some && bearer_token(header->0@) == Some(
                #[trigger] jwt_hs256(uuid_text(u), role, exp, iat, crypto.secret()),
            ) implies (if exp < 0 {
                res == Err::<UserId, AppError>(AppError::InvalidToken)
            } else if exp < now - TOKEN_LEEWAY_SECS {
                res == Err::<UserId, AppError>(AppError::TokenExpired)
            } else if role == challenge_role() {
                res == Err::<UserId, AppError>(AppError::InvalidToken)
            } else if role != admin_role() {
                res == Err::<UserId, AppError>(AppError::Forbidden)
            } else {
                res == Ok::<UserId, AppError>(UserId(u))
            }) by {
            assert(bearer_token(header->0@) == Some(jwt_hs256(uuid_text(u), role, exp, iat, crypto.secret())));
            if checked is Ok {
                let c = checked->Ok_0;
                assert(c.sub@ == uuid_text(u));
            }
        }
    }
    res
}

/// Authenticates a request to an administrators' route now (see
/// `authenticate_admin_at`).
pub fn authenticate_admin(crypto: &CryptoService, header: Option<&str>) -> (res: Result<
    UserId,
    AppError,
>)
    ensures
        exists|now: i64, checked: Result<Claims, AppError>|
            0 <= now < max_unix_secs() && #[trigger] bearer_checked(
                crypto.secret(),
                header_text(header),
                now,
                checked,
            ) && res == admin_authorization(checked),
        res == Err::<UserId, AppError>(AppError::Unauthorized) <==> match header {
            None => true,
            Some(h) => bearer_token(h@) is None,
        },
        forall|u: u128, role: Seq<char>, exp: i64, iat: i64|
            header matches Some(h) && bearer_token(h@) == Some(
                #[trigger] jwt_hs256(uuid_text(u), role, exp, iat, crypto.secret()),
            ) && 0 <= exp && role != admin_role() ==> res is Err,
{
    let now = unix_now_secs();
    authenticate_admin_at(crypto, header, now)
}

} // verus!
