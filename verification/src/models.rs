//! The records the service reads from and writes to its store, the claims of
//! its tokens, and the user data it shows. Identifiers are UUIDs held as their
//! big-endian 128-bit value; instants are Unix times in seconds.

use vstd::prelude::*;

verus! {

/// A user account.
#[derive(Debug, Clone)]
pub struct User {
    pub id: u128,
    pub email: String,
    pub password_hash: String,
    /// Base32 TOTP secret, present once two-factor setup has begun.
    pub totp_secret: Option<String>,
    pub is_2fa_enabled: bool,
    pub is_active: bool,
    pub created_at: i64,
    pub updated_at: i64,
}

/// A role that users can be given.
#[derive(Debug, Clone)]
pub struct Role {
    pub id: u128,
    pub name: String,
}

/// One refresh token of a rotation chain, stored by the hash of the token.
#[derive(Debug, Clone)]
pub struct RefreshTokenChain {
    pub id: u128,
    pub user_id: u128,
    pub chain_id: u128,
    pub token_hash: String,
    pub previous_token_hash: Option<String>,
    pub created_at: i64,
    pub expires_at: i64,
    pub is_revoked: bool,
}

/// A pending password reset, stored by the hash of its token.
#[derive(Debug, Clone)]
pub struct PasswordReset {
    pub token_hash: String,
    pub user_id: u128,
    pub expires_at: i64,
}

/// The claims of a signed token: subject (a user id), role, expiry and issue time.
#[derive(Debug, Clone, PartialEq, Eq)]
pub struct Claims {
    pub sub: String,
    pub role: String,
    pub exp: i64,
    pub iat: i64,
}

/// What is shown of a user.
#[derive(Debug, Clone, PartialEq, Eq)]
pub struct UserResponse {
    pub id: u128,
    pub email: String,
    pub is_2fa_enabled: bool,
    pub created_at: i64,
}

impl From<User> for UserResponse {
    fn from(user: User) -> (res: UserResponse)
        ensures
            res.id == user.id,
            res.email@ == user.email@,
            res.is_2fa_enabled == user.is_2fa_enabled,
            res.created_at == user.created_at,
    {
        UserResponse {
            id: user.id,
            email: user.email,
            is_2fa_enabled: user.is_2fa_enabled,
            created_at: user.created_at,
        }
    }
}

impl vstd::std_specs::convert::FromSpecImpl<User> for UserResponse {
    open spec fn obeys_from_spec() -> bool {
        true
    }

    open spec fn from_spec(user: User) -> UserResponse {
        UserResponse {
            id: user.id,
            email: user.email,
            is_2fa_enabled: user.is_2fa_enabled,
            created_at: user.created_at,
        }
    }
}

/// Law: the profile shown for a user is that user's own record: its id,
/// e-mail, two-factor flag (whatever TOTP secret is stored) and creation time.
pub proof fn law_profile_shows_the_user(u: User)
    ensures
        <UserResponse as vstd::std_specs::convert::FromSpec<User>>::from_spec(u).id == u.id,
        <UserResponse as vstd::std_specs::convert::FromSpec<User>>::from_spec(u).email@ == u.email@,
        <UserResponse as vstd::std_specs::convert::FromSpec<User>>::from_spec(u).is_2fa_enabled
            == u.is_2fa_enabled,
        <UserResponse as vstd::std_specs::convert::FromSpec<User>>::from_spec(u).created_at
            == u.created_at,
{
}

} // verus!
