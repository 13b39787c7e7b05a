//! The service's error type: what each error is called and which HTTP status
//! and message it is answered with.

use vstd::prelude::*;
use crate::text::{decimal, push_decimal};

verus! {

/// Every way a request to the service can fail.
#[derive(Debug, Clone, PartialEq, Eq)]
pub enum AppError {
    InvalidCredentials,
    UserNotFound,
    UserInactive,
    InvalidToken,
    TokenExpired,
    TokenRevoked,
    TwoFactorRequired,
    InvalidTwoFactorCode,
    RateLimitExceeded,
    /// Locked out; the number is whole minutes left.
    IpLocked(u64),
    /// A database failure, with the driver's description of it.
    Database(String),
    BadRequest(String),
    Unauthorized,
    Forbidden,
    InternalError,
}

/// The text of an error, as its `Display` shows it.
pub open spec fn error_text(e: AppError) -> Seq<char> {
    match e {
        AppError::InvalidCredentials => "Invalid credentials"@,
        AppError::UserNotFound => "User not found"@,
        AppError::UserInactive => "User inactive"@,
        AppError::InvalidToken => "Invalid token"@,
        AppError::TokenExpired => "Token expired"@,
        AppError::TokenRevoked => "Token revoked"@,
        AppError::TwoFactorRequired => "2FA required"@,
        AppError::InvalidTwoFactorCode => "Invalid 2FA code"@,
        AppError::RateLimitExceeded => "Rate limit exceeded"@,
        AppError::IpLocked(m) => "Too many failed attempts. Account locked for "@ + decimal(
            m as nat,
        ) + " minutes"@,
        AppError::Database(d) => "Database error: "@ + d@,
        AppError::BadRequest(m) => "Invalid request: "@ + m@,
        AppError::Unauthorized => "Unauthorized"@,
        AppError::Forbidden => "Forbidden"@,
        AppError::InternalError => "Internal server error"@,
    }
}

/// The HTTP status an error is answered with.
pub open spec fn error_status(e: AppError) -> u16 {
    match e {
        AppError::InvalidCredentials => 401,
        AppError::UserNotFound => 404,
        AppError::UserInactive => 403,
        AppError::InvalidToken => 401,
        AppError::TokenExpired => 401,
        AppError::TokenRevoked => 401,
        AppError::TwoFactorRequired => 401,
        AppError::InvalidTwoFactorCode => 401,
        AppError::RateLimitExceeded => 429,
        AppError::IpLocked(_) => 429,
        AppError::Database(_) => 500,
        AppError::BadRequest(_) => 400,
        AppError::Unauthorized => 401,
        AppError::Forbidden => 403,
        AppError::InternalError => 500,
    }
}

/// The message put in the `error` field of the response body: a database
/// failure is not disclosed, a bad request shows its own message, and every
/// other error shows its text.
pub open spec fn error_response_message(e: AppError) -> Seq<char> {
    match e {
        AppError::Database(_) => "Internal server error"@,
        AppError::BadRequest(m) => m@,
        _ => error_text(e),
    }
}

impl AppError {
    /// The error's text (what `to_string` gives for it).
    pub fn message(&self) -> (res: String)
        ensures
            res@ == error_text(*self),
    {
        match self {
            AppError::InvalidCredentials => String::from_str("Invalid credentials"),
            AppError::UserNotFound => String::from_str("User not found"),
            AppError::UserInactive => String::from_str("User inactive"),
            AppError::InvalidToken => String::from_str("Invalid token"),
            AppError::TokenExpired => String::from_str("Token expired"),
            AppError::TokenRevoked => String::from_str("Token revoked"),
            AppError::TwoFactorRequired => String::from_str("2FA required"),
            AppError::InvalidTwoFactorCode => String::from_str("Invalid 2FA code"),
            AppError::RateLimitExceeded => String::from_str("Rate limit exceeded"),
            AppError::IpLocked(m) => {
                let mut s = String::from_str("Too many failed attempts. Account locked for ");
                push_decimal(&mut s, *m);
                s.append(" minutes");
                s
            },
            AppError::Database(d) => {
                let mut s = String::from_str("Database error: ");
                s.append(d.as_str());
                s
            },
            AppError::BadRequest(m) => {
                let mut s = String::from_str("Invalid request: ");
                s.append(m.as_str());
                s
            },
            AppError::Unauthorized => String::from_str("Unauthorized"),
            AppError::Forbidden => String::from_str("Forbidden"),
            AppError::InternalError => String::from_str("Internal server error"),
        }
    }

    /// The HTTP status code of the response for this error.
    pub fn status_code(&self) -> (res: u16)
        ensures
            res == error_status(*self),
    {
        match self {
            AppError::InvalidCredentials => 401,
            AppError::UserNotFound => 404,
            AppError::UserInactive => 403,
            AppError::InvalidToken => 401,
            AppError::TokenExpired => 401,
            AppError::TokenRevoked => 401,
            AppError::TwoFactorRequired => 401,
            AppError::InvalidTwoFactorCode => 401,
            AppError::RateLimitExceeded => 429,
            AppError::IpLocked(_) => 429,
            AppError::Database(_) => 500,
            AppError::BadRequest(_) => 400,
            AppError::Unauthorized => 401,
            AppError::Forbidden => 403,
            AppError::InternalError => 500,
        }
    }

    /// The message of the response body for this error.
    pub fn response_message(&self) -> (res: String)
        ensures
            res@ == error_response_message(*self),
    {
        match self {
            AppError::Database(_) => String::from_str("Internal server error"),
            AppError::BadRequest(m) => m.clone(),
            _ => self.message(),
        }
    }
}

} // verus!
