//! Identity and access service core: credential checks, token issuance,
//! refresh-token rotation, two-factor authentication and IP lockout.

pub mod config;
pub mod encoding;
pub mod error;
pub mod middleware;
pub mod models;
pub mod routes;
pub mod services;
pub mod system;
pub mod text;
