pub mod auth;
pub mod client_ip;
pub mod ip_lockout;
pub mod rate_limit;
