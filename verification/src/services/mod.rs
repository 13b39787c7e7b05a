pub mod auth;
pub mod crypto;
pub mod metrics;
pub mod notifier;
