//! Counters of authentication events, the descriptions under which they are
//! published, and a timer for request latency.

use vstd::prelude::*;
use crate::system::{instant_now, micros_since};

verus! {

/// Running totals of authentication events.
#[derive(Clone, Copy, Debug)]
pub struct AuthMetrics {
    /// Successful logins (with or without a second factor).
    pub login_total: u64,
    /// Logins refused for an unknown e-mail or a wrong password.
    pub login_failed_total: u64,
    /// Second-factor verifications attempted.
    pub twofa_attempts_total: u64,
}

/// A counter one step further on; a counter wraps to zero past its largest value.
pub open spec fn bumped(n: u64) -> u64 {
    if n == u64::MAX {
        0
    } else {
        (n + 1) as u64
    }
}

fn bump(n: u64) -> (res: u64)
    ensures
        res == bumped(n),
{
    if n == u64::MAX {
        0
    } else {
        n + 1
    }
}

impl AuthMetrics {
    /// All counters at zero.
    pub fn new() -> (res: Self)
        ensures
            res.login_total == 0,
            res.login_failed_total == 0,
            res.twofa_attempts_total == 0,
    {
        AuthMetrics { login_total: 0, login_failed_total: 0, twofa_attempts_total: 0 }
    }
}

/// Whether a metric is a counter or a histogram.
#[derive(Clone, Copy, Debug, PartialEq, Eq, Structural)]
pub enum MetricKind {
    Counter,
    Histogram,
}

/// A metric's name, kind and help text, as registered with the exporter.
#[derive(Debug)]
pub struct MetricDescription {
    pub name: String,
    pub kind: MetricKind,
    pub help: String,
}

/// Whether a description says `name`, `kind`, `help`.
pub open spec fn describes(d: MetricDescription, name: Seq<char>, kind: MetricKind, help: Seq<char>) -> bool {
    d.name@ == name && d.kind == kind && d.help@ == help
}

fn description(name: &str, kind: MetricKind, help: &str) -> (res: MetricDescription)
    ensures
        describes(res, name@, kind, help@),
{
    MetricDescription { name: String::from_str(name), kind, help: String::from_str(help) }
}

/// The descriptions of the service's metrics: three counters and two
/// latency histograms.
pub fn init_metrics() -> (res: Vec<MetricDescription>)
    ensures
        res@.len() == 5,
        describes(res@[0], "auth_login_total"@, MetricKind::Counter, "Total of successful logins"@),
        describes(res@[1], "auth_login_failed_total"@, MetricKind::Counter, "Total of failed logins"@),
        describes(
            res@[2],
            "auth_2fa_attempts_total"@,
            MetricKind::Counter,
            "Total of 2FA verification attempts"@,
        ),
        describes(
            res@[3],
            "auth_login_latency_ms"@,
            MetricKind::Histogram,
            "Login request latency in milliseconds"@,
        ),
        describes(
            res@[4],
            "auth_refresh_latency_ms"@,
            MetricKind::Histogram,
            "Refresh token latency in milliseconds"@,
        ),
{
    let mut v: Vec<MetricDescription> = Vec::new();
    v.push(description("auth_login_total", MetricKind::Counter, "Total of successful logins"));
    v.push(description("auth_login_failed_total", MetricKind::Counter, "Total of failed logins"));
    v.push(
        description(
            "auth_2fa_attempts_total",
            MetricKind::Counter,
            "Total of 2FA verification attempts",
        ),
    );
    v.push(
        description(
            "auth_login_latency_ms",
            MetricKind::Histogram,
            "Login request latency in milliseconds",
        ),
    );
    v.push(
        description(
            "auth_refresh_latency_ms",
            MetricKind::Histogram,
            "Refresh token latency in milliseconds",
        ),
    );
    v
}

/// Counts a successful login.
pub fn increment_login_success(m: &mut AuthMetrics)
    ensures
        final(m).login_total == bumped(old(m).login_total),
        final(m).login_failed_total == old(m).login_failed_total,
        final(m).twofa_attempts_total == old(m).twofa_attempts_total,
{
    m.login_total = bump(m.login_total);
}

/// Counts a refused login.
pub fn increment_login_failed(m: &mut AuthMetrics)
    ensures
        final(m).login_total == old(m).login_total,
        final(m).login_failed_total == bumped(old(m).login_failed_total),
        final(m).twofa_attempts_total == old(m).twofa_attempts_total,
{
    m.login_failed_total = bump(m.login_failed_total);
}

/// Counts a second-factor attempt.
pub fn increment_2fa_attempts(m: &mut AuthMetrics)
    ensures
        final(m).login_total == old(m).login_total,
        final(m).login_failed_total == old(m).login_failed_total,
        final(m).twofa_attempts_total == bumped(old(m).twofa_attempts_total),
{
    m.twofa_attempts_total = bump(m.twofa_attempts_total);
}

/// Measures how long a request takes, from its creation on.
pub struct LatencyTimer {
    start: std::time::Instant,
}

impl LatencyTimer {
    /// A timer started now.
    pub fn new() -> Self {
        LatencyTimer { start: instant_now() }
    }

    /// Whole microseconds since the timer started.
    pub fn elapsed_micros(&self) -> u64 {
        micros_since(&self.start)
    }
}

impl Default for LatencyTimer {
    fn default() -> Self {
        Self::new()
    }
}

} // verus!
