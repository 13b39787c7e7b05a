use dex_account::services::metrics::{
    increment_2fa_attempts, increment_login_failed, increment_login_success, init_metrics,
    AuthMetrics, LatencyTimer, MetricKind,
};
use dex_account::services::notifier::{NotifierError, NotifierService};

#[test]
fn metric_descriptions() {
    let d = init_metrics();
    let names: Vec<(&str, MetricKind)> = d.iter().map(|m| (m.name.as_str(), m.kind)).collect();
    assert_eq!(
        names,
        vec![
            ("auth_login_total", MetricKind::Counter),
            ("auth_login_failed_total", MetricKind::Counter),
            ("auth_2fa_attempts_total", MetricKind::Counter),
            ("auth_login_latency_ms", MetricKind::Histogram),
            ("auth_refresh_latency_ms", MetricKind::Histogram),
        ]
    );
    assert_eq!(d[0].help, "Total of successful logins");
    assert_eq!(d[4].help, "Refresh token latency in milliseconds");
}

#[test]
fn counters_count() {
    let mut m = AuthMetrics::new();
    increment_login_success(&mut m);
    increment_login_success(&mut m);
    increment_login_failed(&mut m);
    increment_2fa_attempts(&mut m);
    assert_eq!((m.login_total, m.login_failed_total, m.twofa_attempts_total), (2, 1, 1));
    m.login_total = u64::MAX;
    increment_login_success(&mut m);
    assert_eq!(m.login_total, 0);
}

#[test]
fn timer_runs() {
    let t = LatencyTimer::new();
    let start = std::time::Instant::now();
    while start.elapsed().as_micros() < 2000 {}
    assert!(t.elapsed_micros() >= 2000);
    let _ = LatencyTimer::default();
}

#[test]
fn password_reset_request() {
    let n = NotifierService::new("http://mail:8080".to_string(), "key".to_string());
    let r = n.send_password_reset("a@b.c", "Ana \"A\"", "https://x/reset?t=1");
    assert_eq!(r.url, "http://mail:8080/api/v1/send");
    assert_eq!(r.api_key, "key");
    assert_eq!(
        r.body,
        r#"{"channel":"email","data":{"action_url":"https://x/reset?t=1","user_name":"Ana \"A\""},"template":"password_reset","to":"a@b.c"}"#
    );
    let v: serde_json::Value = serde_json::from_str(&r.body).unwrap();
    assert_eq!(v["data"]["user_name"], "Ana \"A\"");
}

#[test]
fn welcome_request_escapes() {
    let n = NotifierService::new("u".to_string(), "k".to_string());
    let r = n.send_welcome("t", "a\\b\n\u{1}");
    assert_eq!(
        r.body,
        "{\"channel\":\"email\",\"data\":{\"user_name\":\"a\\\\b\\n\\u0001\"},\"template\":\"welcome\",\"to\":\"t\"}"
    );
    let v: serde_json::Value = serde_json::from_str(&r.body).unwrap();
    assert_eq!(v["data"]["user_name"], "a\\b\n\u{1}");
}

#[test]
fn service_answers() {
    assert!(NotifierService::response_outcome(200, "200 OK", "").is_ok());
    assert!(NotifierService::response_outcome(204, "204 No Content", "").is_ok());
    match NotifierService::response_outcome(500, "500 Internal Server Error", "boom") {
        Err(NotifierError::ServiceError(m)) => assert_eq!(m, "HTTP 500 Internal Server Error: boom"),
        _ => panic!("expected a service error"),
    }
    assert!(NotifierService::response_outcome(302, "302 Found", "").is_err());
}

#[test]
fn notifier_error_texts() {
    assert_eq!(
        NotifierError::RequestFailed("timeout".to_string()).message(),
        "HTTP request failed: timeout"
    );
    assert_eq!(
        NotifierError::ServiceError("HTTP 500: down".to_string()).message(),
        "Notification service error: HTTP 500: down"
    );
}
