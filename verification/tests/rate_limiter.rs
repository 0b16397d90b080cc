use aiway_plugins::error::PluginError;
use aiway_plugins::rate_limiter::{
    default_ip_header, default_response_body, default_status_code, default_window, RateLimitConfig,
    RateLimiterPlugin, Strategy,
};
use http::{HeaderMap, HeaderValue};

fn config(strategy: Strategy, max_requests: u64, window: u64) -> RateLimitConfig {
    RateLimitConfig {
        strategy,
        max_requests,
        window,
        header_name: None,
        ip_header: "X-Forwarded-For".to_string(),
        status_code: 429,
        response_body: "Too Many Requests".to_string(),
    }
}

fn headers(pairs: &[(&'static str, &str)]) -> HeaderMap {
    let mut h = HeaderMap::new();
    for (k, v) in pairs {
        h.insert(*k, HeaderValue::from_str(v).unwrap());
    }
    h
}

#[test]
fn defaults_follow_the_readme() {
    let c = RateLimitConfig::default();
    assert_eq!(c.strategy, Strategy::Ip);
    assert_eq!(c.max_requests, 100);
    assert_eq!(c.window, 60);
    assert_eq!(c.header_name, None);
    assert_eq!(c.ip_header, "X-Forwarded-For");
    assert_eq!(c.status_code, 429);
    assert_eq!(c.response_body, "Too Many Requests");
    assert_eq!(default_window(), 60);
    assert_eq!(default_ip_header(), "X-Forwarded-For");
    assert_eq!(default_status_code(), 429);
    assert_eq!(default_response_body(), "Too Many Requests");
}

#[test]
fn sliding_window_admits_at_most_max() {
    let mut p = RateLimiterPlugin::new();
    assert!(p.check_rate_limit("k", 2, 10, 1_000));
    assert!(p.check_rate_limit("k", 2, 10, 2_000));
    assert!(!p.check_rate_limit("k", 2, 10, 3_000));
    assert!(!p.check_rate_limit("k", 2, 10, 10_999));
}

#[test]
fn sliding_window_frees_expired_slots() {
    let mut p = RateLimiterPlugin::new();
    assert!(p.check_rate_limit("k", 2, 10, 1_000));
    assert!(p.check_rate_limit("k", 2, 10, 2_000));
    // cutoff 11_000 - 10_000 = 1_000: the request at 1_000 has left the window
    assert!(p.check_rate_limit("k", 2, 10, 11_000));
    // cutoff 1_500: 2_000 and 11_000 are still inside
    assert!(!p.check_rate_limit("k", 2, 10, 11_500));
    // cutoff 21_000: everything has left
    assert!(p.check_rate_limit("k", 2, 10, 31_000));
}

#[test]
fn keys_are_counted_apart() {
    let mut p = RateLimiterPlugin::new();
    assert!(p.check_rate_limit("a", 1, 60, 5));
    assert!(!p.check_rate_limit("a", 1, 60, 6));
    assert!(p.check_rate_limit("b", 1, 60, 7));
}

#[test]
fn zero_limit_refuses_everything() {
    let mut p = RateLimiterPlugin::new();
    assert!(!p.check_rate_limit("a", 0, 60, 5));
    assert!(!p.check_rate_limit("a", 0, 60, 500_000));
}

#[test]
fn early_timestamps_saturate_the_cutoff() {
    let mut p = RateLimiterPlugin::new();
    // now < window: the cutoff is 0, so a request at time 0 is outside
    assert!(p.check_rate_limit("a", 1, 60, 0));
    assert!(p.check_rate_limit("a", 1, 60, 1));
    assert!(!p.check_rate_limit("a", 1, 60, 2));
}

#[test]
fn key_by_path() {
    let p = RateLimiterPlugin::new();
    let k = p.extract_key(&config(Strategy::Path, 1, 60), "/v1/chat", &HeaderMap::new()).unwrap();
    assert_eq!(k, "/v1/chat");
}

#[test]
fn key_by_ip_takes_first_forwarded_address() {
    let p = RateLimiterPlugin::new();
    let h = headers(&[("x-forwarded-for", " 10.0.0.1 , 10.0.0.2")]);
    assert_eq!(p.extract_key(&config(Strategy::Ip, 1, 60), "/", &h).unwrap(), "10.0.0.1");
}

#[test]
fn key_by_ip_falls_back_to_real_ip() {
    let p = RateLimiterPlugin::new();
    let h = headers(&[("x-real-ip", "192.168.1.9")]);
    assert_eq!(p.extract_key(&config(Strategy::Ip, 1, 60), "/", &h).unwrap(), "192.168.1.9");
}

#[test]
fn key_by_ip_missing() {
    let p = RateLimiterPlugin::new();
    let err = p.extract_key(&config(Strategy::Ip, 1, 60), "/", &HeaderMap::new()).unwrap_err();
    assert_eq!(
        err,
        PluginError::ExecuteError("Cannot determine client IP: 'X-Forwarded-For' header not found".to_string())
    );
}

#[test]
fn key_by_ip_empty_first_segment_is_an_error() {
    let p = RateLimiterPlugin::new();
    let h = headers(&[("x-forwarded-for", " , 10.0.0.2"), ("x-real-ip", "1.2.3.4")]);
    assert!(matches!(p.extract_key(&config(Strategy::Ip, 1, 60), "/", &h), Err(PluginError::ExecuteError(_))));
}

#[test]
fn key_by_header() {
    let p = RateLimiterPlugin::new();
    let mut c = config(Strategy::Header, 1, 60);
    c.header_name = Some("X-Api-Key".to_string());
    let h = headers(&[("x-api-key", "secret-1")]);
    assert_eq!(p.extract_key(&c, "/", &h).unwrap(), "X-Api-Key:secret-1");
    let err = p.extract_key(&c, "/", &HeaderMap::new()).unwrap_err();
    assert_eq!(err, PluginError::ExecuteError("Header 'X-Api-Key' not found for rate limiting".to_string()));
    c.header_name = None;
    let err = p.extract_key(&c, "/", &h).unwrap_err();
    assert_eq!(err, PluginError::ExecuteError("header_name is required for Header strategy".to_string()));
}

#[test]
fn on_request_rejects_with_configured_response() {
    let mut p = RateLimiterPlugin::new();
    let mut c = config(Strategy::Path, 1, 60);
    c.status_code = 503;
    c.response_body = "slow down".to_string();
    let h = HeaderMap::new();
    assert_eq!(p.on_request(&c, "/a", &h, 1_000), Ok(()));
    assert_eq!(p.on_request(&c, "/a", &h, 1_001), Err(PluginError::Reject(503, "slow down".to_string())));
    assert_eq!(p.on_request(&c, "/b", &h, 1_002), Ok(()));
}

#[test]
fn name_of_rate_limiter() {
    assert_eq!(RateLimiterPlugin::new().name(), "rate-limiter");
}

#[test]
fn calls_under_other_keys_change_nothing() {
    let mut busy = RateLimiterPlugin::new();
    let mut quiet = RateLimiterPlugin::new();
    assert!(busy.check_rate_limit("b", 2, 60, 1_000));
    assert!(quiet.check_rate_limit("b", 2, 60, 1_000));
    for t in 0..5u64 {
        busy.check_rate_limit("a", 2, 60, 2_000 + t);
        busy.check_rate_limit("c", 1, 1, 2_000 + t);
    }
    assert_eq!(busy.check_rate_limit("b", 2, 60, 3_000), quiet.check_rate_limit("b", 2, 60, 3_000));
    assert_eq!(busy.check_rate_limit("b", 2, 60, 3_001), quiet.check_rate_limit("b", 2, 60, 3_001));
    assert!(!busy.check_rate_limit("b", 2, 60, 3_002));
}
