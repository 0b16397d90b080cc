use aiway_plugins::demo::DemoPlugin;
use aiway_plugins::echo::EchoPlugin;
use aiway_plugins::error::PluginError;
use aiway_plugins::http_demo::DemoPlugin as HttpDemoPlugin;
use aiway_plugins::rewrite_path::{RewritePathPlugin, RewriteRule};
use aiway_plugins::volcengine::VolcenginePlugin;

fn rule(p: &str, r: &str) -> RewriteRule {
    RewriteRule { pattern: p.to_string(), replacement: r.to_string() }
}

#[test]
fn rewrite_with_capture_group_and_query() {
    let mut p = RewritePathPlugin::new();
    assert!(p.is_fresh());
    assert_eq!(p.on_request(&rule("/api/(.*)", "/$1"), "/api/users/7", Some("a=1")), Ok(Some("/users/7?a=1".to_string())));
    assert!(!p.is_fresh());
    assert_eq!(p.on_request(&rule("/api/v1/(.*)", "/api/v2/$1"), "/api/v1/x", None), Ok(Some("/api/v2/x".to_string())));
}

#[test]
fn rewrite_leaves_unmatched_paths() {
    let mut p = RewritePathPlugin::new();
    assert_eq!(p.on_request(&rule("^/api/(.*)", "/$1"), "/health", Some("q")), Ok(None));
}

#[test]
fn rewrite_reports_bad_pattern_and_keeps_cache() {
    let mut p = RewritePathPlugin::new();
    assert_eq!(p.on_request(&rule("/a/(.*)", "/$1"), "/a/b", None), Ok(Some("/b".to_string())));
    match p.on_request(&rule("(", "x"), "/a", None) {
        Err(PluginError::ExecuteError(m)) => assert!(m.starts_with("Invalid regex pattern '(': ")),
        other => panic!("unexpected {:?}", other),
    }
    assert_eq!(p.on_request(&rule("/a/(.*)", "/$1"), "/a/c", None), Ok(Some("/c".to_string())));
}

#[test]
fn rewrite_reports_invalid_path() {
    let mut p = RewritePathPlugin::new();
    match p.on_request(&rule("/a", "/b c"), "/a", None) {
        Err(PluginError::ExecuteError(m)) => assert!(m.starts_with("Invalid path: ")),
        other => panic!("unexpected {:?}", other),
    }
}

#[test]
fn regex_cache_serves_same_pattern() {
    let mut p = RewritePathPlugin::new();
    assert!(p.get_regex("/x").is_ok());
    assert!(p.get_regex("/x").is_ok());
    assert!(p.get_regex("").is_ok());
    assert_eq!(p.name(), "rewrite-path");
}

#[test]
fn plugin_names() {
    assert_eq!(DemoPlugin::new().name(), "demo");
    assert_eq!(HttpDemoPlugin::new().name(), "http-demo");
    assert_eq!(VolcenginePlugin::new().name(), "volcengine");
    assert_eq!(EchoPlugin::new().name(), "Echo");
}

#[test]
fn echo_log_lines() {
    let p = EchoPlugin::new();
    assert_eq!(p.request_line("r1", "GET", "/v1/models"), "[r1] GET /v1/models");
    assert_eq!(p.response_line("r1", "200 OK", "200"), "[r1] 200 OK 200");
}

#[test]
fn demo_and_volcengine_pass_everything_through() {
    assert_eq!(DemoPlugin::new().on_request(), Ok(()));
    let v = VolcenginePlugin::new();
    let mut body = Some(b"{\"a\":1}".to_vec());
    assert_eq!(v.on_request_body(&mut body), Ok(()));
    assert_eq!(body, Some(b"{\"a\":1}".to_vec()));
    assert_eq!(v.on_response(), Ok(()));
    let mut none: Option<Vec<u8>> = None;
    assert_eq!(v.on_response_body(&mut none), Ok(()));
    assert_eq!(none, None);
}
