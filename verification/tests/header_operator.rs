use aiway_plugins::error::PluginError;
use aiway_plugins::header_operator::{HeaderConfig, HeaderOperatorPlugin, RequestHeaderConfig, ResponseHeaderConfig};
use http::{HeaderMap, HeaderValue};

fn pairs(v: &[(&str, &str)]) -> Vec<(String, String)> {
    v.iter().map(|(a, b)| (a.to_string(), b.to_string())).collect()
}

fn names(v: &[&str]) -> Vec<String> {
    v.iter().map(|a| a.to_string()).collect()
}

fn request_config(add: &[(&str, &str)], remove: &[&str]) -> HeaderConfig {
    HeaderConfig {
        request_headers: RequestHeaderConfig { add_headers: pairs(add), remove_headers: names(remove) },
        response_headers: ResponseHeaderConfig::default(),
    }
}

#[test]
fn header_config_default_is_empty() {
    let c = HeaderConfig::default();
    assert!(c.request_headers.add_headers.is_empty());
    assert!(c.request_headers.remove_headers.is_empty());
    assert!(c.response_headers.add_headers.is_empty());
    assert!(c.response_headers.remove_headers.is_empty());
    assert_eq!(HeaderOperatorPlugin::new().name(), "header-operator");
}

#[test]
fn removes_then_adds_request_headers() {
    let p = HeaderOperatorPlugin::new();
    let mut h = HeaderMap::new();
    h.insert("x-old", HeaderValue::from_static("1"));
    h.append("x-multi", HeaderValue::from_static("a"));
    h.append("x-multi", HeaderValue::from_static("b"));
    h.insert("x-keep", HeaderValue::from_static("k"));
    let c = request_config(&[("X-New", "v"), ("X-Multi", "c")], &["X-Old", "x-multi"]);
    assert_eq!(p.on_request(&c, &mut h), Ok(()));
    assert!(h.get("x-old").is_none());
    assert_eq!(h.get_all("x-multi").iter().collect::<Vec<_>>(), vec!["c"]);
    assert_eq!(h.get("x-new").unwrap(), "v");
    assert_eq!(h.get("x-keep").unwrap(), "k");
}

#[test]
fn later_addition_of_same_name_wins() {
    let p = HeaderOperatorPlugin::new();
    let mut h = HeaderMap::new();
    let c = request_config(&[("X-A", "1"), ("x-a", "2")], &[]);
    assert_eq!(p.on_request(&c, &mut h), Ok(()));
    assert_eq!(h.get("x-a").unwrap(), "2");
}

#[test]
fn invalid_header_name_is_reported() {
    let p = HeaderOperatorPlugin::new();
    let mut h = HeaderMap::new();
    let c = request_config(&[("bad name", "v")], &[]);
    assert_eq!(
        p.on_request(&c, &mut h),
        Err(PluginError::ExecuteError("Invalid header name 'bad name': invalid HTTP header name".to_string()))
    );
}

#[test]
fn invalid_header_value_is_reported() {
    let p = HeaderOperatorPlugin::new();
    let mut h = HeaderMap::new();
    let c = request_config(&[("x-a", "line\nbreak")], &[]);
    assert_eq!(
        p.on_request(&c, &mut h),
        Err(PluginError::ExecuteError("Invalid header value 'line\nbreak': failed to parse header value".to_string()))
    );
}

#[test]
fn response_headers_use_their_own_section() {
    let p = HeaderOperatorPlugin::new();
    let mut h = HeaderMap::new();
    h.insert("server", HeaderValue::from_static("x"));
    let c = HeaderConfig {
        request_headers: RequestHeaderConfig { add_headers: pairs(&[("x-req", "1")]), remove_headers: vec![] },
        response_headers: ResponseHeaderConfig { add_headers: pairs(&[("x-resp", "2")]), remove_headers: names(&["Server"]) },
    };
    assert_eq!(p.on_response(&c, &mut h), Ok(()));
    assert!(h.get("server").is_none());
    assert!(h.get("x-req").is_none());
    assert_eq!(h.get("x-resp").unwrap(), "2");
}

#[test]
fn a_full_map_is_left_alone() {
    let p = HeaderOperatorPlugin::new();
    let mut h = HeaderMap::new();
    for i in 0..6554 {
        let name = http::HeaderName::from_bytes(format!("x-h{}", i).as_bytes()).unwrap();
        h.insert(name, HeaderValue::from_static("v"));
    }
    let cfg = request_config(&[("x-new", "1")], &["x-h0"]);
    assert_eq!(p.try_on_request(&cfg, &mut h), None);
    assert_eq!(h.keys_len(), 6554);
    assert!(h.get("x-h0").is_some());
    assert!(h.get("x-new").is_none());
    let mut small = HeaderMap::new();
    small.insert("x-h0", HeaderValue::from_static("v"));
    assert_eq!(p.try_on_request(&cfg, &mut small), Some(Ok(())));
    assert!(small.get("x-h0").is_none());
    assert_eq!(small.get("x-new").unwrap(), "1");
    assert_eq!(p.try_on_response(&cfg, &mut small), Some(Ok(())));
}
