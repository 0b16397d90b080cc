use aiway_plugins::error::PluginError;
use aiway_plugins::json::{Json, JsonNumber};
use aiway_plugins::jwt_validator::{
    check_signature, decode_b64url, default_claims_to_headers, default_leeway, default_token_from,
    is_asymmetric, default_token_name, default_token_prefix, find_query_param,
    header_json, payload_json, split_token, validate_claims, validate_claims_at, verify_hmac,
    JwtConfig, JwtValidator, TokenFrom, TokenSource, ValidateConfig,
};
use base64::engine::general_purpose::URL_SAFE_NO_PAD;
use base64::Engine;
use hmac::{Hmac, Mac};
use http::{HeaderMap, HeaderValue};
use sha2::Sha256;

fn err(m: &str) -> PluginError {
    PluginError::ExecuteError(m.to_string())
}

fn s(v: &str) -> Json {
    Json::Str(v.to_string())
}

fn n(v: u64) -> Json {
    Json::Number(JsonNumber::PosInt(v))
}

fn object(members: Vec<(&str, Json)>) -> Json {
    Json::Object(members.into_iter().map(|(k, v)| (k.to_string(), v)).collect())
}

fn b64(data: &[u8]) -> String {
    URL_SAFE_NO_PAD.encode(data)
}

fn hs256(secret: &[u8], data: &str) -> Vec<u8> {
    let mut mac = Hmac::<Sha256>::new_from_slice(secret).unwrap();
    mac.update(data.as_bytes());
    mac.finalize().into_bytes().to_vec()
}

fn validate(iss: Option<&str>, aud: Option<Vec<&str>>, leeway: u64) -> ValidateConfig {
    ValidateConfig {
        iss: iss.map(|x| x.to_string()),
        aud: aud.map(|v| v.into_iter().map(|x| x.to_string()).collect()),
        leeway,
    }
}

#[test]
fn jwt_defaults() {
    let c = JwtConfig::default();
    assert_eq!(c.token_source.from, TokenFrom::Header);
    assert_eq!(c.token_source.name, "Authorization");
    assert_eq!(c.token_source.prefix, "Bearer ");
    assert_eq!(c.secret, None);
    assert_eq!(c.algorithm, None);
    assert_eq!(c.validate, None);
    assert!(c.claims_to_headers.is_empty());
    assert!(!c.strip_token);
    assert_eq!(default_token_from(), TokenFrom::Header);
    assert_eq!(default_token_name(), "Authorization");
    assert_eq!(default_token_prefix(), "Bearer ");
    assert_eq!(JwtValidator::new().name(), "jwt-validator");
}

#[test]
fn base64url_with_and_without_padding() {
    assert_eq!(decode_b64url("eyJhbGciOiJIUzI1NiJ9").unwrap(), b"{\"alg\":\"HS256\"}".to_vec());
    assert_eq!(decode_b64url("YWJj").unwrap(), b"abc".to_vec());
    assert_eq!(decode_b64url("YWI").unwrap(), b"ab".to_vec());
    assert_eq!(decode_b64url("YQ").unwrap(), b"a".to_vec());
    assert_eq!(decode_b64url("_-8").unwrap(), vec![0xff, 0xef]);
}

#[test]
fn base64url_rejects_bad_input() {
    match decode_b64url("Y") {
        Err(PluginError::ExecuteError(m)) => assert!(m.starts_with("Base64 decode failed: ")),
        other => panic!("unexpected {:?}", other),
    }
    assert!(decode_b64url("a+b/").is_err());
}

#[test]
fn token_split_into_three_segments() {
    let (a, b, c) = split_token("h.p.s.extra").unwrap();
    assert_eq!((a.as_str(), b.as_str(), c.as_str()), ("h", "p", "s.extra"));
    assert_eq!(split_token("h.p"), Err(err("Invalid JWT format: expected 3 dot-separated segments")));
    assert_eq!(split_token("nodots"), Err(err("Invalid JWT format: expected 3 dot-separated segments")));
    let (a, b, c) = split_token("..").unwrap();
    assert_eq!((a.as_str(), b.as_str(), c.as_str()), ("", "", ""));
}

#[test]
fn query_parameter_lookup() {
    assert_eq!(find_query_param("x=1&token=abc&token=def", "token"), Some("abc".to_string()));
    assert_eq!(find_query_param("token=a=b", "token"), Some("a=b".to_string()));
    assert_eq!(find_query_param("flag&token", "token"), Some("".to_string()));
    assert_eq!(find_query_param("x=1", "token"), None);
    assert_eq!(find_query_param("", "token"), None);
}

#[test]
fn token_from_header() {
    let v = JwtValidator::new();
    let src = TokenSource::default();
    let mut h = HeaderMap::new();
    assert_eq!(v.extract_token(&src, &h, None), Err(err("Missing header 'Authorization' for JWT token")));
    h.insert("authorization", HeaderValue::from_static("Basic abc"));
    assert_eq!(v.extract_token(&src, &h, None), Err(err("JWT token prefix mismatch: expected 'Bearer '")));
    h.insert("authorization", HeaderValue::from_static("Bearer a.b.c"));
    assert_eq!(v.extract_token(&src, &h, None), Ok("a.b.c".to_string()));
    h.insert("authorization", HeaderValue::from_bytes(b"Bearer \xff").unwrap());
    assert_eq!(
        v.extract_token(&src, &h, None),
        Err(err("Invalid header value: failed to convert header to a str"))
    );
}

#[test]
fn token_from_query() {
    let v = JwtValidator::new();
    let src = TokenSource { from: TokenFrom::Query, name: "access_token".to_string(), prefix: "Bearer ".to_string() };
    let h = HeaderMap::new();
    assert_eq!(v.extract_token(&src, &h, None), Err(err("No query string in request URI")));
    assert_eq!(v.extract_token(&src, &h, Some("a=1&access_token=t.o.k")), Ok("t.o.k".to_string()));
    assert_eq!(
        v.extract_token(&src, &h, Some("a=1")),
        Err(err("Missing query parameter 'access_token' for JWT token"))
    );
}

#[test]
fn hmac_signature_checks() {
    let header = b64(b"{\"alg\":\"HS256\"}");
    let payload = b64(b"{\"sub\":\"u1\"}");
    let sig = hs256(b"my-secret", &format!("{}.{}", header, payload));
    assert_eq!(verify_hmac(&header, &payload, &sig, b"my-secret", "HS256"), Ok(()));
    assert_eq!(verify_hmac(&header, &payload, &sig, b"my-secret", "hs256"), Ok(()));
    assert_eq!(verify_hmac(&header, &payload, &sig, b"other", "HS256"), Err(err("JWT signature mismatch")));
    assert_eq!(verify_hmac(&header, &payload, &sig, b"my-secret", "HS384"), Err(err("JWT signature mismatch")));
    assert_eq!(
        verify_hmac(&header, &payload, &sig, b"my-secret", "RS256"),
        Err(err("Unsupported algorithm: RS256. Supported: HS256, HS384, HS512"))
    );
}

#[test]
fn hmac_known_vector() {
    // RFC 4231 test case 2: key "Jefe", data "what do ya want for nothing?"
    let expected: Vec<u8> = vec![
        0x5b, 0xdc, 0xc1, 0x46, 0xbf, 0x60, 0x75, 0x4e, 0x6a, 0x04, 0x24, 0x26, 0x08, 0x95, 0x75, 0xc7,
        0x5a, 0x00, 0x3f, 0x08, 0x9d, 0x27, 0x39, 0x83, 0x9d, 0xec, 0x58, 0xb9, 0x64, 0xec, 0x38, 0x43,
    ];
    assert_eq!(verify_hmac("what do ya want for nothing", "", &expected, b"Jefe", "HS256"), Err(err("JWT signature mismatch")));
    assert_eq!(verify_hmac("what do ya want for nothing?", "", &expected, b"Jefe", "HS256"), Err(err("JWT signature mismatch")));
    let data_without_dot = hs256(b"Jefe", "what do ya want for nothing?.");
    assert_eq!(verify_hmac("what do ya want for nothing?", "", &data_without_dot, b"Jefe", "HS256"), Ok(()));
    assert_eq!(hs256(b"Jefe", "what do ya want for nothing?"), expected);
}

#[test]
fn claims_expiry_and_not_before() {
    let p = object(vec![("exp", n(100))]);
    assert_eq!(
        validate_claims_at(&p, &validate(None, None, 0), 200),
        Err(err("JWT expired at 100, current time 200"))
    );
    assert_eq!(validate_claims_at(&p, &validate(None, None, 100), 200), Ok(()));
    assert_eq!(validate_claims_at(&p, &validate(None, None, 0), 100), Ok(()));
    let p = object(vec![("nbf", n(300))]);
    assert_eq!(
        validate_claims_at(&p, &validate(None, None, 0), 200),
        Err(err("JWT not yet valid (nbf: 300, current: 200)"))
    );
    assert_eq!(validate_claims_at(&p, &validate(None, None, 100), 200), Ok(()));
    // a non-integer exp is not checked
    let p = object(vec![("exp", s("100"))]);
    assert_eq!(validate_claims_at(&p, &validate(None, None, 0), 200), Ok(()));
}

#[test]
fn claims_issuer() {
    let v = validate(Some("https://auth.example.com"), None, 0);
    let p = object(vec![("iss", s("https://auth.example.com"))]);
    assert_eq!(validate_claims_at(&p, &v, 0), Ok(()));
    let p = object(vec![("iss", s("evil"))]);
    assert_eq!(
        validate_claims_at(&p, &v, 0),
        Err(err("JWT iss mismatch: expected 'https://auth.example.com', got 'evil'"))
    );
    let p = object(vec![]);
    assert_eq!(
        validate_claims_at(&p, &v, 0),
        Err(err("JWT iss claim missing, expected 'https://auth.example.com'"))
    );
}

#[test]
fn claims_audience() {
    let v = validate(None, Some(vec!["api-gateway", "other"]), 0);
    assert_eq!(validate_claims_at(&object(vec![("aud", s("other"))]), &v, 0), Ok(()));
    let arr = Json::Array(vec![n(1), s("x"), s("api-gateway")]);
    assert_eq!(validate_claims_at(&object(vec![("aud", arr)]), &v, 0), Ok(()));
    assert_eq!(
        validate_claims_at(&object(vec![("aud", s("web"))]), &v, 0),
        Err(err("JWT aud mismatch: token aud=String(\"web\"), expected one of [\"api-gateway\", \"other\"]"))
    );
    assert_eq!(
        validate_claims_at(&object(vec![]), &v, 0),
        Err(err("JWT aud claim missing, expected one of [\"api-gateway\", \"other\"]"))
    );
}

#[test]
fn claims_checked_at_current_time() {
    let p = object(vec![("exp", n(1)), ("nbf", n(0))]);
    assert!(validate_claims(&p, &validate(None, None, 0)).is_err());
    let p = object(vec![("exp", n(u64::MAX)), ("nbf", n(0))]);
    assert_eq!(validate_claims(&p, &validate(None, None, 0)), Ok(()));
}

#[test]
fn json_parse_errors_are_named() {
    assert_eq!(header_json(Err("eof".to_string())), Err(err("Invalid JWT header JSON: eof")));
    assert_eq!(payload_json(Err("eof".to_string())), Err(err("Invalid JWT payload JSON: eof")));
    assert_eq!(payload_json(Ok(Json::Null)), Ok(Json::Null));
}

#[test]
fn authorize_copies_claims_and_strips_token() {
    let v = JwtValidator::new();
    let header = object(vec![("alg", s("HS256"))]);
    let payload = object(vec![("sub", s("user-1")), ("level", n(3)), ("iss", s("me"))]);
    let hb = b64(b"{\"alg\":\"HS256\"}");
    let pb = b64(b"{\"sub\":\"user-1\",\"level\":3,\"iss\":\"me\"}");
    let sig = b64(&hs256(b"k", &format!("{}.{}", hb, pb)));
    let mut cfg = JwtConfig::default();
    cfg.secret = Some("k".to_string());
    cfg.validate = Some(validate(Some("me"), None, 0));
    cfg.claims_to_headers = vec![
        ("sub".to_string(), "X-JWT-Subject".to_string()),
        ("level".to_string(), "X-JWT-Level".to_string()),
        ("missing".to_string(), "X-JWT-Missing".to_string()),
    ];
    cfg.strip_token = true;
    let mut h = HeaderMap::new();
    h.insert("authorization", HeaderValue::from_static("Bearer x"));
    assert_eq!(v.authorize(&cfg, &hb, &pb, &sig, &header, &payload, &mut h), Ok(()));
    assert_eq!(h.get("x-jwt-subject").unwrap(), "user-1");
    assert_eq!(h.get("x-jwt-level").unwrap(), "3");
    assert!(h.get("x-jwt-missing").is_none());
    assert!(h.get("authorization").is_none());
}

#[test]
fn authorize_refuses_bad_signature_without_touching_headers() {
    let v = JwtValidator::new();
    let header = object(vec![("alg", s("HS256"))]);
    let payload = object(vec![("sub", s("user-1"))]);
    let mut cfg = JwtConfig::default();
    cfg.secret = Some("k".to_string());
    cfg.claims_to_headers = vec![("sub".to_string(), "X-JWT-Subject".to_string())];
    cfg.strip_token = true;
    let mut h = HeaderMap::new();
    h.insert("authorization", HeaderValue::from_static("Bearer x"));
    let sig = b64(&[0u8; 32]);
    assert_eq!(v.authorize(&cfg, "aa", "bb", &sig, &header, &payload, &mut h), Err(err("JWT signature mismatch")));
    assert!(h.get("x-jwt-subject").is_none());
    assert!(h.get("authorization").is_some());
}

#[test]
fn authorize_needs_an_algorithm() {
    let v = JwtValidator::new();
    let mut cfg = JwtConfig::default();
    cfg.secret = Some("k".to_string());
    let mut h = HeaderMap::new();
    assert_eq!(
        v.authorize(&cfg, "a", "b", "c", &object(vec![]), &object(vec![]), &mut h),
        Err(err("JWT algorithm not specified in config or JWT header"))
    );
    cfg.secret = None;
    assert_eq!(v.authorize(&cfg, "a", "b", "c", &object(vec![]), &object(vec![]), &mut h), Ok(()));
}

#[test]
fn authorize_reports_bad_header_name() {
    let v = JwtValidator::new();
    let mut cfg = JwtConfig::default();
    cfg.claims_to_headers = vec![("sub".to_string(), "bad header".to_string())];
    let mut h = HeaderMap::new();
    assert_eq!(
        v.authorize(&cfg, "a", "b", "c", &object(vec![]), &object(vec![("sub", s("u"))]), &mut h),
        Err(err("Invalid header name: invalid HTTP header name"))
    );
}

#[test]
fn asymmetric_tokens_are_only_decoded() {
    let mut cfg = JwtConfig::default();
    cfg.secret = Some("k".to_string());
    let rs = object(vec![("alg", s("RS256"))]);
    let es = object(vec![("alg", s("ES256"))]);
    assert_eq!(check_signature(&cfg, "a", "b", "not-a-signature!", &rs), Ok(()));
    assert_eq!(check_signature(&cfg, "a", "b", "not-a-signature!", &es), Ok(()));
    let other = object(vec![("alg", s("none"))]);
    assert_eq!(
        check_signature(&cfg, "a", "b", "", &other),
        Err(err("Unsupported algorithm: none. Supported: HS256, HS384, HS512"))
    );
    cfg.algorithm = Some("ps512".to_string());
    assert_eq!(check_signature(&cfg, "a", "b", "", &object(vec![])), Ok(()));
    assert!(is_asymmetric("EdDSA"));
    assert!(is_asymmetric("es256k"));
    assert!(!is_asymmetric("HS256"));
}

#[test]
fn readme_defaults() {
    assert_eq!(default_leeway(), 60);
    assert_eq!(default_claims_to_headers(), vec![("sub".to_string(), "X-JWT-Subject".to_string())]);
}

#[test]
fn read_and_accept_a_token() {
    let v = JwtValidator::new();
    let hb = b64(b"{\"alg\":\"HS256\"}");
    let pb = b64(b"{\"sub\":\"user-1\"}");
    let sig = b64(&hs256(b"k", &format!("{}.{}", hb, pb)));
    let mut cfg = JwtConfig::default();
    cfg.secret = Some("k".to_string());
    cfg.claims_to_headers = vec![("sub".to_string(), "X-JWT-Subject".to_string())];
    cfg.strip_token = true;
    let mut h = HeaderMap::new();
    h.insert("authorization", HeaderValue::from_str(&format!("Bearer {}.{}.{}", hb, pb, sig)).unwrap());
    let token = v.read_token(&cfg.token_source, &h, None).unwrap();
    assert_eq!(token.header, b"{\"alg\":\"HS256\"}".to_vec());
    assert_eq!(token.payload, Ok(b"{\"sub\":\"user-1\"}".to_vec()));
    let header = object(vec![("alg", s("HS256"))]);
    let payload = object(vec![("sub", s("user-1"))]);
    let r = v.try_accept_token(&cfg, &token, Ok(header), Ok(payload), &mut h);
    assert_eq!(r, Some(Ok(())));
    assert_eq!(h.get("x-jwt-subject").unwrap(), "user-1");
    assert!(h.get("authorization").is_none());
}

#[test]
fn accept_reports_errors_in_reading_order() {
    let v = JwtValidator::new();
    let cfg = JwtConfig::default();
    let mut h = HeaderMap::new();
    h.insert("authorization", HeaderValue::from_static("Bearer e30.!!!.x"));
    let token = v.read_token(&cfg.token_source, &h, None).unwrap();
    assert!(token.payload.is_err());
    let bad_header = v.accept_token(&cfg, &token, Err("eof".to_string()), Err(String::new()), &mut h);
    assert_eq!(bad_header, Err(err("Invalid JWT header JSON: eof")));
    let bad_payload = v.accept_token(&cfg, &token, Ok(object(vec![])), Err(String::new()), &mut h);
    assert_eq!(bad_payload, token.payload.clone().map(|_| ()));
    assert!(h.get("authorization").is_some());
    h.insert("authorization", HeaderValue::from_static("Bearer only.two"));
    assert_eq!(
        v.read_token(&cfg.token_source, &h, None).err(),
        Some(err("Invalid JWT format: expected 3 dot-separated segments"))
    );
}

#[test]
fn query_token_is_not_stripped() {
    let v = JwtValidator::new();
    let mut cfg = JwtConfig::default();
    cfg.token_source = TokenSource { from: TokenFrom::Query, name: "token".to_string(), prefix: String::new() };
    cfg.strip_token = true;
    let mut h = HeaderMap::new();
    h.insert("token", HeaderValue::from_static("kept"));
    let token = v.read_token(&cfg.token_source, &h, Some("token=e30.e30.sig")).unwrap();
    let r = v.accept_token(&cfg, &token, Ok(object(vec![])), Ok(object(vec![])), &mut h);
    assert_eq!(r, Ok(()));
    assert_eq!(h.get("token").unwrap(), "kept");
}

#[test]
fn non_string_claims_are_copied_as_json_text() {
    let v = JwtValidator::new();
    let mut cfg = JwtConfig::default();
    cfg.claims_to_headers = vec![
        ("admin".to_string(), "X-Admin".to_string()),
        ("n".to_string(), "X-N".to_string()),
        ("roles".to_string(), "X-Roles".to_string()),
        ("neg".to_string(), "X-Neg".to_string()),
    ];
    let payload = object(vec![
        ("admin", Json::Bool(true)),
        ("n", n(42)),
        ("roles", Json::Array(vec![s("a"), Json::Null])),
        ("neg", Json::Number(JsonNumber::NegInt(-7))),
    ]);
    let mut h = HeaderMap::new();
    assert_eq!(v.authorize(&cfg, "a", "b", "c", &object(vec![]), &payload, &mut h), Ok(()));
    assert_eq!(h.get("x-admin").unwrap(), "true");
    assert_eq!(h.get("x-n").unwrap(), "42");
    assert_eq!(h.get("x-roles").unwrap(), "[\"a\",null]");
    assert_eq!(h.get("x-neg").unwrap(), "-7");
}

#[test]
fn aud_mismatch_shows_the_claim_debug_text() {
    let v = validate(None, Some(vec!["api"]), 0);
    let arr = Json::Array(vec![s("x")]);
    assert_eq!(
        validate_claims_at(&object(vec![("aud", arr)]), &v, 0),
        Err(err("JWT aud mismatch: token aud=Array [String(\"x\")], expected one of [\"api\"]"))
    );
}
