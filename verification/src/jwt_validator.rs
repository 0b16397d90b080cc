//! JWT validation: the token is taken from a header or the query string,
//! its signature is checked with HMAC, its claims are checked, and chosen
//! claims are copied into request headers.
use vstd::prelude::*;
use vstd::string::*;
use vstd::utf8::*;
use hmac::{Hmac, Mac};
use sha2::{Sha256, Sha384, Sha512};
use crate::clock::unix_time;
use crate::codec::{decode_url_safe, url_safe_decoded};
use crate::error::PluginError;
use crate::model::parsed;
use crate::json_text::{debug_json, display_json, json_debug, json_display};
use crate::json::{field, member_of, str_equal, text_of, u64_of, Json, JsonV};
use crate::text::{after, before, join2, join3, join5, decimal, lemma_before, owned, starts_with, text_after, text_before, u64_to_decimal};
use crate::headers::{all_visible, ascii_chars, has_room, header_count, HEADER_NAMES_LIMIT, header_entries, header_get, header_insert, header_name, header_remove, header_value_ok, lookup, removed, visible_text, HeaderError};
use http::HeaderMap;

verus! {

/// The JWT validation plugin.
pub struct JwtValidator;

impl JwtValidator {
    /// The plugin.
    pub fn new() -> (r: Self) {
        JwtValidator
    }

    /// The plugin's name.
    pub fn name(&self) -> (r: &'static str)
        ensures
            r@ == "jwt-validator"@,
    {
        "jwt-validator"
    }
}

/// Where the token is read from.
#[derive(Debug, Clone, PartialEq, Eq)]
pub enum TokenFrom {
    /// A request header.
    Header,
    /// A query parameter.
    Query,
}

/// How the token is found.
#[derive(Debug, Clone, PartialEq, Eq)]
pub struct TokenSource {
    /// Header or query string.
    pub from: TokenFrom,
    /// Header name or query parameter name.
    pub name: String,
    /// Text before the token in the header.
    pub prefix: String,
}

/// Claim checks.
#[derive(Debug, Clone, PartialEq, Eq)]
pub struct ValidateConfig {
    /// Required issuer.
    pub iss: Option<String>,
    /// Accepted audiences.
    pub aud: Option<Vec<String>>,
    /// Clock skew allowed for `exp` and `nbf`, in seconds.
    pub leeway: u64,
}

/// The plugin's configuration.
#[derive(Debug, Clone, PartialEq, Eq)]
pub struct JwtConfig {
    /// How the token is found.
    pub token_source: TokenSource,
    /// HMAC key; without it the signature is not checked.
    pub secret: Option<String>,
    /// Signature algorithm; without it the token header's `alg` is used.
    pub algorithm: Option<String>,
    /// Claim checks.
    pub validate: Option<ValidateConfig>,
    /// Claim name and the request header it is copied to, in the order in
    /// which they are applied.
    pub claims_to_headers: Vec<(String, String)>,
    /// Whether the token header is removed once the token is accepted.
    pub strip_token: bool,
}

/// Default token source: a header.
pub fn default_token_from() -> (r: TokenFrom)
    ensures
        r is Header,
{
    TokenFrom::Header
}

/// Default token header: `Authorization`.
pub fn default_token_name() -> (r: String)
    ensures
        r@ == "Authorization"@,
{
    String::from_str("Authorization")
}

/// Default token prefix: `Bearer `.
pub fn default_token_prefix() -> (r: String)
    ensures
        r@ == "Bearer "@,
{
    String::from_str("Bearer ")
}

/// Default clock leeway of the claim checks: 60 seconds.
pub fn default_leeway() -> (r: u64)
    ensures
        r == 60,
{
    60
}

/// Default claim mapping: the subject (`sub`) goes to `X-JWT-Subject`.
pub fn default_claims_to_headers() -> (r: Vec<(String, String)>)
    ensures
        r@.len() == 1,
        r@[0].0@ == "sub"@,
        r@[0].1@ == "X-JWT-Subject"@,
{
    let mut v = Vec::new();
    v.push((String::from_str("sub"), String::from_str("X-JWT-Subject")));
    v
}

impl Default for TokenSource {
    fn default() -> (r: Self)
        ensures
            r.from is Header,
            r.name@ == "Authorization"@,
            r.prefix@ == "Bearer "@,
    {
        TokenSource {
            from: TokenFrom::Header,
            name: String::from_str("Authorization"),
            prefix: String::from_str("Bearer "),
        }
    }
}

impl Default for JwtConfig {
    fn default() -> (r: Self)
        ensures
            r.token_source.from is Header,
            r.token_source.name@ == "Authorization"@,
            r.token_source.prefix@ == "Bearer "@,
            r.secret is None,
            r.algorithm is None,
            r.validate is None,
            r.claims_to_headers@.len() == 0,
            !r.strip_token,
    {
        JwtConfig {
            token_source: TokenSource::default(),
            secret: None,
            algorithm: None,
            validate: None,
            claims_to_headers: Vec::new(),
            strip_token: false,
        }
    }
}

/// Whether a result carries the same outcome as a spec result whose error
/// is the text of an `ExecuteError`.
pub open spec fn same_outcome<T>(r: Result<T, PluginError>, s: Result<(), Seq<char>>) -> bool {
    match s {
        Ok(()) => r is Ok,
        Err(m) => r matches Err(e) && e.is_execute(m),
    }
}

// ---- base64url ----

/// `input` with the `=` padding that base64 needs when it is missing.
pub open spec fn padded(input: Seq<u8>) -> Seq<u8> {
    if input.len() % 4 == 2 {
        input + seq![61u8, 61u8]
    } else if input.len() % 4 == 3 {
        input + seq![61u8]
    } else {
        input
    }
}

/// Decodes base64url, adding the missing `=` padding first (RFC 4648 §5).
pub fn decode_b64url(input: &str) -> (r: Result<Vec<u8>, PluginError>)
    ensures
        match url_safe_decoded(padded(encode_utf8(input@))) {
            Ok(v) => r matches Ok(x) && x@ == v,
            Err(t) => r matches Err(e) && e.is_execute("Base64 decode failed: "@ + t),
        },
{
    let mut bytes = input.as_bytes_vec();
    let rem = bytes.len() % 4;
    if rem == 2 {
        bytes.push(61u8);
        bytes.push(61u8);
    } else if rem == 3 {
        bytes.push(61u8);
    }
    assert(bytes@ =~= padded(encode_utf8(input@)));
    match decode_url_safe(bytes.as_slice()) {
        Ok(v) => Ok(v),
        Err(e) => Err(PluginError::ExecuteError(join2("Base64 decode failed: ", e.as_str()))),
    }
}

// ---- HMAC ----

/// The HMAC-SHA256 tag of `msg` under `key` (what `hmac::Hmac<sha2::Sha256>` computes).
pub uninterp spec fn hmac_sha256(key: Seq<u8>, msg: Seq<u8>) -> Seq<u8>;

/// The HMAC-SHA384 tag of `msg` under `key` (what `hmac::Hmac<sha2::Sha384>` computes).
pub uninterp spec fn hmac_sha384(key: Seq<u8>, msg: Seq<u8>) -> Seq<u8>;

/// The HMAC-SHA512 tag of `msg` under `key` (what `hmac::Hmac<sha2::Sha512>` computes).
pub uninterp spec fn hmac_sha512(key: Seq<u8>, msg: Seq<u8>) -> Seq<u8>;

/// `Hmac::<Sha256>::new_from_slice(key)`, `update(msg)`, `verify_slice(tag)`:
/// the key is accepted whatever its length (the source never fails there),
/// and the tag is accepted exactly when it equals the computed tag.
#[verifier::external_body]
fn hmac_sha256_verify(key: &[u8], msg: &[u8], tag: &[u8]) -> (r: Result<bool, String>)
    ensures
        match r {
            Ok(b) => b == (tag@ == hmac_sha256(key@, msg@)),
            Err(_) => false,
        },
{
    match Hmac::<Sha256>::new_from_slice(key) {
        Ok(mut mac) => {
            mac.update(msg);
            Ok(mac.verify_slice(tag).is_ok())
        },
        Err(e) => Err(e.to_string()),
    }
}

/// As `hmac_sha256_verify`, with SHA-384.
#[verifier::external_body]
fn hmac_sha384_verify(key: &[u8], msg: &[u8], tag: &[u8]) -> (r: Result<bool, String>)
    ensures
        match r {
            Ok(b) => b == (tag@ == hmac_sha384(key@, msg@)),
            Err(_) => false,
        },
{
    match Hmac::<Sha384>::new_from_slice(key) {
        Ok(mut mac) => {
            mac.update(msg);
            Ok(mac.verify_slice(tag).is_ok())
        },
        Err(e) => Err(e.to_string()),
    }
}

/// As `hmac_sha256_verify`, with SHA-512.
#[verifier::external_body]
fn hmac_sha512_verify(key: &[u8], msg: &[u8], tag: &[u8]) -> (r: Result<bool, String>)
    ensures
        match r {
            Ok(b) => b == (tag@ == hmac_sha512(key@, msg@)),
            Err(_) => false,
        },
{
    match Hmac::<Sha512>::new_from_slice(key) {
        Ok(mut mac) => {
            mac.update(msg);
            Ok(mac.verify_slice(tag).is_ok())
        },
        Err(e) => Err(e.to_string()),
    }
}

/// What `str::to_uppercase` gives for `s` (Unicode upper-case mapping).
pub uninterp spec fn upper_case(s: Seq<char>) -> Seq<char>;

/// `s.to_uppercase()`.
#[verifier::external_body]
fn to_uppercase(s: &str) -> (r: String)
    ensures
        r@ == upper_case(s@),
{
    s.to_uppercase()
}

/// The outcome of checking `signature` over `header_b64.payload_b64`.
pub open spec fn hmac_outcome(
    header_b64: Seq<char>,
    payload_b64: Seq<char>,
    signature: Seq<u8>,
    secret: Seq<u8>,
    alg: Seq<char>,
) -> Result<(), Seq<char>> {
    let data = encode_utf8(header_b64 + "."@ + payload_b64);
    let a = upper_case(alg);
    let tag = if a == "HS256"@ {
        Some(hmac_sha256(secret, data))
    } else if a == "HS384"@ {
        Some(hmac_sha384(secret, data))
    } else if a == "HS512"@ {
        Some(hmac_sha512(secret, data))
    } else {
        None
    };
    match tag {
        Some(t) => if signature == t {
            Ok(())
        } else {
            Err("JWT signature mismatch"@)
        },
        None => Err("Unsupported algorithm: "@ + alg + ". Supported: HS256, HS384, HS512"@),
    }
}

fn mac_result(r: Result<bool, String>) -> (o: Result<(), PluginError>)
    requires
        r is Ok,
    ensures
        same_outcome(o, if r->Ok_0 { Ok(()) } else { Err("JWT signature mismatch"@) }),
{
    match r {
        Ok(true) => Ok(()),
        Ok(false) => Err(PluginError::ExecuteError(owned("JWT signature mismatch"))),
        Err(e) => Err(PluginError::ExecuteError(join2("Invalid secret: ", e.as_str()))),
    }
}

/// Checks an HMAC signature of the JWT's first two segments.
pub fn verify_hmac(
    header_b64: &str,
    payload_b64: &str,
    signature: &[u8],
    secret: &[u8],
    alg: &str,
) -> (r: Result<(), PluginError>)
    ensures
        same_outcome(r, hmac_outcome(header_b64@, payload_b64@, signature@, secret@, alg@)),
{
    let data = join3(header_b64, ".", payload_b64);
    let up = to_uppercase(alg);
    let msg = data.as_str().as_bytes();
    if str_equal(up.as_str(), "HS256") {
        mac_result(hmac_sha256_verify(secret, msg, signature))
    } else if str_equal(up.as_str(), "HS384") {
        mac_result(hmac_sha384_verify(secret, msg, signature))
    } else if str_equal(up.as_str(), "HS512") {
        mac_result(hmac_sha512_verify(secret, msg, signature))
    } else {
        Err(PluginError::ExecuteError(join3("Unsupported algorithm: ", alg, ". Supported: HS256, HS384, HS512")))
    }
}


// ---- claims ----

/// The current Unix time in seconds (0 when the clock is set before 1970).
pub fn current_timestamp() -> (r: u64) {
    match unix_time() {
        Ok(t) => t,
        Err(_) => 0,
    }
}

/// What `format!("{:?}", v)` writes for a list of strings.
pub uninterp spec fn strings_debug(v: Seq<Seq<char>>) -> Seq<char>;

/// `format!("{:?}", v)` for a list of strings.
#[verifier::external_body]
fn debug_strings(v: &Vec<String>) -> (r: String)
    ensures
        r@ == strings_debug(v.deep_view()),
{
    format!("{:?}", v)
}


/// Whether the token's `aud` claim names an accepted audience: a string that
/// is accepted, or an array with at least one accepted string in it.
pub open spec fn aud_matches(token_aud: JsonV, expected: Seq<Seq<char>>) -> bool {
    match token_aud {
        JsonV::Str(s) => expected.contains(s),
        JsonV::Array(items) => exists|i: int|
            0 <= i < items.len() && (#[trigger] text_of(items[i])) is Some && expected.contains(
                text_of(items[i])->0,
            ),
        _ => false,
    }
}

/// The outcome of the claim checks at Unix time `now`, in the order the
/// plugin makes them: `exp`, `nbf`, `iss`, `aud`.
pub open spec fn claims_outcome(
    payload: JsonV,
    validate: &ValidateConfig,
    now: u64,
) -> Result<(), Seq<char>> {
    let leeway = validate.leeway;
    let exp = u64_of(field(payload, "exp"@));
    let nbf = u64_of(field(payload, "nbf"@));
    if exp is Some && now > exp->0.saturating_add(leeway) {
        Err("JWT expired at "@ + decimal(exp->0 as nat) + ", current time "@ + decimal(now as nat))
    } else if nbf is Some && now.saturating_add(leeway) < nbf->0 {
        Err("JWT not yet valid (nbf: "@ + decimal(nbf->0 as nat) + ", current: "@ + decimal(now as nat) + ")"@)
    } else if validate.iss is Some && text_of(field(payload, "iss"@)) != Some(validate.iss->0@) {
        let expected = validate.iss->0@;
        match text_of(field(payload, "iss"@)) {
            Some(iss) => Err("JWT iss mismatch: expected '"@ + expected + "', got '"@ + iss + "'"@),
            None => Err("JWT iss claim missing, expected '"@ + expected + "'"@),
        }
    } else {
        match validate.aud {
            None => Ok(()),
            Some(expected) => match member_of(payload, "aud"@) {
                None => Err("JWT aud claim missing, expected one of "@ + strings_debug(expected.deep_view())),
                Some(token_aud) => if aud_matches(token_aud, expected.deep_view()) {
                    Ok(())
                } else {
                    Err("JWT aud mismatch: token aud="@ + json_debug(token_aud) + ", expected one of "@
                        + strings_debug(expected.deep_view()))
                },
            },
        }
    }
}

fn contains_string(v: &Vec<String>, s: &str) -> (r: bool)
    ensures
        r == v.deep_view().contains(s@),
{
    let n = v.len();
    let mut i: usize = 0;
    while i < n
        invariant
            n == v@.len(),
            i <= n,
            forall|j: int| 0 <= j < i ==> v@[j]@ != s@,
        decreases n - i,
    {
        if str_equal(v[i].as_str(), s) {
            assert(v.deep_view()[i as int] == s@);
            return true;
        }
        i = i + 1;
    }
    assert forall|j: int| 0 <= j < v.deep_view().len() implies v.deep_view()[j] != s@ by {
        assert(v.deep_view()[j] == v@[j]@);
    }
    false
}

fn aud_match(token_aud: &Json, expected: &Vec<String>) -> (r: bool)
    ensures
        r == aud_matches(token_aud.model(), expected.deep_view()),
{
    match token_aud {
        Json::Str(s) => contains_string(expected, s.as_str()),
        Json::Array(items) => {
            let n = items.len();
            let ghost m = token_aud.model();
            let mut i: usize = 0;
            while i < n
                invariant
                    n == items@.len(),
                    i <= n,
                    token_aud matches Json::Array(its) && its == items,
                    m == token_aud.model(),
                    m matches JsonV::Array(ms) && forall|j: int| 0 <= j < i ==> !((#[trigger] text_of(ms[j])) is Some
                        && expected.deep_view().contains(text_of(ms[j])->0)),
                decreases n - i,
            {
                proof {
                    if let JsonV::Array(ms) = m {
                        assert(ms[i as int] == items@[i as int].model());
                    }
                }
                match items[i].as_str() {
                    Some(a) => {
                        if contains_string(expected, a.as_str()) {
                            return true;
                        }
                    },
                    None => {},
                }
                i = i + 1;
            }
            false
        },
        _ => false,
    }
}

/// The claim checks at Unix time `now`.
pub fn validate_claims_at(
    payload: &Json,
    validate: &ValidateConfig,
    now: u64,
) -> (r: Result<(), PluginError>)
    ensures
        same_outcome(r, claims_outcome(payload.model(), validate, now)),
{
    let leeway = validate.leeway;
    let exp = match payload.get("exp") {
        Some(v) => v.as_u64(),
        None => None,
    };
    if let Some(exp) = exp {
        if now > exp.saturating_add(leeway) {
            let e = u64_to_decimal(exp);
            let n = u64_to_decimal(now);
            return Err(PluginError::ExecuteError(join2(join3("JWT expired at ", e.as_str(), ", current time ").as_str(), n.as_str())));
        }
    }
    let nbf = match payload.get("nbf") {
        Some(v) => v.as_u64(),
        None => None,
    };
    if let Some(nbf) = nbf {
        if now.saturating_add(leeway) < nbf {
            let b = u64_to_decimal(nbf);
            let n = u64_to_decimal(now);
            return Err(PluginError::ExecuteError(join5("JWT not yet valid (nbf: ", b.as_str(), ", current: ", n.as_str(), ")")));
        }
    }
    if let Some(expected_iss) = &validate.iss {
        let iss = match payload.get("iss") {
            Some(v) => v.as_str(),
            None => None,
        };
        match iss {
            Some(iss) => {
                if !str_equal(iss.as_str(), expected_iss.as_str()) {
                    return Err(PluginError::ExecuteError(join5("JWT iss mismatch: expected '", expected_iss.as_str(), "', got '", iss.as_str(), "'")));
                }
            },
            None => {
                return Err(PluginError::ExecuteError(join3("JWT iss claim missing, expected '", expected_iss.as_str(), "'")));
            },
        }
    }
    if let Some(expected_aud) = &validate.aud {
        let token_aud = match payload.get("aud") {
            Some(v) => v,
            None => {
                let d = debug_strings(expected_aud);
                return Err(PluginError::ExecuteError(join2("JWT aud claim missing, expected one of ", d.as_str())));
            },
        };
        if !aud_match(token_aud, expected_aud) {
            let token_debug = debug_json(token_aud);
            let d = debug_strings(expected_aud);
            return Err(PluginError::ExecuteError(join2(join3("JWT aud mismatch: token aud=", token_debug.as_str(), ", expected one of ").as_str(), d.as_str())));
        }
    }
    Ok(())
}

/// The claim checks at the current time.
pub fn validate_claims(payload: &Json, validate: &ValidateConfig) -> (r: Result<(), PluginError>)
    ensures
        exists|now: u64| same_outcome(r, claims_outcome(payload.model(), validate, now)),
{
    let now = current_timestamp();
    validate_claims_at(payload, validate, now)
}


// ---- finding the token ----

/// The value of the first query parameter named `name` in `query` (pairs
/// split at `&`, a pair's name and value split at its first `=`; a pair
/// without `=` has the empty value). No percent-decoding is done.
pub open spec fn query_param(query: Seq<char>, name: Seq<char>) -> Option<Seq<char>>
    decreases query.len(),
{
    let pair = before(query, '&');
    if before(pair, '=') == name {
        Some(after(pair, '='))
    } else if pair.len() < query.len() {
        query_param(query.subrange(pair.len() + 1int, query.len() as int), name)
    } else {
        None
    }
}

/// The token of a request, or the text of the error that stops it.
pub open spec fn token_outcome(
    source: &TokenSource,
    entries: Map<Seq<u8>, Seq<Seq<u8>>>,
    query: Option<Seq<char>>,
) -> Result<Seq<char>, Seq<char>> {
    let name = source.name@;
    match source.from {
        TokenFrom::Header => match lookup(entries, encode_utf8(name)) {
            None => Err("Missing header '"@ + name + "' for JWT token"@),
            Some(v) => if !all_visible(v) {
                Err("Invalid header value: failed to convert header to a str"@)
            } else if source.prefix@.is_prefix_of(ascii_chars(v)) {
                Ok(ascii_chars(v).skip(source.prefix@.len() as int))
            } else {
                Err("JWT token prefix mismatch: expected '"@ + source.prefix@ + "'"@)
            },
        },
        TokenFrom::Query => match query {
            None => Err("No query string in request URI"@),
            Some(q) => match query_param(q, name) {
                Some(v) => Ok(v),
                None => Err("Missing query parameter '"@ + name + "' for JWT token"@),
            },
        },
    }
}

/// The value of query parameter `name`.
pub fn find_query_param(query: &str, name: &str) -> (r: Option<String>)
    ensures
        match r {
            Some(v) => query_param(query@, name@) == Some(v@),
            None => query_param(query@, name@) is None,
        },
{
    let mut rest: &str = query;
    loop
        invariant
            query_param(query@, name@) == query_param(rest@, name@),
        decreases rest@.len(),
    {
        let pair = text_before(rest, '&');
        let key = text_before(pair, '=');
        proof {
            lemma_before(rest@, '&');
        }
        if str_equal(key, name) {
            return Some(owned(text_after(pair, '=')));
        }
        let pl = pair.unicode_len();
        let rl = rest.unicode_len();
        if pl < rl {
            rest = rest.substring_char(pl + 1, rl);
        } else {
            return None;
        }
    }
}

impl JwtValidator {
    /// The token of the request: the value of the configured header after
    /// its prefix, or the value of the configured query parameter.
    pub fn extract_token(&self, source: &TokenSource, headers: &HeaderMap, query: Option<&str>) -> (r: Result<String, PluginError>)
        ensures
            match token_outcome(source, header_entries(*headers), match query { Some(q) => Some(q@), None => None }) {
                Ok(t) => r matches Ok(s) && s@ == t,
                Err(m) => r matches Err(e) && e.is_execute(m),
            },
    {
        match source.from {
            TokenFrom::Header => {
                let raw = match header_get(headers, source.name.as_str()) {
                    Some(v) => v,
                    None => return Err(PluginError::ExecuteError(join3("Missing header '", source.name.as_str(), "' for JWT token"))),
                };
                let value = match visible_text(&raw) {
                    Some(t) => t,
                    None => return Err(PluginError::ExecuteError(owned("Invalid header value: failed to convert header to a str"))),
                };
                if !starts_with(value.as_str(), source.prefix.as_str()) {
                    return Err(PluginError::ExecuteError(join3("JWT token prefix mismatch: expected '", source.prefix.as_str(), "'")));
                }
                let n = value.as_str().unicode_len();
                let m = source.prefix.as_str().unicode_len();
                Ok(owned(value.as_str().substring_char(m, n)))
            },
            TokenFrom::Query => {
                let q = match query {
                    Some(q) => q,
                    None => return Err(PluginError::ExecuteError(owned("No query string in request URI"))),
                };
                match find_query_param(q, source.name.as_str()) {
                    Some(v) => Ok(v),
                    None => Err(PluginError::ExecuteError(join3("Missing query parameter '", source.name.as_str(), "' for JWT token"))),
                }
            },
        }
    }
}

/// `token.splitn(3, '.')` when it gives three segments (the third may hold
/// more dots).
pub open spec fn segments(token: Seq<char>) -> Option<(Seq<char>, Seq<char>, Seq<char>)> {
    let a = before(token, '.');
    if a.len() < token.len() {
        let rest = token.subrange(a.len() + 1int, token.len() as int);
        let b = before(rest, '.');
        if b.len() < rest.len() {
            Some((a, b, rest.subrange(b.len() + 1int, rest.len() as int)))
        } else {
            None
        }
    } else {
        None
    }
}

/// The header, payload and signature segments of a token.
pub fn split_token(token: &str) -> (r: Result<(String, String, String), PluginError>)
    ensures
        match segments(token@) {
            Some((a, b, c)) => r matches Ok((x, y, z)) && x@ == a && y@ == b && z@ == c,
            None => r matches Err(e) && e.is_execute("Invalid JWT format: expected 3 dot-separated segments"@),
        },
{
    let a = text_before(token, '.');
    let al = a.unicode_len();
    let n = token.unicode_len();
    proof {
        lemma_before(token@, '.');
    }
    if al < n {
        let rest = token.substring_char(al + 1, n);
        let b = text_before(rest, '.');
        let bl = b.unicode_len();
        let rl = rest.unicode_len();
        proof {
            lemma_before(rest@, '.');
        }
        if bl < rl {
            let c = rest.substring_char(bl + 1, rl);
            return Ok((owned(a), owned(b), owned(c)));
        }
    }
    Err(PluginError::ExecuteError(owned("Invalid JWT format: expected 3 dot-separated segments")))
}


// ---- accepting the token ----

/// The asymmetric JWA algorithms (RSA, RSA-PSS, ECDSA and EdDSA signatures),
/// compared in upper case. Only HMAC keys are configured, so tokens signed
/// with these are only decoded: their signature is not checked.
pub open spec fn asymmetric_alg(alg: Seq<char>) -> bool {
    let a = upper_case(alg);
    ||| a == "RS256"@
    ||| a == "RS384"@
    ||| a == "RS512"@
    ||| a == "PS256"@
    ||| a == "PS384"@
    ||| a == "PS512"@
    ||| a == "ES256"@
    ||| a == "ES384"@
    ||| a == "ES512"@
    ||| a == "ES256K"@
    ||| a == "EDDSA"@
}

/// Whether `alg` names an asymmetric algorithm.
pub fn is_asymmetric(alg: &str) -> (r: bool)
    ensures
        r == asymmetric_alg(alg@),
{
    let up = to_uppercase(alg);
    let a = up.as_str();
    str_equal(a, "RS256") || str_equal(a, "RS384") || str_equal(a, "RS512") || str_equal(a, "PS256")
        || str_equal(a, "PS384") || str_equal(a, "PS512") || str_equal(a, "ES256") || str_equal(a, "ES384")
        || str_equal(a, "ES512") || str_equal(a, "ES256K") || str_equal(a, "EDDSA")
}

/// The outcome of the signature check: skipped without a secret; otherwise
/// the algorithm comes from the configuration or else the token header's
/// `alg`, and a token of an asymmetric algorithm is only decoded.
pub open spec fn signature_outcome(
    cfg: &JwtConfig,
    header_b64: Seq<char>,
    payload_b64: Seq<char>,
    sig_b64: Seq<char>,
    header: JsonV,
) -> Result<(), Seq<char>> {
    match cfg.secret {
        None => Ok(()),
        Some(secret) => {
            let alg = match cfg.algorithm {
                Some(a) => Some(a@),
                None => text_of(field(header, "alg"@)),
            };
            match alg {
                None => Err("JWT algorithm not specified in config or JWT header"@),
                Some(a) => if asymmetric_alg(a) {
                    Ok(())
                } else {
                    match url_safe_decoded(padded(encode_utf8(sig_b64))) {
                        Err(t) => Err("Base64 decode failed: "@ + t),
                        Ok(sig) => hmac_outcome(header_b64, payload_b64, sig, encode_utf8(secret@), a),
                    }
                },
            }
        },
    }
}

/// The header value a claim is copied as: a string's text, or else the
/// claim's compact JSON text as `serde_json` displays it.
pub open spec fn claim_value_text(v: JsonV) -> Seq<char> {
    match v {
        JsonV::Str(s) => s,
        _ => json_display(v),
    }
}

/// Copying claims into headers, one mapping after the other: the outcome
/// and the header entries afterwards. A claim the payload lacks is skipped;
/// the first header that cannot be set stops the copying.
pub open spec fn injected(
    claims: Seq<(String, String)>,
    payload: JsonV,
    entries: Map<Seq<u8>, Seq<Seq<u8>>>,
) -> (Result<(), Seq<char>>, Map<Seq<u8>, Seq<Seq<u8>>>)
    decreases claims.len(),
{
    if claims.len() == 0 {
        (Ok(()), entries)
    } else {
        let claim = claims[0].0@;
        let target = claims[0].1@;
        let rest = claims.subrange(1, claims.len() as int);
        match member_of(payload, claim) {
            None => injected(rest, payload, entries),
            Some(v) => {
                let value = encode_utf8(claim_value_text(v));
                match header_name(encode_utf8(target)) {
                    None => (Err("Invalid header name: "@ + "invalid HTTP header name"@), entries),
                    Some(n) => if header_value_ok(value) {
                        injected(rest, payload, entries.insert(n, seq![value]))
                    } else {
                        (Err("Invalid header value: "@ + "failed to parse header value"@), entries)
                    },
                }
            },
        }
    }
}

/// The outcome of accepting a token whose segments and decoded header and
/// payload are given, with the claims checked at Unix time `now`, and the
/// header entries afterwards.
pub open spec fn authorize_outcome(
    cfg: &JwtConfig,
    header_b64: Seq<char>,
    payload_b64: Seq<char>,
    sig_b64: Seq<char>,
    header: JsonV,
    payload: JsonV,
    now: u64,
    entries: Map<Seq<u8>, Seq<Seq<u8>>>,
) -> (Result<(), Seq<char>>, Map<Seq<u8>, Seq<Seq<u8>>>) {
    match signature_outcome(cfg, header_b64, payload_b64, sig_b64, header) {
        Err(m) => (Err(m), entries),
        Ok(()) => {
            let claims = match cfg.validate {
                None => Ok(()),
                Some(v) => claims_outcome(payload, &v, now),
            };
            match claims {
                Err(m) => (Err(m), entries),
                Ok(()) => {
                    let (res, after_claims) = injected(cfg.claims_to_headers@, payload, entries);
                    match res {
                        Err(m) => (Err(m), after_claims),
                        Ok(()) => (
                            Ok(()),
                            if cfg.strip_token && cfg.token_source.from is Header {
                                removed(after_claims, encode_utf8(cfg.token_source.name@))
                            } else {
                                after_claims
                            },
                        ),
                    }
                },
            }
        },
    }
}

fn inject_claims(
    claims: &Vec<(String, String)>,
    payload: &Json,
    headers: &mut HeaderMap,
) -> (r: Result<(), PluginError>)
    requires
        header_count(*old(headers)) + claims@.len() < HEADER_NAMES_LIMIT,
    ensures
        same_outcome(r, injected(claims@, payload.model(), header_entries(*old(headers))).0),
        header_entries(*final(headers)) == injected(claims@, payload.model(), header_entries(*old(headers))).1,
        header_count(*final(headers)) <= header_count(*old(headers)) + claims@.len(),
{
    let ghost whole = injected(claims@, payload.model(), header_entries(*headers));
    let ghost count0 = header_count(*headers);
    let n = claims.len();
    let mut i: usize = 0;
    assert(claims@.subrange(0, n as int) =~= claims@);
    while i < n
        invariant
            n == claims@.len(),
            i <= n,
            whole == injected(claims@.subrange(i as int, n as int), payload.model(), header_entries(*headers)),
            whole == injected(claims@, payload.model(), header_entries(*old(headers))),
            count0 == header_count(*old(headers)),
            header_count(*headers) <= count0 + i,
            count0 + n < HEADER_NAMES_LIMIT,
        decreases n - i,
    {
        let ghost tail = claims@.subrange(i as int, n as int);
        assert(tail.subrange(1, tail.len() as int) =~= claims@.subrange(i + 1, n as int));
        assert(tail[0] == claims@[i as int]);
        let claim = &claims[i].0;
        let target = &claims[i].1;
        match payload.get(claim.as_str()) {
            Some(v) => {
                let value: String = match v {
                    Json::Str(s) => s.clone(),
                    _ => display_json(v),
                };
                assert(value@ == claim_value_text(v.model()));
                assert(tail[0].0@ == claim@ && tail[0].1@ == target@);
                match header_insert(headers, target.as_str(), value.as_str()) {
                    Ok(()) => {},
                    Err(e) => {
                        let t = e.text();
                        return match e {
                            HeaderError::InvalidName => Err(PluginError::ExecuteError(join2("Invalid header name: ", t.as_str()))),
                            HeaderError::InvalidValue => Err(PluginError::ExecuteError(join2("Invalid header value: ", t.as_str()))),
                        };
                    },
                }
            },
            None => {},
        }
        i = i + 1;
    }
    assert(claims@.subrange(n as int, n as int).len() == 0);
    Ok(())
}

/// The signature check of a token (skipped without a secret, and for an
/// asymmetric algorithm).
pub fn check_signature(cfg: &JwtConfig, header_b64: &str, payload_b64: &str, sig_b64: &str, header: &Json) -> (r: Result<(), PluginError>)
    ensures
        same_outcome(r, signature_outcome(cfg, header_b64@, payload_b64@, sig_b64@, header.model())),
{
    if let Some(secret) = &cfg.secret {
        let alg: &str = match &cfg.algorithm {
            Some(a) => a.as_str(),
            None => match header.get("alg") {
                Some(v) => match v.as_str() {
                    Some(a) => a.as_str(),
                    None => return Err(PluginError::ExecuteError(owned("JWT algorithm not specified in config or JWT header"))),
                },
                None => return Err(PluginError::ExecuteError(owned("JWT algorithm not specified in config or JWT header"))),
            },
        };
        if is_asymmetric(alg) {
            return Ok(());
        }
        let sig = match decode_b64url(sig_b64) {
            Ok(s) => s,
            Err(e) => return Err(e),
        };
        verify_hmac(header_b64, payload_b64, sig.as_slice(), secret.as_str().as_bytes(), alg)
    } else {
        Ok(())
    }
}

impl JwtValidator {
    /// Accepts a token whose three segments and decoded header and payload
    /// are given: checks its signature (when a secret is configured) and its
    /// claims at the current time, copies the configured claims into
    /// headers, and removes the token header when asked to.
    pub fn authorize(
        &self,
        cfg: &JwtConfig,
        header_b64: &str,
        payload_b64: &str,
        sig_b64: &str,
        header: &Json,
        payload: &Json,
            headers: &mut HeaderMap,
    ) -> (r: Result<(), PluginError>)
        requires
            header_count(*old(headers)) + cfg.claims_to_headers@.len() < HEADER_NAMES_LIMIT,
        ensures
            exists|now: u64|
                #![trigger authorize_outcome(cfg, header_b64@, payload_b64@, sig_b64@, header.model(), payload.model(), now, header_entries(*old(headers)))]
                same_outcome(r, authorize_outcome(cfg, header_b64@, payload_b64@, sig_b64@, header.model(), payload.model(), now, header_entries(*old(headers))).0)
                    && header_entries(*final(headers)) == authorize_outcome(cfg, header_b64@, payload_b64@, sig_b64@, header.model(), payload.model(), now, header_entries(*old(headers))).1,
    {
        let ghost entries0 = header_entries(*headers);
        match check_signature(cfg, header_b64, payload_b64, sig_b64, header) {
            Ok(()) => {},
            Err(e) => {
                assert(same_outcome(Err::<(), PluginError>(e), authorize_outcome(cfg, header_b64@, payload_b64@, sig_b64@, header.model(), payload.model(), 0, entries0).0));
                return Err(e);
            },
        }
        let ghost mut now: u64 = 0;
        if let Some(validate) = &cfg.validate {
            let res = validate_claims(payload, validate);
            proof {
                now = choose|t: u64| same_outcome(res, claims_outcome(payload.model(), validate, t));
            }
            match res {
                Ok(()) => {},
                Err(e) => {
                    assert(same_outcome(Err::<(), PluginError>(e), authorize_outcome(cfg, header_b64@, payload_b64@, sig_b64@, header.model(), payload.model(), now, entries0).0));
                    return Err(e);
                },
            }
        }
        match inject_claims(&cfg.claims_to_headers, payload, headers) {
            Ok(()) => {},
            Err(e) => {
                assert(same_outcome(Err::<(), PluginError>(e), authorize_outcome(cfg, header_b64@, payload_b64@, sig_b64@, header.model(), payload.model(), now, entries0).0));
                return Err(e);
            },
        }
        if cfg.strip_token {
            if let TokenFrom::Header = cfg.token_source.from {
                header_remove(headers, cfg.token_source.name.as_str());
            }
        }
        assert(same_outcome(Ok::<(), PluginError>(()), authorize_outcome(cfg, header_b64@, payload_b64@, sig_b64@, header.model(), payload.model(), now, entries0).0));
        Ok(())
    }
}


/// A segment of a token decoded from base64url, or the error text.
pub open spec fn decoded_segment(seg: Seq<char>) -> Result<Seq<u8>, Seq<char>> {
    match url_safe_decoded(padded(encode_utf8(seg))) {
        Ok(v) => Ok(v),
        Err(t) => Err("Base64 decode failed: "@ + t),
    }
}

/// Reading the token of a request: its three segments, its decoded header,
/// and the decoding of its payload (whose failure is reported only after
/// the header has been parsed).
pub open spec fn read_outcome(
    source: &TokenSource,
    entries: Map<Seq<u8>, Seq<Seq<u8>>>,
    query: Option<Seq<char>>,
) -> Result<(Seq<char>, Seq<char>, Seq<char>, Seq<u8>, Result<Seq<u8>, Seq<char>>), Seq<char>> {
    match token_outcome(source, entries, query) {
        Err(m) => Err(m),
        Ok(t) => match segments(t) {
            None => Err("Invalid JWT format: expected 3 dot-separated segments"@),
            Some((a, b, c)) => match decoded_segment(a) {
                Err(m) => Err(m),
                Ok(h) => Ok((a, b, c, h, decoded_segment(b))),
            },
        },
    }
}

/// A token read from a request: its segments, its decoded header, and its
/// payload as decoded (or the decoding error).
#[derive(Debug, PartialEq, Eq)]
pub struct ReadToken {
    pub header_b64: String,
    pub payload_b64: String,
    pub sig_b64: String,
    pub header: Vec<u8>,
    pub payload: Result<Vec<u8>, PluginError>,
}

impl ReadToken {
    /// Mathematical model of a read token.
    pub open spec fn model(&self) -> (Seq<char>, Seq<char>, Seq<char>, Seq<u8>, Result<Seq<u8>, Seq<char>>) {
        (
            self.header_b64@,
            self.payload_b64@,
            self.sig_b64@,
            self.header@,
            match self.payload {
                Ok(v) => Ok(v@),
                Err(PluginError::ExecuteError(m)) => Err(m@),
                Err(PluginError::Reject(_, m)) => Err(m@),
            },
        )
    }

    /// Whether the payload decoding failed with an execution error.
    pub open spec fn payload_well_formed(&self) -> bool {
        !(self.payload matches Err(PluginError::Reject(_, _)))
    }
}

/// The outcome of accepting a read token, given its header and payload as
/// parsed JSON (or the parser's error texts), with the claims checked at
/// Unix time `now`: the parse errors come in the order the token is read.
pub open spec fn accept_outcome(
    cfg: &JwtConfig,
    token: (Seq<char>, Seq<char>, Seq<char>, Seq<u8>, Result<Seq<u8>, Seq<char>>),
    header: Result<JsonV, Seq<char>>,
    payload: Result<JsonV, Seq<char>>,
    now: u64,
    entries: Map<Seq<u8>, Seq<Seq<u8>>>,
) -> (Result<(), Seq<char>>, Map<Seq<u8>, Seq<Seq<u8>>>) {
    match header {
        Err(t) => (Err("Invalid JWT header JSON: "@ + t), entries),
        Ok(h) => match token.4 {
            Err(m) => (Err(m), entries),
            Ok(_) => match payload {
                Err(t) => (Err("Invalid JWT payload JSON: "@ + t), entries),
                Ok(p) => authorize_outcome(cfg, token.0, token.1, token.2, h, p, now, entries),
            },
        },
    }
}

impl JwtValidator {
    /// Reads the token of a request: takes it from the configured header or
    /// query parameter, splits it, and decodes its header and payload.
    pub fn read_token(&self, source: &TokenSource, headers: &HeaderMap, query: Option<&str>) -> (r: Result<ReadToken, PluginError>)
        ensures
            match read_outcome(source, header_entries(*headers), match query { Some(q) => Some(q@), None => None }) {
                Ok(t) => r matches Ok(x) && x.model() == t && x.payload_well_formed(),
                Err(m) => r matches Err(e) && e.is_execute(m),
            },
    {
        let token = match self.extract_token(source, headers, query) {
            Ok(t) => t,
            Err(e) => return Err(e),
        };
        let (a, b, c) = match split_token(token.as_str()) {
            Ok(s) => s,
            Err(e) => return Err(e),
        };
        let header = match decode_b64url(a.as_str()) {
            Ok(h) => h,
            Err(e) => return Err(e),
        };
        let payload = decode_b64url(b.as_str());
        Ok(ReadToken { header_b64: a, payload_b64: b, sig_b64: c, header, payload })
    }

    /// Accepts a read token, given its header and payload as parsed JSON (or
    /// the parser's error texts): reports a parse or decoding error in the order the token is read,
    /// then checks the token as `authorize` does.
    pub fn accept_token(
        &self,
        cfg: &JwtConfig,
        token: &ReadToken,
        header: Result<Json, String>,
        payload: Result<Json, String>,
            headers: &mut HeaderMap,
    ) -> (r: Result<(), PluginError>)
        requires
            header_count(*old(headers)) + cfg.claims_to_headers@.len() < HEADER_NAMES_LIMIT,
            token.payload_well_formed(),
        ensures
            exists|now: u64|
                #![trigger accept_outcome(cfg, token.model(), parsed(header), parsed(payload), now, header_entries(*old(headers)))]
                same_outcome(r, accept_outcome(cfg, token.model(), parsed(header), parsed(payload), now, header_entries(*old(headers))).0)
                    && header_entries(*final(headers)) == accept_outcome(cfg, token.model(), parsed(header), parsed(payload), now, header_entries(*old(headers))).1,
    {
        let h = match header_json(header) {
            Ok(h) => h,
            Err(e) => {
                assert(same_outcome(Err::<(), PluginError>(e), accept_outcome(cfg, token.model(), parsed(header), parsed(payload), 0, header_entries(*headers)).0));
                return Err(e);
            },
        };
        match &token.payload {
            Ok(_) => {},
            Err(e) => {
                let e2 = match e {
                    PluginError::ExecuteError(m) => PluginError::ExecuteError(m.clone()),
                    PluginError::Reject(c, m) => PluginError::Reject(*c, m.clone()),
                };
                assert(same_outcome(Err::<(), PluginError>(e2), accept_outcome(cfg, token.model(), parsed(header), parsed(payload), 0, header_entries(*headers)).0));
                return Err(e2);
            },
        }
        let p = match payload_json(payload) {
            Ok(p) => p,
            Err(e) => {
                assert(same_outcome(Err::<(), PluginError>(e), accept_outcome(cfg, token.model(), parsed(header), parsed(payload), 0, header_entries(*headers)).0));
                return Err(e);
            },
        };
        let ghost e0 = header_entries(*headers);
        let r = self.authorize(cfg, token.header_b64.as_str(), token.payload_b64.as_str(), token.sig_b64.as_str(), &h, &p, headers);
        proof {
            let now = choose|now: u64|
                #![trigger authorize_outcome(cfg, token.header_b64@, token.payload_b64@, token.sig_b64@, h.model(), p.model(), now, e0)]
                same_outcome(r, authorize_outcome(cfg, token.header_b64@, token.payload_b64@, token.sig_b64@, h.model(), p.model(), now, e0).0)
                    && header_entries(*headers) == authorize_outcome(cfg, token.header_b64@, token.payload_b64@, token.sig_b64@, h.model(), p.model(), now, e0).1;
            assert(accept_outcome(cfg, token.model(), parsed(header), parsed(payload), now, e0)
                == authorize_outcome(cfg, token.header_b64@, token.payload_b64@, token.sig_b64@, h.model(), p.model(), now, e0));
        }
        r
    }

    /// `accept_token` when the map has room for the claim headers; `None`,
    /// with the headers untouched, when it has not.
    pub fn try_accept_token(
        &self,
        cfg: &JwtConfig,
        token: &ReadToken,
        header: Result<Json, String>,
        payload: Result<Json, String>,
            headers: &mut HeaderMap,
    ) -> (r: Option<Result<(), PluginError>>)
        requires
            token.payload_well_formed(),
        ensures
            header_count(*old(headers)) + cfg.claims_to_headers@.len() < HEADER_NAMES_LIMIT ==> (r matches Some(x) && exists|now: u64|
                #![trigger accept_outcome(cfg, token.model(), parsed(header), parsed(payload), now, header_entries(*old(headers)))]
                same_outcome(x, accept_outcome(cfg, token.model(), parsed(header), parsed(payload), now, header_entries(*old(headers))).0)
                    && header_entries(*final(headers)) == accept_outcome(cfg, token.model(), parsed(header), parsed(payload), now, header_entries(*old(headers))).1),
            !(header_count(*old(headers)) + cfg.claims_to_headers@.len() < HEADER_NAMES_LIMIT) ==> {
                &&& r is None
                &&& *final(headers) == *old(headers)
            },
    {
        if has_room(headers, cfg.claims_to_headers.len()) {
            Some(self.accept_token(cfg, token, header, payload, headers))
        } else {
            None
        }
    }
}

/// The token header as parsed JSON, or the error for a header that does not parse.
pub fn header_json(parsed: Result<Json, String>) -> (r: Result<Json, PluginError>)
    ensures
        match parsed {
            Ok(j) => r matches Ok(x) && x.model() == j.model(),
            Err(t) => r matches Err(e) && e.is_execute("Invalid JWT header JSON: "@ + t@),
        },
{
    match parsed {
        Ok(j) => Ok(j),
        Err(t) => Err(PluginError::ExecuteError(join2("Invalid JWT header JSON: ", t.as_str()))),
    }
}

/// The token payload as parsed JSON, or the error for a payload that does not parse.
pub fn payload_json(parsed: Result<Json, String>) -> (r: Result<Json, PluginError>)
    ensures
        match parsed {
            Ok(j) => r matches Ok(x) && x.model() == j.model(),
            Err(t) => r matches Err(e) && e.is_execute("Invalid JWT payload JSON: "@ + t@),
        },
{
    match parsed {
        Ok(j) => Ok(j),
        Err(t) => Err(PluginError::ExecuteError(join2("Invalid JWT payload JSON: ", t.as_str()))),
    }
}

/// Without a secret the signature is not checked: the token is only decoded.
pub proof fn law_no_secret_no_signature_check(cfg: &JwtConfig, header_b64: Seq<char>, payload_b64: Seq<char>, sig_b64: Seq<char>, header: JsonV)
    requires
        cfg.secret is None,
    ensures
        signature_outcome(cfg, header_b64, payload_b64, sig_b64, header) == Ok::<(), Seq<char>>(()),
{
}

/// With a secret, a token whose algorithm is asymmetric (RS256, ES256 and the
/// like, from the configuration or else the token header) is only decoded:
/// its signature is not checked.
pub proof fn law_asymmetric_token_only_decoded(cfg: &JwtConfig, header_b64: Seq<char>, payload_b64: Seq<char>, sig_b64: Seq<char>, header: JsonV)
    requires
        cfg.secret is Some,
        match cfg.algorithm {
            Some(a) => asymmetric_alg(a@),
            None => text_of(field(header, "alg"@)) matches Some(a) && asymmetric_alg(a),
        },
    ensures
        signature_outcome(cfg, header_b64, payload_b64, sig_b64, header) == Ok::<(), Seq<char>>(()),
{
}

/// An HMAC algorithm decides by its own tag: with an algorithm that
/// upper-cases to HS256, HS384 or HS512, a signature over
/// `header_b64.payload_b64` is accepted exactly when it equals the
/// HMAC-SHA-256, -384 or -512 tag of that text under the secret, and any
/// other signature is refused as a mismatch.
pub proof fn law_hmac_tag_decides(
    header_b64: Seq<char>,
    payload_b64: Seq<char>,
    signature: Seq<u8>,
    secret: Seq<u8>,
    alg: Seq<char>,
)
    ensures
        upper_case(alg) == "HS256"@ ==> if signature == hmac_sha256(secret, encode_utf8(header_b64 + "."@ + payload_b64)) {
            hmac_outcome(header_b64, payload_b64, signature, secret, alg) == Ok::<(), Seq<char>>(())
        } else {
            hmac_outcome(header_b64, payload_b64, signature, secret, alg) == Err::<(), Seq<char>>("JWT signature mismatch"@)
        },
        upper_case(alg) == "HS384"@ ==> if signature == hmac_sha384(secret, encode_utf8(header_b64 + "."@ + payload_b64)) {
            hmac_outcome(header_b64, payload_b64, signature, secret, alg) == Ok::<(), Seq<char>>(())
        } else {
            hmac_outcome(header_b64, payload_b64, signature, secret, alg) == Err::<(), Seq<char>>("JWT signature mismatch"@)
        },
        upper_case(alg) == "HS512"@ ==> if signature == hmac_sha512(secret, encode_utf8(header_b64 + "."@ + payload_b64)) {
            hmac_outcome(header_b64, payload_b64, signature, secret, alg) == Ok::<(), Seq<char>>(())
        } else {
            hmac_outcome(header_b64, payload_b64, signature, secret, alg) == Err::<(), Seq<char>>("JWT signature mismatch"@)
        },
{
    reveal_strlit("HS256");
    reveal_strlit("HS384");
    reveal_strlit("HS512");
    assert("HS256"@[2] == '2' && "HS384"@[2] == '3' && "HS512"@[2] == '5');
    assert("HS256"@ != "HS384"@ && "HS256"@ != "HS512"@ && "HS384"@ != "HS512"@);
}

/// With a secret, an HS256 token is accepted only with the HMAC-SHA256 tag
/// of its first two segments, and then it is.
pub proof fn law_hs256_signature_decides(cfg: &JwtConfig, header_b64: Seq<char>, payload_b64: Seq<char>, sig_b64: Seq<char>, header: JsonV)
    requires
        cfg.secret is Some,
        cfg.algorithm matches Some(a) && upper_case(a@) == "HS256"@,
        url_safe_decoded(padded(encode_utf8(sig_b64))) is Ok,
    ensures
        (signature_outcome(cfg, header_b64, payload_b64, sig_b64, header) is Ok) == (url_safe_decoded(padded(encode_utf8(sig_b64)))->Ok_0
            == hmac_sha256(encode_utf8(cfg.secret->0@), encode_utf8(header_b64 + "."@ + payload_b64))),
{
    reveal_strlit("HS256");
    reveal_strlit("RS256");
    reveal_strlit("RS384");
    reveal_strlit("RS512");
    reveal_strlit("PS256");
    reveal_strlit("PS384");
    reveal_strlit("PS512");
    reveal_strlit("ES256");
    reveal_strlit("ES384");
    reveal_strlit("ES512");
    reveal_strlit("ES256K");
    reveal_strlit("EDDSA");
    let u = upper_case(cfg.algorithm->0@);
    assert(u[0] == 'H');
    assert("RS256"@[0] == 'R' && "RS384"@[0] == 'R' && "RS512"@[0] == 'R');
    assert("PS256"@[0] == 'P' && "PS384"@[0] == 'P' && "PS512"@[0] == 'P');
    assert("ES256"@[0] == 'E' && "ES384"@[0] == 'E' && "ES512"@[0] == 'E' && "ES256K"@[0] == 'E');
    assert("EDDSA"@[0] == 'E');
    assert(!asymmetric_alg(cfg.algorithm->0@));
}

/// A token past its expiry (beyond the leeway) is refused.
pub proof fn law_expired_token_refused(payload: JsonV, validate: &ValidateConfig, now: u64)
    requires
        u64_of(field(payload, "exp"@)) matches Some(exp) && now > exp.saturating_add(validate.leeway),
    ensures
        claims_outcome(payload, validate, now) is Err,
{
}

/// A token that is not yet valid (beyond the leeway) is refused.
pub proof fn law_early_token_refused(payload: JsonV, validate: &ValidateConfig, now: u64)
    requires
        now.saturating_add(validate.leeway) < u64_of(field(payload, "nbf"@))->0,
        u64_of(field(payload, "nbf"@)) is Some,
    ensures
        claims_outcome(payload, validate, now) is Err,
{
}

/// A refused token leaves the request headers as they were: no claim is
/// copied and the token header is not removed.
pub proof fn law_refused_token_leaves_headers(
    cfg: &JwtConfig,
    header_b64: Seq<char>,
    payload_b64: Seq<char>,
    sig_b64: Seq<char>,
    header: JsonV,
    payload: JsonV,
    now: u64,
    entries: Map<Seq<u8>, Seq<Seq<u8>>>,
)
    requires
        signature_outcome(cfg, header_b64, payload_b64, sig_b64, header) is Err || (cfg.validate matches Some(v)
            && claims_outcome(payload, &v, now) is Err),
    ensures
        authorize_outcome(cfg, header_b64, payload_b64, sig_b64, header, payload, now, entries).0 is Err,
        authorize_outcome(cfg, header_b64, payload_b64, sig_b64, header, payload, now, entries).1 == entries,
{
}

proof fn lemma_injected_untouched(
    claims: Seq<(String, String)>,
    payload: JsonV,
    entries: Map<Seq<u8>, Seq<Seq<u8>>>,
    n: Seq<u8>,
)
    requires
        forall|j: int| 0 <= j < claims.len() ==> header_name(encode_utf8(claims[j].1@)) != Some(n),
    ensures
        injected(claims, payload, entries).1.contains_key(n) == entries.contains_key(n),
        injected(claims, payload, entries).1[n] == entries[n],
    decreases claims.len(),
{
    if claims.len() > 0 {
        let rest = claims.subrange(1, claims.len() as int);
        assert forall|j: int| 0 <= j < rest.len() implies header_name(encode_utf8(rest[j].1@)) != Some(n) by {
            assert(rest[j] == claims[j + 1]);
        }
        match member_of(payload, claims[0].0@) {
            None => lemma_injected_untouched(rest, payload, entries, n),
            Some(v) => {
                let value = encode_utf8(claim_value_text(v));
                match header_name(encode_utf8(claims[0].1@)) {
                    Some(k) => if header_value_ok(value) {
                        lemma_injected_untouched(rest, payload, entries.insert(k, seq![value]), n);
                    },
                    None => {},
                }
            },
        }
    }
}

/// With `strip_token` set, an accepted token that came from a header leaves
/// no such header behind, while a token from the query leaves the header of
/// that name as it was (when no claim is copied into a header of that name).
pub proof fn law_stripped_token_header_is_gone(
    cfg: &JwtConfig,
    header_b64: Seq<char>,
    payload_b64: Seq<char>,
    sig_b64: Seq<char>,
    header: JsonV,
    payload: JsonV,
    now: u64,
    entries: Map<Seq<u8>, Seq<Seq<u8>>>,
)
    requires
        authorize_outcome(cfg, header_b64, payload_b64, sig_b64, header, payload, now, entries).0 is Ok,
        cfg.strip_token,
        forall|j: int| 0 <= j < cfg.claims_to_headers@.len()
            ==> header_name(encode_utf8(cfg.claims_to_headers@[j].1@)) != header_name(encode_utf8(cfg.token_source.name@)),
    ensures
        cfg.token_source.from is Header ==> lookup(
            authorize_outcome(cfg, header_b64, payload_b64, sig_b64, header, payload, now, entries).1,
            encode_utf8(cfg.token_source.name@),
        ) is None,
        cfg.token_source.from is Query ==> lookup(
            authorize_outcome(cfg, header_b64, payload_b64, sig_b64, header, payload, now, entries).1,
            encode_utf8(cfg.token_source.name@),
        ) == lookup(entries, encode_utf8(cfg.token_source.name@)),
{
    let name = encode_utf8(cfg.token_source.name@);
    match header_name(name) {
        Some(n) => {
            lemma_injected_untouched(cfg.claims_to_headers@, payload, entries, n);
        },
        None => {},
    }
}

/// When copying a claim into a header fails, the token header is not
/// removed: the headers are those the copying left.
pub proof fn law_failed_copy_keeps_token_header(
    cfg: &JwtConfig,
    header_b64: Seq<char>,
    payload_b64: Seq<char>,
    sig_b64: Seq<char>,
    header: JsonV,
    payload: JsonV,
    now: u64,
    entries: Map<Seq<u8>, Seq<Seq<u8>>>,
)
    requires
        signature_outcome(cfg, header_b64, payload_b64, sig_b64, header) is Ok,
        cfg.validate matches Some(v) ==> claims_outcome(payload, &v, now) is Ok,
        injected(cfg.claims_to_headers@, payload, entries).0 is Err,
    ensures
        authorize_outcome(cfg, header_b64, payload_b64, sig_b64, header, payload, now, entries).0 is Err,
        authorize_outcome(cfg, header_b64, payload_b64, sig_b64, header, payload, now, entries).1
            == injected(cfg.claims_to_headers@, payload, entries).1,
{
}

} // verus!
