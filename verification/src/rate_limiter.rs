//! Request rate limiting with a sliding window per key (path, client IP or
//! a chosen header's value).
use vstd::prelude::*;
use vstd::string::*;
use vstd::utf8::*;
use http::HeaderMap;
use crate::error::PluginError;
use crate::headers::{header_entries, header_text, lookup_text};
use crate::json::str_equal;
use crate::text::{join2, join3, owned, text_before, trim, trim_ascii, before};

verus! {

/// What a request is counted by.
#[derive(Debug, Clone, PartialEq, Eq)]
pub enum Strategy {
    /// The request path.
    Path,
    /// The client IP address.
    Ip,
    /// The value of a chosen header.
    Header,
}

/// The plugin's configuration.
#[derive(Debug, Clone, PartialEq, Eq)]
pub struct RateLimitConfig {
    /// What requests are counted by.
    pub strategy: Strategy,
    /// Most requests admitted per window.
    pub max_requests: u64,
    /// Window length in seconds.
    pub window: u64,
    /// Header counted by under `Strategy::Header`.
    pub header_name: Option<String>,
    /// Header that carries the client IP.
    pub ip_header: String,
    /// Status code of a refusal.
    pub status_code: u16,
    /// Body of a refusal.
    pub response_body: String,
}

/// Default window length: 60 seconds.
pub fn default_window() -> (r: u64)
    ensures
        r == 60,
{
    60
}

/// Default client IP header: `X-Forwarded-For`.
pub fn default_ip_header() -> (r: String)
    ensures
        r@ == "X-Forwarded-For"@,
{
    String::from_str("X-Forwarded-For")
}

/// Default refusal status: 429.
pub fn default_status_code() -> (r: u16)
    ensures
        r == 429,
{
    429
}

/// Default refusal body: `Too Many Requests`.
pub fn default_response_body() -> (r: String)
    ensures
        r@ == "Too Many Requests"@,
{
    String::from_str("Too Many Requests")
}

impl Default for RateLimitConfig {
    fn default() -> (r: Self)
        ensures
            r.strategy is Ip,
            r.max_requests == 100,
            r.window == 60,
            r.header_name is None,
            r.ip_header@ == "X-Forwarded-For"@,
            r.status_code == 429,
            r.response_body@ == "Too Many Requests"@,
    {
        RateLimitConfig {
            strategy: Strategy::Ip,
            max_requests: 100,
            window: 60,
            header_name: None,
            ip_header: String::from_str("X-Forwarded-For"),
            status_code: 429,
            response_body: String::from_str("Too Many Requests"),
        }
    }
}

/// Timestamps at or below this one (milliseconds) have left the window
/// that ends at `now_ms`.
pub open spec fn cutoff(window_secs: u64, now_ms: u64) -> u64 {
    now_ms.saturating_sub(window_secs.wrapping_mul(1000))
}

/// The timestamps still inside the window.
pub open spec fn live(ts: Seq<u64>, cut: u64) -> Seq<u64> {
    ts.filter(|t: u64| t > cut)
}

/// Whether a request at `now_ms` is admitted, given the timestamps of the
/// requests admitted before it under the same key.
pub open spec fn admits(ts: Seq<u64>, max_requests: u64, window_secs: u64, now_ms: u64) -> bool {
    live(ts, cutoff(window_secs, now_ms)).len() < max_requests
}

/// The timestamps kept for the key after the request at `now_ms`.
pub open spec fn after_request(ts: Seq<u64>, max_requests: u64, window_secs: u64, now_ms: u64) -> Seq<
    u64,
> {
    let kept = live(ts, cutoff(window_secs, now_ms));
    if kept.len() < max_requests {
        kept.push(now_ms)
    } else {
        kept
    }
}

/// The admitted request timestamps of every key seen so far.
struct SlidingWindowState {
    records: Vec<(String, Vec<u64>)>,
}

impl SlidingWindowState {
    #[verifier::type_invariant]
    spec fn keys_distinct(&self) -> bool {
        forall|i: int, j: int|
            0 <= i < j < self.records@.len() ==> self.records@[i].0@ != self.records@[j].0@
    }

    spec fn timestamps(&self, key: Seq<char>) -> Seq<u64> {
        ts_of(self.records@, key)
    }
}

/// The timestamps recorded under `key`; none for a key never seen.
spec fn ts_of(records: Seq<(String, Vec<u64>)>, key: Seq<char>) -> Seq<u64> {
    if exists|i: int| 0 <= i < records.len() && records[i].0@ == key {
        let i = choose|i: int| 0 <= i < records.len() && records[i].0@ == key;
        records[i].1@
    } else {
        Seq::empty()
    }
}

proof fn lemma_timestamps_at(records: Seq<(String, Vec<u64>)>, i: int, key: Seq<char>)
    requires
        forall|a: int, b: int| 0 <= a < b < records.len() ==> records[a].0@ != records[b].0@,
        0 <= i < records.len(),
        records[i].0@ == key,
    ensures
        ts_of(records, key) == records[i].1@,
        exists|j: int| 0 <= j < records.len() && records[j].0@ == key,
        (choose|j: int| 0 <= j < records.len() && records[j].0@ == key) == i,
{
    let j = choose|j: int| 0 <= j < records.len() && records[j].0@ == key;
    if j < i {
        assert(records[j].0@ != records[i].0@);
    } else if j > i {
        assert(records[i].0@ != records[j].0@);
    }
}

fn find_key(records: &Vec<(String, Vec<u64>)>, key: &str) -> (r: Option<usize>)
    ensures
        match r {
            Some(i) => i < records@.len() && records@[i as int].0@ == key@,
            None => forall|j: int| 0 <= j < records@.len() ==> records@[j].0@ != key@,
        },
{
    let n = records.len();
    let mut i: usize = 0;
    while i < n
        invariant
            n == records@.len(),
            i <= n,
            forall|j: int| 0 <= j < i ==> records@[j].0@ != key@,
        decreases n - i,
    {
        if str_equal(records[i].0.as_str(), key) {
            return Some(i);
        }
        i = i + 1;
    }
    None
}

/// The timestamps of `ts` later than `cut`, in order (`retain(|&t| t > cut)`).
fn keep_after(ts: &Vec<u64>, cut: u64) -> (r: Vec<u64>)
    ensures
        r@ == live(ts@, cut),
{
    let n = ts.len();
    let mut out: Vec<u64> = Vec::new();
    let mut i: usize = 0;
    while i < n
        invariant
            n == ts@.len(),
            i <= n,
            out@ == live(ts@.take(i as int), cut),
        decreases n - i,
    {
        proof {
            reveal_with_fuel(Seq::filter, 1);
            assert(ts@.take(i + 1).drop_last() =~= ts@.take(i as int));
        }
        if ts[i] > cut {
            out.push(ts[i]);
        }
        i = i + 1;
    }
    assert(ts@.take(n as int) =~= ts@);
    out
}

impl SlidingWindowState {
    fn new() -> (r: Self)
        ensures
            forall|k: Seq<char>| r.timestamps(k) == Seq::<u64>::empty(),
    {
        SlidingWindowState { records: Vec::new() }
    }

    fn check(&mut self, key: &str, max_requests: u64, window_secs: u64, now_ms: u64) -> (r: bool)
        ensures
            r == admits(old(self).timestamps(key@), max_requests, window_secs, now_ms),
            final(self).timestamps(key@) == after_request(
                old(self).timestamps(key@),
                max_requests,
                window_secs,
                now_ms,
            ),
            forall|k: Seq<char>| k != key@ ==> final(self).timestamps(k) == old(self).timestamps(k),
    {
        proof {
            use_type_invariant(&*self);
        }
        let ghost before = self.timestamps(key@);
        let ghost old_records = self.records@;
        let window_ms = window_secs.wrapping_mul(1000);
        let cut = now_ms.saturating_sub(window_ms);
        let mut records: Vec<(String, Vec<u64>)> = Vec::new();
        std::mem::swap(&mut records, &mut self.records);
        assert(records@ == old_records);
        let found = find_key(&records, key);
        let mut kept = match found {
            Some(i) => keep_after(&records[i].1, cut),
            None => Vec::new(),
        };
        proof {
            match found {
                Some(i) => {
                    lemma_timestamps_at(old_records, i as int, key@);
                },
                None => {
                    reveal_with_fuel(Seq::filter, 1);
                    assert(live(Seq::<u64>::empty(), cut) =~= Seq::<u64>::empty());
                },
            }
            assert(kept@ == live(before, cut));
        }
        let admitted = (kept.len() as u64) < max_requests;
        if admitted {
            kept.push(now_ms);
        }
        let ghost new_ts = kept@;
        assert(new_ts == after_request(before, max_requests, window_secs, now_ms));
        match found {
            Some(i) => {
                records.set(i, (String::from_str(key), kept));
            },
            None => {
                records.push((String::from_str(key), kept));
            },
        }
        let ghost new_records = records@;
        assert forall|a: int, b: int|
            0 <= a < b < new_records.len() implies new_records[a].0@ != new_records[b].0@ by {
            if a < old_records.len() && b < old_records.len() {
                if found is Some {
                    let i = found->0 as int;
                    if a != i && b != i {
                        assert(new_records[a] == old_records[a]);
                        assert(new_records[b] == old_records[b]);
                    } else if a == i {
                        assert(new_records[b] == old_records[b]);
                        assert(old_records[a].0@ != old_records[b].0@);
                    } else {
                        assert(new_records[a] == old_records[a]);
                        assert(old_records[a].0@ != old_records[b].0@);
                    }
                } else {
                    assert(new_records[a] == old_records[a]);
                    assert(new_records[b] == old_records[b]);
                }
            }
        }
        self.records = records;
        proof {
            let idx: int = match found {
                Some(i) => i as int,
                None => old_records.len() as int,
            };
            assert(new_records[idx].0@ == key@);
            lemma_timestamps_at(new_records, idx, key@);
            assert(self.timestamps(key@) == new_ts);
            assert forall|k: Seq<char>| k != key@ implies self.timestamps(k) == ts_of(old_records, k) by {
                if exists|j: int| 0 <= j < old_records.len() && old_records[j].0@ == k {
                    let j = choose|j: int| 0 <= j < old_records.len() && old_records[j].0@ == k;
                    lemma_timestamps_at(old_records, j, k);
                    assert(new_records[j] == old_records[j]);
                    lemma_timestamps_at(new_records, j, k);
                } else {
                    assert forall|j: int| 0 <= j < new_records.len() implies new_records[j].0@ != k by {
                        if j != idx {
                            assert(new_records[j] == old_records[j]);
                        }
                    }
                }
            }
        }
        admitted
    }
}



/// The key a request is counted under under `config`, or the text of the
/// error that stops it.
pub open spec fn request_key(
    config: &RateLimitConfig,
    path: Seq<char>,
    entries: Map<Seq<u8>, Seq<Seq<u8>>>,
) -> Result<Seq<char>, Seq<char>> {
    match config.strategy {
        Strategy::Path => Ok(path),
        Strategy::Ip => {
            let found = match lookup_text(entries, encode_utf8(config.ip_header@)) {
                Some(t) => Some(trim(before(t, ','))),
                None => lookup_text(entries, encode_utf8("X-Real-IP"@)),
            };
            match found {
                Some(ip) => if ip.len() > 0 {
                    Ok(ip)
                } else {
                    Err(client_ip_missing(config.ip_header@))
                },
                None => Err(client_ip_missing(config.ip_header@)),
            }
        },
        Strategy::Header => match config.header_name {
            None => Err("header_name is required for Header strategy"@),
            Some(h) => match lookup_text(entries, encode_utf8(h@)) {
                Some(v) => Ok(h@ + ":"@ + v),
                None => Err("Header '"@ + h@ + "' not found for rate limiting"@),
            },
        },
    }
}

/// The error text when no client IP can be read.
pub open spec fn client_ip_missing(ip_header: Seq<char>) -> Seq<char> {
    "Cannot determine client IP: '"@ + ip_header + "' header not found"@
}

/// The rate limiting plugin: it keeps, for each key, the timestamps of the
/// requests it admitted that are still inside the window.
pub struct RateLimiterPlugin {
    state: SlidingWindowState,
}

impl RateLimiterPlugin {
    /// The timestamps (milliseconds) of the admitted requests kept under `key`.
    pub closed spec fn window_of(&self, key: Seq<char>) -> Seq<u64> {
        self.state.timestamps(key)
    }

    /// A limiter that has seen no request.
    pub fn new() -> (r: Self)
        ensures
            forall|k: Seq<char>| r.window_of(k) == Seq::<u64>::empty(),
    {
        RateLimiterPlugin { state: SlidingWindowState::new() }
    }

    /// The plugin's name.
    pub fn name(&self) -> (r: &'static str)
        ensures
            r@ == "rate-limiter"@,
    {
        "rate-limiter"
    }

    /// Whether a request under `key` at `now_ms` is admitted (sliding window
    /// of `window_secs` seconds, at most `max_requests` requests in it); an
    /// admitted request is recorded.
    pub fn check_rate_limit(&mut self, key: &str, max_requests: u64, window_secs: u64, now_ms: u64) -> (r: bool)
        ensures
            r == admits(old(self).window_of(key@), max_requests, window_secs, now_ms),
            final(self).window_of(key@) == after_request(
                old(self).window_of(key@),
                max_requests,
                window_secs,
                now_ms,
            ),
            forall|k: Seq<char>| k != key@ ==> final(self).window_of(k) == old(self).window_of(k),
    {
        self.state.check(key, max_requests, window_secs, now_ms)
    }

    /// The key a request is counted under.
    pub fn extract_key(&self, config: &RateLimitConfig, path: &str, headers: &HeaderMap) -> (r: Result<String, PluginError>)
        ensures
            match request_key(config, path@, header_entries(*headers)) {
                Ok(k) => r matches Ok(s) && s@ == k,
                Err(m) => r matches Err(e) && e.is_execute(m),
            },
    {
        match config.strategy {
            Strategy::Path => Ok(owned(path)),
            Strategy::Ip => {
                let found = match header_text(headers, config.ip_header.as_str()) {
                    Some(v) => Some(trim_ascii(text_before(v.as_str(), ','))),
                    None => header_text(headers, "X-Real-IP"),
                };
                match found {
                    Some(ip) => {
                        if ip.as_str().is_empty() {
                            Err(PluginError::ExecuteError(join3("Cannot determine client IP: '", config.ip_header.as_str(), "' header not found")))
                        } else {
                            Ok(ip)
                        }
                    },
                    None => Err(PluginError::ExecuteError(join3("Cannot determine client IP: '", config.ip_header.as_str(), "' header not found"))),
                }
            },
            Strategy::Header => {
                match &config.header_name {
                    None => Err(PluginError::ExecuteError(owned("header_name is required for Header strategy"))),
                    Some(h) => match header_text(headers, h.as_str()) {
                        Some(v) => Ok(join3(h.as_str(), ":", v.as_str())),
                        None => Err(PluginError::ExecuteError(join3("Header '", h.as_str(), "' not found for rate limiting"))),
                    },
                }
            },
        }
    }

    /// Counts the request under its key and refuses it when the window is full.
    /// `now_ms` is the request's timestamp in milliseconds.
    pub fn on_request(&mut self, config: &RateLimitConfig, path: &str, headers: &HeaderMap, now_ms: u64) -> (r: Result<(), PluginError>)
        ensures
            match request_key(config, path@, header_entries(*headers)) {
                Err(m) => {
                    &&& r matches Err(e) && e.is_execute(m)
                    &&& forall|k: Seq<char>| final(self).window_of(k) == old(self).window_of(k)
                },
                Ok(key) => {
                    &&& final(self).window_of(key) == after_request(
                        old(self).window_of(key),
                        config.max_requests,
                        config.window,
                        now_ms,
                    )
                    &&& forall|k: Seq<char>| k != key ==> final(self).window_of(k) == old(self).window_of(k)
                    &&& if admits(old(self).window_of(key), config.max_requests, config.window, now_ms) {
                        r is Ok
                    } else {
                        r matches Err(PluginError::Reject(code, body)) && code == config.status_code
                            && body@ == config.response_body@
                    }
                },
            },
    {
        let key = match self.extract_key(config, path, headers) {
            Ok(k) => k,
            Err(e) => return Err(e),
        };
        if !self.check_rate_limit(key.as_str(), config.max_requests, config.window, now_ms) {
            return Err(PluginError::Reject(config.status_code, config.response_body.clone()));
        }
        Ok(())
    }
}

/// A key never holds more than `max_requests` admitted requests: if it held
/// at most that many before a request, it holds at most that many after.
pub proof fn law_window_bounded(ts: Seq<u64>, max_requests: u64, window_secs: u64, now_ms: u64)
    requires
        ts.len() <= max_requests,
    ensures
        after_request(ts, max_requests, window_secs, now_ms).len() <= max_requests,
{
    broadcast use vstd::seq_lib::group_filter_ensures;
    let kept = live(ts, cutoff(window_secs, now_ms));
    assert(kept.len() <= ts.len());
}

/// A refused request leaves no trace: only expired timestamps are dropped.
pub proof fn law_refusal_records_nothing(ts: Seq<u64>, max_requests: u64, window_secs: u64, now_ms: u64)
    requires
        !admits(ts, max_requests, window_secs, now_ms),
    ensures
        after_request(ts, max_requests, window_secs, now_ms) == live(ts, cutoff(window_secs, now_ms)),
        after_request(ts, max_requests, window_secs, now_ms).len() >= max_requests,
{
}

/// With a limit of zero every request is refused.
pub proof fn law_zero_limit_refuses(ts: Seq<u64>, window_secs: u64, now_ms: u64)
    ensures
        !admits(ts, 0, window_secs, now_ms),
{
}

/// Requests that have left the window no longer count: when every recorded
/// timestamp is at or below the cutoff, the request is admitted exactly when
/// the limit is above zero, and it is then the only one kept.
pub proof fn law_expired_requests_free_the_window(ts: Seq<u64>, max_requests: u64, window_secs: u64, now_ms: u64)
    requires
        forall|i: int| 0 <= i < ts.len() ==> ts[i] <= cutoff(window_secs, now_ms),
    ensures
        admits(ts, max_requests, window_secs, now_ms) == (max_requests > 0),
        max_requests > 0 ==> after_request(ts, max_requests, window_secs, now_ms) == seq![now_ms],
{
    let cut = cutoff(window_secs, now_ms);
    ts.lemma_all_neg_filter_empty(|t: u64| t > cut);
    let kept = live(ts, cut);
    assert(kept.len() == 0);
    assert(kept.push(now_ms) =~= seq![now_ms]);
}

/// The windows of all keys after the calls `(key, max_requests,
/// window_secs, now_ms)` made in order on one plugin whose windows were `w`:
/// each call updates its own key's window as `check_rate_limit` does.
pub open spec fn replay(
    w: spec_fn(Seq<char>) -> Seq<u64>,
    calls: Seq<(Seq<char>, u64, u64, u64)>,
) -> spec_fn(Seq<char>) -> Seq<u64>
    decreases calls.len(),
{
    if calls.len() == 0 {
        w
    } else {
        let prev = replay(w, calls.drop_last());
        let c = calls.last();
        |k: Seq<char>| if k == c.0 { after_request(prev(k), c.1, c.2, c.3) } else { prev(k) }
    }
}

/// The window of `key`, starting from `ts`, after only those of the calls
/// that were made under `key`.
pub open spec fn replay_key(ts: Seq<u64>, key: Seq<char>, calls: Seq<(Seq<char>, u64, u64, u64)>) -> Seq<u64>
    decreases calls.len(),
{
    if calls.len() == 0 {
        ts
    } else {
        let prev = replay_key(ts, key, calls.drop_last());
        let c = calls.last();
        if c.0 == key {
            after_request(prev, c.1, c.2, c.3)
        } else {
            prev
        }
    }
}

/// One call of `check_rate_limit` is one step of `replay`: its contract
/// changes the called key's window as `after_request` says and no other.
pub proof fn law_one_call_is_one_step(
    before: spec_fn(Seq<char>) -> Seq<u64>,
    after: spec_fn(Seq<char>) -> Seq<u64>,
    call: (Seq<char>, u64, u64, u64),
)
    requires
        after(call.0) == after_request(before(call.0), call.1, call.2, call.3),
        forall|k: Seq<char>| k != call.0 ==> #[trigger] after(k) == before(k),
    ensures
        after == replay(before, seq![call]),
{
    let calls = seq![call];
    assert(calls.drop_last() =~= Seq::<(Seq<char>, u64, u64, u64)>::empty());
    assert(replay(before, calls.drop_last()) == before);
    assert(calls.last() == call);
    assert forall|k: Seq<char>| #[trigger] after(k) == replay(before, calls)(k) by {
        if k != call.0 {
            assert(after(k) == before(k));
        }
    }
    assert(after =~= replay(before, calls));
}

/// Limits are kept per key: after any sequence of calls, a key's window is
/// what the calls under that key alone make of it, whatever calls were made
/// under other keys in between. (The windows belong to the plugin value, so
/// separate plugins count separately.)
pub proof fn law_keys_are_independent(
    w: spec_fn(Seq<char>) -> Seq<u64>,
    calls: Seq<(Seq<char>, u64, u64, u64)>,
    key: Seq<char>,
)
    ensures
        replay(w, calls)(key) == replay_key(w(key), key, calls),
    decreases calls.len(),
{
    if calls.len() > 0 {
        law_keys_are_independent(w, calls.drop_last(), key);
    }
}

/// A request under a key only ever keeps timestamps that were already there
/// and still inside the window, or its own.
pub proof fn law_kept_timestamps_come_from_requests(ts: Seq<u64>, max_requests: u64, window_secs: u64, now_ms: u64, t: u64)
    requires
        after_request(ts, max_requests, window_secs, now_ms).contains(t),
    ensures
        ts.contains(t) && t > cutoff(window_secs, now_ms) || t == now_ms,
{
    broadcast use vstd::seq_lib::group_filter_ensures;
    let cut = cutoff(window_secs, now_ms);
    let kept = live(ts, cut);
    if kept.contains(t) {
        let i = choose|i: int| 0 <= i < kept.len() && kept[i] == t;
        assert(kept[i] > cut);
        ts.lemma_filter_contains_rev(|x: u64| x > cut, t);
    } else {
        let out = after_request(ts, max_requests, window_secs, now_ms);
        let i = choose|i: int| 0 <= i < out.len() && out[i] == t;
        if kept.len() < max_requests {
            if i < kept.len() {
                assert(kept.contains(out[i]));
            }
        } else {
            assert(kept.contains(out[i]));
        }
    }
}

} // verus!
