//! Adding and removing request and response headers.
use vstd::prelude::*;
use vstd::string::*;
use vstd::utf8::*;
use http::HeaderMap;
use crate::error::PluginError;
use crate::headers::{has_room, header_count, HEADER_NAMES_LIMIT, header_entries, header_insert, header_name, header_remove, header_value_ok, lookup, removed, HeaderError};
use crate::text::join4;

verus! {

/// The header operation plugin.
pub struct HeaderOperatorPlugin;

/// Headers to change on requests and on responses.
#[derive(Debug, Clone, PartialEq, Eq)]
pub struct HeaderConfig {
    /// Changes to request headers.
    pub request_headers: RequestHeaderConfig,
    /// Changes to response headers.
    pub response_headers: ResponseHeaderConfig,
}

/// Changes to request headers.
#[derive(Debug, Clone, PartialEq, Eq)]
pub struct RequestHeaderConfig {
    /// Name and value of each header to set, in the order applied.
    pub add_headers: Vec<(String, String)>,
    /// Names of the headers to remove.
    pub remove_headers: Vec<String>,
}

/// Changes to response headers.
#[derive(Debug, Clone, PartialEq, Eq)]
pub struct ResponseHeaderConfig {
    /// Name and value of each header to set, in the order applied.
    pub add_headers: Vec<(String, String)>,
    /// Names of the headers to remove.
    pub remove_headers: Vec<String>,
}

impl Default for RequestHeaderConfig {
    fn default() -> (r: Self)
        ensures
            r.add_headers@.len() == 0,
            r.remove_headers@.len() == 0,
    {
        RequestHeaderConfig { add_headers: Vec::new(), remove_headers: Vec::new() }
    }
}

impl Default for ResponseHeaderConfig {
    fn default() -> (r: Self)
        ensures
            r.add_headers@.len() == 0,
            r.remove_headers@.len() == 0,
    {
        ResponseHeaderConfig { add_headers: Vec::new(), remove_headers: Vec::new() }
    }
}

impl Default for HeaderConfig {
    fn default() -> (r: Self)
        ensures
            r.request_headers.add_headers@.len() == 0,
            r.request_headers.remove_headers@.len() == 0,
            r.response_headers.add_headers@.len() == 0,
            r.response_headers.remove_headers@.len() == 0,
    {
        HeaderConfig {
            request_headers: RequestHeaderConfig::default(),
            response_headers: ResponseHeaderConfig::default(),
        }
    }
}

/// The entries after removing each of `names`, first one first.
pub open spec fn removed_all(names: Seq<String>, entries: Map<Seq<u8>, Seq<Seq<u8>>>) -> Map<
    Seq<u8>,
    Seq<Seq<u8>>,
>
    decreases names.len(),
{
    if names.len() == 0 {
        entries
    } else {
        removed_all(names.subrange(1, names.len() as int), removed(entries, encode_utf8(names[0]@)))
    }
}

/// Setting each header of `adds` in turn: the outcome and the entries
/// afterwards. The first name or value that `http` refuses stops it.
pub open spec fn added_all(adds: Seq<(String, String)>, entries: Map<Seq<u8>, Seq<Seq<u8>>>) -> (
    Result<(), Seq<char>>,
    Map<Seq<u8>, Seq<Seq<u8>>>,
)
    decreases adds.len(),
{
    if adds.len() == 0 {
        (Ok(()), entries)
    } else {
        let key = adds[0].0@;
        let value = adds[0].1@;
        match header_name(encode_utf8(key)) {
            None => (Err("Invalid header name '"@ + key + "': "@ + "invalid HTTP header name"@), entries),
            Some(n) => if header_value_ok(encode_utf8(value)) {
                added_all(adds.subrange(1, adds.len() as int), entries.insert(n, seq![encode_utf8(value)]))
            } else {
                (Err("Invalid header value '"@ + value + "': "@ + "failed to parse header value"@), entries)
            },
        }
    }
}

/// The outcome of removing `remove` and then adding `add`, and the entries afterwards.
pub open spec fn operated(
    add: Seq<(String, String)>,
    remove: Seq<String>,
    entries: Map<Seq<u8>, Seq<Seq<u8>>>,
) -> (Result<(), Seq<char>>, Map<Seq<u8>, Seq<Seq<u8>>>) {
    added_all(add, removed_all(remove, entries))
}

/// Whether a result carries the same outcome as a spec result whose error
/// is the text of an `ExecuteError`.
pub open spec fn same_outcome(r: Result<(), PluginError>, s: Result<(), Seq<char>>) -> bool {
    match s {
        Ok(()) => r is Ok,
        Err(m) => r matches Err(e) && e.is_execute(m),
    }
}

fn remove_all(names: &Vec<String>, headers: &mut HeaderMap)
    ensures
        header_entries(*final(headers)) == removed_all(names@, header_entries(*old(headers))),
        header_count(*final(headers)) <= header_count(*old(headers)),
{
    let n = names.len();
    let mut i: usize = 0;
    assert(names@.subrange(0, n as int) =~= names@);
    while i < n
        invariant
            n == names@.len(),
            i <= n,
            removed_all(names@, header_entries(*old(headers))) == removed_all(
                names@.subrange(i as int, n as int),
                header_entries(*headers),
            ),
            header_count(*headers) <= header_count(*old(headers)),
        decreases n - i,
    {
        let ghost tail = names@.subrange(i as int, n as int);
        assert(tail.subrange(1, tail.len() as int) =~= names@.subrange(i + 1, n as int));
        header_remove(headers, names[i].as_str());
        i = i + 1;
    }
}

fn add_all(adds: &Vec<(String, String)>, headers: &mut HeaderMap) -> (r: Result<(), PluginError>)
    requires
        header_count(*old(headers)) + adds@.len() < HEADER_NAMES_LIMIT,
    ensures
        same_outcome(r, added_all(adds@, header_entries(*old(headers))).0),
        header_entries(*final(headers)) == added_all(adds@, header_entries(*old(headers))).1,
{
    let ghost count0 = header_count(*headers);
    let n = adds.len();
    let mut i: usize = 0;
    assert(adds@.subrange(0, n as int) =~= adds@);
    while i < n
        invariant
            n == adds@.len(),
            i <= n,
            added_all(adds@, header_entries(*old(headers))) == added_all(
                adds@.subrange(i as int, n as int),
                header_entries(*headers),
            ),
            count0 == header_count(*old(headers)),
            header_count(*headers) <= count0 + i,
            count0 + n < HEADER_NAMES_LIMIT,
        decreases n - i,
    {
        let ghost tail = adds@.subrange(i as int, n as int);
        assert(tail.subrange(1, tail.len() as int) =~= adds@.subrange(i + 1, n as int));
        assert(tail[0] == adds@[i as int]);
        let key = &adds[i].0;
        let value = &adds[i].1;
        match header_insert(headers, key.as_str(), value.as_str()) {
            Ok(()) => {},
            Err(e) => {
                let t = e.text();
                return match e {
                    HeaderError::InvalidName => Err(PluginError::ExecuteError(join4("Invalid header name '", key.as_str(), "': ", t.as_str()))),
                    HeaderError::InvalidValue => Err(PluginError::ExecuteError(join4("Invalid header value '", value.as_str(), "': ", t.as_str()))),
                };
            },
        }
        i = i + 1;
    }
    Ok(())
}

fn operate(add: &Vec<(String, String)>, remove: &Vec<String>, headers: &mut HeaderMap) -> (r: Result<(), PluginError>)
    requires
        header_count(*old(headers)) + add@.len() < HEADER_NAMES_LIMIT,
    ensures
        same_outcome(r, operated(add@, remove@, header_entries(*old(headers))).0),
        header_entries(*final(headers)) == operated(add@, remove@, header_entries(*old(headers))).1,
{
    remove_all(remove, headers);
    add_all(add, headers)
}

impl HeaderOperatorPlugin {
    /// The plugin.
    pub fn new() -> (r: Self) {
        HeaderOperatorPlugin
    }

    /// The plugin's name.
    pub fn name(&self) -> (r: &'static str)
        ensures
            r@ == "header-operator"@,
    {
        "header-operator"
    }

    /// Removes, then sets, the configured request headers.
    pub fn on_request(&self, config: &HeaderConfig, headers: &mut HeaderMap) -> (r: Result<(), PluginError>)
        requires
            header_count(*old(headers)) + config.request_headers.add_headers@.len() < HEADER_NAMES_LIMIT,
        ensures
            same_outcome(
                r,
                operated(
                    config.request_headers.add_headers@,
                    config.request_headers.remove_headers@,
                    header_entries(*old(headers)),
                ).0,
            ),
            header_entries(*final(headers)) == operated(
                config.request_headers.add_headers@,
                config.request_headers.remove_headers@,
                header_entries(*old(headers)),
            ).1,
    {
        operate(&config.request_headers.add_headers, &config.request_headers.remove_headers, headers)
    }

    /// Removes, then sets, the configured response headers.
    pub fn on_response(&self, config: &HeaderConfig, headers: &mut HeaderMap) -> (r: Result<(), PluginError>)
        requires
            header_count(*old(headers)) + config.response_headers.add_headers@.len() < HEADER_NAMES_LIMIT,
        ensures
            same_outcome(
                r,
                operated(
                    config.response_headers.add_headers@,
                    config.response_headers.remove_headers@,
                    header_entries(*old(headers)),
                ).0,
            ),
            header_entries(*final(headers)) == operated(
                config.response_headers.add_headers@,
                config.response_headers.remove_headers@,
                header_entries(*old(headers)),
            ).1,
    {
        operate(&config.response_headers.add_headers, &config.response_headers.remove_headers, headers)
    }

    /// `on_request` when the map has room for the headers to set; `None`,
    /// with the headers untouched, when it has not.
    pub fn try_on_request(&self, config: &HeaderConfig, headers: &mut HeaderMap) -> (r: Option<Result<(), PluginError>>)
        ensures
            header_count(*old(headers)) + config.request_headers.add_headers@.len() < HEADER_NAMES_LIMIT ==> {
                &&& r matches Some(x) && same_outcome(
                    x,
                    operated(
                        config.request_headers.add_headers@,
                        config.request_headers.remove_headers@,
                        header_entries(*old(headers)),
                    ).0,
                )
                &&& header_entries(*final(headers)) == operated(
                    config.request_headers.add_headers@,
                    config.request_headers.remove_headers@,
                    header_entries(*old(headers)),
                ).1
            },
            !(header_count(*old(headers)) + config.request_headers.add_headers@.len() < HEADER_NAMES_LIMIT) ==> {
                &&& r is None
                &&& *final(headers) == *old(headers)
            },
    {
        if has_room(headers, config.request_headers.add_headers.len()) {
            Some(self.on_request(config, headers))
        } else {
            None
        }
    }

    /// `on_response` when the map has room for the headers to set; `None`,
    /// with the headers untouched, when it has not.
    pub fn try_on_response(&self, config: &HeaderConfig, headers: &mut HeaderMap) -> (r: Option<Result<(), PluginError>>)
        ensures
            header_count(*old(headers)) + config.response_headers.add_headers@.len() < HEADER_NAMES_LIMIT ==> {
                &&& r matches Some(x) && same_outcome(
                    x,
                    operated(
                        config.response_headers.add_headers@,
                        config.response_headers.remove_headers@,
                        header_entries(*old(headers)),
                    ).0,
                )
                &&& header_entries(*final(headers)) == operated(
                    config.response_headers.add_headers@,
                    config.response_headers.remove_headers@,
                    header_entries(*old(headers)),
                ).1
            },
            !(header_count(*old(headers)) + config.response_headers.add_headers@.len() < HEADER_NAMES_LIMIT) ==> {
                &&& r is None
                &&& *final(headers) == *old(headers)
            },
    {
        if has_room(headers, config.response_headers.add_headers.len()) {
            Some(self.on_response(config, headers))
        } else {
            None
        }
    }
}


proof fn lemma_added_untouched(adds: Seq<(String, String)>, entries: Map<Seq<u8>, Seq<Seq<u8>>>, n: Seq<u8>)
    requires
        forall|j: int| 0 <= j < adds.len() ==> header_name(encode_utf8(adds[j].0@)) != Some(n),
    ensures
        added_all(adds, entries).1.contains_key(n) == entries.contains_key(n),
        added_all(adds, entries).1[n] == entries[n],
    decreases adds.len(),
{
    if adds.len() > 0 {
        let rest = adds.subrange(1, adds.len() as int);
        match header_name(encode_utf8(adds[0].0@)) {
            Some(k) => {
                if header_value_ok(encode_utf8(adds[0].1@)) {
                    let e2 = entries.insert(k, seq![encode_utf8(adds[0].1@)]);
                    assert forall|j: int| 0 <= j < rest.len() implies header_name(encode_utf8(rest[j].0@)) != Some(n) by {
                        assert(rest[j] == adds[j + 1]);
                    }
                    lemma_added_untouched(rest, e2, n);
                }
            },
            None => {},
        }
    }
}

proof fn lemma_added_at(adds: Seq<(String, String)>, entries: Map<Seq<u8>, Seq<Seq<u8>>>, i: int)
    requires
        added_all(adds, entries).0 is Ok,
        0 <= i < adds.len(),
        forall|j: int| i < j < adds.len() ==> header_name(encode_utf8(adds[j].0@)) != header_name(encode_utf8(adds[i].0@)),
    ensures
        header_name(encode_utf8(adds[i].0@)) is Some,
        added_all(adds, entries).1.contains_key(header_name(encode_utf8(adds[i].0@))->0),
        added_all(adds, entries).1[header_name(encode_utf8(adds[i].0@))->0] == seq![encode_utf8(adds[i].1@)],
    decreases adds.len(),
{
    let rest = adds.subrange(1, adds.len() as int);
    let k = header_name(encode_utf8(adds[0].0@))->0;
    let e2 = entries.insert(k, seq![encode_utf8(adds[0].1@)]);
    if i == 0 {
        assert forall|j: int| 0 <= j < rest.len() implies header_name(encode_utf8(rest[j].0@)) != Some(k) by {
            assert(rest[j] == adds[j + 1]);
        }
        lemma_added_untouched(rest, e2, k);
    } else {
        assert(rest[i - 1] == adds[i]);
        assert forall|j: int| i - 1 < j < rest.len() implies header_name(encode_utf8(#[trigger] rest[j].0@)) != header_name(encode_utf8(rest[i - 1].0@)) by {
            assert(rest[j] == adds[j + 1]);
        }
        lemma_added_at(rest, e2, i - 1);
    }
}

proof fn lemma_removed_all(names: Seq<String>, entries: Map<Seq<u8>, Seq<Seq<u8>>>, n: Seq<u8>)
    ensures
        (exists|j: int| 0 <= j < names.len() && header_name(encode_utf8(names[j]@)) == Some(n))
            ==> !removed_all(names, entries).contains_key(n),
        (forall|j: int| 0 <= j < names.len() ==> header_name(encode_utf8(names[j]@)) != Some(n))
            ==> removed_all(names, entries).contains_key(n) == entries.contains_key(n)
            && removed_all(names, entries)[n] == entries[n],
    decreases names.len(),
{
    if names.len() > 0 {
        let rest = names.subrange(1, names.len() as int);
        let e2 = removed(entries, encode_utf8(names[0]@));
        lemma_removed_all(rest, e2, n);
        if exists|j: int| 0 <= j < names.len() && header_name(encode_utf8(names[j]@)) == Some(n) {
            let j = choose|j: int| 0 <= j < names.len() && header_name(encode_utf8(names[j]@)) == Some(n);
            if j > 0 {
                assert(rest[j - 1] == names[j]);
            } else {
                assert(!e2.contains_key(n));
                lemma_removed_absent(rest, e2, n);
            }
        } else {
            assert forall|j: int| 0 <= j < rest.len() implies header_name(encode_utf8(rest[j]@)) != Some(n) by {
                assert(rest[j] == names[j + 1]);
            }
        }
    }
}

proof fn lemma_removed_absent(names: Seq<String>, entries: Map<Seq<u8>, Seq<Seq<u8>>>, n: Seq<u8>)
    requires
        !entries.contains_key(n),
    ensures
        !removed_all(names, entries).contains_key(n),
    decreases names.len(),
{
    if names.len() > 0 {
        lemma_removed_absent(names.subrange(1, names.len() as int), removed(entries, encode_utf8(names[0]@)), n);
    }
}

/// A header that the plugin sets reads back as the value it was set to,
/// unless a later header in the list has the same (normalized) name.
pub proof fn law_added_header_reads_back(
    add: Seq<(String, String)>,
    remove: Seq<String>,
    entries: Map<Seq<u8>, Seq<Seq<u8>>>,
    i: int,
)
    requires
        operated(add, remove, entries).0 is Ok,
        0 <= i < add.len(),
        forall|j: int| i < j < add.len() ==> header_name(encode_utf8(add[j].0@)) != header_name(encode_utf8(add[i].0@)),
    ensures
        lookup(operated(add, remove, entries).1, encode_utf8(add[i].0@)) == Some(encode_utf8(add[i].1@)),
{
    lemma_added_at(add, removed_all(remove, entries), i);
}

/// A header that the plugin removes and does not set again is gone
/// afterwards, whatever values it had.
pub proof fn law_removed_header_is_gone(
    add: Seq<(String, String)>,
    remove: Seq<String>,
    entries: Map<Seq<u8>, Seq<Seq<u8>>>,
    i: int,
)
    requires
        0 <= i < remove.len(),
        forall|j: int| 0 <= j < add.len() ==> header_name(encode_utf8(add[j].0@)) != header_name(encode_utf8(remove[i]@)),
    ensures
        lookup(operated(add, remove, entries).1, encode_utf8(remove[i]@)) is None,
{
    match header_name(encode_utf8(remove[i]@)) {
        Some(n) => {
            lemma_removed_all(remove, entries, n);
            lemma_added_untouched(add, removed_all(remove, entries), n);
        },
        None => {},
    }
}

/// Headers the plugin neither removes nor sets keep their values.
pub proof fn law_other_headers_untouched(
    add: Seq<(String, String)>,
    remove: Seq<String>,
    entries: Map<Seq<u8>, Seq<Seq<u8>>>,
    name: Seq<u8>,
)
    requires
        forall|j: int| 0 <= j < add.len() ==> header_name(encode_utf8(add[j].0@)) != header_name(name),
        forall|j: int| 0 <= j < remove.len() ==> header_name(encode_utf8(remove[j]@)) != header_name(name),
    ensures
        lookup(operated(add, remove, entries).1, name) == lookup(entries, name),
{
    match header_name(name) {
        Some(n) => {
            lemma_removed_all(remove, entries, n);
            lemma_added_untouched(add, removed_all(remove, entries), n);
        },
        None => {},
    }
}

} // verus!
