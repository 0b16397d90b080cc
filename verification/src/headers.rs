//! The HTTP header map of a request or response head (`http::HeaderMap`),
//! held behind trusted items whose contracts follow the `http` crate's source.
use vstd::prelude::*;
use vstd::string::*;
use vstd::utf8::*;
use http::{HeaderMap, HeaderName, HeaderValue};

verus! {

#[verifier::external_type_specification]
#[verifier::external_body]
pub struct ExHeaderValue(HeaderValue);

#[verifier::external_type_specification]
#[verifier::external_body]
#[verifier::reject_recursive_types(T)]
pub struct ExHeaderMap<T>(HeaderMap<T>);

/// What a header map holds: for each header name, in its normalized
/// (lower-case) byte form, the values stored under it, first one first.
pub uninterp spec fn header_entries(map: HeaderMap) -> Map<Seq<u8>, Seq<Seq<u8>>>;

/// How many distinct names the map holds (`HeaderMap::keys_len`).
pub uninterp spec fn header_count(map: HeaderMap) -> nat;

/// A byte of a header name as `http` normalizes it: token characters are
/// kept, upper-case letters are lowered, every other byte is refused.
pub open spec fn name_byte(b: u8) -> Option<u8> {
    if 65 <= b <= 90 {
        Some((b + 32) as u8)
    } else if (97 <= b <= 122) || (48 <= b <= 57) || b == 33 || (35 <= b <= 39) || b == 42
        || b == 43 || b == 45 || b == 46 || b == 94 || b == 95 || b == 96 || b == 124
        || b == 126 {
        Some(b)
    } else {
        None
    }
}

/// The normalized header name for `bytes`: defined when `bytes` is a
/// non-empty token of at most 65535 bytes.
pub open spec fn header_name(bytes: Seq<u8>) -> Option<Seq<u8>> {
    if 1 <= bytes.len() <= 65535 && forall|i: int| 0 <= i < bytes.len() ==> name_byte(bytes[i]) is Some {
        Some(Seq::new(bytes.len(), |i: int| name_byte(bytes[i])->0))
    } else {
        None
    }
}

/// A byte that `HeaderValue::from_str` accepts.
pub open spec fn value_byte_ok(b: u8) -> bool {
    (b >= 32 && b != 127) || b == 9
}

/// A byte that `HeaderValue::to_str` accepts (visible ASCII or tab).
pub open spec fn visible_byte(b: u8) -> bool {
    (b >= 32 && b < 127) || b == 9
}

/// Whether every byte of `bytes` is accepted in a header value.
pub open spec fn header_value_ok(bytes: Seq<u8>) -> bool {
    forall|i: int| 0 <= i < bytes.len() ==> value_byte_ok(#[trigger] bytes[i])
}

/// The first value stored under `name` (raw, not normalized), if any:
/// what `HeaderMap::get` finds.
pub open spec fn lookup(entries: Map<Seq<u8>, Seq<Seq<u8>>>, name: Seq<u8>) -> Option<Seq<u8>> {
    match header_name(name) {
        Some(n) => if entries.contains_key(n) && entries[n].len() > 0 {
            Some(entries[n][0])
        } else {
            None
        },
        None => None,
    }
}

/// The entries after `HeaderMap::remove(name)`.
pub open spec fn removed(entries: Map<Seq<u8>, Seq<Seq<u8>>>, name: Seq<u8>) -> Map<
    Seq<u8>,
    Seq<Seq<u8>>,
> {
    match header_name(name) {
        Some(n) => entries.remove(n),
        None => entries,
    }
}

/// Why a header could not be set.
#[derive(Debug, Clone, PartialEq, Eq)]
pub enum HeaderError {
    /// `HeaderName::from_bytes` refused the name.
    InvalidName,
    /// `HeaderValue::from_str` refused the value.
    InvalidValue,
}

impl HeaderError {
    /// The text that `http` displays for the error.
    pub fn text(&self) -> (r: String)
        ensures
            r@ == match self {
                HeaderError::InvalidName => "invalid HTTP header name"@,
                HeaderError::InvalidValue => "failed to parse header value"@,
            },
    {
        match self {
            HeaderError::InvalidName => String::from_str("invalid HTTP header name"),
            HeaderError::InvalidValue => String::from_str("failed to parse header value"),
        }
    }
}

/// How many distinct names a header map can hold before an insertion may
/// panic. `HeaderMap` never holds more than 32768 index slots, and it only
/// tries to grow past that from 32768 slots, either when its entries fill
/// three quarters of them or, after many hash collisions, when they fill a
/// fifth (`entries.len() * 5 >= 32768`). Below 6554 names neither happens.
pub const HEADER_NAMES_LIMIT: usize = 6554;

/// `HeaderMap::keys_len`: the number of distinct names in the map.
#[verifier::external_body]
pub(crate) fn header_len(map: &HeaderMap) -> (r: usize)
    ensures
        r == header_count(*map),
{
    map.keys_len()
}

/// Whether the map has room for `extra` more names: fewer than
/// `HEADER_NAMES_LIMIT` names in all.
pub fn has_room(map: &HeaderMap, extra: usize) -> (r: bool)
    ensures
        r == (header_count(*map) + extra < HEADER_NAMES_LIMIT),
{
    let n = header_len(map);
    n < HEADER_NAMES_LIMIT && extra < HEADER_NAMES_LIMIT - n
}

/// The first value of header `name` (`HeaderMap::get`), as bytes.
/// The name is parsed as `http` parses a `&str` key: a name it refuses
/// is found nowhere.
#[verifier::external_body]
pub(crate) fn header_get(map: &HeaderMap, name: &str) -> (r: Option<Vec<u8>>)
    ensures
        match r {
            Some(v) => lookup(header_entries(*map), name.spec_bytes()) == Some(v@),
            None => lookup(header_entries(*map), name.spec_bytes()) is None,
        },
{
    match map.get(name) {
        Some(v) => Some(v.as_bytes().to_vec()),
        None => None,
    }
}

/// `HeaderMap::remove(name)`: every value stored under the name goes.
#[verifier::external_body]
pub(crate) fn header_remove(map: &mut HeaderMap, name: &str)
    ensures
        header_entries(*final(map)) == removed(header_entries(*old(map)), name.spec_bytes()),
        header_count(*final(map)) <= header_count(*old(map)),
{
    map.remove(name);
}

/// `HeaderMap::insert(HeaderName::from_bytes(name)?, HeaderValue::from_str(value)?)`:
/// the name is checked first, then the value; when both are accepted the
/// value replaces every value stored under the normalized name.
/// `insert` panics only when the map would outgrow its maximum size, which
/// the source shows cannot happen below `HEADER_NAMES_LIMIT` names.
#[verifier::external_body]
pub(crate) fn header_insert(map: &mut HeaderMap, name: &str, value: &str) -> (r: Result<(), HeaderError>)
    requires
        header_count(*old(map)) < HEADER_NAMES_LIMIT,
    ensures
        header_count(*final(map)) <= header_count(*old(map)) + 1,
        match header_name(name.spec_bytes()) {
            None => r == Err::<(), HeaderError>(HeaderError::InvalidName) && header_entries(
                *final(map),
            ) == header_entries(*old(map)),
            Some(n) => if header_value_ok(value.spec_bytes()) {
                r is Ok && header_entries(*final(map)) == header_entries(*old(map)).insert(
                    n,
                    seq![value.spec_bytes()],
                )
            } else {
                r == Err::<(), HeaderError>(HeaderError::InvalidValue) && header_entries(
                    *final(map),
                ) == header_entries(*old(map))
            },
        },
{
    let n = match HeaderName::from_bytes(name.as_bytes()) {
        Ok(n) => n,
        Err(_) => return Err(HeaderError::InvalidName),
    };
    let v = match HeaderValue::from_str(value) {
        Ok(v) => v,
        Err(_) => return Err(HeaderError::InvalidValue),
    };
    map.insert(n, v);
    Ok(())
}


/// The characters of an ASCII byte string.
pub open spec fn ascii_chars(v: Seq<u8>) -> Seq<char> {
    Seq::new(v.len(), |i: int| v[i] as char)
}

/// Whether `HeaderValue::to_str` accepts these bytes.
pub open spec fn all_visible(v: Seq<u8>) -> bool {
    forall|i: int| 0 <= i < v.len() ==> visible_byte(#[trigger] v[i])
}

/// `map.get(name).and_then(|v| v.to_str().ok())`: the first value of the
/// header as text, when it is visible ASCII.
pub open spec fn lookup_text(entries: Map<Seq<u8>, Seq<Seq<u8>>>, name: Seq<u8>) -> Option<
    Seq<char>,
> {
    match lookup(entries, name) {
        Some(v) => if all_visible(v) {
            Some(ascii_chars(v))
        } else {
            None
        },
        None => None,
    }
}

/// The text of `bytes` when `HeaderValue::to_str` accepts it.
pub fn visible_text(bytes: &Vec<u8>) -> (r: Option<String>)
    ensures
        match r {
            Some(s) => all_visible(bytes@) && s@ == ascii_chars(bytes@),
            None => !all_visible(bytes@),
        },
{
    let n = bytes.len();
    let mut s = String::new();
    let mut i: usize = 0;
    while i < n
        invariant
            n == bytes@.len(),
            i <= n,
            forall|j: int| 0 <= j < i ==> visible_byte(#[trigger] bytes@[j]),
            s@ == ascii_chars(bytes@).take(i as int),
        decreases n - i,
    {
        let b = bytes[i];
        if !((b >= 32 && b < 127) || b == 9) {
            return None;
        }
        s.push(b as char);
        assert(s@ =~= ascii_chars(bytes@).take(i + 1));
        i = i + 1;
    }
    assert(s@ =~= ascii_chars(bytes@));
    Some(s)
}

/// The first value of header `name` as text, when it is visible ASCII
/// (`map.get(name).and_then(|v| v.to_str().ok())`).
pub fn header_text(map: &HeaderMap, name: &str) -> (r: Option<String>)
    ensures
        match r {
            Some(s) => lookup_text(header_entries(*map), encode_utf8(name@)) == Some(s@),
            None => lookup_text(header_entries(*map), encode_utf8(name@)) is None,
        },
{
    match header_get(map, name) {
        Some(v) => visible_text(&v),
        None => None,
    }
}

} // verus!
