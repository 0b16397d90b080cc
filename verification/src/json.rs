//! A JSON document model that the plugins read and build.
use vstd::prelude::*;
use vstd::string::*;
use crate::error::PluginError;

verus! {

/// A JSON number, as the serde_json data model holds it: a non-negative
/// integer, a negative integer, or any other number kept as its text.
#[derive(Debug, Clone, PartialEq, Eq)]
pub enum JsonNumber {
    PosInt(u64),
    NegInt(i64),
    Float(String),
}

/// A JSON value. Object members keep the order in which they were given.
#[derive(Debug, PartialEq, Eq)]
pub enum Json {
    Null,
    Bool(bool),
    Number(JsonNumber),
    Str(String),
    Array(Vec<Json>),
    Object(Vec<(String, Json)>),
}

/// Mathematical model of a JSON number.
pub enum NumberV {
    PosInt(u64),
    NegInt(i64),
    Float(Seq<char>),
}

/// Mathematical model of a JSON value.
pub enum JsonV {
    Null,
    Bool(bool),
    Number(NumberV),
    Str(Seq<char>),
    Array(Seq<JsonV>),
    Object(Seq<(Seq<char>, JsonV)>),
}

impl JsonNumber {
    pub open spec fn view(&self) -> NumberV {
        match self {
            JsonNumber::PosInt(n) => NumberV::PosInt(*n),
            JsonNumber::NegInt(n) => NumberV::NegInt(*n),
            JsonNumber::Float(s) => NumberV::Float(s@),
        }
    }
}

impl Json {
    pub open spec fn model(&self) -> JsonV
        decreases self,
    {
        match self {
            Json::Null => JsonV::Null,
            Json::Bool(b) => JsonV::Bool(*b),
            Json::Number(n) => JsonV::Number(n.view()),
            Json::Str(s) => JsonV::Str(s@),
            Json::Array(v) => JsonV::Array(
                Seq::new(v.len() as nat, |i: int| if 0 <= i < v.len() { v@[i].model() } else { JsonV::Null }),
            ),
            Json::Object(v) => JsonV::Object(
                Seq::new(
                    v.len() as nat,
                    |i: int| if 0 <= i < v.len() { (v@[i].0@, v@[i].1.model()) } else { (Seq::empty(), JsonV::Null) },
                ),
            ),
        }
    }
}


/// The member value of `key` in an object; `None` when `v` is not an object
/// or has no such member (the first member with the key counts).
pub open spec fn member(members: Seq<(Seq<char>, JsonV)>, key: Seq<char>) -> Option<JsonV>
    decreases members.len(),
{
    if members.len() == 0 {
        None
    } else if members[0].0 == key {
        Some(members[0].1)
    } else {
        member(members.subrange(1, members.len() as int), key)
    }
}

/// `v.get(key)`: the value of the member named `key`, when `v` is an
/// object that has one.
pub open spec fn member_of(v: JsonV, key: Seq<char>) -> Option<JsonV> {
    match v {
        JsonV::Object(m) => member(m, key),
        _ => None,
    }
}

/// `v[key]` as serde_json indexes a value: the member's value, or null.
pub open spec fn field(v: JsonV, key: Seq<char>) -> JsonV {
    match member_of(v, key) {
        Some(x) => x,
        None => JsonV::Null,
    }
}

/// `v[i]` as serde_json indexes a value: the element, or null.
pub open spec fn elem(v: JsonV, i: int) -> JsonV {
    match v {
        JsonV::Array(a) => if 0 <= i < a.len() {
            a[i]
        } else {
            JsonV::Null
        },
        _ => JsonV::Null,
    }
}

/// `v.as_str()`: the text of a string value.
pub open spec fn text_of(v: JsonV) -> Option<Seq<char>> {
    match v {
        JsonV::Str(s) => Some(s),
        _ => None,
    }
}

/// `v.as_u64()`: a number that is a non-negative integer fitting in 64 bits.
pub open spec fn u64_of(v: JsonV) -> Option<u64> {
    match v {
        JsonV::Number(NumberV::PosInt(n)) => Some(n),
        _ => None,
    }
}

/// A JSON string value.
pub open spec fn jstr(s: Seq<char>) -> JsonV {
    JsonV::Str(s)
}

proof fn lemma_member_found(members: Seq<(Seq<char>, JsonV)>, key: Seq<char>, i: int)
    requires
        0 <= i < members.len(),
        members[i].0 == key,
        forall|j: int| 0 <= j < i ==> members[j].0 != key,
    ensures
        member(members, key) == Some(members[i].1),
    decreases i,
{
    if i > 0 {
        let rest = members.subrange(1, members.len() as int);
        lemma_member_found(rest, key, i - 1);
    }
}

proof fn lemma_member_absent(members: Seq<(Seq<char>, JsonV)>, key: Seq<char>)
    requires
        forall|j: int| 0 <= j < members.len() ==> members[j].0 != key,
    ensures
        member(members, key) is None,
    decreases members.len(),
{
    if members.len() > 0 {
        let rest = members.subrange(1, members.len() as int);
        lemma_member_absent(rest, key);
    }
}

impl Json {
    /// `self.get(key)`: the value of the member named `key`.
    pub fn get(&self, key: &str) -> (r: Option<&Json>)
        ensures
            match r {
                Some(x) => member_of(self.model(), key@) == Some(x.model()),
                None => member_of(self.model(), key@) is None,
            },
    {
        match self {
            Json::Object(members) => {
                let n = members.len();
                let ghost m = self.model();
                let mut i: usize = 0;
                while i < n
                    invariant
                        n == members.len(),
                        i <= n,
                        m == self.model(),
                        self matches Json::Object(ms) && ms == members,
                        forall|j: int| 0 <= j < i ==> members@[j].0@ != key@,
                    decreases n - i,
                {
                    if str_equal(members[i].0.as_str(), key) {
                        proof {
                            if let JsonV::Object(ms) = m {
                                assert(ms[i as int] == (members@[i as int].0@, members@[i as int].1.model()));
                                lemma_member_found(ms, key@, i as int);
                            }
                        }
                        return Some(&members[i].1);
                    }
                    i = i + 1;
                }
                proof {
                    if let JsonV::Object(ms) = m {
                        assert forall|j: int| 0 <= j < ms.len() implies ms[j].0 != key@ by {
                            assert(ms[j] == (members@[j].0@, members@[j].1.model()));
                        }
                        lemma_member_absent(ms, key@);
                    }
                }
                None
            },
            _ => None,
        }
    }

    /// `self[i]`: the element at position `i`; `None` stands for null.
    pub fn at(&self, i: usize) -> (r: Option<&Json>)
        ensures
            match r {
                Some(x) => x.model() == elem(self.model(), i as int),
                None => elem(self.model(), i as int) == JsonV::Null,
            },
    {
        match self {
            Json::Array(items) => {
                if i < items.len() {
                    Some(&items[i])
                } else {
                    None
                }
            },
            _ => None,
        }
    }

    /// `self.as_str()`.
    pub fn as_str(&self) -> (r: Option<&String>)
        ensures
            match r {
                Some(s) => text_of(self.model()) == Some(s@),
                None => text_of(self.model()) is None,
            },
    {
        match self {
            Json::Str(s) => Some(s),
            _ => None,
        }
    }

    /// `self.as_u64()`.
    pub fn as_u64(&self) -> (r: Option<u64>)
        ensures
            r == u64_of(self.model()),
    {
        match self {
            Json::Number(JsonNumber::PosInt(n)) => Some(*n),
            _ => None,
        }
    }
}

/// The text of the string found at `v[key]`, if any (`v[key].as_str()`).
pub fn field_str<'a>(v: &'a Json, key: &str) -> (r: Option<&'a String>)
    ensures
        match r {
            Some(s) => text_of(field(v.model(), key@)) == Some(s@),
            None => text_of(field(v.model(), key@)) is None,
        },
{
    match v.get(key) {
        Some(x) => x.as_str(),
        None => None,
    }
}

/// Whether two strings hold the same characters.
pub fn str_equal(a: &str, b: &str) -> (r: bool)
    ensures
        r == (a@ == b@),
{
    let n = a.unicode_len();
    let m = b.unicode_len();
    if n != m {
        return false;
    }
    let mut i: usize = 0;
    while i < n
        invariant
            n == a@.len(),
            m == b@.len(),
            n == m,
            i <= n,
            forall|j: int| 0 <= j < i ==> a@[j] == b@[j],
        decreases n - i,
    {
        if a.get_char(i) != b.get_char(i) {
            return false;
        }
        i = i + 1;
    }
    assert(a@ =~= b@);
    true
}


/// An object value with the given members.
pub open spec fn obj(members: Seq<(Seq<char>, JsonV)>) -> JsonV {
    JsonV::Object(members)
}

/// An array value with the given elements.
pub open spec fn arr(items: Seq<JsonV>) -> JsonV {
    JsonV::Array(items)
}

/// A string value.
pub fn text(s: &str) -> (r: Json)
    ensures
        r.model() == jstr(s@),
{
    Json::Str(String::from_str(s))
}

/// A string value holding a copy of `s`.
pub fn text_of_string(s: &String) -> (r: Json)
    ensures
        r.model() == jstr(s@),
{
    Json::Str(s.clone())
}

/// `{}`.
pub fn empty_object() -> (r: Json)
    ensures
        r.model() == obj(Seq::empty()),
{
    let r = Json::Object(Vec::new());
    assert(r.model() matches JsonV::Object(m) && m =~= Seq::<(Seq<char>, JsonV)>::empty());
    r
}

/// An object with one member.
pub fn object1(k1: &str, v1: Json) -> (r: Json)
    ensures
        r.model() == obj(seq![(k1@, v1.model())]),
{
    let ghost m1 = v1.model();
    let r = Json::Object(vec![(String::from_str(k1), v1)]);
    assert(r.model() matches JsonV::Object(m) && m =~= seq![(k1@, m1)]);
    r
}

/// An object with two members.
pub fn object2(k1: &str, v1: Json, k2: &str, v2: Json) -> (r: Json)
    ensures
        r.model() == obj(seq![(k1@, v1.model()), (k2@, v2.model())]),
{
    let ghost m1 = v1.model();
    let ghost m2 = v2.model();
    let r = Json::Object(vec![(String::from_str(k1), v1), (String::from_str(k2), v2)]);
    assert(r.model() matches JsonV::Object(m) && m =~= seq![(k1@, m1), (k2@, m2)]);
    r
}

/// An object with three members.
pub fn object3(k1: &str, v1: Json, k2: &str, v2: Json, k3: &str, v3: Json) -> (r: Json)
    ensures
        r.model() == obj(seq![(k1@, v1.model()), (k2@, v2.model()), (k3@, v3.model())]),
{
    let ghost m1 = v1.model();
    let ghost m2 = v2.model();
    let ghost m3 = v3.model();
    let r = Json::Object(vec![(String::from_str(k1), v1), (String::from_str(k2), v2), (String::from_str(k3), v3)]);
    assert(r.model() matches JsonV::Object(m) && m =~= seq![(k1@, m1), (k2@, m2), (k3@, m3)]);
    r
}

/// An object with four members.
pub fn object4(k1: &str, v1: Json, k2: &str, v2: Json, k3: &str, v3: Json, k4: &str, v4: Json) -> (r: Json)
    ensures
        r.model() == obj(seq![(k1@, v1.model()), (k2@, v2.model()), (k3@, v3.model()), (k4@, v4.model())]),
{
    let ghost m1 = v1.model();
    let ghost m2 = v2.model();
    let ghost m3 = v3.model();
    let ghost m4 = v4.model();
    let r = Json::Object(vec![(String::from_str(k1), v1), (String::from_str(k2), v2), (String::from_str(k3), v3), (String::from_str(k4), v4)]);
    assert(r.model() matches JsonV::Object(m) && m =~= seq![(k1@, m1), (k2@, m2), (k3@, m3), (k4@, m4)]);
    r
}

/// An array with one element.
pub fn array1(v1: Json) -> (r: Json)
    ensures
        r.model() == arr(seq![v1.model()]),
{
    let ghost m1 = v1.model();
    let r = Json::Array(vec![v1]);
    assert(r.model() matches JsonV::Array(m) && m =~= seq![m1]);
    r
}

/// An array with two elements.
pub fn array2(v1: Json, v2: Json) -> (r: Json)
    ensures
        r.model() == arr(seq![v1.model(), v2.model()]),
{
    let ghost m1 = v1.model();
    let ghost m2 = v2.model();
    let r = Json::Array(vec![v1, v2]);
    assert(r.model() matches JsonV::Array(m) && m =~= seq![m1, m2]);
    r
}

/// The text at `v[key]` when it is a string.
pub open spec fn str_field(v: JsonV, key: Seq<char>) -> Option<Seq<char>> {
    text_of(field(v, key))
}


/// The value an optional reference stands for: `None` stands for null.
pub open spec fn opt_model(v: Option<&Json>) -> JsonV {
    match v {
        Some(x) => x.model(),
        None => JsonV::Null,
    }
}

/// `v[key]` on a value that may be null.
pub fn index_key<'a>(v: Option<&'a Json>, key: &str) -> (r: Option<&'a Json>)
    ensures
        opt_model(r) == field(opt_model(v), key@),
{
    match v {
        Some(x) => x.get(key),
        None => None,
    }
}

/// `v[i]` on a value that may be null.
pub fn index_at<'a>(v: Option<&'a Json>, i: usize) -> (r: Option<&'a Json>)
    ensures
        opt_model(r) == elem(opt_model(v), i as int),
{
    match v {
        Some(x) => x.at(i),
        None => None,
    }
}

/// `v.as_str()` on a value that may be null.
pub fn opt_str<'a>(v: Option<&'a Json>) -> (r: Option<&'a String>)
    ensures
        match r {
            Some(s) => text_of(opt_model(v)) == Some(s@),
            None => text_of(opt_model(v)) is None,
        },
{
    match v {
        Some(x) => x.as_str(),
        None => None,
    }
}

/// Whether an exec result and a spec result agree: the same JSON value, or an
/// `ExecuteError` with the same text.
pub open spec fn json_result(r: Result<Json, PluginError>, s: Result<JsonV, Seq<char>>) -> bool {
    match s {
        Ok(v) => r matches Ok(j) && j.model() == v,
        Err(m) => r matches Err(e) && e.is_execute(m),
    }
}

} // verus!
