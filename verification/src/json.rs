//! JSON, as the files of a datapack are written in it.
//!
//! Reading the text is `serde_json`'s; what comes back is held here as plain values, so the code
//! that walks a file — which fields it reads, what it falls back to — is checked like any other.
use crate::text::same_text;
use vstd::prelude::*;

verus! {

/// A number, as the whole numbers it can be read as. A fraction reads as neither.
#[derive(Debug, Clone, Copy, PartialEq, Eq)]
pub struct JsonNumber {
    /// The number as a signed whole number, where it is one that fits.
    pub as_i64: Option<i64>,
    /// The number as an unsigned whole number, where it is one that fits.
    pub as_u64: Option<u64>,
}

/// A JSON value.
#[derive(Debug, PartialEq)]
pub enum Json {
    Null,
    Bool(bool),
    Number(JsonNumber),
    String(String),
    Array(Vec<Json>),
    /// The members of an object, each name once, in the order the reader keeps them.
    Object(Vec<(String, Json)>),
}

/// The member called `key` among an object's members, the first such where there are several.
pub open spec fn member(members: Seq<(String, Json)>, key: Seq<char>) -> Option<Json>
    decreases members.len(),
{
    if members.len() == 0 {
        None
    } else if members[0].0@ == key {
        Some(members[0].1)
    } else {
        member(members.drop_first(), key)
    }
}

/// Whether two values are alike: the same shape, the same texts, the same numbers, member for
/// member and item for item.
pub open spec fn alike(a: Json, b: Json) -> bool
    decreases a,
{
    match (a, b) {
        (Json::Null, Json::Null) => true,
        (Json::Bool(x), Json::Bool(y)) => x == y,
        (Json::Number(x), Json::Number(y)) => x == y,
        (Json::String(x), Json::String(y)) => x@ == y@,
        (Json::Array(xs), Json::Array(ys)) => xs.len() == ys.len() && forall|i: int|
            0 <= i < xs.len() ==> #[trigger] alike(xs@[i], ys@[i]),
        (Json::Object(xs), Json::Object(ys)) => xs.len() == ys.len() && forall|i: int|
            0 <= i < xs.len() ==> xs@[i].0@ == ys@[i].0@ && #[trigger] alike(xs@[i].1, ys@[i].1),
        _ => false,
    }
}

impl Json {
    /// The member called `key`, where this is an object that has one.
    pub open spec fn field(self, key: Seq<char>) -> Option<Json> {
        match self {
            Json::Object(members) => member(members@, key),
            _ => None,
        }
    }

    pub open spec fn bool_value(self) -> Option<bool> {
        match self {
            Json::Bool(b) => Some(b),
            _ => None,
        }
    }

    pub open spec fn text_value(self) -> Option<Seq<char>> {
        match self {
            Json::String(s) => Some(s@),
            _ => None,
        }
    }

    pub open spec fn items(self) -> Option<Seq<Json>> {
        match self {
            Json::Array(items) => Some(items@),
            _ => None,
        }
    }

    pub open spec fn u64_value(self) -> Option<u64> {
        match self {
            Json::Number(n) => n.as_u64,
            _ => None,
        }
    }

    pub open spec fn i64_value(self) -> Option<i64> {
        match self {
            Json::Number(n) => n.as_i64,
            _ => None,
        }
    }

    /// The member called `key`, where this is an object that has one.
    pub fn get(&self, key: &str) -> (r: Option<&Json>)
        ensures
            match r {
                Some(v) => self.field(key@) == Some(*v),
                None => self.field(key@) is None,
            },
    {
        match self {
            Json::Object(members) => {
                let mut i: usize = 0;
                assert(members@.skip(0) =~= members@);
                while i < members.len()
                    invariant
                        i <= members.len(),
                        self.field(key@) == member(members@, key@),
                        member(members@, key@) == member(members@.skip(i as int), key@),
                    decreases members.len() - i,
                {
                    assert(members@.skip(i as int).drop_first() =~= members@.skip(i + 1));
                    if same_text(members[i].0.as_str(), key) {
                        assert(members@.skip(i as int)[0] == members@[i as int]);
                        assert(members@[i as int].0@ == key@);
                        assert(member(members@.skip(i as int), key@) == Some(members@[i as int].1));
                        let found = &members[i].1;
                        assert(*found == members@[i as int].1);
                        assert(self.field(key@) == member(members@, key@));
                        return Some(found);
                    }
                    i = i + 1;
                }
                None
            },
            _ => None,
        }
    }

    /// The member called `key`, taken out of this value, where this is an object that has one.
    pub fn take_field(self, key: &str) -> (r: Option<Json>)
        ensures
            r == self.field(key@),
    {
        match self {
            Json::Object(members) => take_member(members, key),
            _ => None,
        }
    }

    /// A copy of this value: the same shape, the same texts, the same numbers.
    pub fn duplicate(&self) -> (r: Json)
        ensures
            alike(r, *self),
        decreases self,
    {
        match self {
            Json::Null => Json::Null,
            Json::Bool(b) => Json::Bool(*b),
            Json::Number(n) => Json::Number(*n),
            Json::String(s) => Json::String(s.clone()),
            Json::Array(items) => {
                let mut copy: Vec<Json> = Vec::new();
                let mut i: usize = 0;
                while i < items.len()
                    invariant
                        i <= items.len(),
                        *self is Array,
                        (*self)->Array_0 == *items,
                        copy.len() == i,
                        forall|k: int| 0 <= k < i ==> alike(#[trigger] copy@[k], items@[k]),
                    decreases items.len() - i,
                {
                    proof {
                        assert(decreases_to!(*self => (*self)->Array_0));
                        assert(decreases_to!((*self)->Array_0 => (*self)->Array_0@));
                        assert(decreases_to!(items@ => items@[i as int]));
                    }
                    copy.push(items[i].duplicate());
                    i = i + 1;
                }
                Json::Array(copy)
            },
            Json::Object(members) => {
                let mut copy: Vec<(String, Json)> = Vec::new();
                let mut i: usize = 0;
                while i < members.len()
                    invariant
                        i <= members.len(),
                        *self is Object,
                        (*self)->Object_0 == *members,
                        copy.len() == i,
                        forall|k: int|
                            0 <= k < i ==> (#[trigger] copy@[k]).0@ == members@[k].0@ && alike(
                                copy@[k].1,
                                members@[k].1,
                            ),
                    decreases members.len() - i,
                {
                    proof {
                        assert(decreases_to!(*self => (*self)->Object_0));
                        assert(decreases_to!((*self)->Object_0 => (*self)->Object_0@));
                        assert(decreases_to!(members@ => members@[i as int]));
                        assert(decreases_to!(members@[i as int] => members@[i as int].1));
                    }
                    let value = members[i].1.duplicate();
                    copy.push((members[i].0.clone(), value));
                    i = i + 1;
                }
                Json::Object(copy)
            },
        }
    }

    pub fn as_bool(&self) -> (r: Option<bool>)
        ensures
            r == self.bool_value(),
    {
        match self {
            Json::Bool(b) => Some(*b),
            _ => None,
        }
    }

    pub fn as_str(&self) -> (r: Option<&str>)
        ensures
            match r {
                Some(s) => self.text_value() == Some(s@),
                None => self.text_value() is None,
            },
    {
        match self {
            Json::String(s) => Some(s.as_str()),
            _ => None,
        }
    }

    pub fn as_array(&self) -> (r: Option<&Vec<Json>>)
        ensures
            match r {
                Some(items) => self.items() == Some(items@),
                None => self.items() is None,
            },
    {
        match self {
            Json::Array(items) => Some(items),
            _ => None,
        }
    }

    pub fn as_u64(&self) -> (r: Option<u64>)
        ensures
            r == self.u64_value(),
    {
        match self {
            Json::Number(n) => n.as_u64,
            _ => None,
        }
    }

    pub fn as_i64(&self) -> (r: Option<i64>)
        ensures
            r == self.i64_value(),
    {
        match self {
            Json::Number(n) => n.as_i64,
            _ => None,
        }
    }
}

/// The first member called `key`, taken out of the members.
fn take_member(given: Vec<(String, Json)>, key: &str) -> (r: Option<Json>)
    ensures
        r == member(given@, key@),
{
    let mut members = given;
    let ghost all = members@;
    let mut i: usize = 0;
    assert(all.skip(0) =~= all);
    while i < members.len()
        invariant
            members@ == all,
            i <= members.len(),
            member(all, key@) == member(all.skip(i as int), key@),
            member(given@, key@) == member(all, key@),
        decreases members.len() - i,
    {
        assert(all.skip(i as int).drop_first() =~= all.skip(i + 1));
        if same_text(members[i].0.as_str(), key) {
            assert(all.skip(i as int)[0] == all[i as int]);
            assert(all[i as int].0@ == key@);
            assert(member(all.skip(i as int), key@) == Some(all[i as int].1));
            let (_, found) = members.remove(i);
            assert(found == all[i as int].1);
            return Some(found);
        }
        i = i + 1;
    }
    None
}

/// What `serde_json` reads out of some bytes: the value, or nothing where they are not JSON.
pub uninterp spec fn json_of_bytes(bytes: Seq<u8>) -> Option<Json>;

/// Reads JSON text with `serde_json::from_slice` into a `serde_json::Value`, and holds the value
/// as plain values. What is read is named rather than stated: the grammar is `serde_json`'s.
#[verifier::external_body]
pub(crate) fn parse_json(bytes: &[u8]) -> (r: Option<Json>)
    ensures
        r == json_of_bytes(bytes@),
{
    serde_json::from_slice::<serde_json::Value>(bytes).ok().map(|value| plain(&value))
}

/// `serde_json::Value`, which the reader hands back and which is turned into plain values at once.
#[verifier::external_type_specification]
#[verifier::external_body]
pub struct ExJsonValue(serde_json::Value);

/// A `serde_json::Value` as the plain value it holds, one variant for one variant.
#[verifier::external_body]
fn plain(value: &serde_json::Value) -> Json {
    match value {
        serde_json::Value::Null => Json::Null,
        serde_json::Value::Bool(b) => Json::Bool(*b),
        serde_json::Value::Number(n) => Json::Number(
            JsonNumber { as_i64: n.as_i64(), as_u64: n.as_u64() },
        ),
        serde_json::Value::String(s) => Json::String(s.clone()),
        serde_json::Value::Array(items) => Json::Array(items.iter().map(plain).collect()),
        serde_json::Value::Object(members) => Json::Object(
            members.iter().map(|(k, v)| (k.clone(), plain(v))).collect(),
        ),
    }
}

} // verus!
