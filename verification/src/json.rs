//! A JSON document as plain values, and the lookups the library makes in it.
use vstd::prelude::*;
use crate::text::str_chars;

verus! {

/// A JSON value.  Numbers keep their text; objects keep their members in
/// order, each name once.
#[derive(Debug)]
pub enum JsonValue {
    Null,
    Bool(bool),
    Number(String),
    Str(String),
    Array(Vec<JsonValue>),
    Object(Vec<(String, JsonValue)>),
}

/// The value of the first member of `members` named `key`.
pub open spec fn member(members: Seq<(String, JsonValue)>, key: Seq<char>) -> Option<JsonValue>
    decreases members.len(),
{
    if members.len() == 0 {
        None
    } else if members[0].0@ == key {
        Some(members[0].1)
    } else {
        member(members.drop_first(), key)
    }
}

/// `value[key]` for an object, `None` otherwise (`serde_json::Value::get` with a name).
pub open spec fn json_get(v: JsonValue, key: Seq<char>) -> Option<JsonValue> {
    match v {
        JsonValue::Object(m) => member(m@, key),
        _ => None,
    }
}

/// `value[i]` for an array, `None` otherwise (`serde_json::Value::get` with an index).
pub open spec fn json_at(v: JsonValue, i: int) -> Option<JsonValue> {
    match v {
        JsonValue::Array(a) => if 0 <= i < a@.len() {
            Some(a@[i])
        } else {
            None
        },
        _ => None,
    }
}

/// The text of a string value (`serde_json::Value::as_str`).
pub open spec fn json_str(v: JsonValue) -> Option<Seq<char>> {
    match v {
        JsonValue::Str(s) => Some(s@),
        _ => None,
    }
}

/// `get(key)` on an optional value.
pub open spec fn opt_get(v: Option<JsonValue>, key: Seq<char>) -> Option<JsonValue> {
    match v {
        Some(x) => json_get(x, key),
        None => None,
    }
}

/// `get(i)` on an optional value.
pub open spec fn opt_at(v: Option<JsonValue>, i: int) -> Option<JsonValue> {
    match v {
        Some(x) => json_at(x, i),
        None => None,
    }
}

/// `as_str()` on an optional value.
pub open spec fn opt_str(v: Option<JsonValue>) -> Option<Seq<char>> {
    match v {
        Some(x) => json_str(x),
        None => None,
    }
}

/// The value a reference points at, if any.
pub open spec fn deref_opt(r: Option<&JsonValue>) -> Option<JsonValue> {
    match r {
        Some(x) => Some(*x),
        None => None,
    }
}

/// Whether two character vectors hold the same characters.
pub fn chars_equal(a: &Vec<char>, b: &Vec<char>) -> (r: bool)
    ensures
        r == (a@ == b@),
{
    if a.len() != b.len() {
        return false;
    }
    let mut i: usize = 0;
    while i < a.len()
        invariant
            a.len() == b.len(),
            i <= a.len(),
            forall|j: int| 0 <= j < i ==> a@[j] == b@[j],
        decreases a.len() - i,
    {
        if a[i] != b[i] {
            return false;
        }
        i = i + 1;
    }
    assert(a@ =~= b@);
    true
}

/// Whether a string equals the characters `key`.
pub fn str_is(s: &str, key: &Vec<char>) -> (r: bool)
    ensures
        r == (s@ == key@),
{
    let v = str_chars(s);
    chars_equal(&v, key)
}

impl JsonValue {
    /// The member named `key` of an object.
    pub fn get(&self, key: &str) -> (r: Option<&JsonValue>)
        ensures
            deref_opt(r) == json_get(*self, key@),
    {
        match self {
            JsonValue::Object(members) => {
                let k = str_chars(key);
                let mut i: usize = 0;
                assert(members@.skip(0) == members@);
                assert(json_get(*self, key@) == member(members@, key@));
                while i < members.len()
                    invariant
                        i <= members.len(),
                        json_get(*self, key@) == member(members@, key@),
                        k@ == key@,
                        member(members@, key@) == member(members@.skip(i as int), key@),
                    decreases members.len() - i,
                {
                    assert(members@.skip(i as int).drop_first() == members@.skip(i + 1));
                    assert(members@.skip(i as int)[0] == members@[i as int]);
                    if str_is(members[i].0.as_str(), &k) {
                        assert(member(members@.skip(i as int), key@) == Some(members@[i as int].1));
                        return Some(&members[i].1);
                    }
                    i = i + 1;
                }
                None
            },
            _ => None,
        }
    }

    /// The item at position `i` of an array.
    pub fn at(&self, i: usize) -> (r: Option<&JsonValue>)
        ensures
            deref_opt(r) == json_at(*self, i as int),
    {
        match self {
            JsonValue::Array(items) => {
                if i < items.len() {
                    Some(&items[i])
                } else {
                    None
                }
            },
            _ => None,
        }
    }

    /// The text of a string value.
    pub fn as_str(&self) -> (r: Option<&str>)
        ensures
            match r {
                Some(s) => json_str(*self) == Some(s@),
                None => json_str(*self) is None,
            },
    {
        match self {
            JsonValue::Str(s) => Some(s.as_str()),
            _ => None,
        }
    }
}

} // verus!
