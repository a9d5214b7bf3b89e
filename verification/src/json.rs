//! A JSON document model, the fields of a CMS webhook, and lookups of
//! members and strings inside content documents.

use vstd::prelude::*;
use crate::text::str_equal;

verus! {

/// A JSON document. Object members keep their order and any repeated keys.
pub enum JsonValue {
    Null,
    Bool(bool),
    /// A number, kept as its source text.
    Number(String),
    Str(String),
    Array(Vec<JsonValue>),
    Object(Vec<(String, JsonValue)>),
}

/// The fields of a webhook record, as a typed deserialization of the request
/// body gives them: each text field absent when missing or `null`; `old` and
/// `new` the raw content documents of the `contents` record, absent when
/// missing or `null`.
pub struct WebhookPayload {
    pub service: Option<String>,
    pub api: Option<String>,
    pub id: Option<String>,
    pub event_type: Option<String>,
    pub old: Option<JsonValue>,
    pub new: Option<JsonValue>,
}

/// The value of the last member named `key`, as a lookup in the decoded
/// object map sees it.
pub open spec fn member_value(m: Seq<(String, JsonValue)>, key: Seq<char>) -> Option<JsonValue>
    decreases m.len(),
{
    if m.len() == 0 {
        None
    } else if m.last().0@ == key {
        Some(m.last().1)
    } else {
        member_value(m.drop_last(), key)
    }
}

/// Looks up the member named `key` of an object's member list.
pub fn object_get<'a>(members: &'a Vec<(String, JsonValue)>, key: &str) -> (r: Option<&'a JsonValue>)
    ensures
        match r { Some(v) => member_value(members@, key@) == Some(*v), None => member_value(members@, key@) is None },
{
    let mut n = members.len();
    assert(members@.subrange(0, n as int) =~= members@);
    while n > 0
        invariant
            0 <= n <= members.len(),
            member_value(members@, key@) == member_value(members@.subrange(0, n as int), key@),
        decreases n,
    {
        let ghost pre = members@.subrange(0, n as int);
        assert(pre.drop_last() =~= members@.subrange(0, n - 1));
        if str_equal(members[n - 1].0.as_str(), key) {
            return Some(&members[n - 1].1);
        }
        n = n - 1;
    }
    None
}

/// The object members of a document, if it is an object.
pub open spec fn object_members(v: Option<JsonValue>) -> Option<Seq<(String, JsonValue)>> {
    match v {
        Some(JsonValue::Object(m)) => Some(m@),
        _ => None,
    }
}

/// The first of `keys` (in order) that names a string member of the object
/// `v`, as that string.
pub open spec fn first_string_member(v: Option<JsonValue>, keys: Seq<Seq<char>>) -> Option<Seq<char>>
    decreases keys.len(),
{
    match object_members(v) {
        None => None,
        Some(m) => if keys.len() == 0 {
            None
        } else {
            match member_value(m, keys[0]) {
                Some(JsonValue::Str(s)) => Some(s@),
                _ => first_string_member(v, keys.drop_first()),
            }
        },
    }
}

/// The string reached from `v` by following the object members named by
/// `path`, if every step is an object member and the end is a string.
pub open spec fn string_at_path(v: Option<JsonValue>, path: Seq<Seq<char>>) -> Option<Seq<char>>
    decreases path.len(),
{
    match v {
        None => None,
        Some(x) => if path.len() == 0 {
            match x {
                JsonValue::Str(s) => Some(s@),
                _ => None,
            }
        } else {
            match object_members(v) {
                None => None,
                Some(m) => string_at_path(member_value(m, path[0]), path.drop_first()),
            }
        },
    }
}

/// The texts of a list of keys.
pub open spec fn key_texts(keys: Seq<&str>) -> Seq<Seq<char>> {
    keys.map_values(|k: &str| k@)
}

/// Reads the first of `keys` that names a string member of the object `v`.
pub fn extract_string(v: Option<&JsonValue>, keys: &[&str]) -> (r: Option<String>)
    ensures
        match r { Some(s) => first_string_member(match v { Some(x) => Some(*x), None => None }, key_texts(keys@)) == Some(s@),
            None => first_string_member(match v { Some(x) => Some(*x), None => None }, key_texts(keys@)) is None },
{
    let ghost ov = match v { Some(x) => Some(*x), None => None };
    let ghost ks = key_texts(keys@);
    let members = match v {
        Some(JsonValue::Object(m)) => m,
        _ => { return None; },
    };
    let mut i: usize = 0;
    assert(ks.subrange(0, ks.len() as int) =~= ks);
    while i < keys.len()
        invariant
            0 <= i <= keys.len(),
            object_members(ov) == Some(members@),
            ks == key_texts(keys@),
            ov == (match v { Some(x) => Some(*x), None => None }),
            first_string_member(ov, ks) == first_string_member(ov, ks.subrange(i as int, ks.len() as int)),
        decreases keys.len() - i,
    {
        let ghost tail = ks.subrange(i as int, ks.len() as int);
        assert(tail.drop_first() =~= ks.subrange(i + 1, ks.len() as int));
        assert(tail[0] == keys@[i as int]@);
        let found = object_get(members, keys[i]);
        if let Some(val) = found {
            if let JsonValue::Str(s) = val {
                assert(member_value(members@, tail[0]) == Some(*val));
                assert(first_string_member(ov, tail) == Some(s@));
                let c = s.clone();
                assert(c@ == s@);
                assert(first_string_member(ov, ks) == Some(c@));
                return Some(c);
            }
        }
        i = i + 1;
    }
    None
}

/// Follows `path` through nested objects from `v` and reads the string there.
pub fn extract_nested_string(v: Option<&JsonValue>, path: &[&str]) -> (r: Option<String>)
    ensures
        match r { Some(s) => string_at_path(match v { Some(x) => Some(*x), None => None }, key_texts(path@)) == Some(s@),
            None => string_at_path(match v { Some(x) => Some(*x), None => None }, key_texts(path@)) is None },
{
    let ghost ps = key_texts(path@);
    let mut current: &JsonValue = match v {
        Some(x) => x,
        None => { return None; },
    };
    let mut i: usize = 0;
    assert(ps.subrange(0, ps.len() as int) =~= ps);
    while i < path.len()
        invariant
            0 <= i <= path.len(),
            ps == key_texts(path@),
            string_at_path(match v { Some(x) => Some(*x), None => None }, ps)
                == string_at_path(Some(*current), ps.subrange(i as int, ps.len() as int)),
        decreases path.len() - i,
    {
        let ghost tail = ps.subrange(i as int, ps.len() as int);
        assert(tail.drop_first() =~= ps.subrange(i + 1, ps.len() as int));
        assert(tail[0] == path@[i as int]@);
        let members = match current {
            JsonValue::Object(m) => m,
            _ => { return None; },
        };
        assert(object_members(Some(*current)) == Some(members@));
        match object_get(members, path[i]) {
            Some(next) => { current = next; },
            None => {
                assert(string_at_path(Some(*current), tail) == string_at_path(None, tail.drop_first()));
                return None;
            },
        }
        i = i + 1;
    }
    assert(ps.subrange(i as int, ps.len() as int).len() == 0);
    match current {
        JsonValue::Str(s) => Some(s.clone()),
        _ => None,
    }
}

} // verus!
