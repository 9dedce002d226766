//! A JSON value as the indexer reads it: records arrive as JSON and only
//! object members and strings are looked at.

use vstd::prelude::*;
use crate::text::str_eq;

verus! {

broadcast use vstd::string::group_string_axioms;

/// A JSON value. Numbers keep their text; objects keep their members in
/// order, with distinct keys.
#[derive(Debug)]
pub enum JsonValue {
    Null,
    Bool(bool),
    Number(String),
    Str(String),
    Array(Vec<JsonValue>),
    Object(Vec<(String, JsonValue)>),
}

/// The position of the first member named `k`, if any.
pub open spec fn member_index(members: Seq<(String, JsonValue)>, k: Seq<char>) -> Option<int> {
    if exists|i: int| 0 <= i < members.len() && members[i].0@ == k {
        Some(
            choose|i: int|
                0 <= i < members.len() && members[i].0@ == k && forall|j: int|
                    0 <= j < i ==> members[j].0@ != k,
        )
    } else {
        None
    }
}

/// The member `k` of `v` when `v` is an object that has one.
pub open spec fn json_get(v: JsonValue, k: Seq<char>) -> Option<JsonValue> {
    match v {
        JsonValue::Object(members) => match member_index(members@, k) {
            Some(i) => Some(members@[i].1),
            None => None,
        },
        _ => None,
    }
}

/// The text of `v` when it is a string.
pub open spec fn json_str(v: Option<JsonValue>) -> Option<Seq<char>> {
    match v {
        Some(JsonValue::Str(s)) => Some(s@),
        _ => None,
    }
}

proof fn lemma_member_index(members: Seq<(String, JsonValue)>, k: Seq<char>, i: int)
    requires
        0 <= i <= members.len(),
        i < members.len() ==> members[i].0@ == k,
        forall|j: int| 0 <= j < i ==> members[j].0@ != k,
    ensures
        member_index(members, k) == (if i < members.len() { Some(i) } else { None::<int> }),
{
    if i < members.len() {
        assert(0 <= i < members.len() && members[i].0@ == k && forall|j: int|
            0 <= j < i ==> members[j].0@ != k);
        let c = choose|c: int|
            0 <= c < members.len() && members[c].0@ == k && forall|j: int|
                0 <= j < c ==> members[j].0@ != k;
        if c < i {
        } else if c > i {
            assert(members[i].0@ != k);
        }
    }
}

impl JsonValue {
    /// The member `k`, when this is an object that has one.
    pub fn get<'a>(&'a self, k: &str) -> (r: Option<&'a JsonValue>)
        ensures
            match r {
                Some(x) => json_get(*self, k@) == Some(*x),
                None => json_get(*self, k@) is None,
            },
    {
        match self {
            JsonValue::Object(members) => {
                let mut i: usize = 0;
                while i < members.len()
                    invariant
                        i <= members@.len(),
                        *self == JsonValue::Object(*members),
                        forall|j: int| 0 <= j < i ==> members@[j].0@ != k@,
                    decreases members@.len() - i,
                {
                    if str_eq(members[i].0.as_str(), k) {
                        proof {
                            lemma_member_index(members@, k@, i as int);
                            assert(member_index(members@, k@) == Some(i as int));
                            assert(*self == JsonValue::Object(*members));
                            assert(json_get(*self, k@) == Some(members@[i as int].1));
                        }
                        return Some(&members[i].1);
                    }
                    i = i + 1;
                }
                proof {
                    lemma_member_index(members@, k@, i as int);
                }
                None
            },
            _ => None,
        }
    }

    /// The text, when this is a string.
    pub fn as_str(&self) -> (r: Option<&str>)
        ensures
            match r {
                Some(s) => json_str(Some(*self)) == Some(s@),
                None => json_str(Some(*self)) is None,
            },
    {
        match self {
            JsonValue::Str(s) => Some(s.as_str()),
            _ => None,
        }
    }
}

/// The string at `a.b` of `v`, if there is one.
pub open spec fn json_str_at2(v: JsonValue, a: Seq<char>, b: Seq<char>) -> Option<Seq<char>> {
    match json_get(v, a) {
        Some(x) => json_str(json_get(x, b)),
        None => None,
    }
}

/// The string at `a` of `v`, if there is one.
pub fn str_member<'a>(v: &'a JsonValue, a: &str) -> (r: Option<&'a str>)
    ensures
        match r {
            Some(s) => json_str(json_get(*v, a@)) == Some(s@),
            None => json_str(json_get(*v, a@)) is None,
        },
{
    match v.get(a) {
        Some(x) => x.as_str(),
        None => None,
    }
}

/// The string at `a.b` of `v`, if there is one.
pub fn str_member2<'a>(v: &'a JsonValue, a: &str, b: &str) -> (r: Option<&'a str>)
    ensures
        match r {
            Some(s) => json_str_at2(*v, a@, b@) == Some(s@),
            None => json_str_at2(*v, a@, b@) is None,
        },
{
    match v.get(a) {
        Some(x) => str_member(x, b),
        None => None,
    }
}

} // verus!
