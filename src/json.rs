//! JSON values as the search reads them. An object keeps its members in the
//! order in which they are walked.
use vstd::prelude::*;
use crate::text::str_eq;

verus! {

/// A JSON value. A number is kept as its value where it is a non-negative
/// integer that fits in `u64`, and as `None` otherwise.
#[derive(Debug)]
pub enum JsonValue {
    Null,
    Bool(bool),
    Number(Option<u64>),
    Str(String),
    Array(Vec<JsonValue>),
    Object(Vec<JsonMember>),
}

/// One key and its value in an object.
#[derive(Debug)]
pub struct JsonMember {
    pub key: String,
    pub value: JsonValue,
}

/// The index of the first member at `i` or later whose key is `key`.
pub open spec fn member_from(ms: Seq<JsonMember>, key: Seq<char>, i: int) -> Option<int>
    decreases ms.len() - i,
{
    if i < 0 || i >= ms.len() {
        None
    } else if ms[i].key@ == key {
        Some(i)
    } else {
        member_from(ms, key, i + 1)
    }
}

/// The index of the member whose key is `key`, if any.
pub open spec fn member(ms: Seq<JsonMember>, key: Seq<char>) -> Option<int> {
    member_from(ms, key, 0)
}

/// The characters of a string value.
pub open spec fn str_value(v: JsonValue) -> Option<Seq<char>> {
    match v {
        JsonValue::Str(s) => Some(s@),
        _ => None,
    }
}

/// The index of the member whose key is `key`, if any.
pub fn find_member(ms: &Vec<JsonMember>, key: &str) -> (r: Option<usize>)
    ensures
        r matches Some(i) ==> i < ms@.len(),
        match r {
            Some(i) => member(ms@, key@) == Some(i as int),
            None => member(ms@, key@) is None,
        },
{
    let mut i: usize = 0;
    while i < ms.len()
        invariant
            i <= ms@.len(),
            member(ms@, key@) == member_from(ms@, key@, i as int),
        decreases ms.len() - i,
    {
        if str_eq(ms[i].key.as_str(), key) {
            return Some(i);
        }
        i += 1;
    }
    None
}

} // verus!
