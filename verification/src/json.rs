//! A JSON document, as the values this crate's readers look at, and the member
//! lookups they need.
//!
//! Parsing text into a `JsonValue` is serde_json's work and happens where the
//! bytes are read; everything that judges what the document says happens
//! here.

use vstd::prelude::*;

use crate::text::same_text;

verus! {

/// A parsed JSON value.
pub enum JsonValue {
    Null,
    Bool(bool),
    /// A number that is an integer within `i64`.
    Integer(i64),
    /// Any other number: a fraction, an exponent, or an integer outside `i64`.
    OtherNumber,
    Text(String),
    Array(Vec<JsonValue>),
    /// An object's members, in the order the parser yields them. serde_json's
    /// map is ordered by key, so this is ascending key order.
    Object(Vec<(String, JsonValue)>),
}

/// The index of the first member at or after `from` whose key is `key`.
pub open spec fn first_index_of(entries: Seq<(String, JsonValue)>, key: Seq<char>, from: int) -> Option<int>
    decreases entries.len() - from,
{
    if from < 0 || from >= entries.len() {
        None
    } else if entries[from].0@ == key {
        Some(from)
    } else {
        first_index_of(entries, key, from + 1)
    }
}

/// The value of the first member named `key`, if any.
pub open spec fn lookup(entries: Seq<(String, JsonValue)>, key: Seq<char>) -> Option<JsonValue> {
    match first_index_of(entries, key, 0) {
        Some(i) => Some(entries[i].1),
        None => None,
    }
}

/// The index of the first member at or after `from` whose key is not one of
/// `declared`.
pub open spec fn first_undeclared(entries: Seq<(String, JsonValue)>, declared: Seq<Seq<char>>, from: int) -> Option<int>
    decreases entries.len() - from,
{
    if from < 0 || from >= entries.len() {
        None
    } else if !declared.contains(entries[from].0@) {
        Some(from)
    } else {
        first_undeclared(entries, declared, from + 1)
    }
}

/// The first member whose key is `key`, as its index.
pub fn find_member(entries: &Vec<(String, JsonValue)>, key: &str) -> (r: Option<usize>)
    ensures
        match r {
            Some(i) => first_index_of(entries@, key@, 0) == Some(i as int),
            None => first_index_of(entries@, key@, 0) is None,
        },
        r matches Some(i) ==> i < entries@.len() && entries@[i as int].0@ == key@,
{
    let mut i: usize = 0;
    while i < entries.len()
        invariant
            i <= entries@.len(),
            first_index_of(entries@, key@, 0) == first_index_of(entries@, key@, i as int),
        decreases entries@.len() - i,
    {
        if same_text(entries[i].0.as_str(), key) {
            return Some(i);
        }
        i = i + 1;
    }
    None
}

/// The first member whose key is not one of `declared`, as its index.
pub fn find_undeclared(entries: &Vec<(String, JsonValue)>, declared: &[&str]) -> (r: Option<usize>)
    ensures
        match r {
            Some(i) => first_undeclared(entries@, declared@.map_values(|d: &str| d@), 0) == Some(i as int),
            None => first_undeclared(entries@, declared@.map_values(|d: &str| d@), 0) is None,
        },
        r matches Some(i) ==> i < entries@.len() && !declared@.map_values(|d: &str| d@).contains(entries@[i as int].0@),
{
    let ghost names = declared@.map_values(|d: &str| d@);
    let mut i: usize = 0;
    while i < entries.len()
        invariant
            i <= entries@.len(),
            names == declared@.map_values(|d: &str| d@),
            first_undeclared(entries@, names, 0) == first_undeclared(entries@, names, i as int),
        decreases entries@.len() - i,
    {
        let key = entries[i].0.as_str();
        let mut known: bool = false;
        let mut j: usize = 0;
        while j < declared.len()
            invariant
                j <= declared@.len(),
                names == declared@.map_values(|d: &str| d@),
                known == (exists|k: int| 0 <= k < j && names[k] == key@),
            decreases declared@.len() - j,
        {
            assert(names[j as int] == declared@[j as int]@);
            if same_text(declared[j], key) {
                known = true;
            }
            assert(known == (exists|k: int| 0 <= k < j + 1 && names[k] == key@)) by {
                if exists|k: int| 0 <= k < j + 1 && names[k] == key@ {
                    let k = choose|k: int| 0 <= k < j + 1 && names[k] == key@;
                    if k < j {
                    }
                }
            }
            j = j + 1;
        }
        assert(known == names.contains(key@));
        if !known {
            return Some(i);
        }
        i = i + 1;
    }
    None
}

} // verus!
