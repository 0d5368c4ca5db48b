//! A plain value model of JSON documents, and key lookup in the ordered
//! field list of a JSON object.
//!
//! An object is modelled as the ordered list of its key/value pairs, so
//! that merging two objects is concatenation and a key is read by its
//! first occurrence. Numbers are modelled as integers: the envelope
//! itself only ever reads integer identifiers, and payload values are
//! carried through untouched.

use vstd::prelude::*;

verus! {

/// A JSON value. Objects keep their fields in order; a key is read by its
/// first occurrence, see [`lookup`].
#[derive(Debug, PartialEq, Eq)]
pub enum Json {
    Null,
    Boolean(bool),
    Number(i128),
    Text(String),
    Array(Vec<Json>),
    Object(Vec<(String, Json)>),
}

/// The kind of a JSON value, used to report what a decoder found.
#[derive(Clone, Copy, Debug, PartialEq, Eq, Structural)]
pub enum JsonKind {
    Null,
    Boolean,
    Number,
    Text,
    Array,
    Object,
}

impl Json {
    /// The kind of this value.
    pub open spec fn kind(self) -> JsonKind {
        match self {
            Json::Null => JsonKind::Null,
            Json::Boolean(_) => JsonKind::Boolean,
            Json::Number(_) => JsonKind::Number,
            Json::Text(_) => JsonKind::Text,
            Json::Array(_) => JsonKind::Array,
            Json::Object(_) => JsonKind::Object,
        }
    }

    /// Reports the kind of this value.
    pub fn kind_of(&self) -> (k: JsonKind)
        ensures
            k == self.kind(),
    {
        match self {
            Json::Null => JsonKind::Null,
            Json::Boolean(_) => JsonKind::Boolean,
            Json::Number(_) => JsonKind::Number,
            Json::Text(_) => JsonKind::Text,
            Json::Array(_) => JsonKind::Array,
            Json::Object(_) => JsonKind::Object,
        }
    }
}

/// The value under `key` in an object's field list: the value of the
/// first pair whose key reads as `key`, or `None` when no pair does.
pub open spec fn lookup(fields: Seq<(String, Json)>, key: Seq<char>) -> Option<Json>
    decreases fields.len(),
{
    if fields.len() == 0 {
        None
    } else if fields[0].0@ == key {
        Some(fields[0].1)
    } else {
        lookup(fields.drop_first(), key)
    }
}

/// String slice equality, decided by content.
pub(crate) fn str_eq(a: &str, b: &str) -> (r: bool)
    ensures
        r == (a@ == b@),
{
    let x: String = a.to_owned();
    let y: String = b.to_owned();
    x.eq(&y)
}

/// Borrows the value under `key` in `fields`, following the first-match
/// rule of [`lookup`].
pub fn lookup_ref<'a>(fields: &'a Vec<(String, Json)>, key: &str) -> (r: Option<&'a Json>)
    ensures
        match lookup(fields@, key@) {
            Some(v) => r matches Some(j) && *j == v,
            None => r is None,
        },
{
    let mut i: usize = 0;
    proof {
        assert(fields@.skip(0) =~= fields@);
    }
    while i < fields.len()
        invariant
            i <= fields.len(),
            lookup(fields@, key@) == lookup(fields@.skip(i as int), key@),
        decreases fields.len() - i,
    {
        proof {
            assert(fields@.skip(i as int)[0] == fields@[i as int]);
        }
        if str_eq(fields[i].0.as_str(), key) {
            return Some(&fields[i].1);
        }
        proof {
            assert(fields@.skip(i as int).drop_first() =~= fields@.skip(i as int + 1));
        }
        i = i + 1;
    }
    None
}

/// Looking a key up in the concatenation of two field lists reads the
/// first list first, and falls through to the second only when the first
/// has no such key.
pub proof fn lemma_lookup_concat(a: Seq<(String, Json)>, b: Seq<(String, Json)>, key: Seq<char>)
    ensures
        lookup(a + b, key) == (if lookup(a, key) is Some {
            lookup(a, key)
        } else {
            lookup(b, key)
        }),
    decreases a.len(),
{
    if a.len() == 0 {
        assert(a + b =~= b);
    } else {
        assert((a + b)[0] == a[0]);
        assert((a + b).drop_first() =~= a.drop_first() + b);
        lemma_lookup_concat(a.drop_first(), b, key);
    }
}

} // verus!
