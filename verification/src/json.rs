//! A plain tree representation of a JSON document.
//!
//! Every value the protocol reads or builds is held in [`JsonVal`]: object
//! members are an ordered list of `(key, value)` pairs, integer literals are
//! held exactly, and any other numeric literal is kept as its source text so
//! that a document can be carried through verbatim.

use vstd::prelude::*;

verus! {

/// A JSON value as a plain tree.
#[derive(Debug, PartialEq, Eq)]
pub enum JsonVal {
    /// The literal `null`.
    Null,
    /// A boolean literal.
    Bool(bool),
    /// A non-negative integer literal.
    Uint(u64),
    /// Any other numeric literal, kept as the text it was written as.
    NumText(String),
    /// A string literal.
    Text(String),
    /// An array of values.
    Arr(Vec<JsonVal>),
    /// An object: ordered member list; the first member wins on lookup.
    Obj(Vec<(String, JsonVal)>),
}

/// The value of the first member named `key` among `fields`, if any.
pub open spec fn lookup_fields(fields: Seq<(String, JsonVal)>, key: Seq<char>) -> Option<JsonVal>
    decreases fields.len(),
{
    if fields.len() == 0 {
        None
    } else if fields[0].0@ == key {
        Some(fields[0].1)
    } else {
        lookup_fields(fields.drop_first(), key)
    }
}

/// The member named `key` of `v`, when `v` is an object that has one.
pub open spec fn field_of(v: JsonVal, key: Seq<char>) -> Option<JsonVal> {
    match v {
        JsonVal::Obj(fields) => lookup_fields(fields@, key),
        _ => None,
    }
}

/// Whether `v` is an object with a member named `key`.
pub open spec fn has_field(v: JsonVal, key: Seq<char>) -> bool {
    field_of(v, key) is Some
}

proof fn lemma_lookup_fields_step(fields: Seq<(String, JsonVal)>, key: Seq<char>, i: int)
    requires
        0 <= i <= fields.len(),
        forall|j: int| 0 <= j < i ==> fields[j].0@ != key,
    ensures
        lookup_fields(fields, key) == lookup_fields(fields.skip(i), key),
    decreases i,
{
    if i > 0 {
        lemma_lookup_fields_step(fields, key, i - 1);
        assert(fields.skip(i - 1).drop_first() =~= fields.skip(i));
        assert(fields.skip(i - 1)[0] == fields[i - 1]);
    } else {
        assert(fields.skip(0) =~= fields);
    }
}

/// Looks up the first member named `key` in an object's member list.
pub fn obj_get<'a>(fields: &'a Vec<(String, JsonVal)>, key: &str) -> (r: Option<&'a JsonVal>)
    ensures
        match r {
            Some(v) => lookup_fields(fields@, key@) == Some(*v),
            None => lookup_fields(fields@, key@) is None,
        },
{
    let key_owned: String = key.to_owned();
    let n = fields.len();
    for i in 0..n
        invariant
            n == fields.len(),
            key_owned@ == key@,
            forall|j: int| 0 <= j < i ==> fields@[j].0@ != key@,
    {
        if fields[i].0 == key_owned {
            proof {
                lemma_lookup_fields_step(fields@, key@, i as int);
                assert(fields@.skip(i as int)[0] == fields@[i as int]);
            }
            return Some(&fields[i].1);
        }
    }
    proof {
        lemma_lookup_fields_step(fields@, key@, n as int);
    }
    None
}

/// Looks up the member named `key` of `v`, when `v` is an object.
pub fn get_field<'a>(v: &'a JsonVal, key: &str) -> (r: Option<&'a JsonVal>)
    ensures
        match r {
            Some(f) => field_of(*v, key@) == Some(*f),
            None => field_of(*v, key@) is None,
        },
{
    match v {
        JsonVal::Obj(fields) => obj_get(fields, key),
        _ => None,
    }
}

} // verus!
