//! The JSON value model the marshaling layer works on.
//!
//! It covers exactly the shapes the node's wire protocol uses on the paths
//! this crate reads and writes: null, booleans, unsigned numbers, strings,
//! arrays and objects. Objects are ordered key/value sequences; reading a
//! field takes the first entry with the key.

use crate::error::DecodeError;
use crate::text::string_is;
use vstd::prelude::*;
use vstd::string::*;

verus! {

#[derive(Debug, PartialEq, Eq)]
pub enum JsonValue {
    Null,
    Bool(bool),
    Num(u64),
    Str(String),
    Arr(Vec<JsonValue>),
    Obj(Vec<(String, JsonValue)>),
}

/// First-match lookup of a key among object entries.
pub open spec fn lookup(es: Seq<(String, JsonValue)>, k: Seq<char>) -> Option<JsonValue>
    decreases es.len(),
{
    if es.len() == 0 {
        None
    } else if es[0].0@ == k {
        Some(es[0].1)
    } else {
        lookup(es.drop_first(), k)
    }
}

/// The numeric field at a key, if it exists and is a number.
pub open spec fn spec_num(es: Seq<(String, JsonValue)>, k: Seq<char>) -> Option<u64> {
    match lookup(es, k) {
        Some(JsonValue::Num(n)) => Some(n),
        _ => None,
    }
}

/// The boolean field at a key, if it exists and is a boolean.
pub open spec fn spec_bool(es: Seq<(String, JsonValue)>, k: Seq<char>) -> Option<bool> {
    match lookup(es, k) {
        Some(JsonValue::Bool(b)) => Some(b),
        _ => None,
    }
}

/// The string field at a key, if it exists and is a string.
pub open spec fn spec_str(es: Seq<(String, JsonValue)>, k: Seq<char>) -> Option<Seq<char>> {
    match lookup(es, k) {
        Some(JsonValue::Str(s)) => Some(s@),
        _ => None,
    }
}

/// The entries of an object value; any other shape has none.
pub open spec fn obj_entries(v: JsonValue) -> Seq<(String, JsonValue)> {
    match v {
        JsonValue::Obj(es) => es@,
        _ => Seq::empty(),
    }
}

/// The characters of a string value; any other shape has none.
pub open spec fn str_value(v: JsonValue) -> Seq<char> {
    match v {
        JsonValue::Str(s) => s@,
        _ => Seq::empty(),
    }
}

proof fn lemma_lookup_prefix(es: Seq<(String, JsonValue)>, k: Seq<char>, i: int)
    requires
        0 <= i <= es.len(),
        forall|j: int| 0 <= j < i ==> es[j].0@ != k,
    ensures
        lookup(es, k) == lookup(es.skip(i), k),
    decreases i,
{
    if i > 0 {
        assert(es.drop_first().skip(i - 1) =~= es.skip(i));
        lemma_lookup_prefix(es.drop_first(), k, i - 1);
    } else {
        assert(es.skip(0) =~= es);
    }
}

/// Borrow the value of the first entry with the key, if any.
pub fn obj_get<'a>(es: &'a Vec<(String, JsonValue)>, k: &str) -> (r: Option<&'a JsonValue>)
    ensures
        match r {
            Some(v) => lookup(es@, k@) == Some(*v),
            None => lookup(es@, k@) is None,
        },
{
    let mut i: usize = 0;
    while i < es.len()
        invariant
            i <= es@.len(),
            forall|j: int| 0 <= j < i ==> es@[j].0@ != k@,
        decreases es@.len() - i,
    {
        if string_is(&es[i].0, k) {
            proof {
                lemma_lookup_prefix(es@, k@, i as int);
                assert(es@.skip(i as int)[0] == es@[i as int]);
            }
            return Some(&es[i].1);
        }
        i += 1;
    }
    proof {
        lemma_lookup_prefix(es@, k@, es@.len() as int);
    }
    None
}

/// Read a required numeric field.
pub fn get_num(es: &Vec<(String, JsonValue)>, k: &str) -> (r: Result<u64, DecodeError>)
    ensures
        lookup(es@, k@) is None ==> (r matches Err(DecodeError::MissingField(m)) && m@ == k@),
        lookup(es@, k@) is Some && spec_num(es@, k@) is None ==> (r matches Err(
            DecodeError::WrongType(m),
        ) && m@ == k@),
        spec_num(es@, k@) matches Some(n) ==> r == Ok::<u64, DecodeError>(n),
        r matches Ok(n) ==> spec_num(es@, k@) == Some(n),
{
    match obj_get(es, k) {
        None => Err(DecodeError::MissingField(String::from_str(k))),
        Some(JsonValue::Num(n)) => Ok(*n),
        Some(_) => Err(DecodeError::WrongType(String::from_str(k))),
    }
}

/// Read a required boolean field.
pub fn get_bool(es: &Vec<(String, JsonValue)>, k: &str) -> (r: Result<bool, DecodeError>)
    ensures
        lookup(es@, k@) is None ==> (r matches Err(DecodeError::MissingField(m)) && m@ == k@),
        lookup(es@, k@) is Some && spec_bool(es@, k@) is None ==> (r matches Err(
            DecodeError::WrongType(m),
        ) && m@ == k@),
        spec_bool(es@, k@) matches Some(b) ==> r == Ok::<bool, DecodeError>(b),
        r matches Ok(b) ==> spec_bool(es@, k@) == Some(b),
{
    match obj_get(es, k) {
        None => Err(DecodeError::MissingField(String::from_str(k))),
        Some(JsonValue::Bool(b)) => Ok(*b),
        Some(_) => Err(DecodeError::WrongType(String::from_str(k))),
    }
}

/// Borrow a required string field.
pub fn get_str<'a>(es: &'a Vec<(String, JsonValue)>, k: &str) -> (r: Result<
    &'a String,
    DecodeError,
>)
    ensures
        lookup(es@, k@) is None ==> (r matches Err(DecodeError::MissingField(m)) && m@ == k@),
        lookup(es@, k@) is Some && spec_str(es@, k@) is None ==> (r matches Err(
            DecodeError::WrongType(m),
        ) && m@ == k@),
        spec_str(es@, k@) matches Some(s) ==> (r matches Ok(p) && p@ == s),
        r matches Ok(p) ==> spec_str(es@, k@) == Some(p@),
{
    match obj_get(es, k) {
        None => Err(DecodeError::MissingField(String::from_str(k))),
        Some(JsonValue::Str(s)) => Ok(s),
        Some(_) => Err(DecodeError::WrongType(String::from_str(k))),
    }
}

/// Borrow a required array field.
pub fn get_arr<'a>(es: &'a Vec<(String, JsonValue)>, k: &str) -> (r: Result<
    &'a Vec<JsonValue>,
    DecodeError,
>)
    ensures
        lookup(es@, k@) is None ==> (r matches Err(DecodeError::MissingField(m)) && m@ == k@),
        lookup(es@, k@) matches Some(v) && !(v matches JsonValue::Arr(_)) ==> (r matches Err(
            DecodeError::WrongType(m),
        ) && m@ == k@),
        lookup(es@, k@) matches Some(JsonValue::Arr(a)) ==> (r matches Ok(p) && *p == a),
        r matches Ok(p) ==> lookup(es@, k@) == Some(JsonValue::Arr(*p)),
{
    match obj_get(es, k) {
        None => Err(DecodeError::MissingField(String::from_str(k))),
        Some(JsonValue::Arr(a)) => Ok(a),
        Some(_) => Err(DecodeError::WrongType(String::from_str(k))),
    }
}

/// Borrow a required object field.
pub fn get_obj<'a>(es: &'a Vec<(String, JsonValue)>, k: &str) -> (r: Result<
    &'a Vec<(String, JsonValue)>,
    DecodeError,
>)
    ensures
        lookup(es@, k@) is None ==> (r matches Err(DecodeError::MissingField(m)) && m@ == k@),
        lookup(es@, k@) matches Some(v) && !(v matches JsonValue::Obj(_)) ==> (r matches Err(
            DecodeError::WrongType(m),
        ) && m@ == k@),
        lookup(es@, k@) matches Some(JsonValue::Obj(o)) ==> (r matches Ok(p) && *p == o),
        r matches Ok(p) ==> lookup(es@, k@) == Some(JsonValue::Obj(*p)),
{
    match obj_get(es, k) {
        None => Err(DecodeError::MissingField(String::from_str(k))),
        Some(JsonValue::Obj(o)) => Ok(o),
        Some(_) => Err(DecodeError::WrongType(String::from_str(k))),
    }
}

} // verus!
