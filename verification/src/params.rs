//! The RPC parameter payload: positional, named, or empty.
//!
//! A payload is built once per call and never changed after handoff to the
//! transport. A named payload keeps insertion order; an optional field that
//! is absent contributes no entry at all, never a null placeholder. An
//! entirely empty parameter set is the distinguished `Empty` variant, which
//! serializes differently from an empty array or object.

use crate::json::{lookup, JsonValue};
use vstd::prelude::*;

verus! {

#[derive(Debug, PartialEq, Eq)]
pub enum RpcParams {
    /// An ordered sequence of positional values.
    Positional(Vec<JsonValue>),
    /// An ordered sequence of named values with pairwise distinct keys.
    Named(Vec<(String, JsonValue)>),
    /// No parameters at all.
    Empty,
}

/// The keys of named entries, in order.
pub open spec fn keys_of(es: Seq<(String, JsonValue)>) -> Seq<Seq<char>> {
    es.map_values(|e: (String, JsonValue)| e.0@)
}

/// The key segment an optional field contributes: its key when present,
/// nothing when absent.
pub open spec fn opt_key<A>(k: Seq<char>, o: Option<A>) -> Seq<Seq<char>> {
    match o {
        Some(_) => seq![k],
        None => Seq::empty(),
    }
}

/// Looking a key up after appending one entry: an earlier entry still wins,
/// the appended entry answers for its own key, and other keys stay absent.
pub broadcast proof fn lemma_lookup_push(
    es: Seq<(String, JsonValue)>,
    e: (String, JsonValue),
    k: Seq<char>,
)
    ensures
        #[trigger] lookup(es.push(e), k) == if lookup(es, k) is Some {
            lookup(es, k)
        } else if e.0@ == k {
            Some(e.1)
        } else {
            None::<JsonValue>
        },
    decreases es.len(),
{
    if es.len() == 0 {
        assert(es.push(e)[0] == e);
        assert(es.push(e).drop_first() =~= Seq::<(String, JsonValue)>::empty());
        assert(lookup(Seq::<(String, JsonValue)>::empty(), k) is None);
        assert(lookup(es, k) is None);
    } else {
        assert(es.push(e)[0] == es[0]);
        assert(es.push(e).drop_first() =~= es.drop_first().push(e));
        lemma_lookup_push(es.drop_first(), e, k);
    }
}

/// The key list after appending one entry.
pub broadcast proof fn lemma_keys_push(es: Seq<(String, JsonValue)>, e: (String, JsonValue))
    ensures
        #[trigger] keys_of(es.push(e)) =~= keys_of(es).push(e.0@),
{
}

/// Nothing is found among no entries.
pub broadcast proof fn lemma_lookup_empty(k: Seq<char>)
    ensures
        #[trigger] lookup(Seq::<(String, JsonValue)>::empty(), k) is None,
{
}

} // verus!
