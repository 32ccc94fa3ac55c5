//! Value codecs: the transfer-priority wire encoding, the node's status
//! envelope, and the sub-address index wire shapes.
//!
//! Each decode is total and fails with a typed [`DecodeError`]; each encode
//! always succeeds. No codec performs I/O.

use crate::error::DecodeError;
use crate::json::{lookup, spec_num, spec_str, get_num, JsonValue};
use crate::text::string_is;
use vstd::prelude::*;
use vstd::string::*;

verus! {

/// The four ordered transfer-priority tiers.
#[derive(Clone, Copy, Debug, PartialEq, Eq, Structural)]
pub enum TransferPriority {
    Default,
    Unimportant,
    Elevated,
    Priority,
}

/// The wire integer of a priority tier.
pub open spec fn priority_to_wire(p: TransferPriority) -> u8 {
    match p {
        TransferPriority::Default => 0,
        TransferPriority::Unimportant => 1,
        TransferPriority::Elevated => 2,
        TransferPriority::Priority => 3,
    }
}

/// The priority tier of a wire integer, if it names one.
pub open spec fn priority_from_wire(v: u8) -> Option<TransferPriority> {
    if v == 0 {
        Some(TransferPriority::Default)
    } else if v == 1 {
        Some(TransferPriority::Unimportant)
    } else if v == 2 {
        Some(TransferPriority::Elevated)
    } else if v == 3 {
        Some(TransferPriority::Priority)
    } else {
        None
    }
}

impl TransferPriority {
    /// Encode a priority tier as its wire integer, always in `0..=3`.
    pub fn encode(self) -> (r: u8)
        ensures
            r == priority_to_wire(self),
            r <= 3,
    {
        match self {
            TransferPriority::Default => 0,
            TransferPriority::Unimportant => 1,
            TransferPriority::Elevated => 2,
            TransferPriority::Priority => 3,
        }
    }

    /// Decode a wire integer; any value above 3 is `OutOfRange`, never
    /// silently clamped.
    pub fn decode(v: u8) -> (r: Result<TransferPriority, DecodeError>)
        ensures
            priority_from_wire(v) matches Some(p) ==> r == Ok::<TransferPriority, DecodeError>(p),
            priority_from_wire(v) is None ==> r == Err::<TransferPriority, DecodeError>(
                DecodeError::OutOfRange,
            ),
    {
        if v == 0 {
            Ok(TransferPriority::Default)
        } else if v == 1 {
            Ok(TransferPriority::Unimportant)
        } else if v == 2 {
            Ok(TransferPriority::Elevated)
        } else if v == 3 {
            Ok(TransferPriority::Priority)
        } else {
            Err(DecodeError::OutOfRange)
        }
    }
}

/// Every priority tier decodes back from its own wire integer.
pub proof fn lemma_priority_round_trip(p: TransferPriority)
    ensures
        priority_from_wire(priority_to_wire(p)) == Some(p),
{
}

/// The node's success token for envelope status fields.
pub open spec fn success_status() -> Seq<char> {
    "OK"@
}

/// Whether a result value is a success envelope: an object whose `status`
/// field equals the success token.
pub open spec fn envelope_ok(v: JsonValue) -> bool {
    v matches JsonValue::Obj(_) && spec_str(crate::json::obj_entries(v), "status"@) == Some(
        success_status(),
    )
}

/// Whether a typed result respects a node-signaled failure: when the
/// envelope's status field is a string other than the success token, the
/// result is exactly `BadStatus` carrying that string, never the payload.
pub open spec fn bad_status_result<T>(v: JsonValue, r: Result<T, crate::error::Error>) -> bool {
    match lookup(crate::json::obj_entries(v), "status"@) {
        Some(JsonValue::Str(st)) => st@ != success_status() ==> (r matches Err(e) && e matches
            crate::error::Error::Decode(DecodeError::BadStatus(t)) && t@ == st@),
        _ => true,
    }
}

/// Unwrap the node's status envelope: hand back the payload object itself
/// exactly when its `status` field equals the success token. A different
/// status is `BadStatus` carrying the status string; unwrapping without that
/// check would silently accept a node-signaled failure.
pub fn unwrap_envelope(v: JsonValue) -> (r: Result<Vec<(String, JsonValue)>, DecodeError>)
    ensures
        v matches JsonValue::Obj(es) ==> {
            &&& spec_str(es@, "status"@) == Some(success_status()) ==> (r matches Ok(o) && o == es)
            &&& spec_str(es@, "status"@) matches Some(s) ==> (s != success_status() ==> (
            r matches Err(DecodeError::BadStatus(t)) && t@ == s))
            &&& lookup(es@, "status"@) is None ==> (r matches Err(DecodeError::MissingField(m))
                && m@ == "status"@)
            &&& (lookup(es@, "status"@) is Some && spec_str(es@, "status"@) is None) ==> (
            r matches Err(DecodeError::WrongType(m)) && m@ == "status"@)
        },
        !(v matches JsonValue::Obj(_)) ==> (r matches Err(DecodeError::WrongType(m)) && m@
            == "result"@),
        r matches Ok(o) ==> (v == JsonValue::Obj(o) && envelope_ok(v)),
{
    match v {
        JsonValue::Obj(es) => {
            let status = match crate::json::get_str(&es, "status") {
                Ok(s) => s,
                Err(e) => {
                    return Err(e);
                },
            };
            if string_is(status, "OK") {
                Ok(es)
            } else {
                Err(DecodeError::BadStatus(status.clone()))
            }
        },
        _ => Err(DecodeError::WrongType(String::from_str("result"))),
    }
}

/// A pair of an account index and an address index within the account.
#[derive(Clone, Copy, Debug, PartialEq, Eq, Structural)]
pub struct SubaddressIndex {
    pub major: u64,
    pub minor: u64,
}

impl SubaddressIndex {
    /// Whether a JSON value is this index's nested wire object
    /// `{major, minor}`.
    pub open spec fn is_wire_obj(self, v: JsonValue) -> bool {
        v matches JsonValue::Obj(es) && crate::params::keys_of(es@) == seq!["major"@, "minor"@]
            && spec_num(es@, "major"@) == Some(self.major) && spec_num(es@, "minor"@) == Some(
            self.minor,
        )
    }

    /// Serialize as the nested wire object `{major, minor}`.
    pub fn to_json(self) -> (r: JsonValue)
        ensures
            self.is_wire_obj(r),
    {
        broadcast use
            crate::params::lemma_lookup_push,
            crate::params::lemma_lookup_empty,
            crate::params::lemma_keys_push;

        let mut es: Vec<(String, JsonValue)> = Vec::new();
        es.push((String::from_str("major"), JsonValue::Num(self.major)));
        es.push((String::from_str("minor"), JsonValue::Num(self.minor)));
        proof {
            reveal_strlit("major");
            reveal_strlit("minor");
            assert(crate::params::keys_of(es@) =~= seq!["major"@, "minor"@]);
            assert("major"@[1] == 'a');
            assert("minor"@[1] == 'i');
            assert("major"@ != "minor"@);
            assert(lookup(es@, "major"@) == Some(JsonValue::Num(self.major)));
            assert(lookup(es@, "minor"@) == Some(JsonValue::Num(self.minor)));
        }
        JsonValue::Obj(es)
    }

    /// Read the nested wire object shape back into an index.
    pub fn from_json(es: &Vec<(String, JsonValue)>) -> (r: Result<SubaddressIndex, DecodeError>)
        ensures
            spec_num(es@, "major"@) matches Some(ma) ==> (spec_num(es@, "minor"@) matches Some(mi)
                ==> r == Ok::<SubaddressIndex, DecodeError>(
                SubaddressIndex { major: ma, minor: mi },
            )),
            spec_num(es@, "major"@) is None || spec_num(es@, "minor"@) is None ==> (r matches Err(
                e,
            ) && (e matches DecodeError::MissingField(_) || e matches DecodeError::WrongType(_))),
    {
        let major = match get_num(es, "major") {
            Ok(n) => n,
            Err(e) => {
                return Err(e);
            },
        };
        let minor = match get_num(es, "minor") {
            Ok(n) => n,
            Err(e) => {
                return Err(e);
            },
        };
        Ok(SubaddressIndex { major, minor })
    }
}

} // verus!
