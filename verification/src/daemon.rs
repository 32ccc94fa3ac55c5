//! The daemon client: chain queries, block templates and regtest mining.
//!
//! Each method is a parameter builder with an exact payload contract, a
//! response decoder whose postcondition classifies every possible remote
//! result, and a driver that sends the built payload through the transport
//! capability.

use crate::codec::{bad_status_result, envelope_ok, unwrap_envelope};
use crate::error::{DecodeError, Error};
use crate::hex::is_hex_seq;
use crate::json::{get_arr, get_bool, get_num, get_str, lookup, obj_entries, spec_bool, spec_num,
    spec_str, str_value, JsonValue};
use crate::models::{spec_hex_n, Address, BlockHeaderResponse, BlockTemplate, HashDigest,
    spec_hex_any};
use crate::params::{keys_of, RpcParams};
use crate::transport::{passes_failures, value_of, Caller, RemoteResult};
use vstd::prelude::*;
use vstd::string::*;

verus! {

/// A client of the daemon RPC surface.
pub struct DaemonClient<C: Caller> {
    pub inner: C,
}

/// A client of the daemon RPC surface with regtest-only calls enabled.
pub struct RegtestDaemonClient<C: Caller>(pub DaemonClient<C>);

/// Which block header to fetch.
pub enum GetBlockHeaderSelector {
    /// The most recent block.
    Last,
    /// The block with this hash.
    Hash(HashDigest),
    /// The block at this height.
    Height(u64),
}

// ---------------------------------------------------------------- block count

/// A well-formed block-count result: a success envelope whose `count` is a
/// positive number.
pub open spec fn block_count_well_formed(v: JsonValue) -> bool {
    &&& envelope_ok(v)
    &&& match spec_num(obj_entries(v), "count"@) {
        Some(n) => n > 0,
        None => false,
    }
}

/// Every outcome of the block-count call, classified.
pub open spec fn block_count_post(resp: RemoteResult, r: Result<u64, Error>) -> bool {
    &&& passes_failures(resp, r)
    &&& resp matches RemoteResult::Value(v) ==> {
        &&& block_count_well_formed(v) ==> (r matches Ok(n) && spec_num(obj_entries(v), "count"@)
            == Some(n))
        &&& !block_count_well_formed(v) ==> (r matches Err(e) && e matches Error::Decode(_))
        &&& bad_status_result(v, r)
    }
}

/// Decode the block-count response: the envelope is unwrapped, and a zero
/// count is out of range since the chain always holds a genesis block.
pub fn get_block_count_from_response(resp: RemoteResult) -> (r: Result<u64, Error>)
    ensures
        block_count_post(resp, r),
{
    let v = match value_of(resp) {
        Ok(v) => v,
        Err(e) => {
            return Err(e);
        },
    };
    let es = match unwrap_envelope(v) {
        Ok(es) => es,
        Err(e) => {
            return Err(Error::Decode(e));
        },
    };
    let n = match get_num(&es, "count") {
        Ok(n) => n,
        Err(e) => {
            return Err(Error::Decode(e));
        },
    };
    if n == 0 {
        return Err(Error::Decode(DecodeError::OutOfRange));
    }
    Ok(n)
}

// ---------------------------------------------------------------- block hash

/// The positional payload of the block-hash lookup: the height alone.
pub fn on_get_block_hash_params(height: u64) -> (p: RpcParams)
    ensures
        p matches RpcParams::Positional(vs) && vs@ == seq![JsonValue::Num(height)],
{
    let mut vs: Vec<JsonValue> = Vec::new();
    vs.push(JsonValue::Num(height));
    proof {
        assert(vs@ =~= seq![JsonValue::Num(height)]);
    }
    RpcParams::Positional(vs)
}

/// A well-formed block-hash result: a 64-digit hex string.
pub open spec fn block_hash_well_formed(v: JsonValue) -> bool {
    v matches JsonValue::Str(_) && spec_hex_n(str_value(v), 32) is Some
}

/// Every outcome of the block-hash lookup, classified.
pub open spec fn block_hash_post(resp: RemoteResult, r: Result<HashDigest, Error>) -> bool {
    &&& passes_failures(resp, r)
    &&& resp matches RemoteResult::Value(v) ==> {
        &&& block_hash_well_formed(v) ==> (r matches Ok(h) && Some(h@) == spec_hex_n(
            str_value(v),
            32,
        ))
        &&& !block_hash_well_formed(v) ==> (r matches Err(e) && e matches Error::Decode(_))
        &&& v matches JsonValue::Str(_) ==> {
            &&& !is_hex_seq(str_value(v)) ==> r == Err::<HashDigest, Error>(
                Error::Decode(DecodeError::InvalidHex),
            )
            &&& (is_hex_seq(str_value(v)) && str_value(v).len() != 64) ==> r == Err::<
                HashDigest,
                Error,
            >(Error::Decode(DecodeError::WrongLength))
        }
    }
}

/// Decode the block-hash response: the result value is the hash's hex
/// spelling itself, not an envelope.
pub fn on_get_block_hash_from_response(resp: RemoteResult) -> (r: Result<HashDigest, Error>)
    ensures
        block_hash_post(resp, r),
{
    let v = match value_of(resp) {
        Ok(v) => v,
        Err(e) => {
            return Err(e);
        },
    };
    match v {
        JsonValue::Str(s) => match HashDigest::from_hex(s.as_str()) {
            Ok(h) => Ok(h),
            Err(e) => Err(Error::Decode(e)),
        },
        _ => Err(Error::Decode(DecodeError::WrongType(String::from_str("result")))),
    }
}

// ------------------------------------------------------------ block template

/// The positional payload of the block-template call: the address spelling,
/// then the reserve size.
pub fn get_block_template_params(wallet_address: Address, reserve_size: u64) -> (p: RpcParams)
    ensures
        p matches RpcParams::Positional(vs) && vs@ == seq![
            JsonValue::Str(wallet_address.text),
            JsonValue::Num(reserve_size),
        ],
{
    let mut vs: Vec<JsonValue> = Vec::new();
    let ghost target = seq![JsonValue::Str(wallet_address.text), JsonValue::Num(reserve_size)];
    vs.push(JsonValue::Str(wallet_address.text));
    vs.push(JsonValue::Num(reserve_size));
    proof {
        assert(vs@ =~= target);
    }
    RpcParams::Positional(vs)
}

/// A well-formed block-template result: a success envelope holding the
/// template's numeric fields, a hex blob, and the previous block's hash.
pub open spec fn block_template_well_formed(v: JsonValue) -> bool {
    &&& envelope_ok(v)
    &&& spec_num(obj_entries(v), "difficulty"@) is Some
    &&& spec_num(obj_entries(v), "expected_reward"@) is Some
    &&& spec_num(obj_entries(v), "height"@) is Some
    &&& spec_num(obj_entries(v), "reserved_offset"@) is Some
    &&& match spec_str(obj_entries(v), "blocktemplate_blob"@) {
        Some(s) => spec_hex_any(s) is Some,
        None => false,
    }
    &&& match spec_str(obj_entries(v), "prev_hash"@) {
        Some(s) => spec_hex_n(s, 32) is Some,
        None => false,
    }
}

/// Whether a typed template carries exactly the fields of a result value.
pub open spec fn block_template_matches(v: JsonValue, t: BlockTemplate) -> bool {
    &&& spec_num(obj_entries(v), "difficulty"@) == Some(t.difficulty)
    &&& spec_num(obj_entries(v), "expected_reward"@) == Some(t.expected_reward)
    &&& spec_num(obj_entries(v), "height"@) == Some(t.height)
    &&& spec_num(obj_entries(v), "reserved_offset"@) == Some(t.reserved_offset)
    &&& match spec_str(obj_entries(v), "blocktemplate_blob"@) {
        Some(s) => spec_hex_any(s) == Some(t.blocktemplate_blob@),
        None => false,
    }
    &&& match spec_str(obj_entries(v), "prev_hash"@) {
        Some(s) => spec_hex_n(s, 32) == Some(t.prev_hash@),
        None => false,
    }
}

/// Every outcome of the block-template call, classified.
pub open spec fn block_template_post(resp: RemoteResult, r: Result<BlockTemplate, Error>) -> bool {
    &&& passes_failures(resp, r)
    &&& resp matches RemoteResult::Value(v) ==> {
        &&& block_template_well_formed(v) ==> (r matches Ok(t) && block_template_matches(v, t))
        &&& !block_template_well_formed(v) ==> (r matches Err(e) && e matches Error::Decode(_))
        &&& bad_status_result(v, r)
    }
}

/// Decode the block-template response.
pub fn get_block_template_from_response(resp: RemoteResult) -> (r: Result<BlockTemplate, Error>)
    ensures
        block_template_post(resp, r),
{
    let v = match value_of(resp) {
        Ok(v) => v,
        Err(e) => {
            return Err(e);
        },
    };
    let es = match unwrap_envelope(v) {
        Ok(es) => es,
        Err(e) => {
            return Err(Error::Decode(e));
        },
    };
    let difficulty = match get_num(&es, "difficulty") {
        Ok(n) => n,
        Err(e) => {
            return Err(Error::Decode(e));
        },
    };
    let expected_reward = match get_num(&es, "expected_reward") {
        Ok(n) => n,
        Err(e) => {
            return Err(Error::Decode(e));
        },
    };
    let height = match get_num(&es, "height") {
        Ok(n) => n,
        Err(e) => {
            return Err(Error::Decode(e));
        },
    };
    let reserved_offset = match get_num(&es, "reserved_offset") {
        Ok(n) => n,
        Err(e) => {
            return Err(Error::Decode(e));
        },
    };
    let blob_str = match get_str(&es, "blocktemplate_blob") {
        Ok(s) => s,
        Err(e) => {
            return Err(Error::Decode(e));
        },
    };
    let blocktemplate_blob = match crate::hex::decode(blob_str.as_str()) {
        Ok(b) => b,
        Err(e) => {
            return Err(Error::Decode(e));
        },
    };
    let prev_str = match get_str(&es, "prev_hash") {
        Ok(s) => s,
        Err(e) => {
            return Err(Error::Decode(e));
        },
    };
    let prev_hash = match HashDigest::from_hex(prev_str.as_str()) {
        Ok(h) => h,
        Err(e) => {
            return Err(Error::Decode(e));
        },
    };
    Ok(
        BlockTemplate {
            blocktemplate_blob,
            difficulty,
            expected_reward,
            height,
            prev_hash,
            reserved_offset,
        },
    )
}

// -------------------------------------------------------------- submit block

/// The positional payload of the block-submit call: the blob alone.
pub fn submit_block_params(block_blob_data: String) -> (p: RpcParams)
    ensures
        p matches RpcParams::Positional(vs) && vs@ == seq![JsonValue::Str(block_blob_data)],
{
    let mut vs: Vec<JsonValue> = Vec::new();
    let ghost target = seq![JsonValue::Str(block_blob_data)];
    vs.push(JsonValue::Str(block_blob_data));
    proof {
        assert(vs@ =~= target);
    }
    RpcParams::Positional(vs)
}

/// Every outcome of the block-submit call, classified: the node answers
/// with a status string.
pub open spec fn submit_block_post(resp: RemoteResult, r: Result<String, Error>) -> bool {
    &&& passes_failures(resp, r)
    &&& resp matches RemoteResult::Value(v) ==> {
        &&& v matches JsonValue::Str(_) ==> (r matches Ok(s) && s@ == str_value(v))
        &&& !(v matches JsonValue::Str(_)) ==> (r matches Err(e) && e matches Error::Decode(_))
    }
}

/// Decode the block-submit response.
pub fn submit_block_from_response(resp: RemoteResult) -> (r: Result<String, Error>)
    ensures
        submit_block_post(resp, r),
{
    let v = match value_of(resp) {
        Ok(v) => v,
        Err(e) => {
            return Err(e);
        },
    };
    match v {
        JsonValue::Str(s) => Ok(s),
        _ => Err(Error::Decode(DecodeError::WrongType(String::from_str("result")))),
    }
}

// -------------------------------------------------------------- block header

/// A well-formed block-header object.
pub open spec fn header_well_formed(v: JsonValue) -> bool {
    &&& v matches JsonValue::Obj(_)
    &&& spec_num(obj_entries(v), "height"@) is Some
    &&& spec_num(obj_entries(v), "nonce"@) is Some
    &&& spec_num(obj_entries(v), "reward"@) is Some
    &&& spec_num(obj_entries(v), "timestamp"@) is Some
    &&& spec_bool(obj_entries(v), "orphan_status"@) is Some
    &&& match spec_str(obj_entries(v), "hash"@) {
        Some(s) => spec_hex_n(s, 32) is Some,
        None => false,
    }
    &&& match spec_str(obj_entries(v), "prev_hash"@) {
        Some(s) => spec_hex_n(s, 32) is Some,
        None => false,
    }
}

/// Whether a typed header carries exactly the fields of a header object.
pub open spec fn header_matches(v: JsonValue, h: BlockHeaderResponse) -> bool {
    &&& spec_num(obj_entries(v), "height"@) == Some(h.height)
    &&& spec_num(obj_entries(v), "nonce"@) == Some(h.nonce)
    &&& spec_num(obj_entries(v), "reward"@) == Some(h.reward)
    &&& spec_num(obj_entries(v), "timestamp"@) == Some(h.timestamp)
    &&& spec_bool(obj_entries(v), "orphan_status"@) == Some(h.orphan_status)
    &&& match spec_str(obj_entries(v), "hash"@) {
        Some(s) => spec_hex_n(s, 32) == Some(h.hash@),
        None => false,
    }
    &&& match spec_str(obj_entries(v), "prev_hash"@) {
        Some(s) => spec_hex_n(s, 32) == Some(h.prev_hash@),
        None => false,
    }
}

/// Decode one block-header object.
pub fn decode_block_header(v: &JsonValue) -> (r: Result<BlockHeaderResponse, DecodeError>)
    ensures
        header_well_formed(*v) ==> (r matches Ok(h) && header_matches(*v, h)),
        !header_well_formed(*v) ==> r matches Err(_),
{
    let es = match v {
        JsonValue::Obj(es) => es,
        _ => {
            return Err(DecodeError::WrongType(String::from_str("block_header")));
        },
    };
    let height = match get_num(es, "height") {
        Ok(n) => n,
        Err(e) => {
            return Err(e);
        },
    };
    let nonce = match get_num(es, "nonce") {
        Ok(n) => n,
        Err(e) => {
            return Err(e);
        },
    };
    let reward = match get_num(es, "reward") {
        Ok(n) => n,
        Err(e) => {
            return Err(e);
        },
    };
    let timestamp = match get_num(es, "timestamp") {
        Ok(n) => n,
        Err(e) => {
            return Err(e);
        },
    };
    let orphan_status = match get_bool(es, "orphan_status") {
        Ok(b) => b,
        Err(e) => {
            return Err(e);
        },
    };
    let hash_str = match get_str(es, "hash") {
        Ok(s) => s,
        Err(e) => {
            return Err(e);
        },
    };
    let hash = match HashDigest::from_hex(hash_str.as_str()) {
        Ok(h) => h,
        Err(e) => {
            return Err(e);
        },
    };
    let prev_str = match get_str(es, "prev_hash") {
        Ok(s) => s,
        Err(e) => {
            return Err(e);
        },
    };
    let prev_hash = match HashDigest::from_hex(prev_str.as_str()) {
        Ok(h) => h,
        Err(e) => {
            return Err(e);
        },
    };
    Ok(BlockHeaderResponse { hash, height, nonce, orphan_status, prev_hash, reward, timestamp })
}

/// The method name and payload a header selector chooses: the last header
/// takes no parameters, a hash is sent as its hex spelling, a height as a
/// number.
pub fn get_block_header_request(selector: GetBlockHeaderSelector) -> (r: (&'static str, RpcParams))
    ensures
        match selector {
            GetBlockHeaderSelector::Last => r.0@ == "get_last_block_header"@ && r.1
                == RpcParams::Empty,
            GetBlockHeaderSelector::Hash(h) => {
                &&& r.0@ == "get_block_header_by_hash"@
                &&& r.1 matches RpcParams::Named(es)
                &&& keys_of(es@) == seq!["hash"@]
                &&& match lookup(es@, "hash"@) {
                    Some(JsonValue::Str(s)) => s@ == crate::hex::hex_of(h@),
                    _ => false,
                }
            },
            GetBlockHeaderSelector::Height(ht) => {
                &&& r.0@ == "get_block_header_by_height"@
                &&& r.1 matches RpcParams::Named(es)
                &&& keys_of(es@) == seq!["height"@]
                &&& lookup(es@, "height"@) == Some(JsonValue::Num(ht))
            },
        },
{
    broadcast use
        crate::params::lemma_lookup_push,
        crate::params::lemma_lookup_empty,
        crate::params::lemma_keys_push;

    match selector {
        GetBlockHeaderSelector::Last => ("get_last_block_header", RpcParams::Empty),
        GetBlockHeaderSelector::Hash(h) => {
            let mut es: Vec<(String, JsonValue)> = Vec::new();
            es.push((String::from_str("hash"), JsonValue::Str(h.to_hex())));
            proof {
                assert(keys_of(es@) =~= seq!["hash"@]);
            }
            ("get_block_header_by_hash", RpcParams::Named(es))
        },
        GetBlockHeaderSelector::Height(ht) => {
            let mut es: Vec<(String, JsonValue)> = Vec::new();
            es.push((String::from_str("height"), JsonValue::Num(ht)));
            proof {
                assert(keys_of(es@) =~= seq!["height"@]);
            }
            ("get_block_header_by_height", RpcParams::Named(es))
        },
    }
}

/// A well-formed single-header result: an object whose `block_header`
/// field is a well-formed header object. This call has no status envelope.
pub open spec fn block_header_well_formed(v: JsonValue) -> bool {
    &&& v matches JsonValue::Obj(_)
    &&& match lookup(obj_entries(v), "block_header"@) {
        Some(bh) => header_well_formed(bh),
        None => false,
    }
}

/// Every outcome of the single-header call, classified.
pub open spec fn block_header_post(resp: RemoteResult, r: Result<BlockHeaderResponse, Error>) -> bool {
    &&& passes_failures(resp, r)
    &&& resp matches RemoteResult::Value(v) ==> {
        &&& block_header_well_formed(v) ==> (r matches Ok(h) && match lookup(
            obj_entries(v),
            "block_header"@,
        ) {
            Some(bh) => header_matches(bh, h),
            None => false,
        })
        &&& !block_header_well_formed(v) ==> (r matches Err(e) && e matches Error::Decode(_))
    }
}

/// Decode the single-header response.
pub fn get_block_header_from_response(resp: RemoteResult) -> (r: Result<BlockHeaderResponse, Error>)
    ensures
        block_header_post(resp, r),
{
    let v = match value_of(resp) {
        Ok(v) => v,
        Err(e) => {
            return Err(e);
        },
    };
    let es = match v {
        JsonValue::Obj(es) => es,
        _ => {
            return Err(Error::Decode(DecodeError::WrongType(String::from_str("result"))));
        },
    };
    let bh = match crate::json::obj_get(&es, "block_header") {
        Some(bh) => bh,
        None => {
            return Err(Error::Decode(DecodeError::MissingField(String::from_str("block_header"))));
        },
    };
    match decode_block_header(bh) {
        Ok(h) => Ok(h),
        Err(e) => Err(Error::Decode(e)),
    }
}

// ------------------------------------------------------------- header range

/// The named payload of the header-range call: the inclusive start and end
/// heights.
pub fn get_block_headers_range_params(start_height: u64, end_height: u64) -> (p: RpcParams)
    ensures
        p matches RpcParams::Named(es) && {
            &&& keys_of(es@) == seq!["start_height"@, "end_height"@]
            &&& lookup(es@, "start_height"@) == Some(JsonValue::Num(start_height))
            &&& lookup(es@, "end_height"@) == Some(JsonValue::Num(end_height))
        },
{
    broadcast use
        crate::params::lemma_lookup_push,
        crate::params::lemma_lookup_empty,
        crate::params::lemma_keys_push;

    let mut es: Vec<(String, JsonValue)> = Vec::new();
    es.push((String::from_str("start_height"), JsonValue::Num(start_height)));
    es.push((String::from_str("end_height"), JsonValue::Num(end_height)));
    proof {
        reveal_strlit("start_height");
        reveal_strlit("end_height");
        assert("start_height"@.len() == 12);
        assert("end_height"@.len() == 10);
        assert("start_height"@ != "end_height"@);
        assert(keys_of(es@) =~= seq!["start_height"@, "end_height"@]);
    }
    RpcParams::Named(es)
}

/// A well-formed header-range result: a success envelope holding an array
/// of well-formed headers and the `untrusted` flag.
pub open spec fn headers_range_well_formed(v: JsonValue) -> bool {
    &&& envelope_ok(v)
    &&& spec_bool(obj_entries(v), "untrusted"@) is Some
    &&& match lookup(obj_entries(v), "headers"@) {
        Some(JsonValue::Arr(hs)) => forall|i: int|
            0 <= i < hs@.len() ==> header_well_formed(#[trigger] hs@[i]),
        _ => false,
    }
}

/// Every outcome of the header-range call, classified.
pub open spec fn headers_range_post(
    resp: RemoteResult,
    r: Result<(Vec<BlockHeaderResponse>, bool), Error>,
) -> bool {
    &&& passes_failures(resp, r)
    &&& resp matches RemoteResult::Value(v) ==> {
        &&& headers_range_well_formed(v) ==> (r matches Ok(out) && {
            &&& Some(out.1) == spec_bool(obj_entries(v), "untrusted"@)
            &&& match lookup(obj_entries(v), "headers"@) {
                Some(JsonValue::Arr(hs)) => out.0@.len() == hs@.len() && forall|i: int|
                    0 <= i < hs@.len() ==> header_matches(#[trigger] hs@[i], out.0@[i]),
                _ => false,
            }
        })
        &&& !headers_range_well_formed(v) ==> (r matches Err(e) && e matches Error::Decode(_))
        &&& bad_status_result(v, r)
    }
}

/// Decode the header-range response.
#[verifier::loop_isolation(false)]
pub fn get_block_headers_range_from_response(resp: RemoteResult) -> (r: Result<
    (Vec<BlockHeaderResponse>, bool),
    Error,
>)
    ensures
        headers_range_post(resp, r),
{
    let v = match value_of(resp) {
        Ok(v) => v,
        Err(e) => {
            return Err(e);
        },
    };
    let ghost gv = v;
    let es = match unwrap_envelope(v) {
        Ok(es) => es,
        Err(e) => {
            return Err(Error::Decode(e));
        },
    };
    let untrusted = match get_bool(&es, "untrusted") {
        Ok(b) => b,
        Err(e) => {
            return Err(Error::Decode(e));
        },
    };
    let hs = match get_arr(&es, "headers") {
        Ok(a) => a,
        Err(e) => {
            return Err(Error::Decode(e));
        },
    };
    let mut headers: Vec<BlockHeaderResponse> = Vec::new();
    let mut i: usize = 0;
    while i < hs.len()
        invariant
            i <= hs@.len(),
            headers@.len() == i,
            forall|j: int|
                0 <= j < i ==> header_matches(#[trigger] hs@[j], headers@[j]) && header_well_formed(
                    hs@[j],
                ),
        decreases hs@.len() - i,
    {
        match decode_block_header(&hs[i]) {
            Ok(h) => headers.push(h),
            Err(e) => {
                proof {
                    assert(!header_well_formed(hs@[i as int]));
                    assert(obj_entries(gv) == es@);
                    assert(lookup(obj_entries(gv), "headers"@) == Some(
                        JsonValue::Arr(*hs),
                    ));
                    assert(!headers_range_well_formed(gv));
                }
                return Err(Error::Decode(e));
            },
        }
        i += 1;
    }
    Ok((headers, untrusted))
}

// ----------------------------------------------------------- generate blocks

/// The named payload of the regtest block-generation call.
pub fn generate_blocks_params(amount_of_blocks: u64, wallet_address: Address) -> (p: RpcParams)
    ensures
        p matches RpcParams::Named(es) && {
            &&& keys_of(es@) == seq!["amount_of_blocks"@, "wallet_address"@]
            &&& lookup(es@, "amount_of_blocks"@) == Some(JsonValue::Num(amount_of_blocks))
            &&& lookup(es@, "wallet_address"@) == Some(JsonValue::Str(wallet_address.text))
        },
{
    broadcast use
        crate::params::lemma_lookup_push,
        crate::params::lemma_lookup_empty,
        crate::params::lemma_keys_push;

    let mut es: Vec<(String, JsonValue)> = Vec::new();
    es.push((String::from_str("amount_of_blocks"), JsonValue::Num(amount_of_blocks)));
    es.push((String::from_str("wallet_address"), JsonValue::Str(wallet_address.text)));
    proof {
        reveal_strlit("amount_of_blocks");
        reveal_strlit("wallet_address");
        assert("amount_of_blocks"@.len() == 16);
        assert("wallet_address"@.len() == 14);
        assert("amount_of_blocks"@ != "wallet_address"@);
        assert(keys_of(es@) =~= seq!["amount_of_blocks"@, "wallet_address"@]);
    }
    RpcParams::Named(es)
}

/// A well-formed block-generation result: a success envelope with the new
/// chain height.
pub open spec fn generate_blocks_well_formed(v: JsonValue) -> bool {
    &&& envelope_ok(v)
    &&& spec_num(obj_entries(v), "height"@) is Some
}

/// Every outcome of the regtest block-generation call, classified.
pub open spec fn generate_blocks_post(resp: RemoteResult, r: Result<u64, Error>) -> bool {
    &&& passes_failures(resp, r)
    &&& resp matches RemoteResult::Value(v) ==> {
        &&& generate_blocks_well_formed(v) ==> (r matches Ok(n) && spec_num(
            obj_entries(v),
            "height"@,
        ) == Some(n))
        &&& !generate_blocks_well_formed(v) ==> (r matches Err(e) && e matches Error::Decode(_))
        &&& bad_status_result(v, r)
    }
}

/// Decode the block-generation response.
pub fn generate_blocks_from_response(resp: RemoteResult) -> (r: Result<u64, Error>)
    ensures
        generate_blocks_post(resp, r),
{
    let v = match value_of(resp) {
        Ok(v) => v,
        Err(e) => {
            return Err(e);
        },
    };
    let es = match unwrap_envelope(v) {
        Ok(es) => es,
        Err(e) => {
            return Err(Error::Decode(e));
        },
    };
    match get_num(&es, "height") {
        Ok(n) => Ok(n),
        Err(e) => Err(Error::Decode(e)),
    }
}

// ------------------------------------------------------------------- drivers

impl<C: Caller> DaemonClient<C> {
    /// Look up how many blocks are in the longest chain known to the node.
    /// The call takes no parameters, so the distinguished empty payload is
    /// sent.
    pub fn get_block_count(&mut self) -> (r: Result<u64, Error>)
        ensures
            exists|resp: RemoteResult| #[trigger] block_count_post(resp, r),
    {
        let resp = self.inner.call("get_block_count", RpcParams::Empty);
        let ghost g = resp;
        let r = get_block_count_from_response(resp);
        proof {
            assert(block_count_post(g, r));
        }
        r
    }

    /// Look up a block's hash by its height.
    pub fn on_get_block_hash(&mut self, height: u64) -> (r: Result<HashDigest, Error>)
        ensures
            exists|resp: RemoteResult| #[trigger] block_hash_post(resp, r),
    {
        let resp = self.inner.call("on_get_block_hash", on_get_block_hash_params(height));
        let ghost g = resp;
        let r = on_get_block_hash_from_response(resp);
        proof {
            assert(block_hash_post(g, r));
        }
        r
    }

    /// Get a block template on which to mine a new block.
    pub fn get_block_template(&mut self, wallet_address: Address, reserve_size: u64) -> (r: Result<
        BlockTemplate,
        Error,
    >)
        ensures
            exists|resp: RemoteResult| #[trigger] block_template_post(resp, r),
    {
        let resp = self.inner.call(
            "get_block_template",
            get_block_template_params(wallet_address, reserve_size),
        );
        let ghost g = resp;
        let r = get_block_template_from_response(resp);
        proof {
            assert(block_template_post(g, r));
        }
        r
    }

    /// Submit a mined block to the network.
    pub fn submit_block(&mut self, block_blob_data: String) -> (r: Result<String, Error>)
        ensures
            exists|resp: RemoteResult| #[trigger] submit_block_post(resp, r),
    {
        let resp = self.inner.call("submit_block", submit_block_params(block_blob_data));
        let ghost g = resp;
        let r = submit_block_from_response(resp);
        proof {
            assert(submit_block_post(g, r));
        }
        r
    }

    /// Retrieve block header information matching the selected filter.
    pub fn get_block_header(&mut self, selector: GetBlockHeaderSelector) -> (r: Result<
        BlockHeaderResponse,
        Error,
    >)
        ensures
            exists|resp: RemoteResult| #[trigger] block_header_post(resp, r),
    {
        let (method, params) = get_block_header_request(selector);
        let resp = self.inner.call(method, params);
        let ghost g = resp;
        let r = get_block_header_from_response(resp);
        proof {
            assert(block_header_post(g, r));
        }
        r
    }

    /// Retrieve basic header information for an inclusive range of blocks.
    pub fn get_block_headers_range(&mut self, start_height: u64, end_height: u64) -> (r: Result<
        (Vec<BlockHeaderResponse>, bool),
        Error,
    >)
        ensures
            exists|resp: RemoteResult| #[trigger] headers_range_post(resp, r),
    {
        let resp = self.inner.call(
            "get_block_headers_range",
            get_block_headers_range_params(start_height, end_height),
        );
        let ghost g = resp;
        let r = get_block_headers_range_from_response(resp);
        proof {
            assert(headers_range_post(g, r));
        }
        r
    }

    /// Enable the additional calls of regtest mode.
    pub fn regtest(self) -> (r: RegtestDaemonClient<C>)
        ensures
            r.0.inner == self.inner,
    {
        RegtestDaemonClient(self)
    }
}

impl<C: Caller> RegtestDaemonClient<C> {
    /// Generate blocks and give the mining rewards to the given address.
    pub fn generate_blocks(&mut self, amount_of_blocks: u64, wallet_address: Address) -> (r: Result<
        u64,
        Error,
    >)
        ensures
            exists|resp: RemoteResult| #[trigger] generate_blocks_post(resp, r),
    {
        let resp = self.0.inner.call(
            "generateblocks",
            generate_blocks_params(amount_of_blocks, wallet_address),
        );
        let ghost g = resp;
        let r = generate_blocks_from_response(resp);
        proof {
            assert(generate_blocks_post(g, r));
        }
        r
    }
}

} // verus!
