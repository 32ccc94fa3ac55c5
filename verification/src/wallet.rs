//! The wallet client: balances, addresses, transfers, payments, key images
//! and cold-signing support.
//!
//! Each method is a parameter builder with an exact payload contract, a
//! response decoder whose postcondition classifies every possible remote
//! result, and a driver that sends the built payload through the transport
//! capability. Optional parameters that are absent contribute no entry to
//! the payload, never a null placeholder.

use crate::codec::{envelope_ok, priority_to_wire, unwrap_envelope, SubaddressIndex,
    TransferPriority};
use crate::error::{DecodeError, Error};
use crate::height::{spec_max_height, spec_min_height, HeightBound, HeightRange};
use crate::hex::hex_of;
use crate::json::{get_bool, get_num, get_str, lookup, obj_entries, obj_get, spec_bool, spec_num,
    spec_str, str_value, JsonValue};
use crate::models::{spec_hex_any, spec_hex_n, Address, AddressData, BalanceData,
    GetAccountsData, GetTransfersCategory, GotTransfer, HashDigest, KeyImageImportResponse,
    Payment, PaymentId, SignedKeyImage, SignedTransferOutput, TransferData, TransferOptions,
    category_key};
use crate::params::{keys_of, opt_key, RpcParams};
use crate::transport::{passes_failures, value_of, Caller, RemoteResult};
use vstd::prelude::*;
use vstd::string::*;

verus! {

broadcast use
    crate::params::lemma_lookup_push,
    crate::params::lemma_lookup_empty,
    crate::params::lemma_keys_push;

/// A client of the wallet RPC surface.
pub struct WalletClient<C: Caller> {
    pub inner: C,
}

// ------------------------------------------------------------ array helpers

/// Whether a JSON array holds exactly these numbers, in order.
pub open spec fn nums_match(vs: Seq<JsonValue>, xs: Seq<u64>) -> bool {
    vs.len() == xs.len() && forall|i: int| 0 <= i < xs.len() ==> #[trigger] vs[i] == JsonValue::Num(
        xs[i],
    )
}

/// Serialize numbers as a JSON array.
#[verifier::loop_isolation(false)]
fn nums_array(xs: &Vec<u64>) -> (r: JsonValue)
    ensures
        r matches JsonValue::Arr(vs) && nums_match(vs@, xs@),
{
    let mut vs: Vec<JsonValue> = Vec::new();
    let mut i: usize = 0;
    while i < xs.len()
        invariant
            i <= xs@.len(),
            vs@.len() == i,
            forall|j: int| 0 <= j < i ==> #[trigger] vs@[j] == JsonValue::Num(xs@[j]),
        decreases xs@.len() - i,
    {
        vs.push(JsonValue::Num(xs[i]));
        i += 1;
    }
    JsonValue::Arr(vs)
}

/// Whether every element of a JSON array is a hex string of `n` bytes.
pub open spec fn hex_n_arr_well_formed(a: Seq<JsonValue>, n: nat) -> bool {
    forall|i: int|
        0 <= i < a.len() ==> (#[trigger] a[i] matches JsonValue::Str(_) && spec_hex_n(
            str_value(a[i]),
            n,
        ) is Some)
}

/// Whether every element of a JSON array is a hex string of any length.
pub open spec fn hex_arr_well_formed(a: Seq<JsonValue>) -> bool {
    forall|i: int|
        0 <= i < a.len() ==> (#[trigger] a[i] matches JsonValue::Str(_) && spec_hex_any(
            str_value(a[i]),
        ) is Some)
}

/// Decode an array of 64-digit hex strings into digests.
#[verifier::loop_isolation(false)]
fn decode_hash32_array(a: &Vec<JsonValue>) -> (r: Result<Vec<HashDigest>, DecodeError>)
    ensures
        hex_n_arr_well_formed(a@, 32) ==> (r matches Ok(out) && out@.len() == a@.len() && forall|
            i: int,
        | 0 <= i < a@.len() ==> Some(#[trigger] out@[i]@) == spec_hex_n(str_value(a@[i]), 32)),
        !hex_n_arr_well_formed(a@, 32) ==> r matches Err(_),
{
    let mut out: Vec<HashDigest> = Vec::new();
    let mut i: usize = 0;
    while i < a.len()
        invariant
            i <= a@.len(),
            out@.len() == i,
            forall|j: int|
                0 <= j < i ==> (Some(out@[j]@) == spec_hex_n(str_value(#[trigger] a@[j]), 32)
                    && a@[j] matches JsonValue::Str(_)),
        decreases a@.len() - i,
    {
        match &a[i] {
            JsonValue::Str(s) => match HashDigest::from_hex(s.as_str()) {
                Ok(h) => out.push(h),
                Err(e) => {
                    return Err(e);
                },
            },
            _ => {
                return Err(DecodeError::WrongType(String::from_str("tx_hash_list")));
            },
        }
        i += 1;
    }
    Ok(out)
}

/// Decode an array of hex strings into byte vectors.
#[verifier::loop_isolation(false)]
fn decode_hex_array(a: &Vec<JsonValue>) -> (r: Result<Vec<Vec<u8>>, DecodeError>)
    ensures
        hex_arr_well_formed(a@) ==> (r matches Ok(out) && out@.len() == a@.len() && forall|i: int|
            0 <= i < a@.len() ==> Some(#[trigger] out@[i]@) == spec_hex_any(str_value(a@[i]))),
        !hex_arr_well_formed(a@) ==> r matches Err(_),
{
    let mut out: Vec<Vec<u8>> = Vec::new();
    let mut i: usize = 0;
    while i < a.len()
        invariant
            i <= a@.len(),
            out@.len() == i,
            forall|j: int|
                0 <= j < i ==> (Some(out@[j]@) == spec_hex_any(str_value(#[trigger] a@[j]))
                    && a@[j] matches JsonValue::Str(_)),
        decreases a@.len() - i,
    {
        match &a[i] {
            JsonValue::Str(s) => match crate::hex::decode(s.as_str()) {
                Ok(b) => out.push(b),
                Err(e) => {
                    return Err(e);
                },
            },
            _ => {
                return Err(DecodeError::WrongType(String::from_str("tx_raw_list")));
            },
        }
        i += 1;
    }
    Ok(out)
}

// ---------------------------------------------------------------- balance

/// The positional payload of the balance query: the account index, then the
/// sub-address indices when given.
pub fn get_balance_params(account: u64, addresses: &Option<Vec<u64>>) -> (p: RpcParams)
    ensures
        p matches RpcParams::Positional(vs) && match addresses {
            None => vs@ == seq![JsonValue::Num(account)],
            Some(a) => vs@.len() == 2 && vs@[0] == JsonValue::Num(account) && (vs@[1] matches
                JsonValue::Arr(xs) && nums_match(xs@, a@)),
        },
{
    let mut vs: Vec<JsonValue> = Vec::new();
    vs.push(JsonValue::Num(account));
    match addresses {
        Some(a) => {
            vs.push(nums_array(a));
        },
        None => {
            proof {
                assert(vs@ =~= seq![JsonValue::Num(account)]);
            }
        },
    }
    RpcParams::Positional(vs)
}

/// A well-formed balance result: the two balance fields.
pub open spec fn balance_well_formed(v: JsonValue) -> bool {
    &&& v matches JsonValue::Obj(_)
    &&& spec_num(obj_entries(v), "balance"@) is Some
    &&& spec_num(obj_entries(v), "unlocked_balance"@) is Some
}

/// Every outcome of the balance query, classified.
pub open spec fn balance_post(resp: RemoteResult, r: Result<BalanceData, Error>) -> bool {
    &&& passes_failures(resp, r)
    &&& resp matches RemoteResult::Value(v) ==> {
        &&& balance_well_formed(v) ==> (r matches Ok(b) && spec_num(obj_entries(v), "balance"@)
            == Some(b.balance) && spec_num(obj_entries(v), "unlocked_balance"@) == Some(
            b.unlocked_balance,
        ))
        &&& !balance_well_formed(v) ==> (r matches Err(e) && e matches Error::Decode(_))
    }
}

/// Decode the balance response.
pub fn get_balance_from_response(resp: RemoteResult) -> (r: Result<BalanceData, Error>)
    ensures
        balance_post(resp, r),
{
    let v = match value_of(resp) {
        Ok(v) => v,
        Err(e) => {
            return Err(e);
        },
    };
    let es = match v {
        JsonValue::Obj(es) => es,
        _ => {
            return Err(Error::Decode(DecodeError::WrongType(String::from_str("result"))));
        },
    };
    let balance = match get_num(&es, "balance") {
        Ok(n) => n,
        Err(e) => {
            return Err(Error::Decode(e));
        },
    };
    let unlocked_balance = match get_num(&es, "unlocked_balance") {
        Ok(n) => n,
        Err(e) => {
            return Err(Error::Decode(e));
        },
    };
    Ok(BalanceData { balance, unlocked_balance })
}

// ---------------------------------------------------------------- addresses

/// The named payload of the address query: the account index, and the
/// sub-address filter only when given.
pub fn get_address_params(account: u64, addresses: &Option<Vec<u64>>) -> (p: RpcParams)
    ensures
        p matches RpcParams::Named(es) && {
            &&& keys_of(es@) == seq!["account_index"@] + opt_key("address_index"@, *addresses)
            &&& lookup(es@, "account_index"@) == Some(JsonValue::Num(account))
            &&& match addresses {
                Some(a) => match lookup(es@, "address_index"@) {
                    Some(JsonValue::Arr(xs)) => nums_match(xs@, a@),
                    _ => false,
                },
                None => lookup(es@, "address_index"@) is None,
            }
        },
{
    let mut es: Vec<(String, JsonValue)> = Vec::new();
    es.push((String::from_str("account_index"), JsonValue::Num(account)));
    match addresses {
        Some(a) => {
            es.push((String::from_str("address_index"), nums_array(a)));
        },
        None => {},
    }
    proof {
        reveal_strlit("account_index");
        reveal_strlit("address_index");
        assert("account_index"@.len() == 13);
        assert("address_index"@.len() == 13);
        assert("account_index"@[1] == 'c');
        assert("address_index"@[1] == 'd');
        assert("account_index"@ != "address_index"@);
        assert(keys_of(es@) =~= seq!["account_index"@] + opt_key("address_index"@, *addresses));
    }
    RpcParams::Named(es)
}

/// A well-formed address result: the account's primary address string.
pub open spec fn address_well_formed(v: JsonValue) -> bool {
    &&& v matches JsonValue::Obj(_)
    &&& spec_str(obj_entries(v), "address"@) is Some
}

/// Every outcome of the address query, classified.
pub open spec fn address_post(resp: RemoteResult, r: Result<AddressData, Error>) -> bool {
    &&& passes_failures(resp, r)
    &&& resp matches RemoteResult::Value(v) ==> {
        &&& address_well_formed(v) ==> (r matches Ok(a) && spec_str(obj_entries(v), "address"@)
            == Some(a.address.text@))
        &&& !address_well_formed(v) ==> (r matches Err(e) && e matches Error::Decode(_))
    }
}

/// Decode the address response.
pub fn get_address_from_response(resp: RemoteResult) -> (r: Result<AddressData, Error>)
    ensures
        address_post(resp, r),
{
    let v = match value_of(resp) {
        Ok(v) => v,
        Err(e) => {
            return Err(e);
        },
    };
    let es = match v {
        JsonValue::Obj(es) => es,
        _ => {
            return Err(Error::Decode(DecodeError::WrongType(String::from_str("result"))));
        },
    };
    let text = match get_str(&es, "address") {
        Ok(s) => s.clone(),
        Err(e) => {
            return Err(Error::Decode(e));
        },
    };
    Ok(AddressData { address: Address { text } })
}

// ------------------------------------------------------------ address index

/// The named payload of the address-index query: the address spelling.
pub fn get_address_index_params(address: &Address) -> (p: RpcParams)
    ensures
        p matches RpcParams::Named(es) && {
            &&& keys_of(es@) == seq!["address"@]
            &&& match lookup(es@, "address"@) {
                Some(JsonValue::Str(s)) => s@ == address.text@,
                _ => false,
            }
        },
{
    let mut es: Vec<(String, JsonValue)> = Vec::new();
    es.push((String::from_str("address"), JsonValue::Str(address.text.clone())));
    proof {
        assert(keys_of(es@) =~= seq!["address"@]);
    }
    RpcParams::Named(es)
}

/// A well-formed address-index result: a nested `index` object with both
/// components.
pub open spec fn address_index_well_formed(v: JsonValue) -> bool {
    &&& v matches JsonValue::Obj(_)
    &&& match lookup(obj_entries(v), "index"@) {
        Some(JsonValue::Obj(o)) => spec_num(o@, "major"@) is Some && spec_num(o@, "minor"@)
            is Some,
        _ => false,
    }
}

/// Every outcome of the address-index query, classified.
pub open spec fn address_index_post(resp: RemoteResult, r: Result<(u64, u64), Error>) -> bool {
    &&& passes_failures(resp, r)
    &&& resp matches RemoteResult::Value(v) ==> {
        &&& address_index_well_formed(v) ==> (r matches Ok(p) && match lookup(
            obj_entries(v),
            "index"@,
        ) {
            Some(JsonValue::Obj(o)) => spec_num(o@, "major"@) == Some(p.0) && spec_num(
                o@,
                "minor"@,
            ) == Some(p.1),
            _ => false,
        })
        &&& !address_index_well_formed(v) ==> (r matches Err(e) && e matches Error::Decode(_))
    }
}

/// Decode the address-index response.
pub fn get_address_index_from_response(resp: RemoteResult) -> (r: Result<(u64, u64), Error>)
    ensures
        address_index_post(resp, r),
{
    let v = match value_of(resp) {
        Ok(v) => v,
        Err(e) => {
            return Err(e);
        },
    };
    let es = match v {
        JsonValue::Obj(es) => es,
        _ => {
            return Err(Error::Decode(DecodeError::WrongType(String::from_str("result"))));
        },
    };
    let o = match crate::json::get_obj(&es, "index") {
        Ok(o) => o,
        Err(e) => {
            return Err(Error::Decode(e));
        },
    };
    match SubaddressIndex::from_json(o) {
        Ok(ix) => Ok((ix.major, ix.minor)),
        Err(e) => Err(Error::Decode(e)),
    }
}

// ------------------------------------------------------------ create address

/// The named payload of the address-creation call: the account index, and
/// the label only when given.
pub fn create_address_params(account_index: u64, label: Option<String>) -> (p: RpcParams)
    ensures
        p matches RpcParams::Named(es) && {
            &&& keys_of(es@) == seq!["account_index"@] + opt_key("label"@, label)
            &&& lookup(es@, "account_index"@) == Some(JsonValue::Num(account_index))
            &&& match label {
                Some(l) => lookup(es@, "label"@) == Some(JsonValue::Str(l)),
                None => lookup(es@, "label"@) is None,
            }
        },
{
    let ghost glabel = label;
    let mut es: Vec<(String, JsonValue)> = Vec::new();
    es.push((String::from_str("account_index"), JsonValue::Num(account_index)));
    match label {
        Some(l) => {
            es.push((String::from_str("label"), JsonValue::Str(l)));
        },
        None => {},
    }
    proof {
        reveal_strlit("account_index");
        reveal_strlit("label");
        assert("account_index"@.len() == 13);
        assert("label"@.len() == 5);
        assert(keys_of(es@) =~= seq!["account_index"@] + opt_key("label"@, glabel));
    }
    RpcParams::Named(es)
}

/// A well-formed address-creation result: the new address and its index.
pub open spec fn create_address_well_formed(v: JsonValue) -> bool {
    &&& v matches JsonValue::Obj(_)
    &&& spec_str(obj_entries(v), "address"@) is Some
    &&& spec_num(obj_entries(v), "address_index"@) is Some
}

/// Every outcome of the address-creation call, classified.
pub open spec fn create_address_post(resp: RemoteResult, r: Result<(Address, u64), Error>) -> bool {
    &&& passes_failures(resp, r)
    &&& resp matches RemoteResult::Value(v) ==> {
        &&& create_address_well_formed(v) ==> (r matches Ok(p) && spec_str(
            obj_entries(v),
            "address"@,
        ) == Some(p.0.text@) && spec_num(obj_entries(v), "address_index"@) == Some(p.1))
        &&& !create_address_well_formed(v) ==> (r matches Err(e) && e matches Error::Decode(_))
    }
}

/// Decode the address-creation response.
pub fn create_address_from_response(resp: RemoteResult) -> (r: Result<(Address, u64), Error>)
    ensures
        create_address_post(resp, r),
{
    let v = match value_of(resp) {
        Ok(v) => v,
        Err(e) => {
            return Err(e);
        },
    };
    let es = match v {
        JsonValue::Obj(es) => es,
        _ => {
            return Err(Error::Decode(DecodeError::WrongType(String::from_str("result"))));
        },
    };
    let text = match get_str(&es, "address") {
        Ok(s) => s.clone(),
        Err(e) => {
            return Err(Error::Decode(e));
        },
    };
    let address_index = match get_num(&es, "address_index") {
        Ok(n) => n,
        Err(e) => {
            return Err(Error::Decode(e));
        },
    };
    Ok((Address { text }, address_index))
}

// ------------------------------------------------------------- label address

/// The named payload of the address-labelling call: the nested sub-address
/// index object, then the label.
pub fn label_address_params(account_index: u64, address_index: u64, label: String) -> (p: RpcParams)
    ensures
        p matches RpcParams::Named(es) && {
            &&& keys_of(es@) == seq!["index"@, "label"@]
            &&& match lookup(es@, "index"@) {
                Some(ix) => SubaddressIndex { major: account_index, minor: address_index
                }.is_wire_obj(ix),
                None => false,
            }
            &&& lookup(es@, "label"@) == Some(JsonValue::Str(label))
        },
{
    let ix = SubaddressIndex { major: account_index, minor: address_index };
    let mut es: Vec<(String, JsonValue)> = Vec::new();
    es.push((String::from_str("index"), ix.to_json()));
    es.push((String::from_str("label"), JsonValue::Str(label)));
    proof {
        reveal_strlit("index");
        reveal_strlit("label");
        assert("index"@[0] == 'i');
        assert("label"@[0] == 'l');
        assert("index"@ != "label"@);
        assert(keys_of(es@) =~= seq!["index"@, "label"@]);
    }
    RpcParams::Named(es)
}

/// Every outcome of the address-labelling call, classified: any returned
/// value means success, and the value itself is ignored.
pub open spec fn label_address_post(resp: RemoteResult, r: Result<(), Error>) -> bool {
    &&& passes_failures(resp, r)
    &&& resp matches RemoteResult::Value(_) ==> r == Ok::<(), Error>(())
}

/// Decode the address-labelling response.
pub fn label_address_from_response(resp: RemoteResult) -> (r: Result<(), Error>)
    ensures
        label_address_post(resp, r),
{
    match value_of(resp) {
        Ok(_) => Ok(()),
        Err(e) => Err(e),
    }
}

// ---------------------------------------------------------------- accounts

/// The payload of the accounts query: the tag filter when given; with no
/// tag the parameter set is entirely empty, which is the distinguished
/// empty payload, not an empty map.
pub fn get_accounts_params(tag: Option<String>) -> (p: RpcParams)
    ensures
        match tag {
            Some(t) => p matches RpcParams::Named(es) && keys_of(es@) == seq!["tag"@] && lookup(
                es@,
                "tag"@,
            ) == Some(JsonValue::Str(t)),
            None => p == RpcParams::Empty,
        },
{
    match tag {
        Some(t) => {
            let mut es: Vec<(String, JsonValue)> = Vec::new();
            es.push((String::from_str("tag"), JsonValue::Str(t)));
            proof {
                assert(keys_of(es@) =~= seq!["tag"@]);
            }
            RpcParams::Named(es)
        },
        None => RpcParams::Empty,
    }
}

/// A well-formed accounts result: the two wallet-wide totals.
pub open spec fn accounts_well_formed(v: JsonValue) -> bool {
    &&& v matches JsonValue::Obj(_)
    &&& spec_num(obj_entries(v), "total_balance"@) is Some
    &&& spec_num(obj_entries(v), "total_unlocked_balance"@) is Some
}

/// Every outcome of the accounts query, classified.
pub open spec fn accounts_post(resp: RemoteResult, r: Result<GetAccountsData, Error>) -> bool {
    &&& passes_failures(resp, r)
    &&& resp matches RemoteResult::Value(v) ==> {
        &&& accounts_well_formed(v) ==> (r matches Ok(a) && spec_num(
            obj_entries(v),
            "total_balance"@,
        ) == Some(a.total_balance) && spec_num(obj_entries(v), "total_unlocked_balance"@) == Some(
            a.total_unlocked_balance,
        ))
        &&& !accounts_well_formed(v) ==> (r matches Err(e) && e matches Error::Decode(_))
    }
}

/// Decode the accounts response.
pub fn get_accounts_from_response(resp: RemoteResult) -> (r: Result<GetAccountsData, Error>)
    ensures
        accounts_post(resp, r),
{
    let v = match value_of(resp) {
        Ok(v) => v,
        Err(e) => {
            return Err(e);
        },
    };
    let es = match v {
        JsonValue::Obj(es) => es,
        _ => {
            return Err(Error::Decode(DecodeError::WrongType(String::from_str("result"))));
        },
    };
    let total_balance = match get_num(&es, "total_balance") {
        Ok(n) => n,
        Err(e) => {
            return Err(Error::Decode(e));
        },
    };
    let total_unlocked_balance = match get_num(&es, "total_unlocked_balance") {
        Ok(n) => n,
        Err(e) => {
            return Err(Error::Decode(e));
        },
    };
    Ok(GetAccountsData { total_balance, total_unlocked_balance })
}

// ---------------------------------------------------------------- payments

/// A well-formed payment object.
pub open spec fn payment_well_formed(v: JsonValue) -> bool {
    &&& v matches JsonValue::Obj(_)
    &&& spec_num(obj_entries(v), "amount"@) is Some
    &&& spec_num(obj_entries(v), "block_height"@) is Some
    &&& spec_num(obj_entries(v), "unlock_time"@) is Some
    &&& match spec_str(obj_entries(v), "payment_id"@) {
        Some(s) => spec_hex_n(s, 8) is Some,
        None => false,
    }
    &&& match spec_str(obj_entries(v), "tx_hash"@) {
        Some(s) => spec_hex_n(s, 32) is Some,
        None => false,
    }
}

/// Whether a typed payment carries exactly the fields of a payment object.
pub open spec fn payment_matches(v: JsonValue, p: Payment) -> bool {
    &&& spec_num(obj_entries(v), "amount"@) == Some(p.amount)
    &&& spec_num(obj_entries(v), "block_height"@) == Some(p.block_height)
    &&& spec_num(obj_entries(v), "unlock_time"@) == Some(p.unlock_time)
    &&& match spec_str(obj_entries(v), "payment_id"@) {
        Some(s) => spec_hex_n(s, 8) == Some(p.payment_id@),
        None => false,
    }
    &&& match spec_str(obj_entries(v), "tx_hash"@) {
        Some(s) => spec_hex_n(s, 32) == Some(p.tx_hash@),
        None => false,
    }
}

/// Decode one payment object.
fn decode_payment(v: &JsonValue) -> (r: Result<Payment, DecodeError>)
    ensures
        payment_well_formed(*v) ==> (r matches Ok(p) && payment_matches(*v, p)),
        !payment_well_formed(*v) ==> r matches Err(_),
{
    let es = match v {
        JsonValue::Obj(es) => es,
        _ => {
            return Err(DecodeError::WrongType(String::from_str("payment")));
        },
    };
    let amount = match get_num(es, "amount") {
        Ok(n) => n,
        Err(e) => {
            return Err(e);
        },
    };
    let block_height = match get_num(es, "block_height") {
        Ok(n) => n,
        Err(e) => {
            return Err(e);
        },
    };
    let unlock_time = match get_num(es, "unlock_time") {
        Ok(n) => n,
        Err(e) => {
            return Err(e);
        },
    };
    let pid_str = match get_str(es, "payment_id") {
        Ok(s) => s,
        Err(e) => {
            return Err(e);
        },
    };
    let payment_id = match PaymentId::from_hex(pid_str.as_str()) {
        Ok(p) => p,
        Err(e) => {
            return Err(e);
        },
    };
    let hash_str = match get_str(es, "tx_hash") {
        Ok(s) => s,
        Err(e) => {
            return Err(e);
        },
    };
    let tx_hash = match HashDigest::from_hex(hash_str.as_str()) {
        Ok(h) => h,
        Err(e) => {
            return Err(e);
        },
    };
    Ok(Payment { payment_id, tx_hash, amount, block_height, unlock_time })
}

/// Whether every element of a JSON array is a well-formed payment.
pub open spec fn payments_arr_well_formed(a: Seq<JsonValue>) -> bool {
    forall|i: int| 0 <= i < a.len() ==> payment_well_formed(#[trigger] a[i])
}

/// Whether typed payments match a JSON array element for element.
pub open spec fn payments_match(a: Seq<JsonValue>, ps: Seq<Payment>) -> bool {
    ps.len() == a.len() && forall|i: int| 0 <= i < a.len() ==> payment_matches(
        #[trigger] a[i],
        ps[i],
    )
}

/// Decode an array of payment objects.
#[verifier::loop_isolation(false)]
fn decode_payments_array(a: &Vec<JsonValue>) -> (r: Result<Vec<Payment>, DecodeError>)
    ensures
        payments_arr_well_formed(a@) ==> (r matches Ok(ps) && payments_match(a@, ps@)),
        !payments_arr_well_formed(a@) ==> r matches Err(_),
{
    let mut ps: Vec<Payment> = Vec::new();
    let mut i: usize = 0;
    while i < a.len()
        invariant
            i <= a@.len(),
            ps@.len() == i,
            forall|j: int|
                0 <= j < i ==> payment_matches(#[trigger] a@[j], ps@[j]) && payment_well_formed(
                    a@[j],
                ),
        decreases a@.len() - i,
    {
        match decode_payment(&a[i]) {
            Ok(p) => ps.push(p),
            Err(e) => {
                proof {
                    assert(!payment_well_formed(a@[i as int]));
                }
                return Err(e);
            },
        }
        i += 1;
    }
    Ok(ps)
}

/// The named payload of the payments query: the payment id's hex spelling.
pub fn get_payments_params(payment_id: &PaymentId) -> (p: RpcParams)
    ensures
        p matches RpcParams::Named(es) && {
            &&& keys_of(es@) == seq!["payment_id"@]
            &&& match lookup(es@, "payment_id"@) {
                Some(JsonValue::Str(s)) => s@ == hex_of(payment_id@),
                _ => false,
            }
        },
{
    let mut es: Vec<(String, JsonValue)> = Vec::new();
    es.push((String::from_str("payment_id"), JsonValue::Str(payment_id.to_hex())));
    proof {
        assert(keys_of(es@) =~= seq!["payment_id"@]);
    }
    RpcParams::Named(es)
}

/// Every outcome of the payments query, classified: the result value is the
/// payments array itself.
pub open spec fn payments_post(resp: RemoteResult, r: Result<Vec<Payment>, Error>) -> bool {
    &&& passes_failures(resp, r)
    &&& resp matches RemoteResult::Value(v) ==> {
        &&& (v matches JsonValue::Arr(a) && payments_arr_well_formed(a@)) ==> (r matches Ok(ps)
            && match v {
            JsonValue::Arr(a2) => payments_match(a2@, ps@),
            _ => false,
        })
        &&& !(v matches JsonValue::Arr(a) && payments_arr_well_formed(a@)) ==> (r matches Err(e)
            && e matches Error::Decode(_))
    }
}

/// Decode the payments response.
pub fn get_payments_from_response(resp: RemoteResult) -> (r: Result<Vec<Payment>, Error>)
    ensures
        payments_post(resp, r),
{
    let v = match value_of(resp) {
        Ok(v) => v,
        Err(e) => {
            return Err(e);
        },
    };
    let a = match v {
        JsonValue::Arr(a) => a,
        _ => {
            return Err(Error::Decode(DecodeError::WrongType(String::from_str("result"))));
        },
    };
    match decode_payments_array(&a) {
        Ok(ps) => Ok(ps),
        Err(e) => Err(Error::Decode(e)),
    }
}

// ------------------------------------------------------------ bulk payments

/// The named payload of the bulk payments query: the payment ids' hex
/// spellings and the minimum block height.
#[verifier::loop_isolation(false)]
pub fn get_bulk_payments_params(payment_ids: &Vec<PaymentId>, min_block_height: u64) -> (p:
    RpcParams)
    ensures
        p matches RpcParams::Named(es) && {
            &&& keys_of(es@) == seq!["payment_ids"@, "min_block_height"@]
            &&& match lookup(es@, "payment_ids"@) {
                Some(JsonValue::Arr(xs)) => xs@.len() == payment_ids@.len() && forall|i: int|
                    0 <= i < payment_ids@.len() ==> (#[trigger] xs@[i] matches JsonValue::Str(s)
                        && s@ == hex_of(payment_ids@[i]@)),
                _ => false,
            }
            &&& lookup(es@, "min_block_height"@) == Some(JsonValue::Num(min_block_height))
        },
{
    let mut xs: Vec<JsonValue> = Vec::new();
    let mut i: usize = 0;
    while i < payment_ids.len()
        invariant
            i <= payment_ids@.len(),
            xs@.len() == i,
            forall|j: int|
                0 <= j < i ==> (#[trigger] xs@[j] matches JsonValue::Str(s) && s@ == hex_of(
                    payment_ids@[j]@,
                )),
        decreases payment_ids@.len() - i,
    {
        xs.push(JsonValue::Str(payment_ids[i].to_hex()));
        i += 1;
    }
    let mut es: Vec<(String, JsonValue)> = Vec::new();
    es.push((String::from_str("payment_ids"), JsonValue::Arr(xs)));
    es.push((String::from_str("min_block_height"), JsonValue::Num(min_block_height)));
    proof {
        reveal_strlit("payment_ids");
        reveal_strlit("min_block_height");
        assert("payment_ids"@.len() == 11);
        assert("min_block_height"@.len() == 16);
        assert("payment_ids"@ != "min_block_height"@);
        assert(keys_of(es@) =~= seq!["payment_ids"@, "min_block_height"@]);
    }
    RpcParams::Named(es)
}

/// A well-formed bulk-payments result: a `payments` array when present; a
/// missing field means no payments at all.
pub open spec fn bulk_payments_well_formed(v: JsonValue) -> bool {
    &&& v matches JsonValue::Obj(_)
    &&& match lookup(obj_entries(v), "payments"@) {
        Some(JsonValue::Arr(a)) => payments_arr_well_formed(a@),
        Some(_) => false,
        None => true,
    }
}

/// Every outcome of the bulk payments query, classified.
pub open spec fn bulk_payments_post(resp: RemoteResult, r: Result<Vec<Payment>, Error>) -> bool {
    &&& passes_failures(resp, r)
    &&& resp matches RemoteResult::Value(v) ==> {
        &&& bulk_payments_well_formed(v) ==> (r matches Ok(ps) && match lookup(
            obj_entries(v),
            "payments"@,
        ) {
            Some(JsonValue::Arr(a)) => payments_match(a@, ps@),
            Some(_) => false,
            None => ps@.len() == 0,
        })
        &&& !bulk_payments_well_formed(v) ==> (r matches Err(e) && e matches Error::Decode(_))
    }
}

/// Decode the bulk payments response.
pub fn get_bulk_payments_from_response(resp: RemoteResult) -> (r: Result<Vec<Payment>, Error>)
    ensures
        bulk_payments_post(resp, r),
{
    let v = match value_of(resp) {
        Ok(v) => v,
        Err(e) => {
            return Err(e);
        },
    };
    let es = match v {
        JsonValue::Obj(es) => es,
        _ => {
            return Err(Error::Decode(DecodeError::WrongType(String::from_str("result"))));
        },
    };
    match obj_get(&es, "payments") {
        None => Ok(Vec::new()),
        Some(JsonValue::Arr(a)) => match decode_payments_array(a) {
            Ok(ps) => Ok(ps),
            Err(e) => Err(Error::Decode(e)),
        },
        Some(_) => Err(Error::Decode(DecodeError::WrongType(String::from_str("payments")))),
    }
}

// ---------------------------------------------------------------- view key

/// The named payload of the view-key query.
pub fn query_view_key_params() -> (p: RpcParams)
    ensures
        p matches RpcParams::Named(es) && {
            &&& keys_of(es@) == seq!["key_type"@]
            &&& match lookup(es@, "key_type"@) {
                Some(JsonValue::Str(s)) => s@ == "view_key"@,
                _ => false,
            }
        },
{
    let mut es: Vec<(String, JsonValue)> = Vec::new();
    es.push((String::from_str("key_type"), JsonValue::Str(String::from_str("view_key"))));
    proof {
        assert(keys_of(es@) =~= seq!["key_type"@]);
    }
    RpcParams::Named(es)
}

/// A well-formed view-key result: a 64-digit hex `key` field, spelling the
/// key's 32 bytes.
pub open spec fn view_key_well_formed(v: JsonValue) -> bool {
    &&& v matches JsonValue::Obj(_)
    &&& match spec_str(obj_entries(v), "key"@) {
        Some(s) => spec_hex_n(s, 32) is Some,
        None => false,
    }
}

/// Every outcome of the view-key query, classified.
pub open spec fn view_key_post(resp: RemoteResult, r: Result<Vec<u8>, Error>) -> bool {
    &&& passes_failures(resp, r)
    &&& resp matches RemoteResult::Value(v) ==> {
        &&& view_key_well_formed(v) ==> (r matches Ok(k) && match spec_str(
            obj_entries(v),
            "key"@,
        ) {
            Some(s) => spec_hex_n(s, 32) == Some(k@),
            None => false,
        })
        &&& !view_key_well_formed(v) ==> (r matches Err(e) && e matches Error::Decode(_))
        &&& match spec_str(obj_entries(v), "key"@) {
            Some(s) => {
                &&& !crate::hex::is_hex_seq(s) ==> r == Err::<Vec<u8>, Error>(
                    Error::Decode(DecodeError::InvalidHex),
                )
                &&& (crate::hex::is_hex_seq(s) && s.len() != 64) ==> r == Err::<Vec<u8>, Error>(
                    Error::Decode(DecodeError::WrongLength),
                )
            },
            None => true,
        }
    }
}

/// Decode the view-key response into the key's raw bytes.
pub fn query_view_key_from_response(resp: RemoteResult) -> (r: Result<Vec<u8>, Error>)
    ensures
        view_key_post(resp, r),
{
    let v = match value_of(resp) {
        Ok(v) => v,
        Err(e) => {
            return Err(e);
        },
    };
    let es = match v {
        JsonValue::Obj(es) => es,
        _ => {
            return Err(Error::Decode(DecodeError::WrongType(String::from_str("result"))));
        },
    };
    let key_str = match get_str(&es, "key") {
        Ok(s) => s,
        Err(e) => {
            return Err(Error::Decode(e));
        },
    };
    match crate::hex::decode_exact(key_str.as_str(), 32) {
        Ok(b) => Ok(b),
        Err(e) => Err(Error::Decode(e)),
    }
}

// ------------------------------------------------------------------ height

/// A well-formed wallet-height result: a positive `height` field.
pub open spec fn height_well_formed(v: JsonValue) -> bool {
    &&& v matches JsonValue::Obj(_)
    &&& match spec_num(obj_entries(v), "height"@) {
        Some(n) => n > 0,
        None => false,
    }
}

/// Every outcome of the wallet-height query, classified.
pub open spec fn height_post(resp: RemoteResult, r: Result<u64, Error>) -> bool {
    &&& passes_failures(resp, r)
    &&& resp matches RemoteResult::Value(v) ==> {
        &&& height_well_formed(v) ==> (r matches Ok(n) && spec_num(obj_entries(v), "height"@)
            == Some(n))
        &&& !height_well_formed(v) ==> (r matches Err(e) && e matches Error::Decode(_))
    }
}

/// Decode the wallet-height response; the wallet always knows at least the
/// genesis block, so a zero height is out of range.
pub fn get_height_from_response(resp: RemoteResult) -> (r: Result<u64, Error>)
    ensures
        height_post(resp, r),
{
    let v = match value_of(resp) {
        Ok(v) => v,
        Err(e) => {
            return Err(e);
        },
    };
    let es = match v {
        JsonValue::Obj(es) => es,
        _ => {
            return Err(Error::Decode(DecodeError::WrongType(String::from_str("result"))));
        },
    };
    let n = match get_num(&es, "height") {
        Ok(n) => n,
        Err(e) => {
            return Err(Error::Decode(e));
        },
    };
    if n == 0 {
        return Err(Error::Decode(DecodeError::OutOfRange));
    }
    Ok(n)
}

// ---------------------------------------------------------------- transfer

/// The length an optional field contributes to a payload: one entry when
/// present, none when absent.
pub open spec fn opt_len<A>(o: Option<A>) -> int {
    match o {
        Some(_) => 1,
        None => 0,
    }
}

/// Whether a JSON value is the wire object of one transfer destination.
pub open spec fn dest_obj_matches(v: JsonValue, d: (Address, u64)) -> bool {
    &&& v matches JsonValue::Obj(es)
    &&& keys_of(es@) == seq!["address"@, "amount"@]
    &&& lookup(es@, "address"@) == Some(JsonValue::Str(d.0.text))
    &&& lookup(es@, "amount"@) == Some(JsonValue::Num(d.1))
}

/// Whether a JSON array is the wire form of a destination list.
pub open spec fn dests_match(ds: Seq<JsonValue>, dest: Seq<(Address, u64)>) -> bool {
    ds.len() == dest.len() && forall|i: int| 0 <= i < dest.len() ==> dest_obj_matches(
        #[trigger] ds[i],
        dest[i],
    )
}

/// Serialize the destination list as a JSON array of `{address, amount}`
/// objects.
#[verifier::loop_isolation(false)]
fn destinations_array(destinations: &Vec<(Address, u64)>) -> (r: JsonValue)
    ensures
        r matches JsonValue::Arr(ds) && dests_match(ds@, destinations@),
{
    let mut ds: Vec<JsonValue> = Vec::new();
    let mut i: usize = 0;
    while i < destinations.len()
        invariant
            i <= destinations@.len(),
            ds@.len() == i,
            forall|j: int| 0 <= j < i ==> dest_obj_matches(#[trigger] ds@[j], destinations@[j]),
        decreases destinations@.len() - i,
    {
        let mut oes: Vec<(String, JsonValue)> = Vec::new();
        oes.push((String::from_str("address"), JsonValue::Str(destinations[i].0.text.clone())));
        oes.push((String::from_str("amount"), JsonValue::Num(destinations[i].1)));
        proof {
            reveal_strlit("address");
            reveal_strlit("amount");
            assert("address"@.len() == 7);
            assert("amount"@.len() == 6);
            assert("address"@ != "amount"@);
            assert(keys_of(oes@) =~= seq!["address"@, "amount"@]);
        }
        ds.push(JsonValue::Obj(oes));
        i += 1;
    }
    JsonValue::Arr(ds)
}

/// Whether named entries are exactly the transfer call's payload: the
/// destinations and the priority, each optional knob's entry exactly when
/// the knob is set, and the three trailing flags that ask the node to
/// return the key, the hex form and the metadata of the new transaction.
pub open spec fn transfer_params_match(
    destinations: Seq<(Address, u64)>,
    priority: TransferPriority,
    o: TransferOptions,
    es: Seq<(String, JsonValue)>,
) -> bool {
    let n0 = 2int;
    let n1 = n0 + opt_len(o.account_index);
    let n2 = n1 + opt_len(o.subaddr_indices);
    let n3 = n2 + opt_len(o.mixin);
    let n4 = n3 + opt_len(o.ring_size);
    let n5 = n4 + opt_len(o.unlock_time);
    let n6 = n5 + opt_len(o.payment_id);
    let n7 = n6 + opt_len(o.do_not_relay);
    &&& es.len() == n7 + 3
    &&& es[0].0@ == "destinations"@
    &&& (es[0].1 matches JsonValue::Arr(ds) && dests_match(ds@, destinations))
    &&& es[1].0@ == "priority"@
    &&& es[1].1 == JsonValue::Num(priority_to_wire(priority) as u64)
    &&& o.account_index matches Some(n) ==> (es[n0].0@ == "account_index"@ && es[n0].1
        == JsonValue::Num(n))
    &&& o.subaddr_indices matches Some(xs) ==> (es[n1].0@ == "subaddr_indices"@ && (es[n1].1 matches
        JsonValue::Arr(vs) && nums_match(vs@, xs@)))
    &&& o.mixin matches Some(m) ==> (es[n2].0@ == "mixin"@ && es[n2].1 == JsonValue::Num(m))
    &&& o.ring_size matches Some(m) ==> (es[n3].0@ == "ring_size"@ && es[n3].1 == JsonValue::Num(m))
    &&& o.unlock_time matches Some(m) ==> (es[n4].0@ == "unlock_time"@ && es[n4].1
        == JsonValue::Num(m))
    &&& o.payment_id matches Some(pid) ==> (es[n5].0@ == "payment_id"@ && (es[n5].1 matches
        JsonValue::Str(s) && s@ == hex_of(pid@)))
    &&& o.do_not_relay matches Some(b) ==> (es[n6].0@ == "do_not_relay"@ && es[n6].1
        == JsonValue::Bool(b))
    &&& es[n7].0@ == "get_tx_key"@ && es[n7].1 == JsonValue::Bool(true)
    &&& es[n7 + 1].0@ == "get_tx_hex"@ && es[n7 + 1].1 == JsonValue::Bool(true)
    &&& es[n7 + 2].0@ == "get_tx_metadata"@ && es[n7 + 2].1 == JsonValue::Bool(true)
}

/// The named payload of the transfer call.
#[verifier::rlimit(100)]
pub fn transfer_params(
    destinations: &Vec<(Address, u64)>,
    priority: TransferPriority,
    options: TransferOptions,
) -> (p: RpcParams)
    ensures
        p matches RpcParams::Named(es) && transfer_params_match(
            destinations@,
            priority,
            options,
            es@,
        ),
{
    let ghost o = options;
    let ds = destinations_array(destinations);
    let mut es: Vec<(String, JsonValue)> = Vec::new();
    es.push((String::from_str("destinations"), ds));
    es.push((String::from_str("priority"), JsonValue::Num(priority.encode() as u64)));
    match options.account_index {
        Some(n) => {
            es.push((String::from_str("account_index"), JsonValue::Num(n)));
        },
        None => {},
    }
    match options.subaddr_indices {
        Some(xs) => {
            es.push((String::from_str("subaddr_indices"), nums_array(&xs)));
        },
        None => {},
    }
    match options.mixin {
        Some(m) => {
            es.push((String::from_str("mixin"), JsonValue::Num(m)));
        },
        None => {},
    }
    match options.ring_size {
        Some(m) => {
            es.push((String::from_str("ring_size"), JsonValue::Num(m)));
        },
        None => {},
    }
    match options.unlock_time {
        Some(m) => {
            es.push((String::from_str("unlock_time"), JsonValue::Num(m)));
        },
        None => {},
    }
    match options.payment_id {
        Some(pid) => {
            es.push((String::from_str("payment_id"), JsonValue::Str(pid.to_hex())));
        },
        None => {},
    }
    match options.do_not_relay {
        Some(b) => {
            es.push((String::from_str("do_not_relay"), JsonValue::Bool(b)));
        },
        None => {},
    }
    es.push((String::from_str("get_tx_key"), JsonValue::Bool(true)));
    es.push((String::from_str("get_tx_hex"), JsonValue::Bool(true)));
    es.push((String::from_str("get_tx_metadata"), JsonValue::Bool(true)));
    proof {
        assert(transfer_params_match(destinations@, priority, o, es@));
    }
    RpcParams::Named(es)
}

/// A well-formed transfer result: the new transaction's hash, key, amounts
/// and serialized forms.
pub open spec fn transfer_well_formed(v: JsonValue) -> bool {
    &&& v matches JsonValue::Obj(_)
    &&& spec_num(obj_entries(v), "amount"@) is Some
    &&& spec_num(obj_entries(v), "fee"@) is Some
    &&& match spec_str(obj_entries(v), "tx_hash"@) {
        Some(s) => spec_hex_n(s, 32) is Some,
        None => false,
    }
    &&& match spec_str(obj_entries(v), "tx_key"@) {
        Some(s) => spec_hex_n(s, 32) is Some,
        None => false,
    }
    &&& match spec_str(obj_entries(v), "tx_blob"@) {
        Some(s) => spec_hex_any(s) is Some,
        None => false,
    }
    &&& match spec_str(obj_entries(v), "tx_metadata"@) {
        Some(s) => spec_hex_any(s) is Some,
        None => false,
    }
}

/// Whether typed transfer data carries exactly the fields of a result
/// value.
pub open spec fn transfer_matches(v: JsonValue, t: TransferData) -> bool {
    &&& spec_num(obj_entries(v), "amount"@) == Some(t.amount)
    &&& spec_num(obj_entries(v), "fee"@) == Some(t.fee)
    &&& match spec_str(obj_entries(v), "tx_hash"@) {
        Some(s) => spec_hex_n(s, 32) == Some(t.tx_hash@),
        None => false,
    }
    &&& match spec_str(obj_entries(v), "tx_key"@) {
        Some(s) => spec_hex_n(s, 32) == Some(t.tx_key@),
        None => false,
    }
    &&& match spec_str(obj_entries(v), "tx_blob"@) {
        Some(s) => spec_hex_any(s) == Some(t.tx_blob@),
        None => false,
    }
    &&& match spec_str(obj_entries(v), "tx_metadata"@) {
        Some(s) => spec_hex_any(s) == Some(t.tx_metadata@),
        None => false,
    }
}

/// Every outcome of the transfer call, classified.
pub open spec fn transfer_post(resp: RemoteResult, r: Result<TransferData, Error>) -> bool {
    &&& passes_failures(resp, r)
    &&& resp matches RemoteResult::Value(v) ==> {
        &&& transfer_well_formed(v) ==> (r matches Ok(t) && transfer_matches(v, t))
        &&& !transfer_well_formed(v) ==> (r matches Err(e) && e matches Error::Decode(_))
    }
}

/// Decode the transfer response.
pub fn transfer_from_response(resp: RemoteResult) -> (r: Result<TransferData, Error>)
    ensures
        transfer_post(resp, r),
{
    let v = match value_of(resp) {
        Ok(v) => v,
        Err(e) => {
            return Err(e);
        },
    };
    let es = match v {
        JsonValue::Obj(es) => es,
        _ => {
            return Err(Error::Decode(DecodeError::WrongType(String::from_str("result"))));
        },
    };
    let amount = match get_num(&es, "amount") {
        Ok(n) => n,
        Err(e) => {
            return Err(Error::Decode(e));
        },
    };
    let fee = match get_num(&es, "fee") {
        Ok(n) => n,
        Err(e) => {
            return Err(Error::Decode(e));
        },
    };
    let tx_hash = match get_str(&es, "tx_hash") {
        Ok(s) => match HashDigest::from_hex(s.as_str()) {
            Ok(h) => h,
            Err(e) => {
                return Err(Error::Decode(e));
            },
        },
        Err(e) => {
            return Err(Error::Decode(e));
        },
    };
    let tx_key = match get_str(&es, "tx_key") {
        Ok(s) => match HashDigest::from_hex(s.as_str()) {
            Ok(h) => h,
            Err(e) => {
                return Err(Error::Decode(e));
            },
        },
        Err(e) => {
            return Err(Error::Decode(e));
        },
    };
    let tx_blob = match get_str(&es, "tx_blob") {
        Ok(s) => match crate::hex::decode(s.as_str()) {
            Ok(b) => b,
            Err(e) => {
                return Err(Error::Decode(e));
            },
        },
        Err(e) => {
            return Err(Error::Decode(e));
        },
    };
    let tx_metadata = match get_str(&es, "tx_metadata") {
        Ok(s) => match crate::hex::decode(s.as_str()) {
            Ok(b) => b,
            Err(e) => {
                return Err(Error::Decode(e));
            },
        },
        Err(e) => {
            return Err(Error::Decode(e));
        },
    };
    Ok(TransferData { tx_hash, tx_key, amount, fee, tx_blob, tx_metadata })
}

// ------------------------------------------------------------ sign transfer

/// The named payload of the cold-signing call: the unsigned transaction
/// set's hex spelling, and the flag asking for the raw transactions back.
pub fn sign_transfer_params(unsigned_txset: &Vec<u8>) -> (p: RpcParams)
    ensures
        p matches RpcParams::Named(es) && {
            &&& keys_of(es@) == seq!["unsigned_txset"@, "export_raw"@]
            &&& match lookup(es@, "unsigned_txset"@) {
                Some(JsonValue::Str(s)) => s@ == hex_of(unsigned_txset@),
                _ => false,
            }
            &&& lookup(es@, "export_raw"@) == Some(JsonValue::Bool(true))
        },
{
    let mut es: Vec<(String, JsonValue)> = Vec::new();
    es.push((String::from_str("unsigned_txset"), JsonValue::Str(crate::hex::encode(unsigned_txset))));
    es.push((String::from_str("export_raw"), JsonValue::Bool(true)));
    proof {
        reveal_strlit("unsigned_txset");
        reveal_strlit("export_raw");
        assert("unsigned_txset"@.len() == 14);
        assert("export_raw"@.len() == 10);
        assert("unsigned_txset"@ != "export_raw"@);
        assert(keys_of(es@) =~= seq!["unsigned_txset"@, "export_raw"@]);
    }
    RpcParams::Named(es)
}

/// A well-formed cold-signing result: the signed set and the two lists.
pub open spec fn sign_transfer_well_formed(v: JsonValue) -> bool {
    &&& v matches JsonValue::Obj(_)
    &&& match spec_str(obj_entries(v), "signed_txset"@) {
        Some(s) => spec_hex_any(s) is Some,
        None => false,
    }
    &&& match lookup(obj_entries(v), "tx_hash_list"@) {
        Some(JsonValue::Arr(a)) => hex_n_arr_well_formed(a@, 32),
        _ => false,
    }
    &&& match lookup(obj_entries(v), "tx_raw_list"@) {
        Some(JsonValue::Arr(a)) => hex_arr_well_formed(a@),
        _ => false,
    }
}

/// Whether a typed signing output carries exactly the fields of a result
/// value.
pub open spec fn sign_transfer_matches(v: JsonValue, t: SignedTransferOutput) -> bool {
    &&& match spec_str(obj_entries(v), "signed_txset"@) {
        Some(s) => spec_hex_any(s) == Some(t.signed_txset@),
        None => false,
    }
    &&& match lookup(obj_entries(v), "tx_hash_list"@) {
        Some(JsonValue::Arr(a)) => t.tx_hash_list@.len() == a@.len() && forall|i: int|
            0 <= i < a@.len() ==> Some(#[trigger] t.tx_hash_list@[i]@) == spec_hex_n(
                str_value(a@[i]),
                32,
            ),
        _ => false,
    }
    &&& match lookup(obj_entries(v), "tx_raw_list"@) {
        Some(JsonValue::Arr(a)) => t.tx_raw_list@.len() == a@.len() && forall|i: int|
            0 <= i < a@.len() ==> Some(#[trigger] t.tx_raw_list@[i]@) == spec_hex_any(
                str_value(a@[i]),
            ),
        _ => false,
    }
}

/// Every outcome of the cold-signing call, classified.
pub open spec fn sign_transfer_post(resp: RemoteResult, r: Result<SignedTransferOutput, Error>) -> bool {
    &&& passes_failures(resp, r)
    &&& resp matches RemoteResult::Value(v) ==> {
        &&& sign_transfer_well_formed(v) ==> (r matches Ok(t) && sign_transfer_matches(v, t))
        &&& !sign_transfer_well_formed(v) ==> (r matches Err(e) && e matches Error::Decode(_))
    }
}

/// Decode the cold-signing response.
pub fn sign_transfer_from_response(resp: RemoteResult) -> (r: Result<SignedTransferOutput, Error>)
    ensures
        sign_transfer_post(resp, r),
{
    let v = match value_of(resp) {
        Ok(v) => v,
        Err(e) => {
            return Err(e);
        },
    };
    let es = match v {
        JsonValue::Obj(es) => es,
        _ => {
            return Err(Error::Decode(DecodeError::WrongType(String::from_str("result"))));
        },
    };
    let signed_txset = match get_str(&es, "signed_txset") {
        Ok(s) => match crate::hex::decode(s.as_str()) {
            Ok(b) => b,
            Err(e) => {
                return Err(Error::Decode(e));
            },
        },
        Err(e) => {
            return Err(Error::Decode(e));
        },
    };
    let tx_hash_list = match crate::json::get_arr(&es, "tx_hash_list") {
        Ok(a) => match decode_hash32_array(a) {
            Ok(hs) => hs,
            Err(e) => {
                return Err(Error::Decode(e));
            },
        },
        Err(e) => {
            return Err(Error::Decode(e));
        },
    };
    let tx_raw_list = match crate::json::get_arr(&es, "tx_raw_list") {
        Ok(a) => match decode_hex_array(a) {
            Ok(bs) => bs,
            Err(e) => {
                return Err(Error::Decode(e));
            },
        },
        Err(e) => {
            return Err(Error::Decode(e));
        },
    };
    Ok(SignedTransferOutput { signed_txset, tx_hash_list, tx_raw_list })
}

// ---------------------------------------------------------- submit transfer

/// The named payload of the cold-submit call: the signed transaction
/// data's hex spelling.
pub fn submit_transfer_params(tx_data_hex: &Vec<u8>) -> (p: RpcParams)
    ensures
        p matches RpcParams::Named(es) && {
            &&& keys_of(es@) == seq!["tx_data_hex"@]
            &&& match lookup(es@, "tx_data_hex"@) {
                Some(JsonValue::Str(s)) => s@ == hex_of(tx_data_hex@),
                _ => false,
            }
        },
{
    let mut es: Vec<(String, JsonValue)> = Vec::new();
    es.push((String::from_str("tx_data_hex"), JsonValue::Str(crate::hex::encode(tx_data_hex))));
    proof {
        assert(keys_of(es@) =~= seq!["tx_data_hex"@]);
    }
    RpcParams::Named(es)
}

/// A well-formed cold-submit result: the list of submitted transaction
/// hashes.
pub open spec fn submit_transfer_well_formed(v: JsonValue) -> bool {
    &&& v matches JsonValue::Obj(_)
    &&& match lookup(obj_entries(v), "tx_hash_list"@) {
        Some(JsonValue::Arr(a)) => hex_n_arr_well_formed(a@, 32),
        _ => false,
    }
}

/// Every outcome of the cold-submit call, classified.
pub open spec fn submit_transfer_post(resp: RemoteResult, r: Result<Vec<HashDigest>, Error>) -> bool {
    &&& passes_failures(resp, r)
    &&& resp matches RemoteResult::Value(v) ==> {
        &&& submit_transfer_well_formed(v) ==> (r matches Ok(hs) && match lookup(
            obj_entries(v),
            "tx_hash_list"@,
        ) {
            Some(JsonValue::Arr(a)) => hs@.len() == a@.len() && forall|i: int|
                0 <= i < a@.len() ==> Some(#[trigger] hs@[i]@) == spec_hex_n(str_value(a@[i]), 32),
            _ => false,
        })
        &&& !submit_transfer_well_formed(v) ==> (r matches Err(e) && e matches Error::Decode(_))
    }
}

/// Decode the cold-submit response.
pub fn submit_transfer_from_response(resp: RemoteResult) -> (r: Result<Vec<HashDigest>, Error>)
    ensures
        submit_transfer_post(resp, r),
{
    let v = match value_of(resp) {
        Ok(v) => v,
        Err(e) => {
            return Err(e);
        },
    };
    let es = match v {
        JsonValue::Obj(es) => es,
        _ => {
            return Err(Error::Decode(DecodeError::WrongType(String::from_str("result"))));
        },
    };
    match crate::json::get_arr(&es, "tx_hash_list") {
        Ok(a) => match decode_hash32_array(a) {
            Ok(hs) => Ok(hs),
            Err(e) => Err(Error::Decode(e)),
        },
        Err(e) => Err(Error::Decode(e)),
    }
}

// --------------------------------------------------------------- key images

/// Whether a JSON value is a well-formed signed-key-image object.
pub open spec fn key_image_well_formed(v: JsonValue) -> bool {
    &&& v matches JsonValue::Obj(_)
    &&& match spec_str(obj_entries(v), "key_image"@) {
        Some(s) => spec_hex_any(s) is Some,
        None => false,
    }
    &&& match spec_str(obj_entries(v), "signature"@) {
        Some(s) => spec_hex_any(s) is Some,
        None => false,
    }
}

/// Whether a typed signed key image carries exactly the fields of an
/// object.
pub open spec fn key_image_matches(v: JsonValue, k: SignedKeyImage) -> bool {
    &&& match spec_str(obj_entries(v), "key_image"@) {
        Some(s) => spec_hex_any(s) == Some(k.key_image@),
        None => false,
    }
    &&& match spec_str(obj_entries(v), "signature"@) {
        Some(s) => spec_hex_any(s) == Some(k.signature@),
        None => false,
    }
}

/// Decode one signed-key-image object.
fn decode_key_image(v: &JsonValue) -> (r: Result<SignedKeyImage, DecodeError>)
    ensures
        key_image_well_formed(*v) ==> (r matches Ok(k) && key_image_matches(*v, k)),
        !key_image_well_formed(*v) ==> r matches Err(_),
{
    let es = match v {
        JsonValue::Obj(es) => es,
        _ => {
            return Err(DecodeError::WrongType(String::from_str("signed_key_images")));
        },
    };
    let key_image = match get_str(es, "key_image") {
        Ok(s) => match crate::hex::decode(s.as_str()) {
            Ok(b) => b,
            Err(e) => {
                return Err(e);
            },
        },
        Err(e) => {
            return Err(e);
        },
    };
    let signature = match get_str(es, "signature") {
        Ok(s) => match crate::hex::decode(s.as_str()) {
            Ok(b) => b,
            Err(e) => {
                return Err(e);
            },
        },
        Err(e) => {
            return Err(e);
        },
    };
    Ok(SignedKeyImage { key_image, signature })
}

/// Whether every element of a JSON array is a well-formed signed key
/// image.
pub open spec fn key_images_arr_well_formed(a: Seq<JsonValue>) -> bool {
    forall|i: int| 0 <= i < a.len() ==> key_image_well_formed(#[trigger] a[i])
}

/// Whether typed key images match a JSON array element for element.
pub open spec fn key_images_match(a: Seq<JsonValue>, ks: Seq<SignedKeyImage>) -> bool {
    ks.len() == a.len() && forall|i: int| 0 <= i < a.len() ==> key_image_matches(
        #[trigger] a[i],
        ks[i],
    )
}

/// Decode an array of signed-key-image objects.
#[verifier::loop_isolation(false)]
fn decode_key_images_array(a: &Vec<JsonValue>) -> (r: Result<Vec<SignedKeyImage>, DecodeError>)
    ensures
        key_images_arr_well_formed(a@) ==> (r matches Ok(ks) && key_images_match(a@, ks@)),
        !key_images_arr_well_formed(a@) ==> r matches Err(_),
{
    let mut ks: Vec<SignedKeyImage> = Vec::new();
    let mut i: usize = 0;
    while i < a.len()
        invariant
            i <= a@.len(),
            ks@.len() == i,
            forall|j: int|
                0 <= j < i ==> key_image_matches(#[trigger] a@[j], ks@[j]) && key_image_well_formed(
                    a@[j],
                ),
        decreases a@.len() - i,
    {
        match decode_key_image(&a[i]) {
            Ok(k) => ks.push(k),
            Err(e) => {
                proof {
                    assert(!key_image_well_formed(a@[i as int]));
                }
                return Err(e);
            },
        }
        i += 1;
    }
    Ok(ks)
}

/// A well-formed key-image-export result: a `signed_key_images` array when
/// present; a missing field means no key images at all.
pub open spec fn export_key_images_well_formed(v: JsonValue) -> bool {
    &&& v matches JsonValue::Obj(_)
    &&& match lookup(obj_entries(v), "signed_key_images"@) {
        Some(JsonValue::Arr(a)) => key_images_arr_well_formed(a@),
        Some(_) => false,
        None => true,
    }
}

/// Every outcome of the key-image export, classified.
pub open spec fn export_key_images_post(
    resp: RemoteResult,
    r: Result<Vec<SignedKeyImage>, Error>,
) -> bool {
    &&& passes_failures(resp, r)
    &&& resp matches RemoteResult::Value(v) ==> {
        &&& export_key_images_well_formed(v) ==> (r matches Ok(ks) && match lookup(
            obj_entries(v),
            "signed_key_images"@,
        ) {
            Some(JsonValue::Arr(a)) => key_images_match(a@, ks@),
            Some(_) => false,
            None => ks@.len() == 0,
        })
        &&& !export_key_images_well_formed(v) ==> (r matches Err(e) && e matches Error::Decode(_))
    }
}

/// Decode the key-image-export response.
pub fn export_key_images_from_response(resp: RemoteResult) -> (r: Result<
    Vec<SignedKeyImage>,
    Error,
>)
    ensures
        export_key_images_post(resp, r),
{
    let v = match value_of(resp) {
        Ok(v) => v,
        Err(e) => {
            return Err(e);
        },
    };
    let es = match v {
        JsonValue::Obj(es) => es,
        _ => {
            return Err(Error::Decode(DecodeError::WrongType(String::from_str("result"))));
        },
    };
    match obj_get(&es, "signed_key_images") {
        None => Ok(Vec::new()),
        Some(JsonValue::Arr(a)) => match decode_key_images_array(a) {
            Ok(ks) => Ok(ks),
            Err(e) => Err(Error::Decode(e)),
        },
        Some(_) => Err(
            Error::Decode(DecodeError::WrongType(String::from_str("signed_key_images"))),
        ),
    }
}

/// Whether a JSON value is the wire object of one signed key image: its
/// two fields in order, each in its lowercase hex spelling.
pub open spec fn key_image_wire_obj(v: JsonValue, k: SignedKeyImage) -> bool {
    &&& v matches JsonValue::Obj(es)
    &&& keys_of(es@) == seq!["key_image"@, "signature"@]
    &&& match lookup(es@, "key_image"@) {
        Some(JsonValue::Str(s)) => s@ == hex_of(k.key_image@),
        _ => false,
    }
    &&& match lookup(es@, "signature"@) {
        Some(JsonValue::Str(s)) => s@ == hex_of(k.signature@),
        _ => false,
    }
}

/// The named payload of the key-image import: each image and signature in
/// its lowercase hex spelling, in input order.
#[verifier::loop_isolation(false)]
pub fn import_key_images_params(signed_key_images: &Vec<SignedKeyImage>) -> (p: RpcParams)
    ensures
        p matches RpcParams::Named(es) && {
            &&& keys_of(es@) == seq!["signed_key_images"@]
            &&& match lookup(es@, "signed_key_images"@) {
                Some(JsonValue::Arr(a)) => a@.len() == signed_key_images@.len() && forall|i: int|
                    0 <= i < a@.len() ==> key_image_wire_obj(
                        #[trigger] a@[i],
                        signed_key_images@[i],
                    ),
                _ => false,
            }
        },
{
    let mut a: Vec<JsonValue> = Vec::new();
    let mut i: usize = 0;
    while i < signed_key_images.len()
        invariant
            i <= signed_key_images@.len(),
            a@.len() == i,
            forall|j: int|
                0 <= j < i ==> key_image_wire_obj(#[trigger] a@[j], signed_key_images@[j]),
        decreases signed_key_images@.len() - i,
    {
        let mut oes: Vec<(String, JsonValue)> = Vec::new();
        oes.push(
            (
                String::from_str("key_image"),
                JsonValue::Str(crate::hex::encode(&signed_key_images[i].key_image)),
            ),
        );
        oes.push(
            (
                String::from_str("signature"),
                JsonValue::Str(crate::hex::encode(&signed_key_images[i].signature)),
            ),
        );
        proof {
            reveal_strlit("key_image");
            reveal_strlit("signature");
            assert("key_image"@[0] == 'k');
            assert("signature"@[0] == 's');
            assert("key_image"@ != "signature"@);
            assert(keys_of(oes@) =~= seq!["key_image"@, "signature"@]);
        }
        a.push(JsonValue::Obj(oes));
        i += 1;
    }
    let mut es: Vec<(String, JsonValue)> = Vec::new();
    es.push((String::from_str("signed_key_images"), JsonValue::Arr(a)));
    proof {
        assert(keys_of(es@) =~= seq!["signed_key_images"@]);
    }
    RpcParams::Named(es)
}

/// A well-formed key-image-import result: the chain height and the spent
/// and unspent totals.
pub open spec fn import_key_images_well_formed(v: JsonValue) -> bool {
    &&& v matches JsonValue::Obj(_)
    &&& spec_num(obj_entries(v), "height"@) is Some
    &&& spec_num(obj_entries(v), "spent"@) is Some
    &&& spec_num(obj_entries(v), "unspent"@) is Some
}

/// Every outcome of the key-image import, classified.
pub open spec fn import_key_images_post(
    resp: RemoteResult,
    r: Result<KeyImageImportResponse, Error>,
) -> bool {
    &&& passes_failures(resp, r)
    &&& resp matches RemoteResult::Value(v) ==> {
        &&& import_key_images_well_formed(v) ==> (r matches Ok(o) && spec_num(
            obj_entries(v),
            "height"@,
        ) == Some(o.height) && spec_num(obj_entries(v), "spent"@) == Some(o.spent) && spec_num(
            obj_entries(v),
            "unspent"@,
        ) == Some(o.unspent))
        &&& !import_key_images_well_formed(v) ==> (r matches Err(e) && e matches Error::Decode(_))
    }
}

/// Decode the key-image-import response.
pub fn import_key_images_from_response(resp: RemoteResult) -> (r: Result<
    KeyImageImportResponse,
    Error,
>)
    ensures
        import_key_images_post(resp, r),
{
    let v = match value_of(resp) {
        Ok(v) => v,
        Err(e) => {
            return Err(e);
        },
    };
    let es = match v {
        JsonValue::Obj(es) => es,
        _ => {
            return Err(Error::Decode(DecodeError::WrongType(String::from_str("result"))));
        },
    };
    let height = match get_num(&es, "height") {
        Ok(n) => n,
        Err(e) => {
            return Err(Error::Decode(e));
        },
    };
    let spent = match get_num(&es, "spent") {
        Ok(n) => n,
        Err(e) => {
            return Err(Error::Decode(e));
        },
    };
    let unspent = match get_num(&es, "unspent") {
        Ok(n) => n,
        Err(e) => {
            return Err(Error::Decode(e));
        },
    };
    Ok(KeyImageImportResponse { height, spent, unspent })
}

// ------------------------------------------------------------- check tx key

/// The named payload of the transaction-key check.
pub fn check_tx_key_params(txid: &HashDigest, tx_key: &HashDigest, address: &Address) -> (p:
    RpcParams)
    ensures
        p matches RpcParams::Named(es) && {
            &&& keys_of(es@) == seq!["txid"@, "tx_key"@, "address"@]
            &&& match lookup(es@, "txid"@) {
                Some(JsonValue::Str(s)) => s@ == hex_of(txid@),
                _ => false,
            }
            &&& match lookup(es@, "tx_key"@) {
                Some(JsonValue::Str(s)) => s@ == hex_of(tx_key@),
                _ => false,
            }
            &&& match lookup(es@, "address"@) {
                Some(JsonValue::Str(s)) => s@ == address.text@,
                _ => false,
            }
        },
{
    let mut es: Vec<(String, JsonValue)> = Vec::new();
    es.push((String::from_str("txid"), JsonValue::Str(txid.to_hex())));
    es.push((String::from_str("tx_key"), JsonValue::Str(tx_key.to_hex())));
    es.push((String::from_str("address"), JsonValue::Str(address.text.clone())));
    proof {
        reveal_strlit("txid");
        reveal_strlit("tx_key");
        reveal_strlit("address");
        assert("txid"@.len() == 4);
        assert("tx_key"@.len() == 6);
        assert("address"@.len() == 7);
        assert("txid"@ != "tx_key"@);
        assert("txid"@ != "address"@);
        assert("tx_key"@ != "address"@);
        assert(keys_of(es@) =~= seq!["txid"@, "tx_key"@, "address"@]);
    }
    RpcParams::Named(es)
}

/// A well-formed key-check result: positive confirmation and receipt
/// counts and the pool flag.
pub open spec fn check_tx_key_well_formed(v: JsonValue) -> bool {
    &&& v matches JsonValue::Obj(_)
    &&& match spec_num(obj_entries(v), "confirmations"@) {
        Some(n) => n > 0,
        None => false,
    }
    &&& spec_bool(obj_entries(v), "in_pool"@) is Some
    &&& match spec_num(obj_entries(v), "received"@) {
        Some(n) => n > 0,
        None => false,
    }
}

/// Every outcome of the transaction-key check, classified.
pub open spec fn check_tx_key_post(resp: RemoteResult, r: Result<(u64, bool, u64), Error>) -> bool {
    &&& passes_failures(resp, r)
    &&& resp matches RemoteResult::Value(v) ==> {
        &&& check_tx_key_well_formed(v) ==> (r matches Ok(t) && spec_num(
            obj_entries(v),
            "confirmations"@,
        ) == Some(t.0) && spec_bool(obj_entries(v), "in_pool"@) == Some(t.1) && spec_num(
            obj_entries(v),
            "received"@,
        ) == Some(t.2))
        &&& !check_tx_key_well_formed(v) ==> (r matches Err(e) && e matches Error::Decode(_))
    }
}

/// Decode the transaction-key-check response; the confirmation and receipt
/// counts must be nonzero.
pub fn check_tx_key_from_response(resp: RemoteResult) -> (r: Result<(u64, bool, u64), Error>)
    ensures
        check_tx_key_post(resp, r),
{
    let v = match value_of(resp) {
        Ok(v) => v,
        Err(e) => {
            return Err(e);
        },
    };
    let es = match v {
        JsonValue::Obj(es) => es,
        _ => {
            return Err(Error::Decode(DecodeError::WrongType(String::from_str("result"))));
        },
    };
    let confirmations = match get_num(&es, "confirmations") {
        Ok(n) => n,
        Err(e) => {
            return Err(Error::Decode(e));
        },
    };
    let in_pool = match get_bool(&es, "in_pool") {
        Ok(b) => b,
        Err(e) => {
            return Err(Error::Decode(e));
        },
    };
    let received = match get_num(&es, "received") {
        Ok(n) => n,
        Err(e) => {
            return Err(Error::Decode(e));
        },
    };
    if confirmations == 0 || received == 0 {
        return Err(Error::Decode(DecodeError::OutOfRange));
    }
    Ok((confirmations, in_pool, received))
}

// ----------------------------------------------------------------- version

/// The major and minor halves of the node's packed version word: the major
/// version is the high 16 bits, the minor the low 16.
pub open spec fn version_split(n: u64) -> (u16, u16) {
    (((n / 65536) as u16), ((n % 65536) as u16))
}

/// A well-formed version result: a version word that fits 32 bits.
pub open spec fn version_well_formed(v: JsonValue) -> bool {
    &&& v matches JsonValue::Obj(_)
    &&& match spec_num(obj_entries(v), "version"@) {
        Some(n) => n <= 0xFFFF_FFFF,
        None => false,
    }
}

/// Every outcome of the version query, classified.
pub open spec fn version_post(resp: RemoteResult, r: Result<(u16, u16), Error>) -> bool {
    &&& passes_failures(resp, r)
    &&& resp matches RemoteResult::Value(v) ==> {
        &&& version_well_formed(v) ==> (r matches Ok(p) && match spec_num(
            obj_entries(v),
            "version"@,
        ) {
            Some(n) => p == version_split(n),
            None => false,
        })
        &&& !version_well_formed(v) ==> (r matches Err(e) && e matches Error::Decode(_))
    }
}

/// Decode the version response: a version word beyond 32 bits cannot split
/// into the two 16-bit halves and is a numeric overflow.
pub fn get_version_from_response(resp: RemoteResult) -> (r: Result<(u16, u16), Error>)
    ensures
        version_post(resp, r),
{
    let v = match value_of(resp) {
        Ok(v) => v,
        Err(e) => {
            return Err(e);
        },
    };
    let es = match v {
        JsonValue::Obj(es) => es,
        _ => {
            return Err(Error::Decode(DecodeError::WrongType(String::from_str("result"))));
        },
    };
    let n = match get_num(&es, "version") {
        Ok(n) => n,
        Err(e) => {
            return Err(Error::Decode(e));
        },
    };
    if n > 0xFFFF_FFFF {
        return Err(Error::Decode(DecodeError::Overflow));
    }
    let major = (n / 65536) as u16;
    let minor = (n % 65536) as u16;
    Ok((major, minor))
}

// ------------------------------------------------------------ get transfers

use crate::models::GetTransfersSelector;

/// Whether named entries are exactly the transfer-history payload: one
/// boolean entry per selected category in order, then the height-filter
/// trio when a range is given, then the optional account and sub-address
/// filters. The `filter_by_height` flag is set whenever a range is given
/// at all, even when neither bound resolves to a concrete value.
pub open spec fn transfers_params_match(s: GetTransfersSelector, es: Seq<(String, JsonValue)>) -> bool {
    let nc = s.category_selector@.len() as int;
    let nf = match s.filter_by_height {
        None => 0int,
        Some(r) => 1 + opt_len(spec_min_height(r.start)) + opt_len(spec_max_height(r.end)),
    };
    let na = opt_len(s.account_index);
    &&& es.len() == nc + nf + na + opt_len(s.subaddr_indices)
    &&& forall|i: int|
        0 <= i < nc ==> ((#[trigger] es[i]).0@ == category_key(s.category_selector@[i].0)
            && es[i].1 == JsonValue::Bool(s.category_selector@[i].1))
    &&& s.filter_by_height matches Some(r) ==> {
        &&& es[nc].0@ == "filter_by_height"@ && es[nc].1 == JsonValue::Bool(true)
        &&& spec_min_height(r.start) matches Some(m) ==> (es[nc + 1].0@ == "min_height"@ && es[nc
            + 1].1 == JsonValue::Num(m))
        &&& spec_max_height(r.end) matches Some(m) ==> {
            let at = nc + 1 + opt_len(spec_min_height(r.start));
            es[at].0@ == "max_height"@ && es[at].1 == JsonValue::Num(m)
        }
    }
    &&& s.account_index matches Some(n) ==> (es[nc + nf].0@ == "account_index"@ && es[nc + nf].1
        == JsonValue::Num(n))
    &&& s.subaddr_indices matches Some(xs) ==> (es[nc + nf + na].0@ == "subaddr_indices"@ && (es[nc
        + nf + na].1 matches JsonValue::Arr(vs) && nums_match(vs@, xs@)))
}

/// Whether a transfer-history selector selects nothing at all, so that
/// the built parameter set is entirely empty.
pub open spec fn transfers_selector_empty(s: GetTransfersSelector) -> bool {
    &&& s.category_selector@.len() == 0
    &&& s.filter_by_height is None
    &&& s.account_index is None
    &&& s.subaddr_indices is None
}

/// The payload of the transfer-history query. A selector that selects
/// nothing yields the distinguished empty payload, not an empty map.
#[verifier::loop_isolation(false)]
#[verifier::rlimit(50)]
pub fn get_transfers_params(selector: GetTransfersSelector) -> (p: RpcParams)
    requires
        selector.filter_by_height matches Some(r) ==> r.start != HeightBound::Included(0),
    ensures
        transfers_selector_empty(selector) ==> p == RpcParams::Empty,
        !transfers_selector_empty(selector) ==> (p matches RpcParams::Named(es)
            && transfers_params_match(selector, es@)),
{
    let ghost gsel = selector;
    let GetTransfersSelector { category_selector, filter_by_height, account_index, subaddr_indices }
        = selector;
    if category_selector.len() == 0 && filter_by_height.is_none() && account_index.is_none()
        && subaddr_indices.is_none() {
        return RpcParams::Empty;
    }
    let mut es: Vec<(String, JsonValue)> = Vec::new();
    let mut i: usize = 0;
    while i < category_selector.len()
        invariant
            i <= category_selector@.len(),
            es@.len() == i,
            forall|j: int|
                0 <= j < i ==> ((#[trigger] es@[j]).0@ == category_key(category_selector@[j].0)
                    && es@[j].1 == JsonValue::Bool(category_selector@[j].1)),
        decreases category_selector@.len() - i,
    {
        let (cat, on) = category_selector[i];
        es.push((String::from_str(cat.wire_key()), JsonValue::Bool(on)));
        i += 1;
    }
    match filter_by_height {
        Some(range) => {
            es.push((String::from_str("filter_by_height"), JsonValue::Bool(true)));
            let f = crate::height::translate_height_range(range);
            match f.min_height {
                Some(m) => {
                    es.push((String::from_str("min_height"), JsonValue::Num(m)));
                },
                None => {},
            }
            match f.max_height {
                Some(m) => {
                    es.push((String::from_str("max_height"), JsonValue::Num(m)));
                },
                None => {},
            }
        },
        None => {},
    }
    match account_index {
        Some(n) => {
            es.push((String::from_str("account_index"), JsonValue::Num(n)));
        },
        None => {},
    }
    match subaddr_indices {
        Some(xs) => {
            es.push((String::from_str("subaddr_indices"), nums_array(&xs)));
        },
        None => {},
    }
    proof {
        assert(transfers_params_match(gsel, es@));
    }
    RpcParams::Named(es)
}

/// A well-formed transfer record.
pub open spec fn got_transfer_well_formed(v: JsonValue) -> bool {
    &&& v matches JsonValue::Obj(_)
    &&& spec_num(obj_entries(v), "amount"@) is Some
    &&& spec_num(obj_entries(v), "fee"@) is Some
    &&& spec_num(obj_entries(v), "height"@) is Some
    &&& spec_num(obj_entries(v), "timestamp"@) is Some
    &&& match spec_str(obj_entries(v), "txid"@) {
        Some(s) => spec_hex_n(s, 32) is Some,
        None => false,
    }
}

/// Whether a typed transfer record carries exactly the fields of an
/// object.
pub open spec fn got_transfer_matches(v: JsonValue, t: GotTransfer) -> bool {
    &&& spec_num(obj_entries(v), "amount"@) == Some(t.amount)
    &&& spec_num(obj_entries(v), "fee"@) == Some(t.fee)
    &&& spec_num(obj_entries(v), "height"@) == Some(t.height)
    &&& spec_num(obj_entries(v), "timestamp"@) == Some(t.timestamp)
    &&& match spec_str(obj_entries(v), "txid"@) {
        Some(s) => spec_hex_n(s, 32) == Some(t.txid@),
        None => false,
    }
}

/// Decode one transfer record.
fn decode_got_transfer(v: &JsonValue) -> (r: Result<GotTransfer, DecodeError>)
    ensures
        got_transfer_well_formed(*v) ==> (r matches Ok(t) && got_transfer_matches(*v, t)),
        !got_transfer_well_formed(*v) ==> r matches Err(_),
{
    let es = match v {
        JsonValue::Obj(es) => es,
        _ => {
            return Err(DecodeError::WrongType(String::from_str("transfer")));
        },
    };
    let amount = match get_num(es, "amount") {
        Ok(n) => n,
        Err(e) => {
            return Err(e);
        },
    };
    let fee = match get_num(es, "fee") {
        Ok(n) => n,
        Err(e) => {
            return Err(e);
        },
    };
    let height = match get_num(es, "height") {
        Ok(n) => n,
        Err(e) => {
            return Err(e);
        },
    };
    let timestamp = match get_num(es, "timestamp") {
        Ok(n) => n,
        Err(e) => {
            return Err(e);
        },
    };
    let txid = match get_str(es, "txid") {
        Ok(s) => match HashDigest::from_hex(s.as_str()) {
            Ok(h) => h,
            Err(e) => {
                return Err(e);
            },
        },
        Err(e) => {
            return Err(e);
        },
    };
    Ok(GotTransfer { txid, amount, fee, height, timestamp })
}

/// Whether every element of a JSON array is a well-formed transfer record.
pub open spec fn transfers_arr_well_formed(a: Seq<JsonValue>) -> bool {
    forall|i: int| 0 <= i < a.len() ==> got_transfer_well_formed(#[trigger] a[i])
}

/// Whether typed transfer records match a JSON array element for element.
pub open spec fn transfers_arr_match(a: Seq<JsonValue>, ts: Seq<GotTransfer>) -> bool {
    ts.len() == a.len() && forall|i: int| 0 <= i < a.len() ==> got_transfer_matches(
        #[trigger] a[i],
        ts[i],
    )
}

/// Decode an array of transfer records.
#[verifier::loop_isolation(false)]
fn decode_transfers_array(a: &Vec<JsonValue>) -> (r: Result<Vec<GotTransfer>, DecodeError>)
    ensures
        transfers_arr_well_formed(a@) ==> (r matches Ok(ts) && transfers_arr_match(a@, ts@)),
        !transfers_arr_well_formed(a@) ==> r matches Err(_),
{
    let mut ts: Vec<GotTransfer> = Vec::new();
    let mut i: usize = 0;
    while i < a.len()
        invariant
            i <= a@.len(),
            ts@.len() == i,
            forall|j: int|
                0 <= j < i ==> got_transfer_matches(#[trigger] a@[j], ts@[j])
                    && got_transfer_well_formed(a@[j]),
        decreases a@.len() - i,
    {
        match decode_got_transfer(&a[i]) {
            Ok(t) => ts.push(t),
            Err(e) => {
                proof {
                    assert(!got_transfer_well_formed(a@[i as int]));
                }
                return Err(e);
            },
        }
        i += 1;
    }
    Ok(ts)
}

/// Whether a result object's entry for one category is acceptable: absent,
/// or an array of well-formed transfer records.
pub open spec fn cat_entry_ok(v: JsonValue, c: GetTransfersCategory) -> bool {
    match lookup(obj_entries(v), category_key(c)) {
        Some(JsonValue::Arr(a)) => transfers_arr_well_formed(a@),
        Some(_) => false,
        None => true,
    }
}

/// A well-formed transfer-history result: an object whose entry for every
/// category is acceptable.
pub open spec fn get_transfers_well_formed(v: JsonValue) -> bool {
    &&& v matches JsonValue::Obj(_)
    &&& cat_entry_ok(v, GetTransfersCategory::In)
    &&& cat_entry_ok(v, GetTransfersCategory::Out)
    &&& cat_entry_ok(v, GetTransfersCategory::Pending)
    &&& cat_entry_ok(v, GetTransfersCategory::Failed)
    &&& cat_entry_ok(v, GetTransfersCategory::Pool)
    &&& cat_entry_ok(v, GetTransfersCategory::Block)
}

/// Whether the typed result reports one category faithfully: a category
/// the node reported has exactly one entry carrying its decoded records,
/// and a category the node left out has none.
pub open spec fn cat_result_ok(
    v: JsonValue,
    c: GetTransfersCategory,
    out: Seq<(GetTransfersCategory, Vec<GotTransfer>)>,
) -> bool {
    match lookup(obj_entries(v), category_key(c)) {
        Some(JsonValue::Arr(a)) => exists|j: int|
            0 <= j < out.len() && (#[trigger] out[j]).0 == c && transfers_arr_match(a@, out[j].1@),
        Some(_) => false,
        None => forall|j: int| 0 <= j < out.len() ==> (#[trigger] out[j]).0 != c,
    }
}

/// Every outcome of the transfer-history query, classified.
pub open spec fn get_transfers_post(
    resp: RemoteResult,
    r: Result<Vec<(GetTransfersCategory, Vec<GotTransfer>)>, Error>,
) -> bool {
    &&& passes_failures(resp, r)
    &&& resp matches RemoteResult::Value(v) ==> {
        &&& get_transfers_well_formed(v) ==> (r matches Ok(out) && {
            &&& cat_result_ok(v, GetTransfersCategory::In, out@)
            &&& cat_result_ok(v, GetTransfersCategory::Out, out@)
            &&& cat_result_ok(v, GetTransfersCategory::Pending, out@)
            &&& cat_result_ok(v, GetTransfersCategory::Failed, out@)
            &&& cat_result_ok(v, GetTransfersCategory::Pool, out@)
            &&& cat_result_ok(v, GetTransfersCategory::Block, out@)
        })
        &&& !get_transfers_well_formed(v) ==> (r matches Err(e) && e matches Error::Decode(_))
    }
}

/// Decode the transfer-history response: one entry per category the node
/// reported, in the fixed category order.
#[verifier::loop_isolation(false)]
#[verifier::rlimit(100)]
pub fn get_transfers_from_response(resp: RemoteResult) -> (r: Result<
    Vec<(GetTransfersCategory, Vec<GotTransfer>)>,
    Error,
>)
    ensures
        get_transfers_post(resp, r),
{
    let v = match value_of(resp) {
        Ok(v) => v,
        Err(e) => {
            return Err(e);
        },
    };
    let ghost gv = v;
    let es = match v {
        JsonValue::Obj(es) => es,
        _ => {
            return Err(Error::Decode(DecodeError::WrongType(String::from_str("result"))));
        },
    };
    let mut out: Vec<(GetTransfersCategory, Vec<GotTransfer>)> = Vec::new();
    let cats = categories_in_order();
    let mut i: usize = 0;
    while i < cats.len()
        invariant
            i <= cats@.len(),
            cats@ == all_categories(),
            gv matches JsonValue::Obj(es2) && es2@ == es@,
            forall|j: int| 0 <= j < i ==> cat_result_ok(gv, #[trigger] cats@[j].0, out@),
            forall|j: int, k: int|
                0 <= j < out@.len() && i <= k < cats@.len() ==> (#[trigger] out@[j]).0 != (
                #[trigger] cats@[k]).0,
        decreases cats@.len() - i,
    {
        let (cat, key) = cats[i];
        let ghost out0 = out@;
        match obj_get(&es, key) {
            None => {},
            Some(JsonValue::Arr(a)) => {
                let ts = match decode_transfers_array(a) {
                    Ok(ts) => ts,
                    Err(e) => {
                        proof {
                            assert(!cat_entry_ok(gv, cats@[i as int].0));
                        }
                        return Err(Error::Decode(e));
                    },
                };
                let ghost gt = ts@;
                out.push((cat, ts));
                proof {
                    assert(out@.len() == out0.len() + 1);
                    assert(out@[out0.len() as int].0 == cat);
                    assert(out@[out0.len() as int].1@ == gt);
                    assert(transfers_arr_match(a@, out@[out0.len() as int].1@));
                }
            },
            Some(_) => {
                proof {
                    assert(!cat_entry_ok(gv, cats@[i as int].0));
                }
                return Err(
                    Error::Decode(DecodeError::WrongType(String::from_str("category"))),
                );
            },
        }
        proof {
            assert(cat_result_ok(gv, cats@[i as int].0, out@));
            assert forall|j: int| 0 <= j < i + 1 implies cat_result_ok(
                gv,
                (#[trigger] cats@[j]).0,
                out@,
            ) by {
                if j < i as int {
                    let c = cats@[j].0;
                    assert(cat_result_ok(gv, c, out0));
                    match lookup(obj_entries(gv), category_key(c)) {
                        Some(JsonValue::Arr(a2)) => {
                            let m = choose|m: int|
                                0 <= m < out0.len() && (#[trigger] out0[m]).0 == c
                                    && transfers_arr_match(a2@, out0[m].1@);
                            assert(out@[m] == out0[m]);
                            assert(0 <= m < out@.len() && out@[m].0 == c && transfers_arr_match(
                                a2@,
                                out@[m].1@,
                            ));
                        },
                        Some(_) => {},
                        None => {
                            assert forall|m: int| 0 <= m < out@.len() implies (#[trigger] out@[m]).0
                                != c by {
                                if m < out0.len() {
                                    assert(out@[m] == out0[m]);
                                } else {
                                    assert(out@[m].0 == cats@[i as int].0);
                                }
                            }
                        },
                    }
                }
            }
        }
        i += 1;
    }
    Ok(out)
}

/// The six categories, each with its wire key, in the order results are
/// reported.
pub open spec fn all_categories() -> Seq<(GetTransfersCategory, &'static str)> {
    seq![
        (GetTransfersCategory::In, "in"),
        (GetTransfersCategory::Out, "out"),
        (GetTransfersCategory::Pending, "pending"),
        (GetTransfersCategory::Failed, "failed"),
        (GetTransfersCategory::Pool, "pool"),
        (GetTransfersCategory::Block, "block"),
    ]
}

/// Build the category list with its wire keys.
fn categories_in_order() -> (r: Vec<(GetTransfersCategory, &'static str)>)
    ensures
        r@ == all_categories(),
        forall|i: int| 0 <= i < r@.len() ==> (#[trigger] r@[i]).1@ == category_key(r@[i].0),
        forall|i: int, j: int| 0 <= i < j < r@.len() ==> (#[trigger] r@[i]).0 != (#[trigger] r@[j]).0,
{
    let mut r: Vec<(GetTransfersCategory, &'static str)> = Vec::new();
    r.push((GetTransfersCategory::In, "in"));
    r.push((GetTransfersCategory::Out, "out"));
    r.push((GetTransfersCategory::Pending, "pending"));
    r.push((GetTransfersCategory::Failed, "failed"));
    r.push((GetTransfersCategory::Pool, "pool"));
    r.push((GetTransfersCategory::Block, "block"));
    proof {
        assert(r@ =~= all_categories());
    }
    r
}

// ------------------------------------------------------------- get transfer

/// The node's RPC error code that means a transfer id is unknown, the one
/// numeric code this client interprets.
pub const TRANSFER_NOT_FOUND_CODE: i64 = -8;

/// The named payload of the single-transfer lookup: the transaction id's
/// hex spelling, and the account filter only when given.
pub fn get_transfer_params(txid: &HashDigest, account_index: Option<u64>) -> (p: RpcParams)
    ensures
        p matches RpcParams::Named(es) && {
            &&& keys_of(es@) == seq!["txid"@] + opt_key("account_index"@, account_index)
            &&& match lookup(es@, "txid"@) {
                Some(JsonValue::Str(s)) => s@ == hex_of(txid@),
                _ => false,
            }
            &&& match account_index {
                Some(n) => lookup(es@, "account_index"@) == Some(JsonValue::Num(n)),
                None => lookup(es@, "account_index"@) is None,
            }
        },
{
    let mut es: Vec<(String, JsonValue)> = Vec::new();
    es.push((String::from_str("txid"), JsonValue::Str(txid.to_hex())));
    match account_index {
        Some(n) => {
            es.push((String::from_str("account_index"), JsonValue::Num(n)));
        },
        None => {},
    }
    proof {
        reveal_strlit("txid");
        reveal_strlit("account_index");
        assert("txid"@.len() == 4);
        assert("account_index"@.len() == 13);
        assert(keys_of(es@) =~= seq!["txid"@] + opt_key("account_index"@, account_index));
    }
    RpcParams::Named(es)
}

/// A well-formed single-transfer result: a `transfer` field holding a
/// well-formed transfer record.
pub open spec fn get_transfer_well_formed(v: JsonValue) -> bool {
    &&& v matches JsonValue::Obj(_)
    &&& match lookup(obj_entries(v), "transfer"@) {
        Some(tv) => got_transfer_well_formed(tv),
        None => false,
    }
}

/// Every outcome of the single-transfer lookup, classified: the not-found
/// sentinel becomes an absent result, any other node-reported failure and
/// every transport failure propagate unchanged.
pub open spec fn get_transfer_post(resp: RemoteResult, r: Result<Option<GotTransfer>, Error>) -> bool {
    &&& resp matches RemoteResult::Transport(t) ==> r == Err::<Option<GotTransfer>, Error>(
        Error::Transport(t),
    )
    &&& resp matches RemoteResult::Rpc(e) ==> (if e.code == TRANSFER_NOT_FOUND_CODE {
        r == Ok::<Option<GotTransfer>, Error>(None)
    } else {
        r == Err::<Option<GotTransfer>, Error>(Error::Rpc(e))
    })
    &&& resp matches RemoteResult::Value(v) ==> {
        &&& get_transfer_well_formed(v) ==> (r matches Ok(o) && o matches Some(t) && match lookup(
            obj_entries(v),
            "transfer"@,
        ) {
            Some(tv) => got_transfer_matches(tv, t),
            None => false,
        })
        &&& !get_transfer_well_formed(v) ==> (r matches Err(e) && e matches Error::Decode(_))
    }
}

/// Decode the single-transfer response, translating only the not-found
/// sentinel into an absent result.
pub fn get_transfer_from_response(resp: RemoteResult) -> (r: Result<Option<GotTransfer>, Error>)
    ensures
        get_transfer_post(resp, r),
{
    let v = match resp {
        RemoteResult::Transport(t) => {
            return Err(Error::Transport(t));
        },
        RemoteResult::Rpc(e) => {
            if e.code == TRANSFER_NOT_FOUND_CODE {
                return Ok(None);
            } else {
                return Err(Error::Rpc(e));
            }
        },
        RemoteResult::Value(v) => v,
    };
    let es = match v {
        JsonValue::Obj(es) => es,
        _ => {
            return Err(Error::Decode(DecodeError::WrongType(String::from_str("result"))));
        },
    };
    let tv = match obj_get(&es, "transfer") {
        Some(tv) => tv,
        None => {
            return Err(Error::Decode(DecodeError::MissingField(String::from_str("transfer"))));
        },
    };
    match decode_got_transfer(tv) {
        Ok(t) => Ok(Some(t)),
        Err(e) => Err(Error::Decode(e)),
    }
}

// ------------------------------------------------------------------- drivers

impl<C: Caller> WalletClient<C> {
    /// Return the wallet's balance.
    pub fn get_balance(&mut self, account: u64, addresses: Option<Vec<u64>>) -> (r: Result<
        BalanceData,
        Error,
    >)
        ensures
            exists|resp: RemoteResult| #[trigger] balance_post(resp, r),
    {
        let resp = self.inner.call("get_balance", get_balance_params(account, &addresses));
        let ghost g = resp;
        let r = get_balance_from_response(resp);
        proof {
            assert(balance_post(g, r));
        }
        r
    }

    /// Return the wallet's addresses for an account, optionally filtered
    /// to a set of sub-addresses.
    pub fn get_address(&mut self, account: u64, addresses: Option<Vec<u64>>) -> (r: Result<
        AddressData,
        Error,
    >)
        ensures
            exists|resp: RemoteResult| #[trigger] address_post(resp, r),
    {
        let resp = self.inner.call("get_address", get_address_params(account, &addresses));
        let ghost g = resp;
        let r = get_address_from_response(resp);
        proof {
            assert(address_post(g, r));
        }
        r
    }

    /// Get the account and address indexes of a (sub)address.
    pub fn get_address_index(&mut self, address: Address) -> (r: Result<(u64, u64), Error>)
        ensures
            exists|resp: RemoteResult| #[trigger] address_index_post(resp, r),
    {
        let resp = self.inner.call("get_address_index", get_address_index_params(&address));
        let ghost g = resp;
        let r = get_address_index_from_response(resp);
        proof {
            assert(address_index_post(g, r));
        }
        r
    }

    /// Create a new address for an account, optionally labelled.
    pub fn create_address(&mut self, account_index: u64, label: Option<String>) -> (r: Result<
        (Address, u64),
        Error,
    >)
        ensures
            exists|resp: RemoteResult| #[trigger] create_address_post(resp, r),
    {
        let resp = self.inner.call("create_address", create_address_params(account_index, label));
        let ghost g = resp;
        let r = create_address_from_response(resp);
        proof {
            assert(create_address_post(g, r));
        }
        r
    }

    /// Label an address.
    pub fn label_address(
        &mut self,
        account_index: u64,
        address_index: u64,
        label: String,
    ) -> (r: Result<(), Error>)
        ensures
            exists|resp: RemoteResult| #[trigger] label_address_post(resp, r),
    {
        let resp = self.inner.call(
            "label_address",
            label_address_params(account_index, address_index, label),
        );
        let ghost g = resp;
        let r = label_address_from_response(resp);
        proof {
            assert(label_address_post(g, r));
        }
        r
    }

    /// Get the wallet's account totals, optionally filtered by tag.
    pub fn get_accounts(&mut self, tag: Option<String>) -> (r: Result<GetAccountsData, Error>)
        ensures
            exists|resp: RemoteResult| #[trigger] accounts_post(resp, r),
    {
        let resp = self.inner.call("get_accounts", get_accounts_params(tag));
        let ghost g = resp;
        let r = get_accounts_from_response(resp);
        proof {
            assert(accounts_post(g, r));
        }
        r
    }

    /// Get the incoming payments with a given payment id.
    pub fn get_payments(&mut self, payment_id: PaymentId) -> (r: Result<Vec<Payment>, Error>)
        ensures
            exists|resp: RemoteResult| #[trigger] payments_post(resp, r),
    {
        let resp = self.inner.call("get_payments", get_payments_params(&payment_id));
        let ghost g = resp;
        let r = get_payments_from_response(resp);
        proof {
            assert(payments_post(g, r));
        }
        r
    }

    /// Get the incoming payments with any of the given payment ids, from a
    /// given height.
    pub fn get_bulk_payments(
        &mut self,
        payment_ids: Vec<PaymentId>,
        min_block_height: u64,
    ) -> (r: Result<Vec<Payment>, Error>)
        ensures
            exists|resp: RemoteResult| #[trigger] bulk_payments_post(resp, r),
    {
        let resp = self.inner.call(
            "get_bulk_payments",
            get_bulk_payments_params(&payment_ids, min_block_height),
        );
        let ghost g = resp;
        let r = get_bulk_payments_from_response(resp);
        proof {
            assert(bulk_payments_post(g, r));
        }
        r
    }

    /// Return the view private key's raw bytes.
    pub fn query_view_key(&mut self) -> (r: Result<Vec<u8>, Error>)
        ensures
            exists|resp: RemoteResult| #[trigger] view_key_post(resp, r),
    {
        let resp = self.inner.call("query_key", query_view_key_params());
        let ghost g = resp;
        let r = query_view_key_from_response(resp);
        proof {
            assert(view_key_post(g, r));
        }
        r
    }

    /// Return the wallet's current block height.
    pub fn get_height(&mut self) -> (r: Result<u64, Error>)
        ensures
            exists|resp: RemoteResult| #[trigger] height_post(resp, r),
    {
        let resp = self.inner.call("get_height", RpcParams::Empty);
        let ghost g = resp;
        let r = get_height_from_response(resp);
        proof {
            assert(height_post(g, r));
        }
        r
    }

    /// Send funds to a number of recipients.
    pub fn transfer(
        &mut self,
        destinations: Vec<(Address, u64)>,
        priority: TransferPriority,
        options: TransferOptions,
    ) -> (r: Result<TransferData, Error>)
        ensures
            exists|resp: RemoteResult| #[trigger] transfer_post(resp, r),
    {
        let resp = self.inner.call(
            "transfer",
            transfer_params(&destinations, priority, options),
        );
        let ghost g = resp;
        let r = transfer_from_response(resp);
        proof {
            assert(transfer_post(g, r));
        }
        r
    }

    /// Sign a transfer created on a read-only wallet, as part of the
    /// cold-signing process.
    pub fn sign_transfer(&mut self, unsigned_txset: Vec<u8>) -> (r: Result<
        SignedTransferOutput,
        Error,
    >)
        ensures
            exists|resp: RemoteResult| #[trigger] sign_transfer_post(resp, r),
    {
        let resp = self.inner.call("sign_transfer", sign_transfer_params(&unsigned_txset));
        let ghost g = resp;
        let r = sign_transfer_from_response(resp);
        proof {
            assert(sign_transfer_post(g, r));
        }
        r
    }

    /// Submit a previously signed transfer, as part of the cold-signing
    /// process.
    pub fn submit_transfer(&mut self, tx_data_hex: Vec<u8>) -> (r: Result<Vec<HashDigest>, Error>)
        ensures
            exists|resp: RemoteResult| #[trigger] submit_transfer_post(resp, r),
    {
        let resp = self.inner.call("submit_transfer", submit_transfer_params(&tx_data_hex));
        let ghost g = resp;
        let r = submit_transfer_from_response(resp);
        proof {
            assert(submit_transfer_post(g, r));
        }
        r
    }

    /// Return the selected categories of the wallet's transfer history. A
    /// range starting at an included height of zero has no node encoding,
    /// since the node's lower bound is exclusive.
    pub fn get_transfers(&mut self, selector: GetTransfersSelector) -> (r: Result<
        Vec<(GetTransfersCategory, Vec<GotTransfer>)>,
        Error,
    >)
        requires
            selector.filter_by_height matches Some(hr) ==> hr.start != HeightBound::Included(0),
        ensures
            exists|resp: RemoteResult| #[trigger] get_transfers_post(resp, r),
    {
        let resp = self.inner.call("get_transfers", get_transfers_params(selector));
        let ghost g = resp;
        let r = get_transfers_from_response(resp);
        proof {
            assert(get_transfers_post(g, r));
        }
        r
    }

    /// Look one transfer up by its transaction id. An unknown id is an
    /// absent result, not a failure.
    pub fn get_transfer(&mut self, txid: HashDigest, account_index: Option<u64>) -> (r: Result<
        Option<GotTransfer>,
        Error,
    >)
        ensures
            exists|resp: RemoteResult| #[trigger] get_transfer_post(resp, r),
    {
        let resp = self.inner.call(
            "get_transfer_by_txid",
            get_transfer_params(&txid, account_index),
        );
        let ghost g = resp;
        let r = get_transfer_from_response(resp);
        proof {
            assert(get_transfer_post(g, r));
        }
        r
    }

    /// Export the wallet's signed key images.
    pub fn export_key_images(&mut self) -> (r: Result<Vec<SignedKeyImage>, Error>)
        ensures
            exists|resp: RemoteResult| #[trigger] export_key_images_post(resp, r),
    {
        let resp = self.inner.call("export_key_images", RpcParams::Empty);
        let ghost g = resp;
        let r = export_key_images_from_response(resp);
        proof {
            assert(export_key_images_post(g, r));
        }
        r
    }

    /// Import signed key images and verify their spent status.
    pub fn import_key_images(&mut self, signed_key_images: Vec<SignedKeyImage>) -> (r: Result<
        KeyImageImportResponse,
        Error,
    >)
        ensures
            exists|resp: RemoteResult| #[trigger] import_key_images_post(resp, r),
    {
        let resp = self.inner.call(
            "import_key_images",
            import_key_images_params(&signed_key_images),
        );
        let ghost g = resp;
        let r = import_key_images_from_response(resp);
        proof {
            assert(import_key_images_post(g, r));
        }
        r
    }

    /// Check a transaction key against a transaction id and receiver
    /// address.
    pub fn check_tx_key(
        &mut self,
        txid: HashDigest,
        tx_key: HashDigest,
        address: Address,
    ) -> (r: Result<(u64, bool, u64), Error>)
        ensures
            exists|resp: RemoteResult| #[trigger] check_tx_key_post(resp, r),
    {
        let resp = self.inner.call("check_tx_key", check_tx_key_params(&txid, &tx_key, &address));
        let ghost g = resp;
        let r = check_tx_key_from_response(resp);
        proof {
            assert(check_tx_key_post(g, r));
        }
        r
    }

    /// Get the node's RPC version: the major version is the high 16 bits
    /// of the packed word, the minor the low 16.
    pub fn get_version(&mut self) -> (r: Result<(u16, u16), Error>)
        ensures
            exists|resp: RemoteResult| #[trigger] version_post(resp, r),
    {
        let resp = self.inner.call("get_version", RpcParams::Empty);
        let ghost g = resp;
        let r = get_version_from_response(resp);
        proof {
            assert(version_post(g, r));
        }
        r
    }
}

} // verus!
