//! Domain value types carried through the marshaling layer, and the typed
//! response shapes the request layer decodes into.
//!
//! Addresses and keys are opaque domain values produced and validated by an
//! external cryptographic-address library; this layer carries an address as
//! its canonical string spelling and a key or digest as its raw bytes, and
//! only moves them through the hex and string codecs.

use crate::error::DecodeError;
use crate::height::HeightRange;
use crate::hex::{hex_bytes_of, hex_of, is_hex_seq};
use vstd::prelude::*;

verus! {

/// The bytes a hex string spells, when it is well-formed hex of exactly
/// `n` bytes.
pub open spec fn spec_hex_n(s: Seq<char>, n: nat) -> Option<Seq<u8>> {
    if is_hex_seq(s) && s.len() == 2 * n {
        Some(hex_bytes_of(s))
    } else {
        None
    }
}

/// The bytes a hex string of any length spells, when well-formed.
pub open spec fn spec_hex_any(s: Seq<char>) -> Option<Seq<u8>> {
    if is_hex_seq(s) {
        Some(hex_bytes_of(s))
    } else {
        None
    }
}

/// A wallet address in its canonical string spelling.
#[derive(Clone, Debug, PartialEq, Eq)]
pub struct Address {
    pub text: String,
}

/// A 32-byte value: block hashes, transaction ids, transaction keys.
#[derive(Clone, Debug, PartialEq, Eq)]
pub struct HashDigest {
    bytes: Vec<u8>,
}

impl View for HashDigest {
    type V = Seq<u8>;

    closed spec fn view(&self) -> Seq<u8> {
        self.bytes@
    }
}

impl HashDigest {
    /// The length invariant every digest satisfies.
    pub open spec fn wf(&self) -> bool {
        self@.len() == 32
    }

    /// Wrap exactly 32 bytes; any other count is `WrongLength`.
    pub fn from_bytes(bytes: Vec<u8>) -> (r: Result<HashDigest, DecodeError>)
        ensures
            bytes@.len() == 32 ==> (r matches Ok(h) && h@ == bytes@),
            bytes@.len() != 32 ==> r == Err::<HashDigest, DecodeError>(DecodeError::WrongLength),
    {
        if bytes.len() == 32 {
            Ok(HashDigest { bytes })
        } else {
            Err(DecodeError::WrongLength)
        }
    }

    /// Decode from the 64-digit hex wire spelling. A malformed spelling is
    /// `InvalidHex`; well-formed hex of any other byte count is
    /// `WrongLength`.
    pub fn from_hex(s: &str) -> (r: Result<HashDigest, DecodeError>)
        ensures
            spec_hex_n(s@, 32) matches Some(b) ==> (r matches Ok(h) && h@ == b && h.wf()),
            !is_hex_seq(s@) ==> r == Err::<HashDigest, DecodeError>(DecodeError::InvalidHex),
            is_hex_seq(s@) && s@.len() != 64 ==> r == Err::<HashDigest, DecodeError>(
                DecodeError::WrongLength,
            ),
    {
        match crate::hex::decode_exact(s, 32) {
            Ok(bytes) => Ok(HashDigest { bytes }),
            Err(e) => Err(e),
        }
    }

    /// The lowercase hex wire spelling.
    pub fn to_hex(&self) -> (r: String)
        ensures
            r@ == hex_of(self@),
    {
        crate::hex::encode(&self.bytes)
    }

    /// The raw bytes.
    pub fn bytes(&self) -> (r: &Vec<u8>)
        ensures
            r@ == self@,
    {
        &self.bytes
    }
}

/// An 8-byte payment identifier.
#[derive(Clone, Debug, PartialEq, Eq)]
pub struct PaymentId {
    bytes: Vec<u8>,
}

impl View for PaymentId {
    type V = Seq<u8>;

    closed spec fn view(&self) -> Seq<u8> {
        self.bytes@
    }
}

impl PaymentId {
    /// The length invariant every payment id satisfies.
    pub open spec fn wf(&self) -> bool {
        self@.len() == 8
    }

    /// Wrap exactly 8 bytes; any other count is `WrongLength`.
    pub fn from_bytes(bytes: Vec<u8>) -> (r: Result<PaymentId, DecodeError>)
        ensures
            bytes@.len() == 8 ==> (r matches Ok(p) && p@ == bytes@),
            bytes@.len() != 8 ==> r == Err::<PaymentId, DecodeError>(DecodeError::WrongLength),
    {
        if bytes.len() == 8 {
            Ok(PaymentId { bytes })
        } else {
            Err(DecodeError::WrongLength)
        }
    }

    /// Decode from the 16-digit hex wire spelling. A malformed spelling is
    /// `InvalidHex`; well-formed hex of any other byte count is
    /// `WrongLength`.
    pub fn from_hex(s: &str) -> (r: Result<PaymentId, DecodeError>)
        ensures
            spec_hex_n(s@, 8) matches Some(b) ==> (r matches Ok(p) && p@ == b && p.wf()),
            !is_hex_seq(s@) ==> r == Err::<PaymentId, DecodeError>(DecodeError::InvalidHex),
            is_hex_seq(s@) && s@.len() != 16 ==> r == Err::<PaymentId, DecodeError>(
                DecodeError::WrongLength,
            ),
    {
        match crate::hex::decode_exact(s, 8) {
            Ok(bytes) => Ok(PaymentId { bytes }),
            Err(e) => Err(e),
        }
    }

    /// The lowercase hex wire spelling.
    pub fn to_hex(&self) -> (r: String)
        ensures
            r@ == hex_of(self@),
    {
        crate::hex::encode(&self.bytes)
    }
}

/// A wallet's balance.
#[derive(Clone, Debug, PartialEq, Eq)]
pub struct BalanceData {
    pub balance: u64,
    pub unlocked_balance: u64,
}

/// A wallet account's primary address.
#[derive(Clone, Debug, PartialEq, Eq)]
pub struct AddressData {
    pub address: Address,
}

/// Totals over a wallet's accounts.
#[derive(Clone, Debug, PartialEq, Eq)]
pub struct GetAccountsData {
    pub total_balance: u64,
    pub total_unlocked_balance: u64,
}

/// A template on which to mine a new block.
#[derive(Clone, Debug, PartialEq, Eq)]
pub struct BlockTemplate {
    pub blocktemplate_blob: Vec<u8>,
    pub difficulty: u64,
    pub expected_reward: u64,
    pub height: u64,
    pub prev_hash: HashDigest,
    pub reserved_offset: u64,
}

/// Basic information about one block.
#[derive(Clone, Debug, PartialEq, Eq)]
pub struct BlockHeaderResponse {
    pub hash: HashDigest,
    pub height: u64,
    pub nonce: u64,
    pub orphan_status: bool,
    pub prev_hash: HashDigest,
    pub reward: u64,
    pub timestamp: u64,
}

/// One incoming payment.
#[derive(Clone, Debug, PartialEq, Eq)]
pub struct Payment {
    pub payment_id: PaymentId,
    pub tx_hash: HashDigest,
    pub amount: u64,
    pub block_height: u64,
    pub unlock_time: u64,
}

/// One transfer as the wallet reports it.
#[derive(Clone, Debug, PartialEq, Eq)]
pub struct GotTransfer {
    pub txid: HashDigest,
    pub amount: u64,
    pub fee: u64,
    pub height: u64,
    pub timestamp: u64,
}

/// What a freshly submitted transfer produced.
#[derive(Clone, Debug, PartialEq, Eq)]
pub struct TransferData {
    pub tx_hash: HashDigest,
    pub tx_key: HashDigest,
    pub amount: u64,
    pub fee: u64,
    pub tx_blob: Vec<u8>,
    pub tx_metadata: Vec<u8>,
}

/// What signing a cold transfer produced.
#[derive(Clone, Debug, PartialEq, Eq)]
pub struct SignedTransferOutput {
    pub signed_txset: Vec<u8>,
    pub tx_hash_list: Vec<HashDigest>,
    pub tx_raw_list: Vec<Vec<u8>>,
}

/// A key image together with its signature.
#[derive(Clone, Debug, PartialEq, Eq)]
pub struct SignedKeyImage {
    pub key_image: Vec<u8>,
    pub signature: Vec<u8>,
}

/// The wallet's verdict after importing key images.
#[derive(Clone, Debug, PartialEq, Eq)]
pub struct KeyImageImportResponse {
    pub height: u64,
    pub spent: u64,
    pub unspent: u64,
}

/// Optional knobs of the transfer call. An absent knob sends no parameter.
#[derive(Clone, Debug, PartialEq, Eq)]
pub struct TransferOptions {
    pub account_index: Option<u64>,
    pub subaddr_indices: Option<Vec<u64>>,
    pub mixin: Option<u64>,
    pub ring_size: Option<u64>,
    pub unlock_time: Option<u64>,
    pub payment_id: Option<PaymentId>,
    pub do_not_relay: Option<bool>,
}

impl TransferOptions {
    /// All knobs absent.
    pub fn empty() -> (r: TransferOptions)
        ensures
            r.account_index is None,
            r.subaddr_indices is None,
            r.mixin is None,
            r.ring_size is None,
            r.unlock_time is None,
            r.payment_id is None,
            r.do_not_relay is None,
    {
        TransferOptions {
            account_index: None,
            subaddr_indices: None,
            mixin: None,
            ring_size: None,
            unlock_time: None,
            payment_id: None,
            do_not_relay: None,
        }
    }
}

/// The transfer categories a transfer-history query can select.
#[derive(Clone, Copy, Debug, PartialEq, Eq, Hash, Structural)]
pub enum GetTransfersCategory {
    In,
    Out,
    Pending,
    Failed,
    Pool,
    Block,
}

/// The wire key of a category.
pub open spec fn category_key(c: GetTransfersCategory) -> Seq<char> {
    match c {
        GetTransfersCategory::In => "in"@,
        GetTransfersCategory::Out => "out"@,
        GetTransfersCategory::Pending => "pending"@,
        GetTransfersCategory::Failed => "failed"@,
        GetTransfersCategory::Pool => "pool"@,
        GetTransfersCategory::Block => "block"@,
    }
}

/// What a transfer-history query selects: the categories to report, an
/// optional height filter, and optional account and sub-address filters.
#[derive(Clone, Debug, PartialEq, Eq)]
pub struct GetTransfersSelector {
    /// The categories to report, each switched on or off, in payload order.
    pub category_selector: Vec<(GetTransfersCategory, bool)>,
    /// Restrict the reported transfers to a height range.
    pub filter_by_height: Option<HeightRange>,
    /// Restrict to one account.
    pub account_index: Option<u64>,
    /// Restrict to a set of sub-addresses of the account.
    pub subaddr_indices: Option<Vec<u64>>,
}

impl GetTransfersCategory {
    /// The wire key of this category.
    pub fn wire_key(self) -> (r: &'static str)
        ensures
            r@ == category_key(self),
    {
        match self {
            GetTransfersCategory::In => "in",
            GetTransfersCategory::Out => "out",
            GetTransfersCategory::Pending => "pending",
            GetTransfersCategory::Failed => "failed",
            GetTransfersCategory::Pool => "pool",
            GetTransfersCategory::Block => "block",
        }
    }
}

} // verus!
