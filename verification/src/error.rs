//! The error taxonomy: local decode failures, node-reported RPC failures,
//! and transport-level failures.

use vstd::prelude::*;

verus! {

/// A malformed wire value. Always local to the call that decoded it.
#[derive(Clone, Debug, PartialEq, Eq)]
pub enum DecodeError {
    /// A hex string with odd length or a non-hex character.
    InvalidHex,
    /// A hex string that decodes to the wrong number of bytes for its target.
    WrongLength,
    /// An enum wire integer outside the closed set of variants, or a
    /// required count that must be nonzero but was zero.
    OutOfRange,
    /// An envelope whose status field differs from the success token.
    BadStatus(String),
    /// A response object without a required field.
    MissingField(String),
    /// A response field of the wrong JSON shape.
    WrongType(String),
    /// A numeric wire value too large for its typed destination.
    Overflow,
}

/// The node accepted the call but reports a protocol-level failure.
#[derive(Clone, Debug, PartialEq, Eq)]
pub struct RpcError {
    pub code: i64,
    pub message: String,
}

/// A failure below the JSON-RPC envelope: connection failure, non-success
/// HTTP status, or a body that is not a JSON-RPC response at all.
#[derive(Clone, Debug, PartialEq, Eq)]
pub struct TransportError {
    pub reason: String,
}

/// What a typed request can fail with.
#[derive(Clone, Debug, PartialEq, Eq)]
pub enum Error {
    Decode(DecodeError),
    Rpc(RpcError),
    Transport(TransportError),
}

} // verus!
