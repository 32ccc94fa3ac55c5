//! The transport capability: one outbound call per invocation, classified
//! into a decoded value, a node-reported failure, or a transport failure.
//!
//! The production transport lives outside this crate; a deterministic
//! in-memory responder lives here for tests. Neither interprets error
//! codes: what a code means is method-specific and belongs to the typed
//! request layer.

use crate::error::{Error, RpcError, TransportError};
use crate::json::JsonValue;
use crate::params::RpcParams;
use vstd::prelude::*;
use vstd::string::*;

verus! {

/// What one remote call produced.
#[derive(Debug, PartialEq, Eq)]
pub enum RemoteResult {
    /// The node accepted the call and returned a result value.
    Value(JsonValue),
    /// The node accepted the call but reports a protocol-level failure.
    Rpc(RpcError),
    /// The call failed below the JSON-RPC envelope.
    Transport(TransportError),
}

/// Both failure classes of a remote result pass through a typed request
/// unchanged: a transport failure stays a transport failure and a
/// node-reported failure stays a node-reported one; neither is ever
/// reinterpreted as the other or as a decode failure.
pub open spec fn passes_failures<T>(resp: RemoteResult, r: Result<T, Error>) -> bool {
    &&& resp matches RemoteResult::Transport(t) ==> r == Err::<T, Error>(Error::Transport(t))
    &&& resp matches RemoteResult::Rpc(e) ==> r == Err::<T, Error>(Error::Rpc(e))
}

/// Split a remote result into its value, passing both failure classes
/// through unchanged.
pub fn value_of(resp: RemoteResult) -> (r: Result<JsonValue, Error>)
    ensures
        resp matches RemoteResult::Value(v) ==> r == Ok::<JsonValue, Error>(v),
        resp matches RemoteResult::Transport(t) ==> r == Err::<JsonValue, Error>(
            Error::Transport(t),
        ),
        resp matches RemoteResult::Rpc(e) ==> r == Err::<JsonValue, Error>(Error::Rpc(e)),
        r matches Ok(v) ==> resp == RemoteResult::Value(v),
{
    match resp {
        RemoteResult::Value(v) => Ok(v),
        RemoteResult::Rpc(e) => Err(Error::Rpc(e)),
        RemoteResult::Transport(t) => Err(Error::Transport(t)),
    }
}

/// A capability that performs one remote call: it accepts a method name and
/// a built parameter payload and returns a classified result. Each call is
/// independent; the capability neither retries nor interprets error codes.
pub trait Caller {
    fn call(&mut self, method: &str, params: RpcParams) -> RemoteResult;
}

/// A deterministic in-memory responder: answers calls from a scripted
/// queue, front first, and reports a transport failure once the queue is
/// exhausted.
pub struct ScriptedCaller {
    pub responses: Vec<RemoteResult>,
}

impl ScriptedCaller {
    /// A responder that will answer with the given results in order.
    pub fn new(responses: Vec<RemoteResult>) -> (r: ScriptedCaller)
        ensures
            r.responses == responses,
    {
        ScriptedCaller { responses }
    }
}

impl Caller for ScriptedCaller {
    fn call(&mut self, method: &str, params: RpcParams) -> RemoteResult {
        if self.responses.len() == 0 {
            RemoteResult::Transport(
                TransportError { reason: String::from_str("scripted responses exhausted") },
            )
        } else {
            self.responses.remove(0)
        }
    }
}

} // verus!
