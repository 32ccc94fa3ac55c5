//! The base client: a transport capability waiting to be specialized into
//! a daemon client or a wallet client.

use crate::daemon::DaemonClient;
use crate::transport::Caller;
use crate::wallet::WalletClient;
use vstd::prelude::*;

verus! {

/// Base RPC client. It is useless on its own; see [`Self::daemon`] and
/// [`Self::wallet`].
pub struct RpcClient<C: Caller> {
    pub inner: C,
}

impl<C: Caller> RpcClient<C> {
    /// Wrap a transport capability.
    pub fn new(inner: C) -> (r: RpcClient<C>)
        ensures
            r.inner == inner,
    {
        RpcClient { inner }
    }

    /// Create a daemon client.
    pub fn daemon(self) -> (r: DaemonClient<C>)
        ensures
            r.inner == self.inner,
    {
        let RpcClient { inner } = self;
        DaemonClient { inner }
    }

    /// Create a wallet client.
    pub fn wallet(self) -> (r: WalletClient<C>)
        ensures
            r.inner == self.inner,
    {
        let RpcClient { inner } = self;
        WalletClient { inner }
    }
}

} // verus!
