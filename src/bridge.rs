//! A client for callers on a cooperative scheduler: the host runs each
//! blocking call on a pool meant for blocking work and settles the caller's
//! future with its outcome.
use vstd::prelude::*;

use crate::client::RpcClient;
use crate::error::SidecarError;
use serde_json::Value;

verus! {

/// The client that blocking calls are dispatched to.
#[derive(Clone)]
pub struct AsyncRpcClient<W, R> {
    client: RpcClient<W, R>,
}

impl<W, R> AsyncRpcClient<W, R> {
    pub closed spec fn spec_client(&self) -> RpcClient<W, R> {
        self.client
    }

    /// Wraps `client` for dispatch from asynchronous callers.
    pub fn new(client: RpcClient<W, R>) -> (r: Self)
        ensures
            r.spec_client() == client,
    {
        AsyncRpcClient { client }
    }

    /// The client each dispatched call runs on.
    pub fn client(&self) -> (r: &RpcClient<W, R>)
        ensures
            *r == self.spec_client(),
    {
        &self.client
    }

    /// The client, unwrapped.
    pub fn into_client(self) -> (r: RpcClient<W, R>)
        ensures
            r == self.spec_client(),
    {
        self.client
    }
}

/// The outcome of a dispatched call: its own outcome when the dispatch ran
/// it, a `DispatchError` when the dispatch failed with `joined`'s message.
pub fn settle(joined: Result<Result<Value, SidecarError>, String>) -> (r: Result<
    Value,
    SidecarError,
>)
    ensures
        match joined {
            Ok(out) => r == out,
            Err(msg) => r == Err::<Value, SidecarError>(SidecarError::DispatchError(msg)),
        },
{
    match joined {
        Ok(out) => out,
        Err(msg) => Err(SidecarError::DispatchError(msg)),
    }
}

} // verus!
