//! Errors the host sees when it starts, stops or talks to the worker.
use vstd::prelude::*;

use crate::protocol::RpcError;

verus! {

/// Why an operation on the worker failed.
#[derive(Debug, Clone)]
pub enum SidecarError {
    /// The operating system could not create the worker process.
    SpawnError(String),
    /// The worker's entry script does not exist.
    NotFound(String),
    /// Writing to or reading from the worker's pipes failed, or the worker
    /// closed its output in the middle of a call.
    TransportError(String),
    /// The worker answered with something that is not a valid response.
    ProtocolError(String),
    /// The worker reported that the method failed.
    RpcError(RpcError),
    /// No matching response arrived within the configured time.
    Timeout,
    /// No worker is running, so there is nothing to talk to.
    NotRunning,
    /// The background task that ran a blocking call failed or was cancelled.
    DispatchError(String),
}

} // verus!
