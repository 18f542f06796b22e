//! Supervision of a long-lived worker process and the JSON-RPC exchange with
//! it over the worker's standard streams.
//!
//! The host application owns the operating-system side: it spawns the
//! worker, holds the pipes and reads and writes lines. This crate decides
//! everything in between: how a worker is launched, what a request line
//! holds, which line ends a call and with what outcome, when a call times
//! out, what a liveness probe means for the supervisor, and what stopping
//! hands back to be terminated.
pub mod bridge;
pub mod client;
pub mod commands;
pub mod error;
pub mod json;
pub mod launch;
pub mod protocol;
pub mod registry;
pub mod setup;
pub mod sink;
pub mod supervisor;

pub use bridge::{settle, AsyncRpcClient};
pub use client::{outcome_of, read_event_of, CallStep, PendingCall, ReadEvent, RpcClient, DEFAULT_TIMEOUT_MS};
pub use error::SidecarError;
pub use launch::{merge_search_path, plan_launch, select_runtime, LaunchPlan};
pub use protocol::{encode_request, frame_request, ProgressEvent, RpcError, RpcRequest, RpcResponse};
pub use registry::SidecarState;
pub use sink::{classify_stderr_line, route_stderr_line, SinkEntry};
pub use supervisor::{Liveness, PythonSidecar, Termination};
