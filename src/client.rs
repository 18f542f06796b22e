//! The request/response exchange of one call: building the request line and
//! deciding, line by line, when the call is over.
//!
//! The host owns the pipes. It writes the line that `begin_call` returns,
//! then hands each thing it observes on the worker's standard output to
//! `PendingCall::step` until that returns `CallStep::Finished`. Calls on one
//! transport are serialised by the host: one pending call at a time, so every
//! response line read belongs to the call that reads it or to none.
use vstd::prelude::*;

use crate::error::SidecarError;
use crate::protocol::{
    encode_request, is_request_line, notify_id, version_string, version_tag, ProgressEvent,
    RpcRequest, RpcResponse,
};
use serde_json::Value;

verus! {

/// Milliseconds a call waits for its response unless configured otherwise.
pub const DEFAULT_TIMEOUT_MS: u64 = 120_000;

/// A client bound to the worker's standard input (`W`) and standard output
/// (`R`), with the time a call may wait for its response.
#[derive(Clone)]
pub struct RpcClient<W, R> {
    stdin: W,
    stdout: R,
    timeout_ms: u64,
}

/// A call whose request line has been built and whose response is awaited.
#[derive(Debug, Clone)]
pub struct PendingCall {
    pub id: String,
    pub timeout_ms: u64,
}

/// What the host observed on the worker's standard output while a call waits.
#[derive(Debug, Clone)]
pub enum ReadEvent {
    /// A line that decodes as a response.
    Response(RpcResponse),
    /// A line that decodes as a progress event (it belongs on the error stream).
    Progress(ProgressEvent),
    /// A blank line, or one that is neither a response nor an event.
    Unrecognized,
    /// Reading failed.
    ReadFailed(String),
    /// The worker closed its standard output.
    Closed,
    /// Nothing arrived within the wait that the previous step asked for.
    Idle,
}

/// What the host does next for a pending call.
#[derive(Debug)]
pub enum CallStep {
    /// Read on, for at most this many milliseconds.
    Wait(u64),
    /// The call is over with this outcome.
    Finished(Result<Value, SidecarError>),
}

/// The outcome a response carries: its result, or its error; a response with
/// both or neither violates the protocol.
pub open spec fn response_outcome(r: RpcResponse, out: Result<Value, SidecarError>) -> bool {
    match (r.result, r.error) {
        (Some(v), None) => out == Ok::<Value, SidecarError>(v),
        (None, Some(e)) => out == Err::<Value, SidecarError>(SidecarError::RpcError(e)),
        _ => out matches Err(SidecarError::ProtocolError(_)),
    }
}

/// The step after `event`, `elapsed_ms` into a call with identifier `id`
/// that may wait `timeout_ms`: a response with the call's identifier ends it;
/// a failed read or a closed stream ends it as a transport error; anything
/// else is skipped while time remains, and ends it as a timeout when none does.
pub open spec fn next_step(
    id: Seq<char>,
    timeout_ms: u64,
    event: ReadEvent,
    elapsed_ms: u64,
    step: CallStep,
) -> bool {
    match event {
        ReadEvent::Response(r) if r.id@ == id => step matches CallStep::Finished(out)
            && response_outcome(r, out),
        ReadEvent::ReadFailed(msg) => step == CallStep::Finished(
            Err(SidecarError::TransportError(msg)),
        ),
        ReadEvent::Closed => step matches CallStep::Finished(Err(SidecarError::TransportError(_))),
        _ => if elapsed_ms >= timeout_ms {
            step == CallStep::Finished(Err(SidecarError::Timeout))
        } else {
            step == CallStep::Wait((timeout_ms - elapsed_ms) as u64)
        },
    }
}

/// What a line of the worker's output holds, given what it decoded as: a
/// response if it is one, else a progress event if it is one, else nothing
/// the call cares about.
pub fn read_event_of(response: Option<RpcResponse>, event: Option<ProgressEvent>) -> (r: ReadEvent)
    ensures
        match (response, event) {
            (Some(resp), _) => r == ReadEvent::Response(resp),
            (None, Some(e)) => r == ReadEvent::Progress(e),
            (None, None) => r == ReadEvent::Unrecognized,
        },
{
    match (response, event) {
        (Some(resp), _) => ReadEvent::Response(resp),
        (None, Some(e)) => ReadEvent::Progress(e),
        (None, None) => ReadEvent::Unrecognized,
    }
}

fn text(s: &str) -> (r: String)
    ensures
        r@ == s@,
{
    String::from_str(s)
}

/// The outcome that response `r` carries.
pub fn outcome_of(r: RpcResponse) -> (out: Result<Value, SidecarError>)
    ensures
        response_outcome(r, out),
{
    match (r.result, r.error) {
        (Some(v), None) => Ok(v),
        (None, Some(e)) => Err(SidecarError::RpcError(e)),
        (Some(_), Some(_)) => Err(
            SidecarError::ProtocolError(text("response carries both a result and an error")),
        ),
        (None, None) => Err(SidecarError::ProtocolError(text("response carries no result"))),
    }
}

impl PendingCall {
    /// Decides what follows `event`, observed `elapsed_ms` after the request
    /// was written.
    pub fn step(&self, event: ReadEvent, elapsed_ms: u64) -> (r: CallStep)
        ensures
            next_step(self.id@, self.timeout_ms, event, elapsed_ms, r),
    {
        match event {
            ReadEvent::Response(resp) => {
                if resp.id == self.id {
                    return CallStep::Finished(outcome_of(resp));
                }
            },
            ReadEvent::ReadFailed(msg) => {
                return CallStep::Finished(Err(SidecarError::TransportError(msg)));
            },
            ReadEvent::Closed => {
                return CallStep::Finished(
                    Err(SidecarError::TransportError(text("worker closed its output"))),
                );
            },
            _ => {},
        }
        if elapsed_ms >= self.timeout_ms {
            CallStep::Finished(Err(SidecarError::Timeout))
        } else {
            CallStep::Wait(self.timeout_ms - elapsed_ms)
        }
    }
}

impl<W, R> RpcClient<W, R> {
    pub closed spec fn spec_timeout_ms(&self) -> u64 {
        self.timeout_ms
    }

    pub closed spec fn spec_stdin(&self) -> W {
        self.stdin
    }

    pub closed spec fn spec_stdout(&self) -> R {
        self.stdout
    }

    /// A client on the given streams, with the default timeout.
    pub fn new(stdin: W, stdout: R) -> (r: Self)
        ensures
            r.spec_stdin() == stdin,
            r.spec_stdout() == stdout,
            r.spec_timeout_ms() == DEFAULT_TIMEOUT_MS,
    {
        RpcClient { stdin, stdout, timeout_ms: DEFAULT_TIMEOUT_MS }
    }

    /// The same client with calls waiting at most `timeout_ms` milliseconds.
    pub fn with_timeout(self, timeout_ms: u64) -> (r: Self)
        ensures
            r.spec_stdin() == self.spec_stdin(),
            r.spec_stdout() == self.spec_stdout(),
            r.spec_timeout_ms() == timeout_ms,
    {
        RpcClient { timeout_ms, ..self }
    }

    pub fn timeout_ms(&self) -> (r: u64)
        ensures
            r == self.spec_timeout_ms(),
    {
        self.timeout_ms
    }

    /// The worker's standard input.
    pub fn stdin(&self) -> (r: &W)
        ensures
            *r == self.spec_stdin(),
    {
        &self.stdin
    }

    /// The worker's standard output.
    pub fn stdout(&self) -> (r: &R)
        ensures
            *r == self.spec_stdout(),
    {
        &self.stdout
    }

    /// Starts a call of `method` on `params` carrying the identifier `id`:
    /// the line to write, and the call that awaits the response with `id`.
    pub fn begin_call_with_id(&self, method: &str, params: Value, id: String) -> (r: Result<
        (PendingCall, String),
        SidecarError,
    >)
        ensures
            r is Ok,
            r matches Ok((call, line)) ==> {
                &&& call.id == id
                &&& call.timeout_ms == self.spec_timeout_ms()
                &&& is_request_line(line@, version_tag(), method@, id@)
            },
    {
        let request = RpcRequest::with_id(text(method), params, id);
        let line = encode_request(&request)?;
        Ok((PendingCall { id: request.id, timeout_ms: self.timeout_ms }, line))
    }

    /// Starts a call of `method` on `params` under a fresh random identifier:
    /// the line to write, and the call that awaits the response with that
    /// identifier.
    pub fn begin_call(&self, method: &str, params: Value) -> (r: Result<
        (PendingCall, String),
        SidecarError,
    >)
        ensures
            r is Ok,
            r matches Ok((call, line)) ==> {
                &&& call.id@.len() == 36
                &&& call.timeout_ms == self.spec_timeout_ms()
                &&& is_request_line(line@, version_tag(), method@, call.id@)
            },
    {
        let request = RpcRequest::new(text(method), params);
        let line = encode_request(&request)?;
        Ok((PendingCall { id: request.id, timeout_ms: self.timeout_ms }, line))
    }

    /// The line that notifies the worker of `method` on `params`; no response
    /// is awaited, so it carries the fixed identifier `notify`.
    pub fn notification(&self, method: &str, params: Value) -> (r: Result<String, SidecarError>)
        ensures
            r is Ok,
            r matches Ok(line) ==> is_request_line(line@, version_tag(), method@, notify_id()),
    {
        let id = text("notify");
        proof {
            reveal_strlit("notify");
        }
        assert(id@ =~= notify_id());
        let request = RpcRequest { jsonrpc: version_string(), method: text(method), params, id };
        encode_request(&request)
    }
}

/// A call ends with a value or a method failure only on the response that
/// carries the call's own identifier, and then with exactly what that
/// response holds; a response for any other call never becomes its outcome.
pub proof fn lemma_outcome_from_own_response(
    call: PendingCall,
    event: ReadEvent,
    elapsed_ms: u64,
    step: CallStep,
)
    requires
        next_step(call.id@, call.timeout_ms, event, elapsed_ms, step),
    ensures
        step matches CallStep::Finished(Ok(v)) ==> (event matches ReadEvent::Response(r) && r.id@
            == call.id@ && r.result == Some(v) && r.error is None),
        step matches CallStep::Finished(Err(SidecarError::RpcError(e))) ==> (
        event matches ReadEvent::Response(r) && r.id@ == call.id@ && r.error == Some(e)
            && r.result is None),
        event matches ReadEvent::Response(r) && r.id@ != call.id@ ==> (step is Wait || step
            == CallStep::Finished(Err(SidecarError::Timeout))),
{
}

/// A whole read loop: when the host feeds a call the events `events`, the
/// k-th observed `times[k]` milliseconds in, and the call waits through every
/// step before the n-th and finishes at the n-th, then every event before
/// the n-th was skipped (no response with the call's identifier, no failed
/// read, no closed stream, and time remained), and the call ends with a
/// value or a method failure only from the n-th event, a response with the
/// call's own identifier, and exactly as that response says.
pub proof fn lemma_read_loop(
    call: PendingCall,
    events: Seq<ReadEvent>,
    times: Seq<u64>,
    steps: Seq<CallStep>,
    n: int,
)
    requires
        events.len() == steps.len(),
        times.len() == steps.len(),
        0 <= n < steps.len(),
        forall|k: int|
            0 <= k < steps.len() ==> #[trigger] next_step(
                call.id@,
                call.timeout_ms,
                events[k],
                times[k],
                steps[k],
            ),
        forall|k: int| 0 <= k < n ==> #[trigger] steps[k] is Wait,
        steps[n] is Finished,
    ensures
        forall|k: int|
            0 <= k < n ==> {
                &&& !(#[trigger] events[k] matches ReadEvent::Response(r) && r.id@ == call.id@)
                &&& !(events[k] is ReadFailed)
                &&& !(events[k] is Closed)
                &&& times[k] < call.timeout_ms
            },
        steps[n] matches CallStep::Finished(Ok(v)) ==> (events[n] matches ReadEvent::Response(r)
            && r.id@ == call.id@ && r.result == Some(v) && r.error is None),
        steps[n] matches CallStep::Finished(Err(SidecarError::RpcError(e))) ==> (
        events[n] matches ReadEvent::Response(r) && r.id@ == call.id@ && r.error == Some(e)
            && r.result is None),
{
    assert forall|k: int| 0 <= k < n implies {
        &&& !(#[trigger] events[k] matches ReadEvent::Response(r) && r.id@ == call.id@)
        &&& !(events[k] is ReadFailed)
        &&& !(events[k] is Closed)
        &&& times[k] < call.timeout_ms
    } by {
        assert(next_step(call.id@, call.timeout_ms, events[k], times[k], steps[k]));
        assert(steps[k] is Wait);
    }
    lemma_outcome_from_own_response(call, events[n], times[n], steps[n]);
}

/// Two calls with different identifiers never take the same response: a
/// response that ends one of them with a value or a method failure leaves
/// the other waiting or timed out.
pub proof fn lemma_calls_keep_their_own_responses(
    a: PendingCall,
    b: PendingCall,
    event: ReadEvent,
    elapsed_a: u64,
    elapsed_b: u64,
    step_a: CallStep,
    step_b: CallStep,
)
    requires
        a.id@ != b.id@,
        next_step(a.id@, a.timeout_ms, event, elapsed_a, step_a),
        next_step(b.id@, b.timeout_ms, event, elapsed_b, step_b),
        step_a matches CallStep::Finished(Ok(_)) || step_a matches CallStep::Finished(
            Err(SidecarError::RpcError(_)),
        ),
    ensures
        step_b is Wait || step_b == CallStep::Finished(Err(SidecarError::Timeout)),
{
    lemma_outcome_from_own_response(a, event, elapsed_a, step_a);
    lemma_outcome_from_own_response(b, event, elapsed_b, step_b);
}

} // verus!
