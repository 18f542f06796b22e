//! The host's single slot for the worker: at most one supervisor at a time,
//! replaced only after the previous one was stopped. The host keeps the slot
//! behind one lock and performs, while holding it, the process work that
//! these operations hand back.
use vstd::prelude::*;

use crate::bridge::AsyncRpcClient;
use crate::client::{PendingCall, RpcClient, DEFAULT_TIMEOUT_MS};
use crate::error::SidecarError;
use crate::protocol::{is_request_line, version_tag};
use crate::supervisor::{Liveness, PythonSidecar, Termination};
use serde_json::Value;

verus! {

/// The slot holding the host's worker, if any.
pub struct SidecarState<C, W, R> {
    sidecar: Option<PythonSidecar<C, W, R>>,
}

impl<C, W, R> SidecarState<C, W, R> {
    pub closed spec fn wf(&self) -> bool {
        self.sidecar matches Some(s) ==> s.wf()
    }

    /// A supervisor is installed, running or not.
    pub closed spec fn held(&self) -> bool {
        self.sidecar is Some
    }

    /// The installed supervisor holds a child process.
    pub closed spec fn running(&self) -> bool {
        self.sidecar matches Some(s) && s.live()
    }

    /// What a liveness check does: the answer is whether a child is held and
    /// the probe found it alive; a child found gone is let go.
    pub open spec fn check_effect(before: Self, probe: Liveness, after: Self, r: bool) -> bool {
        &&& after.wf()
        &&& after.held() == before.held()
        &&& r == (before.running() && probe == Liveness::Running)
        &&& after.running() == r
    }

    /// What stopping does: the slot is emptied, and a child is handed back
    /// for termination exactly when one was held.
    pub open spec fn stop_effect(before: Self, after: Self, r: Option<Termination<C, W>>) -> bool {
        &&& after.wf()
        &&& !after.held()
        &&& !after.running()
        &&& r is Some <==> before.running()
    }

    /// An empty slot.
    pub fn new() -> (r: Self)
        ensures
            r.wf(),
            !r.held(),
            !r.running(),
    {
        SidecarState { sidecar: None }
    }

    /// The child to probe, while one is held.
    pub fn child(&self) -> (r: Option<&C>)
        requires
            self.wf(),
        ensures
            r is Some <==> self.running(),
    {
        match &self.sidecar {
            Some(s) => s.child(),
            None => None,
        }
    }

    /// Whether the worker runs, given a non-blocking probe of the held child.
    pub fn is_running(&mut self, probe: Liveness) -> (r: bool)
        requires
            old(self).wf(),
        ensures
            Self::check_effect(*old(self), probe, *final(self), r),
    {
        match &mut self.sidecar {
            Some(s) => s.is_running(probe),
            None => false,
        }
    }

    /// Stops the installed worker and empties the slot. Stopping an empty
    /// or stopped slot hands nothing back and is no error.
    pub fn stop(&mut self) -> (r: Option<Termination<C, W>>)
        requires
            old(self).wf(),
        ensures
            Self::stop_effect(*old(self), *final(self), r),
    {
        let r = match &mut self.sidecar {
            Some(s) => s.stop(),
            None => None,
        };
        self.sidecar = None;
        r
    }

    /// Stops the installed worker but keeps its supervisor, as the first half
    /// of a start or a restart.
    pub fn stop_current(&mut self) -> (r: Option<Termination<C, W>>)
        requires
            old(self).wf(),
        ensures
            final(self).wf(),
            final(self).held() == old(self).held(),
            !final(self).running(),
            r is Some <==> old(self).running(),
    {
        match &mut self.sidecar {
            Some(s) => s.stop(),
            None => None,
        }
    }

    /// Installs the supervisor of a newly launched worker, once the previous
    /// one was stopped; a failed launch is reported and leaves the slot as
    /// it was.
    pub fn start(&mut self, launched: Result<PythonSidecar<C, W, R>, SidecarError>) -> (r: Result<
        (),
        SidecarError,
    >)
        requires
            old(self).wf(),
            !old(self).running(),
            launched matches Ok(s) ==> s.wf() && s.live(),
        ensures
            final(self).wf(),
            r is Ok <==> launched is Ok,
            final(self).running() <==> launched is Ok,
            launched matches Err(e) ==> r == Err::<(), SidecarError>(e),
    {
        match launched {
            Ok(s) => {
                self.sidecar = Some(s);
                Ok(())
            },
            Err(e) => Err(e),
        }
    }

    /// The script path of the installed supervisor, to relaunch it.
    pub fn held_path(&self) -> (r: Option<String>)
        ensures
            r is Some <==> self.held(),
    {
        match &self.sidecar {
            Some(s) => Some(s.rpc_path().clone()),
            None => None,
        }
    }

    /// Ends a restart begun with `stop_current`: the held supervisor takes
    /// the relaunched child, or stays stopped when the launch failed. With
    /// nothing installed there is nothing to restart.
    pub fn complete_restart(&mut self, launched: Result<(C, W, R), SidecarError>) -> (r: Result<
        (),
        SidecarError,
    >)
        requires
            old(self).wf(),
            !old(self).running(),
        ensures
            final(self).wf(),
            final(self).held() == old(self).held(),
            old(self).held() ==> (r is Ok <==> launched is Ok),
            old(self).held() ==> (final(self).running() <==> launched is Ok),
            !old(self).held() ==> r is Ok && !final(self).running(),
    {
        match &mut self.sidecar {
            Some(s) => s.complete_restart(launched),
            None => Ok(()),
        }
    }
}

impl<C, W, R> Default for SidecarState<C, W, R> {
    /// An empty slot.
    fn default() -> (r: Self)
        ensures
            r.wf(),
            !r.held(),
            !r.running(),
    {
        SidecarState::new()
    }
}

impl<C, W: Clone, R: Clone> SidecarState<C, W, R> {
    /// A client on the running worker's streams, with the default timeout;
    /// absent when no worker runs.
    pub fn rpc_client(&self) -> (r: Option<AsyncRpcClient<W, R>>)
        requires
            self.wf(),
        ensures
            r is Some <==> self.running(),
            r matches Some(a) ==> a.spec_client().spec_timeout_ms() == DEFAULT_TIMEOUT_MS,
    {
        match &self.sidecar {
            Some(s) => s.async_rpc_client(),
            None => None,
        }
    }

    /// What starting a call through the slot does: with no running worker
    /// it is refused before anything is written; otherwise it yields the
    /// client, the pending call and the request line to write.
    pub open spec fn call_admission(
        reg: Self,
        method: Seq<char>,
        r: Result<(RpcClient<W, R>, PendingCall, String), SidecarError>,
    ) -> bool {
        &&& !reg.running() ==> r == Err::<(RpcClient<W, R>, PendingCall, String), SidecarError>(
            SidecarError::NotRunning,
        )
        &&& reg.running() ==> r is Ok
        &&& r matches Ok((c, call, line)) ==> call.timeout_ms == c.spec_timeout_ms()
            && is_request_line(line@, version_tag(), method, call.id@)
    }

    /// Starts a call of `method` on `params` on the running worker.
    pub fn begin_call(&self, method: &str, params: Value) -> (r: Result<
        (RpcClient<W, R>, PendingCall, String),
        SidecarError,
    >)
        requires
            self.wf(),
        ensures
            Self::call_admission(*self, method@, r),
    {
        match self.rpc_client() {
            None => Err(SidecarError::NotRunning),
            Some(a) => {
                let client = a.into_client();
                let (call, line) = client.begin_call(method, params)?;
                Ok((client, call, line))
            },
        }
    }
}

/// Stopping twice in a row: the second stop has nothing to terminate, so it
/// cannot fail, and after each stop every liveness check reports the worker
/// stopped, whatever its probe says.
pub proof fn lemma_stop_twice<C, W, R>(
    s0: SidecarState<C, W, R>,
    s1: SidecarState<C, W, R>,
    s2: SidecarState<C, W, R>,
    t1: Option<Termination<C, W>>,
    t2: Option<Termination<C, W>>,
)
    requires
        s0.wf(),
        SidecarState::stop_effect(s0, s1, t1),
        SidecarState::stop_effect(s1, s2, t2),
    ensures
        t2 is None,
        forall|p: Liveness, after: SidecarState<C, W, R>, r: bool|
            #[trigger] SidecarState::check_effect(s1, p, after, r) ==> !r,
        forall|p: Liveness, after: SidecarState<C, W, R>, r: bool|
            #[trigger] SidecarState::check_effect(s2, p, after, r) ==> !r,
{
}

/// A worker killed from outside between calls: the first check whose probe
/// finds the child gone reports it stopped, and so does every check after
/// it, without trusting a later probe.
pub proof fn lemma_exit_is_reported<C, W, R>(
    s0: SidecarState<C, W, R>,
    probe: Liveness,
    s1: SidecarState<C, W, R>,
    r1: bool,
)
    requires
        SidecarState::check_effect(s0, probe, s1, r1),
        probe != Liveness::Running,
    ensures
        !r1,
        forall|p: Liveness, after: SidecarState<C, W, R>, r: bool|
            #[trigger] SidecarState::check_effect(s1, p, after, r) ==> !r,
{
}

/// A call with no worker started: when the slot gives no client, starting
/// the call is refused with `NotRunning`, before any request line exists to
/// be written.
pub proof fn lemma_call_refused_without_worker<C, W: Clone, R: Clone>(
    reg: SidecarState<C, W, R>,
    client: Option<AsyncRpcClient<W, R>>,
    method: Seq<char>,
    r: Result<(RpcClient<W, R>, PendingCall, String), SidecarError>,
)
    requires
        client is Some <==> reg.running(),
        client is None,
        SidecarState::call_admission(reg, method, r),
    ensures
        r == Err::<(RpcClient<W, R>, PendingCall, String), SidecarError>(SidecarError::NotRunning),
{
}

} // verus!
