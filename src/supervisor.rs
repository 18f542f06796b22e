//! Bookkeeping of one worker process: the child handle and the pipe ends the
//! host spawned, what a liveness probe means for them, and what stopping and
//! restarting hand back to be terminated.
//!
//! `C` is the host's handle on the child process, `W` its handle on the
//! worker's standard input and `R` on its standard output. The supervisor
//! either holds all three or none: it never keeps pipe ends of a process it
//! has let go.
use vstd::prelude::*;

use crate::bridge::AsyncRpcClient;
use crate::client::{RpcClient, DEFAULT_TIMEOUT_MS};
use crate::error::SidecarError;

verus! {

/// What a non-blocking probe of the child reported.
#[derive(Debug, Clone, Copy, PartialEq, Eq)]
pub enum Liveness {
    /// The child has not exited.
    Running,
    /// The child has exited.
    Exited,
    /// The probe itself failed.
    ProbeFailed,
}

/// The handles of a child that is being stopped: the host flushes `stdin`
/// as far as it can, kills `child` and waits for it.
pub struct Termination<C, W> {
    pub child: C,
    pub stdin: W,
}

/// One supervised worker process.
pub struct PythonSidecar<C, W, R> {
    child: Option<C>,
    rpc_path: String,
    stdin: Option<W>,
    stdout: Option<R>,
}

impl<C, W, R> PythonSidecar<C, W, R> {
    /// The child and both pipe ends are held together or not at all.
    pub closed spec fn wf(&self) -> bool {
        &&& self.child is Some <==> self.stdin is Some
        &&& self.child is Some <==> self.stdout is Some
    }

    /// The supervisor holds a child process.
    pub closed spec fn live(&self) -> bool {
        self.child is Some
    }

    /// The held child, input and output handles.
    pub closed spec fn spec_child(&self) -> Option<C> {
        self.child
    }

    pub closed spec fn spec_stdin(&self) -> Option<W> {
        self.stdin
    }

    pub closed spec fn spec_stdout(&self) -> Option<R> {
        self.stdout
    }

    /// The resolved path of the entry script, kept for restarts.
    pub closed spec fn path(&self) -> Seq<char> {
        self.rpc_path@
    }

    /// A supervisor for a child just spawned from the script at `rpc_path`.
    pub fn started(rpc_path: String, child: C, stdin: W, stdout: R) -> (r: Self)
        ensures
            r.wf(),
            r.live(),
            r.path() == rpc_path@,
            r.spec_child() == Some(child),
            r.spec_stdin() == Some(stdin),
            r.spec_stdout() == Some(stdout),
    {
        PythonSidecar { child: Some(child), rpc_path, stdin: Some(stdin), stdout: Some(stdout) }
    }

    pub fn rpc_path(&self) -> (r: &String)
        ensures
            r@ == self.path(),
    {
        &self.rpc_path
    }

    /// The child to probe, while one is held.
    pub fn child(&self) -> (r: Option<&C>)
        ensures
            r is Some <==> self.live(),
            r matches Some(c) ==> self.spec_child() == Some(*c),
    {
        match &self.child {
            Some(c) => Some(c),
            None => None,
        }
    }

    /// Records a liveness probe of the child and reports whether the worker
    /// runs. A child that exited, or that cannot be probed, is let go with
    /// its pipe ends, so later checks report it stopped without probing.
    pub fn is_running(&mut self, probe: Liveness) -> (r: bool)
        requires
            old(self).wf(),
        ensures
            final(self).wf(),
            final(self).path() == old(self).path(),
            r == (old(self).live() && probe == Liveness::Running),
            final(self).live() == r,
    {
        if self.child.is_none() {
            return false;
        }
        match probe {
            Liveness::Running => true,
            _ => {
                self.child = None;
                self.stdin = None;
                self.stdout = None;
                false
            },
        }
    }

    /// Stops the worker: hands back the child and its input for the host to
    /// flush, kill and wait for, and drops the output. Has nothing to hand
    /// back when no child is held, so stopping twice is harmless.
    pub fn stop(&mut self) -> (r: Option<Termination<C, W>>)
        requires
            old(self).wf(),
        ensures
            final(self).wf(),
            !final(self).live(),
            final(self).path() == old(self).path(),
            r is Some <==> old(self).live(),
            r matches Some(t) ==> old(self).spec_child() == Some(t.child) && old(
                self,
            ).spec_stdin() == Some(t.stdin),
    {
        let child = self.child.take();
        let stdin = self.stdin.take();
        self.stdout = None;
        match (child, stdin) {
            (Some(c), Some(w)) => Some(Termination { child: c, stdin: w }),
            _ => None,
        }
    }

    /// Ends a restart: after `stop`, the host relaunched the script at
    /// `rpc_path`; the new child is installed when that succeeded, and the
    /// supervisor stays fully stopped when it did not.
    pub fn complete_restart(&mut self, launched: Result<(C, W, R), SidecarError>) -> (r: Result<
        (),
        SidecarError,
    >)
        requires
            old(self).wf(),
            !old(self).live(),
        ensures
            final(self).wf(),
            final(self).path() == old(self).path(),
            r is Ok <==> launched is Ok,
            final(self).live() <==> launched is Ok,
            launched matches Err(e) ==> r == Err::<(), SidecarError>(e),
            launched matches Ok((c, w, rd)) ==> final(self).spec_child() == Some(c)
                && final(self).spec_stdin() == Some(w) && final(self).spec_stdout() == Some(rd),
    {
        match launched {
            Ok((c, w, rd)) => {
                self.child = Some(c);
                self.stdin = Some(w);
                self.stdout = Some(rd);
                Ok(())
            },
            Err(e) => Err(e),
        }
    }
}

impl<C, W: Clone, R: Clone> PythonSidecar<C, W, R> {
    /// A handle on the worker's standard input, while a child is held.
    pub fn stdin(&self) -> (r: Option<W>)
        requires
            self.wf(),
        ensures
            r is Some <==> self.live(),
            r matches Some(w) ==> self.spec_stdin() matches Some(held) && cloned(held, w),
    {
        match &self.stdin {
            Some(w) => Some(w.clone()),
            None => None,
        }
    }

    /// A handle on the worker's standard output, while a child is held.
    pub fn stdout(&self) -> (r: Option<R>)
        requires
            self.wf(),
        ensures
            r is Some <==> self.live(),
            r matches Some(rd) ==> self.spec_stdout() matches Some(held) && cloned(held, rd),
    {
        match &self.stdout {
            Some(rd) => Some(rd.clone()),
            None => None,
        }
    }

    /// A client on the worker's streams, while a child is held.
    pub fn rpc_client(&self) -> (r: Option<RpcClient<W, R>>)
        requires
            self.wf(),
        ensures
            r is Some <==> self.live(),
            r matches Some(c) ==> {
                &&& c.spec_timeout_ms() == DEFAULT_TIMEOUT_MS
                &&& self.spec_stdin() matches Some(w) && cloned(w, c.spec_stdin())
                &&& self.spec_stdout() matches Some(rd) && cloned(rd, c.spec_stdout())
            },
    {
        let stdin = self.stdin()?;
        let stdout = self.stdout()?;
        Some(RpcClient::new(stdin, stdout))
    }

    /// An asynchronous client on the worker's streams, while a child is held.
    pub fn async_rpc_client(&self) -> (r: Option<AsyncRpcClient<W, R>>)
        requires
            self.wf(),
        ensures
            r is Some <==> self.live(),
            r matches Some(a) ==> a.spec_client().spec_timeout_ms() == DEFAULT_TIMEOUT_MS,
    {
        match self.rpc_client() {
            Some(c) => Some(AsyncRpcClient::new(c)),
            None => None,
        }
    }
}

} // verus!
