//! The lifecycle of one background worker: a stream consumer or a timer,
//! with cooperative cancellation and a remote-cleanup action that runs
//! exactly once on teardown.
//!
//! This is the verified discipline that the runtime's thread-backed
//! workers follow: the thread, the channel and the network delete live
//! outside the library and mirror these transitions.
use vstd::prelude::*;

verus! {

/// The cooperative message a worker can be sent.
#[derive(Clone, Copy, PartialEq, Eq, Structural, Debug)]
pub enum Message {
    /// Ask the worker to stop at its next cancellation check.
    StopSelf,
}

/// Where a worker stands in its life.
#[derive(Clone, Copy, PartialEq, Eq, Structural, Debug)]
pub enum WorkerState {
    /// Doing its work, polling for cancellation once per loop iteration.
    Running,
    /// Asked to stop; will stop at the next cancellation check.
    Cancelling,
    /// Torn down; terminal.
    Stopped,
}

/// One unit of background work: its state, whether a remote-cleanup action
/// is bound to it, and how many times that action has run.
pub struct Worker {
    pub state: WorkerState,
    pub cleanup_bound: bool,
    pub cleanups_run: u64,
}

impl Worker {
    /// A worker's cleanup action runs never before teardown, and exactly
    /// once — when bound — at teardown.
    pub open spec fn wf(&self) -> bool {
        &&& self.state is Stopped ==> self.cleanups_run == if self.cleanup_bound {
            1int
        } else {
            0int
        }
        &&& !(self.state is Stopped) ==> self.cleanups_run == 0
    }

    /// Starts a worker, optionally binding a remote-cleanup action to it.
    pub fn spawn(cleanup_bound: bool) -> (r: Worker)
        ensures
            r.wf(),
            r.state is Running,
            r.cleanup_bound == cleanup_bound,
            r.cleanups_run == 0,
    {
        Worker { state: WorkerState::Running, cleanup_bound, cleanups_run: 0 }
    }

    /// Requests cancellation: a non-blocking signal that a running worker
    /// honours at its next check.  A worker already stopped is unaffected.
    pub fn send(&mut self, msg: Message)
        requires
            old(self).wf(),
        ensures
            final(self).wf(),
            final(self).state == if old(self).state is Running {
                WorkerState::Cancelling
            } else {
                old(self).state
            },
            final(self).cleanup_bound == old(self).cleanup_bound,
            final(self).cleanups_run == old(self).cleanups_run,
    {
        match msg {
            Message::StopSelf => {
                if matches!(self.state, WorkerState::Running) {
                    self.state = WorkerState::Cancelling;
                }
            },
        }
    }

    /// Tears the worker down: cancellation is requested, the bound cleanup
    /// action — if any — runs exactly once, and the worker stops.  The
    /// result says whether the caller must perform the remote delete now.
    pub fn teardown(&mut self) -> (do_cleanup: bool)
        requires
            old(self).wf(),
            !(old(self).state is Stopped),
        ensures
            final(self).wf(),
            final(self).state is Stopped,
            do_cleanup == old(self).cleanup_bound,
            final(self).cleanup_bound == old(self).cleanup_bound,
            final(self).cleanups_run == if old(self).cleanup_bound {
                1int
            } else {
                0int
            },
    {
        self.send(Message::StopSelf);
        self.state = WorkerState::Stopped;
        if self.cleanup_bound {
            self.cleanups_run = 1;
            true
        } else {
            false
        }
    }
}

/// Exactly one cleanup runs for every stopped worker that had one bound,
/// whatever outcome stopped it.
pub proof fn lemma_cleanup_exactly_once(w: Worker)
    requires
        w.wf(),
        w.state is Stopped,
    ensures
        w.cleanups_run == if w.cleanup_bound {
            1int
        } else {
            0int
        },
{
}

} // verus!
