//! The background runtime's lifecycle.
//!
//! One persistent background execution context hosts every scan session for
//! the life of the process. This module is the bookkeeping the host consults
//! before touching that context: sessions may only be submitted while the
//! context runs, and the shutdown signal is sent exactly once. Submission
//! returns a handle (a serial number), so a session that fails to complete is
//! observable rather than silently lost. Shutdown is cooperative and does not
//! wait for in-flight sessions: they run to their own terminal state.

use vstd::prelude::*;

verus! {

/// The lifecycle of the single background execution context: whether it still
/// accepts submissions, and how many sessions it has hosted.
pub struct RuntimeLifecycle {
    pub running: bool,
    pub sessions_submitted: u64,
}

impl RuntimeLifecycle {
    /// Brings the lifecycle up: running, with no session hosted yet.
    pub fn start() -> (r: Self)
        ensures
            r.running,
            r.sessions_submitted == 0,
    {
        RuntimeLifecycle { running: true, sessions_submitted: 0 }
    }

    /// Records the submission of one new concurrent scan session and returns
    /// its handle: the sessions already hosted keep theirs, so concurrent
    /// sessions are independent. Valid only while the context runs.
    pub fn submit(&mut self) -> (id: u64)
        requires
            old(self).running,
            old(self).sessions_submitted < u64::MAX,
        ensures
            final(self).running,
            final(self).sessions_submitted == old(self).sessions_submitted + 1,
            id == old(self).sessions_submitted,
    {
        let id = self.sessions_submitted;
        self.sessions_submitted = self.sessions_submitted + 1;
        id
    }

    /// Records that the one-shot termination signal was sent: to be invoked
    /// exactly once, at process teardown, after which no submission is valid.
    /// In-flight sessions are untouched — their count is preserved and they
    /// still reach their own terminal state.
    pub fn shutdown(&mut self)
        requires
            old(self).running,
        ensures
            !final(self).running,
            final(self).sessions_submitted == old(self).sessions_submitted,
    {
        self.running = false;
    }
}

} // verus!
