//! The guard that lets the periodic load report start once per process,
//! however often the session announces that it is ready.
use vstd::prelude::*;

verus! {

/// Remembers whether the load report has been started.
pub struct ReporterGuard {
    running: bool,
}

/// A start request on a guard in state `running`: whether it starts the
/// report, and the guard's state afterwards.
pub open spec fn start_step(running: bool) -> (bool, bool) {
    (!running, true)
}

impl View for ReporterGuard {
    type V = bool;

    closed spec fn view(&self) -> bool {
        self.running
    }
}

impl ReporterGuard {
    /// A guard under which nothing has started yet.
    pub fn new() -> (g: ReporterGuard)
        ensures
            !g@,
    {
        ReporterGuard { running: false }
    }

    /// Whether the report has been started.
    pub fn is_running(&self) -> (r: bool)
        ensures
            r == self@,
    {
        self.running
    }

    /// Requests a start: returns whether the caller is to start the report,
    /// which holds only for the first request.
    pub fn try_start(&mut self) -> (started: bool)
        ensures
            (started, final(self)@) == start_step(old(self)@),
    {
        let started = !self.running;
        self.running = true;
        started
    }
}

} // verus!
