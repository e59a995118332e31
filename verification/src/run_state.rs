//! The record of whether a script is running and whether the user has asked
//! to stop it.

use vstd::prelude::*;

verus! {

/// Whether a script is running, and whether its cancellation was requested.
///
/// A value is well formed when cancellation is requested only of a run that
/// is under way. The starting value is idle; a value is never destroyed,
/// only reset.
#[derive(Clone, Copy, Debug, PartialEq, Eq, Structural)]
pub struct RunState {
    pub running: bool,
    pub cancel_requested: bool,
}

impl Default for RunState {
    fn default() -> (state: RunState)
        ensures
            state == RunState::idle(),
    {
        RunState { running: false, cancel_requested: false }
    }
}

impl RunState {
    /// No run, nothing to cancel.
    pub open spec fn idle() -> RunState {
        RunState { running: false, cancel_requested: false }
    }

    /// A run that nobody has asked to stop.
    pub open spec fn fresh_run() -> RunState {
        RunState { running: true, cancel_requested: false }
    }

    /// Cancellation is requested only while a run is under way.
    pub open spec fn wf(self) -> bool {
        self.cancel_requested ==> self.running
    }

    /// The state once cancellation has been asked for: a run is marked,
    /// an idle state stays as it is.
    pub open spec fn cancelled(self) -> RunState {
        if self.running {
            RunState { running: true, cancel_requested: true }
        } else {
            self
        }
    }

    /// Whether a script is running.
    pub fn check_js_running(&self) -> (running: bool)
        ensures
            running == self.running,
    {
        self.running
    }

    /// Whether the user has asked to stop the run.
    pub fn terminated(&self) -> (requested: bool)
        ensures
            requested == self.cancel_requested,
    {
        self.cancel_requested
    }

    /// Marks the start of a run.
    pub fn run_new(&mut self)
        ensures
            *final(self) == RunState::fresh_run(),
    {
        self.running = true;
        self.cancel_requested = false;
    }

    /// Clears both flags together.
    pub fn reset(&mut self)
        ensures
            *final(self) == RunState::idle(),
    {
        self.running = false;
        self.cancel_requested = false;
    }

    /// Records that the user wants the run stopped. Returns whether there
    /// was a run to stop; without one nothing changes.
    pub fn terminate_command(&mut self) -> (was_running: bool)
        ensures
            was_running == old(self).running,
            *final(self) == old(self).cancelled(),
            old(self).wf() ==> final(self).wf(),
    {
        if self.running {
            self.cancel_requested = true;
            true
        } else {
            false
        }
    }
}

} // verus!
