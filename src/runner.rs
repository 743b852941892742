//! The process-wide run state: at most one onboarding run at a time, and a
//! stop flag that the running job observes at its next checkpoint.
use vstd::prelude::*;

verus! {

/// Why a run could not start.
#[derive(Debug, PartialEq, Eq, Structural)]
pub enum StartError {
    AlreadyRunning,
}

/// Shared state of the single onboarding job.
#[derive(Debug, PartialEq, Eq, Structural)]
pub struct RunnerState {
    pub running: bool,
    pub stop_requested: bool,
}

impl RunnerState {
    /// No run, no stop request.
    pub fn new() -> (r: RunnerState)
        ensures
            !r.running,
            !r.stop_requested,
    {
        RunnerState { running: false, stop_requested: false }
    }

    /// Claims the job slot, clearing any earlier stop request; fails, leaving
    /// the state alone, while a run is going on.
    pub fn try_start(&mut self) -> (r: Result<(), StartError>)
        ensures
            old(self).running ==> r == Err::<(), StartError>(StartError::AlreadyRunning)
                && *final(self) == *old(self),
            !old(self).running ==> r is Ok && final(self).running && !final(self).stop_requested,
    {
        if self.running {
            return Err(StartError::AlreadyRunning);
        }
        self.running = true;
        self.stop_requested = false;
        Ok(())
    }

    /// Asks the current run, if any, to stop. Asking twice, or with no run,
    /// changes nothing more.
    pub fn request_stop(&mut self)
        ensures
            final(self).stop_requested,
            final(self).running == old(self).running,
    {
        self.stop_requested = true;
    }

    /// Releases the job slot when a run has ended.
    pub fn finish(&mut self)
        ensures
            !final(self).running,
            final(self).stop_requested == old(self).stop_requested,
    {
        self.running = false;
    }
}

} // verus!
