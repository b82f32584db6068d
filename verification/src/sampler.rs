//! The background sampler's control logic: a two-state machine driven by the
//! OS layer's sampling thread.
//!
//! The thread owns the sleep, the read and the callback; every decision —
//! whether to invoke the callback and whether to keep running — is made
//! here. Stopping is cooperative: once the stop flag is observed or a read
//! fails, the machine is stopped for good, and stopping an already stopped
//! sampler changes nothing.

use vstd::prelude::*;

verus! {

/// The two control states of a background sampler. `Stopped` is terminal.
#[derive(Debug, Clone, Copy, PartialEq, Eq, Structural)]
pub enum SamplerState {
    /// The sampling loop keeps ticking.
    Running,
    /// The sampling loop has exited (or must exit at the next tick).
    Stopped,
}

/// The background sampler's control state: it starts running the moment it
/// is created and counts the callback invocations it has decided.
#[derive(Debug, Clone, Copy, PartialEq, Eq, Structural)]
pub struct BackgroundSampler {
    /// Current control state.
    pub state: SamplerState,
    /// Number of callback invocations decided so far (saturating).
    pub invocations: u64,
}

impl BackgroundSampler {
    /// A sampler in the running state with no invocations yet.
    pub fn new() -> (r: Self)
        ensures
            r.state is Running,
            r.invocations == 0,
    {
        BackgroundSampler { state: SamplerState::Running, invocations: 0 }
    }

    /// Whether the sampling loop is still running.
    pub fn is_running(&self) -> (r: bool)
        ensures
            r == (self.state is Running),
    {
        match self.state {
            SamplerState::Running => true,
            SamplerState::Stopped => false,
        }
    }

    /// Decide one tick of the sampling loop, given whether the owner has
    /// requested a stop and whether this tick's read succeeded. The callback
    /// is invoked exactly when the sampler was running, no stop was
    /// requested, and the read succeeded; on a stop request or a read error
    /// the machine moves to the terminal stopped state without retry.
    pub fn on_tick(&mut self, stop_requested: bool, read_ok: bool) -> (invoke: bool)
        ensures
            invoke == (old(self).state is Running && !stop_requested && read_ok),
            final(self).state is Running <==> (old(self).state is Running && !stop_requested
                && read_ok),
            final(self).invocations == if invoke {
                if old(self).invocations < u64::MAX {
                    (old(self).invocations + 1) as u64
                } else {
                    u64::MAX
                }
            } else {
                old(self).invocations
            },
    {
        match self.state {
            SamplerState::Stopped => false,
            SamplerState::Running => {
                if stop_requested || !read_ok {
                    self.state = SamplerState::Stopped;
                    false
                } else {
                    self.invocations = self.invocations.saturating_add(1);
                    true
                }
            },
        }
    }

    /// Request a stop: the machine is stopped afterwards, whatever state it
    /// was in, so stopping twice is the same as stopping once.
    pub fn stop(&mut self)
        ensures
            final(self).state is Stopped,
            final(self).invocations == old(self).invocations,
    {
        self.state = SamplerState::Stopped;
    }
}

} // verus!
