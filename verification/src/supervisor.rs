//! The reconnection policy: while the platform reports the device as
//! radio-connected, run one session after another; on the first "not
//! connected" after an active spell, forget every observation and notify
//! once, then stay idle until the device comes back. The caller polls the
//! platform and performs the chosen action; the decision itself is made
//! here.

use vstd::prelude::*;

verus! {

/// What the caller must do after one connectivity poll.
#[derive(Debug, Clone, Copy, PartialEq, Eq, Structural)]
pub enum PollAction {
    /// The device is radio-connected: connect the status channel and run one
    /// session to completion, then poll again at once.
    RunSession,
    /// The device just went away: reset every status field, wake the waiters
    /// once, then sleep for the idle interval.
    ResetAndNotify,
    /// The device is still away: sleep for the idle interval and poll again.
    StayIdle,
}

/// The decision for one poll: `idle` says whether the supervisor had already
/// seen the device away.
pub open spec fn spec_poll(idle: bool, connected: bool) -> (bool, PollAction) {
    if connected {
        (false, PollAction::RunSession)
    } else if !idle {
        (true, PollAction::ResetAndNotify)
    } else {
        (true, PollAction::StayIdle)
    }
}

/// The supervisor's only state: whether the last poll already found the
/// device away. It starts idle, so a device that is absent from the start
/// causes no reset and no notification.
pub struct Supervisor {
    pub idle: bool,
}

impl Supervisor {
    pub fn new() -> (r: Self)
        ensures
            r.idle,
    {
        Supervisor { idle: true }
    }

    /// Feed one connectivity poll result and learn what to do.
    pub fn poll(&mut self, connected: bool) -> (a: PollAction)
        ensures
            (final(self).idle, a) == spec_poll(old(self).idle, connected),
    {
        if connected {
            self.idle = false;
            PollAction::RunSession
        } else if !self.idle {
            self.idle = true;
            PollAction::ResetAndNotify
        } else {
            PollAction::StayIdle
        }
    }
}

/// How one connect-and-session attempt ended.
#[derive(Debug, Clone, Copy, PartialEq, Eq, Structural)]
pub enum AttemptOutcome {
    /// The session ran and ended normally (clean close, reset or timeout).
    Ended,
    /// Opening the status channel failed.
    ConnectFailed,
    /// The session ended with a fatal error (a malformed frame, or a read
    /// failure that is not an expected disconnect).
    SessionFailed,
}

impl Supervisor {
    /// Close out one attempt. No connect or session failure is fatal to the
    /// daemon: whatever the outcome, the supervisor returns to the
    /// connectivity poll unchanged. Only an error from the connectivity
    /// query itself stops the process, and that never reaches here.
    pub fn attempt_done(&mut self, outcome: AttemptOutcome) -> (fatal: bool)
        ensures
            !fatal,
            final(self).idle == old(self).idle,
    {
        match outcome {
            AttemptOutcome::Ended => false,
            AttemptOutcome::ConnectFailed => false,
            AttemptOutcome::SessionFailed => false,
        }
    }
}

/// After an active session, the first "not connected" poll resets the store
/// (every field back to `None`) and notifies exactly once: the poll right
/// after it, still "not connected", does nothing further.
pub proof fn lemma_disconnect_notifies_once()
    ensures
        ({
            let (idle1, a1) = spec_poll(false, false);
            let (idle2, a2) = spec_poll(idle1, false);
            &&& a1 == PollAction::ResetAndNotify
            &&& a2 == PollAction::StayIdle
            &&& crate::status::PodsStatus::spec_unknown().battery is None
            &&& crate::status::PodsStatus::spec_unknown().noise is None
            &&& crate::status::PodsStatus::spec_unknown().ear is None
        }),
{
}

} // verus!
