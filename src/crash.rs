//! The decisions of the crash-flush subsystem: when to register the process
//! hooks, and whether a fatal event flushes the default logger before the
//! original termination goes on. Registering hooks, flushing and re-raising are
//! left to the caller, which reports each fatal event here and acts on the answer.
use vstd::prelude::*;

verus! {

/// Where the crash-flush subsystem stands.
#[derive(Clone, Copy, Debug, PartialEq, Eq, Structural)]
pub enum CrashState {
    /// No hooks are registered.
    Uninstalled,
    /// The hooks are registered and no fatal event has come.
    Installed,
    /// A fatal event is being handled: the flush is under way.
    Handling,
    /// The original termination is going on; nothing more is flushed.
    Terminated,
}

/// What the caller does on a fatal event.
#[derive(Clone, Copy, Debug, PartialEq, Eq, Structural)]
pub enum FatalAction {
    /// Flush the default logger, then hand the event to the original handler.
    FlushThenReraise,
    /// Hand the event to the original handler at once.
    Reraise,
}

/// The state after an install request, and whether the hooks are to be registered now.
pub open spec fn install_step(s: CrashState) -> (CrashState, bool) {
    if s == CrashState::Uninstalled {
        (CrashState::Installed, true)
    } else {
        (s, false)
    }
}

/// The state after a fatal event, and what the caller does about it.
pub open spec fn fatal_step(s: CrashState) -> (CrashState, FatalAction) {
    if s == CrashState::Installed {
        (CrashState::Handling, FatalAction::FlushThenReraise)
    } else {
        (CrashState::Terminated, FatalAction::Reraise)
    }
}

/// The state once the flush has finished.
pub open spec fn flush_done_step(s: CrashState) -> CrashState {
    if s == CrashState::Handling {
        CrashState::Terminated
    } else {
        s
    }
}

/// The process-wide crash-flush state.
#[derive(Clone, Copy, Debug, PartialEq, Eq, Structural)]
pub struct CrashGuard {
    pub state: CrashState,
}

impl CrashGuard {
    /// A guard with no hooks registered.
    pub fn new() -> (r: CrashGuard)
        ensures
            r.state == CrashState::Uninstalled,
    {
        CrashGuard { state: CrashState::Uninstalled }
    }

    /// Requests installation. Returns whether the caller registers the hooks
    /// now, which is so only on the first request.
    pub fn install(&mut self) -> (r: bool)
        ensures
            (final(self).state, r) == install_step(old(self).state),
    {
        match self.state {
            CrashState::Uninstalled => {
                self.state = CrashState::Installed;
                true
            },
            _ => false,
        }
    }

    /// Reports a fatal event. The first one after installation flushes; one that
    /// comes while handling (the flush itself failed) or later goes straight on
    /// to the original termination.
    pub fn on_fatal(&mut self) -> (r: FatalAction)
        ensures
            (final(self).state, r) == fatal_step(old(self).state),
    {
        match self.state {
            CrashState::Installed => {
                self.state = CrashState::Handling;
                FatalAction::FlushThenReraise
            },
            _ => {
                self.state = CrashState::Terminated;
                FatalAction::Reraise
            },
        }
    }

    /// Reports that the flush has finished.
    pub fn on_flush_done(&mut self)
        ensures
            final(self).state == flush_done_step(old(self).state),
    {
        if let CrashState::Handling = self.state {
            self.state = CrashState::Terminated;
        }
    }
}

/// The number of flushes among the actions of `n` fatal events in a row from `s`.
pub open spec fn flushes_in_a_row(s: CrashState, n: nat) -> nat
    decreases n,
{
    if n == 0 {
        0
    } else {
        let (next, action) = fatal_step(s);
        (if action == FatalAction::FlushThenReraise { 1nat } else { 0nat }) + flushes_in_a_row(next, (n - 1) as nat)
    }
}

/// Installing twice is installing once: the second request leaves the state as
/// the first left it, and never registers the hooks again.
pub proof fn lemma_install_idempotent(s: CrashState)
    ensures
        install_step(install_step(s).0).0 == install_step(s).0,
        !install_step(install_step(s).0).1,
{
}

/// A fatal event during the flush does not flush again: it goes on to the
/// original termination, and so does every event after it.
pub proof fn lemma_nested_fault_terminates(s: CrashState)
    requires
        s == CrashState::Handling || s == CrashState::Terminated,
    ensures
        fatal_step(s) == (CrashState::Terminated, FatalAction::Reraise),
{
}

/// However many fatal events come in a row, at most one of them flushes.
pub proof fn lemma_flush_at_most_once(s: CrashState, n: nat)
    ensures
        flushes_in_a_row(s, n) <= 1,
        s != CrashState::Installed ==> flushes_in_a_row(s, n) == 0,
    decreases n,
{
    if n > 0 {
        lemma_flush_at_most_once(fatal_step(s).0, (n - 1) as nat);
    }
}

} // verus!
