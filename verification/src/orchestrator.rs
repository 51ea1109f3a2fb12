//! The top-level orchestration state machine: one issuance run, from setting
//! up the temporary challenge route to installing the signed certificate.
//!
//! The orchestrator only decides; the caller performs each phase's outside
//! work (running the scripts over the channel, triggering validation,
//! saving the certificate) and reports how it went.

use vstd::prelude::*;

verus! {

/// The phase an issuance run is in.
#[derive(Clone, Copy, PartialEq, Eq, Structural, Debug)]
pub enum Phase {
    /// Installing the temporary challenge route (short-circuit script).
    SettingUp,
    /// Waiting for the external validation fetch to reach the responder.
    Validating,
    /// Removing the temporary route again (best-effort script).
    TearingDown,
    /// Requesting and persisting the signed certificate.
    Saving,
    /// Installing the certificate and its permanent route (short-circuit
    /// script).
    Installing,
    /// The run is over; `success` says whether every step worked.
    Finished { success: bool },
    /// A fatal condition ended the run: the temporary route could not be set
    /// up, so validation cannot proceed.
    Aborted,
}

/// The phase after the setup script finished: without the temporary route the
/// run aborts fatally.
pub open spec fn after_setup_spec(ok: bool) -> Phase {
    if ok {
        Phase::Validating
    } else {
        Phase::Aborted
    }
}

/// The phase after the responder stopped: only an observed challenge request
/// lets the run go on; otherwise it finishes unsuccessfully.
pub open spec fn after_validation_spec(observed: bool) -> Phase {
    if observed {
        Phase::TearingDown
    } else {
        Phase::Finished { success: false }
    }
}

/// The phase after the teardown script finished: teardown is best-effort, so
/// the run proceeds to saving the certificate whatever the outcome was.
pub open spec fn after_teardown_spec(ok: bool) -> Phase {
    Phase::Saving
}

/// The phase after the certificate was (or was not) signed and persisted.
pub open spec fn after_save_spec(ok: bool) -> Phase {
    if ok {
        Phase::Installing
    } else {
        Phase::Finished { success: false }
    }
}

/// The phase after the install script finished.
pub open spec fn after_install_spec(ok: bool) -> Phase {
    Phase::Finished { success: ok }
}

/// One issuance run.
#[derive(Clone, Copy, PartialEq, Eq, Structural, Debug)]
pub struct Orchestrator {
    pub phase: Phase,
}

impl Orchestrator {
    /// A fresh run, about to set up the temporary route.
    pub fn new() -> (r: Orchestrator)
        ensures
            r.phase is SettingUp,
    {
        Orchestrator { phase: Phase::SettingUp }
    }

    /// The setup script finished.
    pub fn setup_finished(&mut self, ok: bool)
        requires
            old(self).phase is SettingUp,
        ensures
            final(self).phase == after_setup_spec(ok),
    {
        self.phase = if ok {
            Phase::Validating
        } else {
            Phase::Aborted
        };
    }

    /// The responder stopped serving; `observed` says whether it saw the
    /// challenge request.
    pub fn validation_finished(&mut self, observed: bool)
        requires
            old(self).phase is Validating,
        ensures
            final(self).phase == after_validation_spec(observed),
    {
        self.phase = if observed {
            Phase::TearingDown
        } else {
            Phase::Finished { success: false }
        };
    }

    /// The teardown script finished, well or badly.
    pub fn teardown_finished(&mut self, ok: bool)
        requires
            old(self).phase is TearingDown,
        ensures
            final(self).phase == after_teardown_spec(ok),
    {
        self.phase = Phase::Saving;
    }

    /// The signed certificate was persisted — or could not be.
    pub fn save_finished(&mut self, ok: bool)
        requires
            old(self).phase is Saving,
        ensures
            final(self).phase == after_save_spec(ok),
    {
        self.phase = if ok {
            Phase::Installing
        } else {
            Phase::Finished { success: false }
        };
    }

    /// The install script finished; its result is the run's result.
    pub fn install_finished(&mut self, ok: bool)
        requires
            old(self).phase is Installing,
        ensures
            final(self).phase == after_install_spec(ok),
    {
        self.phase = Phase::Finished { success: ok };
    }
}

/// Teardown-then-install: once the responder observed the challenge request,
/// the run tears the temporary route down, and — whatever the teardown's
/// outcome — proceeds to saving and, once the certificate is persisted, to
/// installing it.
pub proof fn lemma_teardown_then_install(teardown_ok: bool)
    ensures
        after_validation_spec(true) is TearingDown,
        after_teardown_spec(teardown_ok) is Saving,
        after_save_spec(true) is Installing,
{
}

/// A failed setup is fatal: the run aborts without validating anything, while
/// an unobserved challenge merely finishes the run unsuccessfully.
pub proof fn lemma_failure_routes()
    ensures
        after_setup_spec(false) is Aborted,
        after_validation_spec(false) == (Phase::Finished { success: false }),
{
}

} // verus!
