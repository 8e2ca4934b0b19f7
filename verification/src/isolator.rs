//! Cancel-safe isolated execution.
//!
//! A dispatched unit of work runs on an execution context independent of the
//! transport that received it, so a caller that stops awaiting the result
//! cannot abort work already dispatched — a deliberate choice that keeps a
//! client-side disconnect from leaving a mutation partially applied. This
//! module is the model of that lifecycle: dispatching, a waiter detaching,
//! and the work running to completion, with the side effect observable as a
//! probe counter.

use vstd::prelude::*;

verus! {

/// Where one dispatched unit of work stands. No unit transitions backwards;
/// a retry, if any, is a new unit.
#[derive(Clone, Copy, Debug, PartialEq, Eq, Structural)]
pub enum WorkPhase {
    Dispatched,
    Completed,
}

/// One dispatched unit of work: its phase, the probe counter its side
/// effect increments, and whether the dispatching caller still awaits it.
#[derive(Clone, Copy, Debug, PartialEq, Eq, Structural)]
pub struct IsolatedWork {
    pub phase: WorkPhase,
    pub probe: u64,
    pub waiter_attached: bool,
}

/// The waiter detaching: nothing of the work itself changes.
pub open spec fn spec_abandon(w: IsolatedWork) -> IsolatedWork {
    IsolatedWork { waiter_attached: false, ..w }
}

/// The work running to completion: the phase advances and the side effect
/// lands, whether or not a waiter is still attached.
pub open spec fn spec_complete(w: IsolatedWork) -> IsolatedWork {
    IsolatedWork { phase: WorkPhase::Completed, probe: (w.probe + 1) as u64, ..w }
}

impl IsolatedWork {
    /// Hands a unit of work to the isolated execution context, with the
    /// dispatching caller awaiting its result.
    pub fn dispatch() -> (r: IsolatedWork)
        ensures
            r.phase is Dispatched,
            r.probe == 0,
            r.waiter_attached,
    {
        IsolatedWork { phase: WorkPhase::Dispatched, probe: 0, waiter_attached: true }
    }

    /// The caller stops awaiting the result. The work is not interrupted:
    /// its phase and side effect are untouched.
    pub fn abandon_wait(&mut self)
        ensures
            *final(self) == spec_abandon(*old(self)),
    {
        self.waiter_attached = false;
    }

    /// The isolated context runs the work to completion; its side effect
    /// lands whether or not anyone still awaits the result.
    pub fn run_to_completion(&mut self)
        requires
            old(self).phase is Dispatched,
            old(self).probe < u64::MAX,
        ensures
            *final(self) == spec_complete(*old(self)),
    {
        self.phase = WorkPhase::Completed;
        self.probe = self.probe + 1;
    }
}

/// Abandoning the wait on dispatched work before it completes does not
/// prevent or change its side effect: completion lands the identical probe
/// increment and final phase whether the waiter detached first or not.
pub proof fn lemma_abandon_does_not_block_completion(w: IsolatedWork)
    ensures
        spec_complete(spec_abandon(w)).probe == spec_complete(w).probe,
        spec_complete(spec_abandon(w)).phase == spec_complete(w).phase,
        w.probe < u64::MAX ==> spec_complete(spec_abandon(w)).probe == w.probe + 1,
{
}

} // verus!
