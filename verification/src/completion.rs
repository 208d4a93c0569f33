//! Per-request tracking: one outcome report, one permit release, on every
//! exit path.

use vstd::prelude::*;

use crate::controller::Controller;
use crate::outcome::Outcome;
use crate::pool::{Permit, PermitPool};

verus! {

/// Tracks one in-flight request. It holds the request's permit, reports the
/// outcome to the controller exactly once on natural completion, and releases
/// the permit exactly once whichever ends first — completion or abandonment.
///
/// Whichever of [`TrackedCompletion::complete`] and
/// [`TrackedCompletion::abandon`] runs first takes the permit with it; the
/// other then finds none and changes nothing, so a race between natural
/// completion and cancellation can never release twice or report after an
/// abandonment.
#[derive(Debug)]
pub struct TrackedCompletion {
    permit: Option<Permit>,
    reported: bool,
}

/// The controller as one natural completion leaves it: when the permit was
/// still held, the feedback is applied and the permit returned; when it was
/// already gone, nothing changes.
pub open spec fn spec_after_complete(
    held: bool,
    pool_was_full: bool,
    controller: Controller,
    elapsed_nanos: u64,
    outcome: Outcome,
) -> Controller {
    if held {
        let mid = controller.spec_feedback_next(elapsed_nanos, outcome, pool_was_full);
        Controller { pool: PermitPool { issued: (mid.pool.issued - 1) as u64, ..mid.pool }, ..mid }
    } else {
        controller
    }
}

/// The controller as one abandonment leaves it: when the permit was still
/// held, it is returned and nothing else moves — no feedback, no limit or
/// baseline change; when it was already gone, nothing changes.
pub open spec fn spec_after_abandon(held: bool, controller: Controller) -> Controller {
    if held {
        Controller {
            pool: PermitPool {
                issued: (controller.pool.issued - 1) as u64,
                ..controller.pool
            },
            ..controller
        }
    } else {
        controller
    }
}

impl TrackedCompletion {
    /// Whether the permit is still held: neither natural completion nor
    /// abandonment has run yet.
    pub closed spec fn spec_holds_permit(self) -> bool {
        self.permit is Some
    }

    /// Whether the outcome has been reported to the controller.
    pub closed spec fn spec_reported(self) -> bool {
        self.reported
    }

    /// Whether the held permit took the pool's last free slot when it was
    /// issued.
    pub closed spec fn spec_pool_was_full(self) -> bool {
        self.permit matches Some(p) && p.spec_pool_was_full()
    }

    /// Starts tracking one dispatched request: the permit it was admitted
    /// under is held, and no outcome has been reported.
    pub fn new(permit: Permit) -> (c: TrackedCompletion)
        ensures
            c.spec_holds_permit(),
            !c.spec_reported(),
            c.spec_pool_was_full() == permit.spec_pool_was_full(),
    {
        TrackedCompletion { permit: Some(permit), reported: false }
    }

    /// The inner computation finished with a classified outcome: report the
    /// elapsed time and outcome to the controller and return the permit — but
    /// only if the permit is still held. After an abandonment won the race,
    /// this changes nothing: the outcome is dropped and nothing is released
    /// twice.
    pub fn complete(&mut self, controller: &mut Controller, elapsed_nanos: u64, outcome: Outcome)
        requires
            old(controller).wf(),
            old(self).spec_holds_permit() ==> old(controller).pool.issued >= 1,
        ensures
            final(controller).wf(),
            !final(self).spec_holds_permit(),
            final(self).spec_reported() == (old(self).spec_reported() || old(
                self,
            ).spec_holds_permit()),
            *final(controller) == spec_after_complete(
                old(self).spec_holds_permit(),
                old(self).spec_pool_was_full(),
                *old(controller),
                elapsed_nanos,
                outcome,
            ),
    {
        match self.permit.take() {
            Some(permit) => {
                let pool_was_full = permit.pool_was_full();
                controller.feedback(elapsed_nanos, outcome, pool_was_full);
                controller.pool.release(permit);
                self.reported = true;
            },
            None => {},
        }
    }

    /// The tracked request was abandoned before (or while) finishing: return
    /// the permit if it is still held, and report nothing — an unobserved
    /// outcome must not move the limit. Running this after completion, or
    /// twice, changes nothing.
    pub fn abandon(&mut self, controller: &mut Controller)
        requires
            old(controller).wf(),
            old(self).spec_holds_permit() ==> old(controller).pool.issued >= 1,
        ensures
            final(controller).wf(),
            !final(self).spec_holds_permit(),
            final(self).spec_reported() == old(self).spec_reported(),
            *final(controller) == spec_after_abandon(
                old(self).spec_holds_permit(),
                *old(controller),
            ),
            final(controller).limit_milli == old(controller).limit_milli,
            final(controller).rtt_baseline_nanos == old(controller).rtt_baseline_nanos,
            final(controller).pool.capacity == old(controller).pool.capacity,
    {
        match self.permit.take() {
            Some(permit) => {
                controller.pool.release(permit);
            },
            None => {},
        }
    }

    /// Whether the permit is still held.
    pub fn holds_permit(&self) -> (r: bool)
        ensures
            r == self.spec_holds_permit(),
    {
        self.permit.is_some()
    }

    /// Whether the outcome has been reported to the controller.
    pub fn has_reported(&self) -> (r: bool)
        ensures
            r == self.spec_reported(),
    {
        self.reported
    }
}

/// Law: an acquired permit is released exactly once, whichever way the
/// tracked request ends. The first of {natural completion, abandonment} to
/// run returns the permit — lowering `issued` by exactly one — and leaves the
/// tracker empty-handed; whatever runs second changes nothing at all. Only
/// the natural completion applies feedback; an abandonment moves neither the
/// limit nor the baseline.
pub proof fn lemma_permit_released_exactly_once(
    controller: Controller,
    pool_was_full: bool,
    elapsed_nanos: u64,
    outcome: Outcome,
    later_elapsed_nanos: u64,
    later_outcome: Outcome,
)
    requires
        controller.wf(),
        controller.pool.issued >= 1,
    ensures
        ({
            let after = spec_after_complete(
                true,
                pool_was_full,
                controller,
                elapsed_nanos,
                outcome,
            );
            &&& after.pool.issued == controller.pool.issued - 1
            &&& spec_after_abandon(false, after) == after
            &&& spec_after_complete(false, pool_was_full, after, later_elapsed_nanos, later_outcome)
                == after
        }),
        ({
            let after = spec_after_abandon(true, controller);
            &&& after.pool.issued == controller.pool.issued - 1
            &&& after.limit_milli == controller.limit_milli
            &&& after.rtt_baseline_nanos == controller.rtt_baseline_nanos
            &&& spec_after_abandon(false, after) == after
            &&& spec_after_complete(false, pool_was_full, after, later_elapsed_nanos, later_outcome)
                == after
        }),
{
}

} // verus!
