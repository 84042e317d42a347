//! Edge-triggered alerting: a run alerts when a check is more severe than it
//! was remembered to be, and every observation replaces what was remembered.

use crate::persistence::CheckId;
use crate::persistence::Persistence;
use crate::status::Status;
use std::cmp::Ordering;
use vstd::prelude::*;

verus! {

/// Whether observing `observed` for a check remembered at `persisted` is an
/// escalation: a step up the severity scale.
pub open spec fn escalates(observed: Status, persisted: Status) -> bool {
    observed.rank() > persisted.rank()
}

/// Whether `observed` is an escalation over `persisted`.
pub fn is_escalation(observed: Status, persisted: Status) -> (escalation: bool)
    ensures
        escalation == escalates(observed, persisted),
{
    observed > persisted
}

impl Persistence {
    /// Whether a run that observes `observed` alerts, starting from this
    /// state: it does when at least one check escalates.
    pub open spec fn alerts_on(self, observed: Persistence) -> bool {
        escalates(observed.disk, self.disk) || escalates(observed.failed_units, self.failed_units)
    }

    /// The state after a run that observed `observed`: the entry of every
    /// check, taken in registration order, is replaced by the observation.
    pub open spec fn after_run(self, observed: Persistence) -> Persistence {
        self.with(CheckId::Disk, observed.disk).with(CheckId::FailedUnits, observed.failed_units)
    }

    /// Takes in the severity observed for check `id`. The result says whether
    /// it is an escalation over what was remembered; the observation is
    /// remembered in either case.
    pub fn observe(&mut self, id: CheckId, observed: Status) -> (escalation: bool)
        ensures
            escalation == escalates(observed, old(self).status_of(id)),
            *final(self) == old(self).with(id, observed),
    {
        let escalation = is_escalation(observed, self.get(id));
        self.set(id, observed);
        escalation
    }
}

/// An observation escalates exactly when it is greater, in the order of
/// statuses, than what was remembered.
pub proof fn lemma_escalation_is_greater(observed: Status, persisted: Status)
    ensures
        escalates(observed, persisted) <==> observed.compare(persisted) == Ordering::Greater,
        escalates(observed, persisted) <==> persisted.compare(observed) == Ordering::Less,
{
}

/// A run alerts exactly when some registered check escalates.
pub proof fn lemma_alert_is_any_escalation(persisted: Persistence, observed: Persistence)
    ensures
        persisted.alerts_on(observed) <==> exists|id: CheckId|
            escalates(#[trigger] observed.status_of(id), persisted.status_of(id)),
{
    if persisted.alerts_on(observed) {
        if escalates(observed.disk, persisted.disk) {
            assert(escalates(
                observed.status_of(CheckId::Disk),
                persisted.status_of(CheckId::Disk),
            ));
        } else {
            assert(escalates(
                observed.status_of(CheckId::FailedUnits),
                persisted.status_of(CheckId::FailedUnits),
            ));
        }
    }
}

/// After a run the state is what the run observed, whatever it was before:
/// no entry is left over, and none is missing.
pub proof fn lemma_run_overwrites(persisted: Persistence, observed: Persistence)
    ensures
        persisted.after_run(observed) == observed,
        forall|id: CheckId|
            #[trigger] persisted.after_run(observed).status_of(id) == observed.status_of(id),
{
}

/// A second run that observes what the first one did never alerts.
pub proof fn lemma_repeated_run_is_quiet(persisted: Persistence, observed: Persistence)
    ensures
        !persisted.after_run(observed).alerts_on(observed),
{
}

} // verus!
