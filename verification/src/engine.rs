//! One run: every registered check is carried out once, its severity is held
//! against what was remembered, and the alert is composed if any escalated.

use crate::message::alert_text;
use crate::message::compose_message;
use crate::output::Dispatch;
use crate::output::Output;
use crate::persistence::CheckId;
use crate::persistence::Persistence;
use crate::report::report_views;
use crate::report::run_test;
use crate::report::settles;
use crate::report::Report;
use crate::report::Test;
use vstd::prelude::*;

verus! {

/// What a run found: the report of every registered check, in registration
/// order, and whether any of them escalated.
#[derive(Debug, PartialEq, Eq)]
pub struct Round {
    pub reports: Vec<Report>,
    pub alert: bool,
}

/// The severities that two reports show, as one entry for each check.
pub open spec fn observed(disk: Report, failed_units: Report) -> Persistence {
    Persistence { disk: disk.status, failed_units: failed_units.status }
}

/// Evaluates the reports of one run against the remembered state.
///
/// The run alerts when at least one check escalated, whatever the others did.
/// The state then holds the severity of every report, escalated or not.
pub fn assess(persistence: &mut Persistence, disk: Report, failed_units: Report) -> (round: Round)
    ensures
        round.reports@ == seq![disk, failed_units],
        round.alert == old(persistence).alerts_on(observed(disk, failed_units)),
        *final(persistence) == old(persistence).after_run(observed(disk, failed_units)),
        *final(persistence) == observed(disk, failed_units),
{
    let disk_escalated = persistence.observe(CheckId::Disk, disk.status);
    let failed_units_escalated = persistence.observe(CheckId::FailedUnits, failed_units.status);
    let mut reports: Vec<Report> = Vec::new();
    reports.push(disk);
    reports.push(failed_units);
    assert(reports@ =~= seq![disk, failed_units]);
    Round { reports, alert: disk_escalated || failed_units_escalated }
}

/// Carries out both registered checks, in registration order, and evaluates
/// what they report.
///
/// A check that fails is reported as a warning that carries the error's
/// description, and does not keep the other from running. Whatever the checks
/// report, there is one report for each, the state afterwards holds their
/// severities, and the run alerts exactly when one of them is an escalation
/// over the state before.
pub fn run<D: Test, F: Test>(persistence: &mut Persistence, disk: &D, failed_units: &F) -> (round:
    Round)
    ensures
        round.reports@.len() == 2,
        exists|outcome: Result<Report, anyhow::Error>| #[trigger]
            call_ensures(D::report, (disk,), outcome) && settles(outcome, round.reports@[0]),
        exists|outcome: Result<Report, anyhow::Error>| #[trigger]
            call_ensures(F::report, (failed_units,), outcome) && settles(
                outcome,
                round.reports@[1],
            ),
        round.alert == old(persistence).alerts_on(
            observed(round.reports@[0], round.reports@[1]),
        ),
        *final(persistence) == observed(round.reports@[0], round.reports@[1]),
{
    let disk_report = run_test(disk);
    let failed_units_report = run_test(failed_units);
    assess(persistence, disk_report, failed_units_report)
}

/// Decides what is to be done at the end of a run: nothing when it did not
/// alert, else the composed alert is printed or mailed as `output` says.
pub fn announce(round: &Round, output: Output, sender: &str, recipient: &str) -> (dispatch:
    Dispatch)
    ensures
        output.dispatched(
            round.alert,
            recipient@,
            alert_text(sender@, recipient@, report_views(round.reports@)),
            dispatch,
        ),
{
    if round.alert {
        let message = compose_message(sender, recipient, &round.reports);
        output.dispatch(true, recipient, message)
    } else {
        Dispatch::Nothing
    }
}

} // verus!
