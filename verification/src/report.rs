//! What one check says about the host: a severity and an explanation.

use crate::status::Status;
use std::fmt::Write;
use vstd::prelude::*;

verus! {

/// `anyhow::Error`, the error a failed check hands back. Nothing of its
/// contents is visible to proofs.
#[verifier::external_type_specification]
#[verifier::external_body]
pub struct ExError(anyhow::Error);

/// The outcome of one check in one run.
///
/// The first line of `message` is the summary; further lines are detail.
#[derive(Debug, PartialEq, Eq)]
pub struct Report {
    pub status: Status,
    pub message: String,
}

/// A [`Report`] with its message as a sequence of characters.
pub ghost struct ReportView {
    pub status: Status,
    pub message: Seq<char>,
}

impl View for Report {
    type V = ReportView;

    open spec fn view(&self) -> ReportView {
        ReportView { status: self.status, message: self.message@ }
    }
}

/// The views of a sequence of reports, in the same order.
pub open spec fn report_views(reports: Seq<Report>) -> Seq<ReportView> {
    reports.map_values(|r: Report| r@)
}

/// The report that stands for a check that could not be carried out.
pub open spec fn failure_view(description: Seq<char>) -> ReportView {
    ReportView { status: Status::Warning, message: description }
}

/// The description of `error`: the text that `anyhow::Error`'s `Display`
/// implementation writes for it without the alternate flag, which is the
/// message of the outermost error.
pub uninterp spec fn description_of(error: anyhow::Error) -> Seq<char>;

/// Whether `out` is the report that the outcome of a check is settled into:
/// the check's own report where it succeeded, and where it failed the warning
/// whose message is the description of the error.
pub open spec fn settles(outcome: Result<Report, anyhow::Error>, out: Report) -> bool {
    match outcome {
        Ok(own) => out == own,
        Err(error) => out@ == failure_view(description_of(error)),
    }
}

/// A health probe: it produces a report, or fails with an error.
///
/// Implementations return expected failures (a denied permission, an
/// unreachable service) as `Err`; [`to_report`] turns them into a warning.
pub trait Test {
    fn report(&self) -> Result<Report, anyhow::Error>;
}

/// Writes `error` with `anyhow::Error`'s `Display` implementation, without
/// the alternate flag. The text is trusted to be [`description_of`] the
/// error; nothing else is claimed of it.
#[verifier::external_body]
fn describe(error: &anyhow::Error) -> (text: String)
    ensures
        text@ == description_of(*error),
{
    let mut text = String::new();
    let _ = write!(text, "{}", error);
    text
}

impl Clone for Report {
    fn clone(&self) -> (copy: Report)
        ensures
            copy == *self,
    {
        Report { status: self.status, message: self.message.clone() }
    }
}

/// The warning that stands for a check that failed with `description`.
pub fn failure_report(description: String) -> (report: Report)
    ensures
        report@ == failure_view(description@),
        report.message == description,
{
    Report { status: Status::Warning, message: description }
}

/// Settles the outcome of a check into a report: the check's own report where
/// it succeeded, and a warning that carries the error's description where it
/// failed.
pub fn to_report(report: Result<Report, anyhow::Error>) -> (out: Report)
    ensures
        settles(report, out),
{
    match report {
        Ok(own) => own,
        Err(error) => failure_report(describe(&error)),
    }
}

/// Carries out `test` and settles its outcome with [`to_report`], so that
/// every check yields exactly one report.
pub fn run_test<T: Test>(test: &T) -> (out: Report)
    ensures
        exists|outcome: Result<Report, anyhow::Error>| #[trigger]
            call_ensures(T::report, (test,), outcome) && settles(outcome, out),
{
    to_report(test.report())
}

} // verus!
