//! Counting reports by severity and ordering them, most severe first.

use crate::report::report_views;
use crate::report::Report;
use crate::report::ReportView;
use crate::status::Status;
use vstd::prelude::*;
use vstd::seq_lib::lemma_multiset_commutative;
use vstd::seq_lib::to_multiset_build;

verus! {

/// How many reports there are of each severity.
#[derive(Clone, Copy, Debug, PartialEq, Eq, Structural)]
pub struct Tally {
    pub critical: usize,
    pub warning: usize,
    pub nominal: usize,
}

/// The reports of severity `status`, in the order in which `reports` holds
/// them.
pub open spec fn with_status(reports: Seq<ReportView>, status: Status) -> Seq<ReportView>
    decreases reports.len(),
{
    if reports.len() == 0 {
        Seq::empty()
    } else if reports.last().status == status {
        with_status(reports.drop_last(), status).push(reports.last())
    } else {
        with_status(reports.drop_last(), status)
    }
}

/// The number of reports of severity `status`.
pub open spec fn count(reports: Seq<ReportView>, status: Status) -> nat {
    with_status(reports, status).len()
}

/// The reports ordered by severity, most severe first; reports of equal
/// severity keep the order they had.
pub open spec fn by_severity(reports: Seq<ReportView>) -> Seq<ReportView> {
    with_status(reports, Status::Critical) + with_status(reports, Status::Warning) + with_status(
        reports,
        Status::Nominal,
    )
}

/// Whether no report is followed by a more severe one.
pub open spec fn descending(reports: Seq<ReportView>) -> bool {
    forall|i: int, j: int|
        0 <= i <= j < reports.len() ==> reports[i].status.rank() >= reports[j].status.rank()
}

/// The selected reports all have the severity asked for, and are no more than
/// there were.
pub proof fn lemma_with_status_members(reports: Seq<ReportView>, status: Status)
    ensures
        with_status(reports, status).len() <= reports.len(),
        forall|i: int|
            0 <= i < with_status(reports, status).len() ==> (#[trigger] with_status(
                reports,
                status,
            )[i]).status == status,
    decreases reports.len(),
{
    if reports.len() > 0 {
        lemma_with_status_members(reports.drop_last(), status);
    }
}

/// Every report is counted under exactly one severity.
pub proof fn lemma_counts_add_up(reports: Seq<ReportView>)
    ensures
        count(reports, Status::Critical) + count(reports, Status::Warning) + count(
            reports,
            Status::Nominal,
        ) == reports.len(),
    decreases reports.len(),
{
    if reports.len() > 0 {
        lemma_counts_add_up(reports.drop_last());
    }
}

/// Selecting from a sequence that is already of one severity gives all of it
/// for that severity and nothing for any other.
pub proof fn lemma_with_status_of_uniform(
    reports: Seq<ReportView>,
    uniform: Status,
    status: Status,
)
    requires
        forall|i: int| 0 <= i < reports.len() ==> (#[trigger] reports[i]).status == uniform,
    ensures
        with_status(reports, status) == if status == uniform {
            reports
        } else {
            Seq::empty()
        },
    decreases reports.len(),
{
    if reports.len() > 0 {
        lemma_with_status_of_uniform(reports.drop_last(), uniform, status);
        assert(reports.drop_last().push(reports.last()) =~= reports);
    }
}

/// Selection goes through concatenation.
pub proof fn lemma_with_status_of_concat(a: Seq<ReportView>, b: Seq<ReportView>, status: Status)
    ensures
        with_status(a + b, status) == with_status(a, status) + with_status(b, status),
    decreases b.len(),
{
    if b.len() == 0 {
        assert(a + b =~= a);
        assert(with_status(a, status) + with_status(b, status) =~= with_status(a, status));
    } else {
        lemma_with_status_of_concat(a, b.drop_last(), status);
        assert((a + b).drop_last() =~= a + b.drop_last());
        assert((a + b).last() == b.last());
        if b.last().status == status {
            assert((with_status(a, status) + with_status(b.drop_last(), status)).push(b.last())
                =~= with_status(a, status) + with_status(b.drop_last(), status).push(b.last()));
        }
    }
}

/// Ordering by severity is stable: the reports of each severity are the same,
/// in the same order, before and after.
pub proof fn lemma_by_severity_is_stable(reports: Seq<ReportView>, status: Status)
    ensures
        with_status(by_severity(reports), status) == with_status(reports, status),
{
    let c = with_status(reports, Status::Critical);
    let w = with_status(reports, Status::Warning);
    let n = with_status(reports, Status::Nominal);
    lemma_with_status_members(reports, Status::Critical);
    lemma_with_status_members(reports, Status::Warning);
    lemma_with_status_members(reports, Status::Nominal);
    lemma_with_status_of_uniform(c, Status::Critical, status);
    lemma_with_status_of_uniform(w, Status::Warning, status);
    lemma_with_status_of_uniform(n, Status::Nominal, status);
    lemma_with_status_of_concat(c + w, n, status);
    lemma_with_status_of_concat(c, w, status);
    assert(with_status(by_severity(reports), status) =~= with_status(reports, status));
}

/// Ordering by severity puts no report before a more severe one.
pub proof fn lemma_by_severity_is_descending(reports: Seq<ReportView>)
    ensures
        descending(by_severity(reports)),
{
    lemma_with_status_members(reports, Status::Critical);
    lemma_with_status_members(reports, Status::Warning);
    lemma_with_status_members(reports, Status::Nominal);
}

/// Ordering by severity neither drops nor invents a report.
pub proof fn lemma_by_severity_is_permutation(reports: Seq<ReportView>)
    ensures
        by_severity(reports).to_multiset() == reports.to_multiset(),
        by_severity(reports).len() == reports.len(),
    decreases reports.len(),
{
    let c = with_status(reports, Status::Critical);
    let w = with_status(reports, Status::Warning);
    let n = with_status(reports, Status::Nominal);
    lemma_multiset_commutative(c + w, n);
    lemma_multiset_commutative(c, w);
    lemma_counts_add_up(reports);
    if reports.len() == 0 {
        assert(by_severity(reports) =~= reports);
    } else {
        let rest = reports.drop_last();
        let last = reports.last();
        let c0 = with_status(rest, Status::Critical);
        let w0 = with_status(rest, Status::Warning);
        let n0 = with_status(rest, Status::Nominal);
        lemma_by_severity_is_permutation(rest);
        lemma_multiset_commutative(c0 + w0, n0);
        lemma_multiset_commutative(c0, w0);
        to_multiset_build(rest, last);
        to_multiset_build(c0, last);
        to_multiset_build(w0, last);
        to_multiset_build(n0, last);
        assert(rest.push(last) =~= reports);
        assert(by_severity(reports).to_multiset() =~= reports.to_multiset());
    }
}

/// Counts the reports of each severity.
pub fn tally(reports: &Vec<Report>) -> (tally: Tally)
    ensures
        tally.critical == count(report_views(reports@), Status::Critical),
        tally.warning == count(report_views(reports@), Status::Warning),
        tally.nominal == count(report_views(reports@), Status::Nominal),
{
    let ghost views = report_views(reports@);
    let mut tally = Tally { critical: 0, warning: 0, nominal: 0 };
    let mut i: usize = 0;
    while i < reports.len()
        invariant
            views == report_views(reports@),
            i <= reports.len(),
            tally.critical == count(views.take(i as int), Status::Critical),
            tally.warning == count(views.take(i as int), Status::Warning),
            tally.nominal == count(views.take(i as int), Status::Nominal),
            tally.critical + tally.warning + tally.nominal == i,
        decreases reports.len() - i,
    {
        proof {
            assert(views.take(i + 1).drop_last() =~= views.take(i as int));
            assert(views.take(i + 1).last() == reports[i as int]@);
        }
        match reports[i].status {
            Status::Critical => {
                tally.critical += 1;
            },
            Status::Warning => {
                tally.warning += 1;
            },
            Status::Nominal => {
                tally.nominal += 1;
            },
        }
        i += 1;
    }
    assert(views.take(reports.len() as int) =~= views);
    tally
}

/// Appends to `out` copies of the reports of severity `status`, in order.
fn select(reports: &Vec<Report>, status: Status, out: &mut Vec<Report>)
    ensures
        report_views(final(out)@) == report_views(old(out)@) + with_status(
            report_views(reports@),
            status,
        ),
{
    let ghost views = report_views(reports@);
    let ghost before = report_views(out@);
    let mut i: usize = 0;
    assert(before + with_status(views.take(0), status) =~= before);
    while i < reports.len()
        invariant
            views == report_views(reports@),
            i <= reports.len(),
            report_views(out@) == before + with_status(views.take(i as int), status),
        decreases reports.len() - i,
    {
        proof {
            assert(views.take(i + 1).drop_last() =~= views.take(i as int));
            assert(views.take(i + 1).last() == reports[i as int]@);
        }
        if reports[i].status == status {
            let copy = reports[i].clone();
            proof {
                assert(report_views(out@.push(copy)) =~= report_views(out@).push(copy@));
                assert((before + with_status(views.take(i as int), status)).push(copy@) =~= before
                    + with_status(views.take(i as int), status).push(copy@));
            }
            out.push(copy);
        }
        i += 1;
    }
    assert(views.take(reports.len() as int) =~= views);
}

/// Orders the reports by severity, most severe first. The order is stable:
/// reports of equal severity stay in the order in which they came.
pub fn sort_by_severity(reports: &mut Vec<Report>)
    ensures
        report_views(final(reports)@) == by_severity(report_views(old(reports)@)),
{
    let mut sorted: Vec<Report> = Vec::new();
    assert(report_views(sorted@) =~= Seq::<ReportView>::empty());
    select(reports, Status::Critical, &mut sorted);
    select(reports, Status::Warning, &mut sorted);
    select(reports, Status::Nominal, &mut sorted);
    assert(report_views(sorted@) =~= by_severity(report_views(reports@)));
    *reports = sorted;
}

} // verus!
