//! The composite alert: a summary line, and the reports grouped under one
//! heading for each severity.

use crate::aggregate::by_severity;
use crate::aggregate::count;
use crate::aggregate::lemma_with_status_members;
use crate::aggregate::sort_by_severity;
use crate::aggregate::tally;
use crate::aggregate::with_status;
use crate::aggregate::Tally;
use crate::report::report_views;
use crate::report::Report;
use crate::report::ReportView;
use crate::status::Status;
use crate::text::decimal;
use crate::text::lines;
use crate::text::push_decimal;
use crate::text::split_lines;
use crate::text::texts;
use vstd::prelude::*;
use vstd::string::*;

verus! {

/// The summary of a run with the given numbers of reports.
///
/// It opens with an attention marker when anything is critical or a warning,
/// names the critical and the warning count only when they are not zero, and
/// always names the nominal count.
pub open spec fn summary(critical: nat, warning: nat, nominal: nat) -> Seq<char> {
    (if critical > 0 || warning > 0 {
        "[!] "@
    } else {
        Seq::empty()
    }) + "System Status: "@ + (if critical > 0 {
        decimal(critical) + " critical, "@
    } else {
        Seq::empty()
    }) + (if warning > 0 {
        decimal(warning) + " warning, "@
    } else {
        Seq::empty()
    }) + decimal(nominal) + " nominal"@
}

/// The summary of a run that gave `reports`.
pub open spec fn summary_of(reports: Seq<ReportView>) -> Seq<char> {
    summary(
        count(reports, Status::Critical),
        count(reports, Status::Warning),
        count(reports, Status::Nominal),
    )
}

/// The heading of the group of reports of severity `status`, with the blank
/// line after it.
pub open spec fn heading(status: Status) -> Seq<char> {
    "# "@ + status.repr() + ":\n\n"@
}

/// Detail lines, each indented by two spaces and ended by a line feed.
pub open spec fn detail(lines: Seq<Seq<char>>) -> Seq<char>
    decreases lines.len(),
{
    if lines.len() == 0 {
        Seq::empty()
    } else {
        detail(lines.drop_last()) + "  "@ + lines.last() + "\n"@
    }
}

/// One report as a list item: its first line behind a dash, its other lines
/// as detail, and a blank line. Blank lines inside the message are kept, and
/// a message without any line gives an item with an empty first line.
pub open spec fn bullet(message: Seq<char>) -> Seq<char> {
    let lines = split_lines(message);
    if lines.len() == 0 {
        "- "@ + "\n"@ + "\n"@
    } else {
        "- "@ + lines[0] + "\n"@ + detail(lines.skip(1)) + "\n"@
    }
}

/// The list items of `reports`, in order.
pub open spec fn bullets(reports: Seq<ReportView>) -> Seq<char>
    decreases reports.len(),
{
    if reports.len() == 0 {
        Seq::empty()
    } else {
        bullets(reports.drop_last()) + bullet(reports.last().message)
    }
}

/// Whether the report at `i` differs in severity from the one before it, or
/// has none before it.
pub open spec fn opens_run(reports: Seq<ReportView>, i: int) -> bool {
    i == 0 || reports[i - 1].status != reports[i].status
}

/// The reports as list items in the given order, with a heading before every
/// run of reports of one severity.
pub open spec fn body(reports: Seq<ReportView>) -> Seq<char>
    decreases reports.len(),
{
    if reports.len() == 0 {
        Seq::empty()
    } else {
        let i = reports.len() - 1;
        body(reports.drop_last()) + (if opens_run(reports, i) {
            heading(reports[i].status)
        } else {
            Seq::empty()
        }) + bullet(reports[i].message)
    }
}

/// The group of the reports of severity `status`: nothing when there is none,
/// else one heading and their list items in their order.
pub open spec fn group(reports: Seq<ReportView>, status: Status) -> Seq<char> {
    let members = with_status(reports, status);
    if members.len() == 0 {
        Seq::empty()
    } else {
        heading(status) + bullets(members)
    }
}

/// The three groups, most severe first.
pub open spec fn grouped(reports: Seq<ReportView>) -> Seq<char> {
    group(reports, Status::Critical) + group(reports, Status::Warning) + group(
        reports,
        Status::Nominal,
    )
}

/// The whole alert for `reports`, given in registration order: mail headers
/// that end with the summary as the subject, a blank line, and the groups.
pub open spec fn alert_text(
    sender: Seq<char>,
    recipient: Seq<char>,
    reports: Seq<ReportView>,
) -> Seq<char> {
    "From: "@ + sender + "\nTo: "@ + recipient + "\nSubject: "@ + summary_of(reports) + "\n\n"@
        + grouped(reports)
}

/// Appending a run of one severity to reports that do not end in that
/// severity adds one heading and the run's list items.
pub proof fn lemma_body_of_run(before: Seq<ReportView>, run: Seq<ReportView>, status: Status)
    requires
        run.len() > 0,
        forall|i: int| 0 <= i < run.len() ==> (#[trigger] run[i]).status == status,
        before.len() > 0 ==> before.last().status != status,
    ensures
        body(before + run) == body(before) + heading(status) + bullets(run),
    decreases run.len(),
{
    let all = before + run;
    let i = all.len() - 1;
    assert(all.drop_last() =~= before + run.drop_last());
    assert(all[i] == run.last());
    if run.len() == 1 {
        assert(before + run.drop_last() =~= before);
        assert(opens_run(all, i)) by {
            if i > 0 {
                assert(all[i - 1] == before.last());
            }
        }
        assert(bullets(run.drop_last()) =~= Seq::<char>::empty());
        assert(body(all) =~= body(before) + heading(status) + bullets(run));
    } else {
        lemma_body_of_run(before, run.drop_last(), status);
        assert(!opens_run(all, i)) by {
            assert(all[i - 1] == run[run.len() - 2]);
        }
        assert(body(all) =~= body(before) + heading(status) + bullets(run));
    }
}

/// Ordered by severity, the reports of each severity form one run, so the
/// body holds exactly one heading for every severity that occurs and none for
/// the others.
pub proof fn lemma_one_heading_per_group(reports: Seq<ReportView>)
    ensures
        body(by_severity(reports)) == grouped(reports),
{
    let c = with_status(reports, Status::Critical);
    let w = with_status(reports, Status::Warning);
    let n = with_status(reports, Status::Nominal);
    let none = Seq::<ReportView>::empty();
    lemma_with_status_members(reports, Status::Critical);
    lemma_with_status_members(reports, Status::Warning);
    lemma_with_status_members(reports, Status::Nominal);
    assert(body(none) =~= Seq::<char>::empty());
    if c.len() > 0 {
        lemma_body_of_run(none, c, Status::Critical);
    }
    assert(none + c =~= c);
    assert(body(c) =~= group(reports, Status::Critical));
    if w.len() > 0 {
        if c.len() > 0 {
            assert(c.last() == c[c.len() - 1]);
        }
        lemma_body_of_run(c, w, Status::Warning);
    } else {
        assert(c + w =~= c);
    }
    assert(body(c + w) =~= body(c) + group(reports, Status::Warning));
    if n.len() > 0 {
        if (c + w).len() > 0 {
            let k = (c + w).len() - 1;
            assert((c + w).last() == (c + w)[k]);
            if w.len() > 0 {
                assert((c + w)[k] == w[w.len() - 1]);
            } else {
                assert((c + w)[k] == c[c.len() - 1]);
            }
        }
        lemma_body_of_run(c + w, n, Status::Nominal);
    } else {
        assert(c + w + n =~= c + w);
    }
    assert(body(c + w + n) =~= body(c + w) + group(reports, Status::Nominal));
}

/// Appends the summary for `tally` to `out`.
pub fn push_summary(out: &mut String, tally: &Tally)
    ensures
        final(out)@ == old(out)@ + summary(
            tally.critical as nat,
            tally.warning as nat,
            tally.nominal as nat,
        ),
{
    let ghost start = out@;
    let ghost marker = if tally.critical > 0 || tally.warning > 0 {
        "[!] "@
    } else {
        Seq::empty()
    };
    let ghost critical = if tally.critical > 0 {
        decimal(tally.critical as nat) + " critical, "@
    } else {
        Seq::empty()
    };
    let ghost warning = if tally.warning > 0 {
        decimal(tally.warning as nat) + " warning, "@
    } else {
        Seq::empty()
    };
    if tally.critical > 0 || tally.warning > 0 {
        out.append("[!] ");
    }
    assert(out@ =~= start + marker);
    out.append("System Status: ");
    if tally.critical > 0 {
        push_decimal(out, tally.critical);
        out.append(" critical, ");
    }
    assert(out@ =~= start + marker + "System Status: "@ + critical);
    if tally.warning > 0 {
        push_decimal(out, tally.warning);
        out.append(" warning, ");
    }
    assert(out@ =~= start + marker + "System Status: "@ + critical + warning);
    push_decimal(out, tally.nominal);
    out.append(" nominal");
    assert(out@ =~= start + summary(
        tally.critical as nat,
        tally.warning as nat,
        tally.nominal as nat,
    ));
}

/// The summary line for `tally`, without a line ending.
pub fn summary_line(tally: &Tally) -> (line: String)
    ensures
        line@ == summary(tally.critical as nat, tally.warning as nat, tally.nominal as nat),
{
    let mut line = String::new();
    push_summary(&mut line, tally);
    assert(line@ =~= summary(
        tally.critical as nat,
        tally.warning as nat,
        tally.nominal as nat,
    ));
    line
}

/// Appends the heading of the group of severity `status` to `out`.
pub fn push_heading(out: &mut String, status: Status)
    ensures
        final(out)@ == old(out)@ + heading(status),
{
    out.append("# ");
    out.append(status.as_repr());
    out.append(":\n\n");
    assert(out@ =~= old(out)@ + heading(status));
}

/// Appends `message` as a list item to `out`.
pub fn push_bullet(out: &mut String, message: &str)
    ensures
        final(out)@ == old(out)@ + bullet(message@),
{
    let ghost start = out@;
    let parts = lines(message);
    let ghost all = split_lines(message@);
    out.append("- ");
    if parts.len() == 0 {
        out.append("\n");
        out.append("\n");
        assert(out@ =~= start + bullet(message@));
    } else {
        assert(all[0] == parts@[0]@);
        out.append(parts[0].as_str());
        out.append("\n");
        let ghost head = start + "- "@ + all[0] + "\n"@;
        let ghost rest = all.skip(1);
        assert(out@ =~= head);
        assert(head + detail(rest.take(0)) =~= head);
        let mut k: usize = 1;
        while k < parts.len()
            invariant
                1 <= k <= parts.len(),
                texts(parts@) == all,
                rest == all.skip(1),
                out@ == head + detail(rest.take(k - 1)),
            decreases parts.len() - k,
        {
            proof {
                assert(rest.take(k as int).drop_last() =~= rest.take(k - 1));
                assert(rest.take(k as int).last() == all[k as int]);
                assert(all[k as int] == parts@[k as int]@);
            }
            out.append("  ");
            out.append(parts[k].as_str());
            out.append("\n");
            assert(out@ =~= head + detail(rest.take(k as int)));
            k += 1;
        }
        assert(rest.take(parts.len() - 1) =~= rest);
        out.append("\n");
        assert(out@ =~= start + bullet(message@));
    }
}

/// The body for reports in the given order: every report as a list item,
/// with a heading wherever the severity changes.
pub fn render_body(reports: &Vec<Report>) -> (text: String)
    ensures
        text@ == body(report_views(reports@)),
{
    let ghost views = report_views(reports@);
    let mut text = String::new();
    let mut i: usize = 0;
    assert(views.take(0) =~= Seq::<ReportView>::empty());
    while i < reports.len()
        invariant
            views == report_views(reports@),
            i <= reports.len(),
            text@ == body(views.take(i as int)),
        decreases reports.len() - i,
    {
        let ghost done = text@;
        let ghost upto = views.take(i + 1);
        proof {
            assert(upto.drop_last() =~= views.take(i as int));
            assert(upto[i as int] == reports@[i as int]@);
            if i > 0 {
                assert(upto[i - 1] == reports@[i - 1]@);
            }
        }
        if i == 0 || reports[i - 1].status != reports[i].status {
            push_heading(&mut text, reports[i].status);
        }
        push_bullet(&mut text, reports[i].message.as_str());
        assert(text@ =~= body(upto));
        i += 1;
    }
    assert(views.take(reports.len() as int) =~= views);
    text
}

/// Composes the alert for the reports of one run, given in registration
/// order: they are counted, ordered by severity, and rendered under one
/// heading for each severity that occurs.
pub fn compose_message(sender: &str, recipient: &str, reports: &Vec<Report>) -> (message: String)
    ensures
        message@ == alert_text(sender@, recipient@, report_views(reports@)),
{
    let ghost views = report_views(reports@);
    let counts = tally(reports);
    let mut sorted: Vec<Report> = Vec::new();
    let mut i: usize = 0;
    while i < reports.len()
        invariant
            i <= reports.len(),
            sorted@ == reports@.take(i as int),
        decreases reports.len() - i,
    {
        sorted.push(reports[i].clone());
        assert(sorted@ =~= reports@.take(i + 1));
        i += 1;
    }
    assert(sorted@ =~= reports@);
    sort_by_severity(&mut sorted);
    let text = render_body(&sorted);
    proof {
        lemma_one_heading_per_group(views);
    }
    let mut message = String::new();
    message.append("From: ");
    message.append(sender);
    message.append("\nTo: ");
    message.append(recipient);
    message.append("\nSubject: ");
    push_summary(&mut message, &counts);
    message.append("\n\n");
    message.append(text.as_str());
    assert(message@ =~= alert_text(sender@, recipient@, views));
    message
}

} // verus!
