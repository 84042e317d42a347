//! The rules by which the two registered checks judge what they measured.
//! Measuring itself (the file system statistics, the list of failed units) is
//! left to the caller.

use crate::report::Report;
use crate::report::ReportView;
use crate::status::Status;
use crate::text::decimal;
use crate::text::push_decimal;
use crate::text::texts;
use vstd::prelude::*;
use vstd::string::*;

verus! {

/// The share of a file system that is in use, in tenths of a percent, rounded
/// down, for a file system of `blocks` blocks of which `available` are free.
pub open spec fn utilization_of(blocks: nat, available: nat) -> nat {
    ((blocks - available) * 1000 / (blocks as int)) as nat
}

/// Whether [`utilization_of`] is defined for these numbers and can be
/// computed in 64 bits.
pub open spec fn measurable(blocks: nat, available: nat) -> bool {
    0 < blocks && available <= blocks && (blocks - available) * 1000 <= u64::MAX
}

/// The severity of a disk that is `tenths` tenths of a percent full: critical
/// above 90%, a warning above 75%.
pub open spec fn severity_at(tenths: nat) -> Status {
    if tenths > 900 {
        Status::Critical
    } else if tenths > 750 {
        Status::Warning
    } else {
        Status::Nominal
    }
}

/// The list of failed units, one line for each entry.
pub open spec fn unit_lines(entries: Seq<Seq<char>>) -> Seq<char>
    decreases entries.len(),
{
    if entries.len() == 0 {
        Seq::empty()
    } else {
        unit_lines(entries.drop_last()) + "- "@ + entries.last() + "\n"@
    }
}

/// What the list of failed units amounts to: all is well when it is empty,
/// else a critical report that counts and lists the units.
pub open spec fn failed_units_view(entries: Seq<Seq<char>>) -> ReportView {
    if entries.len() == 0 {
        ReportView { status: Status::Nominal, message: "All systemd units are happy"@ }
    } else {
        ReportView {
            status: Status::Critical,
            message: decimal(entries.len()) + " systemd units have failed:\n"@ + unit_lines(
                entries,
            ),
        }
    }
}

/// The share of the file system that is in use, in tenths of a percent.
/// `None` where the numbers describe no file system (no blocks, or more free
/// blocks than there are) or are too large to compute with.
pub fn utilization(blocks: u64, available: u64) -> (tenths: Option<u64>)
    ensures
        measurable(blocks as nat, available as nat) ==> tenths == Some(
            utilization_of(blocks as nat, available as nat) as u64,
        ),
        !measurable(blocks as nat, available as nat) ==> tenths is None,
        tenths matches Some(t) ==> t <= 1000,
{
    if blocks == 0 || available > blocks {
        return None;
    }
    match (blocks - available).checked_mul(1000) {
        Some(scaled) => {
            let tenths = scaled / blocks;
            assert(tenths <= 1000) by (nonlinear_arith)
                requires
                    tenths == scaled / blocks,
                    scaled == (blocks - available) * 1000,
                    0 < blocks,
                    available <= blocks,
            ;
            Some(tenths)
        },
        None => None,
    }
}

/// The severity of a disk that is `tenths` tenths of a percent full.
pub fn disk_status(tenths: u64) -> (status: Status)
    ensures
        status == severity_at(tenths as nat),
{
    if tenths > 900 {
        Status::Critical
    } else if tenths > 750 {
        Status::Warning
    } else {
        Status::Nominal
    }
}

/// The report on the failed units, given one entry for each as it is to be
/// shown.
pub fn failed_units_report(entries: &Vec<String>) -> (report: Report)
    ensures
        report@ == failed_units_view(texts(entries@)),
{
    if entries.len() == 0 {
        return Report {
            status: Status::Nominal,
            message: "All systemd units are happy".to_owned(),
        };
    }
    let ghost all = texts(entries@);
    let mut message = String::new();
    push_decimal(&mut message, entries.len());
    message.append(" systemd units have failed:\n");
    let ghost head = message@;
    assert(head =~= decimal(entries.len() as nat) + " systemd units have failed:\n"@);
    assert(head + unit_lines(all.take(0)) =~= head);
    let mut i: usize = 0;
    while i < entries.len()
        invariant
            all == texts(entries@),
            i <= entries.len(),
            message@ == head + unit_lines(all.take(i as int)),
        decreases entries.len() - i,
    {
        proof {
            assert(all.take(i + 1).drop_last() =~= all.take(i as int));
            assert(all.take(i + 1).last() == entries@[i as int]@);
        }
        message.append("- ");
        message.append(entries[i].as_str());
        message.append("\n");
        assert(message@ =~= head + unit_lines(all.take(i + 1)));
        i += 1;
    }
    assert(all.take(entries.len() as int) =~= all);
    Report { status: Status::Critical, message }
}

} // verus!
