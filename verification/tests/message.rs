use system_status::aggregate::sort_by_severity;
use system_status::aggregate::tally;
use system_status::aggregate::Tally;
use system_status::engine::announce;
use system_status::engine::Round;
use system_status::message::compose_message;
use system_status::message::push_bullet;
use system_status::message::push_heading;
use system_status::message::render_body;
use system_status::message::summary_line;
use system_status::output::Dispatch;
use system_status::output::Output;
use system_status::report::Report;
use system_status::status::Status;

fn report(status: Status, message: &str) -> Report {
    Report { status, message: message.to_owned() }
}

fn mixed() -> Vec<Report> {
    vec![
        report(Status::Critical, "first"),
        report(Status::Nominal, "second"),
        report(Status::Critical, "third"),
        report(Status::Warning, "fourth"),
    ]
}

fn bullet(message: &str) -> String {
    let mut out = String::new();
    push_bullet(&mut out, message);
    out
}

#[test]
fn tally_counts_each_severity() {
    assert_eq!(tally(&mixed()), Tally { critical: 2, warning: 1, nominal: 1 });
    assert_eq!(tally(&Vec::new()), Tally { critical: 0, warning: 0, nominal: 0 });
    assert_eq!(
        tally(&vec![report(Status::Nominal, "a"), report(Status::Nominal, "b")]),
        Tally { critical: 0, warning: 0, nominal: 2 }
    );
}

#[test]
fn sort_is_by_severity_and_stable() {
    let mut reports = mixed();
    sort_by_severity(&mut reports);
    assert_eq!(
        reports,
        vec![
            report(Status::Critical, "first"),
            report(Status::Critical, "third"),
            report(Status::Warning, "fourth"),
            report(Status::Nominal, "second"),
        ]
    );
}

#[test]
fn sort_agrees_with_std_stable_sort() {
    let statuses = [Status::Nominal, Status::Warning, Status::Critical];
    for a in statuses {
        for b in statuses {
            for c in statuses {
                for d in statuses {
                    let input = vec![report(a, "0"), report(b, "1"), report(c, "2"), report(d, "3")];
                    let mut expected = input.clone();
                    expected.sort_by_key(|r| std::cmp::Reverse(r.status));
                    let mut sorted = input;
                    sort_by_severity(&mut sorted);
                    assert_eq!(sorted, expected);
                }
            }
        }
    }
}

#[test]
fn summary_of_mixed_run() {
    let line = summary_line(&tally(&mixed()));
    assert_eq!(line, "[!] System Status: 2 critical, 1 warning, 1 nominal");
    assert!(line.contains("2 critical, 1 warning, 1 nominal"));
}

#[test]
fn summary_names_zero_counts_only_for_nominal() {
    assert_eq!(
        summary_line(&Tally { critical: 0, warning: 0, nominal: 2 }),
        "System Status: 2 nominal"
    );
    assert_eq!(
        summary_line(&Tally { critical: 0, warning: 0, nominal: 0 }),
        "System Status: 0 nominal"
    );
    assert_eq!(
        summary_line(&Tally { critical: 0, warning: 3, nominal: 0 }),
        "[!] System Status: 3 warning, 0 nominal"
    );
    assert_eq!(
        summary_line(&Tally { critical: 12, warning: 0, nominal: 1 }),
        "[!] System Status: 12 critical, 1 nominal"
    );
}

#[test]
fn heading_names_the_severity() {
    let mut out = String::from("x");
    push_heading(&mut out, Status::Warning);
    assert_eq!(out, "x# Warning:\n\n");
}

#[test]
fn bullet_of_single_line() {
    assert_eq!(bullet("all good"), "- all good\n\n");
    assert_eq!(bullet("all good\n"), "- all good\n\n");
}

#[test]
fn bullet_indents_detail_lines() {
    assert_eq!(
        bullet("2 systemd units have failed:\n- \"a.service\"\n- \"b.service\"\n"),
        "- 2 systemd units have failed:\n  - \"a.service\"\n  - \"b.service\"\n\n"
    );
}

#[test]
fn bullet_keeps_blank_lines() {
    assert_eq!(bullet("a\n\nb"), "- a\n  \n  b\n\n");
    assert_eq!(bullet("\nb"), "- \n  b\n\n");
}

#[test]
fn bullet_of_empty_message() {
    assert_eq!(bullet(""), "- \n\n");
}

#[test]
fn bullet_appends_to_what_is_there() {
    let mut out = String::from("# Critical:\n\n");
    push_bullet(&mut out, "a\r\nb");
    assert_eq!(out, "# Critical:\n\n- a\n  b\n\n");
}

#[test]
fn body_has_one_heading_per_group() {
    let mut reports = mixed();
    sort_by_severity(&mut reports);
    let body = render_body(&reports);
    assert_eq!(
        body,
        "# Critical:\n\n- first\n\n- third\n\n# Warning:\n\n- fourth\n\n# Nominal:\n\n- second\n\n"
    );
    assert_eq!(body.matches("# Critical:").count(), 1);
    assert_eq!(body.matches("# Warning:").count(), 1);
    assert_eq!(body.matches("# Nominal:").count(), 1);
}

#[test]
fn body_has_no_heading_for_absent_severity() {
    let reports = vec![report(Status::Nominal, "a"), report(Status::Nominal, "b")];
    assert_eq!(render_body(&reports), "# Nominal:\n\n- a\n\n- b\n\n");
    assert_eq!(render_body(&Vec::new()), "");
}

#[test]
fn body_of_unsorted_reports_has_a_heading_per_run() {
    let reports = vec![
        report(Status::Critical, "a"),
        report(Status::Nominal, "b"),
        report(Status::Critical, "c"),
    ];
    assert_eq!(
        render_body(&reports),
        "# Critical:\n\n- a\n\n# Nominal:\n\n- b\n\n# Critical:\n\n- c\n\n"
    );
}

#[test]
fn composed_message_is_exact() {
    let reports = vec![
        report(Status::Critical, "95.2% of 466 GiB is in use on \"/\""),
        report(Status::Warning, "connection refused"),
    ];
    let message = compose_message("System Status <status@example.org>", "ops@example.org", &reports);
    assert_eq!(
        message,
        "From: System Status <status@example.org>\n\
         To: ops@example.org\n\
         Subject: [!] System Status: 1 critical, 1 warning, 0 nominal\n\
         \n\
         # Critical:\n\
         \n\
         - 95.2% of 466 GiB is in use on \"/\"\n\
         \n\
         # Warning:\n\
         \n\
         - connection refused\n\
         \n"
    );
}

#[test]
fn composed_message_groups_reports_given_in_registration_order() {
    let message = compose_message("a", "b", &mixed());
    assert_eq!(
        message,
        "From: a\nTo: b\nSubject: [!] System Status: 2 critical, 1 warning, 1 nominal\n\n\
         # Critical:\n\n- first\n\n- third\n\n# Warning:\n\n- fourth\n\n# Nominal:\n\n- second\n\n"
    );
}

#[test]
fn quiet_round_sends_nothing() {
    let round = Round { reports: mixed(), alert: false };
    assert_eq!(announce(&round, Output::Mail, "a", "b"), Dispatch::Nothing);
    assert_eq!(announce(&round, Output::Stdout, "a", "b"), Dispatch::Nothing);
}

#[test]
fn alerting_round_is_printed_or_mailed() {
    let round = Round { reports: vec![report(Status::Warning, "w")], alert: true };
    let message = "From: a\nTo: b\nSubject: [!] System Status: 1 warning, 0 nominal\n\n\
                   # Warning:\n\n- w\n\n";
    assert_eq!(
        announce(&round, Output::Stdout, "a", "b"),
        Dispatch::Print { message: message.to_owned() }
    );
    assert_eq!(
        announce(&round, Output::Mail, "a", "b"),
        Dispatch::Mail { recipient: "b".to_owned(), message: message.to_owned() }
    );
}
