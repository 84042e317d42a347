use system_status::status::Status;

const ALL: [Status; 3] = [Status::Nominal, Status::Warning, Status::Critical];

#[test]
fn order_is_nominal_warning_critical() {
    assert!(Status::Nominal < Status::Warning);
    assert!(Status::Warning < Status::Critical);
    assert!(Status::Nominal < Status::Critical);
    assert!(Status::Critical > Status::Nominal);
    assert!(!(Status::Warning > Status::Critical));
}

#[test]
fn order_is_total_and_follows_severity() {
    for a in ALL {
        for b in ALL {
            assert_eq!(a > b, a.severity() > b.severity());
            assert_eq!(a < b, a.severity() < b.severity());
            assert_eq!(a == b, a.severity() == b.severity());
            assert_eq!(a >= b, a.severity() >= b.severity());
            assert_eq!(a <= b, a.severity() <= b.severity());
            assert!(a < b || a == b || a > b);
            assert_eq!(a.partial_cmp(&b), Some(a.severity().cmp(&b.severity())));
            assert_eq!(a.cmp(&b), a.severity().cmp(&b.severity()));
        }
    }
}

#[test]
fn severity_values() {
    assert_eq!(Status::Nominal.severity(), 0);
    assert_eq!(Status::Warning.severity(), 1);
    assert_eq!(Status::Critical.severity(), 2);
}

#[test]
fn default_is_nominal() {
    assert_eq!(Status::default(), Status::Nominal);
}

#[test]
fn as_repr_is_capitalised_name() {
    assert_eq!(Status::Nominal.as_repr(), "Nominal");
    assert_eq!(Status::Warning.as_repr(), "Warning");
    assert_eq!(Status::Critical.as_repr(), "Critical");
}

#[test]
fn tokens_are_lower_case_names() {
    assert_eq!(Status::Nominal.token(), "nominal");
    assert_eq!(Status::Warning.token(), "warning");
    assert_eq!(Status::Critical.token(), "critical");
}

#[test]
fn every_status_is_read_back_from_its_token() {
    for s in ALL {
        assert_eq!(Status::from_token(s.token()), Some(s));
    }
}

#[test]
fn other_texts_are_no_tokens() {
    assert_eq!(Status::from_token(""), None);
    assert_eq!(Status::from_token("Nominal"), None);
    assert_eq!(Status::from_token("CRITICAL"), None);
    assert_eq!(Status::from_token("warning "), None);
    assert_eq!(Status::from_token("warnin"), None);
    assert_eq!(Status::from_token("critic\u{e4}l"), None);
}
