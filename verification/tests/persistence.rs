use system_status::persistence::CheckId;
use system_status::persistence::Persistence;
use system_status::persistence::StoredFields;
use system_status::status::Status;

const ALL: [Status; 3] = [Status::Nominal, Status::Warning, Status::Critical];

fn fields(disk: Option<&str>, failed_units: Option<&str>) -> StoredFields {
    StoredFields { disk: disk.map(str::to_owned), failed_units: failed_units.map(str::to_owned) }
}

#[test]
fn keys_are_stable_names() {
    assert_eq!(CheckId::Disk.key(), "disk");
    assert_eq!(CheckId::FailedUnits.key(), "failed_units");
}

#[test]
fn default_state_is_all_nominal() {
    let state = Persistence::default();
    assert_eq!(state.get(CheckId::Disk), Status::Nominal);
    assert_eq!(state.get(CheckId::FailedUnits), Status::Nominal);
}

#[test]
fn set_replaces_one_entry() {
    let mut state = Persistence::default();
    state.set(CheckId::FailedUnits, Status::Critical);
    assert_eq!(state, Persistence { disk: Status::Nominal, failed_units: Status::Critical });
    state.set(CheckId::Disk, Status::Warning);
    assert_eq!(state, Persistence { disk: Status::Warning, failed_units: Status::Critical });
    assert_eq!(state.get(CheckId::Disk), Status::Warning);
    assert_eq!(state.get(CheckId::FailedUnits), Status::Critical);
}

#[test]
fn encode_writes_one_token_per_check() {
    let state = Persistence { disk: Status::Warning, failed_units: Status::Critical };
    assert_eq!(state.encode(), fields(Some("warning"), Some("critical")));
}

#[test]
fn stored_state_is_read_back() {
    for disk in ALL {
        for failed_units in ALL {
            let state = Persistence { disk, failed_units };
            assert_eq!(Persistence::decode(&state.encode()), Some(state));
            assert_eq!(Persistence::restore(Some(state.encode())), state);
        }
    }
}

#[test]
fn missing_entry_is_default_severity() {
    assert_eq!(
        Persistence::decode(&fields(Some("critical"), None)),
        Some(Persistence { disk: Status::Critical, failed_units: Status::Nominal })
    );
    assert_eq!(
        Persistence::restore(Some(fields(None, Some("warning")))),
        Persistence { disk: Status::Nominal, failed_units: Status::Warning }
    );
    assert_eq!(Persistence::restore(Some(fields(None, None))), Persistence::default());
}

#[test]
fn missing_document_is_default_state() {
    assert_eq!(Persistence::restore(None), Persistence::default());
}

#[test]
fn unusable_token_falls_back_to_default_state() {
    assert_eq!(Persistence::decode(&fields(Some("critical"), Some("bogus"))), None);
    assert_eq!(Persistence::decode(&fields(Some("Critical"), Some("warning"))), None);
    assert_eq!(
        Persistence::restore(Some(fields(Some("critical"), Some("bogus")))),
        Persistence::default()
    );
    assert_eq!(
        Persistence::restore(Some(fields(Some(""), Some("warning")))),
        Persistence::default()
    );
}
