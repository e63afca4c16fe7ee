use backend::models::raci_role::RaciRole;
use backend::models::task_status::TaskStatus;

const STATUSES: [(TaskStatus, &str, &str); 6] = [
    (TaskStatus::NotStarted, "Not Started", "NotStarted"),
    (TaskStatus::InProgress, "In Progress", "InProgress"),
    (TaskStatus::Blocked, "Blocked", "Blocked"),
    (TaskStatus::UnderReview, "Under Review", "UnderReview"),
    (TaskStatus::Deprecated, "Deprecated", "Deprecated"),
    (TaskStatus::Completed, "Completed", "Completed"),
];

const ROLES: [(RaciRole, &str); 4] = [
    (RaciRole::Responsible, "Responsible"),
    (RaciRole::Accountable, "Accountable"),
    (RaciRole::Consulted, "Consulted"),
    (RaciRole::Informed, "Informed"),
];

#[test]
fn every_status_has_its_persisted_label() {
    for (status, label, _) in STATUSES {
        assert_eq!(status.db_label(), label);
        assert_eq!(TaskStatus::from_db_label(label), Some(status));
        assert_eq!(TaskStatus::from_db_label(status.db_label()), Some(status));
    }
}

#[test]
fn every_status_has_its_wire_name() {
    for (status, _, name) in STATUSES {
        assert_eq!(status.wire_name(), name);
        assert_eq!(TaskStatus::from_wire_name(name), Some(status));
        assert_eq!(TaskStatus::from_wire_name(status.wire_name()), Some(status));
    }
}

#[test]
fn the_two_spellings_of_a_status_are_kept_apart() {
    assert_eq!(TaskStatus::from_db_label("NotStarted"), None);
    assert_eq!(TaskStatus::from_wire_name("Not Started"), None);
    assert_eq!(TaskStatus::from_db_label("InProgress"), None);
    assert_eq!(TaskStatus::from_wire_name("Under Review"), None);
}

#[test]
fn unknown_status_labels_are_not_read() {
    for text in ["", "not started", "NOT STARTED", "Not Started ", "Done", "Blocke", "Completedd"] {
        assert_eq!(TaskStatus::from_db_label(text), None, "{text:?}");
        assert_eq!(TaskStatus::from_wire_name(text), None, "{text:?}");
    }
}

#[test]
fn every_role_has_its_label() {
    for (role, label) in ROLES {
        assert_eq!(role.db_label(), label);
        assert_eq!(RaciRole::from_db_label(label), Some(role));
    }
}

#[test]
fn unknown_role_labels_are_not_read() {
    for text in ["", "responsible", "R", "Accountable ", "Informe", "Consultedd"] {
        assert_eq!(RaciRole::from_db_label(text), None, "{text:?}");
    }
}
