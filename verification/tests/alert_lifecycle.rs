use security_service::alert::{
    validate_severity, validate_status_transition, Alert, AlertError, AlertStore, Severity, Status,
};

#[test]
fn test_alert_creation() {
    let alert = Alert::new(
        "high".to_string(),
        "Suspicious activity detected".to_string(),
        "user123".to_string(),
    );
    assert!(alert.is_ok());
    let alert = alert.unwrap();
    assert_eq!(alert.status(), "new");
    assert!(alert.status_history().is_empty());
}

#[test]
fn test_invalid_severity() {
    let alert = Alert::new(
        "invalid".to_string(),
        "Test description".to_string(),
        "user123".to_string(),
    );
    assert!(alert.is_err());
}

#[test]
fn test_status_transition() {
    let mut alert = Alert::new(
        "high".to_string(),
        "Test alert".to_string(),
        "user123".to_string(),
    )
    .unwrap();

    let result = alert.update_status(
        "acknowledged".to_string(),
        "Acknowledging alert".to_string(),
    );
    assert!(result.is_ok());
    assert_eq!(alert.status(), "acknowledged");
    assert_eq!(alert.status_history().len(), 1);
}

#[test]
fn test_invalid_status_transition() {
    let mut alert = Alert::new(
        "high".to_string(),
        "Test alert".to_string(),
        "user123".to_string(),
    )
    .unwrap();

    let result = alert.update_status(
        "resolved".to_string(),
        "Invalid transition".to_string(),
    );
    assert!(result.is_err());
}

#[test]
fn create_succeeds_for_every_severity_with_new_status_and_empty_history() {
    for severity in ["low", "medium", "high", "critical"] {
        let alert = Alert::new(severity.to_string(), "d".to_string(), "u".to_string());
        assert!(alert.is_ok(), "severity {severity} must be accepted");
        let alert = alert.unwrap();
        assert_eq!(alert.status(), "new");
        assert_eq!(alert.severity(), severity);
        assert!(alert.status_history().is_empty());
        assert!(alert.updated_at().is_none());
        assert!(alert.resolution_notes().is_none());
    }
}

#[test]
fn create_fails_with_invalid_severity_for_other_strings() {
    for severity in ["urgent", "", "LOW", "Critical", "hig", "info"] {
        let alert = Alert::new(severity.to_string(), "d".to_string(), "u".to_string());
        match alert {
            Err(AlertError::InvalidSeverity(s)) => assert_eq!(s, severity),
            other => panic!("severity {severity:?} must fail with InvalidSeverity, got {other:?}"),
        }
    }
    assert!(matches!(
        validate_severity("urgent"),
        Err(AlertError::InvalidSeverity(_))
    ));
    assert_eq!(validate_severity("low").unwrap(), true);
}

const ALL_STATUSES: [&str; 5] = ["new", "acknowledged", "in_progress", "resolved", "closed"];

const ALLOWED: [(&str, &str); 6] = [
    ("new", "acknowledged"),
    ("acknowledged", "in_progress"),
    ("acknowledged", "closed"),
    ("in_progress", "resolved"),
    ("in_progress", "closed"),
    ("resolved", "closed"),
];

#[test]
fn transition_validity_is_exhaustive_over_all_status_pairs() {
    let mut accepted = 0;
    for from in ALL_STATUSES {
        for to in ALL_STATUSES {
            let result = validate_status_transition(from, to);
            if ALLOWED.contains(&(from, to)) {
                assert_eq!(result.unwrap(), true, "{from} -> {to} must be allowed");
                accepted += 1;
            } else {
                match result {
                    Err(AlertError::InvalidTransition(f, t)) => {
                        assert_eq!(f, from);
                        assert_eq!(t, to);
                    }
                    other => panic!("{from} -> {to} must fail with InvalidTransition, got {other:?}"),
                }
            }
        }
    }
    assert_eq!(accepted, 6);
}

#[test]
fn self_transitions_all_fail() {
    for status in ALL_STATUSES {
        assert!(validate_status_transition(status, status).is_err());
    }
}

#[test]
fn unknown_statuses_fail_with_invalid_status() {
    assert!(matches!(
        validate_status_transition("open", "closed"),
        Err(AlertError::InvalidStatus(s)) if s == "open"
    ));
    assert!(matches!(
        validate_status_transition("new", "done"),
        Err(AlertError::InvalidStatus(s)) if s == "done"
    ));
}

#[test]
fn closed_is_terminal() {
    for to in ALL_STATUSES {
        assert!(
            validate_status_transition("closed", to).is_err(),
            "closed -> {to} must never succeed"
        );
    }
    let mut alert = Alert::new("low".to_string(), "d".to_string(), "u".to_string()).unwrap();
    alert
        .update_status("acknowledged".to_string(), "a".to_string())
        .unwrap();
    alert
        .update_status("closed".to_string(), "c".to_string())
        .unwrap();
    for to in ALL_STATUSES {
        assert!(alert.update_status(to.to_string(), "x".to_string()).is_err());
    }
    assert_eq!(alert.status(), "closed");
}

#[test]
fn each_transition_appends_one_time_ordered_history_entry() {
    let mut alert = Alert::new("medium".to_string(), "d".to_string(), "u".to_string()).unwrap();
    let steps = [("acknowledged", "a"), ("in_progress", "b"), ("resolved", "c"), ("closed", "d")];
    let mut expected_from = Status::New;
    for (i, (to, notes)) in steps.iter().enumerate() {
        alert
            .update_status(to.to_string(), notes.to_string())
            .unwrap();
        let history = alert.status_history();
        assert_eq!(history.len(), i + 1);
        let entry = &history[i];
        assert_eq!(entry.from_status, expected_from);
        assert_eq!(alert.status(), *to);
        assert_eq!(entry.transition_notes.as_deref(), Some(*notes));
        if i > 0 {
            let prev = &history[i - 1];
            assert!(
                prev.transition_time.is_at_or_before(&entry.transition_time),
                "history timestamps must never decrease"
            );
        }
        expected_from = entry.to_status;
    }
    assert_eq!(alert.updated_at(), Some(alert.status_history()[3].transition_time));
}

#[test]
fn resolution_notes_reject_empty_and_whitespace_only() {
    let mut alert = Alert::new("low".to_string(), "d".to_string(), "u".to_string()).unwrap();
    for bad in ["", " ", "   ", "\t", "\n", " \t\r\n ", "\u{00A0}", "\u{2003}\u{2003}"] {
        assert!(
            matches!(alert.add_resolution_notes(bad.to_string()), Err(AlertError::EmptyNotes)),
            "notes {bad:?} must be rejected"
        );
        assert!(alert.resolution_notes().is_none());
        assert!(alert.updated_at().is_none());
    }
    assert!(alert.add_resolution_notes("  fixed by patch  ".to_string()).is_ok());
    assert_eq!(alert.resolution_notes().as_deref(), Some("  fixed by patch  "));
    assert!(alert.updated_at().is_some());
}

#[test]
fn alert_ids_have_canonical_length() {
    let alert = Alert::new("low".to_string(), "d".to_string(), "u".to_string()).unwrap();
    assert_eq!(alert.alert_id().len(), 36);
}

#[test]
fn creation_time_is_well_formed() {
    let alert = Alert::new("low".to_string(), "d".to_string(), "u".to_string()).unwrap();
    assert!(alert.created_at().nanos < 2_000_000_000);
}

#[test]
fn end_to_end_lifecycle_scenario() {
    let alert = Alert::new("high".to_string(), "desc".to_string(), "u1".to_string());
    let mut alert = alert.unwrap();
    assert_eq!(alert.status(), "new");

    let result = alert.update_status("acknowledged".to_string(), "ack".to_string());
    assert!(result.is_ok());
    assert_eq!(alert.status(), "acknowledged");
    assert_eq!(alert.status_history().len(), 1);

    let result = alert.update_status("resolved".to_string(), "x".to_string());
    assert!(matches!(result, Err(AlertError::InvalidTransition(_, _))));
    assert_eq!(alert.status(), "acknowledged");
    assert_eq!(alert.status_history().len(), 1);
}

#[test]
fn store_creates_looks_up_and_lists() {
    let mut store = AlertStore::new();
    assert_eq!(store.len(), 0);
    let i = store
        .create("critical".to_string(), "d1".to_string(), "u1".to_string())
        .unwrap();
    let j = store
        .create("low".to_string(), "d2".to_string(), "u2".to_string())
        .unwrap();
    assert_eq!((i, j), (0, 1));
    assert_eq!(store.len(), 2);
    assert!(store
        .create("urgent".to_string(), "d3".to_string(), "u3".to_string())
        .is_err());
    assert_eq!(store.len(), 2);
    assert_eq!(store.get(0).severity_level(), Severity::Critical);
    let id = store.get(1).alert_id().to_string();
    assert_eq!(store.find_by_id(&id), Some(1));
    assert_eq!(store.find_by_id("no-such-id"), None);
    assert_eq!(store.list().len(), 2);
}

#[test]
fn record_carries_the_read_surface() {
    let mut alert = Alert::new("high".to_string(), "desc".to_string(), "u1".to_string()).unwrap();
    alert
        .update_status("acknowledged".to_string(), "ack".to_string())
        .unwrap();
    let record = alert.to_record();
    assert_eq!(record.alert_id, alert.alert_id());
    assert_eq!(record.severity, "high");
    assert_eq!(record.description, "desc");
    assert_eq!(record.status, "acknowledged");
    assert_eq!(record.created_at, alert.created_at());
    assert_eq!(record.updated_at, alert.updated_at());
    assert!(record.resolution_notes.is_none());
}
