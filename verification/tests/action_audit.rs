use powerhouse::audit::{
    audit_entry_is_valid, audit_id, default_outcome_status, default_verification_status,
    outcome_status_label, select_audit_entries, ActionAudit, ActionAuditEntry,
    AlertActionOutcome, AlertActionOutcomeStatus,
};

fn test_audit_entry(id: &str) -> ActionAuditEntry {
    ActionAuditEntry {
        id: id.to_owned(),
        timestamp: 123,
        action: "refresh_health".to_owned(),
        stage: "verified".to_owned(),
        confirmed: true,
        status: "success".to_owned(),
        message: "test message".to_owned(),
        reversible: true,
        privilege: "none".to_owned(),
        verification_status: "verified".to_owned(),
        verification_message: "verified".to_owned(),
        outcome_status: "verified".to_owned(),
        outcome_message: "outcome verified".to_owned(),
        outcome_action: "refresh_health".to_owned(),
    }
}

/// The records as read back: each line parsed, `None` for a line that
/// held no record.
fn read_back(lines: Vec<Option<ActionAuditEntry>>) -> Vec<ActionAuditEntry> {
    select_audit_entries(lines)
}

fn ids(entries: &[ActionAuditEntry]) -> Vec<&str> {
    entries.iter().map(|e| e.id.as_str()).collect()
}

#[test]
fn malformed_audit_records_do_not_hide_valid_history() {
    let entries = read_back(vec![
        Some(test_audit_entry("first")),
        None,
        Some(test_audit_entry("second")),
    ]);
    assert_eq!(entries.len(), 2);
    assert_eq!(entries[0].id, "first");
    assert_eq!(entries[1].id, "second");
}

#[test]
fn empty_audit_lines_are_ignored() {
    let entries = read_back(vec![None, Some(test_audit_entry("first")), None]);
    assert_eq!(entries.len(), 1);
    assert_eq!(entries[0].id, "first");
}

#[test]
fn duplicate_audit_ids_do_not_hide_unique_history() {
    let entries = read_back(vec![
        Some(test_audit_entry("first")),
        Some(test_audit_entry("first")),
        Some(test_audit_entry("second")),
    ]);
    assert_eq!(entries.len(), 2);
    assert_eq!(entries[0].id, "first");
    assert_eq!(entries[1].id, "second");
}

#[test]
fn empty_audit_ids_are_ignored_without_hiding_valid_history() {
    let entries = read_back(vec![
        Some(test_audit_entry("")),
        Some(test_audit_entry("   ")),
        Some(test_audit_entry("valid")),
    ]);
    assert_eq!(entries.len(), 1);
    assert_eq!(entries[0].id, "valid");
}

#[test]
fn zero_audit_timestamps_are_ignored_without_hiding_valid_history() {
    let mut invalid = test_audit_entry("invalid");
    invalid.timestamp = 0;
    let entries = read_back(vec![Some(invalid), Some(test_audit_entry("valid"))]);
    assert_eq!(entries.len(), 1);
    assert_eq!(entries[0].id, "valid");
}

/// Two records with a field set to empty and to spaces, then a valid one.
fn blank_field_case(set: fn(&mut ActionAuditEntry, &str)) -> Vec<ActionAuditEntry> {
    let mut empty = test_audit_entry("empty");
    set(&mut empty, "");
    let mut whitespace = test_audit_entry("whitespace");
    set(&mut whitespace, "   ");
    read_back(vec![Some(empty), Some(whitespace), Some(test_audit_entry("valid"))])
}

#[test]
fn blank_audit_actions_are_ignored_without_hiding_valid_history() {
    let entries = blank_field_case(|e, v| e.action = v.to_owned());
    assert_eq!(entries.len(), 1);
    assert_eq!(entries[0].id, "valid");
}

#[test]
fn unknown_audit_actions_are_ignored_without_hiding_valid_history() {
    let mut unknown = test_audit_entry("unknown-action");
    unknown.action = "unknown_action".to_owned();
    let actions = [
        "refresh_health",
        "storage_diagnostic",
        "process_diagnostic",
        "network_diagnostic",
        "service_diagnostic",
    ];
    let mut lines = vec![Some(unknown)];
    for (index, action) in actions.iter().enumerate() {
        let mut entry = test_audit_entry(&format!("valid-action-{index}"));
        entry.action = (*action).to_owned();
        entry.outcome_action = (*action).to_owned();
        lines.push(Some(entry));
    }
    let entries = read_back(lines);
    assert_eq!(entries.len(), actions.len());
    for (entry, action) in entries.iter().zip(actions) {
        assert_eq!(entry.action, action);
    }
}

#[test]
fn blank_audit_stages_are_ignored_without_hiding_valid_history() {
    let entries = blank_field_case(|e, v| e.stage = v.to_owned());
    assert_eq!(entries.len(), 1);
    assert_eq!(entries[0].id, "valid");
}

#[test]
fn unknown_audit_stages_are_ignored_without_hiding_valid_history() {
    let mut unknown = test_audit_entry("unknown-stage");
    unknown.stage = "unknown".to_owned();
    let mut verified = test_audit_entry("verified");
    verified.stage = "verified".to_owned();
    let mut failed = test_audit_entry("failed");
    failed.stage = "failed".to_owned();
    failed.status = "failed".to_owned();
    failed.verification_status = "legacy".to_owned();
    let entries = read_back(vec![Some(unknown), Some(verified), Some(failed)]);
    assert_eq!(entries.len(), 2);
    assert_eq!(entries[0].id, "verified");
    assert_eq!(entries[1].id, "failed");
}

#[test]
fn unconfirmed_audit_records_are_ignored_without_hiding_valid_history() {
    let mut unconfirmed = test_audit_entry("unconfirmed");
    unconfirmed.confirmed = false;
    let entries = read_back(vec![Some(unconfirmed), Some(test_audit_entry("valid"))]);
    assert_eq!(entries.len(), 1);
    assert_eq!(entries[0].id, "valid");
}

#[test]
fn blank_audit_statuses_are_ignored_without_hiding_valid_history() {
    let entries = blank_field_case(|e, v| e.status = v.to_owned());
    assert_eq!(entries.len(), 1);
    assert_eq!(entries[0].id, "valid");
}

#[test]
fn inconsistent_audit_stage_statuses_are_ignored_without_hiding_valid_history() {
    let with = |id: &str, stage: &str, status: &str| {
        let mut e = test_audit_entry(id);
        e.stage = stage.to_owned();
        e.status = status.to_owned();
        e
    };
    let mut failed_failed = with("failed-failed", "failed", "failed");
    failed_failed.verification_status = "legacy".to_owned();
    let entries = read_back(vec![
        Some(with("verified-failed", "verified", "failed")),
        Some(with("failed-success", "failed", "success")),
        Some(with("failed-completed", "failed", "completed")),
        Some(with("verified-success", "verified", "success")),
        Some(test_audit_entry("verified-completed")),
        Some(failed_failed),
    ]);
    assert_eq!(entries.len(), 3);
    assert_eq!(entries[0].id, "verified-success");
    assert_eq!(entries[1].id, "verified-completed");
    assert_eq!(entries[2].id, "failed-failed");
}

#[test]
fn unknown_audit_statuses_are_ignored_without_hiding_valid_history() {
    let mut unknown = test_audit_entry("unknown-status");
    unknown.status = "unknown".to_owned();
    let mut legacy = test_audit_entry("legacy-status");
    legacy.status = "success".to_owned();
    let mut completed = test_audit_entry("completed-status");
    completed.status = "completed".to_owned();
    let mut failed = test_audit_entry("failed-status");
    failed.stage = "failed".to_owned();
    failed.status = "failed".to_owned();
    failed.verification_status = "legacy".to_owned();
    let entries = read_back(vec![Some(unknown), Some(legacy), Some(completed), Some(failed)]);
    assert_eq!(entries.len(), 3);
    assert_eq!(entries[0].id, "legacy-status");
    assert_eq!(entries[1].id, "completed-status");
    assert_eq!(entries[2].id, "failed-status");
}

#[test]
fn blank_audit_messages_are_ignored_without_hiding_valid_history() {
    let entries = blank_field_case(|e, v| e.message = v.to_owned());
    assert_eq!(entries.len(), 1);
    assert_eq!(entries[0].id, "valid");
}

#[test]
fn blank_audit_privileges_are_ignored_without_hiding_valid_history() {
    let entries = blank_field_case(|e, v| e.privilege = v.to_owned());
    assert_eq!(entries.len(), 1);
    assert_eq!(entries[0].id, "valid");
}

#[test]
fn unknown_audit_privileges_are_ignored_without_hiding_valid_history() {
    let mut unknown = test_audit_entry("unknown-privilege");
    unknown.privilege = "admin".to_owned();
    let mut current = test_audit_entry("current-privilege");
    current.privilege = "None".to_owned();
    let mut failed = test_audit_entry("unknown-privilege");
    failed.id = "failed-privilege".to_owned();
    failed.privilege = "Unknown".to_owned();
    let entries = read_back(vec![Some(unknown), Some(current), Some(failed)]);
    assert_eq!(entries.len(), 2);
    assert_eq!(entries[0].id, "current-privilege");
    assert_eq!(entries[1].id, "failed-privilege");
}

#[test]
fn blank_audit_verification_statuses_are_ignored_without_hiding_valid_history() {
    let entries = blank_field_case(|e, v| e.verification_status = v.to_owned());
    assert_eq!(entries.len(), 1);
    assert_eq!(entries[0].id, "valid");
}

#[test]
fn blank_audit_verification_messages_are_ignored_without_hiding_valid_history() {
    let entries = blank_field_case(|e, v| e.verification_message = v.to_owned());
    assert_eq!(entries.len(), 1);
    assert_eq!(entries[0].id, "valid");
}

#[test]
fn blank_audit_outcome_statuses_are_ignored_without_hiding_valid_history() {
    let entries = blank_field_case(|e, v| e.outcome_status = v.to_owned());
    assert_eq!(entries.len(), 1);
    assert_eq!(entries[0].id, "valid");
}

#[test]
fn inconsistent_audit_stage_verification_statuses_are_ignored_without_hiding_valid_history() {
    let mut failed_verified = test_audit_entry("failed-verified");
    failed_verified.stage = "failed".to_owned();
    failed_verified.status = "failed".to_owned();
    failed_verified.verification_status = "verified".to_owned();
    let entries = read_back(vec![Some(failed_verified), Some(test_audit_entry("verified-verified"))]);
    assert_eq!(entries.len(), 1);
    assert_eq!(entries[0].id, "verified-verified");
}

#[test]
fn inconsistent_audit_stage_outcome_statuses_are_ignored_without_hiding_valid_history() {
    let mut failed_verified = test_audit_entry("failed-verified");
    failed_verified.stage = "failed".to_owned();
    failed_verified.status = "failed".to_owned();
    failed_verified.outcome_status = "verified".to_owned();
    let entries = read_back(vec![Some(failed_verified), Some(test_audit_entry("verified-verified"))]);
    assert_eq!(entries.len(), 1);
    assert_eq!(entries[0].id, "verified-verified");
}

#[test]
fn inconsistent_audit_verification_outcome_statuses_are_ignored_without_hiding_valid_history() {
    let mut verified_rejected = test_audit_entry("verified-rejected");
    verified_rejected.verification_status = "verified".to_owned();
    verified_rejected.outcome_status = "rejected".to_owned();
    let entries =
        read_back(vec![Some(verified_rejected), Some(test_audit_entry("verified-verified"))]);
    assert_eq!(entries.len(), 1);
    assert_eq!(entries[0].id, "verified-verified");
}

#[test]
fn unknown_audit_verification_statuses_are_ignored_without_hiding_valid_history() {
    let mut unknown = test_audit_entry("unknown-verification-status");
    unknown.verification_status = "unknown".to_owned();
    let entries = read_back(vec![Some(unknown), Some(test_audit_entry("verified"))]);
    assert_eq!(entries.len(), 1);
    assert_eq!(entries[0].id, "verified");
}

#[test]
fn unknown_audit_outcome_statuses_are_ignored_without_hiding_valid_history() {
    let mut unknown = test_audit_entry("unknown-outcome-status");
    unknown.outcome_status = "unknown".to_owned();
    let mut rejected = test_audit_entry("rejected");
    rejected.verification_status = "legacy".to_owned();
    rejected.outcome_status = "rejected".to_owned();
    let entries = read_back(vec![Some(unknown), Some(test_audit_entry("verified")), Some(rejected)]);
    assert_eq!(entries.len(), 2);
    assert_eq!(entries[0].id, "verified");
    assert_eq!(entries[1].id, "rejected");
}

#[test]
fn inconsistent_audit_outcome_actions_are_ignored_without_hiding_valid_history() {
    let mut inconsistent = test_audit_entry("inconsistent-outcome-action");
    inconsistent.outcome_action = "storage_diagnostic".to_owned();
    let entries = read_back(vec![Some(inconsistent), Some(test_audit_entry("valid"))]);
    assert_eq!(entries.len(), 1);
    assert_eq!(entries[0].id, "valid");
}

#[test]
fn blank_audit_outcome_actions_are_ignored_without_hiding_valid_history() {
    let entries = blank_field_case(|e, v| e.outcome_action = v.to_owned());
    assert_eq!(entries.len(), 1);
    assert_eq!(entries[0].id, "valid");
}

#[test]
fn blank_audit_outcome_messages_are_ignored_without_hiding_valid_history() {
    let entries = blank_field_case(|e, v| e.outcome_message = v.to_owned());
    assert_eq!(entries.len(), 1);
    assert_eq!(entries[0].id, "valid");
}

#[test]
fn legacy_audit_records_remain_visible_when_newer_fields_are_missing() {
    // A record written before verification and outcomes: the missing fields
    // take their defaults.
    let legacy = ActionAuditEntry {
        id: "legacy".to_owned(),
        timestamp: 123,
        action: "test_action".to_owned(),
        stage: "test_stage".to_owned(),
        confirmed: true,
        status: "success".to_owned(),
        message: "test message".to_owned(),
        reversible: true,
        privilege: "none".to_owned(),
        verification_status: default_verification_status(),
        verification_message: String::new(),
        outcome_status: default_outcome_status(),
        outcome_message: String::new(),
        outcome_action: String::new(),
    };
    let entries = read_back(vec![Some(legacy)]);
    assert_eq!(entries.len(), 1);
    assert_eq!(entries[0].id, "legacy");
    assert_eq!(entries[0].verification_status, "legacy");
    assert_eq!(entries[0].verification_message, "");
    assert_eq!(entries[0].outcome_status, "legacy");
    assert_eq!(entries[0].outcome_message, "");
    assert_eq!(entries[0].outcome_action, "");
}

#[test]
fn audit_ids_are_unique_and_use_the_action_prefix() {
    let first = audit_id();
    let second = audit_id();
    assert_ne!(first, second);
    assert!(first.starts_with("action-"));
    assert!(second.starts_with("action-"));
}

#[test]
fn outcome_status_uses_explicit_stable_labels() {
    assert_eq!(outcome_status_label(&AlertActionOutcomeStatus::Verified), "verified");
    assert_eq!(outcome_status_label(&AlertActionOutcomeStatus::Rejected), "rejected");
}

#[test]
fn audit_ids_are_hyphenated_lowercase_uuids() {
    let id = audit_id();
    assert_eq!(id.len(), 43);
    let uuid = &id[7..];
    assert_eq!(uuid.as_bytes()[14], b'4');
    assert!(matches!(uuid.as_bytes()[19], b'8' | b'9' | b'a' | b'b'));
    assert_eq!(uuid::Uuid::parse_str(uuid).unwrap().to_string(), uuid);
    for (i, c) in uuid.chars().enumerate() {
        if [8, 13, 18, 23].contains(&i) {
            assert_eq!(c, '-');
        } else {
            assert!(c.is_ascii_hexdigit() && !c.is_ascii_uppercase());
        }
    }
}

#[test]
fn recorded_entries_carry_their_fields_and_outcome_label() {
    let outcome = AlertActionOutcome {
        action_id: "refresh_health".to_owned(),
        status: AlertActionOutcomeStatus::Verified,
        message: "outcome verified".to_owned(),
    };
    let entry = ActionAudit.entry(
        5,
        "refresh_health",
        "verified",
        true,
        "completed",
        "done",
        true,
        "None",
        "verified",
        "checked",
        &outcome,
    );
    assert!(entry.id.starts_with("action-"));
    assert_eq!(entry.timestamp, 5);
    assert_eq!(entry.outcome_status, "verified");
    assert_eq!(entry.outcome_action, "refresh_health");
    assert!(audit_entry_is_valid(&entry));
    assert_eq!(ids(&select_audit_entries(vec![Some(entry.clone()), Some(entry)])).len(), 1);
}

#[test]
fn the_first_of_two_records_sharing_an_id_is_kept() {
    let mut later = test_audit_entry("same");
    later.message = "later".to_owned();
    let entries = read_back(vec![Some(test_audit_entry("same")), Some(later)]);
    assert_eq!(ids(&entries), vec!["same"]);
    assert_eq!(entries[0].message, "test message");
}
