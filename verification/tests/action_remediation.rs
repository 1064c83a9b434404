use powerhouse::remediation::{suggest_remediation, verify_safe_action};

#[test]
fn failed_refresh_health_suggests_storage_diagnostic() {
    let suggestions = suggest_remediation("refresh_health", "failed", "failed");

    assert_eq!(suggestions.len(), 1);
    assert_eq!(suggestions[0].action, "refresh_health");
    assert_eq!(suggestions[0].suggested_action, "storage_diagnostic");
    assert!(suggestions[0].requires_confirmation);
}

#[test]
fn failed_diagnostic_actions_suggest_health_refresh() {
    for action in [
        "storage_diagnostic",
        "process_diagnostic",
        "network_diagnostic",
        "service_diagnostic",
    ] {
        let suggestions = suggest_remediation(action, "failed", "failed");

        assert_eq!(suggestions.len(), 1, "expected one suggestion for {action}");
        assert_eq!(suggestions[0].action, action);
        assert_eq!(suggestions[0].suggested_action, "refresh_health");
        assert!(suggestions[0].requires_confirmation);
    }
}

#[test]
fn failed_unknown_action_suggests_health_refresh() {
    let suggestions = suggest_remediation("unknown_action", "failed", "failed");

    assert_eq!(suggestions.len(), 1);
    assert_eq!(suggestions[0].action, "unknown_action");
    assert_eq!(suggestions[0].suggested_action, "refresh_health");
    assert!(suggestions[0].requires_confirmation);
}

#[test]
fn verified_action_suggests_health_refresh() {
    let suggestions = suggest_remediation("storage_diagnostic", "completed", "verified");

    assert_eq!(suggestions.len(), 1);
    assert_eq!(suggestions[0].action, "storage_diagnostic");
    assert_eq!(suggestions[0].suggested_action, "refresh_health");
    assert!(suggestions[0].requires_confirmation);
}

#[test]
fn successful_action_with_verified_verification_suggests_health_refresh() {
    let suggestions = suggest_remediation("storage_diagnostic", "success", "verified");

    assert_eq!(suggestions.len(), 1);
    assert_eq!(suggestions[0].action, "storage_diagnostic");
    assert_eq!(suggestions[0].suggested_action, "refresh_health");
    assert!(suggestions[0].requires_confirmation);
}

#[test]
fn failed_action_with_verified_verification_has_no_remediation_suggestion() {
    let suggestions = suggest_remediation("refresh_health", "failed", "verified");

    assert!(suggestions.is_empty());
}

#[test]
fn successful_action_with_failed_verification_has_no_remediation_suggestion() {
    let suggestions = suggest_remediation("refresh_health", "completed", "failed");

    assert!(suggestions.is_empty());
}

#[test]
fn incomplete_action_has_no_remediation_suggestion() {
    let suggestions = suggest_remediation("refresh_health", "completed", "pending");

    assert!(suggestions.is_empty());
}

#[test]
fn unknown_status_has_no_remediation_suggestion() {
    let suggestions = suggest_remediation("refresh_health", "unknown", "verified");

    assert!(suggestions.is_empty());
}

#[test]
fn unknown_verification_status_has_no_remediation_suggestion() {
    let suggestions = suggest_remediation("refresh_health", "completed", "unknown");

    assert!(suggestions.is_empty());
}

#[test]
fn verification_of_a_succeeded_action_names_it() {
    let v = verify_safe_action("storage_diagnostic", true);
    assert_eq!(v.status, "verified");
    assert_eq!(
        v.message,
        "storage_diagnostic returned a successful result; the permitted action is read-only, so no system mutation requires separate state verification."
    );
}

#[test]
fn verification_of_a_failed_action_names_it() {
    let v = verify_safe_action("refresh_health", false);
    assert_eq!(v.status, "failed");
    assert_eq!(
        v.message,
        "refresh_health did not complete successfully, so its intended outcome could not be verified."
    );
}

#[test]
fn a_verified_success_feeds_a_health_refresh_suggestion() {
    let v = verify_safe_action("network_diagnostic", true);
    let suggestions = suggest_remediation("network_diagnostic", "completed", &v.status);
    assert_eq!(suggestions.len(), 1);
    assert_eq!(suggestions[0].suggested_action, "refresh_health");
    let v = verify_safe_action("refresh_health", false);
    let suggestions = suggest_remediation("refresh_health", "failed", &v.status);
    assert_eq!(suggestions.len(), 1);
    assert_eq!(suggestions[0].suggested_action, "storage_diagnostic");
}
