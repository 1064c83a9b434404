use powerhouse::remediation::action_remediation_suggestions;

#[test]
fn remediation_command_preserves_verified_action_suggestion() {
    let suggestions = action_remediation_suggestions(
        "storage_diagnostic".to_owned(),
        "completed".to_owned(),
        "verified".to_owned(),
    );

    assert_eq!(suggestions.len(), 1);
    assert_eq!(suggestions[0].action, "storage_diagnostic");
    assert_eq!(suggestions[0].suggested_action, "refresh_health");
    assert!(suggestions[0].requires_confirmation);
}

#[test]
fn remediation_command_preserves_successful_verified_action_suggestion() {
    let suggestions = action_remediation_suggestions(
        "storage_diagnostic".to_owned(),
        "success".to_owned(),
        "verified".to_owned(),
    );

    assert_eq!(suggestions.len(), 1);
    assert_eq!(suggestions[0].action, "storage_diagnostic");
    assert_eq!(suggestions[0].suggested_action, "refresh_health");
    assert!(suggestions[0].requires_confirmation);
}

#[test]
fn remediation_command_preserves_completed_verified_success_reason() {
    let suggestions = action_remediation_suggestions(
        "storage_diagnostic".to_owned(),
        "completed".to_owned(),
        "verified".to_owned(),
    );

    assert_eq!(suggestions.len(), 1);
    assert_eq!(
        suggestions[0].reason,
        "The read-only action completed successfully; a fresh health refresh can confirm the latest overall state."
    );
}

#[test]
fn remediation_command_preserves_successful_verified_success_reason() {
    let suggestions = action_remediation_suggestions(
        "storage_diagnostic".to_owned(),
        "success".to_owned(),
        "verified".to_owned(),
    );

    assert_eq!(suggestions.len(), 1);
    assert_eq!(
        suggestions[0].reason,
        "The read-only action completed successfully; a fresh health refresh can confirm the latest overall state."
    );
}

#[test]
fn remediation_command_preserves_failed_action_reason() {
    let suggestions = action_remediation_suggestions(
        "refresh_health".to_owned(),
        "failed".to_owned(),
        "failed".to_owned(),
    );

    assert_eq!(suggestions.len(), 1);
    assert_eq!(
        suggestions[0].reason,
        "The action did not complete successfully, so a safe follow-up diagnostic is recommended."
    );
}

#[test]
fn remediation_command_preserves_completed_verified_confirmation_requirement() {
    let suggestions = action_remediation_suggestions(
        "storage_diagnostic".to_owned(),
        "completed".to_owned(),
        "verified".to_owned(),
    );

    assert_eq!(suggestions.len(), 1);
    assert!(suggestions[0].requires_confirmation);
}

#[test]
fn remediation_command_preserves_successful_verified_confirmation_requirement() {
    let suggestions = action_remediation_suggestions(
        "storage_diagnostic".to_owned(),
        "success".to_owned(),
        "verified".to_owned(),
    );

    assert_eq!(suggestions.len(), 1);
    assert!(suggestions[0].requires_confirmation);
}

#[test]
fn remediation_command_preserves_failed_confirmation_requirement() {
    let suggestions = action_remediation_suggestions(
        "refresh_health".to_owned(),
        "failed".to_owned(),
        "failed".to_owned(),
    );

    assert_eq!(suggestions.len(), 1);
    assert!(suggestions[0].requires_confirmation);
}

#[test]
fn remediation_command_preserves_completed_verified_diagnostic_actions() {
    for action in [
        "refresh_health",
        "storage_diagnostic",
        "process_diagnostic",
        "network_diagnostic",
        "service_diagnostic",
    ] {
        let suggestions = action_remediation_suggestions(
            action.to_owned(),
            "completed".to_owned(),
            "verified".to_owned(),
        );

        assert_eq!(suggestions.len(), 1);
        assert_eq!(suggestions[0].action, action);
        assert_eq!(suggestions[0].suggested_action, "refresh_health");
        assert!(suggestions[0].requires_confirmation);
    }
}

#[test]
fn remediation_command_preserves_successful_verified_diagnostic_actions() {
    for action in [
        "refresh_health",
        "storage_diagnostic",
        "process_diagnostic",
        "network_diagnostic",
        "service_diagnostic",
    ] {
        let suggestions = action_remediation_suggestions(
            action.to_owned(),
            "success".to_owned(),
            "verified".to_owned(),
        );

        assert_eq!(suggestions.len(), 1);
        assert_eq!(suggestions[0].action, action);
        assert_eq!(suggestions[0].suggested_action, "refresh_health");
        assert!(suggestions[0].requires_confirmation);
    }
}

#[test]
fn remediation_command_preserves_failed_action_suggestion() {
    let suggestions = action_remediation_suggestions(
        "refresh_health".to_owned(),
        "failed".to_owned(),
        "failed".to_owned(),
    );

    assert_eq!(suggestions.len(), 1);
    assert_eq!(suggestions[0].action, "refresh_health");
    assert_eq!(suggestions[0].suggested_action, "storage_diagnostic");
    assert!(suggestions[0].requires_confirmation);
}

#[test]
fn remediation_command_preserves_failed_diagnostic_action_suggestions() {
    for action in [
        "storage_diagnostic",
        "process_diagnostic",
        "network_diagnostic",
        "service_diagnostic",
    ] {
        let suggestions = action_remediation_suggestions(
            action.to_owned(),
            "failed".to_owned(),
            "failed".to_owned(),
        );

        assert_eq!(suggestions.len(), 1, "expected one suggestion for {action}");
        assert_eq!(suggestions[0].action, action);
        assert_eq!(suggestions[0].suggested_action, "refresh_health");
        assert!(suggestions[0].requires_confirmation);
    }
}

#[test]
fn remediation_command_rejects_failed_action_with_verified_verification() {
    let suggestions = action_remediation_suggestions(
        "refresh_health".to_owned(),
        "failed".to_owned(),
        "verified".to_owned(),
    );

    assert!(suggestions.is_empty());
}

#[test]
fn remediation_command_rejects_failed_action_with_whitespace_padded_failed_verification() {
    let suggestions = action_remediation_suggestions(
        "refresh_health".to_owned(),
        "failed".to_owned(),
        " failed ".to_owned(),
    );

    assert!(suggestions.is_empty());
}

#[test]
fn remediation_command_rejects_successful_action_with_failed_verification() {
    let suggestions = action_remediation_suggestions(
        "refresh_health".to_owned(),
        "completed".to_owned(),
        "failed".to_owned(),
    );

    assert!(suggestions.is_empty());
}

#[test]
fn remediation_command_rejects_success_action_with_failed_verification() {
    let suggestions = action_remediation_suggestions(
        "refresh_health".to_owned(),
        "success".to_owned(),
        "failed".to_owned(),
    );

    assert!(suggestions.is_empty());
}

#[test]
fn remediation_command_preserves_no_suggestion_for_incomplete_action() {
    let suggestions = action_remediation_suggestions(
        "storage_diagnostic".to_owned(),
        "pending".to_owned(),
        "legacy".to_owned(),
    );

    assert!(suggestions.is_empty());
}

#[test]
fn remediation_command_preserves_no_suggestion_for_unknown_status() {
    let suggestions = action_remediation_suggestions(
        "refresh_health".to_owned(),
        "unknown".to_owned(),
        "verified".to_owned(),
    );

    assert!(suggestions.is_empty());
}

#[test]
fn remediation_command_preserves_no_suggestion_for_unknown_verification_status() {
    let suggestions = action_remediation_suggestions(
        "refresh_health".to_owned(),
        "completed".to_owned(),
        "unknown".to_owned(),
    );

    assert!(suggestions.is_empty());
}

#[test]
fn remediation_command_rejects_failed_action_with_unknown_verification() {
    let suggestions = action_remediation_suggestions(
        "refresh_health".to_owned(),
        "failed".to_owned(),
        "unknown".to_owned(),
    );

    assert!(suggestions.is_empty());
}

#[test]
fn remediation_command_rejects_failed_action_with_legacy_verification() {
    let suggestions = action_remediation_suggestions(
        "refresh_health".to_owned(),
        "failed".to_owned(),
        "legacy".to_owned(),
    );

    assert!(suggestions.is_empty());
}

#[test]
fn remediation_command_rejects_failed_action_with_pending_verification() {
    let suggestions = action_remediation_suggestions(
        "refresh_health".to_owned(),
        "failed".to_owned(),
        "pending".to_owned(),
    );

    assert!(suggestions.is_empty());
}

#[test]
fn remediation_command_rejects_failed_action_with_empty_verification() {
    let suggestions = action_remediation_suggestions(
        "refresh_health".to_owned(),
        "failed".to_owned(),
        "".to_owned(),
    );

    assert!(suggestions.is_empty());
}

#[test]
fn remediation_command_rejects_failed_action_with_whitespace_verification() {
    let suggestions = action_remediation_suggestions(
        "refresh_health".to_owned(),
        "failed".to_owned(),
        "   ".to_owned(),
    );

    assert!(suggestions.is_empty());
}

#[test]
fn remediation_command_rejects_completed_action_with_legacy_verification() {
    let suggestions = action_remediation_suggestions(
        "refresh_health".to_owned(),
        "completed".to_owned(),
        "legacy".to_owned(),
    );

    assert!(suggestions.is_empty());
}

#[test]
fn remediation_command_rejects_completed_action_with_pending_verification() {
    let suggestions = action_remediation_suggestions(
        "refresh_health".to_owned(),
        "completed".to_owned(),
        "pending".to_owned(),
    );

    assert!(suggestions.is_empty());
}

#[test]
fn remediation_command_rejects_completed_action_with_empty_verification() {
    let suggestions = action_remediation_suggestions(
        "refresh_health".to_owned(),
        "completed".to_owned(),
        "".to_owned(),
    );

    assert!(suggestions.is_empty());
}

#[test]
fn remediation_command_rejects_completed_action_with_whitespace_verification() {
    let suggestions = action_remediation_suggestions(
        "refresh_health".to_owned(),
        "completed".to_owned(),
        "   ".to_owned(),
    );

    assert!(suggestions.is_empty());
}

#[test]
fn remediation_command_rejects_completed_action_with_whitespace_padded_verified_verification() {
    let suggestions = action_remediation_suggestions(
        "refresh_health".to_owned(),
        "completed".to_owned(),
        " verified ".to_owned(),
    );

    assert!(suggestions.is_empty());
}

#[test]
fn remediation_command_rejects_success_action_with_unknown_verification() {
    let suggestions = action_remediation_suggestions(
        "refresh_health".to_owned(),
        "success".to_owned(),
        "unknown".to_owned(),
    );

    assert!(suggestions.is_empty());
}

#[test]
fn remediation_command_rejects_success_action_with_legacy_verification() {
    let suggestions = action_remediation_suggestions(
        "refresh_health".to_owned(),
        "success".to_owned(),
        "legacy".to_owned(),
    );

    assert!(suggestions.is_empty());
}

#[test]
fn remediation_command_rejects_success_action_with_pending_verification() {
    let suggestions = action_remediation_suggestions(
        "refresh_health".to_owned(),
        "success".to_owned(),
        "pending".to_owned(),
    );

    assert!(suggestions.is_empty());
}

#[test]
fn remediation_command_rejects_success_action_with_empty_verification() {
    let suggestions = action_remediation_suggestions(
        "refresh_health".to_owned(),
        "success".to_owned(),
        "".to_owned(),
    );

    assert!(suggestions.is_empty());
}

#[test]
fn remediation_command_rejects_success_action_with_whitespace_verification() {
    let suggestions = action_remediation_suggestions(
        "refresh_health".to_owned(),
        "success".to_owned(),
        "   ".to_owned(),
    );

    assert!(suggestions.is_empty());
}
