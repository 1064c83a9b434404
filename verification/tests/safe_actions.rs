use powerhouse::audit::{audit_entry_is_valid, select_audit_entries, ActionAudit, AlertActionOutcomeStatus};
use powerhouse::policy::{context, user_confirmed_context};
use powerhouse::safe_action::{
    finish_safe_action, safe_diagnostic, start_safe_action, SafeActionStart, SafeDiagnostic,
};

#[test]
fn unconfirmed_actions_are_refused_before_anything_runs() {
    assert_eq!(
        start_safe_action("refresh_health", false),
        SafeActionStart::Refused("explicit user confirmation is required".to_owned())
    );
}

#[test]
fn allowlisted_actions_run_their_diagnostic() {
    assert_eq!(start_safe_action("storage_diagnostic", true), SafeActionStart::Run(SafeDiagnostic::Storage));
    assert_eq!(safe_diagnostic("service_diagnostic"), Some(SafeDiagnostic::Service));
    assert_eq!(
        start_safe_action("rm -rf /", true),
        SafeActionStart::Rejected("action is not in the safe system-action allowlist".to_owned())
    );
}

#[test]
fn completed_actions_report_and_record_success() {
    let done = finish_safe_action("refresh_health", Ok(SafeDiagnostic::RefreshHealth));
    let result = done.result.clone().unwrap();
    assert_eq!(result.status, "completed");
    assert_eq!(result.message, "System health was refreshed.");
    assert_eq!(result.privilege, "None");
    assert!(result.reversible);
    assert_eq!(result.verification_status, "verified");
    assert_eq!(done.stage, "verified");
    assert_eq!(done.outcome.status, AlertActionOutcomeStatus::Verified);
    let entry = done.audit_entry(&ActionAudit, 1_700_000_000_000, "refresh_health");
    assert!(audit_entry_is_valid(&entry));
    assert_eq!(select_audit_entries(vec![Some(entry)]).len(), 1);
}

#[test]
fn failed_actions_report_the_error_and_are_not_trusted_history() {
    let done = finish_safe_action("process_diagnostic", Err("backend failed".to_owned()));
    assert_eq!(done.result.clone().unwrap_err(), "backend failed");
    assert_eq!(done.stage, "failed");
    assert_eq!(done.status, "failed");
    assert_eq!(done.privilege, "Unknown");
    assert!(!done.reversible);
    assert_eq!(done.verification.status, "failed");
    assert_eq!(done.outcome.status, AlertActionOutcomeStatus::Rejected);
    let entry = done.audit_entry(&ActionAudit, 5, "process_diagnostic");
    assert!(!audit_entry_is_valid(&entry));
}

#[test]
fn desktop_contexts_are_never_ai_requests() {
    assert!(!context().ai_requested && !context().user_confirmed);
    assert!(!user_confirmed_context().ai_requested && user_confirmed_context().user_confirmed);
}
