use powerhouse::alert_actions::confirm_alert_action;
use powerhouse::alert_history::{AlertEvent, AlertEventReason};
use powerhouse::alerts::{AlertDecision, AlertSeverity};
use powerhouse::health::SignalKind;

fn event() -> AlertEvent {
    AlertEvent {
        timestamp_ms: 1_000,
        performance_timestamp_ms: Some(1_000),
        kind: SignalKind::Cpu,
        severity: AlertSeverity::Warning,
        decision: AlertDecision::Notify,
        reason: AlertEventReason::ActivePolicy,
    }
}

#[test]
fn confirmation_records_intent_without_authorization() {
    let result = confirm_alert_action(&event(), "recheck-condition").expect("known preview");
    assert!(result.confirmed);
    assert!(!result.authorized);
    assert!(!result.executable);
    assert!(!result.requires_privilege);
}

#[test]
fn unknown_preview_is_rejected() {
    let result = confirm_alert_action(&event(), "delete-everything");
    assert!(result.is_err());
}

#[test]
fn confirmation_carries_the_preview_title() {
    let result = confirm_alert_action(&event(), "recheck-condition").unwrap();
    assert_eq!(result.action_id, "recheck-condition");
    assert!(!result.title.is_empty());
}
