use powerhouse::alert_guidance::{explain_alert, guide_alert, signal_label};
use powerhouse::alert_history::{AlertEvent, AlertEventReason};
use powerhouse::alerts::{AlertDecision, AlertSeverity};
use powerhouse::health::SignalKind;

fn event(kind: SignalKind, severity: AlertSeverity, reason: AlertEventReason) -> AlertEvent {
    AlertEvent {
        timestamp_ms: 1_000,
        performance_timestamp_ms: Some(1_000),
        kind,
        severity,
        decision: AlertDecision::Notify,
        reason,
    }
}

#[test]
fn memory_guidance_is_investigation_only() {
    let guidance = guide_alert(&event(
        SignalKind::Memory,
        AlertSeverity::Warning,
        AlertEventReason::ActivePolicy,
    ));

    assert!(guidance.summary.contains("memory"));
    assert!(guidance.steps.iter().any(|step| step.contains("process")));
    assert!(guidance.safety_note.contains("No system changes"));
}

#[test]
fn critical_guidance_prioritizes_verification() {
    let guidance = guide_alert(&event(
        SignalKind::Cpu,
        AlertSeverity::Critical,
        AlertEventReason::CriticalOverride,
    ));

    assert!(guidance.steps[0].contains("time-sensitive"));
    assert!(guidance.safety_note.contains("do not prove causation"));
}

#[test]
fn dismissed_warning_reminds_user_to_recheck_persistence() {
    let guidance = guide_alert(&event(
        SignalKind::Storage,
        AlertSeverity::Warning,
        AlertEventReason::Dismissed,
    ));

    assert!(guidance
        .steps
        .iter()
        .any(|step| step.contains("previously suppressed or dismissed")));
}

fn explained_event(decision: AlertDecision, reason: AlertEventReason) -> AlertEvent {
    AlertEvent {
        timestamp_ms: 1_000,
        performance_timestamp_ms: Some(1_000),
        kind: SignalKind::Cpu,
        severity: AlertSeverity::Warning,
        decision,
        reason,
    }
}

#[test]
fn explains_notified_alert_with_performance_evidence() {
    // The alert's value (91.5) as it is shown, and the primary evidence of the
    // performance snapshot matched to it.
    let explanation = explain_alert(
        &explained_event(AlertDecision::Notify, AlertEventReason::ActivePolicy),
        "91.5",
        Some("CPU utilization was 93.0% near the alert."),
    );

    assert_eq!(explanation.headline, "CPU warning alert");
    assert!(explanation.detail.contains("91.5%"));
    assert!(explanation.evidence.contains("93.0%"));
}

#[test]
fn explains_suppressed_alert_without_claiming_notification() {
    let explanation = explain_alert(
        &explained_event(AlertDecision::Suppressed, AlertEventReason::Snoozed),
        "91.5",
        None,
    );

    assert!(explanation.detail.contains("suppressed"));
    assert!(explanation.action.contains("snoozed"));
    assert!(explanation.evidence.contains("No matching"));
}

#[test]
fn critical_explanation_preserves_override_safety_message() {
    let mut critical = explained_event(AlertDecision::Notify, AlertEventReason::CriticalOverride);
    critical.severity = AlertSeverity::Critical;
    let explanation = explain_alert(&critical, "91.5", None);

    assert_eq!(explanation.headline, "Critical CPU alert");
    assert!(explanation.action.contains("remain visible"));
}

#[test]
fn explanation_detail_is_exact() {
    let explanation = explain_alert(
        &explained_event(AlertDecision::Notify, AlertEventReason::ActivePolicy),
        "91.5",
        None,
    );
    assert_eq!(
        explanation.detail,
        "The CPU signal reached 91.5%, so the active alert policy notified you."
    );
    assert_eq!(
        explanation.evidence,
        "No matching performance snapshot was available for this alert."
    );
}

#[test]
fn signal_labels_are_stable() {
    assert_eq!(signal_label(SignalKind::Cpu), "CPU");
    assert_eq!(signal_label(SignalKind::Memory), "memory");
    assert_eq!(signal_label(SignalKind::Storage), "storage");
    assert_eq!(signal_label(SignalKind::Network), "network");
}
