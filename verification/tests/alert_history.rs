use powerhouse::alert_history::{
    create_event, event_reason, AlertEvent, AlertEventHistory, AlertEventReason,
    DEFAULT_ALERT_HISTORY_LIMIT,
};
use powerhouse::alert_history_store::path;
use powerhouse::alerts::{AlertDecision, AlertSeverity, AlertState};
use powerhouse::health::{HealthLevel, SignalKind};

fn event(timestamp_ms: u128) -> AlertEvent {
    AlertEvent {
        timestamp_ms,
        performance_timestamp_ms: None,
        kind: SignalKind::Cpu,
        severity: AlertSeverity::Warning,
        decision: AlertDecision::Notify,
        reason: AlertEventReason::ActivePolicy,
    }
}

#[test]
fn history_keeps_only_the_newest_events() {
    let mut history = AlertEventHistory::new(2);
    for timestamp_ms in 1..=3 {
        history.record(event(timestamp_ms));
    }
    assert_eq!(history.events().len(), 2);
    assert_eq!(history.events()[0].timestamp_ms, 2);
    assert_eq!(history.events()[1].timestamp_ms, 3);
}

#[test]
fn zero_limit_does_not_retain_events() {
    let mut history = AlertEventHistory::new(0);
    history.record(event(1));
    assert!(history.events().is_empty());
}

#[test]
fn clear_removes_all_events() {
    let mut history = AlertEventHistory::new(10);
    history.record(event(1));
    history.clear();
    assert!(history.events().is_empty());
}

#[test]
fn critical_alert_records_override_reason() {
    let event = create_event(
        1_000,
        SignalKind::Cpu,
        HealthLevel::Critical,
        AlertState::Snoozed { until_ms: 10_000 },
        AlertDecision::Notify,
    )
    .unwrap();
    assert_eq!(event.reason, AlertEventReason::CriticalOverride);
}

#[test]
fn active_warning_records_notify_reason() {
    let event = create_event(
        1_000,
        SignalKind::Memory,
        HealthLevel::Warning,
        AlertState::Active,
        AlertDecision::Notify,
    )
    .unwrap();
    assert_eq!(event.reason, AlertEventReason::ActivePolicy);
}

#[test]
fn snoozed_warning_records_suppressed_reason() {
    let event = create_event(
        1_000,
        SignalKind::Swap,
        HealthLevel::Warning,
        AlertState::Snoozed { until_ms: 2_000 },
        AlertDecision::Suppressed,
    )
    .unwrap();
    assert_eq!(event.reason, AlertEventReason::Snoozed);
}

#[test]
fn expired_snooze_records_expiry_reason() {
    let event = create_event(
        2_000,
        SignalKind::Storage,
        HealthLevel::Warning,
        AlertState::Snoozed { until_ms: 1_000 },
        AlertDecision::Notify,
    )
    .unwrap();
    assert_eq!(event.reason, AlertEventReason::SnoozeExpired);
}

#[test]
fn healthy_signal_has_no_event() {
    assert!(
        create_event(
            1_000,
            SignalKind::Network,
            HealthLevel::Healthy,
            AlertState::Active,
            AlertDecision::Notify
        )
        .is_none()
    );
}

#[test]
fn history_limit_is_kept_and_default_is_one_hundred() {
    let history: AlertEventHistory<AlertEvent> = AlertEventHistory::new(DEFAULT_ALERT_HISTORY_LIMIT);
    assert_eq!(history.limit(), 100);
    assert!(history.events().is_empty());
    let history: AlertEventHistory<AlertEvent> = AlertEventHistory::default();
    assert_eq!(history.limit(), DEFAULT_ALERT_HISTORY_LIMIT);
}

#[test]
fn history_below_its_limit_keeps_every_event_in_order() {
    let mut history = AlertEventHistory::new(5);
    for timestamp_ms in 1..=3 {
        history.record(event(timestamp_ms));
    }
    let stamps: Vec<u128> = history.events().iter().map(|e| e.timestamp_ms).collect();
    assert_eq!(stamps, vec![1, 2, 3]);
}

#[test]
fn restored_history_keeps_its_parts() {
    let history = AlertEventHistory::from_parts(2, vec![event(1), event(2)]);
    assert_eq!(history.limit(), 2);
    let stamps: Vec<u128> = history.events().iter().map(|e| e.timestamp_ms).collect();
    assert_eq!(stamps, vec![1, 2]);
}

#[test]
fn event_reason_follows_state_and_severity() {
    assert_eq!(
        event_reason(AlertState::Dismissed, AlertSeverity::Warning, 5),
        AlertEventReason::Dismissed
    );
    assert_eq!(
        event_reason(AlertState::Dismissed, AlertSeverity::Critical, 5),
        AlertEventReason::CriticalOverride
    );
    assert_eq!(
        event_reason(AlertState::Snoozed { until_ms: 5 }, AlertSeverity::Warning, 5),
        AlertEventReason::SnoozeExpired
    );
}

#[test]
fn alert_history_file_sits_in_the_data_directory() {
    assert_eq!(path("/var/lib/app"), "/var/lib/app/alert-history.json");
    assert_eq!(path("/var/lib/app/"), "/var/lib/app/alert-history.json");
    assert_eq!(path(""), "alert-history.json");
}
