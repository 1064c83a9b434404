//! Deterministic, non-mutating guidance and plain-language explanations for
//! alerts. Guidance is informational only: it never executes, authorizes, or
//! requests privileged remediation.

use vstd::prelude::*;
use crate::alert_history::{AlertEvent, AlertEventReason};
use crate::alerts::{AlertDecision, AlertSeverity};
use crate::health::SignalKind;

verus! {

#[derive(Debug, Clone, PartialEq, Eq)]
pub struct AlertGuidance {
    pub summary: String,
    pub steps: Vec<String>,
    pub safety_note: String,
}

#[derive(Debug, Clone, PartialEq, Eq)]
pub struct AlertExplanation {
    pub headline: String,
    pub detail: String,
    pub evidence: String,
    pub action: String,
}

pub open spec fn guidance_summary(kind: SignalKind) -> Seq<char> {
    match kind {
        SignalKind::Cpu => "Review the processes contributing to sustained CPU load."@,
        SignalKind::Memory => "Review the processes contributing to elevated memory usage."@,
        SignalKind::Swap => "Check memory pressure and whether swap usage remains elevated."@,
        SignalKind::Storage => "Check filesystem usage and recent disk activity before taking action."@,
        SignalKind::Network => "Review recent network activity and connectivity if the condition persists."@,
    }
}

pub open spec fn kind_steps(kind: SignalKind) -> Seq<Seq<char>> {
    match kind {
        SignalKind::Cpu => seq![
            "Review the recorded process contributors and their CPU activity."@,
            "Check whether the elevated CPU condition persists across subsequent samples."@,
            "If a process is no longer needed, close it through its normal application controls."@,
        ],
        SignalKind::Memory => seq![
            "Review the recorded process contributors and their memory usage."@,
            "Check whether memory usage remains elevated over time."@,
            "If an application is no longer needed, close it through its normal application controls."@,
        ],
        SignalKind::Swap => seq![
            "Review memory usage and the processes using the most memory."@,
            "Check whether swap usage remains elevated after memory pressure changes."@,
            "Avoid forcing processes to stop unless you have independently confirmed that action is appropriate."@,
        ],
        SignalKind::Storage => seq![
            "Review filesystem utilization and recent storage activity."@,
            "Identify large or unnecessary files using a trusted storage tool."@,
            "Confirm backups or other safeguards before deleting or modifying data."@,
        ],
        SignalKind::Network => seq![
            "Check whether the network condition persists."@,
            "Review the affected connection, interface, or service using trusted diagnostics."@,
            "Avoid changing network configuration until the affected component is understood."@,
        ],
    }
}

pub open spec fn critical_step() -> Seq<char> {
    "Treat the event as time-sensitive and verify the underlying condition before making changes."@
}

pub open spec fn suppressed_step() -> Seq<char> {
    "The warning was previously suppressed or dismissed; review it again if the condition persists."@
}

pub open spec fn guidance_safety_note() -> Seq<char> {
    "Guidance is informational only. No system changes are performed, and these observations do not prove causation."@
}

/// The steps for an event: a critical alert starts with verifying the
/// condition, then the three steps for its kind, and a snoozed or dismissed
/// warning ends with a reminder to recheck it.
pub open spec fn expected_steps(event: AlertEvent) -> Seq<Seq<char>> {
    let base = kind_steps(event.kind);
    let first = if event.severity == AlertSeverity::Critical {
        seq![critical_step()] + base
    } else {
        base
    };
    if event.reason == AlertEventReason::Snoozed || event.reason == AlertEventReason::Dismissed {
        first.push(suppressed_step())
    } else {
        first
    }
}

fn kind_step_list(kind: SignalKind) -> (steps: Vec<String>)
    ensures
        steps@.map_values(|s: String| s@) == kind_steps(kind),
{
    let steps = match kind {
        SignalKind::Cpu => vec![
            "Review the recorded process contributors and their CPU activity.".to_owned(),
            "Check whether the elevated CPU condition persists across subsequent samples.".to_owned(),
            "If a process is no longer needed, close it through its normal application controls.".to_owned(),
        ],
        SignalKind::Memory => vec![
            "Review the recorded process contributors and their memory usage.".to_owned(),
            "Check whether memory usage remains elevated over time.".to_owned(),
            "If an application is no longer needed, close it through its normal application controls.".to_owned(),
        ],
        SignalKind::Swap => vec![
            "Review memory usage and the processes using the most memory.".to_owned(),
            "Check whether swap usage remains elevated after memory pressure changes.".to_owned(),
            "Avoid forcing processes to stop unless you have independently confirmed that action is appropriate.".to_owned(),
        ],
        SignalKind::Storage => vec![
            "Review filesystem utilization and recent storage activity.".to_owned(),
            "Identify large or unnecessary files using a trusted storage tool.".to_owned(),
            "Confirm backups or other safeguards before deleting or modifying data.".to_owned(),
        ],
        SignalKind::Network => vec![
            "Check whether the network condition persists.".to_owned(),
            "Review the affected connection, interface, or service using trusted diagnostics.".to_owned(),
            "Avoid changing network configuration until the affected component is understood.".to_owned(),
        ],
    };
    assert(steps@.map_values(|s: String| s@) =~= kind_steps(kind));
    steps
}

/// Produce deterministic, non-mutating guidance for an alert.
pub fn guide_alert(event: &AlertEvent) -> (guidance: AlertGuidance)
    ensures
        guidance.summary@ == guidance_summary(event.kind),
        guidance.steps@.map_values(|s: String| s@) == expected_steps(*event),
        guidance.safety_note@ == guidance_safety_note(),
        event.reason == AlertEventReason::Snoozed || event.reason == AlertEventReason::Dismissed
            ==> guidance.steps@.len() > 0 && guidance.steps@.last()@ == "The warning was previously suppressed or dismissed; review it again if the condition persists."@,
        forall|i: int|
            0 <= i < guidance.steps@.len() && (#[trigger] guidance.steps@[i])@ == "The warning was previously suppressed or dismissed; review it again if the condition persists."@
                ==> i == guidance.steps@.len() - 1 && (event.reason == AlertEventReason::Snoozed
                || event.reason == AlertEventReason::Dismissed),
{
    let summary = match event.kind {
        SignalKind::Cpu => "Review the processes contributing to sustained CPU load.".to_owned(),
        SignalKind::Memory => "Review the processes contributing to elevated memory usage.".to_owned(),
        SignalKind::Swap => "Check memory pressure and whether swap usage remains elevated.".to_owned(),
        SignalKind::Storage => "Check filesystem usage and recent disk activity before taking action.".to_owned(),
        SignalKind::Network => "Review recent network activity and connectivity if the condition persists.".to_owned(),
    };
    let mut steps = kind_step_list(event.kind);
    let ghost base = steps@;
    if event.severity == AlertSeverity::Critical {
        steps.insert(
            0,
            "Treat the event as time-sensitive and verify the underlying condition before making changes.".to_owned(),
        );
    }
    let ghost first = steps@;
    assert(first.map_values(|s: String| s@) =~= (if event.severity == AlertSeverity::Critical {
        seq![critical_step()] + kind_steps(event.kind)
    } else {
        kind_steps(event.kind)
    })) by {
        if event.severity == AlertSeverity::Critical {
            assert(forall|i: int| 0 <= i < base.len() ==> #[trigger] first[i + 1] == base[i]);
        }
    }
    if event.reason == AlertEventReason::Snoozed || event.reason == AlertEventReason::Dismissed {
        steps.push(
            "The warning was previously suppressed or dismissed; review it again if the condition persists.".to_owned(),
        );
    }
    assert(steps@.map_values(|s: String| s@) =~= expected_steps(*event));
    proof {
        lemma_suppressed_warnings_are_reminded(*event);
        let e = expected_steps(*event);
        assert(e.len() == steps@.len());
        assert forall|i: int| 0 <= i < steps@.len() implies (#[trigger] steps@[i])@ == e[i] by {
            assert(e[i] == steps@.map_values(|s: String| s@)[i]);
        }
    }
    AlertGuidance {
        summary,
        steps,
        safety_note: "Guidance is informational only. No system changes are performed, and these observations do not prove causation.".to_owned(),
    }
}

/// A snoozed or dismissed warning's guidance always ends with the reminder to
/// review it again, and that reminder appears for no other event and nowhere
/// else in the steps.
pub proof fn lemma_suppressed_warnings_are_reminded(event: AlertEvent)
    ensures
        expected_steps(event).len() > 0,
        event.reason == AlertEventReason::Snoozed || event.reason == AlertEventReason::Dismissed
            ==> expected_steps(event).last() == "The warning was previously suppressed or dismissed; review it again if the condition persists."@,
        forall|i: int|
            0 <= i < expected_steps(event).len() && #[trigger] expected_steps(event)[i]
                == "The warning was previously suppressed or dismissed; review it again if the condition persists."@ ==> i == expected_steps(event).len() - 1 && (
            event.reason == AlertEventReason::Snoozed || event.reason == AlertEventReason::Dismissed),
{
    reveal_strlit("Review the recorded process contributors and their CPU activity.");
    reveal_strlit("Check whether the elevated CPU condition persists across subsequent samples.");
    reveal_strlit("If a process is no longer needed, close it through its normal application controls.");
    reveal_strlit("Review the recorded process contributors and their memory usage.");
    reveal_strlit("Check whether memory usage remains elevated over time.");
    reveal_strlit("If an application is no longer needed, close it through its normal application controls.");
    reveal_strlit("Review memory usage and the processes using the most memory.");
    reveal_strlit("Check whether swap usage remains elevated after memory pressure changes.");
    reveal_strlit("Avoid forcing processes to stop unless you have independently confirmed that action is appropriate.");
    reveal_strlit("Review filesystem utilization and recent storage activity.");
    reveal_strlit("Identify large or unnecessary files using a trusted storage tool.");
    reveal_strlit("Confirm backups or other safeguards before deleting or modifying data.");
    reveal_strlit("Check whether the network condition persists.");
    reveal_strlit("Review the affected connection, interface, or service using trusted diagnostics.");
    reveal_strlit("Avoid changing network configuration until the affected component is understood.");
    reveal_strlit("Treat the event as time-sensitive and verify the underlying condition before making changes.");
    reveal_strlit("The warning was previously suppressed or dismissed; review it again if the condition persists.");
    let p = expected_steps(event);
    let base = kind_steps(event.kind);
    assert(base.len() == 3);
    assert(suppressed_step().len() == 94);
    assert(critical_step().len() != 94);
    assert(base[0].len() != 94 && base[1].len() != 94 && base[2].len() != 94) by {
        match event.kind {
            SignalKind::Cpu => {
                assert(base[0] == "Review the recorded process contributors and their CPU activity."@);
                assert(base[1] == "Check whether the elevated CPU condition persists across subsequent samples."@);
                assert(base[2] == "If a process is no longer needed, close it through its normal application controls."@);
            },
            SignalKind::Memory => {
                assert(base[0] == "Review the recorded process contributors and their memory usage."@);
                assert(base[1] == "Check whether memory usage remains elevated over time."@);
                assert(base[2] == "If an application is no longer needed, close it through its normal application controls."@);
            },
            SignalKind::Swap => {
                assert(base[0] == "Review memory usage and the processes using the most memory."@);
                assert(base[1] == "Check whether swap usage remains elevated after memory pressure changes."@);
                assert(base[2] == "Avoid forcing processes to stop unless you have independently confirmed that action is appropriate."@);
            },
            SignalKind::Storage => {
                assert(base[0] == "Review filesystem utilization and recent storage activity."@);
                assert(base[1] == "Identify large or unnecessary files using a trusted storage tool."@);
                assert(base[2] == "Confirm backups or other safeguards before deleting or modifying data."@);
            },
            SignalKind::Network => {
                assert(base[0] == "Check whether the network condition persists."@);
                assert(base[1] == "Review the affected connection, interface, or service using trusted diagnostics."@);
                assert(base[2] == "Avoid changing network configuration until the affected component is understood."@);
            },
        }
    }
    let first = if event.severity == AlertSeverity::Critical {
        seq![critical_step()] + base
    } else {
        base
    };
    assert forall|i: int| 0 <= i < first.len() implies (#[trigger] first[i]) != suppressed_step() by {
        if event.severity == AlertSeverity::Critical && i > 0 {
            assert(first[i] == base[i - 1]);
        }
    }
    if event.reason == AlertEventReason::Snoozed || event.reason == AlertEventReason::Dismissed {
        assert(p == first.push(suppressed_step()));
        assert forall|i: int| 0 <= i < p.len() - 1 implies p[i] == first[i] by {}
    } else {
        assert(p == first);
    }
}

pub open spec fn signal_label_spec(signal: SignalKind) -> Seq<char> {
    match signal {
        SignalKind::Cpu => "CPU"@,
        SignalKind::Memory => "memory"@,
        SignalKind::Swap => "swap"@,
        SignalKind::Storage => "storage"@,
        SignalKind::Network => "network"@,
    }
}

/// The name of a signal as it appears in explanations.
pub fn signal_label(signal: SignalKind) -> (label: &'static str)
    ensures
        label@ == signal_label_spec(signal),
{
    match signal {
        SignalKind::Cpu => "CPU",
        SignalKind::Memory => "memory",
        SignalKind::Swap => "swap",
        SignalKind::Storage => "storage",
        SignalKind::Network => "network",
    }
}

pub open spec fn explanation_headline(event: AlertEvent) -> Seq<char> {
    match event.severity {
        AlertSeverity::Critical => "Critical "@ + signal_label_spec(event.kind) + " alert"@,
        AlertSeverity::Warning => signal_label_spec(event.kind) + " warning alert"@,
    }
}

pub open spec fn explanation_detail(event: AlertEvent, value_text: Seq<char>) -> Seq<char> {
    match event.decision {
        AlertDecision::Notify => "The "@ + signal_label_spec(event.kind) + " signal reached "@
            + value_text + "%, so the active alert policy notified you."@,
        AlertDecision::Suppressed => "The "@ + signal_label_spec(event.kind)
            + " signal reached "@ + value_text
            + "%, but the routine warning was suppressed by the current alert policy."@,
    }
}

pub open spec fn missing_evidence_text() -> Seq<char> {
    "No matching performance snapshot was available for this alert."@
}

pub open spec fn explanation_action(reason: AlertEventReason) -> Seq<char> {
    match reason {
        AlertEventReason::CriticalOverride => "Critical events remain visible regardless of routine warning preferences."@,
        AlertEventReason::Snoozed => "The routine warning was snoozed; review the event if the underlying condition persists."@,
        AlertEventReason::Dismissed => "The routine warning was dismissed; review the history if the condition returns."@,
        AlertEventReason::SnoozeExpired => "The snooze period had expired, so the routine warning returned to the active policy."@,
        AlertEventReason::ActivePolicy => "The active alert policy determined that this event should be recorded and handled according to its decision."@,
    }
}

fn push_str(s: &mut String, rest: &str)
    ensures
        final(s)@ == old(s)@ + rest@,
{
    s.append(rest);
}

/// Explain an alert in plain language. `value_text` is the alert's measured
/// value as it is shown (one decimal place), and `evidence` the primary
/// evidence of the performance snapshot matched to the alert, if any.
pub fn explain_alert(event: &AlertEvent, value_text: &str, evidence: Option<&str>) -> (explanation:
    AlertExplanation)
    ensures
        explanation.headline@ == explanation_headline(*event),
        explanation.detail@ == explanation_detail(*event, value_text@),
        explanation.evidence@ == match evidence {
            Some(text) => text@,
            None => missing_evidence_text(),
        },
        explanation.action@ == explanation_action(event.reason),
{
    let label = signal_label(event.kind);
    let mut headline = String::new();
    match event.severity {
        AlertSeverity::Critical => {
            push_str(&mut headline, "Critical ");
            push_str(&mut headline, label);
            push_str(&mut headline, " alert");
        },
        AlertSeverity::Warning => {
            push_str(&mut headline, label);
            push_str(&mut headline, " warning alert");
        },
    }
    let mut detail = "The ".to_owned();
    push_str(&mut detail, label);
    push_str(&mut detail, " signal reached ");
    push_str(&mut detail, value_text);
    match event.decision {
        AlertDecision::Notify => push_str(
            &mut detail,
            "%, so the active alert policy notified you.",
        ),
        AlertDecision::Suppressed => push_str(
            &mut detail,
            "%, but the routine warning was suppressed by the current alert policy.",
        ),
    }
    let evidence = match evidence {
        Some(text) => text.to_owned(),
        None => "No matching performance snapshot was available for this alert.".to_owned(),
    };
    let action = match event.reason {
        AlertEventReason::CriticalOverride => "Critical events remain visible regardless of routine warning preferences.".to_owned(),
        AlertEventReason::Snoozed => "The routine warning was snoozed; review the event if the underlying condition persists.".to_owned(),
        AlertEventReason::Dismissed => "The routine warning was dismissed; review the history if the condition returns.".to_owned(),
        AlertEventReason::SnoozeExpired => "The snooze period had expired, so the routine warning returned to the active policy.".to_owned(),
        AlertEventReason::ActivePolicy => "The active alert policy determined that this event should be recorded and handled according to its decision.".to_owned(),
    };
    proof {
        assert(headline@ =~= explanation_headline(*event));
        assert(detail@ =~= explanation_detail(*event, value_text@));
    }
    AlertExplanation { headline, detail, evidence, action }
}

} // verus!
