//! Alert policies: how a user's dismiss and snooze choices affect whether a
//! warning is shown. Critical alerts are never suppressed.

use vstd::prelude::*;

verus! {

#[derive(Debug, Clone, Copy, PartialEq, Eq, Structural)]
pub enum AlertSeverity {
    Warning,
    Critical,
}

#[derive(Debug, Clone, Copy, PartialEq, Eq, Structural)]
pub enum AlertState {
    Active,
    Dismissed,
    Snoozed { until_ms: u128 },
}

#[derive(Debug, Clone, Copy, PartialEq, Eq, Structural)]
pub enum AlertDecision {
    Notify,
    Suppressed,
}

#[derive(Debug, Clone, Copy, PartialEq, Eq, Structural)]
pub struct AlertPolicy {
    pub severity: AlertSeverity,
    pub state: AlertState,
}

/// Whether an alert of this severity in this state is shown at `now_ms`:
/// critical alerts always are; a warning is hidden while dismissed or while
/// its snooze has not yet expired.
pub open spec fn alert_decision_spec(
    severity: AlertSeverity,
    state: AlertState,
    now_ms: u128,
) -> AlertDecision {
    if severity == AlertSeverity::Critical {
        AlertDecision::Notify
    } else {
        match state {
            AlertState::Active => AlertDecision::Notify,
            AlertState::Dismissed => AlertDecision::Suppressed,
            AlertState::Snoozed { until_ms } => if now_ms < until_ms {
                AlertDecision::Suppressed
            } else {
                AlertDecision::Notify
            },
        }
    }
}

impl AlertPolicy {
    pub fn new(severity: AlertSeverity) -> (policy: Self)
        ensures
            policy.severity == severity,
            policy.state == AlertState::Active,
    {
        AlertPolicy { severity, state: AlertState::Active }
    }

    pub fn dismiss(&mut self)
        ensures
            final(self).severity == old(self).severity,
            final(self).state == AlertState::Dismissed,
    {
        self.state = AlertState::Dismissed;
    }

    pub fn snooze_until(&mut self, until_ms: u128)
        ensures
            final(self).severity == old(self).severity,
            final(self).state == (AlertState::Snoozed { until_ms }),
    {
        self.state = AlertState::Snoozed { until_ms };
    }

    pub fn restore(&mut self)
        ensures
            final(self).severity == old(self).severity,
            final(self).state == AlertState::Active,
    {
        self.state = AlertState::Active;
    }

    pub fn decision(&self, now_ms: u128) -> (decision: AlertDecision)
        ensures
            decision == alert_decision_spec(self.severity, self.state, now_ms),
    {
        if self.severity == AlertSeverity::Critical {
            return AlertDecision::Notify;
        }
        match self.state {
            AlertState::Active => AlertDecision::Notify,
            AlertState::Dismissed => AlertDecision::Suppressed,
            AlertState::Snoozed { until_ms } if now_ms < until_ms => AlertDecision::Suppressed,
            AlertState::Snoozed { .. } => AlertDecision::Notify,
        }
    }
}

/// A critical alert is shown whatever the user did to it and whenever it is asked.
pub proof fn lemma_critical_alerts_always_notify(state: AlertState, now_ms: u128)
    ensures
        alert_decision_spec(AlertSeverity::Critical, state, now_ms) == AlertDecision::Notify,
{
}

/// After `restore`, a policy notifies again at every time.
pub proof fn lemma_restored_policy_notifies(severity: AlertSeverity, now_ms: u128)
    ensures
        alert_decision_spec(severity, AlertState::Active, now_ms) == AlertDecision::Notify,
{
}

/// A snoozed warning is suppressed exactly before its snooze time and shown from then on.
pub proof fn lemma_snooze_expires_at_deadline(until_ms: u128, now_ms: u128)
    ensures
        alert_decision_spec(AlertSeverity::Warning, AlertState::Snoozed { until_ms }, now_ms)
            == (if now_ms < until_ms {
            AlertDecision::Suppressed
        } else {
            AlertDecision::Notify
        }),
{
}

/// Once a snoozed warning is shown again, it stays shown at every later time.
pub proof fn lemma_snooze_expiry_is_permanent(
    severity: AlertSeverity,
    state: AlertState,
    earlier_ms: u128,
    later_ms: u128,
)
    requires
        earlier_ms <= later_ms,
        !(state is Dismissed),
        alert_decision_spec(severity, state, earlier_ms) == AlertDecision::Notify,
    ensures
        alert_decision_spec(severity, state, later_ms) == AlertDecision::Notify,
{
}

} // verus!
