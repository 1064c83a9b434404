//! Alert events and the bounded history that keeps the newest of them.

use vstd::prelude::*;
use crate::alerts::{AlertDecision, AlertPolicy, AlertSeverity, AlertState, alert_decision_spec};
use crate::health::{HealthLevel, SignalKind};

verus! {

/// The number of events a history keeps unless told otherwise.
pub const DEFAULT_ALERT_HISTORY_LIMIT: usize = 100;

#[derive(Debug, Clone, Copy, PartialEq, Eq, Structural)]
pub enum AlertEventReason {
    ActivePolicy,
    Snoozed,
    Dismissed,
    SnoozeExpired,
    CriticalOverride,
}

/// One recorded alert: when it happened, what it was about, and what the
/// alert policy decided and why. The measured value and the process evidence
/// travel beside the event in the application layer.
#[derive(Debug, Clone, Copy, PartialEq, Eq, Structural)]
pub struct AlertEvent {
    pub timestamp_ms: u128,
    pub performance_timestamp_ms: Option<u128>,
    pub kind: SignalKind,
    pub severity: AlertSeverity,
    pub decision: AlertDecision,
    pub reason: AlertEventReason,
}

/// Why the alert policy reached its decision: critical alerts override the
/// policy; otherwise the reason names the state and whether a snooze has expired.
pub open spec fn event_reason_spec(
    state: AlertState,
    severity: AlertSeverity,
    now_ms: u128,
) -> AlertEventReason {
    if severity == AlertSeverity::Critical {
        AlertEventReason::CriticalOverride
    } else {
        match state {
            AlertState::Active => AlertEventReason::ActivePolicy,
            AlertState::Dismissed => AlertEventReason::Dismissed,
            AlertState::Snoozed { until_ms } => if now_ms < until_ms {
                AlertEventReason::Snoozed
            } else {
                AlertEventReason::SnoozeExpired
            },
        }
    }
}

pub fn event_reason(state: AlertState, severity: AlertSeverity, now_ms: u128) -> (reason:
    AlertEventReason)
    ensures
        reason == event_reason_spec(state, severity, now_ms),
{
    if severity == AlertSeverity::Critical {
        return AlertEventReason::CriticalOverride;
    }
    match state {
        AlertState::Active => AlertEventReason::ActivePolicy,
        AlertState::Dismissed => AlertEventReason::Dismissed,
        AlertState::Snoozed { until_ms } if now_ms < until_ms => AlertEventReason::Snoozed,
        AlertState::Snoozed { .. } => AlertEventReason::SnoozeExpired,
    }
}

/// The severity an alert of this health level has, if it is an alert at all.
pub open spec fn severity_of_level(level: HealthLevel) -> Option<AlertSeverity> {
    match level {
        HealthLevel::Healthy => None,
        HealthLevel::Warning => Some(AlertSeverity::Warning),
        HealthLevel::Critical => Some(AlertSeverity::Critical),
    }
}

/// The event for a signal at a health level: none for a healthy signal;
/// otherwise an event of the matching severity whose reason is derived from
/// the policy state at `timestamp_ms`.
pub fn create_event(
    timestamp_ms: u128,
    kind: SignalKind,
    level: HealthLevel,
    state: AlertState,
    decision: AlertDecision,
) -> (event: Option<AlertEvent>)
    ensures
        event is None <==> level == HealthLevel::Healthy,
        event matches Some(e) ==> {
            &&& Some(e.severity) == severity_of_level(level)
            &&& e.timestamp_ms == timestamp_ms
            &&& e.performance_timestamp_ms is None
            &&& e.kind == kind
            &&& e.decision == decision
            &&& e.reason == event_reason_spec(state, e.severity, timestamp_ms)
        },
{
    let severity = match level {
        HealthLevel::Healthy => return None,
        HealthLevel::Warning => AlertSeverity::Warning,
        HealthLevel::Critical => AlertSeverity::Critical,
    };
    Some(
        AlertEvent {
            timestamp_ms,
            performance_timestamp_ms: None,
            kind,
            severity,
            decision,
            reason: event_reason(state, severity, timestamp_ms),
        },
    )
}

/// The decision for a signal at a health level: none for a healthy signal;
/// otherwise the alert policy's decision for an alert of the matching
/// severity in state `state` at `now_ms`.
pub fn alert_decision(kind: SignalKind, level: HealthLevel, state: AlertState, now_ms: u128) -> (decision:
    Option<AlertDecision>)
    ensures
        match severity_of_level(level) {
            Some(severity) => decision == Some(alert_decision_spec(severity, state, now_ms)),
            None => decision is None,
        },
{
    let severity = match level {
        HealthLevel::Healthy => return None,
        HealthLevel::Warning => AlertSeverity::Warning,
        HealthLevel::Critical => AlertSeverity::Critical,
    };
    Some(AlertPolicy { severity, state }.decision(now_ms))
}

/// The reason recorded for an alert is consistent with the policy's decision:
/// a warning is suppressed exactly when its reason is `Snoozed` or `Dismissed`,
/// and a critical alert always carries the override reason and is shown.
pub proof fn lemma_reason_matches_decision(state: AlertState, severity: AlertSeverity, now_ms: u128)
    ensures
        (alert_decision_spec(severity, state, now_ms) == AlertDecision::Suppressed) <==> (
        event_reason_spec(state, severity, now_ms) == AlertEventReason::Snoozed
            || event_reason_spec(state, severity, now_ms) == AlertEventReason::Dismissed),
        severity == AlertSeverity::Critical ==> event_reason_spec(state, severity, now_ms)
            == AlertEventReason::CriticalOverride,
{
}

/// The events kept after recording `event`: nothing changes when the limit is
/// zero; otherwise the event is appended and only the newest `limit` events stay.
pub open spec fn recorded_events<E>(events: Seq<E>, limit: usize, event: E) -> Seq<E> {
    if limit == 0 {
        events
    } else {
        let all = events.push(event);
        if all.len() > limit {
            all.skip(all.len() - limit)
        } else {
            all
        }
    }
}

/// A history that keeps at most `limit` of the newest events. The events are
/// alert events together with whatever the application records beside them.
#[derive(Debug, Clone, PartialEq)]
pub struct AlertEventHistory<E> {
    limit: usize,
    events: Vec<E>,
}

impl<E> AlertEventHistory<E> {
    pub closed spec fn limit_spec(&self) -> usize {
        self.limit
    }

    pub closed spec fn events_spec(&self) -> Seq<E> {
        self.events@
    }

    pub fn new(limit: usize) -> (history: Self)
        ensures
            history.limit_spec() == limit,
            history.events_spec() == Seq::<E>::empty(),
    {
        AlertEventHistory { limit, events: Vec::new() }
    }

    /// A history holding exactly the given limit and events, as stored.
    pub fn from_parts(limit: usize, events: Vec<E>) -> (history: Self)
        ensures
            history.limit_spec() == limit,
            history.events_spec() == events@,
    {
        AlertEventHistory { limit, events }
    }

    pub fn limit(&self) -> (limit: usize)
        ensures
            limit == self.limit_spec(),
    {
        self.limit
    }

    pub fn events(&self) -> (events: &[E])
        ensures
            events@ == self.events_spec(),
    {
        self.events.as_slice()
    }

    pub fn record(&mut self, event: E)
        ensures
            final(self).limit_spec() == old(self).limit_spec(),
            final(self).events_spec() == recorded_events(
                old(self).events_spec(),
                old(self).limit_spec(),
                event,
            ),
    {
        if self.limit == 0 {
            return;
        }
        self.events.push(event);
        let len = self.events.len();
        if len > self.limit {
            let newest = self.events.split_off(len - self.limit);
            self.events = newest;
        }
    }

    pub fn clear(&mut self)
        ensures
            final(self).limit_spec() == old(self).limit_spec(),
            final(self).events_spec() == Seq::<E>::empty(),
    {
        self.events.clear();
    }
}

impl<E> Default for AlertEventHistory<E> {
    fn default() -> (history: Self)
        ensures
            history.limit_spec() == DEFAULT_ALERT_HISTORY_LIMIT,
            history.events_spec() == Seq::<E>::empty(),
    {
        Self::new(DEFAULT_ALERT_HISTORY_LIMIT)
    }
}

/// Recording never leaves more than `limit` events, provided the history
/// held no more than that before, and it never changes the limit.
pub proof fn lemma_history_stays_bounded<E>(events: Seq<E>, limit: usize, event: E)
    requires
        events.len() <= limit,
    ensures
        recorded_events(events, limit, event).len() <= limit,
{
}

/// With a positive limit, a recorded event is always kept as the newest one,
/// and the events kept are the newest of the earlier ones, in their order.
pub proof fn lemma_history_keeps_newest<E>(events: Seq<E>, limit: usize, event: E)
    requires
        limit > 0,
    ensures
        recorded_events(events, limit, event).last() == event,
        recorded_events(events, limit, event).len() == if events.len() + 1 > limit {
            limit as int
        } else {
            events.len() + 1int
        },
        recorded_events(events, limit, event) =~= events.push(event).skip(
            events.push(event).len() - recorded_events(events, limit, event).len(),
        ),
{
}

/// A history with limit zero never retains anything.
pub proof fn lemma_zero_limit_retains_nothing<E>(event: E)
    ensures
        recorded_events(Seq::empty(), 0, event) == Seq::<E>::empty(),
{
}

} // verus!
