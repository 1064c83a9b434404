//! The alert action pipeline: preview, confirmation, authorization,
//! eligibility and execution are separate boundaries. Previews are inert,
//! a confirmation records intent only, and the one executable action is a
//! bounded, non-privileged recheck of the alert's condition.

use vstd::prelude::*;
use crate::alert_history::{AlertEvent, AlertEventReason};
use crate::alerts::AlertSeverity;
use crate::health::SignalKind;
use crate::text::{concat_str, str_eq};

verus! {

#[derive(Debug, Clone, PartialEq, Eq)]
pub struct AlertActionPreview {
    pub id: String,
    pub title: String,
    pub reason: String,
    pub scope: String,
    pub safety: String,
    pub requires_privilege: bool,
    pub executable: bool,
}

#[derive(Debug, Clone, PartialEq, Eq)]
pub struct AlertActionConfirmation {
    pub action_id: String,
    pub title: String,
    pub confirmed: bool,
    pub authorized: bool,
    pub executable: bool,
    pub requires_privilege: bool,
    pub message: String,
}

#[derive(Debug, Clone, PartialEq, Eq)]
pub struct AlertActionAuthorization {
    pub action_id: String,
    pub authorized: bool,
    pub requires_privilege: bool,
    pub message: String,
}

#[derive(Debug, Clone, PartialEq, Eq)]
pub struct AlertActionEligibility {
    pub action_id: String,
    pub confirmed: bool,
    pub authorized: bool,
    pub executable: bool,
    pub eligible: bool,
    pub requires_privilege: bool,
    pub message: String,
}

#[derive(Debug, Clone, PartialEq, Eq)]
pub struct AlertActionExecutionEligibility {
    pub action_id: String,
    pub eligible: bool,
    pub authorized: bool,
    pub executable: bool,
    pub requires_privilege: bool,
    pub message: String,
}

#[derive(Debug, Clone, PartialEq, Eq)]
pub struct AlertActionExecutionRequest {
    pub action_id: String,
}

#[derive(Debug, Clone, PartialEq, Eq)]
pub struct AlertActionExecutionResult {
    pub action_id: String,
    pub executed: bool,
    pub message: String,
}

// ---------------------------------------------------------------- previews
/// The identifier, title, reason and scope of a preview.
pub type PreviewText = (Seq<char>, Seq<char>, Seq<char>, Seq<char>);

pub open spec fn preview_text(preview: AlertActionPreview) -> PreviewText {
    (preview.id@, preview.title@, preview.reason@, preview.scope@)
}

pub open spec fn preview_safety_text() -> Seq<char> {
    "Preview only — no system changes are performed."@
}

/// A preview that cannot run anything and needs no privilege.
pub open spec fn is_inert_preview(preview: AlertActionPreview) -> bool {
    &&& preview.safety@ == preview_safety_text()
    &&& !preview.requires_privilege
    &&& !preview.executable
}

/// The two previews offered for each kind of signal.
pub open spec fn kind_previews(kind: SignalKind) -> Seq<PreviewText> {
    match kind {
        SignalKind::Cpu => seq![
            (
                "review-processes"@,
                "Review process contributors"@,
                "Inspect the bounded process evidence already recorded for this alert."@,
                "Current alert context only"@,
            ),
            (
                "recheck-condition"@,
                "Recheck the CPU condition"@,
                "Verify whether elevated CPU usage persists across subsequent monitoring samples."@,
                "Current system observation"@,
            ),
        ],
        SignalKind::Memory => seq![
            (
                "review-processes"@,
                "Review process contributors"@,
                "Inspect the bounded process evidence already recorded for this alert."@,
                "Current alert context only"@,
            ),
            (
                "recheck-condition"@,
                "Recheck the memory condition"@,
                "Verify whether elevated memory usage persists across subsequent monitoring samples."@,
                "Current system observation"@,
            ),
        ],
        SignalKind::Swap => seq![
            (
                "review-memory-pressure"@,
                "Review memory pressure"@,
                "Inspect memory and swap usage before considering any user-controlled change."@,
                "Current system observation"@,
            ),
            (
                "recheck-condition"@,
                "Recheck the swap condition"@,
                "Verify whether elevated swap usage persists after memory pressure changes."@,
                "Current system observation"@,
            ),
        ],
        SignalKind::Storage => seq![
            (
                "review-storage"@,
                "Review storage usage"@,
                "Inspect filesystem utilization and recent disk activity before changing data."@,
                "Filesystem observation"@,
            ),
            (
                "verify-backups"@,
                "Verify data safeguards"@,
                "Confirm backups or other safeguards before considering deletion or modification."@,
                "User-controlled data review"@,
            ),
        ],
        SignalKind::Network => seq![
            (
                "review-network"@,
                "Review network diagnostics"@,
                "Inspect the affected connection, interface, or service using trusted diagnostics."@,
                "Affected network context"@,
            ),
            (
                "recheck-condition"@,
                "Recheck the network condition"@,
                "Verify whether the connectivity or activity condition persists."@,
                "Current system observation"@,
            ),
        ],
    }
}

pub open spec fn critical_preview() -> PreviewText {
    (
        "verify-critical-condition"@,
        "Verify the critical condition"@,
        "Confirm the underlying condition before considering any change."@,
        "Critical alert context"@,
    )
}

pub open spec fn suppressed_preview() -> PreviewText {
    (
        "recheck-suppressed-warning"@,
        "Recheck the suppressed warning"@,
        "Review the condition again if it persists after the warning was snoozed or dismissed."@,
        "Previously suppressed alert"@,
    )
}

/// The warning was snoozed or dismissed by the user.
pub open spec fn was_suppressed(reason: AlertEventReason) -> bool {
    reason == AlertEventReason::Snoozed || reason == AlertEventReason::Dismissed
}

/// The previews for an event: a critical alert starts with verifying the
/// condition, then the two previews for its kind, and a snoozed or dismissed
/// warning ends with rechecking it.
pub open spec fn expected_previews(event: AlertEvent) -> Seq<PreviewText> {
    let base = kind_previews(event.kind);
    let first = if event.severity == AlertSeverity::Critical {
        seq![critical_preview()] + base
    } else {
        base
    };
    if was_suppressed(event.reason) {
        first.push(suppressed_preview())
    } else {
        first
    }
}

fn preview(id: &str, title: &str, reason: &str, scope: &str) -> (p: AlertActionPreview)
    ensures
        preview_text(p) == (id@, title@, reason@, scope@),
        is_inert_preview(p),
{
    AlertActionPreview {
        id: id.to_owned(),
        title: title.to_owned(),
        reason: reason.to_owned(),
        scope: scope.to_owned(),
        safety: "Preview only — no system changes are performed.".to_owned(),
        requires_privilege: false,
        executable: false,
    }
}

fn kind_preview_list(kind: SignalKind) -> (previews: Vec<AlertActionPreview>)
    ensures
        previews@.map_values(|p: AlertActionPreview| preview_text(p)) == kind_previews(kind),
        forall|i: int| 0 <= i < previews@.len() ==> is_inert_preview(#[trigger] previews@[i]),
{
    let previews = match kind {
        SignalKind::Cpu => vec![
            preview(
                "review-processes",
                "Review process contributors",
                "Inspect the bounded process evidence already recorded for this alert.",
                "Current alert context only",
            ),
            preview(
                "recheck-condition",
                "Recheck the CPU condition",
                "Verify whether elevated CPU usage persists across subsequent monitoring samples.",
                "Current system observation",
            ),
        ],
        SignalKind::Memory => vec![
            preview(
                "review-processes",
                "Review process contributors",
                "Inspect the bounded process evidence already recorded for this alert.",
                "Current alert context only",
            ),
            preview(
                "recheck-condition",
                "Recheck the memory condition",
                "Verify whether elevated memory usage persists across subsequent monitoring samples.",
                "Current system observation",
            ),
        ],
        SignalKind::Swap => vec![
            preview(
                "review-memory-pressure",
                "Review memory pressure",
                "Inspect memory and swap usage before considering any user-controlled change.",
                "Current system observation",
            ),
            preview(
                "recheck-condition",
                "Recheck the swap condition",
                "Verify whether elevated swap usage persists after memory pressure changes.",
                "Current system observation",
            ),
        ],
        SignalKind::Storage => vec![
            preview(
                "review-storage",
                "Review storage usage",
                "Inspect filesystem utilization and recent disk activity before changing data.",
                "Filesystem observation",
            ),
            preview(
                "verify-backups",
                "Verify data safeguards",
                "Confirm backups or other safeguards before considering deletion or modification.",
                "User-controlled data review",
            ),
        ],
        SignalKind::Network => vec![
            preview(
                "review-network",
                "Review network diagnostics",
                "Inspect the affected connection, interface, or service using trusted diagnostics.",
                "Affected network context",
            ),
            preview(
                "recheck-condition",
                "Recheck the network condition",
                "Verify whether the connectivity or activity condition persists.",
                "Current system observation",
            ),
        ],
    };
    assert(previews@.map_values(|p: AlertActionPreview| preview_text(p)) =~= kind_previews(kind));
    previews
}

/// Describe bounded, user-controlled actions that could be considered for an
/// alert. Every preview is inert: none is executable or privileged.
pub fn preview_alert_actions(event: &AlertEvent) -> (previews: Vec<AlertActionPreview>)
    ensures
        previews@.map_values(|p: AlertActionPreview| preview_text(p)) == expected_previews(*event),
        forall|i: int| 0 <= i < previews@.len() ==> is_inert_preview(#[trigger] previews@[i]),
        event.reason == AlertEventReason::Snoozed || event.reason == AlertEventReason::Dismissed
            ==> previews@.len() > 0 && previews@.last().id@ == "recheck-suppressed-warning"@,
        forall|i: int|
            0 <= i < previews@.len() && (#[trigger] previews@[i]).id@ == "recheck-suppressed-warning"@
                ==> i == previews@.len() - 1 && (event.reason == AlertEventReason::Snoozed
                || event.reason == AlertEventReason::Dismissed),
{
    let mut previews = kind_preview_list(event.kind);
    let ghost base = previews@;
    if event.severity == AlertSeverity::Critical {
        previews.insert(
            0,
            preview(
                "verify-critical-condition",
                "Verify the critical condition",
                "Confirm the underlying condition before considering any change.",
                "Critical alert context",
            ),
        );
    }
    let ghost first = previews@;
    assert(first.map_values(|p: AlertActionPreview| preview_text(p)) =~= (if event.severity
        == AlertSeverity::Critical {
        seq![critical_preview()] + kind_previews(event.kind)
    } else {
        kind_previews(event.kind)
    })) by {
        if event.severity == AlertSeverity::Critical {
            assert(forall|i: int|
                0 <= i < base.len() ==> #[trigger] first[i + 1] == base[i]);
        }
    }
    if matches!(event.reason, AlertEventReason::Snoozed | AlertEventReason::Dismissed) {
        previews.push(
            preview(
                "recheck-suppressed-warning",
                "Recheck the suppressed warning",
                "Review the condition again if it persists after the warning was snoozed or dismissed.",
                "Previously suppressed alert",
            ),
        );
    }
    assert(previews@.map_values(|p: AlertActionPreview| preview_text(p)) =~= expected_previews(
        *event,
    ));
    proof {
        lemma_suppressed_warnings_are_rechecked(*event);
        let e = expected_previews(*event);
        assert(e.len() == previews@.len());
        assert forall|i: int| 0 <= i < previews@.len() implies (#[trigger] previews@[i]).id@ == e[i].0 by {
            assert(e[i] == preview_text(previews@[i]));
        }
    }
    previews
}

/// A snoozed or dismissed warning always ends with the preview that rechecks
/// it, and that preview appears for no other event and nowhere else in the list.
pub proof fn lemma_suppressed_warnings_are_rechecked(event: AlertEvent)
    ensures
        expected_previews(event).len() > 0,
        event.reason == AlertEventReason::Snoozed || event.reason == AlertEventReason::Dismissed
            ==> expected_previews(event).last().0 == "recheck-suppressed-warning"@,
        forall|i: int|
            0 <= i < expected_previews(event).len() && (#[trigger] expected_previews(event)[i]).0
                == "recheck-suppressed-warning"@ ==> i == expected_previews(event).len() - 1 && (
            event.reason == AlertEventReason::Snoozed || event.reason == AlertEventReason::Dismissed),
{
    reveal_strlit("recheck-suppressed-warning");
    reveal_strlit("review-processes");
    reveal_strlit("recheck-condition");
    reveal_strlit("review-memory-pressure");
    reveal_strlit("review-storage");
    reveal_strlit("verify-backups");
    reveal_strlit("review-network");
    reveal_strlit("verify-critical-condition");
    let p = expected_previews(event);
    let base = kind_previews(event.kind);
    assert(base.len() == 2);
    assert("recheck-suppressed-warning"@.len() == 26);
    assert(base[0].0.len() != 26 && base[1].0.len() != 26) by {
        match event.kind {
            SignalKind::Cpu => {
                assert(base[0].0 == "review-processes"@);
                assert(base[1].0 == "recheck-condition"@);
            },
            SignalKind::Memory => {
                assert(base[0].0 == "review-processes"@);
                assert(base[1].0 == "recheck-condition"@);
            },
            SignalKind::Swap => {
                assert(base[0].0 == "review-memory-pressure"@);
                assert(base[1].0 == "recheck-condition"@);
            },
            SignalKind::Storage => {
                assert(base[0].0 == "review-storage"@);
                assert(base[1].0 == "verify-backups"@);
            },
            SignalKind::Network => {
                assert(base[0].0 == "review-network"@);
                assert(base[1].0 == "recheck-condition"@);
            },
        }
    }
    assert(critical_preview().0 != "recheck-suppressed-warning"@);
    let first = if event.severity == AlertSeverity::Critical {
        seq![critical_preview()] + base
    } else {
        base
    };
    assert forall|i: int| 0 <= i < first.len() implies (#[trigger] first[i]).0 != "recheck-suppressed-warning"@ by {
        if event.severity == AlertSeverity::Critical && i > 0 {
            assert(first[i] == base[i - 1]);
        }
    }
    if was_suppressed(event.reason) {
        assert(p == first.push(suppressed_preview()));
        assert forall|i: int| 0 <= i < p.len() - 1 implies p[i] == first[i] by {}
    } else {
        assert(p == first);
    }
}

// ------------------------------------------------------------ confirmation
/// The first preview in the list with the given identifier.
pub open spec fn first_with_id(previews: Seq<PreviewText>, id: Seq<char>) -> Option<PreviewText>
    decreases previews.len(),
{
    if previews.len() == 0 {
        None
    } else if previews[0].0 == id {
        Some(previews[0])
    } else {
        first_with_id(previews.drop_first(), id)
    }
}

proof fn lemma_first_with_id_skip(previews: Seq<PreviewText>, id: Seq<char>, i: int)
    requires
        0 <= i <= previews.len(),
        forall|j: int| 0 <= j < i ==> (#[trigger] previews[j]).0 != id,
    ensures
        first_with_id(previews, id) == first_with_id(previews.skip(i), id),
    decreases i,
{
    if i > 0 {
        lemma_first_with_id_skip(previews.drop_first(), id, i - 1);
        assert(previews.drop_first().skip(i - 1) =~= previews.skip(i));
    } else {
        assert(previews.skip(0) =~= previews);
    }
}

pub open spec fn confirmation_message() -> Seq<char> {
    "Intent confirmed for this bounded action preview. No system changes were authorized or performed."@
}

/// Record explicit user intent for a known preview without authorizing
/// execution: the confirmation names the preview, is confirmed, and is
/// neither authorized, executable nor privileged. An identifier that no
/// preview of the event carries is rejected.
pub fn confirm_alert_action(event: &AlertEvent, action_id: &str) -> (result: Result<
    AlertActionConfirmation,
    String,
>)
    ensures
        match first_with_id(expected_previews(*event), action_id@) {
            Some(p) => result matches Ok(c) && {
                &&& c.action_id@ == p.0
                &&& c.title@ == p.1
                &&& c.confirmed
                &&& !c.authorized
                &&& !c.executable
                &&& !c.requires_privilege
                &&& c.message@ == confirmation_message()
            },
            None => result matches Err(e) && e@ == "unknown alert action preview: "@ + action_id@,
        },
{
    let previews = preview_alert_actions(event);
    let ghost texts = previews@.map_values(|p: AlertActionPreview| preview_text(p));
    let mut i: usize = 0;
    while i < previews.len()
        invariant
            texts == previews@.map_values(|p: AlertActionPreview| preview_text(p)),
            texts == expected_previews(*event),
            i <= previews@.len(),
            forall|j: int| 0 <= j < i ==> (#[trigger] texts[j]).0 != action_id@,
        decreases previews@.len() - i,
    {
        assert(texts[i as int] == preview_text(previews@[i as int]));
        if str_eq(previews[i].id.as_str(), action_id) {
            proof {
                lemma_first_with_id_skip(texts, action_id@, i as int);
                assert(texts.skip(i as int)[0] == texts[i as int]);
            }
            return Ok(
                AlertActionConfirmation {
                    action_id: previews[i].id.clone(),
                    title: previews[i].title.clone(),
                    confirmed: true,
                    authorized: false,
                    executable: false,
                    requires_privilege: false,
                    message: "Intent confirmed for this bounded action preview. No system changes were authorized or performed.".to_owned(),
                },
            );
        }
        i = i + 1;
    }
    proof {
        lemma_first_with_id_skip(texts, action_id@, texts.len() as int);
    }
    Err(concat_str("unknown alert action preview: ", action_id))
}

// ----------------------------------------------------------- authorization
/// Why an authorization request is refused, if it is: the identifiers must
/// match, the action must be confirmed, and it must not need privilege.
pub open spec fn authorization_refusal(
    confirmation: AlertActionConfirmation,
    action_id: Seq<char>,
) -> Option<Seq<char>> {
    if confirmation.action_id@ != action_id {
        Some("authorization action does not match confirmation: "@ + action_id)
    } else if !confirmation.confirmed {
        Some("explicit confirmation is required before authorization"@)
    } else if confirmation.requires_privilege {
        Some("privileged actions cannot be authorized on the current non-privileged path"@)
    } else {
        None
    }
}

pub open spec fn authorization_message() -> Seq<char> {
    "Action authorization recorded. No system changes were performed."@
}

/// Record explicit authorization for one already-confirmed action. It never
/// performs the action and never changes its scope or privilege.
pub fn authorize_alert_action(
    confirmation: &AlertActionConfirmation,
    action_id: &str,
) -> (result: Result<AlertActionAuthorization, String>)
    ensures
        match authorization_refusal(*confirmation, action_id@) {
            Some(reason) => result matches Err(e) && e@ == reason,
            None => result matches Ok(a) && {
                &&& a.action_id@ == confirmation.action_id@
                &&& a.authorized
                &&& a.requires_privilege == confirmation.requires_privilege
                &&& a.message@ == authorization_message()
            },
        },
{
    if !str_eq(confirmation.action_id.as_str(), action_id) {
        return Err(concat_str("authorization action does not match confirmation: ", action_id));
    }
    if !confirmation.confirmed {
        return Err("explicit confirmation is required before authorization".to_owned());
    }
    if confirmation.requires_privilege {
        return Err(
            "privileged actions cannot be authorized on the current non-privileged path".to_owned(),
        );
    }
    Ok(
        AlertActionAuthorization {
            action_id: confirmation.action_id.clone(),
            authorized: true,
            requires_privilege: confirmation.requires_privilege,
            message: "Action authorization recorded. No system changes were performed.".to_owned(),
        },
    )
}

// ------------------------------------------------------------- eligibility
/// A confirmed action satisfies the execution boundary when it is the action
/// that was previewed, confirmed, authorized, executable, and unprivileged.
pub open spec fn action_is_eligible(
    preview: AlertActionPreview,
    confirmation: AlertActionConfirmation,
) -> bool {
    &&& preview.id@ == confirmation.action_id@
    &&& confirmation.confirmed
    &&& confirmation.authorized
    &&& confirmation.executable
    &&& !preview.requires_privilege
    &&& !confirmation.requires_privilege
}

/// The explanation given for an eligibility decision.
pub open spec fn eligibility_message(
    preview: AlertActionPreview,
    confirmation: AlertActionConfirmation,
) -> Seq<char> {
    if preview.id@ != confirmation.action_id@ {
        "Action preview and confirmation do not refer to the same action."@
    } else if !confirmation.confirmed {
        "Explicit user confirmation is required before execution can be considered."@
    } else if !confirmation.authorized {
        "The action is confirmed but not authorized for execution."@
    } else if !confirmation.executable || preview.executable {
        "The action is not executable under the current safety contract."@
    } else if preview.requires_privilege || confirmation.requires_privilege {
        "Privileged actions are not eligible under the Step 65 execution boundary."@
    } else {
        "Action satisfies the Step 65 eligibility contract; execution remains a separate boundary."@
    }
}

/// Determine whether a confirmed action satisfies the execution boundary.
/// No action is authorized or executed here.
pub fn evaluate_action_eligibility(
    preview: &AlertActionPreview,
    confirmation: &AlertActionConfirmation,
) -> (result: AlertActionEligibility)
    ensures
        result.action_id@ == confirmation.action_id@,
        result.confirmed == confirmation.confirmed,
        result.authorized == confirmation.authorized,
        result.executable == confirmation.executable,
        result.eligible == action_is_eligible(*preview, *confirmation),
        result.requires_privilege == (preview.requires_privilege
            || confirmation.requires_privilege),
        result.message@ == eligibility_message(*preview, *confirmation),
        result.eligible ==> !result.requires_privilege,
{
    let matches_action = preview.id == confirmation.action_id;
    let eligible = matches_action && confirmation.confirmed && confirmation.authorized
        && confirmation.executable && !preview.requires_privilege
        && !confirmation.requires_privilege;

    let message = if !matches_action {
        "Action preview and confirmation do not refer to the same action.".to_owned()
    } else if !confirmation.confirmed {
        "Explicit user confirmation is required before execution can be considered.".to_owned()
    } else if !confirmation.authorized {
        "The action is confirmed but not authorized for execution.".to_owned()
    } else if !confirmation.executable || preview.executable {
        "The action is not executable under the current safety contract.".to_owned()
    } else if preview.requires_privilege || confirmation.requires_privilege {
        "Privileged actions are not eligible under the Step 65 execution boundary.".to_owned()
    } else {
        "Action satisfies the Step 65 eligibility contract; execution remains a separate boundary.".to_owned()
    };

    AlertActionEligibility {
        action_id: confirmation.action_id.clone(),
        confirmed: confirmation.confirmed,
        authorized: confirmation.authorized,
        executable: confirmation.executable,
        eligible,
        requires_privilege: preview.requires_privilege || confirmation.requires_privilege,
        message,
    }
}

// --------------------------------------------------------------- execution
/// The one action the execution boundary can run.
pub open spec fn recheck_condition_id() -> Seq<char> {
    "recheck-condition"@
}

/// A confirmation may reach execution only when it is confirmed, authorized,
/// executable, and unprivileged.
pub open spec fn execution_eligible(confirmation: AlertActionConfirmation) -> bool {
    &&& confirmation.confirmed
    &&& confirmation.authorized
    &&& confirmation.executable
    &&& !confirmation.requires_privilege
}

pub open spec fn execution_eligibility_message(eligible: bool) -> Seq<char> {
    if eligible {
        "Action satisfies the current execution eligibility checks."@
    } else {
        "Execution is not eligible: explicit confirmation alone does not authorize or enable execution."@
    }
}

/// Establish the execution boundary after explicit confirmation.
pub fn evaluate_execution_eligibility(confirmation: &AlertActionConfirmation) -> (result:
    AlertActionExecutionEligibility)
    ensures
        result.action_id@ == confirmation.action_id@,
        result.eligible == execution_eligible(*confirmation),
        result.authorized == confirmation.authorized,
        result.executable == confirmation.executable,
        result.requires_privilege == confirmation.requires_privilege,
        result.message@ == execution_eligibility_message(execution_eligible(*confirmation)),
{
    let eligible = confirmation.confirmed && confirmation.authorized && confirmation.executable
        && !confirmation.requires_privilege;
    let message = if eligible {
        "Action satisfies the current execution eligibility checks.".to_owned()
    } else {
        "Execution is not eligible: explicit confirmation alone does not authorize or enable execution.".to_owned()
    };
    AlertActionExecutionEligibility {
        action_id: confirmation.action_id.clone(),
        eligible,
        authorized: confirmation.authorized,
        executable: confirmation.executable,
        requires_privilege: confirmation.requires_privilege,
        message,
    }
}

pub open spec fn unsupported_action_message(action_id: Seq<char>) -> Seq<char> {
    "action is not supported by the current execution capability set: "@ + action_id
}

/// The outcome of asking for an execution request: the identifier of the
/// requested action, or why the request is refused, checked in order.
pub open spec fn execution_request_outcome(
    confirmation: AlertActionConfirmation,
    authorization: AlertActionAuthorization,
) -> Result<Seq<char>, Seq<char>> {
    if !confirmation.confirmed {
        Err("execution requires explicit confirmation"@)
    } else if !authorization.authorized {
        Err("execution requires explicit action authorization"@)
    } else if confirmation.action_id@ != authorization.action_id@ {
        Err("authorization does not match the confirmed action"@)
    } else if confirmation.requires_privilege || authorization.requires_privilege {
        Err("privileged actions are not executable on the current path"@)
    } else if confirmation.action_id@ != recheck_condition_id() {
        Err(unsupported_action_message(confirmation.action_id@))
    } else if !execution_eligible(confirmation) {
        Err(execution_eligibility_message(false))
    } else {
        Ok(confirmation.action_id@)
    }
}

pub open spec fn request_view(result: Result<AlertActionExecutionRequest, String>) -> Result<
    Seq<char>,
    Seq<char>,
> {
    match result {
        Ok(request) => Ok(request.action_id@),
        Err(e) => Err(e@),
    }
}

/// Create a request for a known, explicitly allowlisted action. The request
/// carries only the action identifier, never a command, path or executable.
pub fn create_execution_request(
    confirmation: &AlertActionConfirmation,
    authorization: &AlertActionAuthorization,
) -> (result: Result<AlertActionExecutionRequest, String>)
    ensures
        request_view(result) == execution_request_outcome(*confirmation, *authorization),
{
    if !confirmation.confirmed {
        return Err("execution requires explicit confirmation".to_owned());
    }
    if !authorization.authorized {
        return Err("execution requires explicit action authorization".to_owned());
    }
    if confirmation.action_id != authorization.action_id {
        return Err("authorization does not match the confirmed action".to_owned());
    }
    if confirmation.requires_privilege || authorization.requires_privilege {
        return Err("privileged actions are not executable on the current path".to_owned());
    }
    if !str_eq(confirmation.action_id.as_str(), "recheck-condition") {
        return Err(
            concat_str(
                "action is not supported by the current execution capability set: ",
                confirmation.action_id.as_str(),
            ),
        );
    }
    let eligibility = evaluate_execution_eligibility(confirmation);
    if !eligibility.eligible {
        return Err(eligibility.message);
    }
    Ok(AlertActionExecutionRequest { action_id: confirmation.action_id.clone() })
}

pub open spec fn execution_message() -> Seq<char> {
    "Recheck-condition execution completed without privileged system changes."@
}

/// Execute one explicitly allowlisted, non-privileged action: the bounded
/// recheck of the alert's condition. Any other identifier is refused.
pub fn execute_alert_action(request: &AlertActionExecutionRequest) -> (result: Result<
    AlertActionExecutionResult,
    String,
>)
    ensures
        request.action_id@ == recheck_condition_id() ==> (result matches Ok(r) && {
            &&& r.action_id@ == request.action_id@
            &&& r.executed
            &&& r.message@ == execution_message()
        }),
        request.action_id@ != recheck_condition_id() ==> (result matches Err(e) && e@
            == unsupported_action_message(request.action_id@)),
{
    if !str_eq(request.action_id.as_str(), "recheck-condition") {
        return Err(
            concat_str(
                "action is not supported by the current execution capability set: ",
                request.action_id.as_str(),
            ),
        );
    }
    Ok(
        AlertActionExecutionResult {
            action_id: request.action_id.clone(),
            executed: true,
            message: "Recheck-condition execution completed without privileged system changes.".to_owned(),
        },
    )
}

// -------------------------------------------------------------------- laws
/// Confirmation alone never enables execution: a confirmation that is not
/// both authorized and executable (as every confirmation produced by
/// `confirm_alert_action` is) is not eligible, and no execution request is
/// created for it, whatever authorization accompanies it.
pub proof fn lemma_confirmation_alone_never_executes(
    confirmation: AlertActionConfirmation,
    authorization: AlertActionAuthorization,
)
    requires
        !confirmation.authorized || !confirmation.executable,
    ensures
        !execution_eligible(confirmation),
        execution_request_outcome(confirmation, authorization) is Err,
{
}

/// An execution request is only ever created for the allowlisted recheck
/// action, and only when every boundary before it has been passed for that
/// same action.
pub proof fn lemma_requests_pass_every_boundary(
    confirmation: AlertActionConfirmation,
    authorization: AlertActionAuthorization,
)
    requires
        execution_request_outcome(confirmation, authorization) is Ok,
    ensures
        execution_request_outcome(confirmation, authorization) == Ok::<Seq<char>, Seq<char>>(
            recheck_condition_id(),
        ),
        confirmation.confirmed,
        confirmation.authorized,
        confirmation.executable,
        authorization.authorized,
        !confirmation.requires_privilege,
        !authorization.requires_privilege,
        confirmation.action_id@ == authorization.action_id@,
        confirmation.action_id@ == recheck_condition_id(),
{
}

/// A privileged action is never authorized, never eligible, and never
/// turned into an execution request.
pub proof fn lemma_privileged_actions_never_proceed(
    preview: AlertActionPreview,
    confirmation: AlertActionConfirmation,
    authorization: AlertActionAuthorization,
    action_id: Seq<char>,
)
    requires
        confirmation.requires_privilege || authorization.requires_privilege
            || preview.requires_privilege,
    ensures
        confirmation.requires_privilege ==> authorization_refusal(confirmation, action_id) is Some,
        confirmation.requires_privilege ==> !execution_eligible(confirmation),
        preview.requires_privilege ==> !action_is_eligible(preview, confirmation),
        confirmation.requires_privilege ==> !action_is_eligible(preview, confirmation),
        (confirmation.requires_privilege || authorization.requires_privilege)
            ==> execution_request_outcome(confirmation, authorization) is Err,
{
}

/// Authorization is granted only for the confirmed action it names.
pub proof fn lemma_authorization_names_the_confirmed_action(
    confirmation: AlertActionConfirmation,
    action_id: Seq<char>,
)
    requires
        authorization_refusal(confirmation, action_id) is None,
    ensures
        confirmation.action_id@ == action_id,
        confirmation.confirmed,
        !confirmation.requires_privilege,
{
}

} // verus!
