//! Follow-up suggestions and verification for the read-only safe actions.

use vstd::prelude::*;
use crate::text::{concat_str, str_eq};

verus! {

#[derive(Debug, Clone, PartialEq, Eq)]
pub struct RemediationSuggestion {
    pub action: String,
    pub reason: String,
    pub suggested_action: String,
    pub requires_confirmation: bool,
}

#[derive(Debug, Clone, PartialEq, Eq)]
pub struct ActionVerification {
    pub status: String,
    pub message: String,
}

pub open spec fn failure_reason() -> Seq<char> {
    "The action did not complete successfully, so a safe follow-up diagnostic is recommended."@
}

pub open spec fn success_reason() -> Seq<char> {
    "The read-only action completed successfully; a fresh health refresh can confirm the latest overall state."@
}

/// The diagnostic suggested after an action failed: a storage diagnostic
/// after a failed health refresh, a health refresh after anything else.
pub open spec fn follow_up_action(action: Seq<char>) -> Seq<char> {
    if action == "refresh_health"@ {
        "storage_diagnostic"@
    } else {
        "refresh_health"@
    }
}

/// The reason and suggested action, if any, for an action's outcome: a
/// failed action whose verification also failed gets a follow-up diagnostic;
/// a successful or completed action whose verification passed gets a health
/// refresh; every other combination gets nothing.
pub open spec fn remediation_for(
    action: Seq<char>,
    status: Seq<char>,
    verification_status: Seq<char>,
) -> Option<(Seq<char>, Seq<char>)> {
    if status == "failed"@ && verification_status == "failed"@ {
        Some((failure_reason(), follow_up_action(action)))
    } else if (status == "success"@ || status == "completed"@) && verification_status
        == "verified"@ {
        Some((success_reason(), "refresh_health"@))
    } else {
        None
    }
}

/// Suggest a safe, confirmation-gated follow-up for an action's outcome.
pub fn suggest_remediation(action: &str, status: &str, verification_status: &str) -> (suggestions:
    Vec<RemediationSuggestion>)
    ensures
        match remediation_for(action@, status@, verification_status@) {
            None => suggestions@.len() == 0,
            Some((reason, suggested)) => {
                &&& suggestions@.len() == 1
                &&& suggestions@[0].action@ == action@
                &&& suggestions@[0].reason@ == reason
                &&& suggestions@[0].suggested_action@ == suggested
                &&& suggestions@[0].requires_confirmation
            },
        },
{
    let failed = str_eq(status, "failed");
    let succeeded = str_eq(status, "success") || str_eq(status, "completed");
    if failed && str_eq(verification_status, "failed") {
        let suggested_action = if str_eq(action, "refresh_health") {
            "storage_diagnostic"
        } else {
            "refresh_health"
        };
        return vec![
            RemediationSuggestion {
                action: action.to_owned(),
                reason: "The action did not complete successfully, so a safe follow-up diagnostic is recommended.".to_owned(),
                suggested_action: suggested_action.to_owned(),
                requires_confirmation: true,
            },
        ];
    }
    if succeeded && str_eq(verification_status, "verified") {
        return vec![
            RemediationSuggestion {
                action: action.to_owned(),
                reason: "The read-only action completed successfully; a fresh health refresh can confirm the latest overall state.".to_owned(),
                suggested_action: "refresh_health".to_owned(),
                requires_confirmation: true,
            },
        ];
    }
    Vec::new()
}

/// The desktop's remediation command: the suggestions for an action's outcome.
pub fn action_remediation_suggestions(
    action: String,
    status: String,
    verification_status: String,
) -> (suggestions: Vec<RemediationSuggestion>)
    ensures
        match remediation_for(action@, status@, verification_status@) {
            None => suggestions@.len() == 0,
            Some((reason, suggested)) => {
                &&& suggestions@.len() == 1
                &&& suggestions@[0].action@ == action@
                &&& suggestions@[0].reason@ == reason
                &&& suggestions@[0].suggested_action@ == suggested
                &&& suggestions@[0].requires_confirmation
            },
        },
{
    suggest_remediation(action.as_str(), status.as_str(), verification_status.as_str())
}

/// Every suggestion asks for the user's confirmation, and at most one is made.
pub proof fn lemma_remediation_is_single_and_gated(
    action: Seq<char>,
    status: Seq<char>,
    verification_status: Seq<char>,
)
    ensures
        remediation_for(action, status, verification_status) is Some ==> (status == "failed"@
            || status == "success"@ || status == "completed"@),
        remediation_for(action, status, verification_status) is Some ==> (verification_status
            == "failed"@ || verification_status == "verified"@),
        (status == "failed"@ && verification_status == "verified"@) ==> remediation_for(
            action,
            status,
            verification_status,
        ) is None,
        (status != "failed"@ && verification_status == "failed"@) ==> remediation_for(
            action,
            status,
            verification_status,
        ) is None,
{
    reveal_strlit("failed");
    reveal_strlit("verified");
    reveal_strlit("success");
    reveal_strlit("completed");
    assert("failed"@.len() != "verified"@.len());
    assert("failed"@.len() != "success"@.len());
    assert("failed"@.len() != "completed"@.len());
}

pub open spec fn verification_status_of(succeeded: bool) -> Seq<char> {
    if succeeded {
        "verified"@
    } else {
        "failed"@
    }
}

pub open spec fn verification_message_of(action: Seq<char>, succeeded: bool) -> Seq<char> {
    if succeeded {
        action
            + " returned a successful result; the permitted action is read-only, so no system mutation requires separate state verification."@
    } else {
        action + " did not complete successfully, so its intended outcome could not be verified."@
    }
}

/// Verify a read-only safe action from whether its execution succeeded.
pub fn verify_safe_action(action: &str, execution_succeeded: bool) -> (verification:
    ActionVerification)
    ensures
        verification.status@ == verification_status_of(execution_succeeded),
        verification.message@ == verification_message_of(action@, execution_succeeded),
{
    if execution_succeeded {
        ActionVerification {
            status: "verified".to_owned(),
            message: concat_str(
                action,
                " returned a successful result; the permitted action is read-only, so no system mutation requires separate state verification.",
            ),
        }
    } else {
        ActionVerification {
            status: "failed".to_owned(),
            message: concat_str(
                action,
                " did not complete successfully, so its intended outcome could not be verified.",
            ),
        }
    }
}

/// A verification and the suggestion made from it agree: a succeeded action
/// is suggested a health refresh once its status is `success` or `completed`,
/// and a failed one is suggested a follow-up once its status is `failed`.
pub proof fn lemma_verification_feeds_remediation(action: Seq<char>, succeeded: bool)
    ensures
        succeeded ==> remediation_for(action, "completed"@, verification_status_of(succeeded))
            == Some((success_reason(), "refresh_health"@)),
        !succeeded ==> remediation_for(action, "failed"@, verification_status_of(succeeded))
            == Some((failure_reason(), follow_up_action(action))),
{
    reveal_strlit("completed");
    reveal_strlit("failed");
    reveal_strlit("verified");
    reveal_strlit("success");
    assert("failed"@.len() != "verified"@.len());
    assert("failed"@.len() != "completed"@.len());
}

} // verus!
