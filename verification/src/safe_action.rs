//! The safe system actions a user can run from the desktop: which actions
//! are allowed, what a finished action reports, and the audit fields it
//! leaves behind.

use vstd::prelude::*;
use crate::audit::{
    entry_valid, valid_action, ActionAudit, ActionAuditEntry,
    AlertActionOutcome, AlertActionOutcomeStatus,
};
use crate::core_types::is_hyphenated_uuid;
use crate::remediation::{
    verification_message_of, verification_status_of, verify_safe_action, ActionVerification,
};
use crate::text::str_eq;

verus! {

/// The read-only diagnostics that the safe-action allowlist names.
#[derive(Debug, Clone, Copy, PartialEq, Eq, Structural)]
pub enum SafeDiagnostic {
    RefreshHealth,
    Storage,
    Process,
    Network,
    Service,
}

/// What a safe action reports back to the user.
#[derive(Debug, Clone, PartialEq, Eq)]
pub struct SafeActionResult {
    pub action: String,
    pub status: String,
    pub message: String,
    pub reversible: bool,
    pub privilege: String,
    pub verification_status: String,
    pub verification_message: String,
}

/// The diagnostic an allowlisted action runs.
pub open spec fn safe_diagnostic_spec(action: Seq<char>) -> Option<SafeDiagnostic> {
    if action == "refresh_health"@ {
        Some(SafeDiagnostic::RefreshHealth)
    } else if action == "storage_diagnostic"@ {
        Some(SafeDiagnostic::Storage)
    } else if action == "process_diagnostic"@ {
        Some(SafeDiagnostic::Process)
    } else if action == "network_diagnostic"@ {
        Some(SafeDiagnostic::Network)
    } else if action == "service_diagnostic"@ {
        Some(SafeDiagnostic::Service)
    } else {
        None
    }
}

/// The name under which a diagnostic is allowlisted.
pub open spec fn action_name(diagnostic: SafeDiagnostic) -> Seq<char> {
    match diagnostic {
        SafeDiagnostic::RefreshHealth => "refresh_health"@,
        SafeDiagnostic::Storage => "storage_diagnostic"@,
        SafeDiagnostic::Process => "process_diagnostic"@,
        SafeDiagnostic::Network => "network_diagnostic"@,
        SafeDiagnostic::Service => "service_diagnostic"@,
    }
}

/// The allowlist runs exactly the diagnostic an action names: an action is
/// allowed precisely when it is the name of a diagnostic, it then runs that
/// diagnostic, and no two diagnostics share a name, so no allowed action runs
/// another's diagnostic.
pub proof fn lemma_allowlist_runs_the_named_diagnostic(action: Seq<char>, diagnostic: SafeDiagnostic)
    ensures
        safe_diagnostic_spec(action) == Some(diagnostic) <==> action == action_name(diagnostic),
        safe_diagnostic_spec(action) is None <==> forall|d: SafeDiagnostic| action != #[trigger] action_name(d),
        forall|a: SafeDiagnostic, b: SafeDiagnostic| #[trigger] action_name(a) == #[trigger] action_name(b) ==> a == b,
{
    reveal_strlit("refresh_health");
    reveal_strlit("storage_diagnostic");
    reveal_strlit("process_diagnostic");
    reveal_strlit("network_diagnostic");
    reveal_strlit("service_diagnostic");
    assert("refresh_health"@.len() == 14);
    assert("storage_diagnostic"@[1] == 't' && "service_diagnostic"@[1] == 'e');
    assert("storage_diagnostic"@[0] == 's' && "service_diagnostic"@[0] == 's');
    assert("process_diagnostic"@[0] == 'p' && "network_diagnostic"@[0] == 'n');
    assert("storage_diagnostic"@.len() == 18 && "service_diagnostic"@.len() == 18);
    assert("process_diagnostic"@.len() == 18 && "network_diagnostic"@.len() == 18);
    assert forall|a: SafeDiagnostic, b: SafeDiagnostic| #[trigger] action_name(a) == #[trigger] action_name(b) implies a == b by {
        if action_name(a) == action_name(b) && a != b {
            assert(action_name(a)[0] == action_name(b)[0]);
            assert(action_name(a).len() == action_name(b).len());
            assert(action_name(a)[1] == action_name(b)[1]);
        }
    }
    if safe_diagnostic_spec(action) is None {
        assert forall|d: SafeDiagnostic| action != #[trigger] action_name(d) by {
            match d {
                SafeDiagnostic::RefreshHealth => {},
                SafeDiagnostic::Storage => {},
                SafeDiagnostic::Process => {},
                SafeDiagnostic::Network => {},
                SafeDiagnostic::Service => {},
            }
        }
    } else {
        let d = safe_diagnostic_spec(action)->0;
        assert(action == action_name(d));
    }
}

/// Looks an action up in the safe-action allowlist.
pub fn safe_diagnostic(action: &str) -> (diagnostic: Option<SafeDiagnostic>)
    ensures
        diagnostic == safe_diagnostic_spec(action@),
        match diagnostic {
            Some(d) => action@ == action_name(d),
            None => forall|d: SafeDiagnostic| action@ != #[trigger] action_name(d),
        },
{
    proof {
        lemma_allowlist_runs_the_named_diagnostic(action@, SafeDiagnostic::RefreshHealth);
    }
    if str_eq(action, "refresh_health") {
        Some(SafeDiagnostic::RefreshHealth)
    } else if str_eq(action, "storage_diagnostic") {
        Some(SafeDiagnostic::Storage)
    } else if str_eq(action, "process_diagnostic") {
        Some(SafeDiagnostic::Process)
    } else if str_eq(action, "network_diagnostic") {
        Some(SafeDiagnostic::Network)
    } else if str_eq(action, "service_diagnostic") {
        Some(SafeDiagnostic::Service)
    } else {
        None
    }
}

/// What a diagnostic reports when it completes.
pub open spec fn completion_message_spec(diagnostic: SafeDiagnostic) -> Seq<char> {
    match diagnostic {
        SafeDiagnostic::RefreshHealth => "System health was refreshed."@,
        SafeDiagnostic::Storage => "Storage diagnostic completed without changing system state."@,
        SafeDiagnostic::Process => "Process diagnostic completed without changing system state."@,
        SafeDiagnostic::Network => "Network diagnostic completed without changing system state."@,
        SafeDiagnostic::Service => "Service diagnostic completed without changing system state."@,
    }
}

pub fn completion_message(diagnostic: SafeDiagnostic) -> (message: &'static str)
    ensures
        message@ == completion_message_spec(diagnostic),
{
    match diagnostic {
        SafeDiagnostic::RefreshHealth => "System health was refreshed.",
        SafeDiagnostic::Storage => "Storage diagnostic completed without changing system state.",
        SafeDiagnostic::Process => "Process diagnostic completed without changing system state.",
        SafeDiagnostic::Network => "Network diagnostic completed without changing system state.",
        SafeDiagnostic::Service => "Service diagnostic completed without changing system state.",
    }
}

/// How a safe-action request starts.
#[derive(Debug, Clone, PartialEq, Eq)]
pub enum SafeActionStart {
    /// Refused before anything runs or is recorded.
    Refused(String),
    /// The diagnostic to run.
    Run(SafeDiagnostic),
    /// Not allowlisted: the action fails, and the failure is recorded.
    Rejected(String),
}

/// The confirmation gate comes first, then the allowlist.
pub fn start_safe_action(action: &str, confirmed: bool) -> (start: SafeActionStart)
    ensures
        !confirmed ==> start == SafeActionStart::Refused(start->Refused_0)
            && start->Refused_0@ == "explicit user confirmation is required"@,
        confirmed && safe_diagnostic_spec(action@) is Some ==> start == SafeActionStart::Run(
            safe_diagnostic_spec(action@)->0,
        ),
        confirmed && safe_diagnostic_spec(action@) is None ==> start == SafeActionStart::Rejected(
            start->Rejected_0,
        ) && start->Rejected_0@ == "action is not in the safe system-action allowlist"@,
        start matches SafeActionStart::Run(d) ==> confirmed && action@ == action_name(d),
        confirmed && (exists|d: SafeDiagnostic| action@ == #[trigger] action_name(d))
            ==> start is Run,
{
    if !confirmed {
        return SafeActionStart::Refused("explicit user confirmation is required".to_owned());
    }
    match safe_diagnostic(action) {
        Some(d) => SafeActionStart::Run(d),
        None => SafeActionStart::Rejected(
            "action is not in the safe system-action allowlist".to_owned(),
        ),
    }
}

/// The outcome of an action once it has run and been verified: verified when
/// it executed and its verification passed, rejected otherwise; it names the
/// requested action and carries the verification's message.
pub fn derive_action_outcome(
    request: &crate::alert_actions::AlertActionExecutionRequest,
    execution: &crate::alert_actions::AlertActionExecutionResult,
    verification: &ActionVerification,
) -> (outcome: AlertActionOutcome)
    ensures
        outcome.action_id@ == request.action_id@,
        outcome.message@ == verification.message@,
        outcome.status == (if execution.executed && verification.status@ == "verified"@ {
            AlertActionOutcomeStatus::Verified
        } else {
            AlertActionOutcomeStatus::Rejected
        }),
{
    let status = if execution.executed && str_eq(verification.status.as_str(), "verified") {
        AlertActionOutcomeStatus::Verified
    } else {
        AlertActionOutcomeStatus::Rejected
    };
    AlertActionOutcome {
        action_id: request.action_id.clone(),
        status,
        message: verification.message.clone(),
    }
}

/// Everything a finished safe action leaves: what the user is told, and the
/// fields of its audit record.
#[derive(Debug)]
pub struct SafeActionCompletion {
    pub result: Result<SafeActionResult, String>,
    pub stage: String,
    pub status: String,
    pub message: String,
    pub reversible: bool,
    pub privilege: String,
    pub verification: ActionVerification,
    pub outcome: AlertActionOutcome,
}

/// What a finished safe action reports, from what its diagnostic gave: the
/// diagnostic that completed, or the error that stopped it.
pub open spec fn completion_matches(
    action: Seq<char>,
    ran: Result<SafeDiagnostic, Seq<char>>,
    c: SafeActionCompletion,
) -> bool {
    let succeeded = ran is Ok;
    &&& c.verification.status@ == verification_status_of(succeeded)
    &&& c.verification.message@ == verification_message_of(action, succeeded)
    &&& c.outcome.action_id@ == action
    &&& c.outcome.message@ == c.verification.message@
    &&& c.outcome.status == (if succeeded {
        AlertActionOutcomeStatus::Verified
    } else {
        AlertActionOutcomeStatus::Rejected
    })
    &&& match ran {
        Ok(d) => {
            &&& c.result is Ok
            &&& c.result->Ok_0.action@ == action
            &&& c.result->Ok_0.status@ == "completed"@
            &&& c.result->Ok_0.message@ == completion_message_spec(d)
            &&& c.result->Ok_0.reversible
            &&& c.result->Ok_0.privilege@ == "None"@
            &&& c.result->Ok_0.verification_status@ == c.verification.status@
            &&& c.result->Ok_0.verification_message@ == c.verification.message@
            &&& c.stage@ == "verified"@
            &&& c.status@ == "completed"@
            &&& c.message@ == completion_message_spec(d)
            &&& c.reversible
            &&& c.privilege@ == "None"@
        },
        Err(e) => {
            &&& c.result is Err
            &&& c.result->Err_0@ == e
            &&& c.stage@ == "failed"@
            &&& c.status@ == "failed"@
            &&& c.message@ == e
            &&& !c.reversible
            &&& c.privilege@ == "Unknown"@
        },
    }
}

/// The view of what a diagnostic gave.
pub open spec fn ran_view(ran: Result<SafeDiagnostic, String>) -> Result<SafeDiagnostic, Seq<char>> {
    match ran {
        Ok(d) => Ok(d),
        Err(e) => Err(e@),
    }
}

/// Finishes a safe action from what its diagnostic gave.
pub fn finish_safe_action(action: &str, ran: Result<SafeDiagnostic, String>) -> (completion:
    SafeActionCompletion)
    ensures
        completion_matches(action@, ran_view(ran), completion),
{
    let request = crate::alert_actions::AlertActionExecutionRequest { action_id: action.to_owned() };
    match ran {
        Ok(d) => {
            let verification = verify_safe_action(action, true);
            let message = completion_message(d);
            let execution = crate::alert_actions::AlertActionExecutionResult {
                action_id: action.to_owned(),
                executed: true,
                message: message.to_owned(),
            };
            let outcome = derive_action_outcome(&request, &execution, &verification);
            let result = SafeActionResult {
                action: action.to_owned(),
                status: "completed".to_owned(),
                message: message.to_owned(),
                reversible: true,
                privilege: "None".to_owned(),
                verification_status: verification.status.clone(),
                verification_message: verification.message.clone(),
            };
            SafeActionCompletion {
                result: Ok(result),
                stage: "verified".to_owned(),
                status: "completed".to_owned(),
                message: message.to_owned(),
                reversible: true,
                privilege: "None".to_owned(),
                verification,
                outcome,
            }
        },
        Err(error) => {
            let verification = verify_safe_action(action, false);
            let execution = crate::alert_actions::AlertActionExecutionResult {
                action_id: action.to_owned(),
                executed: false,
                message: error.clone(),
            };
            let outcome = derive_action_outcome(&request, &execution, &verification);
            SafeActionCompletion {
                result: Err(error.clone()),
                stage: "failed".to_owned(),
                status: "failed".to_owned(),
                message: error,
                reversible: false,
                privilege: "Unknown".to_owned(),
                verification,
                outcome,
            }
        },
    }
}

impl SafeActionCompletion {
    /// The audit record of this action at time `timestamp`.
    pub fn audit_entry(&self, audit: &ActionAudit, timestamp: u64, action: &str) -> (entry:
        ActionAuditEntry)
        ensures
            crate::audit::describes_entry(
                entry,
                timestamp,
                action@,
                self.stage@,
                true,
                self.status@,
                self.message@,
                self.reversible,
                self.privilege@,
                self.verification.status@,
                self.verification.message@,
                self.outcome,
            ),
            entry.id@.len() == 43,
            entry.id@.take(7) == "action-"@,
            is_hyphenated_uuid(entry.id@.skip(7)),
    {
        audit.entry(
            timestamp,
            action,
            self.stage.as_str(),
            true,
            self.status.as_str(),
            self.message.as_str(),
            self.reversible,
            self.privilege.as_str(),
            self.verification.status.as_str(),
            self.verification.message.as_str(),
            &self.outcome,
        )
    }
}

/// A safe action that completed is recorded in a form that the audit keeps
/// when it is read back, as long as its time is after the epoch.
pub proof fn lemma_completed_safe_actions_are_kept(
    action: Seq<char>,
    d: SafeDiagnostic,
    c: SafeActionCompletion,
    entry: ActionAuditEntry,
    timestamp: u64,
)
    requires
        safe_diagnostic_spec(action) == Some(d),
        completion_matches(action, Ok(d), c),
        crate::audit::describes_entry(
            entry,
            timestamp,
            action,
            c.stage@,
            true,
            c.status@,
            c.message@,
            c.reversible,
            c.privilege@,
            c.verification.status@,
            c.verification.message@,
            c.outcome,
        ),
        timestamp > 0,
        entry.id@.len() == 43,
        entry.id@.take(7) == "action-"@,
    ensures
        entry_valid(entry),
{
    reveal_strlit("verified");
    reveal_strlit("completed");
    reveal_strlit("None");
    reveal_strlit("action-");
    reveal_strlit("legacy");
    reveal_strlit(" returned a successful result; the permitted action is read-only, so no system mutation requires separate state verification.");
    reveal_strlit("System health was refreshed.");
    reveal_strlit("Storage diagnostic completed without changing system state.");
    reveal_strlit("Process diagnostic completed without changing system state.");
    reveal_strlit("Network diagnostic completed without changing system state.");
    reveal_strlit("Service diagnostic completed without changing system state.");
    reveal_strlit("refresh_health");
    reveal_strlit("storage_diagnostic");
    reveal_strlit("process_diagnostic");
    reveal_strlit("network_diagnostic");
    reveal_strlit("service_diagnostic");
    assert(entry.id@[0] == entry.id@.take(7)[0]);
    assert(!crate::text::is_whitespace_spec(entry.id@[0]));
    assert(!crate::text::is_whitespace_spec(action[0]));
    assert(!crate::text::is_whitespace_spec(c.message@[0]));
    assert(!crate::text::is_whitespace_spec(c.verification.message@[0]));
    assert(valid_action(action));
    assert("verified"@[0] != "legacy"@[0]);
}

} // verus!
