//! Deterministic policy evaluation for AI- and user-requested operations.
//!
//! The policy gate is independent of any AI provider: it reads only the
//! tool's declared risk and autonomy and who requested the operation.

use vstd::prelude::*;
use crate::tool_registry::{RiskLevel, ToolDefinition};

verus! {

#[derive(Debug, Clone, Copy, PartialEq, Eq, Structural)]
pub enum Decision {
    Allow,
    RequireConfirmation,
    Deny,
}

#[derive(Debug, Clone, Copy)]
pub struct PolicyContext {
    pub ai_requested: bool,
    pub user_confirmed: bool,
}

/// The decision for a tool of the given risk and autonomy: read-only tools
/// are always allowed; a low-risk tool that the AI may run on its own is
/// allowed when the AI asks for it; everything else needs the user's
/// confirmation.
pub open spec fn policy_decision(
    risk: RiskLevel,
    ai_autonomous: bool,
    ai_requested: bool,
    user_confirmed: bool,
) -> Decision {
    if risk == RiskLevel::ReadOnly {
        Decision::Allow
    } else if user_confirmed || (risk == RiskLevel::Low && ai_autonomous && ai_requested) {
        Decision::Allow
    } else {
        Decision::RequireConfirmation
    }
}

pub open spec fn decision_of(tool: ToolDefinition, context: PolicyContext) -> Decision {
    policy_decision(tool.risk, tool.ai_autonomous, context.ai_requested, context.user_confirmed)
}

pub fn evaluate(tool: &ToolDefinition, context: &PolicyContext) -> (decision: Decision)
    ensures
        decision == decision_of(*tool, *context),
{
    match tool.risk {
        RiskLevel::ReadOnly => Decision::Allow,
        RiskLevel::Low if tool.ai_autonomous && context.ai_requested => Decision::Allow,
        RiskLevel::Low | RiskLevel::Reversible | RiskLevel::Moderate => {
            if context.user_confirmed {
                Decision::Allow
            } else {
                Decision::RequireConfirmation
            }
        },
        RiskLevel::Destructive | RiskLevel::SystemCritical => {
            if context.user_confirmed {
                Decision::Allow
            } else {
                Decision::RequireConfirmation
            }
        },
    }
}

/// The policy gate never refuses outright: every decision is either an
/// approval or a request for the user's confirmation.
pub proof fn lemma_policy_never_denies(tool: ToolDefinition, context: PolicyContext)
    ensures
        decision_of(tool, context) != Decision::Deny,
{
}

/// An operation that the user has confirmed is allowed, whatever its risk.
pub proof fn lemma_confirmed_operations_are_allowed(tool: ToolDefinition, context: PolicyContext)
    requires
        context.user_confirmed,
    ensures
        decision_of(tool, context) == Decision::Allow,
{
}

/// Read-only tools are allowed for anyone, with or without confirmation.
pub proof fn lemma_read_only_tools_are_allowed(tool: ToolDefinition, context: PolicyContext)
    requires
        tool.risk == RiskLevel::ReadOnly,
    ensures
        decision_of(tool, context) == Decision::Allow,
{
}

/// Without the user's confirmation, nothing above `Low` risk is allowed, and a
/// `Low`-risk tool is allowed only when the AI may run it on its own and asked for it.
pub proof fn lemma_unconfirmed_risky_tools_need_confirmation(
    tool: ToolDefinition,
    context: PolicyContext,
)
    requires
        !context.user_confirmed,
        tool.risk != RiskLevel::ReadOnly,
        !(tool.risk == RiskLevel::Low && tool.ai_autonomous && context.ai_requested),
    ensures
        decision_of(tool, context) == Decision::RequireConfirmation,
{
}

/// Confirming an operation never makes the decision stricter.
pub proof fn lemma_confirmation_is_monotone(tool: ToolDefinition, context: PolicyContext)
    requires
        decision_of(tool, context) == Decision::Allow,
    ensures
        decision_of(tool, PolicyContext { user_confirmed: true, ..context }) == Decision::Allow,
{
}

/// The context of a request the user made from the desktop without confirming it.
pub fn context() -> (c: PolicyContext)
    ensures
        !c.ai_requested,
        !c.user_confirmed,
{
    PolicyContext { ai_requested: false, user_confirmed: false }
}

/// The context of a request the user made from the desktop and confirmed.
pub fn user_confirmed_context() -> (c: PolicyContext)
    ensures
        !c.ai_requested,
        c.user_confirmed,
{
    PolicyContext { ai_requested: false, user_confirmed: true }
}

} // verus!
