//! The validated execution boundary. Every capability passes the policy gate
//! for its registered tool before its backend runs; a refused capability
//! never reaches its backend. The backends themselves (which read the
//! operating system) are supplied by the caller.

use vstd::prelude::*;
use crate::core_types::{ExecutionId, OperationStatus};
use crate::health::HealthStatusError;
use crate::intelligence::{SystemIntelligenceSnapshot, UnifiedSystemIntelligenceError};
use crate::monitoring::MonitoringError;
use crate::network::{NetworkAnalysis, NetworkInterface, NetworkIntelligenceError, NetworkStatusError};
use crate::policy::{Decision, PolicyContext, decision_of, evaluate, policy_decision};
use crate::process::{ProcessInfo, ProcessIntelligenceError, ProcessStatusError};
use crate::service::{ServiceAnalysis, ServiceIntelligenceError};
use crate::storage::{FilesystemStatus, StorageAnalysis, StorageIntelligenceError, StorageStatusError};
use crate::system_status::{SystemStatus, SystemStatusError};
use crate::tool_registry::{
    RiskLevel, ToolDefinition, health_status_tool, monitoring_status_tool,
    network_intelligence_tool, network_status_tool, process_intelligence_tool,
    process_status_tool, service_intelligence_tool, storage_intelligence_tool,
    storage_status_tool, system_status_tool, unified_system_intelligence_tool,
};

verus! {

#[derive(Debug)]
pub enum ExecutionError {
    Denied,
    ConfirmationRequired,
    SystemStatus(SystemStatusError),
    StorageStatus(StorageStatusError),
    StorageIntelligence(StorageIntelligenceError),
    ProcessStatus(ProcessStatusError),
    ProcessIntelligence(ProcessIntelligenceError),
    NetworkStatus(NetworkStatusError),
    NetworkIntelligence(NetworkIntelligenceError),
    ServiceIntelligence(ServiceIntelligenceError),
    UnifiedSystemIntelligence(UnifiedSystemIntelligenceError),
    Monitoring(MonitoringError),
    Health(HealthStatusError),
}

#[derive(Debug, Clone, Copy)]
pub struct ExecutionResult {
    pub execution_id: ExecutionId,
    pub status: OperationStatus,
}

#[derive(Debug, Clone)]
pub struct SystemStatusExecution {
    pub execution: ExecutionResult,
    pub status: SystemStatus,
}

/// The refusal a policy decision leads to, if any.
pub open spec fn refusal(decision: Decision) -> Option<ExecutionError> {
    match decision {
        Decision::Allow => None,
        Decision::RequireConfirmation => Some(ExecutionError::ConfirmationRequired),
        Decision::Deny => Some(ExecutionError::Denied),
    }
}

/// Authorize a tool under a context: allowed tools get a fresh execution
/// record with status `Success`; otherwise the refusal is returned.
pub fn authorize(tool: &ToolDefinition, context: &PolicyContext) -> (result: Result<
    ExecutionResult,
    ExecutionError,
>)
    ensures
        match refusal(decision_of(*tool, *context)) {
            None => result matches Ok(r) && r.status == OperationStatus::Success,
            Some(e) => result == Err::<ExecutionResult, ExecutionError>(e),
        },
{
    match evaluate(tool, context) {
        Decision::Allow => Ok(
            ExecutionResult { execution_id: ExecutionId::new(), status: OperationStatus::Success },
        ),
        Decision::RequireConfirmation => Err(ExecutionError::ConfirmationRequired),
        Decision::Deny => Err(ExecutionError::Denied),
    }
}

/// The refusal for a read-only dashboard capability: never.
pub open spec fn read_only_refusal(context: PolicyContext) -> Option<ExecutionError> {
    refusal(policy_decision(RiskLevel::ReadOnly, true, context.ai_requested, context.user_confirmed))
}

/// The refusal for an analysis capability: unless the user confirmed it.
pub open spec fn analysis_refusal(context: PolicyContext) -> Option<ExecutionError> {
    refusal(policy_decision(RiskLevel::Low, false, context.ai_requested, context.user_confirmed))
}

/// Runs the read-only system status backend after the policy gate.
pub fn execute_system_status<F>(context: &PolicyContext, backend: F) -> (result: Result<
    SystemStatusExecution,
    ExecutionError,
>) where F: FnOnce() -> Result<SystemStatus, SystemStatusError>
    requires
        call_requires(backend, ()),
    ensures
        match read_only_refusal(*context) {
            Some(e) => result == Err::<SystemStatusExecution, ExecutionError>(e),
            None => exists|r: Result<SystemStatus, SystemStatusError>|
                #![trigger call_ensures(backend, (), r)]
                call_ensures(backend, (), r) && match r {
                    Ok(status) => result matches Ok(x) && x.status == status
                        && x.execution.status == OperationStatus::Success,
                    Err(e) => result == Err::<SystemStatusExecution, ExecutionError>(
                        ExecutionError::SystemStatus(e),
                    ),
                },
        },
{
    let execution = match authorize(&system_status_tool(), context) {
        Ok(execution) => execution,
        Err(e) => return Err(e),
    };
    match backend() {
        Ok(status) => Ok(SystemStatusExecution { execution, status }),
        Err(e) => Err(ExecutionError::SystemStatus(e)),
    }
}


/// Runs the unified system intelligence backend (over a caller-approved storage
/// root) after the policy gate.
pub fn execute_unified_system_intelligence<F>(context: &PolicyContext, backend: F) -> (result: Result<
    SystemIntelligenceSnapshot,
    ExecutionError,
>) where F: FnOnce() -> Result<SystemIntelligenceSnapshot, UnifiedSystemIntelligenceError>
    requires
        call_requires(backend, ()),
    ensures
        match read_only_refusal(*context) {
            Some(e) => result == Err::<SystemIntelligenceSnapshot, ExecutionError>(e),
            None => exists|r: Result<SystemIntelligenceSnapshot, UnifiedSystemIntelligenceError>|
                #![trigger call_ensures(backend, (), r)]
                call_ensures(backend, (), r) && result == match r {
                    Ok(v) => Ok::<SystemIntelligenceSnapshot, ExecutionError>(v),
                    Err(e) => Err(ExecutionError::UnifiedSystemIntelligence(e)),
                },
        },
{
    if let Err(e) = authorize(&unified_system_intelligence_tool(), context) {
        return Err(e);
    }
    match backend() {
        Ok(v) => Ok(v),
        Err(e) => Err(ExecutionError::UnifiedSystemIntelligence(e)),
    }
}

/// Runs the filesystem capacity backend after the policy gate.
pub fn execute_storage_status<F>(context: &PolicyContext, backend: F) -> (result: Result<
    Vec<FilesystemStatus>,
    ExecutionError,
>) where F: FnOnce() -> Result<Vec<FilesystemStatus>, StorageStatusError>
    requires
        call_requires(backend, ()),
    ensures
        match read_only_refusal(*context) {
            Some(e) => result == Err::<Vec<FilesystemStatus>, ExecutionError>(e),
            None => exists|r: Result<Vec<FilesystemStatus>, StorageStatusError>|
                #![trigger call_ensures(backend, (), r)]
                call_ensures(backend, (), r) && result == match r {
                    Ok(v) => Ok::<Vec<FilesystemStatus>, ExecutionError>(v),
                    Err(e) => Err(ExecutionError::StorageStatus(e)),
                },
        },
{
    if let Err(e) = authorize(&storage_status_tool(), context) {
        return Err(e);
    }
    match backend() {
        Ok(v) => Ok(v),
        Err(e) => Err(ExecutionError::StorageStatus(e)),
    }
}

/// Runs the bounded storage analysis (of the path and limits the backend was
/// given) once the user has confirmed it.
pub fn execute_storage_analysis<F>(context: &PolicyContext, backend: F) -> (result: Result<
    StorageAnalysis,
    ExecutionError,
>) where F: FnOnce() -> Result<StorageAnalysis, StorageIntelligenceError>
    requires
        call_requires(backend, ()),
    ensures
        match analysis_refusal(*context) {
            Some(e) => result == Err::<StorageAnalysis, ExecutionError>(e),
            None => exists|r: Result<StorageAnalysis, StorageIntelligenceError>|
                #![trigger call_ensures(backend, (), r)]
                call_ensures(backend, (), r) && result == match r {
                    Ok(v) => Ok::<StorageAnalysis, ExecutionError>(v),
                    Err(e) => Err(ExecutionError::StorageIntelligence(e)),
                },
        },
{
    if let Err(e) = authorize(&storage_intelligence_tool(), context) {
        return Err(e);
    }
    match backend() {
        Ok(v) => Ok(v),
        Err(e) => Err(ExecutionError::StorageIntelligence(e)),
    }
}

/// Runs the process inventory backend, asking for the 50 largest processes,
/// after the policy gate.
pub fn execute_process_status<F>(context: &PolicyContext, backend: F) -> (result: Result<
    Vec<ProcessInfo>,
    ExecutionError,
>) where F: FnOnce(usize) -> Result<Vec<ProcessInfo>, ProcessStatusError>
    requires
        call_requires(backend, (50usize,)),
    ensures
        match read_only_refusal(*context) {
            Some(e) => result == Err::<Vec<ProcessInfo>, ExecutionError>(e),
            None => exists|r: Result<Vec<ProcessInfo>, ProcessStatusError>|
                #![trigger call_ensures(backend, (50usize,), r)]
                call_ensures(backend, (50usize,), r) && result == match r {
                    Ok(v) => Ok::<Vec<ProcessInfo>, ExecutionError>(v),
                    Err(e) => Err(ExecutionError::ProcessStatus(e)),
                },
        },
{
    if let Err(e) = authorize(&process_status_tool(), context) {
        return Err(e);
    }
    match backend(50usize) {
        Ok(v) => Ok(v),
        Err(e) => Err(ExecutionError::ProcessStatus(e)),
    }
}

/// Runs the process analysis backend once the user has confirmed it.
pub fn execute_process_analysis<T, F>(context: &PolicyContext, backend: F) -> (result: Result<
    T,
    ExecutionError,
>) where F: FnOnce() -> Result<T, ProcessIntelligenceError>
    requires
        call_requires(backend, ()),
    ensures
        match analysis_refusal(*context) {
            Some(e) => result == Err::<T, ExecutionError>(e),
            None => exists|r: Result<T, ProcessIntelligenceError>|
                #![trigger call_ensures(backend, (), r)]
                call_ensures(backend, (), r) && result == match r {
                    Ok(v) => Ok::<T, ExecutionError>(v),
                    Err(e) => Err(ExecutionError::ProcessIntelligence(e)),
                },
        },
{
    if let Err(e) = authorize(&process_intelligence_tool(), context) {
        return Err(e);
    }
    match backend() {
        Ok(v) => Ok(v),
        Err(e) => Err(ExecutionError::ProcessIntelligence(e)),
    }
}

/// Runs the network interface backend after the policy gate.
pub fn execute_network_status<F>(context: &PolicyContext, backend: F) -> (result: Result<
    Vec<NetworkInterface>,
    ExecutionError,
>) where F: FnOnce() -> Result<Vec<NetworkInterface>, NetworkStatusError>
    requires
        call_requires(backend, ()),
    ensures
        match read_only_refusal(*context) {
            Some(e) => result == Err::<Vec<NetworkInterface>, ExecutionError>(e),
            None => exists|r: Result<Vec<NetworkInterface>, NetworkStatusError>|
                #![trigger call_ensures(backend, (), r)]
                call_ensures(backend, (), r) && result == match r {
                    Ok(v) => Ok::<Vec<NetworkInterface>, ExecutionError>(v),
                    Err(e) => Err(ExecutionError::NetworkStatus(e)),
                },
        },
{
    if let Err(e) = authorize(&network_status_tool(), context) {
        return Err(e);
    }
    match backend() {
        Ok(v) => Ok(v),
        Err(e) => Err(ExecutionError::NetworkStatus(e)),
    }
}

/// Runs the TCP socket analysis backend once the user has confirmed it.
pub fn execute_network_analysis<F>(context: &PolicyContext, backend: F) -> (result: Result<
    NetworkAnalysis,
    ExecutionError,
>) where F: FnOnce() -> Result<NetworkAnalysis, NetworkIntelligenceError>
    requires
        call_requires(backend, ()),
    ensures
        match analysis_refusal(*context) {
            Some(e) => result == Err::<NetworkAnalysis, ExecutionError>(e),
            None => exists|r: Result<NetworkAnalysis, NetworkIntelligenceError>|
                #![trigger call_ensures(backend, (), r)]
                call_ensures(backend, (), r) && result == match r {
                    Ok(v) => Ok::<NetworkAnalysis, ExecutionError>(v),
                    Err(e) => Err(ExecutionError::NetworkIntelligence(e)),
                },
        },
{
    if let Err(e) = authorize(&network_intelligence_tool(), context) {
        return Err(e);
    }
    match backend() {
        Ok(v) => Ok(v),
        Err(e) => Err(ExecutionError::NetworkIntelligence(e)),
    }
}

/// Runs the systemd service analysis backend once the user has confirmed it.
pub fn execute_service_analysis<F>(context: &PolicyContext, backend: F) -> (result: Result<
    ServiceAnalysis,
    ExecutionError,
>) where F: FnOnce() -> Result<ServiceAnalysis, ServiceIntelligenceError>
    requires
        call_requires(backend, ()),
    ensures
        match analysis_refusal(*context) {
            Some(e) => result == Err::<ServiceAnalysis, ExecutionError>(e),
            None => exists|r: Result<ServiceAnalysis, ServiceIntelligenceError>|
                #![trigger call_ensures(backend, (), r)]
                call_ensures(backend, (), r) && result == match r {
                    Ok(v) => Ok::<ServiceAnalysis, ExecutionError>(v),
                    Err(e) => Err(ExecutionError::ServiceIntelligence(e)),
                },
        },
{
    if let Err(e) = authorize(&service_intelligence_tool(), context) {
        return Err(e);
    }
    match backend() {
        Ok(v) => Ok(v),
        Err(e) => Err(ExecutionError::ServiceIntelligence(e)),
    }
}

/// Takes a monitoring snapshot through the backend after the policy gate.
pub fn execute_monitoring_snapshot<T, F>(context: &PolicyContext, backend: F) -> (result: Result<
    T,
    ExecutionError,
>) where F: FnOnce() -> Result<T, MonitoringError>
    requires
        call_requires(backend, ()),
    ensures
        match read_only_refusal(*context) {
            Some(e) => result == Err::<T, ExecutionError>(e),
            None => exists|r: Result<T, MonitoringError>|
                #![trigger call_ensures(backend, (), r)]
                call_ensures(backend, (), r) && result == match r {
                    Ok(v) => Ok::<T, ExecutionError>(v),
                    Err(e) => Err(ExecutionError::Monitoring(e)),
                },
        },
{
    if let Err(e) = authorize(&monitoring_status_tool(), context) {
        return Err(e);
    }
    match backend() {
        Ok(v) => Ok(v),
        Err(e) => Err(ExecutionError::Monitoring(e)),
    }
}

/// Evaluates system health through the backend after the policy gate.
pub fn execute_health_status<T, F>(context: &PolicyContext, backend: F) -> (result: Result<
    T,
    ExecutionError,
>) where F: FnOnce() -> Result<T, HealthStatusError>
    requires
        call_requires(backend, ()),
    ensures
        match read_only_refusal(*context) {
            Some(e) => result == Err::<T, ExecutionError>(e),
            None => exists|r: Result<T, HealthStatusError>|
                #![trigger call_ensures(backend, (), r)]
                call_ensures(backend, (), r) && result == match r {
                    Ok(v) => Ok::<T, ExecutionError>(v),
                    Err(e) => Err(ExecutionError::Health(e)),
                },
        },
{
    if let Err(e) = authorize(&health_status_tool(), context) {
        return Err(e);
    }
    match backend() {
        Ok(v) => Ok(v),
        Err(e) => Err(ExecutionError::Health(e)),
    }
}

/// Dashboard capabilities are never refused, whoever asks; analysis
/// capabilities are refused with `ConfirmationRequired` exactly when the user
/// has not confirmed them, even when the AI asks.
pub proof fn lemma_execution_gates(context: PolicyContext)
    ensures
        read_only_refusal(context) is None,
        analysis_refusal(context) is Some <==> !context.user_confirmed,
        !context.user_confirmed ==> analysis_refusal(context) == Some(
            ExecutionError::ConfirmationRequired,
        ),
{
}

} // verus!
