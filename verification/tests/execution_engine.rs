use powerhouse::execution::{
    execute_health_status, execute_monitoring_snapshot, execute_network_analysis,
    execute_network_status, execute_process_analysis, execute_process_status,
    execute_service_analysis, execute_storage_analysis, execute_storage_status,
    execute_system_status, execute_unified_system_intelligence, ExecutionError,
};
use powerhouse::core_types::{ExecutionId, OperationStatus};
use powerhouse::intelligence::{snapshot, HealthLevel, SystemIntelligenceSnapshot};
use powerhouse::network::{NetworkAnalysis, NetworkInterface};
use powerhouse::policy::PolicyContext;
use powerhouse::process::process_from_status;
use powerhouse::service::{ServiceAnalysis, ServiceIntelligenceError};
use powerhouse::storage::{filesystem_status, StorageAnalysis};
use powerhouse::system_status::status_from_sources;

fn ai_context() -> PolicyContext {
    PolicyContext { ai_requested: true, user_confirmed: false }
}

fn confirmed_context() -> PolicyContext {
    PolicyContext { ai_requested: true, user_confirmed: true }
}

fn empty_storage(root: &str) -> StorageAnalysis {
    StorageAnalysis {
        root: root.to_owned(),
        total_bytes: 0,
        entries_scanned: 0,
        skipped_entries: 0,
        truncated: false,
        top_consumers: Vec::new(),
    }
}

fn empty_network() -> NetworkAnalysis {
    NetworkAnalysis {
        sockets_scanned: 0,
        skipped_entries: 0,
        truncated: false,
        listening_ports: Vec::new(),
        established_connections: 0,
        anomalies: Vec::new(),
    }
}

fn empty_service() -> ServiceAnalysis {
    ServiceAnalysis {
        services_scanned: 0,
        truncated: false,
        failed_services: 0,
        inactive_services: 0,
        services: Vec::new(),
        anomalies: Vec::new(),
    }
}

fn quiet_snapshot() -> SystemIntelligenceSnapshot {
    snapshot(&empty_storage("/tmp"), 0, &empty_network(), &empty_service())
}

#[test]
fn read_only_dashboard_capabilities_execute_for_ai() {
    // The backends hand over what they read from a Linux host.
    let context = ai_context();
    let status = execute_system_status(&context, || {
        status_from_sources(
            "ID=example\n",
            "MemTotal: 1 kB\nMemAvailable: 1 kB\nSwapTotal: 0 kB\nSwapFree: 0 kB\n",
            "processor\t: 0\n",
            "6.1.0\n",
            "host\n",
            "x86_64",
            10,
        )
    })
    .unwrap();
    assert!(!status.status.kernel_version.is_empty());
    assert_eq!(status.execution.status, OperationStatus::Success);
    let filesystems =
        execute_storage_status(&context, || Ok(vec![filesystem_status("/", 4096, 10, 5, 6)]))
            .unwrap();
    assert!(!filesystems.is_empty());
    let processes = execute_process_status(&context, |limit| {
        assert_eq!(limit, 50);
        Ok(vec![process_from_status(1, "Name:\tinit\nState:\tS (sleeping)\nVmRSS:\t4 kB\n")])
    })
    .unwrap();
    assert!(!processes.is_empty());
    let interfaces = execute_network_status(&context, || {
        Ok(vec![NetworkInterface { name: "lo".to_owned(), is_up: true, rx_bytes: 0, tx_bytes: 0 }])
    })
    .unwrap();
    assert!(!interfaces.is_empty());
    assert!(execute_monitoring_snapshot(&context, || Ok(1u8)).is_ok());
    assert!(execute_health_status(&context, || Ok(2u8)).is_ok());
}

#[test]
fn unified_intelligence_executes_for_ai() {
    let result = execute_unified_system_intelligence(&ai_context(), || Ok(quiet_snapshot()));
    assert!(result.is_ok());
    assert_eq!(result.unwrap().health, HealthLevel::Healthy);
}

#[test]
fn storage_analysis_requires_user_confirmation() {
    let denied = execute_storage_analysis(&ai_context(), || Ok(empty_storage("/tmp")));
    assert!(matches!(denied, Err(ExecutionError::ConfirmationRequired)));

    let result = execute_storage_analysis(&confirmed_context(), || Ok(empty_storage("/tmp")));
    assert!(result.is_ok());
}

#[test]
fn process_analysis_requires_user_confirmation() {
    let denied = execute_process_analysis(&ai_context(), || Ok(()));
    assert!(matches!(denied, Err(ExecutionError::ConfirmationRequired)));

    let result = execute_process_analysis(&confirmed_context(), || Ok(()));
    assert!(result.is_ok());
}

#[test]
fn network_analysis_requires_user_confirmation() {
    let denied = execute_network_analysis(&ai_context(), || Ok(empty_network()));
    assert!(matches!(denied, Err(ExecutionError::ConfirmationRequired)));

    let result = execute_network_analysis(&confirmed_context(), || Ok(empty_network()));
    assert!(result.is_ok());
}

#[test]
fn service_analysis_requires_user_confirmation() {
    let denied = execute_service_analysis(&ai_context(), || Ok(empty_service()));
    assert!(matches!(denied, Err(ExecutionError::ConfirmationRequired)));
}

#[test]
fn refused_capabilities_never_reach_their_backend() {
    let mut ran = false;
    let denied = execute_service_analysis(&ai_context(), || {
        ran = true;
        Ok(empty_service())
    });
    assert!(denied.is_err());
    assert!(!ran);
}

#[test]
fn backend_failures_are_reported_as_such() {
    let result = execute_service_analysis(&confirmed_context(), || {
        Err(ServiceIntelligenceError::Systemctl("unit failure".to_owned()))
    });
    assert!(matches!(
        result,
        Err(ExecutionError::ServiceIntelligence(ServiceIntelligenceError::Systemctl(ref m))) if m == "unit failure"
    ));
}

#[test]
fn confirmed_analyses_pass_through_their_results() {
    let analysis = execute_storage_analysis(&confirmed_context(), || Ok(empty_storage("/srv")))
        .unwrap();
    assert_eq!(analysis.root, "/srv");
}

#[test]
fn execution_ids_are_fresh_version_4_uuids() {
    let id = ExecutionId::new();
    let bytes = id.as_bytes();
    assert_eq!(bytes[6] >> 4, 4);
    assert_eq!(bytes[8] >> 6, 2);
    let uuid = uuid::Uuid::from_bytes(bytes);
    assert_eq!(uuid.get_version_num(), 4);
    assert_eq!(id.text(), uuid.to_string());
    assert_ne!(ExecutionId::new(), id);
    assert_eq!(ExecutionId::default().as_bytes()[6] >> 4, 4);
}
