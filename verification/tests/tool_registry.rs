use powerhouse::tool_registry::{
    health_status_tool, monitoring_status_tool, network_intelligence_tool, network_status_tool,
    process_intelligence_tool, process_status_tool, service_intelligence_tool,
    storage_intelligence_tool, storage_status_tool, system_status_tool,
    unified_system_intelligence_tool, RiskLevel, ToolDefinition,
};

#[test]
fn dashboard_tools_are_read_only_and_ai_safe() {
    for tool in [
        system_status_tool(),
        unified_system_intelligence_tool(),
        storage_status_tool(),
        process_status_tool(),
        network_status_tool(),
        monitoring_status_tool(),
        health_status_tool(),
    ] {
        assert_eq!(tool.risk, RiskLevel::ReadOnly);
        assert!(tool.ai_autonomous);
        assert!(tool.permissions.iter().any(|p| p == "system.read"));
    }
}

#[test]
fn unified_intelligence_requires_read_permissions() {
    let tool = unified_system_intelligence_tool();
    assert_eq!(tool.risk, RiskLevel::ReadOnly);
    assert!(tool.ai_autonomous);
    assert!(tool.permissions.iter().any(|p| p == "system.read"));
    assert!(tool.permissions.iter().any(|p| p == "filesystem.read"));
}

#[test]
fn analysis_tools_require_explicit_user_authorization() {
    let storage = storage_intelligence_tool();
    assert_eq!(storage.risk, RiskLevel::Low);
    assert!(!storage.ai_autonomous);
    assert!(storage.permissions.iter().any(|p| p == "filesystem.read"));

    let process = process_intelligence_tool();
    assert_eq!(process.risk, RiskLevel::Low);
    assert!(!process.ai_autonomous);
    assert!(process.permissions.iter().any(|p| p == "system.read"));

    let network = network_intelligence_tool();
    assert_eq!(network.risk, RiskLevel::Low);
    assert!(!network.ai_autonomous);
    assert!(network.permissions.iter().any(|p| p == "network.read"));

    let service = service_intelligence_tool();
    assert_eq!(service.risk, RiskLevel::Low);
    assert!(!service.ai_autonomous);
    assert!(service.permissions.iter().any(|p| p == "system.read"));
}

#[test]
fn registered_tools_have_stable_identifiers() {
    assert_eq!(system_status_tool().id, "system.status");
    assert_eq!(storage_intelligence_tool().id, "storage.analyze");
    for tool in [system_status_tool(), storage_intelligence_tool()] {
        assert_eq!(tool.version, "0.1.0");
    }
}

#[test]
fn new_tools_start_without_permissions_or_autonomy() {
    let tool = ToolDefinition::new("x.y", "1.0.0", "X", "Does x.", "x", RiskLevel::Destructive);
    assert_eq!(tool.id, "x.y");
    assert_eq!(tool.risk, RiskLevel::Destructive);
    assert!(tool.permissions.is_empty());
    assert!(!tool.ai_autonomous);
}
