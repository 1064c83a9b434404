//! Capability-oriented tool registry.
//!
//! The registry describes what the platform can do, separately from the
//! commands or libraries that implement each capability.

use vstd::prelude::*;

verus! {

#[derive(Debug, Clone, Copy, PartialEq, Eq, Structural)]
pub enum RiskLevel {
    ReadOnly,
    Low,
    Reversible,
    Moderate,
    Destructive,
    SystemCritical,
}

#[derive(Debug, Clone, PartialEq, Eq)]
pub struct ToolDefinition {
    pub id: String,
    pub version: String,
    pub name: String,
    pub description: String,
    pub category: String,
    pub risk: RiskLevel,
    pub permissions: Vec<String>,
    pub ai_autonomous: bool,
}

/// The permissions of a tool, each taken as its characters.
pub open spec fn permission_views(tool: ToolDefinition) -> Seq<Seq<char>> {
    tool.permissions@.map_values(|p: String| p@)
}

/// Every field of the tool is the given value.
pub open spec fn describes(
    tool: ToolDefinition,
    id: Seq<char>,
    version: Seq<char>,
    name: Seq<char>,
    description: Seq<char>,
    category: Seq<char>,
    risk: RiskLevel,
    permissions: Seq<Seq<char>>,
    ai_autonomous: bool,
) -> bool {
    &&& tool.id@ == id
    &&& tool.version@ == version
    &&& tool.name@ == name
    &&& tool.description@ == description
    &&& tool.category@ == category
    &&& tool.risk == risk
    &&& permission_views(tool) == permissions
    &&& tool.ai_autonomous == ai_autonomous
}

impl ToolDefinition {
    /// A tool with no permissions that the AI may not run on its own.
    pub fn new(
        id: &str,
        version: &str,
        name: &str,
        description: &str,
        category: &str,
        risk: RiskLevel,
    ) -> (tool: Self)
        ensures
            describes(tool, id@, version@, name@, description@, category@, risk, seq![], false),
    {
        let tool = ToolDefinition {
            id: id.to_owned(),
            version: version.to_owned(),
            name: name.to_owned(),
            description: description.to_owned(),
            category: category.to_owned(),
            risk,
            permissions: Vec::new(),
            ai_autonomous: false,
        };
        assert(permission_views(tool) =~= seq![]);
        tool
    }
}

fn read_only_tool(id: &str, name: &str, description: &str, category: &str) -> (tool: ToolDefinition)
    ensures
        describes(
            tool,
            id@,
            "0.1.0"@,
            name@,
            description@,
            category@,
            RiskLevel::ReadOnly,
            seq!["system.read"@],
            true,
        ),
{
    let mut tool = ToolDefinition::new(id, "0.1.0", name, description, category, RiskLevel::ReadOnly);
    tool.permissions.push("system.read".to_owned());
    tool.ai_autonomous = true;
    assert(permission_views(tool) =~= seq!["system.read"@]);
    tool
}

/// An analysis tool at `Low` risk that needs the user's authorization.
fn analysis_tool(
    id: &str,
    name: &str,
    description: &str,
    category: &str,
    permission: &str,
) -> (tool: ToolDefinition)
    ensures
        describes(
            tool,
            id@,
            "0.1.0"@,
            name@,
            description@,
            category@,
            RiskLevel::Low,
            seq![permission@],
            false,
        ),
{
    let mut tool = ToolDefinition::new(id, "0.1.0", name, description, category, RiskLevel::Low);
    tool.permissions.push(permission.to_owned());
    tool.ai_autonomous = false;
    assert(permission_views(tool) =~= seq![permission@]);
    tool
}

pub fn system_status_tool() -> (tool: ToolDefinition)
    ensures
        describes(
            tool,
            "system.status"@,
            "0.1.0"@,
            "System Status"@,
            "Read basic operating-system and hardware status information."@,
            "system"@,
            RiskLevel::ReadOnly,
            seq!["system.read"@],
            true,
        ),
{
    read_only_tool(
        "system.status",
        "System Status",
        "Read basic operating-system and hardware status information.",
        "system",
    )
}

pub fn unified_system_intelligence_tool() -> (tool: ToolDefinition)
    ensures
        describes(
            tool,
            "system.intelligence"@,
            "0.1.0"@,
            "Unified System Intelligence"@,
            "Aggregate bounded storage, process, network, and service signals into one system health snapshot."@,
            "system"@,
            RiskLevel::ReadOnly,
            seq!["system.read"@, "filesystem.read"@],
            true,
        ),
{
    let mut tool = read_only_tool(
        "system.intelligence",
        "Unified System Intelligence",
        "Aggregate bounded storage, process, network, and service signals into one system health snapshot.",
        "system",
    );
    let ghost before = tool.permissions@;
    assert(permission_views(tool) == seq!["system.read"@]);
    assert(permission_views(tool).len() == 1);
    assert(before.len() == 1);
    assert(before[0]@ == "system.read"@) by {
        assert(permission_views(tool)[0] == before[0]@);
    }
    tool.permissions.push("filesystem.read".to_owned());
    assert(tool.permissions@ == before.push(tool.permissions@[1]));
    assert(permission_views(tool) =~= seq!["system.read"@, "filesystem.read"@]);
    tool
}

pub fn storage_status_tool() -> (tool: ToolDefinition)
    ensures
        describes(
            tool,
            "storage.status"@,
            "0.1.0"@,
            "Storage Status"@,
            "Read filesystem capacity and mount information."@,
            "storage"@,
            RiskLevel::ReadOnly,
            seq!["system.read"@],
            true,
        ),
{
    read_only_tool(
        "storage.status",
        "Storage Status",
        "Read filesystem capacity and mount information.",
        "storage",
    )
}

pub fn storage_intelligence_tool() -> (tool: ToolDefinition)
    ensures
        describes(
            tool,
            "storage.analyze"@,
            "0.1.0"@,
            "Storage Intelligence"@,
            "Analyze a user-selected directory with bounded, read-only traversal to identify major space consumers."@,
            "storage"@,
            RiskLevel::Low,
            seq!["filesystem.read"@],
            false,
        ),
{
    analysis_tool(
        "storage.analyze",
        "Storage Intelligence",
        "Analyze a user-selected directory with bounded, read-only traversal to identify major space consumers.",
        "storage",
        "filesystem.read",
    )
}

pub fn process_status_tool() -> (tool: ToolDefinition)
    ensures
        describes(
            tool,
            "process.status"@,
            "0.1.0"@,
            "Process Status"@,
            "Read a bounded snapshot of running processes and memory usage."@,
            "processes"@,
            RiskLevel::ReadOnly,
            seq!["system.read"@],
            true,
        ),
{
    read_only_tool(
        "process.status",
        "Process Status",
        "Read a bounded snapshot of running processes and memory usage.",
        "processes",
    )
}

pub fn process_intelligence_tool() -> (tool: ToolDefinition)
    ensures
        describes(
            tool,
            "process.analyze"@,
            "0.1.0"@,
            "Process Intelligence"@,
            "Analyze a bounded process snapshot for resource concentration, process hierarchy, and deterministic anomalies."@,
            "processes"@,
            RiskLevel::Low,
            seq!["system.read"@],
            false,
        ),
{
    analysis_tool(
        "process.analyze",
        "Process Intelligence",
        "Analyze a bounded process snapshot for resource concentration, process hierarchy, and deterministic anomalies.",
        "processes",
        "system.read",
    )
}

pub fn network_status_tool() -> (tool: ToolDefinition)
    ensures
        describes(
            tool,
            "network.status"@,
            "0.1.0"@,
            "Network Status"@,
            "Read network interface state and traffic counters."@,
            "network"@,
            RiskLevel::ReadOnly,
            seq!["system.read"@],
            true,
        ),
{
    read_only_tool(
        "network.status",
        "Network Status",
        "Read network interface state and traffic counters.",
        "network",
    )
}

pub fn network_intelligence_tool() -> (tool: ToolDefinition)
    ensures
        describes(
            tool,
            "network.analyze"@,
            "0.1.0"@,
            "Network Intelligence"@,
            "Analyze bounded TCP socket state, listening ports, established connections, and deterministic network signals."@,
            "network"@,
            RiskLevel::Low,
            seq!["network.read"@],
            false,
        ),
{
    analysis_tool(
        "network.analyze",
        "Network Intelligence",
        "Analyze bounded TCP socket state, listening ports, established connections, and deterministic network signals.",
        "network",
        "network.read",
    )
}

pub fn service_intelligence_tool() -> (tool: ToolDefinition)
    ensures
        describes(
            tool,
            "service.analyze"@,
            "0.1.0"@,
            "Service Intelligence"@,
            "Analyze bounded systemd service state and deterministic failure signals without mutating services."@,
            "services"@,
            RiskLevel::Low,
            seq!["system.read"@],
            false,
        ),
{
    analysis_tool(
        "service.analyze",
        "Service Intelligence",
        "Analyze bounded systemd service state and deterministic failure signals without mutating services.",
        "services",
        "system.read",
    )
}

pub fn monitoring_status_tool() -> (tool: ToolDefinition)
    ensures
        describes(
            tool,
            "monitoring.status"@,
            "0.1.0"@,
            "Realtime Monitoring"@,
            "Read live CPU, memory, swap and network throughput metrics."@,
            "monitoring"@,
            RiskLevel::ReadOnly,
            seq!["system.read"@],
            true,
        ),
{
    read_only_tool(
        "monitoring.status",
        "Realtime Monitoring",
        "Read live CPU, memory, swap and network throughput metrics.",
        "monitoring",
    )
}

pub fn health_status_tool() -> (tool: ToolDefinition)
    ensures
        describes(
            tool,
            "health.status"@,
            "0.1.0"@,
            "System Health"@,
            "Evaluate deterministic health and anomaly signals from trusted system metrics."@,
            "health"@,
            RiskLevel::ReadOnly,
            seq!["system.read"@],
            true,
        ),
{
    read_only_tool(
        "health.status",
        "System Health",
        "Evaluate deterministic health and anomaly signals from trusted system metrics.",
        "health",
    )
}

} // verus!
