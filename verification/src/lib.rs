//! Verified core of a desktop toolkit that gives safe, structured access to
//! Linux system capabilities: the tool registry, the policy gate, the
//! execution boundary, alert policies and the alert action pipeline.

pub mod core_types;
pub mod text;
pub mod ranking;
pub mod tool_registry;
pub mod policy;
pub mod health;
pub mod alerts;
pub mod alert_history;
pub mod alert_history_store;
pub mod alert_actions;
pub mod alert_guidance;
pub mod correlation;
pub mod remediation;
pub mod audit;
pub mod storage;
pub mod process;
pub mod network;
pub mod service;
pub mod intelligence;
pub mod system_status;
pub mod monitoring;
pub mod execution;
pub mod safe_action;
