//! Unified, read-only system intelligence: one snapshot aggregated from the
//! storage, process, network and service analyses.

use vstd::prelude::*;
use crate::network::NetworkAnalysis;
use crate::service::ServiceAnalysis;
use crate::storage::StorageAnalysis;

verus! {

#[derive(Debug, Clone, PartialEq, Eq)]
pub enum UnifiedSystemIntelligenceError {
    Storage(String),
    Process(String),
    Network(String),
    Service(String),
}

#[derive(Debug, Clone, Copy, PartialEq, Eq, Structural)]
pub enum HealthLevel {
    Healthy,
    Attention,
    Degraded,
}

#[derive(Debug, Clone, Copy, PartialEq, Eq, Structural)]
pub struct SystemIntelligenceSnapshot {
    pub health: HealthLevel,
    pub storage_anomalies: usize,
    pub process_anomalies: usize,
    pub network_anomalies: usize,
    pub service_anomalies: usize,
    pub total_anomalies: usize,
}

/// No anomaly is healthy, one to three need attention, more is degraded.
pub open spec fn health_for_spec(total: int) -> HealthLevel {
    if total == 0 {
        HealthLevel::Healthy
    } else if total <= 3 {
        HealthLevel::Attention
    } else {
        HealthLevel::Degraded
    }
}

pub fn health_for(total: usize) -> (health: HealthLevel)
    ensures
        health == health_for_spec(total as int),
{
    match total {
        0 => HealthLevel::Healthy,
        1..=3 => HealthLevel::Attention,
        _ => HealthLevel::Degraded,
    }
}

/// A storage scan counts one anomaly for being truncated and one for
/// having skipped entries.
pub open spec fn storage_anomaly_count(storage: StorageAnalysis) -> int {
    (if storage.truncated { 1int } else { 0int }) + (if storage.skipped_entries > 0 {
        1int
    } else {
        0int
    })
}

/// A storage scan contributes one anomaly for each way it fell short: none
/// when it was complete and skipped nothing, two when it was both truncated
/// and skipped entries, and one when only one of these happened.
pub proof fn lemma_storage_anomalies_count_the_failures(storage: StorageAnalysis)
    ensures
        0 <= storage_anomaly_count(storage) <= 2,
        storage_anomaly_count(storage) == 0 <==> (!storage.truncated && storage.skipped_entries == 0),
        storage_anomaly_count(storage) == 2 <==> (storage.truncated && storage.skipped_entries > 0),
        storage.truncated && storage.skipped_entries == 0 ==> storage_anomaly_count(storage) == 1,
        !storage.truncated && storage.skipped_entries > 0 ==> storage_anomaly_count(storage) == 1,
{
}

/// Build one bounded, deterministic snapshot from the analyses of storage
/// (of a caller-approved root), processes, network and services. The process
/// analysis enters through the number of anomalies it reported.
pub fn snapshot(
    storage: &StorageAnalysis,
    process_anomalies: usize,
    network: &NetworkAnalysis,
    service: &ServiceAnalysis,
) -> (result: SystemIntelligenceSnapshot)
    requires
        2 + process_anomalies + network.anomalies@.len() + service.anomalies@.len() <= usize::MAX,
    ensures
        result.storage_anomalies == storage_anomaly_count(*storage),
        result.process_anomalies == process_anomalies,
        result.network_anomalies == network.anomalies@.len(),
        result.service_anomalies == service.anomalies@.len(),
        result.total_anomalies == result.storage_anomalies + result.process_anomalies
            + result.network_anomalies + result.service_anomalies,
        result.health == health_for_spec(result.total_anomalies as int),
        result.storage_anomalies <= 2,
        result.storage_anomalies == 0 <==> (!storage.truncated && storage.skipped_entries == 0),
        result.storage_anomalies == 2 <==> (storage.truncated && storage.skipped_entries > 0),
        result.health == HealthLevel::Healthy <==> (!storage.truncated && storage.skipped_entries
            == 0 && process_anomalies == 0 && network.anomalies@.len() == 0
            && service.anomalies@.len() == 0),
{
    proof {
        lemma_storage_anomalies_count_the_failures(*storage);
    }
    let storage_anomalies: usize = (if storage.truncated { 1 } else { 0 }) + (if storage.skipped_entries
        > 0 {
        1
    } else {
        0
    });
    let network_anomalies = network.anomalies.len();
    let service_anomalies = service.anomalies.len();
    let total_anomalies = storage_anomalies + process_anomalies + network_anomalies
        + service_anomalies;
    SystemIntelligenceSnapshot {
        health: health_for(total_anomalies),
        storage_anomalies,
        process_anomalies,
        network_anomalies,
        service_anomalies,
        total_anomalies,
    }
}

/// The health level never improves as anomalies are added.
pub proof fn lemma_health_is_monotone(a: int, b: int)
    requires
        0 <= a <= b,
    ensures
        (health_for_spec(a) == HealthLevel::Degraded) ==> (health_for_spec(b)
            == HealthLevel::Degraded),
        (health_for_spec(b) == HealthLevel::Healthy) ==> (health_for_spec(a)
            == HealthLevel::Healthy),
{
}

} // verus!
