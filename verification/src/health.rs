//! What the adapter tells of its state.

use vstd::prelude::*;

use crate::metrics::Metrics;

verus! {

/// The state of the adapter.
#[derive(Debug, Clone)]
pub struct HealthReport {
    pub status: &'static str,
    pub ipc_schema_version: u32,
    pub plan_id: Option<String>,
    pub active_snapshot_id: Option<String>,
    pub parent_hash: Option<String>,
    pub plan_updated_unix_ms: Option<u128>,
    pub plan_age_ms: Option<u128>,
    pub maximum_plan_age_seconds: u64,
    pub queue_depth: i64,
    pub fee_basis_points: u16,
    pub metrics: Metrics,
}

} // verus!
