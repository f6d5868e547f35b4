//! Counters of what the adapter did.

use vstd::prelude::*;

verus! {

/// How often each thing happened.
#[derive(Debug, Clone, Copy, PartialEq, Eq, Structural)]
pub struct Metrics {
    pub plan_updates: u64,
    pub plan_errors: u64,
    pub ipc_requests: u64,
    pub queued_proofs: u64,
    pub submitted_proofs: u64,
    pub failed_proofs: u64,
    pub telemetry_batches: u64,
}

impl Default for Metrics {
    fn default() -> (metrics: Metrics)
        ensures
            metrics == (Metrics {
                plan_updates: 0,
                plan_errors: 0,
                ipc_requests: 0,
                queued_proofs: 0,
                submitted_proofs: 0,
                failed_proofs: 0,
                telemetry_batches: 0,
            }),
    {
        Metrics {
            plan_updates: 0,
            plan_errors: 0,
            ipc_requests: 0,
            queued_proofs: 0,
            submitted_proofs: 0,
            failed_proofs: 0,
            telemetry_batches: 0,
        }
    }
}

} // verus!
