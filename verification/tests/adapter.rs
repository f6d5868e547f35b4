use gridpool_ckpool_adapter::adapter::{Adapter, PlanEvent, PlanStep};
use gridpool_ckpool_adapter::cache::PlanUnavailable;
use gridpool_ckpool_adapter::config::{Config, ConfigFile};
use gridpool_ckpool_adapter::difficulty::Difficulty;
use gridpool_ckpool_adapter::fee::fee_bucket;
use gridpool_ckpool_adapter::ipc::{
    check_schema, IpcData, IpcError, IpcRequest, IpcResponse, IpcStep, IPC_SCHEMA_VERSION,
};
use gridpool_ckpool_adapter::plan::WorkPlan;
use gridpool_ckpool_adapter::queue::QueueStep;
use gridpool_ckpool_adapter::telemetry::{ShareReport, WorkSums};

fn text(value: &str) -> String {
    value.to_owned()
}

fn number(value: f64) -> Difficulty {
    Difficulty {
        bits: value.to_bits(),
    }
}

fn adapter() -> Adapter {
    let config = Config::load(ConfigFile {
        gridpool_url: text("http://node"),
        adapter_token_file: text("token"),
        socket_path: text("adapter.sock"),
        ckpool_notify_socket: Some(text("stratifier")),
        queue_database: text("queue.db"),
        health_listen: text("127.0.0.1:9000"),
        expected_network_id: text("gridpool-main"),
        expected_bitcoin_network: text("mainnet"),
        minimum_protocol_version: 3,
        maximum_message_bytes: None,
        poll_interval_ms: Some(700),
        maximum_plan_age_seconds: None,
        fee_basis_points: Some(9_027),
        fee_secret_file: text("fee.secret"),
        source_instance: None,
    })
    .unwrap();
    Adapter::new(config, vec![3; 32])
}

fn plan(id: &str, state: &str) -> WorkPlan {
    WorkPlan {
        schema_version: 1,
        plan_id: id.repeat(32),
        sequence: 42,
        network_id: text("gridpool-main"),
        bitcoin_network: text("mainnet"),
        protocol_version: 3,
        active_snapshot_id: text("snapshot"),
        current_state_id: text(state),
        candidate_state_id: text("candidate"),
        current_tip_block_hash: Some("02".repeat(32)),
        current_tip_block_height: None,
        mining_work_safe: true,
        mining_work_safety_reason: text("ok"),
        provisional_tip_block_hash: None,
        total_payout_slot_count: 0,
        shared_winner_slot_count: 0,
        support_fee_enabled: false,
        coinbase_output_count: 0,
        coinbase_tx_outputs_bytes: 1,
        coinbase_tx_outputs_hex: text("00"),
        coinbase_outputs: vec![],
        minimum_accepted_difficulty: number(1.0),
        minimum_pulse_difficulty: number(1.0),
        minimum_difficulty_to_enter_reserve: number(2.0),
        minimum_difficulty_to_enter_reserve_display: text("2"),
        user_identifier_rule: text("address"),
        mode: text("pool"),
    }
}

fn refusal(step: IpcStep) -> String {
    match step {
        IpcStep::Respond(IpcResponse::Error { schema_version, code, message }) => {
            assert_eq!(schema_version, IPC_SCHEMA_VERSION);
            assert_eq!(code, "request_failed");
            message
        }
        other => panic!("not refused: {other:?}"),
    }
}

fn fee_request(parent: &str, script: &str) -> IpcRequest {
    IpcRequest::FeeDecision {
        schema_version: 1,
        parent_hash: parent.repeat(32),
        payout_script_hex: text(script),
        unix_seconds: 123_456,
    }
}

fn share_request(difficulty: f64) -> IpcRequest {
    IpcRequest::RecordShare {
        schema_version: 1,
        channel_id: text("c"),
        payout_address: text("a"),
        username: text("u"),
        accepted: true,
        difficulty: number(difficulty),
        fee_work: true,
        observed_unix_ms: 9,
    }
}

#[test]
fn another_plan_replaces_the_one_at_hand() {
    let mut adapter = adapter();
    assert_eq!(adapter.install_plan(plan("ab", "one"), 1_000).unwrap(), true);
    assert_eq!(adapter.install_plan(plan("cd", "two"), 2_000).unwrap(), true);
    assert_eq!(adapter.metrics.plan_updates, 2);
    let current = adapter.plans.current_plan(&adapter.config, 2_000).unwrap();
    assert_eq!(current.current_state_id, "two");
}

#[test]
fn a_heartbeat_refreshes_the_age_and_keeps_the_plan() {
    let mut adapter = adapter();
    adapter.install_plan(plan("ab", "one"), 1_000).unwrap();
    assert_eq!(adapter.install_plan(plan("ab", "two"), 31_000).unwrap(), false);
    assert_eq!(adapter.metrics.plan_updates, 1);
    let current = adapter.plans.current_plan(&adapter.config, 61_000).unwrap();
    assert_eq!(current.current_state_id, "one");
    assert_eq!(adapter.plans.plan_age_ms(61_000), Some(30_000));
}

#[test]
fn a_refused_plan_changes_nothing() {
    let mut adapter = adapter();
    adapter.install_plan(plan("ab", "one"), 1_000).unwrap();
    let mut bad = plan("cd", "two");
    bad.mining_work_safe = false;
    assert!(adapter.install_plan(bad, 5_000).is_err());
    assert_eq!(adapter.plans.updated_unix_ms, Some(1_000));
    assert_eq!(adapter.metrics.plan_updates, 1);
    assert_eq!(
        adapter.plans.current_plan(&adapter.config, 1_000).unwrap().current_state_id,
        "one"
    );
}

#[test]
fn ckpool_is_told_of_other_plans_only() {
    let adapter = adapter();
    assert_eq!(adapter.socket_to_notify(true).unwrap(), "stratifier");
    assert_eq!(adapter.socket_to_notify(false), None);
    let mut config = adapter.config.clone();
    config.ckpool_notify_socket = None;
    assert_eq!(Adapter::new(config, vec![]).socket_to_notify(true), None);
}

#[test]
fn stale_and_missing_plans_are_not_served() {
    let mut adapter = adapter();
    let get = || IpcRequest::GetPlan { schema_version: 1 };
    assert_eq!(refusal(adapter.process_ipc(get(), 0)), "no valid GridPool work plan");
    assert_eq!(
        refusal(adapter.process_ipc(fee_request("02", "51"), 0)),
        "no valid GridPool work plan"
    );
    adapter.install_plan(plan("ab", "one"), 1_000).unwrap();
    assert!(matches!(
        adapter.process_ipc(get(), 31_000),
        IpcStep::Respond(IpcResponse::Success { schema_version: 1, data: IpcData::Plan(p) })
            if p.current_state_id == "one"
    ));
    assert_eq!(
        refusal(adapter.process_ipc(get(), 31_001)),
        "GridPool work plan is stale (30001 ms old)"
    );
    assert_eq!(
        refusal(adapter.process_ipc(fee_request("02", "51"), 31_001)),
        "GridPool work plan is stale (30001 ms old)"
    );
    // A clock that went back makes no plan older.
    assert!(adapter.plans.current_plan(&adapter.config, 0).is_ok());
    assert_eq!(
        adapter.plans.current_plan(&adapter.config, 99_000).unwrap_err(),
        PlanUnavailable::Stale { age_ms: 98_000 }
    );
}

#[test]
fn other_schemas_are_refused_whatever_is_asked() {
    let adapter = adapter();
    let value = serde_json::Value::Null;
    let requests = vec![
        IpcRequest::GetPlan { schema_version: 2 },
        IpcRequest::FeeDecision {
            schema_version: 2,
            parent_hash: text(""),
            payout_script_hex: text(""),
            unix_seconds: 0,
        },
        IpcRequest::SubmitProof { schema_version: 2, proof: value.clone() },
        IpcRequest::SubmitTelemetry { schema_version: 2, batch: value },
        IpcRequest::RecordShare {
            schema_version: 2,
            channel_id: text("c"),
            payout_address: text("a"),
            username: text("u"),
            accepted: true,
            difficulty: number(f64::NAN),
            fee_work: false,
            observed_unix_ms: 0,
        },
        IpcRequest::Health { schema_version: 2 },
    ];
    for request in requests {
        assert_eq!(refusal(adapter.process_ipc(request, 0)), "unsupported IPC schema 2");
    }
    assert!(check_schema(1).is_ok());
    assert_eq!(check_schema(0).unwrap_err().message(), "unsupported IPC schema 0");
}

#[test]
fn fee_decisions_follow_the_schedule() {
    let mut adapter = adapter();
    adapter.install_plan(plan("ab", "one"), 1_000).unwrap();
    match adapter.process_ipc(fee_request("02", "0014cafe"), 1_000) {
        IpcStep::Respond(IpcResponse::Success {
            schema_version,
            data: IpcData::FeeDecision { bucket, bucket_seconds, fee_active, fee_basis_points },
        }) => {
            assert_eq!(schema_version, 1);
            assert_eq!((bucket, bucket_seconds, fee_basis_points), (12_345, 10, 9_027));
            assert!(fee_active);
            assert_eq!(
                fee_bucket(&[3; 32], "mainnet", &"02".repeat(32), "0014cafe", 123_456, 9_027),
                Ok((bucket, fee_active))
            );
        }
        other => panic!("no decision: {other:?}"),
    }
}

#[test]
fn fee_requests_are_checked() {
    let mut adapter = adapter();
    adapter.install_plan(plan("ab", "one"), 1_000).unwrap();
    assert_eq!(
        refusal(adapter.process_ipc(fee_request("03", "51"), 1_000)),
        "fee request parent does not match current plan"
    );
    assert_eq!(
        refusal(adapter.process_ipc(fee_request("02", "5"), 1_000)),
        "invalid payout script"
    );
    adapter.config.fee_basis_points = 10_001;
    assert_eq!(
        refusal(adapter.process_ipc(fee_request("02", "51"), 1_000)),
        "fee basis points exceed 10000"
    );
}

#[test]
fn proofs_are_stored_and_counted() {
    let mut adapter = adapter();
    let proof: serde_json::Value = serde_json::from_str("{\"b\": 2, \"a\": 1}").unwrap();
    match adapter.process_ipc(IpcRequest::SubmitProof { schema_version: 1, proof }, 0) {
        IpcStep::QueueProof { payload } => assert_eq!(payload, "{\"a\":1,\"b\":2}"),
        other => panic!("not stored: {other:?}"),
    }
    assert!(matches!(
        adapter.proof_queued(Ok(())),
        IpcResponse::Success { schema_version: 1, data: IpcData::Queued }
    ));
    assert_eq!(adapter.metrics.queued_proofs, 1);
    let response = adapter.proof_queued(Err(text("disk full")));
    assert_eq!(refusal(IpcStep::Respond(response)), "disk full");
    assert_eq!(adapter.metrics.queued_proofs, 1);
}

#[test]
fn telemetry_batches_are_passed_on_and_counted() {
    let mut adapter = adapter();
    let batch: serde_json::Value = serde_json::from_str("[1, 2]").unwrap();
    match adapter.process_ipc(IpcRequest::SubmitTelemetry { schema_version: 1, batch: batch.clone() }, 0) {
        IpcStep::PostTelemetry { batch: passed } => assert_eq!(passed, batch),
        other => panic!("not passed on: {other:?}"),
    }
    assert!(matches!(
        adapter.telemetry_posted(Ok(())),
        IpcResponse::Success { schema_version: 1, data: IpcData::TelemetryAccepted }
    ));
    adapter.flush_settled(true, Vec::new(), Vec::new());
    assert_eq!(adapter.metrics.telemetry_batches, 2);
    let response = adapter.telemetry_posted(Err(text("no route")));
    assert_eq!(refusal(IpcStep::Respond(response)), "no route");
    assert_eq!(adapter.metrics.telemetry_batches, 2);
}

#[test]
fn shares_are_checked_and_recorded() {
    let mut adapter = adapter();
    for bad in [f64::NAN, f64::INFINITY, -1.0] {
        assert_eq!(
            refusal(adapter.process_ipc(share_request(bad), 0)),
            "invalid telemetry difficulty"
        );
    }
    let share: ShareReport = match adapter.process_ipc(share_request(4.0), 0) {
        IpcStep::RecordShare(share) => share,
        other => panic!("not recorded: {other:?}"),
    };
    assert_eq!((share.username.as_str(), share.observed_unix_ms), ("u", 9));
    let sums = WorkSums { accepted: number(4.0), fee: number(4.0) };
    assert!(matches!(
        adapter.record_share(share, sums),
        IpcResponse::Success { schema_version: 1, data: IpcData::Recorded }
    ));
    assert_eq!(adapter.telemetry.entries.len(), 1);
    assert_eq!(adapter.telemetry.entries[0].fee_difficulty, number(4.0));
}

#[test]
fn a_batch_that_was_not_sent_is_put_back() {
    let mut adapter = adapter();
    let share = |accepted: bool, at: i64| ShareReport {
        channel_id: text("1"),
        payout_address: text("address"),
        username: text("worker"),
        accepted,
        difficulty: number(2.0),
        fee_work: false,
        observed_unix_ms: at,
    };
    let sums = |value: f64| WorkSums { accepted: number(value), fee: number(0.0) };
    adapter.record_share(share(true, 10), sums(2.0));
    let pending = adapter.telemetry.flush().unwrap();
    adapter.record_share(share(false, 20), sums(2.0));
    adapter.flush_settled(false, pending, vec![sums(2.0)]);
    assert_eq!(adapter.metrics.telemetry_batches, 0);
    assert_eq!(adapter.telemetry.entries.len(), 1);
    let entry = &adapter.telemetry.entries[0];
    assert_eq!((entry.accepted_shares, entry.rejected_shares), (1, 1));
    assert_eq!((entry.window_start_unix_ms, entry.window_end_unix_ms), (10, 20));
    assert_eq!(entry.accepted_difficulty, number(2.0));
    let pending = adapter.telemetry.flush().unwrap();
    adapter.flush_settled(true, pending, Vec::new());
    assert_eq!(adapter.metrics.telemetry_batches, 1);
    assert_eq!(adapter.telemetry.entries.len(), 0);
}

#[test]
fn requests_and_deliveries_are_counted() {
    let mut adapter = adapter();
    adapter.count_request();
    adapter.count_request();
    adapter.delivery_settled(QueueStep::Remove);
    adapter.delivery_settled(QueueStep::Discard);
    adapter.delivery_settled(QueueStep::Retry { next_attempt_unix: 4 });
    assert_eq!(adapter.metrics.ipc_requests, 2);
    assert_eq!(adapter.metrics.submitted_proofs, 1);
    assert_eq!(adapter.metrics.failed_proofs, 2);
}

#[test]
fn health_is_ready_while_a_plan_is_served() {
    let mut adapter = adapter();
    let report = adapter.health_value(None, 500);
    assert_eq!(report.status, "waiting-for-plan");
    assert_eq!(report.queue_depth, -1);
    assert_eq!((report.plan_id, report.plan_age_ms), (None, None));
    adapter.install_plan(plan("ab", "one"), 1_000).unwrap();
    let report = adapter.health_value(Some(4), 31_000);
    assert_eq!(report.status, "ready");
    assert_eq!(report.ipc_schema_version, 1);
    assert_eq!(report.plan_id, Some("ab".repeat(32)));
    assert_eq!(report.active_snapshot_id.as_deref(), Some("snapshot"));
    assert_eq!(report.parent_hash, Some("02".repeat(32)));
    assert_eq!(report.plan_updated_unix_ms, Some(1_000));
    assert_eq!(report.plan_age_ms, Some(30_000));
    assert_eq!(report.maximum_plan_age_seconds, 30);
    assert_eq!(report.queue_depth, 4);
    assert_eq!(report.fee_basis_points, 9_027);
    assert_eq!(report.metrics.plan_updates, 1);
    let report = adapter.health_value(Some(4), 31_001);
    assert_eq!(report.status, "waiting-for-plan");
    assert!(matches!(
        adapter.process_ipc(IpcRequest::Health { schema_version: 1 }, 0),
        IpcStep::ReportHealth
    ));
    assert!(matches!(
        adapter.health_response(Some(1), 2_000),
        IpcResponse::Success { schema_version: 1, data: IpcData::Health(report) }
            if report.status == "ready" && report.queue_depth == 1
    ));
}

#[test]
fn a_broken_stream_falls_back_to_polling() {
    let mut adapter = adapter();
    assert_eq!(adapter.next_plan_step(PlanEvent::Started), PlanStep::Stream);
    assert_eq!(adapter.next_plan_step(PlanEvent::StreamFailed), PlanStep::Poll);
    assert_eq!(adapter.next_plan_step(PlanEvent::PollSucceeded), PlanStep::Rest { millis: 700 });
    assert_eq!(adapter.next_plan_step(PlanEvent::Rested), PlanStep::Stream);
    assert_eq!(adapter.next_plan_step(PlanEvent::StreamEnded), PlanStep::Poll);
    assert_eq!(adapter.metrics.plan_errors, 0);
    assert_eq!(adapter.next_plan_step(PlanEvent::PollFailed), PlanStep::Rest { millis: 700 });
    assert_eq!(adapter.metrics.plan_errors, 1);
}

#[test]
fn failures_of_outside_work_keep_their_message() {
    assert_eq!(IpcError::Failed(text("why")).message(), "why");
    assert_eq!(IpcError::Plan(PlanUnavailable::NoPlan).message(), "no valid GridPool work plan");
}
