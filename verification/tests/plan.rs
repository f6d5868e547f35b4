use gridpool_ckpool_adapter::config::{Config, ConfigFile};
use gridpool_ckpool_adapter::difficulty::Difficulty;
use gridpool_ckpool_adapter::plan::{CoinbaseOutput, PlanError, WorkPlan};
use gridpool_ckpool_adapter::wire::WireError;

fn text(value: &str) -> String {
    value.to_owned()
}

fn number(value: f64) -> Difficulty {
    Difficulty {
        bits: value.to_bits(),
    }
}

fn config() -> Config {
    Config::load(ConfigFile {
        gridpool_url: text("http://127.0.0.1:5000/"),
        adapter_token_file: text("token"),
        socket_path: text("adapter.sock"),
        ckpool_notify_socket: None,
        queue_database: text("queue.db"),
        health_listen: text("127.0.0.1:9000"),
        expected_network_id: text("gridpool-main"),
        expected_bitcoin_network: text("mainnet"),
        minimum_protocol_version: 3,
        maximum_message_bytes: None,
        poll_interval_ms: None,
        maximum_plan_age_seconds: None,
        fee_basis_points: Some(150),
        fee_secret_file: text("fee.secret"),
        source_instance: None,
    })
    .unwrap()
}

fn listed(output_hex: &str) -> CoinbaseOutput {
    CoinbaseOutput {
        value: 7,
        address: text("bc1q"),
        script_pub_key_hex: text("51"),
        output_hex: text(output_hex),
        username: text("miner"),
        difficulty: number(12.5),
        diff_string: text("12.5"),
    }
}

// Two outputs: seven units to the script 51, and nine to the script 6a01.
fn plan() -> WorkPlan {
    WorkPlan {
        schema_version: 1,
        plan_id: "ab".repeat(32),
        sequence: 42,
        network_id: text("gridpool-main"),
        bitcoin_network: text("mainnet"),
        protocol_version: 3,
        active_snapshot_id: text("snapshot"),
        current_state_id: text("state"),
        candidate_state_id: text("candidate"),
        current_tip_block_hash: Some("0f".repeat(32)),
        current_tip_block_height: Some(800_000),
        mining_work_safe: true,
        mining_work_safety_reason: text("ok"),
        provisional_tip_block_hash: None,
        total_payout_slot_count: 2,
        shared_winner_slot_count: 1,
        support_fee_enabled: false,
        coinbase_output_count: 2,
        coinbase_tx_outputs_bytes: 22,
        coinbase_tx_outputs_hex: text("0207000000000000000151090000000000000002 6A01")
            .replace(' ', ""),
        coinbase_outputs: vec![listed("07000000000000000151"), listed("0900000000000000026a01")],
        minimum_accepted_difficulty: number(1.0),
        minimum_pulse_difficulty: number(1.0),
        minimum_difficulty_to_enter_reserve: number(2.0),
        minimum_difficulty_to_enter_reserve_display: text("2"),
        user_identifier_rule: text("address"),
        mode: text("pool"),
    }
}

fn refusal(plan: &WorkPlan) -> String {
    plan.validate(&config()).unwrap_err().message()
}

#[test]
fn a_plan_that_pays_what_it_lists_is_valid() {
    assert!(plan().validate(&config()).is_ok());
    let mut newer = plan();
    newer.protocol_version = 4;
    assert!(newer.validate(&config()).is_ok());
}

#[test]
fn unexpected_plans_are_refused() {
    let mut other = plan();
    other.schema_version = 2;
    assert_eq!(refusal(&other), "unsupported work-plan schema 2");
    let mut other = plan();
    other.network_id = text("gridpool-test");
    assert_eq!(refusal(&other), "GridPool network mismatch: gridpool-test");
    let mut other = plan();
    other.bitcoin_network = text("signet");
    assert_eq!(refusal(&other), "Bitcoin network mismatch: signet");
    let mut other = plan();
    other.protocol_version = -20;
    assert_eq!(refusal(&other), "GridPool protocol -20 is below required 3");
    let mut other = plan();
    other.mining_work_safe = false;
    other.mining_work_safety_reason = text("reorg");
    assert_eq!(refusal(&other), "GridPool reports unsafe mining work: reorg");
}

#[test]
fn plans_without_a_proper_name_are_refused() {
    let mut other = plan();
    other.plan_id = "ab".repeat(31);
    assert_eq!(refusal(&other), "invalid plan ID");
    let mut other = plan();
    other.plan_id = "zz".repeat(32);
    assert_eq!(refusal(&other), "invalid plan ID");
    // Thirty-two characters of two bytes each are as long, and no digits.
    let mut other = plan();
    other.plan_id = "\u{e9}".repeat(32);
    assert_eq!(refusal(&other), "invalid plan ID");
    let mut other = plan();
    other.plan_id = "aB".repeat(32);
    assert!(other.validate(&config()).is_ok());
}

#[test]
fn plans_without_snapshot_or_parent_are_refused() {
    let missing = "work plan is missing snapshot or current parent";
    let mut other = plan();
    other.active_snapshot_id = text("");
    assert_eq!(refusal(&other), missing);
    let mut other = plan();
    other.current_tip_block_hash = None;
    assert_eq!(refusal(&other), missing);
    let mut other = plan();
    other.current_tip_block_hash = Some("0f".repeat(31));
    assert_eq!(refusal(&other), missing);
}

#[test]
fn pulse_difficulties_are_at_least_one() {
    for bad in [0.999_999, 0.0, -1.0, f64::INFINITY, f64::NEG_INFINITY, f64::NAN, f64::MIN] {
        let mut other = plan();
        other.minimum_pulse_difficulty = number(bad);
        assert_eq!(refusal(&other), "invalid pulse difficulty");
    }
    for good in [1.0, 1.000_001, 4096.0, f64::MAX] {
        let mut other = plan();
        other.minimum_pulse_difficulty = number(good);
        assert!(other.validate(&config()).is_ok());
    }
}

#[test]
fn payouts_that_do_not_agree_are_refused() {
    let mut other = plan();
    other.coinbase_tx_outputs_hex.push('0');
    assert_eq!(refusal(&other), "decode serialized payout outputs");
    let mut other = plan();
    other.coinbase_tx_outputs_bytes = 23;
    assert_eq!(refusal(&other), "serialized payout output length mismatch");
    let mut other = plan();
    other.coinbase_output_count = 3;
    assert_eq!(refusal(&other), "payout output count mismatch");
    let mut other = plan();
    other.coinbase_tx_outputs_hex.push_str("00");
    other.coinbase_tx_outputs_bytes = 23;
    assert_eq!(refusal(&other), "trailing bytes in payout vector");
    let mut other = plan();
    other.coinbase_output_count = 3;
    other.coinbase_outputs.push(listed(""));
    assert_eq!(refusal(&other), "serialized payout vector contains 2 outputs, expected 3");
    let mut other = plan();
    other.coinbase_outputs[1].output_hex = text("0x");
    assert_eq!(refusal(&other), "decode payout output");
    let mut other = plan();
    other.coinbase_outputs[0].output_hex = text("08000000000000000151");
    assert_eq!(refusal(&other), "serialized payout vector does not match listed outputs");
    let mut other = plan();
    other.coinbase_outputs.swap(0, 1);
    assert_eq!(refusal(&other), "serialized payout vector does not match listed outputs");
}

#[test]
fn the_first_broken_condition_is_reported() {
    let mut other = plan();
    other.plan_id = text("short");
    other.schema_version = 9;
    assert!(matches!(
        other.validate(&config()),
        Err(PlanError::UnsupportedSchema(9))
    ));
    let mut other = plan();
    other.coinbase_tx_outputs_hex = text("");
    other.coinbase_tx_outputs_bytes = 0;
    assert!(matches!(
        other.validate(&config()),
        Err(PlanError::MalformedOutputs(WireError::MissingCompactSize))
    ));
}

#[test]
fn an_empty_vector_goes_with_an_empty_list() {
    let mut other = plan();
    other.coinbase_tx_outputs_hex = text("00");
    other.coinbase_tx_outputs_bytes = 1;
    other.coinbase_output_count = 0;
    other.coinbase_outputs = vec![];
    assert!(other.validate(&config()).is_ok());
}
