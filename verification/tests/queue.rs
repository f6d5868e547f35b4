use gridpool_ckpool_adapter::frame::{check_length, frame_response, read_length, FrameError};
use gridpool_ckpool_adapter::config::{Config, ConfigFile};
use gridpool_ckpool_adapter::payload::{proof_payload, queued_proof};
use gridpool_ckpool_adapter::queue::{
    decide, next_attempt, permanent_rejection, reported_error, retry_delay_seconds, Delivery,
    QueueStep,
};

fn config() -> Config {
    Config::load(ConfigFile {
        gridpool_url: String::new(),
        adapter_token_file: String::new(),
        socket_path: String::new(),
        ckpool_notify_socket: None,
        queue_database: String::new(),
        health_listen: String::new(),
        expected_network_id: String::new(),
        expected_bitcoin_network: String::new(),
        minimum_protocol_version: 0,
        maximum_message_bytes: Some(65_536),
        poll_interval_ms: None,
        maximum_plan_age_seconds: None,
        fee_basis_points: None,
        fee_secret_file: String::new(),
        source_instance: None,
    })
    .unwrap()
}

#[test]
fn the_delay_doubles_up_to_a_limit() {
    let delays: Vec<i64> = (0..11).map(|attempts| retry_delay_seconds(attempts).unwrap()).collect();
    assert_eq!(delays, vec![2, 4, 8, 16, 32, 64, 128, 256, 512, 512, 512]);
    assert_eq!(retry_delay_seconds(i64::MAX), Some(512));
    assert_eq!(retry_delay_seconds(-1), Some(1));
    assert_eq!(retry_delay_seconds(-2), None);
    assert_eq!(retry_delay_seconds(-4_294_967_296), Some(2));
}

#[test]
fn only_lasting_faults_of_the_request_are_permanent() {
    assert!(permanent_rejection(Some(400)));
    assert!(permanent_rejection(Some(422)));
    assert!(permanent_rejection(Some(499)));
    for status in [None, Some(200), Some(399), Some(408), Some(429), Some(500), Some(503)] {
        assert!(!permanent_rejection(status));
    }
}

#[test]
fn proofs_leave_the_queue_only_when_settled() {
    assert_eq!(decide(Delivery::Accepted, 5, 1_000), QueueStep::Remove);
    assert_eq!(
        decide(Delivery::Failed { status: Some(404) }, 5, 1_000),
        QueueStep::Discard
    );
    assert_eq!(
        decide(Delivery::Failed { status: Some(429) }, 0, 1_000),
        QueueStep::Retry { next_attempt_unix: 1_002 }
    );
    assert_eq!(
        decide(Delivery::Failed { status: None }, 20, 1_000),
        QueueStep::Retry { next_attempt_unix: 1_512 }
    );
    assert_eq!(next_attempt(0, i64::MAX), None);
    assert_eq!(next_attempt(0, i64::MAX - 2), Some(i64::MAX));
}

#[test]
fn failed_attempts_are_reported() {
    assert_eq!(reported_error(QueueStep::Remove, "e".to_owned()), None);
    assert_eq!(
        reported_error(QueueStep::Discard, "e".to_owned()).unwrap(),
        "permanent proof rejection; dropped from retry queue"
    );
    assert_eq!(
        reported_error(QueueStep::Retry { next_attempt_unix: 1 }, "e".to_owned()).unwrap(),
        "e"
    );
}

#[test]
fn proofs_are_kept_as_json() {
    let proof: serde_json::Value =
        serde_json::from_str("{ \"nonce\" : 7, \"header\": [\"00ff\", null, true] }").unwrap();
    let payload = proof_payload(&proof);
    assert_eq!(payload, "{\"header\":[\"00ff\",null,true],\"nonce\":7}");
    assert_eq!(queued_proof(&payload).unwrap(), proof);
    assert!(queued_proof("{\"nonce\":").is_err());
}

#[test]
fn messages_are_framed_by_their_length() {
    let message: Vec<u8> = (0..600).map(|i| (i % 251) as u8).collect();
    let bytes = frame_response(&message, &config()).unwrap();
    assert_eq!(bytes[..4], [0, 0, 2, 88]);
    assert_eq!(bytes[4..], message[..]);
    assert_eq!(read_length(&bytes[..4]), 600);
    assert_eq!(check_length(600, &config()), Ok(600));
    assert_eq!(read_length(&[1, 2, 3, 4]), 0x0102_0304);
}

#[test]
fn lengths_out_of_bounds_are_refused() {
    assert_eq!(check_length(65_536, &config()), Ok(65_536));
    assert_eq!(check_length(0, &config()), Err(FrameError::InvalidLength(0)));
    assert_eq!(check_length(65_537, &config()), Err(FrameError::InvalidLength(65_537)));
    assert_eq!(
        FrameError::InvalidLength(65_537).message(),
        "invalid IPC message length 65537"
    );
    assert!(frame_response(&vec![1; 65_536], &config()).is_ok());
    assert_eq!(frame_response(&vec![1; 65_537], &config()), Err(FrameError::ResponseTooLong));
    assert_eq!(
        FrameError::ResponseTooLong.message(),
        "IPC response exceeds configured limit"
    );
}
