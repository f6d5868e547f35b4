use gridpool_ckpool_adapter::clock::{now_unix_ms, unix_ms_at, unix_ms_of};
use gridpool_ckpool_adapter::difficulty::Difficulty;
use gridpool_ckpool_adapter::node::{adapter_headers, is_plan_event, Service};
use gridpool_ckpool_adapter::secret::{
    adapter_token, fee_secret_file, parse_fee_secret, SecretError,
};
use gridpool_ckpool_adapter::text::{decimal_text, endpoint, signed_decimal_text, trim};

#[test]
fn numbers_are_written_in_decimal() {
    for n in [0u128, 7, 10, 99, 1_234_567_890, u64::MAX as u128, u128::MAX] {
        assert_eq!(decimal_text(n), n.to_string());
    }
    for n in [0i64, -1, 42, i64::MIN, i64::MAX] {
        assert_eq!(signed_decimal_text(n), n.to_string());
    }
}

#[test]
fn white_space_around_text_is_removed() {
    for sample in [
        "", " ", "a", " a b \n", "\u{2003}x\u{3000}", "\u{85}\u{a0}y\u{1680}", "\u{200b}z", "\t\r\n",
        "\u{feff}w", "\u{2028}v\u{2029}\u{202f}\u{205f}",
    ] {
        assert_eq!(trim(sample), sample.trim());
    }
    for code in 0..0x3100u32 {
        if let Some(c) = char::from_u32(code) {
            let sample = format!("{c}x{c}");
            assert_eq!(trim(&sample), sample.trim());
        }
    }
}

#[test]
fn trailing_slashes_of_the_node_do_not_count() {
    assert_eq!(endpoint("http://node//", "/a"), "http://node/a");
    assert_eq!(endpoint("http://node", "/a"), "http://node/a");
    assert_eq!(endpoint("///", ""), "");
    assert_eq!(
        Service::WorkPlanEvents.url("http://node/"),
        "http://node/api/mining/local/work-plan/events"
    );
    assert_eq!(Service::WorkPlan.url("http://n"), "http://n/api/mining/local/work-plan");
    assert_eq!(Service::Share.url("http://n"), "http://n/api/mining/local/share");
    assert_eq!(
        Service::ShareTelemetry.url("http://n"),
        "http://n/api/mining/local/share-telemetry"
    );
}

#[test]
fn the_adapter_presents_itself() {
    let headers = adapter_headers("secret");
    assert_eq!(headers.len(), 2);
    assert_eq!((headers[0].name, headers[0].value.as_str()), ("X-GridPool-Adapter-Token", "secret"));
    assert_eq!((headers[1].name, headers[1].value.as_str()), ("X-GridPool-Adapter-Type", "ckpool"));
}

#[test]
fn plans_come_with_named_and_nameless_events() {
    assert!(is_plan_event("work-plan"));
    assert!(is_plan_event("heartbeat"));
    assert!(is_plan_event(""));
    assert!(!is_plan_event("message"));
    assert!(!is_plan_event("Work-Plan"));
}

#[test]
fn a_written_secret_is_read_back() {
    let secret: Vec<u8> = (0..32).map(|i| i * 7 + 3).collect();
    let file = fee_secret_file(&secret);
    assert_eq!(file.len(), 65);
    assert!(file.starts_with("030a1118"));
    assert!(file.ends_with('\n'));
    assert_eq!(parse_fee_secret(&file).unwrap(), secret);
    assert_eq!(parse_fee_secret(&format!(" {}\r\n", "aB".repeat(40))).unwrap(), vec![0xab; 40]);
}

#[test]
fn poor_secrets_are_refused() {
    assert_eq!(parse_fee_secret("xyz").unwrap_err(), SecretError::NotHex);
    assert_eq!(parse_fee_secret(&"ab".repeat(31)).unwrap_err(), SecretError::TooShort);
    assert_eq!(parse_fee_secret("").unwrap_err(), SecretError::TooShort);
    assert_eq!(SecretError::NotHex.message(), "decode fee secret");
    assert_eq!(SecretError::TooShort.message(), "fee secret must be at least 32 bytes");
}

#[test]
fn the_token_stands_between_white_space() {
    assert_eq!(adapter_token("  token value\n"), "token value");
}

#[test]
fn difficulties_are_judged_by_their_bits() {
    let of = |value: f64| Difficulty { bits: value.to_bits() };
    let samples = [
        0.0, -0.0, f64::MIN_POSITIVE, 5e-324, -5e-324, 0.5, 1.0, 1.5, 2.0, 1e300, f64::MAX, -1.0,
        f64::INFINITY, f64::NEG_INFINITY, f64::NAN, -f64::NAN,
    ];
    for x in samples {
        assert_eq!(of(x).can_be_pulse(), x.is_finite() && x >= 1.0);
        assert_eq!(of(x).can_be_share(), !(!x.is_finite() || x < 0.0));
        for y in samples {
            if of(x).can_be_share() && of(y).can_be_share() {
                assert_eq!(f64::from_bits(of(x).max(of(y)).bits), x.max(y));
            }
        }
    }
    assert_eq!(Difficulty::zero(), of(0.0));
}

#[test]
fn the_clock_runs_forward_from_the_epoch() {
    let first = now_unix_ms();
    assert!(first > 1_600_000_000_000);
    let now = std::time::SystemTime::now()
        .duration_since(std::time::SystemTime::UNIX_EPOCH)
        .unwrap()
        .as_millis();
    assert!(now - first < 10_000);
    assert_eq!(unix_ms_of(Some(5)), 5);
    assert_eq!(unix_ms_of(None), 0);
}

#[test]
fn readings_before_the_epoch_stand_at_the_epoch() {
    let epoch = std::time::SystemTime::UNIX_EPOCH;
    let span = std::time::Duration::from_micros(1_500_999);
    assert_eq!(unix_ms_at(epoch), 0);
    assert_eq!(unix_ms_at(epoch + span), 1_500);
    assert_eq!(unix_ms_at(epoch - span), 0);
}
