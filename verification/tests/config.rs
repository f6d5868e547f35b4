use gridpool_ckpool_adapter::config::{
    default_maximum_message_bytes, default_maximum_plan_age_seconds, default_poll_interval_ms,
    default_source_instance, Config, ConfigError, ConfigFile,
};

fn text(value: &str) -> String {
    value.to_owned()
}

fn file() -> ConfigFile {
    ConfigFile {
        gridpool_url: text("http://node"),
        adapter_token_file: text("token"),
        socket_path: text("adapter.sock"),
        ckpool_notify_socket: Some(text("stratifier")),
        queue_database: text("queue.db"),
        health_listen: text("127.0.0.1:9000"),
        expected_network_id: text("gridpool-main"),
        expected_bitcoin_network: text("mainnet"),
        minimum_protocol_version: 3,
        maximum_message_bytes: None,
        poll_interval_ms: None,
        maximum_plan_age_seconds: None,
        fee_basis_points: None,
        fee_secret_file: text("fee.secret"),
        source_instance: None,
    }
}

#[test]
fn missing_settings_take_their_defaults() {
    let config = Config::load(file()).unwrap();
    assert_eq!(config.maximum_message_bytes, 262_144);
    assert_eq!(config.poll_interval_ms, 1_000);
    assert_eq!(config.maximum_plan_age_seconds, 30);
    assert_eq!(config.fee_basis_points, 0);
    assert_eq!(config.source_instance, "ckpool");
    assert_eq!(config.gridpool_url, "http://node");
    assert_eq!(config.ckpool_notify_socket, Some(text("stratifier")));
    assert_eq!(config.minimum_protocol_version, 3);
    assert_eq!(default_maximum_message_bytes(), 262_144);
    assert_eq!(default_poll_interval_ms(), 1_000);
    assert_eq!(default_maximum_plan_age_seconds(), 30);
    assert_eq!(default_source_instance(), "ckpool");
}

#[test]
fn given_settings_are_kept() {
    let mut given = file();
    given.maximum_message_bytes = Some(65_536);
    given.poll_interval_ms = Some(0);
    given.maximum_plan_age_seconds = Some(15);
    given.fee_basis_points = Some(10_000);
    given.source_instance = Some(text("atlas"));
    let config = Config::load(given).unwrap();
    assert_eq!(config.maximum_message_bytes, 65_536);
    assert_eq!(config.poll_interval_ms, 0);
    assert_eq!(config.maximum_plan_age_seconds, 15);
    assert_eq!(config.fee_basis_points, 10_000);
    assert_eq!(config.source_instance, "atlas");
}

#[test]
fn broken_limits_are_refused_in_order() {
    let mut given = file();
    given.maximum_plan_age_seconds = Some(14);
    assert_eq!(Config::load(given.clone()).unwrap_err(), ConfigError::MaximumPlanAge);
    given.maximum_message_bytes = Some(65_535);
    assert_eq!(Config::load(given.clone()).unwrap_err(), ConfigError::MaximumMessageBytes);
    given.fee_basis_points = Some(10_001);
    assert_eq!(Config::load(given).unwrap_err(), ConfigError::FeeBasisPoints);
    assert_eq!(
        ConfigError::FeeBasisPoints.message(),
        "fee_basis_points must be between 0 and 10000"
    );
    assert_eq!(
        ConfigError::MaximumMessageBytes.message(),
        "maximum_message_bytes must be at least 65536"
    );
    assert_eq!(
        ConfigError::MaximumPlanAge.message(),
        "maximum_plan_age_seconds must be at least 15"
    );
}
