//! Settings.

use vstd::prelude::*;

use crate::config::{
    default_maximum_message_bytes, default_maximum_plan_age_seconds, default_poll_interval_ms,
    default_source_instance, Config, ConfigError, ConfigFile,
};

verus! {

/// Settings are refused for a fee above ten thousand basis points, then for a message limit below
/// 65,536 bytes, then for a plan lifetime below fifteen seconds, and for nothing else. What the
/// file leaves out counts with its default.
pub proof fn settings_are_refused_for_broken_limits(
    file: ConfigFile,
    config: Result<Config, ConfigError>,
)
    requires
        call_ensures(Config::load, (file,), config),
    ensures
        ({
            let fee = match file.fee_basis_points {
                Some(points) => points as int,
                None => 0,
            };
            let bytes = match file.maximum_message_bytes {
                Some(bytes) => bytes as int,
                None => 262_144,
            };
            let age = match file.maximum_plan_age_seconds {
                Some(seconds) => seconds as int,
                None => 30,
            };
            &&& fee > 10_000 ==> config == Err::<Config, ConfigError>(ConfigError::FeeBasisPoints)
            &&& fee <= 10_000 && bytes < 65_536 ==> config == Err::<Config, ConfigError>(
                ConfigError::MaximumMessageBytes,
            )
            &&& fee <= 10_000 && bytes >= 65_536 && age < 15 ==> config == Err::<
                Config,
                ConfigError,
            >(ConfigError::MaximumPlanAge)
            &&& fee <= 10_000 && bytes >= 65_536 && age >= 15 ==> config is Ok
            &&& config is Ok ==> config->Ok_0.fee_basis_points == fee
                && config->Ok_0.maximum_message_bytes == bytes
                && config->Ok_0.maximum_plan_age_seconds == age
        }),
{
}

/// Settings that are accepted are those of the file, each under its own name.
pub proof fn accepted_settings_are_those_of_the_file(
    file: ConfigFile,
    config: Result<Config, ConfigError>,
)
    requires
        call_ensures(Config::load, (file,), config),
        config is Ok,
    ensures
        config->Ok_0.gridpool_url@ == file.gridpool_url@,
        config->Ok_0.adapter_token_file@ == file.adapter_token_file@,
        config->Ok_0.socket_path@ == file.socket_path@,
        config->Ok_0.ckpool_notify_socket == file.ckpool_notify_socket,
        config->Ok_0.queue_database@ == file.queue_database@,
        config->Ok_0.health_listen@ == file.health_listen@,
        config->Ok_0.expected_network_id@ == file.expected_network_id@,
        config->Ok_0.expected_bitcoin_network@ == file.expected_bitcoin_network@,
        config->Ok_0.minimum_protocol_version == file.minimum_protocol_version,
        config->Ok_0.fee_secret_file@ == file.fee_secret_file@,
        file.poll_interval_ms matches Some(millis) ==> config->Ok_0.poll_interval_ms == millis,
        file.poll_interval_ms is None ==> config->Ok_0.poll_interval_ms == 1_000,
        file.source_instance matches Some(name) ==> config->Ok_0.source_instance@ == name@,
        file.source_instance is None ==> config->Ok_0.source_instance@ == "ckpool"@,
{
}

/// The defaults.
pub proof fn defaults_are_as_documented(bytes: usize, millis: u64, seconds: u64, name: String)
    requires
        call_ensures(default_maximum_message_bytes, (), bytes),
        call_ensures(default_poll_interval_ms, (), millis),
        call_ensures(default_maximum_plan_age_seconds, (), seconds),
        call_ensures(default_source_instance, (), name),
    ensures
        bytes == 262_144,
        millis == 1_000,
        seconds == 30,
        name@ == "ckpool"@,
{
}

/// The messages of the errors.
pub proof fn config_errors_are_told(error: &ConfigError, message: &'static str)
    requires
        call_ensures(ConfigError::message, (error,), message),
    ensures
        error is FeeBasisPoints ==> message@ == "fee_basis_points must be between 0 and 10000"@,
        error is MaximumMessageBytes ==> message@
            == "maximum_message_bytes must be at least 65536"@,
        error is MaximumPlanAge ==> message@ == "maximum_plan_age_seconds must be at least 15"@,
{
}

} // verus!
