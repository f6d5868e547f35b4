//! The adapter's configuration.

use vstd::prelude::*;

verus! {

/// The smallest limit on messages that a configuration may set.
pub const SMALLEST_MESSAGE_LIMIT: usize = 65_536;

/// The shortest lifetime of a plan that a configuration may set, in seconds.
pub const SHORTEST_PLAN_AGE_SECONDS: u64 = 15;

/// The number of basis points that make up the whole.
pub const WHOLE_BASIS_POINTS: u16 = 10_000;

/// The settings as the configuration file gives them. A setting with a default may be absent.
#[derive(Debug, Clone)]
pub struct ConfigFile {
    pub gridpool_url: String,
    pub adapter_token_file: String,
    pub socket_path: String,
    pub ckpool_notify_socket: Option<String>,
    pub queue_database: String,
    pub health_listen: String,
    pub expected_network_id: String,
    pub expected_bitcoin_network: String,
    pub minimum_protocol_version: i32,
    pub maximum_message_bytes: Option<usize>,
    pub poll_interval_ms: Option<u64>,
    pub maximum_plan_age_seconds: Option<u64>,
    pub fee_basis_points: Option<u16>,
    pub fee_secret_file: String,
    pub source_instance: Option<String>,
}

/// The settings that the adapter runs with.
#[derive(Debug, Clone)]
pub struct Config {
    pub gridpool_url: String,
    pub adapter_token_file: String,
    pub socket_path: String,
    pub ckpool_notify_socket: Option<String>,
    pub queue_database: String,
    pub health_listen: String,
    pub expected_network_id: String,
    pub expected_bitcoin_network: String,
    pub minimum_protocol_version: i32,
    pub maximum_message_bytes: usize,
    pub poll_interval_ms: u64,
    pub maximum_plan_age_seconds: u64,
    pub fee_basis_points: u16,
    pub fee_secret_file: String,
    pub source_instance: String,
}

/// Why a configuration is refused.
#[derive(Debug, Clone, Copy, PartialEq, Eq, Structural)]
pub enum ConfigError {
    FeeBasisPoints,
    MaximumMessageBytes,
    MaximumPlanAge,
}

impl ConfigError {
    /// The message that describes the error.
    pub open spec fn text(self) -> Seq<char> {
        match self {
            ConfigError::FeeBasisPoints => "fee_basis_points must be between 0 and 10000"@,
            ConfigError::MaximumMessageBytes => "maximum_message_bytes must be at least 65536"@,
            ConfigError::MaximumPlanAge => "maximum_plan_age_seconds must be at least 15"@,
        }
    }

    /// Returns the message that describes the error.
    pub fn message(&self) -> (message: &'static str)
        ensures
            message@ == self.text(),
    {
        match self {
            ConfigError::FeeBasisPoints => "fee_basis_points must be between 0 and 10000",
            ConfigError::MaximumMessageBytes => "maximum_message_bytes must be at least 65536",
            ConfigError::MaximumPlanAge => "maximum_plan_age_seconds must be at least 15",
        }
    }
}

/// The limit on messages where the file sets none: 256 KiB.
pub fn default_maximum_message_bytes() -> (bytes: usize)
    ensures
        bytes == 256 * 1024,
{
    262_144
}

/// The pause between polls where the file sets none: one second.
pub fn default_poll_interval_ms() -> (millis: u64)
    ensures
        millis == 1_000,
{
    1_000
}

/// The lifetime of a plan where the file sets none: half a minute.
pub fn default_maximum_plan_age_seconds() -> (seconds: u64)
    ensures
        seconds == 30,
{
    30
}

/// The name under which telemetry is sent where the file sets none.
pub fn default_source_instance() -> (name: String)
    ensures
        name@ == "ckpool"@,
{
    "ckpool".to_owned()
}

/// The value of a setting, or its default.
pub open spec fn setting<T>(given: Option<T>, default: T) -> T {
    match given {
        Some(value) => value,
        None => default,
    }
}

impl ConfigFile {
    /// Why the settings are refused, if they are: the first of the limits that they break.
    pub open spec fn refusal(self) -> Option<ConfigError> {
        if setting(self.fee_basis_points, 0) > WHOLE_BASIS_POINTS {
            Some(ConfigError::FeeBasisPoints)
        } else if setting(self.maximum_message_bytes, 262_144) < SMALLEST_MESSAGE_LIMIT {
            Some(ConfigError::MaximumMessageBytes)
        } else if setting(self.maximum_plan_age_seconds, 30) < SHORTEST_PLAN_AGE_SECONDS {
            Some(ConfigError::MaximumPlanAge)
        } else {
            None
        }
    }
}

impl Config {
    /// The limits that every configuration keeps which the adapter runs with.
    pub open spec fn within_limits(self) -> bool {
        &&& self.fee_basis_points <= WHOLE_BASIS_POINTS
        &&& self.maximum_message_bytes >= SMALLEST_MESSAGE_LIMIT
        &&& self.maximum_plan_age_seconds >= SHORTEST_PLAN_AGE_SECONDS
    }

    /// The settings of the file, with the defaults for those that it leaves out.
    pub open spec fn takes_settings_of(self, file: ConfigFile) -> bool {
        &&& self.gridpool_url == file.gridpool_url
        &&& self.adapter_token_file == file.adapter_token_file
        &&& self.socket_path == file.socket_path
        &&& self.ckpool_notify_socket == file.ckpool_notify_socket
        &&& self.queue_database == file.queue_database
        &&& self.health_listen == file.health_listen
        &&& self.expected_network_id == file.expected_network_id
        &&& self.expected_bitcoin_network == file.expected_bitcoin_network
        &&& self.minimum_protocol_version == file.minimum_protocol_version
        &&& self.maximum_message_bytes == setting(file.maximum_message_bytes, 262_144)
        &&& self.poll_interval_ms == setting(file.poll_interval_ms, 1_000)
        &&& self.maximum_plan_age_seconds == setting(file.maximum_plan_age_seconds, 30)
        &&& self.fee_basis_points == setting(file.fee_basis_points, 0)
        &&& self.fee_secret_file == file.fee_secret_file
        &&& self.source_instance@ == match file.source_instance {
            Some(name) => name@,
            None => "ckpool"@,
        }
    }

    /// Fills in the defaults and refuses settings that break a limit.
    pub fn load(file: ConfigFile) -> (config: Result<Config, ConfigError>)
        ensures
            match file.refusal() {
                None => config is Ok && config->Ok_0.takes_settings_of(file)
                    && config->Ok_0.within_limits(),
                Some(e) => config == Err::<Config, ConfigError>(e),
            },
    {
        let config = Config {
            gridpool_url: file.gridpool_url,
            adapter_token_file: file.adapter_token_file,
            socket_path: file.socket_path,
            ckpool_notify_socket: file.ckpool_notify_socket,
            queue_database: file.queue_database,
            health_listen: file.health_listen,
            expected_network_id: file.expected_network_id,
            expected_bitcoin_network: file.expected_bitcoin_network,
            minimum_protocol_version: file.minimum_protocol_version,
            maximum_message_bytes: match file.maximum_message_bytes {
                Some(bytes) => bytes,
                None => default_maximum_message_bytes(),
            },
            poll_interval_ms: match file.poll_interval_ms {
                Some(millis) => millis,
                None => default_poll_interval_ms(),
            },
            maximum_plan_age_seconds: match file.maximum_plan_age_seconds {
                Some(seconds) => seconds,
                None => default_maximum_plan_age_seconds(),
            },
            fee_basis_points: match file.fee_basis_points {
                Some(points) => points,
                None => 0,
            },
            fee_secret_file: file.fee_secret_file,
            source_instance: match file.source_instance {
                Some(name) => name,
                None => default_source_instance(),
            },
        };
        if config.fee_basis_points > WHOLE_BASIS_POINTS {
            return Err(ConfigError::FeeBasisPoints);
        }
        if config.maximum_message_bytes < SMALLEST_MESSAGE_LIMIT {
            return Err(ConfigError::MaximumMessageBytes);
        }
        if config.maximum_plan_age_seconds < SHORTEST_PLAN_AGE_SECONDS {
            return Err(ConfigError::MaximumPlanAge);
        }
        Ok(config)
    }
}

/// A file that leaves out every setting with a default is accepted.
pub proof fn defaults_are_within_limits(file: ConfigFile)
    requires
        file.maximum_message_bytes is None,
        file.poll_interval_ms is None,
        file.maximum_plan_age_seconds is None,
        file.fee_basis_points is None,
        file.source_instance is None,
    ensures
        file.refusal() is None,
{
}

/// Settings are accepted exactly when they keep every limit.
pub proof fn refusal_means_a_broken_limit(file: ConfigFile, config: Config)
    requires
        config.takes_settings_of(file),
    ensures
        file.refusal() is None <==> config.within_limits(),
{
}

} // verus!
