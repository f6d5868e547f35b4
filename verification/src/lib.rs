//! Verified core of the GridPool adapter for CKPool.

pub mod adapter;
pub mod cache;
pub mod clock;
pub mod config;
pub mod difficulty;
pub mod encoding;
pub mod fee;
pub mod frame;
pub mod health;
pub mod hexcodec;
pub mod history;
pub mod ipc;
pub mod laws;
pub mod metrics;
pub mod node;
pub mod payload;
pub mod plan;
pub mod queue;
pub mod report;
pub mod secret;
pub mod telemetry;
pub mod text;
pub mod wire;

pub use adapter::Adapter;
pub use clock::now_unix_ms;
pub use config::{
    default_maximum_message_bytes, default_maximum_plan_age_seconds, default_poll_interval_ms,
    default_source_instance, Config, ConfigFile,
};
pub use difficulty::Difficulty;
pub use fee::{fee_bucket, FEE_BUCKET_SECONDS};
pub use ipc::{IpcRequest, IpcResponse, IPC_SCHEMA_VERSION};
pub use plan::{CoinbaseOutput, WorkPlan, WORK_PLAN_SCHEMA_VERSION};
pub use wire::{parse_tx_output_vector, read_compact_size, read_le};
