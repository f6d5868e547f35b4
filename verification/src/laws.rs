//! What callers may rely on, stated of calls: what each result satisfies, and how the results of
//! several calls relate.

pub mod adapter;
pub mod cache;
pub mod clock;
pub mod config;
pub mod difficulty;
pub mod fee;
pub mod frame;
pub mod hexcodec;
pub mod ipc;
pub mod node;
pub mod plan;
pub mod queue;
pub mod report;
pub mod secret;
pub mod telemetry;
pub mod text;
pub mod wire;
