//! Verified core of a streaming chat pipeline for a local language-model
//! server: session state, generation orchestration, incremental rendering,
//! notification queues, tick-driven polling, and the append-only
//! interaction log.

pub mod chat;
pub mod filter;
pub mod generation;
pub mod log;
pub mod notify;
pub mod pipeline;
pub mod session;
pub mod status;
