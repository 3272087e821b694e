//! Core logic of a rollup derivation node: channel assembly, the derivation
//! driver's decisions, and the engine task queue with its actor policy.

pub mod block;
pub mod channel;
pub mod config;
pub mod attributes;
pub mod cursor;
pub mod driver;
pub mod engine;
pub mod consolidate;
pub mod metrics;
pub mod actor;
pub mod txs;
