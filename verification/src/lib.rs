//! Execution core of an algorithmic-trading runtime: decimal money arithmetic, order
//! sizing, pre-trade risk checks, signal-to-order translation and the bookkeeping of
//! plugin-backed execution algorithms.

pub mod decimal;
pub mod ident;
pub mod market;
pub mod mock;
pub mod risk;
pub mod sizer;
pub mod engine;
pub mod algorithm;
pub mod wasm;
pub mod config;
pub mod cortex;
pub mod store;
pub mod rpc;
pub mod strategy;
pub mod text;
pub mod report;
pub mod repository;
pub mod orchestrator;
