//! Deterministic transaction-execution orchestration: limit enforcement,
//! native-asset conservation, system-program construction, epoch transition
//! and dispatch over transaction kinds.
pub mod error;
pub mod config;
pub mod effects;
pub mod engine;
pub mod encoding;
pub mod gas;
pub mod laws;
pub mod limits;
pub mod program;
pub mod store;
pub mod system_tx;
pub mod transaction;
