//! The executor's decision logic (trust tier T2): blast-rate limiting,
//! replay protection, and the request admission pipeline.

/// The request admission pipeline.
pub mod handler;

/// The pipeline's order as a state machine.
pub mod dispatch;

/// Blast-rate limiting.
pub mod ratelimit;

/// Replay and reorder protection.
pub mod replay;

/// Running an action and capturing its output.
pub mod runner;

/// Runtime settings of the executor.
pub mod settings;

/// Executor infrastructure errors.
pub mod error;
