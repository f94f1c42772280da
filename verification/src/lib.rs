//! A benchmarking harness for a blockchain network: it schedules repeated
//! rounds of sample transactions, allocates collision-free nonces, partitions
//! transaction kinds over independent interval timers, and classifies the
//! outcome of each submission.

pub mod account;
pub mod config;
pub mod engine;
pub mod error;
pub mod kind_map;
pub mod kinds;
pub mod metrics;
pub mod nonce;
pub mod protocol;
pub mod round;
pub mod samples;
pub mod schedule;
pub mod strutil;

pub use engine::Engine;
pub use error::AppError;
pub use kinds::TransactionKind;
