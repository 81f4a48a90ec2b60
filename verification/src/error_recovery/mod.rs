//! Classifying failures, choosing a retry policy, and breaking the circuit
//! when failures pile up.

pub mod category;
pub mod config;
pub mod manager;
pub mod statistics;
pub mod strategy;

pub use category::ErrorCategory;
pub use config::{ErrorThresholds, RecoveryConfig, StrategyMap};
pub use manager::{ErrorRecoveryManager, RecoveryError};
pub use statistics::ErrorStatistics;
pub use strategy::{RecoverableError, RecoveryStrategy};
