//! The item scanner: failures, records, and the worker that builds them.

pub mod artifact_scanner;
pub mod artifact_scanner_config;
pub mod artifact_scanner_window_info;
pub mod artifact_scanner_worker;
pub mod error;
pub mod message_items;
pub mod performance_optimizations;
pub mod scan_result;

pub use artifact_scanner_config::GenshinArtifactScannerConfig;
pub use artifact_scanner_window_info::ArtifactScannerWindowInfo;
pub use error::{get_error_suggestion, ArtifactScanError, ErrorStatistics};
pub use message_items::SendItem;
pub use scan_result::GenshinArtifactScanResult;
