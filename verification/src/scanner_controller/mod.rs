//! The scan controller: walks the grid page by page and says what to do
//! next.

pub mod config;
pub mod controller;
pub mod scan_state;
pub mod window_info;

pub use config::GenshinRepositoryScannerLogicConfig;
pub use controller::{GenshinRepositoryScanController, ReturnResult, ScrollResult};
pub use scan_state::{GridAddress, ScanState};
pub use window_info::GenshinRepositoryScanControllerWindowInfo;
