//! Scan orchestration for a paginated item grid: page navigation, the
//! capture-recognise-validate chain, duplicate detection and error recovery.

pub mod artifact;
pub mod capture;
pub mod character;
pub mod error_recovery;
pub mod export;
pub mod game_info;
pub mod genshin_scanning;
pub mod ocr;
pub mod positioning;
pub mod scanner;
pub mod scanner_controller;
pub mod testing;
pub mod utils;
