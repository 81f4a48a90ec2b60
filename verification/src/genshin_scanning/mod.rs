//! Layout constants of the item panel.

pub mod artifact_scanner;
