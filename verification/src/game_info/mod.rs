//! What is known of the game and its window.

pub mod resolution_family;
pub mod ui;

pub use resolution_family::ResolutionFamily;
pub use ui::{Platform, UI};
