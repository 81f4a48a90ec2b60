//! The names of item sets, slots and stats.

pub mod artifact;
pub mod set_name;
pub mod slot;

pub use artifact::{ArtifactSetName, ArtifactSlot, ArtifactStatName};
