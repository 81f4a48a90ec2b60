use vstd::prelude::*;

verus! {

/// What the user asked of the scan.
#[derive(Debug, Clone, Copy, PartialEq, Eq, Structural)]
pub struct GenshinArtifactScannerConfig {
    /// Items of a lower rarity end the scan.
    pub min_star: i32,
    /// Items of a lower level end the scan.
    pub min_level: i32,
    /// Whether a run of duplicates is let pass.
    pub ignore_dup: bool,
    /// How many items to scan; nought or less leaves the count to be read
    /// off the screen.
    pub number: i32,
}

} // verus!
