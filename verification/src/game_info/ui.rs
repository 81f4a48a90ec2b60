use vstd::prelude::*;

verus! {

/// The layout that the game shows.
#[derive(Debug, Clone, Copy, PartialEq, Eq, Hash, Structural)]
pub enum UI {
    Desktop,
    Mobile,
}

/// The system that the game runs on.
#[derive(Debug, Clone, Copy, PartialEq, Eq, Hash, Structural)]
pub enum Platform {
    Windows,
    MacOS,
}

} // verus!
