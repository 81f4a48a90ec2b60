//! Plain geometry: points, sizes and rectangles.

pub mod pos;
pub mod rect;
pub mod size;

pub use pos::Pos;
pub use rect::Rect;
pub use size::Size;
