use vstd::prelude::*;
use vstd::string::*;

use crate::utils::decimal::{push_signed_decimal, signed_decimal_text};

verus! {

/// A width and a height.
#[derive(Debug, Clone, Copy, PartialEq, Eq, Hash)]
pub struct Size<T> {
    pub height: T,
    pub width: T,
}

impl<T> Size<T> {
    /// Builds a size from its width and its height, in that order.
    pub fn new(width: T, height: T) -> (size: Size<T>)
        ensures
            size.width == width,
            size.height == height,
    {
        Size { width, height }
    }
}

impl<T: Default> Default for Size<T> {
    fn default() -> (size: Size<T>) {
        Size { height: T::default(), width: T::default() }
    }
}

/// How a size is written: the height first.
pub open spec fn size_text(height: int, width: int) -> Seq<char> {
    "Size("@ + signed_decimal_text(height) + ", "@ + signed_decimal_text(width) + ")"@
}

impl Size<i32> {
    /// The size in words, the height first, as in `Size(50, 100)`.
    pub fn to_text(&self) -> (text: String)
        ensures
            text@ == size_text(self.height as int, self.width as int),
    {
        let mut text = String::from_str("Size(");
        push_signed_decimal(&mut text, self.height as i64);
        text.append(", ");
        push_signed_decimal(&mut text, self.width as i64);
        text.append(")");
        text
    }
}

} // verus!
