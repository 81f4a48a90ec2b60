use std::ops::Add;

use vstd::prelude::*;
use vstd::std_specs::ops::AddSpec;
use vstd::string::*;

use crate::positioning::pos::{pos_text, Pos};
use crate::positioning::size::{size_text, Size};

verus! {

/// A rectangle: its top left corner and its extent.
#[derive(Debug, Clone, Copy, PartialEq)]
pub struct Rect<T> {
    pub left: T,
    pub top: T,
    pub width: T,
    pub height: T,
}

impl<T: Copy> Rect<T> {
    /// The rectangle with the given corner and extent.
    pub fn new(left: T, top: T, width: T, height: T) -> (rect: Rect<T>)
        ensures
            rect.left == left,
            rect.top == top,
            rect.width == width,
            rect.height == height,
    {
        Rect { left, top, width, height }
    }

    /// The top left corner.
    pub fn origin(&self) -> (pos: Pos<T>)
        ensures
            pos.x == self.left,
            pos.y == self.top,
    {
        Pos { x: self.left, y: self.top }
    }

    /// The extent.
    pub fn size(&self) -> (size: Size<T>)
        ensures
            size.width == self.width,
            size.height == self.height,
    {
        Size { width: self.width, height: self.height }
    }
}

impl<T: Default> Default for Rect<T> {
    fn default() -> (rect: Rect<T>) {
        Rect { left: T::default(), top: T::default(), width: T::default(), height: T::default() }
    }
}

impl<T: Add<T, Output = T> + Copy> Rect<T> {
    /// The rectangle moved by `pos`: the corner moves, the extent stays.
    pub fn translate(&self, pos: Pos<T>) -> (moved: Rect<T>)
        requires
            self.left.add_req(pos.x),
            self.top.add_req(pos.y),
        ensures
            moved.width == self.width,
            moved.height == self.height,
            T::obeys_add_spec() ==> moved.left == self.left.add_spec(pos.x) && moved.top
                == self.top.add_spec(pos.y),
    {
        Rect {
            left: self.left + pos.x,
            top: self.top + pos.y,
            width: self.width,
            height: self.height,
        }
    }
}

/// A number as a `usize` keeps of it: itself where it is not negative, else
/// what wrapping around leaves.
pub open spec fn wrap_usize(v: int) -> int {
    if v >= 0 {
        v
    } else {
        usize::MAX + 1 + v
    }
}

/// A number as an `i32` keeps of it: its low thirty-two bits, read as a
/// signed number.
pub open spec fn wrap_i32(v: int) -> int {
    let low = v % 0x1_0000_0000;
    if low >= 0x8000_0000 {
        low - 0x1_0000_0000
    } else {
        low
    }
}

fn usize_of_i32(v: i32) -> (wrapped: usize)
    ensures
        wrapped == wrap_usize(v as int),
{
    if v >= 0 {
        v as usize
    } else {
        usize::MAX - ((-(v as i64) - 1) as usize)
    }
}

fn i32_of_usize(v: usize) -> (wrapped: i32)
    ensures
        wrapped == wrap_i32(v as int),
{
    let low: u64 = (v as u64) % 0x1_0000_0000;
    if low >= 0x8000_0000 {
        (low as i64 - 0x1_0000_0000) as i32
    } else {
        low as i32
    }
}

impl Rect<u32> {
    /// The same rectangle in `usize`.
    pub fn to_rect_usize(&self) -> (rect: Rect<usize>)
        ensures
            rect.left == self.left,
            rect.top == self.top,
            rect.width == self.width,
            rect.height == self.height,
    {
        Rect {
            left: self.left as usize,
            top: self.top as usize,
            width: self.width as usize,
            height: self.height as usize,
        }
    }
}

impl Rect<usize> {
    /// The rectangle in `i32`: each number as an `i32` keeps of it.
    pub fn to_rect_i32(&self) -> (rect: Rect<i32>)
        ensures
            rect.left == wrap_i32(self.left as int),
            rect.top == wrap_i32(self.top as int),
            rect.width == wrap_i32(self.width as int),
            rect.height == wrap_i32(self.height as int),
    {
        Rect {
            left: i32_of_usize(self.left),
            top: i32_of_usize(self.top),
            width: i32_of_usize(self.width),
            height: i32_of_usize(self.height),
        }
    }
}

impl Rect<i32> {
    /// The rectangle in `usize`: each number as a `usize` keeps of it.
    pub fn to_rect_usize(&self) -> (rect: Rect<usize>)
        ensures
            rect.left == wrap_usize(self.left as int),
            rect.top == wrap_usize(self.top as int),
            rect.width == wrap_usize(self.width as int),
            rect.height == wrap_usize(self.height as int),
    {
        Rect {
            left: usize_of_i32(self.left),
            top: usize_of_i32(self.top),
            width: usize_of_i32(self.width),
            height: usize_of_i32(self.height),
        }
    }

    /// The rectangle in words: its corner, then its extent.
    pub fn to_text(&self) -> (text: String)
        ensures
            text@ == "Rect "@ + pos_text(self.left as int, self.top as int) + " -> "@ + size_text(
                self.height as int,
                self.width as int,
            ),
    {
        let mut text = String::from_str("Rect ");
        text.append(self.origin().to_text().as_str());
        text.append(" -> ");
        text.append(self.size().to_text().as_str());
        text
    }
}

} // verus!
