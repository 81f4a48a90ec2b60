use std::ops::Add;
use std::ops::Sub;

use vstd::prelude::*;
use vstd::std_specs::ops::AddSpec;
use vstd::std_specs::ops::AddSpecImpl;
use vstd::std_specs::ops::SubSpec;
use vstd::std_specs::ops::SubSpecImpl;
use vstd::string::*;

use crate::positioning::size::Size;
use crate::utils::decimal::{push_signed_decimal, signed_decimal_text};

verus! {

/// A point.
#[derive(Debug, Clone, Copy, PartialEq)]
pub struct Pos<T> {
    pub x: T,
    pub y: T,
}

impl<T> Pos<T> {
    /// The point at `x`, `y`.
    pub fn new(x: T, y: T) -> (pos: Pos<T>)
        ensures
            pos.x == x,
            pos.y == y,
    {
        Pos { x, y }
    }
}

impl<T: Default> Default for Pos<T> {
    fn default() -> (pos: Pos<T>) {
        Pos { x: T::default(), y: T::default() }
    }
}

impl<T: Add<T, Output = T>> Add<Pos<T>> for Pos<T> {
    type Output = Pos<T>;

    fn add(self, rhs: Pos<T>) -> (sum: Pos<T>) {
        Pos { x: self.x + rhs.x, y: self.y + rhs.y }
    }
}

impl<T: Add<T, Output = T>> AddSpecImpl<Pos<T>> for Pos<T> {
    open spec fn obeys_add_spec() -> bool {
        T::obeys_add_spec()
    }

    open spec fn add_req(self, rhs: Pos<T>) -> bool {
        self.x.add_req(rhs.x) && self.y.add_req(rhs.y)
    }

    open spec fn add_spec(self, rhs: Pos<T>) -> Pos<T> {
        Pos { x: self.x.add_spec(rhs.x), y: self.y.add_spec(rhs.y) }
    }
}

impl<T: Add<T, Output = T>> Add<Size<T>> for Pos<T> {
    type Output = Pos<T>;

    fn add(self, rhs: Size<T>) -> (sum: Pos<T>) {
        Pos { x: self.x + rhs.width, y: self.y + rhs.height }
    }
}

impl<T: Add<T, Output = T>> AddSpecImpl<Size<T>> for Pos<T> {
    open spec fn obeys_add_spec() -> bool {
        T::obeys_add_spec()
    }

    open spec fn add_req(self, rhs: Size<T>) -> bool {
        self.x.add_req(rhs.width) && self.y.add_req(rhs.height)
    }

    open spec fn add_spec(self, rhs: Size<T>) -> Pos<T> {
        Pos { x: self.x.add_spec(rhs.width), y: self.y.add_spec(rhs.height) }
    }
}

impl<T: Sub<T, Output = T>> Sub<Pos<T>> for Pos<T> {
    type Output = Pos<T>;

    fn sub(self, rhs: Pos<T>) -> (difference: Pos<T>) {
        Pos { x: self.x - rhs.x, y: self.y - rhs.y }
    }
}

impl<T: Sub<T, Output = T>> SubSpecImpl<Pos<T>> for Pos<T> {
    open spec fn obeys_sub_spec() -> bool {
        T::obeys_sub_spec()
    }

    open spec fn sub_req(self, rhs: Pos<T>) -> bool {
        self.x.sub_req(rhs.x) && self.y.sub_req(rhs.y)
    }

    open spec fn sub_spec(self, rhs: Pos<T>) -> Pos<T> {
        Pos { x: self.x.sub_spec(rhs.x), y: self.y.sub_spec(rhs.y) }
    }
}

/// How a point is written: its coordinates in brackets.
pub open spec fn pos_text(x: int, y: int) -> Seq<char> {
    "("@ + signed_decimal_text(x) + ", "@ + signed_decimal_text(y) + ")"@
}

impl Pos<i32> {
    /// The point in words, as in `(10, 20)`.
    pub fn to_text(&self) -> (text: String)
        ensures
            text@ == pos_text(self.x as int, self.y as int),
    {
        let mut text = String::from_str("(");
        push_signed_decimal(&mut text, self.x as i64);
        text.append(", ");
        push_signed_decimal(&mut text, self.y as i64);
        text.append(")");
        text
    }
}

} // verus!
