use vstd::prelude::*;

use crate::capture::image::{Rgb, RgbImage};
use crate::positioning::{Pos, Rect};

verus! {

/// What samples the screen. The library promises nothing of what comes
/// back.
pub trait Capturer {
    /// The part of the screen that `rect` covers.
    fn capture_rect(&self, rect: Rect<i32>) -> (image: Result<RgbImage, String>);

    /// The part of the screen that `rect` covers when it is moved by
    /// `relative_to`.
    fn capture_relative_to(&self, rect: Rect<i32>, relative_to: Pos<i32>) -> (image: Result<
        RgbImage,
        String,
    >);

    /// The colour of the pixel at `pos`.
    fn capture_color(&self, pos: Pos<i32>) -> (color: Result<Rgb, String>);
}

} // verus!
