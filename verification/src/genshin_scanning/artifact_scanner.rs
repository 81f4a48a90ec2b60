use vstd::prelude::*;

verus! {

/// By how many pixels the marked panel layout is shifted down in a window of
/// the given size: nought for a size that is not supported.
pub open spec fn hoarfrost_offset(window_width: u32, window_height: u32) -> i32 {
    if window_width == 2560 && window_height == 1440 {
        51
    } else if window_width == 1920 && window_height == 1080 {
        35
    } else if window_width == 1600 && window_height == 900 {
        32
    } else {
        0
    }
}

/// By how many pixels the marked panel layout is shifted down in a window of
/// the given size.
#[verifier::when_used_as_spec(hoarfrost_offset)]
pub fn get_hoarfrost_offset(window_width: u32, window_height: u32) -> (offset: i32)
    ensures
        offset == hoarfrost_offset(window_width, window_height),
{
    if window_width == 2560 && window_height == 1440 {
        51
    } else if window_width == 1920 && window_height == 1080 {
        35
    } else if window_width == 1600 && window_height == 900 {
        32
    } else {
        0
    }
}

} // verus!
