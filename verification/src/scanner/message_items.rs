use vstd::prelude::*;

use crate::capture::image::RgbImage;

verus! {

/// What the controller hands to the worker for one visited cell.
#[derive(Debug, Clone)]
pub struct SendItem {
    /// The item panel as it was captured.
    pub panel_image: RgbImage,
    /// The rarity read off the panel.
    pub star: usize,
    /// The visible page of the list; present for the first cell of a page
    /// only.
    pub list_image: Option<RgbImage>,
}

impl SendItem {
    /// Whether the frames hold their pixels and the rarity is a small number.
    pub open spec fn wf(&self) -> bool {
        &&& self.panel_image.wf()
        &&& self.star <= i32::MAX
        &&& self.list_image matches Some(image) ==> image.wf()
    }
}

} // verus!
