use vstd::prelude::*;

use crate::positioning::{Pos, Rect, Size};

verus! {

/// Where the parts of the item panel and of the item list lie in the window,
/// in whole pixels.
#[derive(Debug, Clone, Copy, PartialEq)]
pub struct ArtifactScannerWindowInfo {
    /// The panel that shows the selected item.
    pub panel_rect: Rect<i32>,
    pub title_rect: Rect<i32>,
    pub main_stat_name_rect: Rect<i32>,
    pub main_stat_value_rect: Rect<i32>,
    pub level_rect: Rect<i32>,
    pub item_equip_rect: Rect<i32>,
    pub sub_stat_1: Rect<i32>,
    pub sub_stat_2: Rect<i32>,
    pub sub_stat_3: Rect<i32>,
    pub sub_stat_4: Rect<i32>,
    /// Where the number of items is written.
    pub item_count_rect: Rect<i32>,
    /// The pixel whose colour tells the rarity.
    pub star_pos: Pos<i32>,
    /// Where, within a cell of the list, the lock marker lies.
    pub lock_pos: Pos<i32>,
    /// The gap between two cells of the list.
    pub item_gap_size: Size<i32>,
    /// The extent of one cell of the list.
    pub item_size: Size<i32>,
    /// Where the list starts.
    pub scan_margin_pos: Pos<i32>,
    /// By how much the marked panel layout is shifted down.
    pub hoarfrost_offset: Size<i32>,
    /// Columns of the list on one page.
    pub col: i32,
    /// Rows of the list on one page.
    pub row: i32,
}

} // verus!
