use vstd::prelude::*;

use crate::positioning::{Pos, Rect, Size};

verus! {

/// Where the item list lies in the window, in whole pixels.
#[derive(Debug, Clone, Copy, PartialEq)]
pub struct GenshinRepositoryScanControllerWindowInfo {
    /// Rows of the list on one page.
    pub genshin_repository_item_row: i32,
    /// Columns of the list on one page.
    pub genshin_repository_item_col: i32,
    /// The pixel whose colour tells whether the list is at rest.
    pub flag_pos: Pos<i32>,
    /// By how much the list is shifted in the panel of this item kind.
    pub artifact_panel_offset: Size<i32>,
    /// The gap between two cells of the list.
    pub item_gap_size: Size<i32>,
    /// Where the list starts.
    pub scan_margin_pos: Pos<i32>,
    /// The extent of one cell of the list.
    pub item_size: Size<i32>,
    /// The region whose sum tells whether another item shows.
    pub pool_rect: Rect<i32>,
}

/// `n / d` rounded towards nought, for a positive `d`.
pub open spec fn div_towards_zero(n: int, d: int) -> int {
    if n >= 0 {
        n / d
    } else {
        -((-n) / d)
    }
}

/// A coordinate as the pointer takes it: the nearest number that an `i32`
/// holds.
pub open spec fn pointer_coordinate(v: int) -> int {
    if v < i32::MIN {
        i32::MIN as int
    } else if v > i32::MAX {
        i32::MAX as int
    } else {
        v
    }
}

fn div_clamped(n: i128, d: i128) -> (q: i32)
    requires
        d == 2 || d == 4,
        -0x100_0000_0000_0000_0000 <= n <= 0x100_0000_0000_0000_0000,
    ensures
        q == pointer_coordinate(div_towards_zero(n as int, d as int)),
{
    let q: i128 = if n >= 0 {
        n / d
    } else {
        -((-n) / d)
    };
    if q < i32::MIN as i128 {
        i32::MIN
    } else if q > i32::MAX as i128 {
        i32::MAX
    } else {
        q as i32
    }
}

/// The sum of every third byte, from the first on: the red of each pixel.
pub open spec fn red_sum(bytes: Seq<u8>, pixels: int) -> int
    decreases pixels,
{
    if pixels <= 0 {
        0
    } else {
        red_sum(bytes, pixels - 1) + bytes[(pixels - 1) * 3]
    }
}

/// Sums the red of the pixels of a row of bytes; a trailing byte or two that
/// make no pixel are left out. A sum that a `u64` does not hold is given as
/// the largest `u64`.
pub fn calc_pool(row: &Vec<u8>) -> (pool: u64)
    ensures
        pool == if red_sum(row@, row@.len() as int / 3) > u64::MAX {
            u64::MAX as int
        } else {
            red_sum(row@, row@.len() as int / 3)
        },
{
    let len = row.len() / 3;
    let mut sum: u128 = 0;
    let mut i: usize = 0;
    while i < len
        invariant
            len == row@.len() / 3,
            row@.len() <= usize::MAX,
            i <= len,
            sum == red_sum(row@, i as int),
            sum <= 255 * i,
        decreases len - i,
    {
        sum = sum + row[i * 3] as u128;
        i = i + 1;
    }
    if sum > u64::MAX as u128 {
        u64::MAX
    } else {
        sum as u64
    }
}

impl GenshinRepositoryScanControllerWindowInfo {
    /// Where the flag pixel lies on the screen, for a window at `window`.
    pub open spec fn flag_position(&self, window: Rect<i32>, is_artifact: bool) -> Pos<i32> {
        let shift_x = if is_artifact {
            self.artifact_panel_offset.width as int
        } else {
            0
        };
        let shift_y = if is_artifact {
            self.artifact_panel_offset.height as int
        } else {
            0
        };
        Pos {
            x: pointer_coordinate(self.flag_pos.x + window.left + shift_x) as i32,
            y: pointer_coordinate(self.flag_pos.y + window.top + shift_y) as i32,
        }
    }

    /// Where the flag pixel lies on the screen, for a window at `window`.
    pub fn get_flag_position(&self, window: &Rect<i32>, is_artifact: bool) -> (pos: Pos<i32>)
        ensures
            pos == self.flag_position(*window, is_artifact),
    {
        let shift_x: i128 = if is_artifact {
            self.artifact_panel_offset.width as i128
        } else {
            0
        };
        let shift_y: i128 = if is_artifact {
            self.artifact_panel_offset.height as i128
        } else {
            0
        };
        Pos {
            x: div_clamped(2 * (self.flag_pos.x as i128 + window.left as i128 + shift_x), 2),
            y: div_clamped(2 * (self.flag_pos.y as i128 + window.top as i128 + shift_y), 2),
        }
    }

    /// Where to point to select the cell at row `row`, column `col` of the
    /// page: half a cell right of the cell's left edge and a quarter of a
    /// cell below its top edge, rounded towards nought.
    pub open spec fn cell_position(
        &self,
        window: Rect<i32>,
        row: u32,
        col: u32,
        is_artifact: bool,
    ) -> Pos<i32> {
        let shift_x = if is_artifact {
            self.artifact_panel_offset.width as int
        } else {
            0
        };
        let shift_y = if is_artifact {
            self.artifact_panel_offset.height as int
        } else {
            0
        };
        let left = window.left + self.scan_margin_pos.x + shift_x + (self.item_gap_size.width
            + self.item_size.width) * col;
        let top = window.top + self.scan_margin_pos.y + shift_y + (self.item_gap_size.height
            + self.item_size.height) * row;
        Pos {
            x: pointer_coordinate(div_towards_zero(2 * left + self.item_size.width, 2)) as i32,
            y: pointer_coordinate(div_towards_zero(4 * top + self.item_size.height, 4)) as i32,
        }
    }

    /// Where to point to select the cell at row `row`, column `col` of the
    /// page.
    pub fn get_cell_position(&self, window: &Rect<i32>, row: u32, col: u32, is_artifact: bool) -> (pos:
        Pos<i32>)
        ensures
            pos == self.cell_position(*window, row, col, is_artifact),
    {
        let shift_x: i128 = if is_artifact {
            self.artifact_panel_offset.width as i128
        } else {
            0
        };
        let shift_y: i128 = if is_artifact {
            self.artifact_panel_offset.height as i128
        } else {
            0
        };
        let pitch_x: i128 = self.item_gap_size.width as i128 + self.item_size.width as i128;
        let pitch_y: i128 = self.item_gap_size.height as i128 + self.item_size.height as i128;
        assert(-0x1_0000_0000 * 0x1_0000_0000 <= pitch_x * col <= 0x1_0000_0000 * 0x1_0000_0000
            && -0x1_0000_0000 * 0x1_0000_0000 <= pitch_y * row <= 0x1_0000_0000 * 0x1_0000_0000)
            by (nonlinear_arith)
            requires
                -0x1_0000_0000 <= pitch_x <= 0x1_0000_0000,
                -0x1_0000_0000 <= pitch_y <= 0x1_0000_0000,
                0 <= col <= 0x1_0000_0000,
                0 <= row <= 0x1_0000_0000,
        ;
        let left: i128 = window.left as i128 + self.scan_margin_pos.x as i128 + shift_x + pitch_x
            * (col as i128);
        let top: i128 = window.top as i128 + self.scan_margin_pos.y as i128 + shift_y + pitch_y * (
        row as i128);
        Pos {
            x: div_clamped(2 * left + self.item_size.width as i128, 2),
            y: div_clamped(4 * top + self.item_size.height as i128, 4),
        }
    }
}

} // verus!
