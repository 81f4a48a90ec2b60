use vstd::arithmetic::div_mod::{
    lemma_div_basics, lemma_div_is_ordered_by_denominator, lemma_div_plus_one,
    lemma_div_pos_is_pos, lemma_fundamental_div_mod, lemma_fundamental_div_mod_converse,
};
use vstd::prelude::*;

verus! {

/// A cell of the page: its row and its column, both counted from nought.
#[derive(Debug, Clone, Copy, PartialEq, Eq, Hash, Structural)]
pub struct GridAddress {
    pub row: usize,
    pub col: usize,
}

impl GridAddress {
    /// The cell in which the item with the running number `index` lies on its
    /// page, where pages of `rows` rows of `cols` cells are filled one after
    /// the other, row by row.
    pub fn from_index(index: usize, rows: usize, cols: usize) -> (address: GridAddress)
        requires
            rows > 0,
            cols > 0,
            rows * cols <= usize::MAX,
        ensures
            address.row == (index as int % (rows * cols)) / (cols as int),
            address.col == (index as int % (rows * cols)) % (cols as int),
            address.row < rows,
            address.col < cols,
            (index as int % (rows * cols)) == address.row * cols + address.col,
    {
        assert(rows * cols > 0) by (nonlinear_arith)
            requires
                rows > 0,
                cols > 0,
        ;
        let page = rows * cols;
        let within = index % page;
        proof {
            lemma_fundamental_div_mod(within as int, cols as int);
            assert(within / cols < rows) by (nonlinear_arith)
                requires
                    within < rows * cols,
                    cols > 0,
                    within == cols * (within / cols) + within % cols,
                    0 <= within % cols,
            ;
            assert(cols * (within / cols) == (within / cols) * cols) by (nonlinear_arith);
        }
        GridAddress { row: within / cols, col: within % cols }
    }
}

/// How far a scan has come, and how the items fill the grid.
#[derive(Debug, Clone, Copy, PartialEq, Eq, Structural)]
pub struct ScanState {
    /// Rows scanned so far.
    pub scanned_row: usize,
    /// Items scanned so far.
    pub scanned_count: usize,
    /// The row of the page where the next pass starts.
    pub start_row: usize,
    /// Items in all.
    pub item_count: usize,
    /// Rows in all.
    pub total_row: usize,
    /// Items in the last row.
    pub last_row_col: usize,
}

/// How many rows of `col` cells it takes to hold `count` items: the least
/// number of rows that holds them all.
pub open spec fn rows_needed(count: int, col: int) -> int {
    (count + col - 1) / col
}

/// `rows_needed` is the least number of rows that holds the items, and the
/// last of these rows holds between one item and a full row.
pub proof fn lemma_rows_needed(count: int, col: int)
    requires
        0 <= count,
        0 < col,
    ensures
        rows_needed(count, col) >= 0,
        rows_needed(count, col) * col >= count,
        (rows_needed(count, col) - 1) * col < count || count == 0,
        count == 0 ==> rows_needed(count, col) == 0,
        count % col == 0 ==> count - (rows_needed(count, col) - 1) * col == col,
        count % col != 0 ==> count - (rows_needed(count, col) - 1) * col == count % col,
{
    let k = count / col;
    let m = count % col;
    lemma_fundamental_div_mod(count, col);
    assert(count == col * k + m);
    assert(k >= 0) by (nonlinear_arith)
        requires
            count == col * k + m,
            0 <= m < col,
            0 <= count,
    ;
    if m == 0 {
        assert(count + col - 1 == k * col + (col - 1)) by (nonlinear_arith)
            requires
                count == col * k,
        ;
        lemma_fundamental_div_mod_converse(count + col - 1, col, k, col - 1);
        assert((k - 1) * col == k * col - col) by (nonlinear_arith);
        assert(k * col == count) by (nonlinear_arith)
            requires
                count == col * k,
        ;
    } else {
        assert(count + col - 1 == (k + 1) * col + (m - 1)) by (nonlinear_arith)
            requires
                count == col * k + m,
        ;
        lemma_fundamental_div_mod_converse(count + col - 1, col, k + 1, m - 1);
        assert((k + 1) * col == k * col + col && k * col == col * k) by (nonlinear_arith);
    }
}

/// Computes `rows_needed`, whatever the sizes.
fn rows_needed_exec(count: usize, col: usize) -> (rows: usize)
    requires
        col > 0,
    ensures
        rows == rows_needed(count as int, col as int),
{
    if count == 0 {
        proof {
            lemma_rows_needed(0, col as int);
        }
        0
    } else {
        proof {
            lemma_div_plus_one(count - 1, col as int);
            lemma_div_pos_is_pos(count - 1, col as int);
            lemma_div_is_ordered_by_denominator(count - 1, 1, col as int);
            lemma_div_basics(count - 1);
        }
        (count - 1) / col + 1
    }
}

impl ScanState {
    /// Whether the rows and the last row's length are those of `item_count`
    /// items in rows of `col`.
    pub open spec fn fits(&self, col: int) -> bool {
        &&& col > 0
        &&& self.total_row == rows_needed(self.item_count as int, col)
        &&& self.last_row_col == self.item_count - (self.total_row - 1) * col
        &&& 1 <= self.last_row_col <= col
    }

    /// The state before anything is scanned. The rows are the least number of
    /// rows of `col` cells that hold `item_count` items, and the last row's
    /// length is what the rows before it leave: a full row where the items
    /// fill their rows exactly.
    pub fn new(item_count: usize, col: usize) -> (state: ScanState)
        requires
            col > 0,
        ensures
            state.fits(col as int),
            state.item_count == item_count,
            state.scanned_row == 0,
            state.scanned_count == 0,
            state.start_row == 0,
            state.total_row * col >= item_count,
            item_count > 0 ==> (state.total_row - 1) * col < item_count,
            state.last_row_col == item_count - (state.total_row - 1) * col,
            item_count % col == 0 ==> state.last_row_col == col,
            item_count % col != 0 ==> state.last_row_col == item_count % col,
    {
        proof {
            lemma_rows_needed(item_count as int, col as int);
        }
        let total_row = rows_needed_exec(item_count, col);
        let last_row_col = if item_count % col == 0 {
            col
        } else {
            item_count % col
        };
        ScanState {
            scanned_row: 0,
            scanned_count: 0,
            start_row: 0,
            item_count,
            total_row,
            last_row_col,
        }
    }

    /// Whether every item is scanned.
    pub open spec fn spec_is_scan_complete(&self) -> bool {
        self.scanned_count >= self.item_count
    }

    /// Whether every item is scanned.
    #[verifier::when_used_as_spec(spec_is_scan_complete)]
    pub fn is_scan_complete(&self) -> (complete: bool)
        ensures
            complete == self.spec_is_scan_complete(),
    {
        self.scanned_count >= self.item_count
    }

    /// Whether every row is scanned.
    pub open spec fn spec_is_max_row_reached(&self) -> bool {
        self.scanned_row >= self.total_row
    }

    /// Whether every row is scanned.
    #[verifier::when_used_as_spec(spec_is_max_row_reached)]
    pub fn is_max_row_reached(&self) -> (reached: bool)
        ensures
            reached == self.spec_is_max_row_reached(),
    {
        self.scanned_row >= self.total_row
    }

    /// How many rows to scroll before the next pass, on a page of `row` rows
    /// of `col` cells: the rows that the remaining items need, a page at
    /// most.
    pub open spec fn scroll_rows(&self, row: int, col: int) -> int {
        let remain_row = rows_needed(self.item_count - self.scanned_count, col);
        if remain_row < row {
            remain_row
        } else {
            row
        }
    }

    /// How far to scroll and where to start after it: the rows to scroll, and
    /// the row of the page where the next pass starts, which is what the
    /// scroll leaves of the page above the new rows.
    pub fn calculate_remaining_scan_params(&self, row: usize, col: usize) -> (params: (
        usize,
        usize,
    ))
        requires
            col > 0,
            self.scanned_count <= self.item_count,
        ensures
            params.0 == self.scroll_rows(row as int, col as int),
            params.1 == row - params.0,
            params.0 <= row,
            params.0 * col >= self.item_count - self.scanned_count || params.0 == row,
            self.scanned_count < self.item_count && row > 0 ==> params.0 > 0,
    {
        let remain = self.item_count - self.scanned_count;
        proof {
            lemma_rows_needed(remain as int, col as int);
        }
        let remain_row = rows_needed_exec(remain, col);
        let scroll_row = if remain_row < row {
            remain_row
        } else {
            row
        };
        let start_row = row - scroll_row;
        assert(remain > 0 ==> remain_row > 0) by (nonlinear_arith)
            requires
                remain_row * col >= remain,
                col > 0,
        ;
        (scroll_row, start_row)
    }
}

} // verus!
