use vstd::arithmetic::div_mod::lemma_fundamental_div_mod_converse;
use vstd::prelude::*;

use crate::capture::image::{color_distance, color_distance_spec, Rgb};
use crate::scanner_controller::config::GenshinRepositoryScannerLogicConfig;
use crate::scanner_controller::scan_state::{
    lemma_rows_needed, rows_needed, GridAddress, ScanState,
};

verus! {

/// How a scan ended, where it ended without a failure.
#[derive(Debug, Clone, Copy, PartialEq, Eq, Structural)]
pub enum ReturnResult {
    /// The user asked to stop.
    Interrupted,
    /// Every item was visited, or the last row was reached.
    Finished,
}

/// How scrolling by some rows ended.
#[derive(Debug, Clone, Copy, PartialEq, Eq, Structural)]
pub enum ScrollResult {
    /// A row did not come to rest within the allowed notches.
    TimeLimitExceeded,
    /// The user asked to stop.
    Interrupt,
    /// Every row came to rest.
    Success,
    /// A device failed.
    Failed,
    /// The distance was estimated, not watched.
    Skip,
}

/// Why a scan failed.
#[derive(Debug, Clone, Copy, PartialEq, Eq, Structural)]
pub enum ControllerError {
    /// A device could not do what it was asked.
    DeviceFailed,
    /// The next item did not show within the allowed time.
    SwitchTimeout,
    /// A row did not come to rest within the allowed notches.
    ScrollTimeout,
    /// The driver answered with an event that the action did not call for.
    UnexpectedEvent,
}

/// How a scan ended.
#[derive(Debug, Clone, Copy, PartialEq, Eq, Structural)]
pub enum ScanOutcome {
    Finished,
    Interrupted,
    Failed(ControllerError),
}

impl ScanOutcome {
    /// The outcome as a result: how the scan ended, or why it failed.
    pub open spec fn spec_into_result(self) -> Result<ReturnResult, ControllerError> {
        match self {
            ScanOutcome::Finished => Ok(ReturnResult::Finished),
            ScanOutcome::Interrupted => Ok(ReturnResult::Interrupted),
            ScanOutcome::Failed(error) => Err(error),
        }
    }

    /// The outcome as a result: how the scan ended, or why it failed.
    #[verifier::when_used_as_spec(spec_into_result)]
    pub fn into_result(self) -> (result: Result<ReturnResult, ControllerError>)
        ensures
            result == self.spec_into_result(),
    {
        match self {
            ScanOutcome::Finished => Ok(ReturnResult::Finished),
            ScanOutcome::Interrupted => Ok(ReturnResult::Interrupted),
            ScanOutcome::Failed(error) => Err(error),
        }
    }
}

/// What the driver is to do next.
#[derive(Debug, Clone, Copy, PartialEq, Eq, Structural)]
pub enum ControllerAction {
    /// Move to the first cell, click, wait a second and sample the flag
    /// pixel; answer with `Color`, or with `Failed`.
    Prepare,
    /// Move to the cell and click; answer with `Done`, or with `Failed`.
    Select(GridAddress),
    /// Capture the pool region and sum it; answer with `Pool`, or with
    /// `Failed`.
    SamplePool,
    /// Wait; answer with `Done`.
    Wait { ms: u32 },
    /// Turn the wheel by one notch, then wait; answer with `Done`, or with
    /// `Failed`.
    ScrollNotch { settle_ms: u32 },
    /// Sample the flag pixel; answer with `Color`, or with `Failed`.
    SampleFlag,
    /// The selected item is ready: hand it on, then answer with `Resumed`.
    Yield,
    /// The scan is over.
    Finish(ScanOutcome),
}

/// What the driver reports.
#[derive(Debug, Clone, Copy, PartialEq, Eq, Structural)]
pub enum ControllerEvent {
    /// The scan is to begin.
    Start,
    /// The action was done.
    Done,
    /// The action could not be done.
    Failed,
    /// The colour that was sampled.
    Color(Rgb),
    /// The sum that was taken of the pool region.
    Pool(u64),
    /// The item was handed on.
    Resumed,
}

/// What the driver reads off the machine with every report.
#[derive(Debug, Clone, Copy, PartialEq, Eq, Structural)]
pub struct Ambient {
    /// The monotonic clock, in milliseconds.
    pub now_ms: u64,
    /// Whether the user asks to stop.
    pub cancel_requested: bool,
}

/// Where the controller stands.
#[derive(Debug, Clone, Copy, PartialEq, Eq, Structural)]
pub enum Phase {
    /// Nothing was done yet.
    Idle,
    /// `Prepare` is under way.
    Preparing,
    /// `Select` is under way.
    Selecting,
    /// The fixed wait of a streamed game is under way.
    CloudWaiting,
    /// A pool sample is under way; `changed` tells whether the pool was seen
    /// to differ since the wait began at `started_ms`.
    Switching { started_ms: u64, changed: bool },
    /// The pause between two pool samples is under way.
    SwitchPause { started_ms: u64, changed: bool },
    /// The item was yielded.
    Yielded,
    /// A notch of a watched row scroll is under way: `rows_left` rows are
    /// still to come to rest, this one included; `moved` tells whether the
    /// flag pixel was seen to leave its colour; `count` notches were turned
    /// for this row.
    RowScrollNotch { rows_left: u32, moved: bool, count: u32 },
    /// The flag sample after a notch of a watched row scroll is under way.
    RowScrollSample { rows_left: u32, moved: bool, count: u32 },
    /// A notch of an estimated scroll is under way; `left` are to follow.
    FastScrollNotch { left: u32 },
    /// The rest after an estimated scroll is under way.
    FastScrollSettle,
    /// A flag sample of the alignment is under way; `tries` are left, this
    /// one included.
    AlignSample { tries: u32 },
    /// A notch of the alignment is under way.
    AlignNotch { tries: u32 },
    /// The rest after a page scroll is under way.
    PageSettle,
    /// The scan is over.
    Finished(ScanOutcome),
}

/// How far, squared, the flag pixel may lie from its resting colour and
/// still count as at rest.
pub const FLAG_DISTANCE_LIMIT: u32 = 10;

/// How many notches a row may take to come to rest.
pub const MAX_SCROLL_NOTCHES: u32 = 25;

/// How many watched rows it takes before distances are estimated.
pub const ROWS_BEFORE_ESTIMATE: u32 = 5;

/// How many times the alignment samples the flag pixel, at most.
pub const ALIGN_TRIES: u32 = 10;

/// How long the page rests after a scroll, in milliseconds.
pub const PAGE_SETTLE_MS: u32 = 100;

/// The controller of one scan: a machine that is told what happened and
/// says what to do next.
#[derive(Debug, Clone, Copy, PartialEq, Eq, Structural)]
pub struct GenshinRepositoryScanController {
    /// Rows of one page.
    pub row: usize,
    /// Columns of one page.
    pub col: usize,
    /// Whether the game is streamed, so that its screen tells nothing of
    /// when an item shows.
    pub is_cloud: bool,
    pub config: GenshinRepositoryScannerLogicConfig,
    /// The flag pixel's colour at rest.
    pub initial_color: Rgb,
    /// The last pool sum seen.
    pub pool: u64,
    /// Rows scrolled under watch.
    pub scrolled_rows: u32,
    /// Notches that those rows took, in all.
    pub scroll_notches: u64,
    /// Items whose showing was awaited.
    pub switches: u64,
    /// How long those waits took, in all, in milliseconds.
    pub switch_ms: u128,
    pub scan: ScanState,
    /// The row of the page that is being scanned.
    pub page_row: usize,
    /// The row of the page before which the pass ends.
    pub page_row_end: usize,
    /// The column that is being scanned.
    pub page_col: usize,
    /// How many items the row being scanned holds.
    pub row_items: usize,
    pub phase: Phase,
}

/// The time from `started_ms` to `now_ms`; nought if the clock ran backwards.
pub open spec fn elapsed_ms(now_ms: u64, started_ms: u64) -> u64 {
    if now_ms >= started_ms {
        (now_ms - started_ms) as u64
    } else {
        0
    }
}

/// A wait in milliseconds as the driver takes it: nought for a negative one.
pub open spec fn wait_ms(ms: int) -> u32 {
    if ms < 0 {
        0
    } else {
        ms as u32
    }
}

/// How many notches scroll `count` rows, estimated from `notches` notches
/// that `rows` rows took: the mean times the rows, less two, rounded to the
/// nearest whole, and nought where that is less.
pub open spec fn estimated_notches(notches: int, rows: int, count: int) -> int {
    let twice = 2 * (notches * count - 2 * rows) + rows;
    if rows <= 0 || twice <= 0 {
        0
    } else if twice / (2 * rows) > i32::MAX {
        i32::MAX as int
    } else {
        twice / (2 * rows)
    }
}

type Step = (GenshinRepositoryScanController, ControllerAction);

impl GenshinRepositoryScanController {
    /// What holds of the counts in every state: the grid is the one of the
    /// item count, no more items or rows are scanned than there are, and the
    /// statistics are those of the rows scrolled and the items awaited.
    pub open spec fn sound(&self) -> bool {
        &&& 0 < self.row <= i32::MAX
        &&& self.scan.fits(self.col as int)
        &&& self.scan.scanned_count <= self.scan.item_count
        &&& self.scan.scanned_row <= self.scan.total_row
        &&& self.scan.start_row < self.row
        &&& self.scan.start_row > 0 ==> self.scan.total_row > self.row
        &&& self.config.scroll_delay >= 0
        &&& self.scroll_notches <= MAX_SCROLL_NOTCHES * self.scrolled_rows
        &&& self.scrolled_rows < ROWS_BEFORE_ESTIMATE + self.row
        &&& self.switch_ms <= self.switches * u64::MAX
        &&& self.switches <= self.scan.scanned_count + 1
        &&& self.within_cap()
    }

    /// Whether the scan has kept to the configured limit of rows: no more
    /// rows are scanned than it allows, and no more items than these rows
    /// hold. A negative limit is no limit.
    pub open spec fn within_cap(&self) -> bool {
        self.config.max_row >= 0 ==> self.scan.scanned_row <= self.config.max_row
            && self.scan.scanned_count <= self.config.max_row * self.col
    }

    /// What holds between two rows: the items scanned are those of the rows
    /// scanned, each row but the last a full one.
    pub open spec fn between_rows(&self) -> bool {
        &&& self.sound()
        &&& self.switches <= self.scan.scanned_count
        &&& self.scan.scanned_row < self.scan.total_row ==> self.scan.scanned_count
            == self.scan.scanned_row * self.col
        &&& self.scan.scanned_row == self.scan.total_row ==> self.scan.scanned_count
            == self.scan.item_count
    }

    /// What holds during a pass over the page: the pass ends with the page or
    /// with the rows, whichever comes first, and as many rows are scanned as
    /// the pass has left behind, or more.
    pub open spec fn in_pass(&self) -> bool {
        &&& self.page_row_end == if self.row < self.scan.total_row {
            self.row
        } else {
            self.scan.total_row
        }
        &&& self.scan.start_row <= self.page_row
        &&& self.scan.scanned_row >= self.page_row - self.scan.start_row
    }

    /// What holds while a cell is selected: the cell lies in its row and the
    /// row in the pass, the item is still to be counted, and the items
    /// scanned are those of the rows scanned and of the cells before this
    /// one.
    pub open spec fn at_cell(&self) -> bool {
        &&& self.sound()
        &&& self.page_col < self.row_items <= self.col
        &&& self.in_pass()
        &&& self.page_row < self.page_row_end
        &&& self.scan.scanned_count < self.scan.item_count
        &&& self.scan.scanned_row < self.scan.total_row
        &&& !self.cap_reached()
        &&& self.scan.scanned_count == self.scan.scanned_row * self.col + self.page_col
        &&& self.row_items == if self.scan.scanned_row + 1 == self.scan.total_row {
            self.scan.last_row_col
        } else {
            self.col
        }
    }

    /// Whether the controller's state hangs together.
    pub open spec fn wf(&self) -> bool {
        match self.phase {
            Phase::Finished(_) => self.sound(),
            Phase::Selecting
            | Phase::CloudWaiting
            | Phase::Switching { .. }
            | Phase::SwitchPause { .. } => self.at_cell() && self.switches
                <= self.scan.scanned_count,
            Phase::Yielded => self.at_cell(),
            Phase::RowScrollNotch { rows_left, moved, count } => self.between_rows() && rows_left
                >= 1 && count < MAX_SCROLL_NOTCHES && self.scrolled_rows + rows_left
                < ROWS_BEFORE_ESTIMATE + self.row,
            Phase::RowScrollSample { rows_left, moved, count } => self.between_rows() && rows_left
                >= 1 && 1 <= count <= MAX_SCROLL_NOTCHES && self.scrolled_rows + rows_left
                < ROWS_BEFORE_ESTIMATE + self.row,
            Phase::AlignSample { tries } => self.between_rows() && 1 <= tries <= ALIGN_TRIES,
            Phase::AlignNotch { tries } => self.between_rows() && 1 <= tries <= ALIGN_TRIES,
            Phase::Idle
            | Phase::Preparing
            | Phase::FastScrollNotch { .. }
            | Phase::FastScrollSettle
            | Phase::PageSettle => self.between_rows(),
        }
    }

    /// Whether the configured limit of rows is reached.
    pub open spec fn cap_reached(&self) -> bool {
        self.config.max_row >= 0 && self.scan.scanned_row >= self.config.max_row
    }

    /// The pause between two pool samples.
    pub open spec fn poll_interval(&self) -> u32 {
        if self.config.fast_mode {
            5
        } else {
            10
        }
    }

    /// Whether a wait that has lasted `elapsed` milliseconds has lasted too
    /// long. A negative limit is no limit.
    pub open spec fn switch_timed_out(&self, elapsed: u64) -> bool {
        self.config.optimized_switch_wait() >= 0 && elapsed >= self.config.optimized_switch_wait()
    }

    /// The scan ends with `outcome`.
    pub open spec fn finish(self, outcome: ScanOutcome) -> Step {
        (
            GenshinRepositoryScanController { phase: Phase::Finished(outcome), ..self },
            ControllerAction::Finish(outcome),
        )
    }

    /// The head of a pass over the page: done if every item is scanned or
    /// the limit of rows is reached, else on to the first row of the pass.
    pub open spec fn advance(self, a: Ambient) -> Step {
        if self.scan.is_scan_complete() || self.cap_reached() {
            self.finish(ScanOutcome::Finished)
        } else {
            let end = if self.row < self.scan.total_row {
                self.row
            } else {
                self.scan.total_row
            };
            (GenshinRepositoryScanController {
                page_row: self.scan.start_row,
                page_row_end: end,
                ..self
            }).enter_row(a)
        }
    }

    /// The head of a row: done if the limit of rows is reached, else on to
    /// the row's first cell, or, past the last row of the pass, on to the
    /// next page.
    pub open spec fn enter_row(self, a: Ambient) -> Step {
        if self.cap_reached() {
            self.finish(ScanOutcome::Finished)
        } else if self.page_row < self.page_row_end {
            let items = if self.scan.scanned_row + 1 == self.scan.total_row {
                self.scan.last_row_col
            } else {
                self.col
            };
            (GenshinRepositoryScanController { page_col: 0, row_items: items, ..self }).visit(a)
        } else if !self.scan.is_scan_complete() {
            self.begin_page_scroll(a)
        } else {
            self.finish(ScanOutcome::Finished)
        }
    }

    /// The head of a cell: done if every item is scanned, interrupted if the
    /// user asks to stop, else the cell is selected.
    pub open spec fn visit(self, a: Ambient) -> Step {
        if self.scan.scanned_count >= self.scan.item_count {
            self.finish(ScanOutcome::Finished)
        } else if a.cancel_requested {
            self.finish(ScanOutcome::Interrupted)
        } else {
            (
                GenshinRepositoryScanController { phase: Phase::Selecting, ..self },
                ControllerAction::Select(GridAddress { row: self.page_row, col: self.page_col }),
            )
        }
    }

    /// After an item was handed on: it is counted, and the walk goes on to
    /// the next cell of the row, or, at the row's end, to the next row,
    /// unless the rows are all scanned or their limit is reached.
    pub open spec fn after_item(self, a: Ambient) -> Step {
        let counted = GenshinRepositoryScanController {
            scan: ScanState { scanned_count: (self.scan.scanned_count + 1) as usize, ..self.scan },
            page_col: (self.page_col + 1) as usize,
            ..self
        };
        if counted.page_col < counted.row_items {
            counted.visit(a)
        } else {
            let rowed = GenshinRepositoryScanController {
                scan: ScanState {
                    scanned_row: (counted.scan.scanned_row + 1) as usize,
                    ..counted.scan
                },
                ..counted
            };
            if rowed.scan.is_max_row_reached() || rowed.cap_reached() {
                rowed.finish(ScanOutcome::Finished)
            } else {
                (GenshinRepositoryScanController {
                    page_row: (rowed.page_row + 1) as usize,
                    ..rowed
                }).enter_row(a)
            }
        }
    }

    /// The wait for the selected item to show begins: a fixed wait in a
    /// streamed game, else the pool is watched.
    pub open spec fn begin_switch(self, a: Ambient) -> Step {
        if self.is_cloud {
            (
                GenshinRepositoryScanController { phase: Phase::CloudWaiting, ..self },
                ControllerAction::Wait { ms: wait_ms(self.config.optimized_cloud_wait()) },
            )
        } else {
            self.switch_poll(a.now_ms, false, a)
        }
    }

    /// The head of the watch: another sample unless the wait has lasted too
    /// long, which fails the scan.
    pub open spec fn switch_poll(self, started_ms: u64, changed: bool, a: Ambient) -> Step {
        if self.switch_timed_out(elapsed_ms(a.now_ms, started_ms)) {
            self.finish(ScanOutcome::Failed(ControllerError::SwitchTimeout))
        } else {
            (
                GenshinRepositoryScanController {
                    phase: Phase::Switching { started_ms, changed },
                    ..self
                },
                ControllerAction::SamplePool,
            )
        }
    }

    /// A pool sample came: a sum that differs from the last one is noted; a
    /// sum that repeats after one that differed tells that the item shows,
    /// and the item is yielded.
    pub open spec fn on_pool(self, started_ms: u64, changed: bool, pool: u64, a: Ambient) -> Step {
        if pool != self.pool {
            (
                GenshinRepositoryScanController {
                    pool,
                    phase: Phase::SwitchPause { started_ms, changed: true },
                    ..self
                },
                ControllerAction::Wait { ms: self.poll_interval() },
            )
        } else if changed {
            (
                GenshinRepositoryScanController {
                    switches: (self.switches + 1) as u64,
                    switch_ms: (self.switch_ms + elapsed_ms(a.now_ms, started_ms)) as u128,
                    phase: Phase::Yielded,
                    ..self
                },
                ControllerAction::Yield,
            )
        } else {
            (
                GenshinRepositoryScanController {
                    phase: Phase::SwitchPause { started_ms, changed },
                    ..self
                },
                ControllerAction::Wait { ms: self.poll_interval() },
            )
        }
    }

    /// The page is scrolled on: by estimate once enough rows were watched,
    /// else row by row under watch.
    pub open spec fn begin_page_scroll(self, a: Ambient) -> Step {
        let rows = self.scan.scroll_rows(self.row as int, self.col as int);
        let moved = GenshinRepositoryScanController {
            scan: ScanState { start_row: (self.row - rows) as usize, ..self.scan },
            ..self
        };
        if moved.scrolled_rows >= ROWS_BEFORE_ESTIMATE {
            moved.fast_notch(
                estimated_notches(moved.scroll_notches as int, moved.scrolled_rows as int, rows) as u32,
                a,
            )
        } else {
            moved.next_row(rows as u32, a)
        }
    }

    /// One more notch of an estimated scroll, or the rest after the last.
    pub open spec fn fast_notch(self, left: u32, a: Ambient) -> Step {
        if left > 0 {
            (
                GenshinRepositoryScanController {
                    phase: Phase::FastScrollNotch { left: (left - 1) as u32 },
                    ..self
                },
                ControllerAction::ScrollNotch { settle_ms: 0 },
            )
        } else {
            (
                GenshinRepositoryScanController { phase: Phase::FastScrollSettle, ..self },
                ControllerAction::Wait { ms: wait_ms(self.config.scroll_delay as int) },
            )
        }
    }

    /// One more sample of the alignment, or its end when no try is left.
    pub open spec fn align(self, tries: u32, a: Ambient) -> Step {
        if tries > 0 {
            (
                GenshinRepositoryScanController { phase: Phase::AlignSample { tries }, ..self },
                ControllerAction::SampleFlag,
            )
        } else {
            self.page_scroll_done(ScrollResult::Skip, a)
        }
    }

    /// The next row of a watched scroll, or its end when none is left.
    pub open spec fn next_row(self, rows_left: u32, a: Ambient) -> Step {
        if rows_left > 0 {
            self.row_iter(rows_left, false, 0, a)
        } else {
            self.page_scroll_done(ScrollResult::Success, a)
        }
    }

    /// The head of the watch of one row: one more notch, unless the row has
    /// had its notches, or the user asks to stop.
    pub open spec fn row_iter(self, rows_left: u32, moved: bool, count: u32, a: Ambient) -> Step {
        if count >= MAX_SCROLL_NOTCHES {
            self.page_scroll_done(ScrollResult::TimeLimitExceeded, a)
        } else if a.cancel_requested {
            self.page_scroll_done(ScrollResult::Interrupt, a)
        } else {
            (
                GenshinRepositoryScanController {
                    phase: Phase::RowScrollNotch { rows_left, moved, count },
                    ..self
                },
                ControllerAction::ScrollNotch { settle_ms: wait_ms(self.config.scroll_delay as int) },
            )
        }
    }

    /// A flag sample of a watched row came: the row is at rest once the flag
    /// pixel is back at its colour after it was seen to leave it.
    pub open spec fn on_row_color(
        self,
        rows_left: u32,
        moved: bool,
        count: u32,
        color: Rgb,
        a: Ambient,
    ) -> Step {
        let far = color_distance_spec(self.initial_color, color) > FLAG_DISTANCE_LIMIT;
        if !moved && far {
            self.row_iter(rows_left, true, count, a)
        } else if moved && !far {
            (GenshinRepositoryScanController {
                scrolled_rows: (self.scrolled_rows + 1) as u32,
                scroll_notches: (self.scroll_notches + count) as u64,
                ..self
            }).next_row((rows_left - 1) as u32, a)
        } else {
            self.row_iter(rows_left, moved, count, a)
        }
    }

    /// The page scroll ended: a row that did not come to rest fails the scan,
    /// a request to stop interrupts it, and anything else lets the page rest
    /// before the next pass.
    pub open spec fn page_scroll_done(self, result: ScrollResult, a: Ambient) -> Step {
        match result {
            ScrollResult::TimeLimitExceeded => self.finish(
                ScanOutcome::Failed(ControllerError::ScrollTimeout),
            ),
            ScrollResult::Interrupt => self.finish(ScanOutcome::Interrupted),
            _ => (
                GenshinRepositoryScanController { phase: Phase::PageSettle, ..self },
                ControllerAction::Wait { ms: PAGE_SETTLE_MS },
            ),
        }
    }

    /// What the controller does when `event` is reported in the ambient `a`:
    /// the state it goes to, and the action it asks for.
    pub open spec fn step(self, event: ControllerEvent, a: Ambient) -> Step {
        match (self.phase, event) {
            (Phase::Finished(outcome), _) => (self, ControllerAction::Finish(outcome)),
            (Phase::Idle, ControllerEvent::Start) => (
                GenshinRepositoryScanController { phase: Phase::Preparing, ..self },
                ControllerAction::Prepare,
            ),
            (Phase::Preparing, ControllerEvent::Color(color)) => (GenshinRepositoryScanController {
                initial_color: color,
                ..self
            }).advance(a),
            (Phase::Selecting, ControllerEvent::Done) => self.begin_switch(a),
            (Phase::CloudWaiting, ControllerEvent::Done) => (
                GenshinRepositoryScanController { phase: Phase::Yielded, ..self },
                ControllerAction::Yield,
            ),
            (Phase::Switching { started_ms, changed }, ControllerEvent::Pool(pool)) => self.on_pool(
                started_ms,
                changed,
                pool,
                a,
            ),
            (Phase::SwitchPause { started_ms, changed }, ControllerEvent::Done) => self.switch_poll(
                started_ms,
                changed,
                a,
            ),
            (Phase::Yielded, ControllerEvent::Resumed) => self.after_item(a),
            (Phase::RowScrollNotch { rows_left, moved, count }, ControllerEvent::Done) => (
                GenshinRepositoryScanController {
                    phase: Phase::RowScrollSample { rows_left, moved, count: (count + 1) as u32 },
                    ..self
                },
                ControllerAction::SampleFlag,
            ),
            (Phase::RowScrollNotch { rows_left, moved, count }, ControllerEvent::Failed) => (
                GenshinRepositoryScanController {
                    phase: Phase::RowScrollSample { rows_left, moved, count: (count + 1) as u32 },
                    ..self
                },
                ControllerAction::SampleFlag,
            ),
            (
                Phase::RowScrollSample { rows_left, moved, count },
                ControllerEvent::Color(color),
            ) => self.on_row_color(rows_left, moved, count, color, a),
            (Phase::RowScrollSample { .. }, ControllerEvent::Failed) => self.page_scroll_done(
                ScrollResult::Failed,
                a,
            ),
            (Phase::FastScrollNotch { left }, ControllerEvent::Done) => self.fast_notch(left, a),
            (Phase::FastScrollNotch { .. }, ControllerEvent::Failed) => self.page_scroll_done(
                ScrollResult::Failed,
                a,
            ),
            (Phase::FastScrollSettle, ControllerEvent::Done) => self.align(ALIGN_TRIES, a),
            (Phase::AlignSample { tries }, ControllerEvent::Color(color)) => if color_distance_spec(
                self.initial_color,
                color,
            ) > FLAG_DISTANCE_LIMIT {
                (
                    GenshinRepositoryScanController { phase: Phase::AlignNotch { tries }, ..self },
                    ControllerAction::ScrollNotch {
                        settle_ms: wait_ms(self.config.scroll_delay as int),
                    },
                )
            } else {
                self.page_scroll_done(ScrollResult::Skip, a)
            },
            (Phase::AlignSample { .. }, ControllerEvent::Failed) => self.page_scroll_done(
                ScrollResult::Skip,
                a,
            ),
            (Phase::AlignNotch { tries }, ControllerEvent::Done) => self.align(
                (tries - 1) as u32,
                a,
            ),
            (Phase::PageSettle, ControllerEvent::Done) => self.advance(a),
            (_, ControllerEvent::Failed) => self.finish(
                ScanOutcome::Failed(ControllerError::DeviceFailed),
            ),
            _ => self.finish(ScanOutcome::Failed(ControllerError::UnexpectedEvent)),
        }
    }
}

fn elapsed_ms_exec(now_ms: u64, started_ms: u64) -> (elapsed: u64)
    ensures
        elapsed == elapsed_ms(now_ms, started_ms),
{
    if now_ms >= started_ms {
        now_ms - started_ms
    } else {
        0
    }
}

fn wait_ms_exec(ms: i32) -> (wait: u32)
    ensures
        wait == wait_ms(ms as int),
{
    if ms < 0 {
        0
    } else {
        ms as u32
    }
}

fn estimated_notches_exec(notches: u64, rows: u32, count: u32) -> (estimate: u32)
    ensures
        estimate == estimated_notches(notches as int, rows as int, count as int),
        estimate <= i32::MAX,
{
    if rows == 0 {
        return 0;
    }
    assert(0 <= notches * count <= 0xffff_ffff_ffff_ffff * 0xffff_ffff) by (nonlinear_arith)
        requires
            0 <= notches <= 0xffff_ffff_ffff_ffff,
            0 <= count <= 0xffff_ffff,
    ;
    let product: i128 = (notches as i128) * (count as i128);
    let twice: i128 = 2 * (product - 2 * (rows as i128)) + rows as i128;
    if twice <= 0 {
        return 0;
    }
    let rounded: i128 = twice / (2 * (rows as i128));
    if rounded > i32::MAX as i128 {
        i32::MAX as u32
    } else {
        assert(rounded >= 0) by (nonlinear_arith)
            requires
                rounded == (twice as int) / (2 * (rows as int)),
                twice > 0,
                rows > 0,
        ;
        rounded as u32
    }
}

impl GenshinRepositoryScanController {
    /// A controller for `item_count` items on pages of `row` rows of `col`
    /// columns, with nothing done yet.
    pub fn new(
        row: usize,
        col: usize,
        item_count: usize,
        config: GenshinRepositoryScannerLogicConfig,
        is_cloud: bool,
    ) -> (controller: GenshinRepositoryScanController)
        requires
            0 < row <= i32::MAX,
            col > 0,
            config.scroll_delay >= 0,
        ensures
            controller.wf(),
            controller.phase == Phase::Idle,
            controller.row == row,
            controller.col == col,
            controller.is_cloud == is_cloud,
            controller.config == config,
            controller.scan.item_count == item_count,
            controller.scan.scanned_count == 0,
            controller.scan.scanned_row == 0,
            controller.scan.start_row == 0,
            controller.scrolled_rows == 0,
            controller.pool == 0,
    {
        let scan = ScanState::new(item_count, col);
        assert(0 * col == 0) by (nonlinear_arith);
        GenshinRepositoryScanController {
            row,
            col,
            is_cloud,
            config,
            initial_color: Rgb { r: 0, g: 0, b: 0 },
            pool: 0,
            scrolled_rows: 0,
            scroll_notches: 0,
            switches: 0,
            switch_ms: 0,
            scan,
            page_row: 0,
            page_row_end: 0,
            page_col: 0,
            row_items: 0,
            phase: Phase::Idle,
        }
    }

    fn finish_exec(self, outcome: ScanOutcome) -> (next: Step)
        ensures
            next == self.finish(outcome),
    {
        (
            GenshinRepositoryScanController { phase: Phase::Finished(outcome), ..self },
            ControllerAction::Finish(outcome),
        )
    }

    fn page_scroll_done_exec(self, result: ScrollResult, a: Ambient) -> (next: Step)
        ensures
            next == self.page_scroll_done(result, a),
    {
        match result {
            ScrollResult::TimeLimitExceeded => self.finish_exec(
                ScanOutcome::Failed(ControllerError::ScrollTimeout),
            ),
            ScrollResult::Interrupt => self.finish_exec(ScanOutcome::Interrupted),
            _ => (
                GenshinRepositoryScanController { phase: Phase::PageSettle, ..self },
                ControllerAction::Wait { ms: PAGE_SETTLE_MS },
            ),
        }
    }

    fn row_iter_exec(self, rows_left: u32, moved: bool, count: u32, a: Ambient) -> (next: Step)
        ensures
            next == self.row_iter(rows_left, moved, count, a),
    {
        if count >= MAX_SCROLL_NOTCHES {
            self.page_scroll_done_exec(ScrollResult::TimeLimitExceeded, a)
        } else if a.cancel_requested {
            self.page_scroll_done_exec(ScrollResult::Interrupt, a)
        } else {
            (
                GenshinRepositoryScanController {
                    phase: Phase::RowScrollNotch { rows_left, moved, count },
                    ..self
                },
                ControllerAction::ScrollNotch { settle_ms: wait_ms_exec(self.config.scroll_delay) },
            )
        }
    }

    fn next_row_exec(self, rows_left: u32, a: Ambient) -> (next: Step)
        ensures
            next == self.next_row(rows_left, a),
    {
        if rows_left > 0 {
            self.row_iter_exec(rows_left, false, 0, a)
        } else {
            self.page_scroll_done_exec(ScrollResult::Success, a)
        }
    }

    fn fast_notch_exec(self, left: u32, a: Ambient) -> (next: Step)
        ensures
            next == self.fast_notch(left, a),
    {
        if left > 0 {
            (
                GenshinRepositoryScanController {
                    phase: Phase::FastScrollNotch { left: left - 1 },
                    ..self
                },
                ControllerAction::ScrollNotch { settle_ms: 0 },
            )
        } else {
            (
                GenshinRepositoryScanController { phase: Phase::FastScrollSettle, ..self },
                ControllerAction::Wait { ms: wait_ms_exec(self.config.scroll_delay) },
            )
        }
    }

    fn align_exec(self, tries: u32, a: Ambient) -> (next: Step)
        ensures
            next == self.align(tries, a),
    {
        if tries > 0 {
            (
                GenshinRepositoryScanController { phase: Phase::AlignSample { tries }, ..self },
                ControllerAction::SampleFlag,
            )
        } else {
            self.page_scroll_done_exec(ScrollResult::Skip, a)
        }
    }

    fn begin_page_scroll_exec(self, a: Ambient) -> (next: Step)
        requires
            0 < self.row <= i32::MAX,
            self.col > 0,
            self.scan.scanned_count <= self.scan.item_count,
        ensures
            next == self.begin_page_scroll(a),
    {
        let (rows, start_row) = self.scan.calculate_remaining_scan_params(self.row, self.col);
        let moved = GenshinRepositoryScanController {
            scan: ScanState { start_row, ..self.scan },
            ..self
        };
        if moved.scrolled_rows >= ROWS_BEFORE_ESTIMATE {
            let notches = estimated_notches_exec(
                moved.scroll_notches,
                moved.scrolled_rows,
                rows as u32,
            );
            moved.fast_notch_exec(notches, a)
        } else {
            moved.next_row_exec(rows as u32, a)
        }
    }

    fn cap_reached_exec(&self) -> (reached: bool)
        ensures
            reached == self.cap_reached(),
    {
        self.config.max_row >= 0 && self.scan.scanned_row >= self.config.max_row as usize
    }

    fn visit_exec(self, a: Ambient) -> (next: Step)
        ensures
            next == self.visit(a),
    {
        if self.scan.scanned_count >= self.scan.item_count {
            self.finish_exec(ScanOutcome::Finished)
        } else if a.cancel_requested {
            self.finish_exec(ScanOutcome::Interrupted)
        } else {
            (
                GenshinRepositoryScanController { phase: Phase::Selecting, ..self },
                ControllerAction::Select(GridAddress { row: self.page_row, col: self.page_col }),
            )
        }
    }

    fn enter_row_exec(self, a: Ambient) -> (next: Step)
        requires
            0 < self.row <= i32::MAX,
            self.col > 0,
            self.scan.scanned_count <= self.scan.item_count,
            self.scan.scanned_row < usize::MAX,
        ensures
            next == self.enter_row(a),
    {
        if self.cap_reached_exec() {
            self.finish_exec(ScanOutcome::Finished)
        } else if self.page_row < self.page_row_end {
            let items = if self.scan.scanned_row + 1 == self.scan.total_row {
                self.scan.last_row_col
            } else {
                self.col
            };
            (GenshinRepositoryScanController { page_col: 0, row_items: items, ..self }).visit_exec(a)
        } else if !self.scan.is_scan_complete() {
            self.begin_page_scroll_exec(a)
        } else {
            self.finish_exec(ScanOutcome::Finished)
        }
    }

    fn advance_exec(self, a: Ambient) -> (next: Step)
        requires
            0 < self.row <= i32::MAX,
            self.col > 0,
            self.scan.scanned_count <= self.scan.item_count,
            self.between_rows(),
        ensures
            next == self.advance(a),
    {
        if self.scan.is_scan_complete() || self.cap_reached_exec() {
            self.finish_exec(ScanOutcome::Finished)
        } else {
            let end = if self.row < self.scan.total_row {
                self.row
            } else {
                self.scan.total_row
            };
            (GenshinRepositoryScanController {
                page_row: self.scan.start_row,
                page_row_end: end,
                ..self
            }).enter_row_exec(a)
        }
    }

    fn after_item_exec(self, a: Ambient) -> (next: Step)
        requires
            self.wf(),
            self.phase == Phase::Yielded,
        ensures
            next == self.after_item(a),
    {
        let counted = GenshinRepositoryScanController {
            scan: ScanState { scanned_count: self.scan.scanned_count + 1, ..self.scan },
            page_col: self.page_col + 1,
            ..self
        };
        if counted.page_col < counted.row_items {
            counted.visit_exec(a)
        } else {
            let rowed = GenshinRepositoryScanController {
                scan: ScanState { scanned_row: counted.scan.scanned_row + 1, ..counted.scan },
                ..counted
            };
            if rowed.scan.is_max_row_reached() || rowed.cap_reached_exec() {
                rowed.finish_exec(ScanOutcome::Finished)
            } else {
                (GenshinRepositoryScanController {
                    page_row: rowed.page_row + 1,
                    ..rowed
                }).enter_row_exec(a)
            }
        }
    }

    fn switch_poll_exec(self, started_ms: u64, changed: bool, a: Ambient) -> (next: Step)
        ensures
            next == self.switch_poll(started_ms, changed, a),
    {
        let limit = self.config.get_optimized_switch_wait();
        let elapsed = elapsed_ms_exec(a.now_ms, started_ms);
        if limit >= 0 && elapsed >= limit as u64 {
            self.finish_exec(ScanOutcome::Failed(ControllerError::SwitchTimeout))
        } else {
            (
                GenshinRepositoryScanController {
                    phase: Phase::Switching { started_ms, changed },
                    ..self
                },
                ControllerAction::SamplePool,
            )
        }
    }

    fn begin_switch_exec(self, a: Ambient) -> (next: Step)
        ensures
            next == self.begin_switch(a),
    {
        if self.is_cloud {
            (
                GenshinRepositoryScanController { phase: Phase::CloudWaiting, ..self },
                ControllerAction::Wait { ms: wait_ms_exec(self.config.get_optimized_cloud_wait()) },
            )
        } else {
            self.switch_poll_exec(a.now_ms, false, a)
        }
    }

    fn poll_interval_exec(&self) -> (ms: u32)
        ensures
            ms == self.poll_interval(),
    {
        if self.config.fast_mode {
            5
        } else {
            10
        }
    }

    fn on_pool_exec(self, started_ms: u64, changed: bool, pool: u64, a: Ambient) -> (next: Step)
        requires
            self.wf(),
            self.phase == (Phase::Switching { started_ms, changed }),
        ensures
            next == self.on_pool(started_ms, changed, pool, a),
    {
        if pool != self.pool {
            (
                GenshinRepositoryScanController {
                    pool,
                    phase: Phase::SwitchPause { started_ms, changed: true },
                    ..self
                },
                ControllerAction::Wait { ms: self.poll_interval_exec() },
            )
        } else if changed {
            assert(self.switches * u64::MAX + u64::MAX <= usize::MAX * u64::MAX)
                by (nonlinear_arith)
                requires
                    self.switches + 1 <= usize::MAX,
            ;
            (
                GenshinRepositoryScanController {
                    switches: self.switches + 1,
                    switch_ms: self.switch_ms + elapsed_ms_exec(a.now_ms, started_ms) as u128,
                    phase: Phase::Yielded,
                    ..self
                },
                ControllerAction::Yield,
            )
        } else {
            (
                GenshinRepositoryScanController {
                    phase: Phase::SwitchPause { started_ms, changed },
                    ..self
                },
                ControllerAction::Wait { ms: self.poll_interval_exec() },
            )
        }
    }

    fn on_row_color_exec(
        self,
        rows_left: u32,
        moved: bool,
        count: u32,
        color: Rgb,
        a: Ambient,
    ) -> (next: Step)
        requires
            self.wf(),
            self.phase == (Phase::RowScrollSample { rows_left, moved, count }),
        ensures
            next == self.on_row_color(rows_left, moved, count, color, a),
    {
        let far = color_distance(&self.initial_color, &color) > FLAG_DISTANCE_LIMIT;
        if !moved && far {
            self.row_iter_exec(rows_left, true, count, a)
        } else if moved && !far {
            assert(MAX_SCROLL_NOTCHES * self.scrolled_rows + count <= 25 * 0xffff_ffff + 25)
                by (nonlinear_arith)
                requires
                    self.scrolled_rows <= 0xffff_ffff,
                    count <= 25,
            ;
            (GenshinRepositoryScanController {
                scrolled_rows: self.scrolled_rows + 1,
                scroll_notches: self.scroll_notches + count as u64,
                ..self
            }).next_row_exec(rows_left - 1, a)
        } else {
            self.row_iter_exec(rows_left, moved, count, a)
        }
    }

    /// Takes the report of what happened, and says what to do next.
    pub fn resume(&mut self, event: ControllerEvent, a: Ambient) -> (action: ControllerAction)
        requires
            old(self).wf(),
        ensures
            (*final(self), action) == old(self).step(event, a),
            final(self).wf(),
    {
        let current = *self;
        proof {
            lemma_step_keeps_wf(current, event, a);
        }
        let (next, action) = match (current.phase, event) {
            (Phase::Finished(outcome), _) => (current, ControllerAction::Finish(outcome)),
            (Phase::Idle, ControllerEvent::Start) => (
                GenshinRepositoryScanController { phase: Phase::Preparing, ..current },
                ControllerAction::Prepare,
            ),
            (Phase::Preparing, ControllerEvent::Color(color)) => (GenshinRepositoryScanController {
                initial_color: color,
                ..current
            }).advance_exec(a),
            (Phase::Selecting, ControllerEvent::Done) => current.begin_switch_exec(a),
            (Phase::CloudWaiting, ControllerEvent::Done) => (
                GenshinRepositoryScanController { phase: Phase::Yielded, ..current },
                ControllerAction::Yield,
            ),
            (Phase::Switching { started_ms, changed }, ControllerEvent::Pool(pool)) => current.on_pool_exec(
                started_ms,
                changed,
                pool,
                a,
            ),
            (
                Phase::SwitchPause { started_ms, changed },
                ControllerEvent::Done,
            ) => current.switch_poll_exec(started_ms, changed, a),
            (Phase::Yielded, ControllerEvent::Resumed) => current.after_item_exec(a),
            (Phase::RowScrollNotch { rows_left, moved, count }, ControllerEvent::Done) => (
                GenshinRepositoryScanController {
                    phase: Phase::RowScrollSample { rows_left, moved, count: count + 1 },
                    ..current
                },
                ControllerAction::SampleFlag,
            ),
            (Phase::RowScrollNotch { rows_left, moved, count }, ControllerEvent::Failed) => (
                GenshinRepositoryScanController {
                    phase: Phase::RowScrollSample { rows_left, moved, count: count + 1 },
                    ..current
                },
                ControllerAction::SampleFlag,
            ),
            (
                Phase::RowScrollSample { rows_left, moved, count },
                ControllerEvent::Color(color),
            ) => current.on_row_color_exec(rows_left, moved, count, color, a),
            (Phase::RowScrollSample { .. }, ControllerEvent::Failed) => current.page_scroll_done_exec(
                ScrollResult::Failed,
                a,
            ),
            (Phase::FastScrollNotch { left }, ControllerEvent::Done) => current.fast_notch_exec(
                left,
                a,
            ),
            (Phase::FastScrollNotch { .. }, ControllerEvent::Failed) => current.page_scroll_done_exec(
                ScrollResult::Failed,
                a,
            ),
            (Phase::FastScrollSettle, ControllerEvent::Done) => current.align_exec(ALIGN_TRIES, a),
            (Phase::AlignSample { tries }, ControllerEvent::Color(color)) => {
                if color_distance(&current.initial_color, &color) > FLAG_DISTANCE_LIMIT {
                    (
                        GenshinRepositoryScanController {
                            phase: Phase::AlignNotch { tries },
                            ..current
                        },
                        ControllerAction::ScrollNotch {
                            settle_ms: wait_ms_exec(current.config.scroll_delay),
                        },
                    )
                } else {
                    current.page_scroll_done_exec(ScrollResult::Skip, a)
                }
            },
            (Phase::AlignSample { .. }, ControllerEvent::Failed) => current.page_scroll_done_exec(
                ScrollResult::Skip,
                a,
            ),
            (Phase::AlignNotch { tries }, ControllerEvent::Done) => current.align_exec(tries - 1, a),
            (Phase::PageSettle, ControllerEvent::Done) => current.advance_exec(a),
            (_, ControllerEvent::Failed) => current.finish_exec(
                ScanOutcome::Failed(ControllerError::DeviceFailed),
            ),
            _ => current.finish_exec(ScanOutcome::Failed(ControllerError::UnexpectedEvent)),
        };
        *self = next;
        action
    }
}

impl GenshinRepositoryScanController {
    proof fn lemma_page_scroll_done(self, result: ScrollResult, a: Ambient)
        requires
            self.between_rows(),
        ensures
            self.page_scroll_done(result, a).0.wf(),
    {
    }

    proof fn lemma_row_iter(self, rows_left: u32, moved: bool, count: u32, a: Ambient)
        requires
            self.between_rows(),
            rows_left >= 1,
            count <= MAX_SCROLL_NOTCHES,
            self.scrolled_rows + rows_left < ROWS_BEFORE_ESTIMATE + self.row,
        ensures
            self.row_iter(rows_left, moved, count, a).0.wf(),
    {
    }

    proof fn lemma_next_row(self, rows_left: u32, a: Ambient)
        requires
            self.between_rows(),
            self.scrolled_rows + rows_left < ROWS_BEFORE_ESTIMATE + self.row,
        ensures
            self.next_row(rows_left, a).0.wf(),
    {
        if rows_left > 0 {
            self.lemma_row_iter(rows_left, false, 0, a);
        }
    }

    proof fn lemma_begin_page_scroll(self, a: Ambient)
        requires
            self.between_rows(),
            !self.scan.is_scan_complete(),
            self.scan.total_row > self.row,
        ensures
            self.begin_page_scroll(a).0.wf(),
    {
        lemma_rows_needed(self.scan.item_count - self.scan.scanned_count, self.col as int);
        let remain = self.scan.item_count - self.scan.scanned_count;
        assert(rows_needed(remain, self.col as int) >= 1) by (nonlinear_arith)
            requires
                rows_needed(remain, self.col as int) * self.col >= remain,
                remain >= 1,
                self.col >= 1,
        ;
        let rows = self.scan.scroll_rows(self.row as int, self.col as int);
        let moved = GenshinRepositoryScanController {
            scan: ScanState { start_row: (self.row - rows) as usize, ..self.scan },
            ..self
        };
        assert(moved.between_rows());
        if moved.scrolled_rows < ROWS_BEFORE_ESTIMATE {
            moved.lemma_next_row(rows as u32, a);
        }
    }

    proof fn lemma_visit(self, a: Ambient)
        requires
            self.at_cell() || (self.sound() && self.scan.scanned_count >= self.scan.item_count),
            self.switches <= self.scan.scanned_count,
        ensures
            self.visit(a).0.wf(),
    {
    }

    proof fn lemma_enter_row(self, a: Ambient)
        requires
            self.between_rows(),
            self.in_pass(),
        ensures
            self.enter_row(a).0.wf(),
            !self.scan.is_scan_complete() && !self.cap_reached() && !a.cancel_requested
                && self.page_row < self.page_row_end ==> self.enter_row(a).1 is Select,
    {
        if self.cap_reached() {
        } else if self.page_row < self.page_row_end {
            let items = if self.scan.scanned_row + 1 == self.scan.total_row {
                self.scan.last_row_col
            } else {
                self.col
            };
            (GenshinRepositoryScanController { page_col: 0, row_items: items, ..self }).lemma_visit(
                a,
            );
        } else if !self.scan.is_scan_complete() {
            self.lemma_begin_page_scroll(a);
        }
    }

    proof fn lemma_advance(self, a: Ambient)
        requires
            self.between_rows(),
        ensures
            self.advance(a).0.wf(),
            !self.scan.is_scan_complete() && !self.cap_reached() && !a.cancel_requested
                ==> self.advance(a).1 is Select,
    {
        if !self.scan.is_scan_complete() && !self.cap_reached() {
            let end = if self.row < self.scan.total_row {
                self.row
            } else {
                self.scan.total_row
            };
            (GenshinRepositoryScanController {
                page_row: self.scan.start_row,
                page_row_end: end,
                ..self
            }).lemma_enter_row(a);
        }
    }

    proof fn lemma_after_item(self, a: Ambient)
        requires
            self.at_cell(),
        ensures
            self.after_item(a).0.wf(),
    {
        let counted = GenshinRepositoryScanController {
            scan: ScanState { scanned_count: (self.scan.scanned_count + 1) as usize, ..self.scan },
            page_col: (self.page_col + 1) as usize,
            ..self
        };
        if self.config.max_row >= 0 {
            assert((self.scan.scanned_row + 1) * self.col <= self.config.max_row * self.col)
                by (nonlinear_arith)
                requires
                    self.scan.scanned_row + 1 <= self.config.max_row,
                    self.col >= 0,
            ;
        }
        assert((self.scan.scanned_row + 1) * self.col == self.scan.scanned_row * self.col
            + self.col) by (nonlinear_arith);
        if counted.page_col < counted.row_items {
            counted.lemma_visit(a);
        } else {
            let rowed = GenshinRepositoryScanController {
                scan: ScanState {
                    scanned_row: (counted.scan.scanned_row + 1) as usize,
                    ..counted.scan
                },
                ..counted
            };
            assert(rowed.between_rows());
            if !(rowed.scan.is_max_row_reached() || rowed.cap_reached()) {
                (GenshinRepositoryScanController {
                    page_row: (rowed.page_row + 1) as usize,
                    ..rowed
                }).lemma_enter_row(a);
            }
        }
    }

    proof fn lemma_on_pool(self, started_ms: u64, changed: bool, pool: u64, a: Ambient)
        requires
            self.at_cell(),
            self.switches <= self.scan.scanned_count,
        ensures
            self.on_pool(started_ms, changed, pool, a).0.wf(),
    {
        assert(self.switches * u64::MAX + u64::MAX == (self.switches + 1) * u64::MAX)
            by (nonlinear_arith);
    }

    proof fn lemma_on_row_color(self, rows_left: u32, moved: bool, count: u32, color: Rgb, a: Ambient)
        requires
            self.between_rows(),
            rows_left >= 1,
            1 <= count <= MAX_SCROLL_NOTCHES,
            self.scrolled_rows + rows_left < ROWS_BEFORE_ESTIMATE + self.row,
        ensures
            self.on_row_color(rows_left, moved, count, color, a).0.wf(),
    {
        let far = color_distance_spec(self.initial_color, color) > FLAG_DISTANCE_LIMIT;
        if !moved && far {
            self.lemma_row_iter(rows_left, true, count, a);
        } else if moved && !far {
            let rested = GenshinRepositoryScanController {
                scrolled_rows: (self.scrolled_rows + 1) as u32,
                scroll_notches: (self.scroll_notches + count) as u64,
                ..self
            };
            assert(MAX_SCROLL_NOTCHES * (self.scrolled_rows + 1) == MAX_SCROLL_NOTCHES
                * self.scrolled_rows + MAX_SCROLL_NOTCHES) by (nonlinear_arith);
            assert(rested.between_rows());
            rested.lemma_next_row((rows_left - 1) as u32, a);
        } else {
            self.lemma_row_iter(rows_left, moved, count, a);
        }
    }
}

/// Whatever is reported, a controller whose state hangs together goes to a
/// state that hangs together.
pub proof fn lemma_step_keeps_wf(c: GenshinRepositoryScanController, event: ControllerEvent, a: Ambient)
    requires
        c.wf(),
    ensures
        c.step(event, a).0.wf(),
{
    match (c.phase, event) {
        (Phase::Finished(_), _) => {},
        (Phase::Idle, ControllerEvent::Start) => {},
        (Phase::Preparing, ControllerEvent::Color(color)) => {
            (GenshinRepositoryScanController { initial_color: color, ..c }).lemma_advance(a);
        },
        (Phase::Selecting, ControllerEvent::Done) => {},
        (Phase::CloudWaiting, ControllerEvent::Done) => {},
        (Phase::Switching { started_ms, changed }, ControllerEvent::Pool(pool)) => {
            c.lemma_on_pool(started_ms, changed, pool, a);
        },
        (Phase::SwitchPause { .. }, ControllerEvent::Done) => {},
        (Phase::Yielded, ControllerEvent::Resumed) => {
            c.lemma_after_item(a);
        },
        (Phase::RowScrollNotch { .. }, ControllerEvent::Done) => {},
        (Phase::RowScrollNotch { .. }, ControllerEvent::Failed) => {},
        (Phase::RowScrollSample { rows_left, moved, count }, ControllerEvent::Color(color)) => {
            c.lemma_on_row_color(rows_left, moved, count, color, a);
        },
        (Phase::RowScrollSample { .. }, ControllerEvent::Failed) => {
            c.lemma_page_scroll_done(ScrollResult::Failed, a);
        },
        (Phase::FastScrollNotch { .. }, _) => {},
        (Phase::FastScrollSettle, ControllerEvent::Done) => {},
        (Phase::AlignSample { .. }, _) => {},
        (Phase::AlignNotch { .. }, ControllerEvent::Done) => {},
        (Phase::PageSettle, ControllerEvent::Done) => {
            c.lemma_advance(a);
        },
        _ => {},
    }
}

/// An item is counted when it was yielded and handed on, and at no other
/// time: one count for each item that was yielded.
pub proof fn lemma_counts_what_was_yielded(
    c: GenshinRepositoryScanController,
    event: ControllerEvent,
    a: Ambient,
)
    requires
        c.wf(),
    ensures
        c.phase == Phase::Yielded && event == ControllerEvent::Resumed ==> c.step(
            event,
            a,
        ).0.scan.scanned_count == c.scan.scanned_count + 1,
        !(c.phase == Phase::Yielded && event == ControllerEvent::Resumed) ==> c.step(
            event,
            a,
        ).0.scan.scanned_count == c.scan.scanned_count,
        c.step(event, a).0.scan.scanned_count <= c.scan.item_count,
        c.step(event, a).0.scan.item_count == c.scan.item_count,
{
    lemma_step_keeps_wf(c, event, a);
}

/// Once the scan is over it stays over, with the same outcome.
pub proof fn lemma_finished_is_final(
    c: GenshinRepositoryScanController,
    event: ControllerEvent,
    a: Ambient,
    outcome: ScanOutcome,
)
    requires
        c.phase == Phase::Finished(outcome),
    ensures
        c.step(event, a) == (c, ControllerAction::Finish(outcome)),
{
}

/// A scan that ends as finished has scanned every item, or every row, or as
/// many rows as the configured limit allows.
pub proof fn lemma_finished_means_done(
    c: GenshinRepositoryScanController,
    event: ControllerEvent,
    a: Ambient,
)
    requires
        c.wf(),
        !(c.phase is Finished),
        c.step(event, a).1 == ControllerAction::Finish(ScanOutcome::Finished),
    ensures
        ({
            let ended = c.step(event, a).0;
            ended.scan.is_scan_complete() || ended.scan.is_max_row_reached() || ended.cap_reached()
        }),
{
}

/// While the user asks to stop, no cell is selected and no watched row is
/// scrolled on: at the head of a cell and at the head of a notch the scan
/// ends as interrupted.
pub proof fn lemma_cancel_is_obeyed(
    c: GenshinRepositoryScanController,
    event: ControllerEvent,
    a: Ambient,
)
    requires
        c.wf(),
        a.cancel_requested,
    ensures
        !(c.step(event, a).1 is Select),
        !(c.step(event, a).0.phase is RowScrollNotch),
{
}

/// While a cell is selected, the cell and the count of rows are those of
/// the count of items: the rows scanned are the items scanned divided by the
/// columns, and the column of the cell is what the division leaves.
pub proof fn lemma_cell_follows_the_count(c: GenshinRepositoryScanController)
    requires
        c.wf(),
        c.phase == Phase::Selecting || c.phase == Phase::Yielded || c.phase == Phase::CloudWaiting
            || c.phase is Switching || c.phase is SwitchPause,
    ensures
        c.scan.scanned_row == c.scan.scanned_count as int / c.col as int,
        c.page_col == c.scan.scanned_count as int % c.col as int,
{
    lemma_fundamental_div_mod_converse(
        c.scan.scanned_count as int,
        c.col as int,
        c.scan.scanned_row as int,
        c.page_col as int,
    );
}

/// A watched row takes twenty-five notches at most: the count of notches
/// never passes that.
pub proof fn lemma_row_scroll_is_bounded(
    c: GenshinRepositoryScanController,
    event: ControllerEvent,
    a: Ambient,
)
    requires
        c.wf(),
    ensures
        c.step(event, a).0.phase matches Phase::RowScrollNotch { count, .. } ==> count
            < MAX_SCROLL_NOTCHES,
        c.step(event, a).0.phase matches Phase::RowScrollSample { count, .. } ==> count
            <= MAX_SCROLL_NOTCHES,
{
    lemma_step_keeps_wf(c, event, a);
}

/// How many reports a page scroll can still take before it is over, at
/// most; nought while no page scroll is under way.
pub open spec fn scroll_steps_left(phase: Phase) -> int {
    match phase {
        Phase::RowScrollNotch { rows_left, moved, count } => 2 * (MAX_SCROLL_NOTCHES - count) + 2
            * MAX_SCROLL_NOTCHES * (rows_left - 1),
        Phase::RowScrollSample { rows_left, moved, count } => 1 + 2 * (MAX_SCROLL_NOTCHES - count)
            + 2 * MAX_SCROLL_NOTCHES * (rows_left - 1),
        Phase::FastScrollNotch { left } => left + 2 + 2 * ALIGN_TRIES,
        Phase::FastScrollSettle => 1 + 2 * ALIGN_TRIES,
        Phase::AlignSample { tries } => 2 * tries,
        Phase::AlignNotch { tries } => 2 * tries - 1,
        _ => 0,
    }
}

/// A page scroll comes to an end: with every report, whatever it is, fewer
/// reports are left to it. A watched scroll takes twenty-five notches a row
/// at most, an estimated one the estimated notches and ten tries to align.
pub proof fn lemma_page_scroll_ends(
    c: GenshinRepositoryScanController,
    event: ControllerEvent,
    a: Ambient,
)
    requires
        c.wf(),
        scroll_steps_left(c.phase) > 0,
    ensures
        0 <= scroll_steps_left(c.step(event, a).0.phase) < scroll_steps_left(c.phase),
{
    lemma_step_keeps_wf(c, event, a);
    match c.phase {
        Phase::RowScrollSample { rows_left, moved, count } => {
            assert(2 * MAX_SCROLL_NOTCHES * (rows_left - 1) >= 0) by (nonlinear_arith)
                requires
                    rows_left >= 1,
            ;
            assert(2 * MAX_SCROLL_NOTCHES * (rows_left - 1) == 2 * MAX_SCROLL_NOTCHES * (rows_left
                - 2) + 2 * MAX_SCROLL_NOTCHES) by (nonlinear_arith);
        },
        Phase::RowScrollNotch { rows_left, moved, count } => {
            assert(2 * MAX_SCROLL_NOTCHES * (rows_left - 1) >= 0) by (nonlinear_arith)
                requires
                    rows_left >= 1,
            ;
        },
        _ => {},
    }
}

/// The wait for an item to show ends by the time limit: once the limit has
/// passed, the report that the pause is over fails the scan.
pub proof fn lemma_switch_wait_times_out(
    c: GenshinRepositoryScanController,
    a: Ambient,
    started_ms: u64,
    changed: bool,
)
    requires
        c.phase == (Phase::SwitchPause { started_ms, changed }),
        c.config.optimized_switch_wait() >= 0,
        a.now_ms >= started_ms,
        a.now_ms - started_ms >= c.config.optimized_switch_wait(),
    ensures
        c.step(ControllerEvent::Done, a).1 == ControllerAction::Finish(
            ScanOutcome::Failed(ControllerError::SwitchTimeout),
        ),
{
}

/// The configured limit of rows is kept: in every state no more rows are
/// scanned than the limit allows, and no more items than these rows hold.
/// Under a limit of no rows nothing is ever selected.
pub proof fn lemma_cap_is_kept(c: GenshinRepositoryScanController, event: ControllerEvent, a: Ambient)
    requires
        c.wf(),
        c.config.max_row >= 0,
    ensures
        c.scan.scanned_row <= c.config.max_row,
        c.scan.scanned_count <= c.config.max_row * c.col,
        c.step(event, a).0.scan.scanned_count <= c.config.max_row * c.col,
        c.step(event, a).0.config == c.config,
        c.step(event, a).1 is Select ==> c.step(event, a).0.scan.scanned_row < c.config.max_row,
        c.config.max_row == 0 ==> !(c.step(event, a).1 is Select),
{
    lemma_step_keeps_wf(c, event, a);
}

/// Every pass over the page visits a cell: while items are left, the limit
/// of rows is not reached and the user does not ask to stop, the pass that
/// begins once the list is prepared, or once the page has come to rest after
/// a scroll, begins by selecting a cell. So the page is scrolled no more
/// often than items are left.
pub proof fn lemma_pass_visits_a_cell(
    c: GenshinRepositoryScanController,
    event: ControllerEvent,
    a: Ambient,
)
    requires
        c.wf(),
        !c.scan.is_scan_complete(),
        !c.cap_reached(),
        !a.cancel_requested,
        (c.phase == Phase::PageSettle && event == ControllerEvent::Done) || (c.phase
            == Phase::Preparing && event is Color),
    ensures
        c.step(event, a).1 is Select,
{
    match event {
        ControllerEvent::Color(color) => {
            (GenshinRepositoryScanController { initial_color: color, ..c }).lemma_advance(a);
        },
        _ => {
            c.lemma_advance(a);
        },
    }
}

} // verus!
