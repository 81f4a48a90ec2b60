use furina::capture::Rgb;
use furina::positioning::{Pos, Rect, Size};
use furina::scanner_controller::controller::{
    Ambient, ControllerAction, ControllerError, ControllerEvent, Phase, ScanOutcome,
};
use furina::scanner_controller::window_info::calc_pool;
use furina::scanner_controller::{
    GenshinRepositoryScanController, GenshinRepositoryScanControllerWindowInfo,
    GenshinRepositoryScannerLogicConfig, GridAddress, ReturnResult, ScanState, ScrollResult,
};

const REST: Rgb = Rgb { r: 10, g: 20, b: 30 };
const MOVING: Rgb = Rgb { r: 200, g: 20, b: 30 };

/// A screen that answers the controller: every selected cell shows after one
/// changed pool sample, every row comes to rest after `notches_per_row`
/// notches.
struct Screen {
    now_ms: u64,
    cancel: bool,
    pool: u64,
    pool_samples_since_select: u32,
    notches_since_rest: u32,
    notches_per_row: u32,
    selected: Vec<(usize, usize)>,
    notches: u32,
    waits: Vec<u32>,
    yields: usize,
    cancel_after_yields: Option<usize>,
}

impl Screen {
    fn new(notches_per_row: u32) -> Screen {
        Screen {
            now_ms: 0,
            cancel: false,
            pool: 0,
            pool_samples_since_select: 0,
            notches_since_rest: 0,
            notches_per_row,
            selected: Vec::new(),
            notches: 0,
            waits: Vec::new(),
            yields: 0,
            cancel_after_yields: None,
        }
    }

    fn ambient(&self) -> Ambient {
        Ambient { now_ms: self.now_ms, cancel_requested: self.cancel }
    }

    fn perform(&mut self, action: ControllerAction) -> ControllerEvent {
        match action {
            ControllerAction::Prepare => {
                self.now_ms += 1_000;
                ControllerEvent::Color(REST)
            },
            ControllerAction::Select(GridAddress { row, col }) => {
                self.selected.push((row, col));
                self.pool += 1;
                self.pool_samples_since_select = 0;
                ControllerEvent::Done
            },
            ControllerAction::SamplePool => {
                self.pool_samples_since_select += 1;
                ControllerEvent::Pool(self.pool)
            },
            ControllerAction::Wait { ms } => {
                self.now_ms += ms as u64;
                self.waits.push(ms);
                ControllerEvent::Done
            },
            ControllerAction::ScrollNotch { settle_ms } => {
                self.now_ms += settle_ms as u64;
                self.notches += 1;
                self.notches_since_rest += 1;
                ControllerEvent::Done
            },
            ControllerAction::SampleFlag => {
                if self.notches_since_rest >= self.notches_per_row {
                    self.notches_since_rest = 0;
                    ControllerEvent::Color(REST)
                } else {
                    ControllerEvent::Color(MOVING)
                }
            },
            ControllerAction::Yield => {
                self.yields += 1;
                if Some(self.yields) == self.cancel_after_yields {
                    self.cancel = true;
                }
                ControllerEvent::Resumed
            },
            ControllerAction::Finish(_) => unreachable!(),
        }
    }

    /// Runs the controller to its end and gives the outcome.
    fn run(&mut self, controller: &mut GenshinRepositoryScanController) -> ScanOutcome {
        let mut event = ControllerEvent::Start;
        for _ in 0..1_000_000 {
            let action = controller.resume(event, self.ambient());
            if let ControllerAction::Finish(outcome) = action {
                return outcome;
            }
            event = self.perform(action);
        }
        panic!("the controller does not come to an end");
    }
}

fn config() -> GenshinRepositoryScannerLogicConfig {
    GenshinRepositoryScannerLogicConfig::default()
}

#[test]
fn seventy_five_items_in_rows_of_eight() {
    let state = ScanState::new(75, 8);
    assert_eq!(state.total_row, 10);
    assert_eq!(state.last_row_col, 3);
    assert_eq!(state.item_count, 75);
    assert_eq!(state.scanned_count, 0);
    assert_eq!(state.scanned_row, 0);
    assert_eq!(state.start_row, 0);
    assert!(!state.is_scan_complete());
    assert!(!state.is_max_row_reached());
}

#[test]
fn rows_and_last_row_follow_the_item_count() {
    for col in 1..12usize {
        for item_count in 0..200usize {
            let state = ScanState::new(item_count, col);
            assert!(state.total_row * col >= item_count);
            if item_count > 0 {
                assert!((state.total_row - 1) * col < item_count);
                assert_eq!(state.last_row_col, item_count - (state.total_row - 1) * col);
            } else {
                assert_eq!(state.total_row, 0);
            }
            if item_count % col == 0 {
                assert_eq!(state.last_row_col, col);
            }
            assert!(1 <= state.last_row_col && state.last_row_col <= col);
        }
    }
    assert_eq!(ScanState::new(64, 8).total_row, 8);
    assert_eq!(ScanState::new(64, 8).last_row_col, 8);
    assert_eq!(ScanState::new(65, 8).total_row, 9);
    assert_eq!(ScanState::new(65, 8).last_row_col, 1);
    assert!(ScanState::new(0, 8).is_scan_complete());
}

#[test]
fn the_scroll_covers_the_remaining_rows_but_no_more_than_a_page() {
    let mut state = ScanState::new(75, 8);
    state.scanned_count = 40;
    // Thirty-five items remain: five rows; a page of five rows scrolls whole.
    assert_eq!(state.calculate_remaining_scan_params(5, 8), (5, 0));
    state.scanned_count = 64;
    // Eleven items remain: two rows.
    assert_eq!(state.calculate_remaining_scan_params(5, 8), (2, 3));
    state.scanned_count = 72;
    assert_eq!(state.calculate_remaining_scan_params(5, 8), (1, 4));
    state.scanned_count = 75;
    assert_eq!(state.calculate_remaining_scan_params(5, 8), (0, 5));
    state.scanned_count = 0;
    assert_eq!(state.calculate_remaining_scan_params(5, 8), (5, 0));
}

#[test]
fn every_item_is_yielded_once_and_the_scan_finishes() {
    let mut controller = GenshinRepositoryScanController::new(5, 8, 75, config(), false);
    let mut screen = Screen::new(2);
    let outcome = screen.run(&mut controller);
    assert_eq!(outcome, ScanOutcome::Finished);
    assert_eq!(screen.yields, 75);
    assert_eq!(screen.selected.len(), 75);
    assert_eq!(controller.scan.scanned_count, 75);
    assert_eq!(controller.scan.scanned_row, 10);
    assert_eq!(controller.phase, Phase::Finished(ScanOutcome::Finished));

    // The first page is walked row by row, each row from the left.
    let first_page: Vec<(usize, usize)> =
        (0..5).flat_map(|r| (0..8).map(move |c| (r, c))).collect();
    assert_eq!(screen.selected[0..40], first_page[..]);
    // The second page scrolls by five rows and is walked whole; the last row
    // holds three items.
    assert_eq!(screen.selected[40..72], first_page[0..32]);
    assert_eq!(screen.selected[72..75], [(4, 0), (4, 1), (4, 2)]);
    // Five rows of two notches each.
    assert_eq!(screen.notches, 10);
    assert_eq!(controller.scrolled_rows, 5);
    assert_eq!(controller.scroll_notches, 10);
    assert_eq!(controller.switches, 75);
}

#[test]
fn the_last_page_starts_where_the_scroll_leaves_it() {
    let mut controller = GenshinRepositoryScanController::new(5, 8, 51, config(), false);
    let mut screen = Screen::new(1);
    // One notch never shows the flag pixel away from its colour and back:
    // use two.
    screen.notches_per_row = 2;
    assert_eq!(screen.run(&mut controller), ScanOutcome::Finished);
    assert_eq!(screen.yields, 51);
    // Eleven items remain after the first page: two rows, so that the pass
    // starts at row three.
    assert_eq!(controller.scan.start_row, 3);
    assert_eq!(screen.selected[40], (3, 0));
    assert_eq!(screen.selected[48], (4, 0));
    assert_eq!(screen.selected[50], (4, 2));
    assert_eq!(screen.notches, 4);
}

#[test]
fn once_five_rows_were_watched_the_distance_is_estimated() {
    let mut controller = GenshinRepositoryScanController::new(5, 8, 120, config(), false);
    let mut screen = Screen::new(3);
    assert_eq!(screen.run(&mut controller), ScanOutcome::Finished);
    assert_eq!(screen.yields, 120);
    // The first scroll is watched: five rows of three notches. The second is
    // estimated: three notches a row times five rows, less two.
    assert_eq!(controller.scrolled_rows, 5);
    assert_eq!(controller.scroll_notches, 15);
    assert_eq!(screen.notches, 15 + 13);
}

/// Counts the notches of the first page scroll of a scan of two pages, for
/// a controller that has watched `rows` rows take `notches` notches.
fn notches_of_estimated_scroll(rows: u32, notches: u64, page_rows: usize, left: usize) -> u32 {
    let mut controller =
        GenshinRepositoryScanController::new(page_rows, 1, page_rows + left, config(), true);
    controller.scrolled_rows = rows;
    controller.scroll_notches = notches;
    let mut screen = Screen::new(1);
    let a = Ambient { now_ms: 0, cancel_requested: false };
    let mut action = controller.resume(ControllerEvent::Start, a);
    loop {
        match action {
            ControllerAction::ScrollNotch { settle_ms } => {
                assert_eq!(settle_ms, 0);
                break;
            },
            // No notch at all: the rest comes at once.
            ControllerAction::Wait { ms: 50 } if screen.yields == page_rows => return 0,
            other => action = controller.resume(screen.perform(other), a),
        }
    }
    let mut count = 0;
    while let ControllerAction::ScrollNotch { settle_ms: 0 } = action {
        count += 1;
        action = controller.resume(ControllerEvent::Done, a);
    }
    assert_eq!(action, ControllerAction::Wait { ms: 50 });
    count
}

#[test]
fn estimates_round_to_the_nearest_whole() {
    for (rows, notches, page_rows, left) in [
        (5u32, 15u64, 5usize, 5usize),
        (6, 15, 5, 1),
        (6, 15, 5, 3),
        (6, 15, 5, 5),
        (5, 7, 5, 5),
        (5, 7, 5, 2),
        (5, 5, 5, 1),
        (5, 5, 5, 2),
        (7, 175, 9, 9),
        (7, 100, 9, 4),
        (5, 0, 5, 5),
    ] {
        let mean = notches as f64 / rows as f64;
        let expected = ((mean * left as f64 - 2.0).round() as i32).max(0) as u32;
        assert_eq!(
            notches_of_estimated_scroll(rows, notches, page_rows, left),
            expected,
            "{rows} rows, {notches} notches, {left} rows to scroll"
        );
    }
}

#[test]
fn a_request_to_stop_interrupts_the_scan_at_the_next_cell() {
    let mut controller = GenshinRepositoryScanController::new(5, 8, 75, config(), false);
    let mut screen = Screen::new(2);
    screen.cancel_after_yields = Some(11);
    assert_eq!(screen.run(&mut controller), ScanOutcome::Interrupted);
    assert_eq!(screen.yields, 11);
    assert_eq!(controller.scan.scanned_count, 11);
    assert_eq!(ScanOutcome::Interrupted.into_result(), Ok(ReturnResult::Interrupted));
    // Over stays over.
    assert_eq!(
        controller.resume(ControllerEvent::Done, screen.ambient()),
        ControllerAction::Finish(ScanOutcome::Interrupted)
    );
}

#[test]
fn a_request_to_stop_interrupts_a_watched_scroll() {
    let mut controller = GenshinRepositoryScanController::new(5, 8, 75, config(), false);
    let mut screen = Screen::new(2);
    screen.cancel_after_yields = Some(40);
    assert_eq!(screen.run(&mut controller), ScanOutcome::Interrupted);
    assert_eq!(screen.yields, 40);
    assert_eq!(screen.notches, 0);
}

#[test]
fn a_row_that_does_not_come_to_rest_fails_the_scan() {
    let mut controller = GenshinRepositoryScanController::new(5, 8, 75, config(), false);
    let mut screen = Screen::new(1_000);
    let outcome = screen.run(&mut controller);
    assert_eq!(outcome, ScanOutcome::Failed(ControllerError::ScrollTimeout));
    assert_eq!(outcome.into_result(), Err(ControllerError::ScrollTimeout));
    assert_eq!(screen.notches, 25);
    assert_eq!(screen.yields, 40);
}

#[test]
fn an_item_that_does_not_show_in_time_fails_the_scan() {
    let mut controller = GenshinRepositoryScanController::new(5, 8, 75, config(), false);
    let a = |now_ms: u64| Ambient { now_ms, cancel_requested: false };
    assert_eq!(controller.resume(ControllerEvent::Start, a(0)), ControllerAction::Prepare);
    assert_eq!(
        controller.resume(ControllerEvent::Color(REST), a(1_000)),
        ControllerAction::Select(GridAddress { row: 0, col: 0 })
    );
    assert_eq!(controller.resume(ControllerEvent::Done, a(1_000)), ControllerAction::SamplePool);
    // The pool never changes.
    let mut now = 1_000;
    loop {
        match controller.resume(ControllerEvent::Pool(0), a(now)) {
            ControllerAction::Wait { ms } => {
                assert_eq!(ms, 10);
                now += ms as u64;
            },
            other => panic!("unexpected {other:?}"),
        }
        match controller.resume(ControllerEvent::Done, a(now)) {
            ControllerAction::SamplePool => assert!(now - 1_000 < 600),
            ControllerAction::Finish(outcome) => {
                assert_eq!(outcome, ScanOutcome::Failed(ControllerError::SwitchTimeout));
                assert_eq!(now - 1_000, 600);
                break;
            },
            other => panic!("unexpected {other:?}"),
        }
    }
}

#[test]
fn an_item_shows_once_the_pool_repeats_after_a_change() {
    let mut controller = GenshinRepositoryScanController::new(5, 8, 75, config(), false);
    let a = Ambient { now_ms: 0, cancel_requested: false };
    controller.resume(ControllerEvent::Start, a);
    controller.resume(ControllerEvent::Color(REST), a);
    assert_eq!(controller.resume(ControllerEvent::Done, a), ControllerAction::SamplePool);
    // No change yet: the same sum as before tells nothing.
    assert_eq!(controller.resume(ControllerEvent::Pool(0), a), ControllerAction::Wait { ms: 10 });
    assert_eq!(controller.resume(ControllerEvent::Done, a), ControllerAction::SamplePool);
    // The sum changes twice, then repeats.
    assert_eq!(controller.resume(ControllerEvent::Pool(7), a), ControllerAction::Wait { ms: 10 });
    assert_eq!(controller.resume(ControllerEvent::Done, a), ControllerAction::SamplePool);
    assert_eq!(controller.resume(ControllerEvent::Pool(9), a), ControllerAction::Wait { ms: 10 });
    assert_eq!(controller.resume(ControllerEvent::Done, a), ControllerAction::SamplePool);
    assert_eq!(controller.resume(ControllerEvent::Pool(9), a), ControllerAction::Yield);
    assert_eq!(controller.pool, 9);
    assert_eq!(controller.scan.scanned_count, 0);
    assert_eq!(
        controller.resume(ControllerEvent::Resumed, a),
        ControllerAction::Select(GridAddress { row: 0, col: 1 })
    );
    assert_eq!(controller.scan.scanned_count, 1);
}

#[test]
fn a_streamed_game_waits_a_fixed_time() {
    let mut fast = config();
    fast.fast_mode = true;
    let mut controller = GenshinRepositoryScanController::new(5, 8, 3, fast, true);
    let mut screen = Screen::new(2);
    assert_eq!(screen.run(&mut controller), ScanOutcome::Finished);
    assert_eq!(screen.yields, 3);
    assert_eq!(screen.pool_samples_since_select, 0);
    assert_eq!(screen.waits, vec![160, 160, 160]);
    assert_eq!(controller.switches, 0);
}

#[test]
fn fast_mode_polls_more_often_and_waits_less() {
    let mut fast = config();
    fast.fast_mode = true;
    assert_eq!(fast.get_optimized_switch_wait(), 480);
    assert_eq!(fast.get_optimized_cloud_wait(), 160);
    assert_eq!(config().get_optimized_switch_wait(), 600);
    assert_eq!(config().get_optimized_cloud_wait(), 200);
    fast.max_wait_switch_item = 7;
    fast.cloud_wait_switch_item = -7;
    assert_eq!(fast.get_optimized_switch_wait(), 5);
    assert_eq!(fast.get_optimized_cloud_wait(), -5);

    let mut controller = GenshinRepositoryScanController::new(5, 8, 1, fast, false);
    let a = Ambient { now_ms: 0, cancel_requested: false };
    controller.resume(ControllerEvent::Start, a);
    controller.resume(ControllerEvent::Color(REST), a);
    controller.resume(ControllerEvent::Done, a);
    assert_eq!(controller.resume(ControllerEvent::Pool(1), a), ControllerAction::Wait { ms: 5 });
}

#[test]
fn the_shorter_waits_are_four_fifths_cut_off_towards_nought() {
    let mut fast = config();
    fast.fast_mode = true;
    for ms in (-5_000..=5_000).chain([i32::MAX, i32::MIN, i32::MAX - 3, 1_000_000_005]) {
        fast.max_wait_switch_item = ms;
        fast.cloud_wait_switch_item = ms;
        let expected = (ms as f64 * 0.8) as i32;
        assert_eq!(fast.get_optimized_switch_wait(), expected, "{ms}");
        assert_eq!(fast.get_optimized_cloud_wait(), expected, "{ms}");
    }
}

#[test]
fn the_row_limit_ends_the_scan_early() {
    let mut limited = config();
    limited.max_row = 3;
    let mut controller = GenshinRepositoryScanController::new(5, 8, 75, limited, false);
    let mut screen = Screen::new(2);
    assert_eq!(screen.run(&mut controller), ScanOutcome::Finished);
    assert_eq!(screen.yields, 24);
    assert_eq!(controller.scan.scanned_row, 3);
}

#[test]
fn nothing_to_scan_finishes_at_once() {
    let mut controller = GenshinRepositoryScanController::new(5, 8, 0, config(), false);
    let mut screen = Screen::new(2);
    assert_eq!(screen.run(&mut controller), ScanOutcome::Finished);
    assert_eq!(screen.yields, 0);
    assert!(screen.selected.is_empty());
}

#[test]
fn a_failing_device_or_a_stray_report_fails_the_scan() {
    let a = Ambient { now_ms: 0, cancel_requested: false };
    let mut controller = GenshinRepositoryScanController::new(5, 8, 75, config(), false);
    controller.resume(ControllerEvent::Start, a);
    assert_eq!(
        controller.resume(ControllerEvent::Failed, a),
        ControllerAction::Finish(ScanOutcome::Failed(ControllerError::DeviceFailed))
    );

    let mut controller = GenshinRepositoryScanController::new(5, 8, 75, config(), false);
    controller.resume(ControllerEvent::Start, a);
    controller.resume(ControllerEvent::Color(REST), a);
    assert_eq!(
        controller.resume(ControllerEvent::Failed, a),
        ControllerAction::Finish(ScanOutcome::Failed(ControllerError::DeviceFailed))
    );

    let mut controller = GenshinRepositoryScanController::new(5, 8, 75, config(), false);
    assert_eq!(
        controller.resume(ControllerEvent::Resumed, a),
        ControllerAction::Finish(ScanOutcome::Failed(ControllerError::UnexpectedEvent))
    );
    assert_eq!(
        ScanOutcome::Failed(ControllerError::UnexpectedEvent).into_result(),
        Err(ControllerError::UnexpectedEvent)
    );
    assert_eq!(ScanOutcome::Finished.into_result(), Ok(ReturnResult::Finished));
}

#[test]
fn a_failed_notch_is_passed_over_but_a_failed_flag_sample_ends_the_scroll() {
    let a = Ambient { now_ms: 0, cancel_requested: false };
    let mut controller = GenshinRepositoryScanController::new(1, 1, 2, config(), true);
    let mut screen = Screen::new(2);
    let mut event = ControllerEvent::Start;
    let mut action = controller.resume(event, a);
    while !matches!(action, ControllerAction::ScrollNotch { .. }) {
        event = screen.perform(action);
        action = controller.resume(event, a);
    }
    assert_eq!(action, ControllerAction::ScrollNotch { settle_ms: 50 });
    assert_eq!(controller.resume(ControllerEvent::Failed, a), ControllerAction::SampleFlag);
    // The flag sample fails: the scroll ends as failed, which does not end
    // the scan; the page rests and the walk goes on.
    assert_eq!(controller.resume(ControllerEvent::Failed, a), ControllerAction::Wait { ms: 100 });
    assert_eq!(
        controller.resume(ControllerEvent::Done, a),
        ControllerAction::Select(GridAddress { row: 0, col: 0 })
    );
    assert_eq!(ScrollResult::Failed, ScrollResult::Failed);
}

#[test]
fn an_item_lies_in_the_cell_that_its_number_gives() {
    assert_eq!(GridAddress::from_index(0, 5, 8), GridAddress { row: 0, col: 0 });
    assert_eq!(GridAddress::from_index(7, 5, 8), GridAddress { row: 0, col: 7 });
    assert_eq!(GridAddress::from_index(8, 5, 8), GridAddress { row: 1, col: 0 });
    assert_eq!(GridAddress::from_index(39, 5, 8), GridAddress { row: 4, col: 7 });
    assert_eq!(GridAddress::from_index(40, 5, 8), GridAddress { row: 0, col: 0 });
    assert_eq!(GridAddress::from_index(74, 5, 8), GridAddress { row: 4, col: 2 });
    assert_eq!(GridAddress::from_index(usize::MAX, 1, 1), GridAddress { row: 0, col: 0 });
}

#[test]
fn the_pool_is_the_sum_of_the_red_bytes() {
    assert_eq!(calc_pool(&vec![]), 0);
    assert_eq!(calc_pool(&vec![1, 2, 3]), 1);
    assert_eq!(calc_pool(&vec![1, 2, 3, 10, 20, 30, 100, 0, 0]), 111);
    assert_eq!(calc_pool(&vec![255, 0, 0, 255, 9]), 255);
    assert_eq!(calc_pool(&vec![255; 3000]), 255 * 1000);
}

fn list_info() -> GenshinRepositoryScanControllerWindowInfo {
    GenshinRepositoryScanControllerWindowInfo {
        genshin_repository_item_row: 5,
        genshin_repository_item_col: 8,
        flag_pos: Pos::new(100, 200),
        artifact_panel_offset: Size::new(3, 5),
        item_gap_size: Size::new(20, 30),
        scan_margin_pos: Pos::new(50, 60),
        item_size: Size::new(81, 101),
        pool_rect: Rect::new(1, 2, 3, 4),
    }
}

#[test]
fn cells_are_pointed_at_half_across_and_a_quarter_down() {
    let info = list_info();
    let window = Rect::new(1000, 2000, 1920, 1080);
    // 1000 + 50 + 101 * 3 + 40.5, towards nought; 2000 + 60 + 131 * 2 + 25.25.
    assert_eq!(info.get_cell_position(&window, 2, 3, false), Pos::new(1393, 2347));
    assert_eq!(info.get_cell_position(&window, 2, 3, true), Pos::new(1396, 2352));
    assert_eq!(info.get_cell_position(&window, 0, 0, false), Pos::new(1090, 2085));
    let far = Rect::new(-3000, -4000, 1920, 1080);
    // -3000 + 50 + 40.5 is -2909.5: towards nought, -2909.
    assert_eq!(info.get_cell_position(&far, 0, 0, false), Pos::new(-2909, -3914));
    assert_eq!(
        info.get_cell_position(&window, u32::MAX, u32::MAX, false),
        Pos::new(i32::MAX, i32::MAX)
    );
}

#[test]
fn the_flag_pixel_moves_with_the_window_and_the_panel() {
    let info = list_info();
    let window = Rect::new(1000, 2000, 1920, 1080);
    assert_eq!(info.get_flag_position(&window, false), Pos::new(1100, 2200));
    assert_eq!(info.get_flag_position(&window, true), Pos::new(1103, 2205));
    let mut edge = list_info();
    edge.flag_pos = Pos::new(i32::MAX, i32::MIN);
    assert_eq!(
        edge.get_flag_position(&Rect::new(5, -5, 1, 1), false),
        Pos::new(i32::MAX, i32::MIN)
    );
}

#[test]
fn a_row_limit_of_nought_scans_nothing() {
    let mut limited = config();
    limited.max_row = 0;
    let mut controller = GenshinRepositoryScanController::new(5, 8, 75, limited, false);
    let mut screen = Screen::new(2);
    assert_eq!(screen.run(&mut controller), ScanOutcome::Finished);
    assert_eq!(screen.yields, 0);
    assert!(screen.selected.is_empty());
    assert_eq!(controller.scan.scanned_count, 0);
    assert_eq!(controller.scan.scanned_row, 0);
}

#[test]
fn the_row_limit_holds_across_pages() {
    for (max_row, expected) in [(1, 8), (5, 40), (7, 56), (10, 75), (11, 75), (-1, 75)] {
        let mut limited = config();
        limited.max_row = max_row;
        let mut controller = GenshinRepositoryScanController::new(5, 8, 75, limited, false);
        let mut screen = Screen::new(2);
        assert_eq!(screen.run(&mut controller), ScanOutcome::Finished);
        assert_eq!(screen.yields, expected);
        assert_eq!(controller.scan.scanned_count, expected);
    }
}

#[test]
fn rows_are_counted_up_to_the_largest_counts() {
    let state = ScanState::new(usize::MAX, 1);
    assert_eq!(state.total_row, usize::MAX);
    assert_eq!(state.last_row_col, 1);
    let state = ScanState::new(usize::MAX, 2);
    assert_eq!(state.total_row, usize::MAX / 2 + 1);
    assert_eq!(state.last_row_col, 1);
    let state = ScanState::new(usize::MAX - 7, 8);
    assert_eq!(state.total_row, usize::MAX / 8);
    assert_eq!(state.last_row_col, 8);
    let state = ScanState::new(usize::MAX, usize::MAX);
    assert_eq!(state.total_row, 1);
    assert_eq!(state.last_row_col, usize::MAX);
    let state = ScanState::new(5, usize::MAX);
    assert_eq!(state.total_row, 1);
    assert_eq!(state.last_row_col, 5);
    let state = ScanState { scanned_count: 3, ..ScanState::new(usize::MAX, 4) };
    assert_eq!(state.calculate_remaining_scan_params(5, 4), (5, 0));
}
