use std::cell::RefCell;
use std::collections::VecDeque;

use furina::capture::{Rgb, RgbImage};
use furina::ocr::ImageToText;
use furina::positioning::{Pos, Rect, Size};
use furina::scanner::artifact_scanner_worker::{
    assemble_scan_result, fix_hoarfrost_ocr_text, parse_level, ArtifactScannerWorker,
    RecognizedFields, StopReason, WorkerStep,
};
use furina::scanner::performance_optimizations::{
    AdaptiveDelayManager, DelayState, OptimizedImageProcessor, OptimizedOCRRecognizer,
    PerformanceMonitor,
};
use furina::scanner::{
    ArtifactScannerWindowInfo, GenshinArtifactScanResult, GenshinArtifactScannerConfig, SendItem,
};
use furina::utils::decimal::IntParseError;

/// A recognizer that answers from a script, call by call, and notes the
/// sizes of the frames it is shown.
struct Scripted {
    answers: RefCell<VecDeque<Result<String, String>>>,
    seen: RefCell<Vec<(u32, u32)>>,
}

impl Scripted {
    fn new(answers: Vec<Result<&str, &str>>) -> Scripted {
        Scripted {
            answers: RefCell::new(
                answers
                    .into_iter()
                    .map(|a| a.map(|t| t.to_string()).map_err(|e| e.to_string()))
                    .collect(),
            ),
            seen: RefCell::new(Vec::new()),
        }
    }
}

impl ImageToText for Scripted {
    fn image_to_text(&self, image: &RgbImage, _is_preprocessed: bool) -> Result<String, String> {
        self.seen.borrow_mut().push((image.width(), image.height()));
        self.answers.borrow_mut().pop_front().unwrap_or(Err("script exhausted".to_string()))
    }

    fn get_average_inference_time(&self) -> Option<u64> {
        None
    }
}

impl ImageToText for &Scripted {
    fn image_to_text(&self, image: &RgbImage, is_preprocessed: bool) -> Result<String, String> {
        (*self).image_to_text(image, is_preprocessed)
    }

    fn get_average_inference_time(&self) -> Option<u64> {
        (*self).get_average_inference_time()
    }
}

fn window_info() -> ArtifactScannerWindowInfo {
    ArtifactScannerWindowInfo {
        panel_rect: Rect::new(1000, 100, 400, 600),
        title_rect: Rect::new(1010, 110, 200, 30),
        main_stat_name_rect: Rect::new(1010, 150, 150, 20),
        main_stat_value_rect: Rect::new(1010, 180, 120, 40),
        level_rect: Rect::new(1020, 300, 50, 25),
        item_equip_rect: Rect::new(1040, 670, 300, 40),
        sub_stat_1: Rect::new(1030, 350, 250, 30),
        sub_stat_2: Rect::new(1030, 385, 251, 30),
        sub_stat_3: Rect::new(1030, 420, 252, 30),
        sub_stat_4: Rect::new(1030, 455, 253, 30),
        item_count_rect: Rect::new(1200, 20, 150, 30),
        star_pos: Pos::new(1300, 200),
        lock_pos: Pos::new(10, 12),
        item_gap_size: Size::new(20, 30),
        item_size: Size::new(80, 100),
        scan_margin_pos: Pos::new(50, 60),
        hoarfrost_offset: Size::new(0, 35),
        col: 3,
        row: 2,
    }
}

fn config() -> GenshinArtifactScannerConfig {
    GenshinArtifactScannerConfig { min_star: 4, min_level: 0, ignore_dup: false, number: -1 }
}

fn record(name: &str, level: i32) -> GenshinArtifactScanResult {
    GenshinArtifactScanResult::new(
        name.to_string(),
        "生命值".to_string(),
        "4780".to_string(),
        ["a".to_string(), "b".to_string(), "c".to_string(), "d".to_string()],
        "".to_string(),
        level,
        5,
        false,
    )
}

fn all_ok() -> Vec<Result<&'static str, &'static str>> {
    vec![
        Ok("魔女的炎之花"),
        Ok("生命值"),
        Ok("4,780"),
        Ok("+20"),
        Ok("迪卢克已装备"),
        Ok("暴击伤+7.8%"),
        Ok("攻击力+16"),
        Ok("暴击伤 +5.4%"),
        Ok("防御力+23"),
    ]
}

#[test]
fn parse_level_reads_bare_and_signed_numbers() {
    assert_eq!(parse_level("15").unwrap(), 15);
    assert_eq!(parse_level("+15").unwrap(), 15);
    assert!(parse_level("abc").is_err());
    assert_eq!(parse_level("0").unwrap(), 0);
    assert_eq!(parse_level("-3").unwrap(), -3);
    assert_eq!(parse_level("等级+20").unwrap(), 20);
    assert_eq!(parse_level("1+5").unwrap(), 5);
    assert_eq!(parse_level("+2147483647").unwrap(), i32::MAX);
    assert_eq!(parse_level("-2147483648").unwrap(), i32::MIN);
    assert_eq!(parse_level("007").unwrap(), 7);
}

#[test]
fn parse_level_says_what_is_wrong() {
    let e = parse_level("abc").unwrap_err();
    assert_eq!(e.text, "abc");
    assert!(!e.after_plus);
    assert_eq!(e.cause, IntParseError::InvalidDigit);
    assert_eq!(e.message(), "等级解析失败: 无法解析数字 'abc', 错误: invalid digit found in string");

    let e = parse_level("").unwrap_err();
    assert_eq!(e.cause, IntParseError::Empty);
    assert_eq!(
        e.message(),
        "等级解析失败: 无法解析数字 '', 错误: cannot parse integer from empty string"
    );

    let e = parse_level("lv+").unwrap_err();
    assert_eq!(e.text, "+");
    assert!(e.after_plus);
    assert_eq!(e.cause, IntParseError::InvalidDigit);
    assert_eq!(
        e.message(),
        "等级解析失败: 无法解析带+号的等级 '+', 错误: invalid digit found in string"
    );

    assert_eq!(parse_level("2147483648").unwrap_err().cause, IntParseError::PosOverflow);
    assert_eq!(parse_level("-2147483649").unwrap_err().cause, IntParseError::NegOverflow);
    assert_eq!(parse_level("99999999999x").unwrap_err().cause, IntParseError::PosOverflow);
    assert_eq!(parse_level("12x").unwrap_err().cause, IntParseError::InvalidDigit);
    assert_eq!(parse_level("1+2+3").unwrap_err().text, "+2+3");
    assert_eq!(parse_level("+-5").unwrap_err().cause, IntParseError::InvalidDigit);
    assert_eq!(parse_level("１５").unwrap_err().cause, IntParseError::InvalidDigit);
}

#[test]
fn the_known_misreading_is_mended_only_where_it_applies() {
    assert_eq!(fix_hoarfrost_ocr_text("暴击伤+22.5%", true, (1920, 1080)), "暴击伤害+22.5%");
    assert_eq!(fix_hoarfrost_ocr_text("暴击伤 +22.5%", true, (1920, 1080)), "暴击伤害 +22.5%");
    assert_eq!(fix_hoarfrost_ocr_text("暴击伤+22.5%", false, (1920, 1080)), "暴击伤+22.5%");
    assert_eq!(fix_hoarfrost_ocr_text("暴击伤+22.5%", true, (1600, 900)), "暴击伤+22.5%");
    assert_eq!(fix_hoarfrost_ocr_text("暴击伤+22.5%", true, (1080, 1920)), "暴击伤+22.5%");
    assert_eq!(fix_hoarfrost_ocr_text("暴击率+3.9%", true, (1920, 1080)), "暴击率+3.9%");
    assert_eq!(fix_hoarfrost_ocr_text("x暴击伤+1", true, (1920, 1080)), "x暴击伤+1");
    assert_eq!(fix_hoarfrost_ocr_text("", true, (1920, 1080)), "");
    // Every occurrence of the label is written out, the full label included.
    assert_eq!(
        fix_hoarfrost_ocr_text("暴击伤+1 暴击伤害", true, (1920, 1080)),
        "暴击伤害+1 暴击伤害害"
    );
}

fn fields(answers: Vec<Result<&str, &str>>) -> RecognizedFields {
    let mut it = answers.into_iter().map(|a| a.map(|t| t.to_string()).map_err(|e| e.to_string()));
    RecognizedFields {
        title: it.next().unwrap(),
        main_stat_name: it.next().unwrap(),
        main_stat_value: it.next().unwrap(),
        level: it.next().unwrap(),
        equip: it.next().unwrap(),
        sub_stat_1: it.next().unwrap(),
        sub_stat_2: it.next().unwrap(),
        sub_stat_3: it.next().unwrap(),
        sub_stat_4: it.next().unwrap(),
    }
}

#[test]
fn a_fully_recognised_item_gives_a_clean_record() {
    let result = assemble_scan_result(fields(all_ok()), false, (1920, 1080), 5, true);
    assert_eq!(result.name, "魔女的炎之花");
    assert_eq!(result.main_stat_name, "生命值");
    assert_eq!(result.main_stat_value, "4,780");
    assert_eq!(result.sub_stat[0], "暴击伤+7.8%");
    assert_eq!(result.sub_stat[1], "攻击力+16");
    assert_eq!(result.sub_stat[2], "暴击伤 +5.4%");
    assert_eq!(result.sub_stat[3], "防御力+23");
    assert_eq!(result.equip, "迪卢克已装备");
    assert_eq!(result.level, 20);
    assert_eq!(result.star, 5);
    assert!(result.lock);
    assert!(result.scan_errors.is_empty());
    assert_eq!(result.confidence_ppm, 1_000_000);
}

#[test]
fn secondary_stats_of_a_marked_item_are_mended() {
    let result = assemble_scan_result(fields(all_ok()), true, (1920, 1080), 4, false);
    assert_eq!(result.sub_stat[0], "暴击伤害+7.8%");
    assert_eq!(result.sub_stat[1], "攻击力+16");
    assert_eq!(result.sub_stat[2], "暴击伤害 +5.4%");
    assert_eq!(result.star, 4);
    assert!(!result.lock);
}

#[test]
fn unrecognised_fields_get_stand_ins_and_cost_confidence() {
    let result = assemble_scan_result(
        fields(vec![
            Err("t"),
            Err("n"),
            Err("v"),
            Err("l"),
            Err("e"),
            Err("1"),
            Err("2"),
            Err("3"),
            Err("4"),
        ]),
        true,
        (1920, 1080),
        3,
        false,
    );
    assert_eq!(result.name, "未识别");
    assert_eq!(result.main_stat_name, "未识别");
    assert_eq!(result.main_stat_value, "0");
    assert_eq!(result.level, 0);
    assert_eq!(result.equip, "");
    assert_eq!(result.sub_stat, ["", "", "", ""]);
    assert_eq!(
        result.scan_errors,
        vec![
            "OCR识别失败 - 字段: 圣遗物名称, 原始文本: '', 错误: t",
            "OCR识别失败 - 字段: 主属性名称, 原始文本: '', 错误: n",
            "OCR识别失败 - 字段: 主属性数值, 原始文本: '', 错误: v",
            "OCR识别失败 - 字段: 等级, 原始文本: '', 错误: l",
            "OCR识别失败 - 字段: 装备状态, 原始文本: '', 错误: e",
            "OCR识别失败 - 字段: 副属性1, 原始文本: '', 错误: 1",
            "OCR识别失败 - 字段: 副属性2, 原始文本: '', 错误: 2",
            "OCR识别失败 - 字段: 副属性3, 原始文本: '', 错误: 3",
            "OCR识别失败 - 字段: 副属性4, 原始文本: '', 错误: 4",
        ]
    );
    // Nine penalties of four fifths, each rounded down.
    assert_eq!(result.confidence_ppm, 134_217);
}

#[test]
fn a_level_text_that_is_no_level_gives_level_nought_and_a_failure() {
    let mut answers = all_ok();
    answers[3] = Ok("二十");
    let result = assemble_scan_result(fields(answers), false, (1920, 1080), 5, false);
    assert_eq!(result.level, 0);
    assert_eq!(
        result.scan_errors,
        vec![
            "等级解析失败 - 原始文本: '二十', 错误: 等级解析失败: 无法解析数字 '二十', 错误: invalid digit found in string"
        ]
    );
    assert_eq!(result.confidence_ppm, 900_000);

    let mut answers = all_ok();
    answers[0] = Err("dark");
    answers[3] = Ok("Lv+x");
    let result = assemble_scan_result(fields(answers), false, (1920, 1080), 5, false);
    assert_eq!(result.scan_errors.len(), 2);
    assert!(result.scan_errors[1].contains("无法解析带+号的等级 '+x'"));
    assert_eq!(result.confidence_ppm, 720_000);
}

fn panel_image(marked: bool) -> RgbImage {
    let mut image = RgbImage::new(400, 600);
    if marked {
        // The telling pixel: ten left of and fifteen above the level text,
        // seen from the panel's corner.
        image.put_pixel(10, 185, Rgb { r: 220, g: 192, b: 255 });
    }
    image
}

fn list_image(locked: &[(u32, u32)]) -> RgbImage {
    let mut image = RgbImage::new(320, 260);
    for &(r, c) in locked {
        image.put_pixel(c * 100 + 10, r * 130 + 12, Rgb { r: 250, g: 140, b: 120 });
    }
    image
}

#[test]
fn the_marker_pixel_tells_a_marked_item() {
    let info = window_info();
    assert!(info.check_consecration_of_hoarfrost(&panel_image(true)));
    assert!(!info.check_consecration_of_hoarfrost(&panel_image(false)));
    let mut near = panel_image(false);
    near.put_pixel(10, 185, Rgb { r: 220, g: 192, b: 254 });
    assert!(!info.check_consecration_of_hoarfrost(&near));
    // A panel too small to hold the telling pixel shows no marker.
    assert!(!info.check_consecration_of_hoarfrost(&RgbImage::new(10, 10)));
    let mut off = window_info();
    off.level_rect = Rect::new(1005, 300, 50, 25);
    assert!(!off.check_consecration_of_hoarfrost(&panel_image(true)));
}

#[test]
fn lock_flags_are_read_off_the_list_frame() {
    let info = window_info();
    let locks = info.get_page_locks_optimized(&list_image(&[(0, 1), (1, 2)]));
    assert_eq!(locks, vec![false, true, false, false, false, true]);
    let none = info.get_page_locks_optimized(&list_image(&[]));
    assert_eq!(none, vec![false; 6]);
}

#[test]
fn a_colour_counts_as_locked_within_a_distance_of_thirty() {
    let info = window_info();
    let mut image = RgbImage::new(320, 260);
    // Distance 29 squared: locked. Distance 30 squared: not.
    image.put_pixel(10, 12, Rgb { r: 255, g: 138, b: 117 - 29 });
    image.put_pixel(110, 12, Rgb { r: 255 - 30, g: 138, b: 117 });
    image.put_pixel(210, 12, Rgb { r: 255, g: 138 + 17, b: 117 + 24 });
    let locks = info.get_page_locks_optimized(&image);
    assert_eq!(locks[0..3], [true, false, true]);
}

#[test]
fn cells_outside_the_list_frame_keep_their_place_and_count_as_unlocked() {
    let info = window_info();
    // Two columns across, not three: the third cell of each row lies outside.
    let mut image = RgbImage::new(200, 260);
    image.put_pixel(10, 12, Rgb { r: 255, g: 138, b: 117 });
    image.put_pixel(110, 142, Rgb { r: 255, g: 138, b: 117 });
    let locks = info.get_page_locks_optimized(&image);
    assert_eq!(locks, vec![true, false, false, false, true, false]);
    // A frame that ends above the second row's top edge: that row is left out.
    let short = info.get_page_locks_optimized(&RgbImage::new(320, 100));
    assert_eq!(short.len(), 3);
}

#[test]
fn an_item_is_scanned_from_nine_regions() {
    let script = Scripted::new(all_ok());
    let mut worker = ArtifactScannerWorker::new(&script, window_info(), config(), (1920, 1080));
    let item = SendItem { panel_image: panel_image(true), star: 5, list_image: None };
    let result = worker.scan_item_image_optimized(&item, true);
    assert_eq!(result.name, "魔女的炎之花");
    assert_eq!(result.level, 20);
    assert_eq!(result.sub_stat[0], "暴击伤害+7.8%");
    assert_eq!(result.equip, "迪卢克已装备");
    assert!(result.lock);
    assert_eq!(result.star, 5);
    // The regions are read in order, each cut to its size; the last primary
    // region reaches below the panel and is cut at its edge.
    assert_eq!(
        *script.seen.borrow(),
        vec![
            (200, 30),
            (150, 20),
            (120, 40),
            (50, 25),
            (300, 30),
            (250, 30),
            (251, 30),
            (252, 30),
            (253, 30)
        ]
    );
}

#[test]
fn items_are_taken_in_and_duplicates_left_out() {
    let mut answers = all_ok();
    answers.extend(all_ok());
    let mut third = all_ok();
    third[0] = Ok("魔女常燃之羽");
    answers.extend(third);
    let script = Scripted::new(answers);
    let mut worker = ArtifactScannerWorker::new(&script, window_info(), config(), (1920, 1080));

    let first = SendItem {
        panel_image: panel_image(false),
        star: 5,
        list_image: Some(list_image(&[(0, 0)])),
    };
    assert_eq!(worker.process_item(first), WorkerStep::Continue { delay_ms: 10 });
    assert_eq!(worker.result_count(), 1);
    assert_eq!(worker.get_consecutive_dup_count(), 0);

    let second = SendItem { panel_image: panel_image(false), star: 5, list_image: None };
    assert_eq!(worker.process_item(second), WorkerStep::Continue { delay_ms: 10 });
    // The second item has the first one's content but not its lock flag.
    assert_eq!(worker.result_count(), 2);

    let third = SendItem { panel_image: panel_image(false), star: 5, list_image: None };
    assert_eq!(worker.process_item(third), WorkerStep::Continue { delay_ms: 10 });
    assert_eq!(worker.result_count(), 3);

    let stats = worker.get_error_stats();
    assert_eq!(stats.successful_scans, 3);
    assert_eq!(stats.total_errors, 0);
    assert!(worker.get_performance_summary().contains("OCR次数: 15"));

    let results = worker.finish();
    assert!(results[0].lock);
    assert!(!results[1].lock);
    assert_eq!(results[2].name, "魔女常燃之羽");
}

fn worker_with(config: GenshinArtifactScannerConfig) -> ArtifactScannerWorker<Scripted> {
    let mut info = window_info();
    info.col = 8;
    ArtifactScannerWorker::new(Scripted::new(vec![]), info, config, (1920, 1080))
}

#[test]
fn a_run_of_duplicates_as_long_as_a_row_ends_the_scan() {
    let mut worker = worker_with(config());
    assert_eq!(worker.record_result(record("a", 20)), WorkerStep::Continue { delay_ms: 10 });
    for n in 1..8 {
        assert_eq!(worker.record_result(record("a", 20)), WorkerStep::Continue { delay_ms: 10 });
        assert_eq!(worker.get_consecutive_dup_count(), n);
    }
    assert_eq!(worker.record_result(record("a", 20)), WorkerStep::Stop(StopReason::DuplicateStreak));
    assert_eq!(worker.get_consecutive_dup_count(), 8);
    assert_eq!(worker.result_count(), 1);
    let stats = worker.get_error_stats();
    assert_eq!(stats.duplicate_items, 8);
    assert_eq!(stats.total_errors, 8);
}

#[test]
fn a_run_of_duplicates_is_let_pass_when_told_so() {
    let mut settings = config();
    settings.ignore_dup = true;
    let mut worker = worker_with(settings);
    worker.record_result(record("a", 20));
    for _ in 0..20 {
        assert_eq!(worker.record_result(record("a", 20)), WorkerStep::Continue { delay_ms: 10 });
    }
    assert_eq!(worker.get_consecutive_dup_count(), 20);
    assert_eq!(worker.result_count(), 1);
}

#[test]
fn a_new_item_ends_the_run_of_duplicates() {
    let mut worker = worker_with(config());
    worker.record_result(record("a", 20));
    for _ in 0..7 {
        worker.record_result(record("a", 20));
    }
    assert_eq!(worker.get_consecutive_dup_count(), 7);
    assert_eq!(worker.record_result(record("b", 20)), WorkerStep::Continue { delay_ms: 10 });
    assert_eq!(worker.get_consecutive_dup_count(), 0);
    // An older item is a duplicate as much as the last one.
    worker.record_result(record("a", 20));
    assert_eq!(worker.get_consecutive_dup_count(), 1);
    assert_eq!(worker.result_count(), 2);
    let results = worker.finish();
    assert_eq!(results[0].name, "a");
    assert_eq!(results[1].name, "b");
}

#[test]
fn an_item_below_the_least_level_ends_the_scan_and_is_not_kept() {
    let mut settings = config();
    settings.min_level = 16;
    let mut worker = worker_with(settings);
    assert_eq!(worker.record_result(record("a", 16)), WorkerStep::Continue { delay_ms: 10 });
    assert_eq!(
        worker.record_result(record("b", 15)),
        WorkerStep::Stop(StopReason::LevelBelowMinimum)
    );
    assert_eq!(worker.result_count(), 1);
    assert_eq!(worker.get_error_stats().total_errors, 0);
}

#[test]
fn crops_are_cut_at_the_frame() {
    let mut image = RgbImage::new(10, 8);
    for y in 0..8 {
        for x in 0..10 {
            image.put_pixel(x, y, Rgb { r: x as u8, g: y as u8, b: 7 });
        }
    }
    let inside = OptimizedImageProcessor::crop_optimized(&image, &Rect::new(2, 3, 4, 2));
    assert_eq!((inside.width(), inside.height()), (4, 2));
    assert_eq!(inside.get_pixel(0, 0), Rgb { r: 2, g: 3, b: 7 });
    assert_eq!(inside.get_pixel(3, 1), Rgb { r: 5, g: 4, b: 7 });

    let over = OptimizedImageProcessor::crop_optimized(&image, &Rect::new(7, 6, 10, 10));
    assert_eq!((over.width(), over.height()), (3, 2));
    assert_eq!(over.get_pixel(2, 1), Rgb { r: 9, g: 7, b: 7 });

    let before = OptimizedImageProcessor::crop_optimized(&image, &Rect::new(-5, -5, 3, 3));
    assert_eq!((before.width(), before.height()), (3, 3));
    assert_eq!(before.get_pixel(0, 0), Rgb { r: 0, g: 0, b: 7 });

    let outside = OptimizedImageProcessor::crop_optimized(&image, &Rect::new(20, 1, 5, 5));
    assert_eq!((outside.width(), outside.height()), (0, 5));
    let negative = OptimizedImageProcessor::crop_optimized(&image, &Rect::new(1, 1, -5, 2));
    assert_eq!((negative.width(), negative.height()), (0, 2));
}

#[test]
fn colour_distances_are_squared() {
    let a = Rgb { r: 255, g: 0, b: 10 };
    let b = Rgb { r: 0, g: 255, b: 13 };
    assert_eq!(OptimizedImageProcessor::color_distance_fast(&a, &b), 255 * 255 * 2 + 9);
    assert_eq!(OptimizedImageProcessor::color_distance_fast(&a, &a), 0);
    assert_eq!(
        OptimizedImageProcessor::batch_color_distance(&vec![a, b, a], &b),
        vec![130_059, 0, 130_059]
    );
}

#[test]
fn the_recognizer_reads_frames_in_order() {
    let script = Scripted::new(vec![Ok("a"), Err("b"), Ok("c")]);
    let recognizer = OptimizedOCRRecognizer::new(&script);
    let frames = vec![RgbImage::new(1, 1), RgbImage::new(2, 1)];
    assert_eq!(recognizer.batch_recognize(&frames), vec![Ok("a".to_string()), Err("b".to_string())]);
    assert_eq!(recognizer.recognize(&RgbImage::new(3, 3)), Ok("c".to_string()));
    assert_eq!(*script.seen.borrow(), vec![(1, 1), (2, 1), (3, 3)]);
}

fn delays(base: u32, current: u32, successes: u32, failures: u32) -> AdaptiveDelayManager {
    AdaptiveDelayManager::from_state(DelayState {
        base_delay: base,
        current_delay: current,
        success_count: successes,
        failure_count: failures,
    })
}

#[test]
fn the_delay_shrinks_towards_half_the_base_while_scans_succeed() {
    let mut manager = delays(100, 100, 98, 2);
    manager.adjust_delay(5);
    assert_eq!(manager.get_current_delay(), 90);
    assert_eq!(manager.get_state().success_count, 0);
    assert_eq!(manager.get_state().failure_count, 0);
    let mut seen = vec![];
    let mut current = 90;
    for _ in 0..10 {
        let mut manager = delays(100, current, 98, 2);
        manager.adjust_delay(6);
        current = manager.get_current_delay();
        seen.push(current);
    }
    assert_eq!(seen, vec![81, 72, 64, 57, 51, 50, 50, 50, 50, 50]);
}

#[test]
fn the_delay_grows_towards_double_the_base_while_scans_fail() {
    let mut seen = vec![];
    let mut current = 100;
    for _ in 0..6 {
        let mut manager = delays(100, current, 6, 4);
        manager.adjust_delay(5);
        current = manager.get_current_delay();
        seen.push(current);
    }
    assert_eq!(seen, vec![120, 144, 172, 200, 200, 200]);
}

#[test]
fn the_delay_stays_between_the_two_marks() {
    let mut manager = delays(100, 100, 95, 5);
    manager.adjust_delay(5);
    assert_eq!(manager.get_current_delay(), 100);
    let mut manager = delays(100, 100, 80, 20);
    manager.adjust_delay(5);
    assert_eq!(manager.get_current_delay(), 100);
    let mut manager = delays(100, 100, 96, 4);
    manager.adjust_delay(5);
    assert_eq!(manager.get_current_delay(), 90);
    let mut manager = delays(100, 100, 79, 21);
    manager.adjust_delay(5);
    assert_eq!(manager.get_current_delay(), 120);
}

#[test]
fn no_adjustment_is_made_before_its_time_or_without_scans() {
    let mut manager = delays(100, 100, 100, 0);
    manager.adjust_delay(4);
    assert_eq!(manager.get_state().current_delay, 100);
    assert_eq!(manager.get_state().success_count, 100);
    let mut manager = delays(100, 80, 0, 0);
    manager.adjust_delay(60);
    assert_eq!(manager.get_state().current_delay, 80);
    let mut manager = delays(u32::MAX, u32::MAX, 0, 1);
    manager.adjust_delay(5);
    assert_eq!(manager.get_current_delay(), u32::MAX);
    let mut manager = delays(7, 7, 1, 0);
    manager.adjust_delay(5);
    assert_eq!(manager.get_current_delay(), 6);
    manager.record_success();
    manager.record_failure();
    assert_eq!(manager.get_current_delay(), 6);
    assert_eq!(manager.get_state().success_count, 1);
    assert_eq!(manager.get_state().failure_count, 1);
}

#[test]
fn adjustments_follow_the_share_of_successes() {
    for base in [0u32, 1, 7, 10, 99, 100, 1_000, 65_535, u32::MAX / 2, u32::MAX] {
        for current in [0u32, 1, 5, 9, 10, 11, 15, 95, 100, 12_345, 1 << 31, u32::MAX] {
            for (successes, failures) in
                [(1u32, 0u32), (19, 1), (20, 1), (96, 4), (95, 5), (4, 1), (79, 21), (0, 1), (3, 1)]
            {
                let mut manager = delays(base, current, successes, failures);
                manager.adjust_delay(5);
                let rate = successes as f64 / (successes + failures) as f64;
                let expected = if rate > 0.95 {
                    (current as f64 * 0.9).max(base as f64 / 2.0) as u32
                } else if rate < 0.8 {
                    (current as f64 * 1.2).min(base as f64 * 2.0) as u32
                } else {
                    current
                };
                assert_eq!(
                    manager.get_current_delay(),
                    expected,
                    "base {base}, current {current}, {successes} of {}",
                    successes + failures
                );
            }
        }
    }
    for current in 0..20_000u32 {
        let mut manager = delays(0, current, 1, 0);
        manager.adjust_delay(5);
        assert_eq!(manager.get_current_delay(), (current as f64 * 0.9) as u32);
        let mut manager = delays(u32::MAX, current, 0, 1);
        manager.adjust_delay(5);
        assert_eq!(manager.get_current_delay(), (current as f64 * 1.2) as u32);
    }
}

#[test]
fn a_new_manager_starts_at_the_base_delay() {
    let manager = AdaptiveDelayManager::new(10);
    assert_eq!(manager.get_current_delay(), 10);
    assert_eq!(
        manager.get_state(),
        DelayState { base_delay: 10, current_delay: 10, success_count: 0, failure_count: 0 }
    );
}

#[test]
fn the_monitor_reports_mean_times() {
    let mut monitor = PerformanceMonitor::new();
    assert_eq!(
        monitor.summary_after(0),
        "性能统计 - 总时间: 0ns, 平均OCR时间: 0ns, 平均捕获时间: 0ns, OCR次数: 0, 捕获次数: 0"
    );
    monitor.record_ocr_time(1_000_000);
    monitor.record_ocr_time(2_000_000);
    monitor.record_capture_time(250);
    monitor.record_capture_time(251);
    monitor.record_capture_time(252);
    assert_eq!(monitor.ocr_count(), 2);
    assert_eq!(monitor.capture_count(), 3);
    assert_eq!(monitor.average_ocr_time(), 1_500_000);
    assert_eq!(monitor.average_capture_time(), 251);
    assert_eq!(
        monitor.summary_after(2_500_000_000),
        "性能统计 - 总时间: 2.5s, 平均OCR时间: 1.5ms, 平均捕获时间: 251ns, OCR次数: 2, 捕获次数: 3"
    );
    assert!(monitor.get_performance_summary().starts_with("性能统计 - 总时间: "));
    let mut big = PerformanceMonitor::new();
    big.record_ocr_time(u64::MAX);
    big.record_ocr_time(u64::MAX);
    big.record_ocr_time(u64::MAX - 3);
    assert_eq!(big.average_ocr_time(), u64::MAX - 1);
}

#[test]
fn test_ocr_model_module_exists() {
    // A recognizer can be implemented and handed to the library.
    let script = Scripted::new(vec![Ok("文字")]);
    let recognizer = OptimizedOCRRecognizer::new(&script);
    assert_eq!(recognizer.recognize(&RgbImage::new(100, 50)), Ok("文字".to_string()));
}
