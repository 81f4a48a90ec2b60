use furina::capture::Rgb;
use furina::genshin_scanning::artifact_scanner::get_hoarfrost_offset;
use furina::positioning::{Pos, Rect, Size};
use furina::scanner::artifact_scanner::{
    item_count_from_text, read_star, star_warning, summarize_results, GenshinArtifactScanner,
    MAX_COUNT,
};
use furina::scanner::error::ArtifactScanError;
use furina::scanner::{
    ArtifactScannerWindowInfo, GenshinArtifactScanResult, GenshinArtifactScannerConfig,
};
use furina::game_info::resolution_family::UnsupportedResolution;
use furina::game_info::{Platform, ResolutionFamily, UI};

fn window_info() -> ArtifactScannerWindowInfo {
    ArtifactScannerWindowInfo {
        panel_rect: Rect::new(1000, 100, 400, 600),
        title_rect: Rect::new(1010, 110, 200, 30),
        main_stat_name_rect: Rect::new(1010, 150, 150, 20),
        main_stat_value_rect: Rect::new(1010, 180, 120, 40),
        level_rect: Rect::new(1020, 300, 50, 25),
        item_equip_rect: Rect::new(1040, 650, 300, 40),
        sub_stat_1: Rect::new(1030, 350, 250, 30),
        sub_stat_2: Rect::new(1030, 385, 250, 30),
        sub_stat_3: Rect::new(1030, 420, 250, 30),
        sub_stat_4: Rect::new(1030, 455, 250, 30),
        item_count_rect: Rect::new(1200, 20, 150, 30),
        star_pos: Pos::new(1300, 200),
        lock_pos: Pos::new(10, 12),
        item_gap_size: Size::new(20, 30),
        item_size: Size::new(80, 100),
        scan_margin_pos: Pos::new(50, 60),
        hoarfrost_offset: Size::new(0, 35),
        col: 8,
        row: 5,
    }
}

fn scanner(number: i32, min_star: i32) -> GenshinArtifactScanner {
    GenshinArtifactScanner::new(
        GenshinArtifactScannerConfig { min_star, min_level: 0, ignore_dup: false, number },
        window_info(),
        Rect::new(100, 200, 1920, 1080),
    )
}

#[test]
fn the_rarity_is_that_of_the_nearest_colour() {
    let colours = [
        Rgb { r: 113, g: 119, b: 139 },
        Rgb { r: 42, g: 143, b: 114 },
        Rgb { r: 81, g: 127, b: 203 },
        Rgb { r: 161, g: 86, b: 224 },
        Rgb { r: 188, g: 105, b: 50 },
    ];
    for (i, colour) in colours.iter().enumerate() {
        let reading = read_star(colour);
        assert_eq!(reading.star, i + 1);
        assert_eq!(reading.distance, 0);
        assert_eq!(reading.confidence_ppm, 1_000_000);
        assert!(star_warning(colour, &reading).is_none());
        assert_eq!(scanner(-1, 4).get_star(colour), i + 1);
    }
    let near_five = Rgb { r: 190, g: 100, b: 55 };
    let reading = read_star(&near_five);
    assert_eq!(reading.star, 5);
    assert_eq!(reading.distance, 4 + 25 + 25);
    assert_eq!(reading.confidence_ppm, 1_000_000 - 54 * 20);
}

#[test]
fn a_colour_far_from_every_rarity_is_doubted() {
    let white = Rgb { r: 255, g: 255, b: 255 };
    let reading = read_star(&white);
    // Nearest is the colour of four stars.
    assert_eq!(reading.star, 4);
    assert_eq!(reading.distance, 94 * 94 + 169 * 169 + 31 * 31);
    assert_eq!(reading.confidence_ppm, 1_000_000 - 38_358 * 20);
    match star_warning(&white, &reading) {
        Some(ArtifactScanError::StarRecognitionFailed { detected_color, confidence_ppm }) => {
            assert_eq!(detected_color, "RGB(255, 255, 255)");
            assert_eq!(confidence_ppm, 232_840);
        },
        other => panic!("unexpected {other:?}"),
    }
    // At a distance of just the limit there is no doubt yet.
    let at_limit = Rgb { r: 1, g: 175, b: 239 };
    assert_eq!(read_star(&at_limit).distance, 10_000);
    assert_eq!(read_star(&at_limit).star, 3);
    assert_eq!(read_star(&at_limit).confidence_ppm, 800_000);
    assert!(star_warning(&at_limit, &read_star(&at_limit)).is_none());
    let past_limit = Rgb { r: 1, g: 55, b: 90 };
    assert_eq!(read_star(&past_limit).distance, 10_001);
    assert_eq!(read_star(&past_limit).star, 2);
    assert!(star_warning(&past_limit, &read_star(&past_limit)).is_some());
    let black = Rgb { r: 0, g: 0, b: 0 };
    assert_eq!(read_star(&black).star, 2);
    assert_eq!(read_star(&black).distance, 35_209);
    assert_eq!(read_star(&black).confidence_ppm, 295_820);
}

#[test]
fn the_item_count_is_read_off_the_count_line() {
    assert_eq!(item_count_from_text("圣遗物 75/2100"), 75);
    assert_eq!(item_count_from_text("圣遗物 1234/2100"), 1234);
    assert_eq!(item_count_from_text("圣遗物 2100/2100"), 2100);
    assert_eq!(item_count_from_text("圣遗物 9999/2100"), 2100);
    assert_eq!(item_count_from_text("圣遗物 +12/2100"), 12);
    assert_eq!(item_count_from_text("圣遗物 0/2100"), 0);
    // A line of another form gives the most items that a scan takes.
    assert_eq!(item_count_from_text("武器 75/2000"), 2100);
    assert_eq!(item_count_from_text("圣遗物 /2100"), 2100);
    // The number is taken by its place: after four characters.
    assert_eq!(item_count_from_text("圣遗物75/2100"), 5);
    assert_eq!(item_count_from_text("圣遗物 7x/2100"), 2100);
    assert_eq!(item_count_from_text("圣遗物 -5/2100"), 2100);
    assert_eq!(item_count_from_text(""), 2100);
    assert_eq!(item_count_from_text("圣遗物 99999999999999999999/2100"), 2100);
    // A number that an i32 does not hold wraps around before it is capped.
    assert_eq!(item_count_from_text("圣遗物 4294967301/2100"), 5);
    assert_eq!(item_count_from_text("圣遗物 2147483648/2100"), i32::MIN);
    assert_eq!(MAX_COUNT, 2100);
}

#[test]
fn a_configured_count_takes_precedence() {
    assert_eq!(scanner(50, 4).get_item_count(Some("圣遗物 75/2100")), 50);
    assert_eq!(scanner(5000, 4).get_item_count(None), 2100);
    assert_eq!(scanner(50, 4).configured_item_count(), Some(50));
    assert_eq!(scanner(0, 4).configured_item_count(), None);
    assert_eq!(scanner(-1, 4).get_item_count(Some("圣遗物 75/2100")), 75);
    assert_eq!(scanner(-1, 4).get_item_count(None), 2100);
    assert_eq!(scanner(0, 4).get_item_count(Some("??")), 2100);
}

#[test]
fn the_first_item_of_each_page_brings_the_list_frame() {
    let s = scanner(-1, 4);
    assert!(s.is_page_first_artifact(0));
    assert!(!s.is_page_first_artifact(1));
    assert!(!s.is_page_first_artifact(39));
    assert!(s.is_page_first_artifact(40));
    assert!(s.is_page_first_artifact(80));

    assert_eq!(s.get_start_row(75, 0), 0);
    assert_eq!(s.get_start_row(75, 35), 0);
    // Thirty-five items remain: five rows, a full page.
    assert_eq!(s.get_start_row(75, 40), 0);
    // Eleven items remain: two rows.
    assert_eq!(s.get_start_row(51, 40), 3);
    assert_eq!(s.get_start_row(41, 40), 4);
    assert_eq!(s.get_start_row(40, 40), 5);

    assert_eq!(s.list_capture_rect(75, 1), None);
    assert_eq!(s.list_capture_rect(75, 0), Some(Rect::new(150, 260, 1870, 1020)));
    assert_eq!(s.list_capture_rect(51, 40), Some(Rect::new(150, 260 + 390, 1870, 1020 - 390)));
}

#[test]
fn an_item_below_the_least_rarity_ends_the_feed() {
    let s = scanner(-1, 4);
    assert!(s.ends_feed(3));
    assert!(!s.ends_feed(4));
    assert!(!s.ends_feed(5));
    assert!(!scanner(-1, 0).ends_feed(0));
    assert!(!scanner(-1, -3).ends_feed(0));
}

fn record(name: &str, level: i32, errors: usize) -> GenshinArtifactScanResult {
    let mut result = GenshinArtifactScanResult::new(
        name.to_string(),
        "生命值".to_string(),
        "4780".to_string(),
        ["a".to_string(), "b".to_string(), "c".to_string(), "d".to_string()],
        "".to_string(),
        level,
        5,
        false,
    );
    for _ in 0..errors {
        result.add_error(&ArtifactScanError::Unknown { error_msg: "x".to_string() });
    }
    result
}

#[test]
fn the_summary_keeps_the_levels_asked_for_and_counts_the_doubtful() {
    let results = vec![
        record("a", 20, 0),
        record("b", 3, 1),
        record("c", 16, 1),
        record("d", 17, 5),
        record("e", 0, 0),
        record("f", 16, 4),
    ];
    let summary = summarize_results(results, 16);
    let names: Vec<&str> = summary.results.iter().map(|r| r.name.as_str()).collect();
    assert_eq!(names, vec!["a", "c", "d", "f"]);
    assert_eq!(summary.error_count, 3);
    // Four penalties of 0.95 leave 0.8145; five leave less than four fifths.
    assert_eq!(summary.low_confidence_count, 1);
    let none = summarize_results(Vec::new(), 0);
    assert!(none.results.is_empty());
    assert_eq!(none.error_count, 0);
}

#[test]
fn the_marked_layout_is_shifted_by_the_window_size() {
    assert_eq!(get_hoarfrost_offset(2560, 1440), 51);
    assert_eq!(get_hoarfrost_offset(1920, 1080), 35);
    assert_eq!(get_hoarfrost_offset(1600, 900), 32);
    assert_eq!(get_hoarfrost_offset(1280, 720), 0);
    assert_eq!(get_hoarfrost_offset(1080, 1920), 0);
}

#[test]
fn three_window_sizes_are_supported() {
    assert_eq!(ResolutionFamily::new(2560, 1440), Ok(ResolutionFamily::Windows16x9));
    assert_eq!(ResolutionFamily::new(1920, 1080), Ok(ResolutionFamily::Windows16x9));
    assert_eq!(ResolutionFamily::new(1600, 900), Ok(ResolutionFamily::Windows16x9));
    let e = ResolutionFamily::new(1280, 720).unwrap_err();
    assert_eq!(e, UnsupportedResolution { width: 1280, height: 720 });
    assert_eq!(
        e.message(),
        "不支持的分辨率: 1280×720\n支持的分辨率:\n- 2560×1440\n- 1920×1080\n- 1600×900"
    );
    assert!(ResolutionFamily::new(1920, 1440).is_err());
    assert_ne!(UI::Desktop, UI::Mobile);
    assert_ne!(Platform::Windows, Platform::MacOS);
}
