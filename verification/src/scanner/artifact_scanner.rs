use vstd::prelude::*;
use vstd::string::*;

use crate::capture::image::{color_distance, color_distance_spec, Rgb};
use crate::positioning::Rect;
use crate::scanner::artifact_scanner_config::GenshinArtifactScannerConfig;
use crate::scanner::artifact_scanner_window_info::ArtifactScannerWindowInfo;
use crate::scanner::error::ArtifactScanError;
use crate::scanner::scan_result::GenshinArtifactScanResult;
use crate::scanner_controller::scan_state::{lemma_rows_needed, rows_needed};
use crate::utils::decimal::{decimal_text, parse_u64_range, parse_u64_spec, push_decimal};
use crate::utils::text::{chars_of, has_prefix, matches_at};

verus! {

/// The most items that a scan takes.
pub const MAX_COUNT: usize = 2100;

/// How far, squared, the rarity colour may lie from the nearest known colour
/// before the reading is doubted.
pub const STAR_DISTANCE_LIMIT: u32 = 10_000;

/// The colour that tells a rarity of `star` stars, for one to five stars.
pub open spec fn star_color(star: int) -> Rgb {
    if star == 1 {
        Rgb { r: 113, g: 119, b: 139 }
    } else if star == 2 {
        Rgb { r: 42, g: 143, b: 114 }
    } else if star == 3 {
        Rgb { r: 81, g: 127, b: 203 }
    } else if star == 4 {
        Rgb { r: 161, g: 86, b: 224 }
    } else {
        Rgb { r: 188, g: 105, b: 50 }
    }
}

fn star_color_exec(star: usize) -> (color: Rgb)
    ensures
        color == star_color(star as int),
{
    if star == 1 {
        Rgb { r: 113, g: 119, b: 139 }
    } else if star == 2 {
        Rgb { r: 42, g: 143, b: 114 }
    } else if star == 3 {
        Rgb { r: 81, g: 127, b: 203 }
    } else if star == 4 {
        Rgb { r: 161, g: 86, b: 224 }
    } else {
        Rgb { r: 188, g: 105, b: 50 }
    }
}

/// How sure a rarity reading is, in parts per million: full confidence at
/// distance nought, none from a distance of fifty thousand on.
pub open spec fn star_confidence_ppm(distance: int) -> int {
    if distance * 20 >= 1_000_000 {
        0
    } else {
        1_000_000 - distance * 20
    }
}

/// A rarity read off a colour.
#[derive(Debug, Clone, Copy, PartialEq, Eq, Structural)]
pub struct StarReading {
    /// The rarity: one to five stars.
    pub star: usize,
    /// The squared distance of the colour to the colour of that rarity.
    pub distance: u32,
    /// How sure the reading is, in parts per million.
    pub confidence_ppm: u32,
}

/// Reads the rarity off a colour: the rarity whose colour is nearest, and
/// the lowest such rarity where several are equally near.
pub fn read_star(color: &Rgb) -> (reading: StarReading)
    ensures
        1 <= reading.star <= 5,
        reading.distance == color_distance_spec(star_color(reading.star as int), *color),
        forall|s: int|
            1 <= s <= 5 ==> reading.distance <= color_distance_spec(#[trigger] star_color(s), *color),
        forall|s: int|
            1 <= s < reading.star ==> reading.distance < color_distance_spec(
                #[trigger] star_color(s),
                *color,
            ),
        reading.confidence_ppm == star_confidence_ppm(reading.distance as int),
{
    let first = star_color_exec(1);
    let mut distance: u32 = color_distance(&first, color);
    let mut star: usize = 1;
    let mut s: usize = 2;
    while s <= 5
        invariant
            2 <= s <= 6,
            1 <= star < s,
            distance == color_distance_spec(star_color(star as int), *color),
            distance <= 195_075,
            forall|t: int|
                1 <= t < s ==> distance <= color_distance_spec(#[trigger] star_color(t), *color),
            forall|t: int|
                1 <= t < star ==> distance < color_distance_spec(#[trigger] star_color(t), *color),
        decreases 6 - s,
    {
        let candidate = star_color_exec(s);
        let d = color_distance(&candidate, color);
        if d < distance {
            distance = d;
            star = s;
        }
        s = s + 1;
    }
    let confidence_ppm: u32 = if distance * 20 >= 1_000_000 {
        0
    } else {
        1_000_000 - distance * 20
    };
    StarReading { star, distance, confidence_ppm }
}

/// How a colour is written in a report.
pub open spec fn color_text(color: Rgb) -> Seq<char> {
    "RGB("@ + decimal_text(color.r as nat) + ", "@ + decimal_text(color.g as nat) + ", "@
        + decimal_text(color.b as nat) + ")"@
}

/// The doubt about a rarity reading: none while the colour lies within the
/// limit of the nearest known colour.
pub fn star_warning(color: &Rgb, reading: &StarReading) -> (warning: Option<ArtifactScanError>)
    ensures
        warning is Some <==> reading.distance > STAR_DISTANCE_LIMIT,
        warning matches Some(e) ==> e matches ArtifactScanError::StarRecognitionFailed {
            detected_color,
            confidence_ppm,
        } && detected_color@ == color_text(*color) && confidence_ppm == reading.confidence_ppm,
{
    if reading.distance > STAR_DISTANCE_LIMIT {
        let mut detected_color = String::from_str("RGB(");
        push_decimal(&mut detected_color, color.r as u64);
        detected_color.append(", ");
        push_decimal(&mut detected_color, color.g as u64);
        detected_color.append(", ");
        push_decimal(&mut detected_color, color.b as u64);
        detected_color.append(")");
        assert(detected_color@ =~= color_text(*color));
        Some(
            ArtifactScanError::StarRecognitionFailed {
                detected_color,
                confidence_ppm: reading.confidence_ppm,
            },
        )
    } else {
        None
    }
}

/// A number as an `i32` keeps of it: its low thirty-two bits, read as a
/// signed number.
pub open spec fn low_i32(v: int) -> int {
    let low = v % 0x1_0000_0000;
    if low >= 0x8000_0000 {
        low - 0x1_0000_0000
    } else {
        low
    }
}

fn low_i32_exec(v: u64) -> (low: i32)
    ensures
        low == low_i32(v as int),
{
    let low: u64 = v % 0x1_0000_0000;
    if low >= 0x8000_0000 {
        (low as i64 - 0x1_0000_0000) as i32
    } else {
        low as i32
    }
}

/// The lesser of a count and the most items that a scan takes.
pub open spec fn capped(count: int) -> int {
    if count < MAX_COUNT {
        count
    } else {
        MAX_COUNT as int
    }
}

/// The item count that the count line of the screen gives. The line starts
/// with the item kind's name and holds, after four characters and before its
/// last five, the number of items. A line of another form, or without a
/// number there, gives the most items that a scan takes.
pub open spec fn item_count_of_text(text: Seq<char>) -> int {
    if has_prefix(text, "圣遗物"@) && text.len() > 9 {
        match parse_u64_spec(text.subrange(4, text.len() - 5)) {
            Some(v) => capped(low_i32(v)),
            None => MAX_COUNT as int,
        }
    } else {
        MAX_COUNT as int
    }
}

/// Reads the item count off the count line of the screen.
pub fn item_count_from_text(text: &str) -> (count: i32)
    ensures
        count == item_count_of_text(text@),
        count <= MAX_COUNT,
{
    let chars = chars_of(text);
    let name = chars_of("圣遗物");
    assert(chars@.skip(0) =~= chars@);
    if matches_at(&chars, 0, &name) && chars.len() > 9 {
        match parse_u64_range(&chars, 4, chars.len() - 5) {
            Some(v) => {
                let low = low_i32_exec(v);
                if low < MAX_COUNT as i32 {
                    low
                } else {
                    MAX_COUNT as i32
                }
            },
            None => MAX_COUNT as i32,
        }
    } else {
        MAX_COUNT as i32
    }
}

/// Which items of a page get which captures, and when the feed stops.
#[derive(Debug, Clone, Copy, PartialEq)]
pub struct GenshinArtifactScanner {
    pub scanner_config: GenshinArtifactScannerConfig,
    pub window_info: ArtifactScannerWindowInfo,
    /// The game window on the screen.
    pub window: Rect<i32>,
}

/// A coordinate as an `i32` keeps of it: the nearest number that fits.
pub open spec fn clamp_i32(v: int) -> int {
    if v < i32::MIN {
        i32::MIN as int
    } else if v > i32::MAX {
        i32::MAX as int
    } else {
        v
    }
}

fn clamp_i32_exec(v: i64) -> (clamped: i32)
    ensures
        clamped == clamp_i32(v as int),
{
    if v < i32::MIN as i64 {
        i32::MIN
    } else if v > i32::MAX as i64 {
        i32::MAX
    } else {
        v as i32
    }
}

impl GenshinArtifactScanner {
    /// Whether a page holds items: a row or more of a column or more, and
    /// not more cells than can be counted.
    pub open spec fn grid_ok(&self) -> bool {
        &&& self.window_info.col > 0
        &&& self.window_info.row > 0
        &&& self.window_info.col * self.window_info.row <= i32::MAX
    }

    /// The scanner for a window.
    pub fn new(
        scanner_config: GenshinArtifactScannerConfig,
        window_info: ArtifactScannerWindowInfo,
        window: Rect<i32>,
    ) -> (scanner: GenshinArtifactScanner)
        ensures
            scanner.scanner_config == scanner_config,
            scanner.window_info == window_info,
            scanner.window == window,
    {
        GenshinArtifactScanner { scanner_config, window_info, window }
    }

    /// The rarity that a colour tells: the rarity whose colour is nearest,
    /// and the lowest such rarity where several are equally near.
    pub fn get_star(&self, color: &Rgb) -> (star: usize)
        ensures
            1 <= star <= 5,
            forall|s: int|
                1 <= s <= 5 ==> color_distance_spec(star_color(star as int), *color)
                    <= color_distance_spec(#[trigger] star_color(s), *color),
            forall|s: int|
                1 <= s < star ==> color_distance_spec(star_color(star as int), *color)
                    < color_distance_spec(#[trigger] star_color(s), *color),
    {
        read_star(color).star
    }

    /// The item count that the user configured, capped; none where the count
    /// is left to be read off the screen.
    pub fn configured_item_count(&self) -> (count: Option<i32>)
        ensures
            self.scanner_config.number > 0 ==> count == Some(
                capped(self.scanner_config.number as int) as i32,
            ),
            self.scanner_config.number <= 0 ==> count is None,
    {
        if self.scanner_config.number > 0 {
            if self.scanner_config.number < MAX_COUNT as i32 {
                Some(self.scanner_config.number)
            } else {
                Some(MAX_COUNT as i32)
            }
        } else {
            None
        }
    }

    /// The item count of the scan: the configured one, else the one that the
    /// count line gives, else, where no line could be read, the most items
    /// that a scan takes.
    pub fn get_item_count(&self, count_line: Option<&str>) -> (count: i32)
        ensures
            self.scanner_config.number > 0 ==> count == capped(self.scanner_config.number as int),
            self.scanner_config.number <= 0 ==> count == (match count_line {
                Some(line) => item_count_of_text(line@),
                None => MAX_COUNT as int,
            }),
            count <= MAX_COUNT,
    {
        match self.configured_item_count() {
            Some(count) => count,
            None => match count_line {
                Some(line) => item_count_from_text(line),
                None => MAX_COUNT as i32,
            },
        }
    }

    /// Whether the item with the running number `cur_index`, counted from
    /// nought, is the first of a page.
    pub fn is_page_first_artifact(&self, cur_index: i32) -> (first: bool)
        requires
            self.grid_ok(),
            cur_index >= 0,
        ensures
            first == (cur_index as int % (self.window_info.col * self.window_info.row) == 0),
    {
        let page_size: i64 = self.page_size();
        (cur_index as i64) % page_size == 0
    }

    fn page_size(&self) -> (size: i64)
        requires
            self.grid_ok(),
        ensures
            size == self.window_info.col * self.window_info.row,
            0 < size <= i32::MAX,
    {
        assert(self.window_info.col * self.window_info.row > 0) by (nonlinear_arith)
            requires
                self.window_info.col > 0,
                self.window_info.row > 0,
        ;
        (self.window_info.col as i64) * (self.window_info.row as i64)
    }

    /// The row of the page at which the page that holds item `cur_index`
    /// starts, of `max_count` items in all.
    pub open spec fn start_row_of(&self, max_count: int, cur_index: int) -> int {
        let col = self.window_info.col as int;
        let row = self.window_info.row as int;
        if max_count - cur_index >= col * row {
            0
        } else {
            let remain_row = rows_needed(max_count - cur_index, col);
            if remain_row < row {
                row - remain_row
            } else {
                0
            }
        }
    }

    /// The row of the page at which the page that holds item `cur_index`
    /// starts: the first row where a full page of items is left, else the
    /// row that leaves just the rows that the remaining items need.
    pub fn get_start_row(&self, max_count: i32, cur_index: i32) -> (start_row: i32)
        requires
            self.grid_ok(),
            0 <= cur_index <= max_count,
        ensures
            start_row == self.start_row_of(max_count as int, cur_index as int),
            0 <= start_row <= self.window_info.row,
    {
        let col: i64 = self.window_info.col as i64;
        let row: i64 = self.window_info.row as i64;
        let page_size = self.page_size();
        let remain: i64 = max_count as i64 - cur_index as i64;
        if remain >= page_size {
            0
        } else {
            proof {
                lemma_rows_needed(remain as int, col as int);
            }
            let remain_row: i64 = (remain + col - 1) / col;
            if remain_row < row {
                (row - remain_row) as i32
            } else {
                0
            }
        }
    }

    /// The part of the screen that shows the list from the row `start_row`
    /// of the page on.
    pub open spec fn list_rect_from(&self, start_row: int) -> Rect<i32> {
        let shift = self.window_info.pitch_y() * start_row;
        Rect {
            left: clamp_i32(self.window.left + self.window_info.scan_margin_pos.x) as i32,
            top: clamp_i32(self.window.top + self.window_info.scan_margin_pos.y + shift) as i32,
            width: clamp_i32(self.window.width - self.window_info.scan_margin_pos.x) as i32,
            height: clamp_i32(self.window.height - self.window_info.scan_margin_pos.y - shift) as i32,
        }
    }

    /// The part of the screen to capture as the list frame with item
    /// `cur_index`: none unless the item is the first of its page.
    pub fn list_capture_rect(&self, max_count: i32, cur_index: i32) -> (rect: Option<Rect<i32>>)
        requires
            self.grid_ok(),
            0 <= cur_index <= max_count,
        ensures
            rect == (if cur_index as int % (self.window_info.col * self.window_info.row) == 0 {
                Some(self.list_rect_from(self.start_row_of(max_count as int, cur_index as int)))
            } else {
                None
            }),
    {
        if !self.is_page_first_artifact(cur_index) {
            return None;
        }
        let start_row = self.get_start_row(max_count, cur_index);
        let pitch: i64 = self.window_info.item_gap_size.height as i64
            + self.window_info.item_size.height as i64;
        assert(-0x1_0000_0000 * 0x8000_0000 <= pitch * start_row <= 0x1_0000_0000 * 0x8000_0000)
            by (nonlinear_arith)
            requires
                -0x1_0000_0000 <= pitch <= 0x1_0000_0000,
                0 <= start_row <= 0x8000_0000,
        ;
        let shift: i128 = (pitch as i128) * (start_row as i128);
        let left: i64 = self.window.left as i64 + self.window_info.scan_margin_pos.x as i64;
        let top: i128 = self.window.top as i128 + self.window_info.scan_margin_pos.y as i128 + shift;
        let width: i64 = self.window.width as i64 - self.window_info.scan_margin_pos.x as i64;
        let height: i128 = self.window.height as i128 - self.window_info.scan_margin_pos.y as i128
            - shift;
        Some(
            Rect {
                left: clamp_i32_exec(left),
                top: clamp_i32_exec(clamp_i64(top)),
                width: clamp_i32_exec(width),
                height: clamp_i32_exec(clamp_i64(height)),
            },
        )
    }

    /// Whether an item of rarity `star` ends the feed: it does where it is
    /// below the least rarity asked for.
    pub fn ends_feed(&self, star: usize) -> (ends: bool)
        ensures
            ends == (star < self.scanner_config.min_star),
    {
        self.scanner_config.min_star > 0 && (star as u128) < self.scanner_config.min_star as u128
    }
}

fn clamp_i64(v: i128) -> (clamped: i64)
    ensures
        clamp_i32(clamped as int) == clamp_i32(v as int),
        i64::MIN <= v <= i64::MAX ==> clamped == v,
{
    if v < i64::MIN as i128 {
        i64::MIN
    } else if v > i64::MAX as i128 {
        i64::MAX
    } else {
        v as i64
    }
}

/// The records of `results` whose level is `min_level` or more, in order.
pub open spec fn at_least_level(results: Seq<GenshinArtifactScanResult>, min_level: i32) -> Seq<
    GenshinArtifactScanResult,
>
    decreases results.len(),
{
    if results.len() == 0 {
        results
    } else if results.last().level >= min_level {
        at_least_level(results.drop_last(), min_level).push(results.last())
    } else {
        at_least_level(results.drop_last(), min_level)
    }
}

/// How many records carry a failure.
pub open spec fn with_failures(results: Seq<GenshinArtifactScanResult>) -> nat
    decreases results.len(),
{
    if results.len() == 0 {
        0
    } else {
        with_failures(results.drop_last()) + if results.last().scan_errors@.len() > 0 {
            1nat
        } else {
            0nat
        }
    }
}

/// How many records have a confidence below `threshold_ppm`.
pub open spec fn below_confidence(results: Seq<GenshinArtifactScanResult>, threshold_ppm: u32) -> nat
    decreases results.len(),
{
    if results.len() == 0 {
        0
    } else {
        below_confidence(results.drop_last(), threshold_ppm) + if results.last().confidence_ppm
            < threshold_ppm {
            1nat
        } else {
            0nat
        }
    }
}

/// What a scan brought in.
#[derive(Debug)]
pub struct ScanSummary {
    /// The records whose level is the least level or more.
    pub results: Vec<GenshinArtifactScanResult>,
    /// How many of them carry a failure.
    pub error_count: usize,
    /// How many of them have a confidence below four fifths.
    pub low_confidence_count: usize,
}

/// The confidence below which a record is reported as doubtful.
pub const RELIABLE_PPM: u32 = 800_000;

/// Sums up a scan: keeps the records of the least level or more, and counts
/// those with failures and those of low confidence among them.
pub fn summarize_results(results: Vec<GenshinArtifactScanResult>, min_level: i32) -> (summary:
    ScanSummary)
    ensures
        summary.results@ == at_least_level(results@, min_level),
        summary.error_count == with_failures(summary.results@),
        summary.low_confidence_count == below_confidence(summary.results@, RELIABLE_PPM),
{
    let ghost all = results@;
    let total = results.len();
    assert(all.len() == total);
    let mut rest = results;
    let mut reversed: Vec<GenshinArtifactScanResult> = Vec::new();
    while rest.len() > 0
        invariant
            rest@.len() + reversed@.len() == all.len(),
            rest@ == all.subrange(0, rest@.len() as int),
            reversed@ == all.subrange(rest@.len() as int, all.len() as int).reverse(),
        decreases rest@.len(),
    {
        let ghost before = rest@;
        let one = rest.pop().unwrap();
        reversed.push(one);
        assert(rest@ =~= all.subrange(0, rest@.len() as int));
        assert(reversed@ =~= all.subrange(rest@.len() as int, all.len() as int).reverse());
    }
    assert(reversed@.reverse() =~= all);
    let mut kept: Vec<GenshinArtifactScanResult> = Vec::new();
    let mut error_count: usize = 0;
    let mut low_confidence_count: usize = 0;
    let ghost mut done: int = 0;
    while reversed.len() > 0
        invariant
            0 <= done <= all.len(),
            reversed@.len() == all.len() - done,
            reversed@ == all.subrange(done, all.len() as int).reverse(),
            kept@ == at_least_level(all.subrange(0, done), min_level),
            error_count == with_failures(kept@),
            low_confidence_count == below_confidence(kept@, RELIABLE_PPM),
            kept@.len() <= done,
            error_count <= kept@.len(),
            low_confidence_count <= kept@.len(),
            all.len() <= usize::MAX,
        decreases reversed@.len(),
    {
        let one = reversed.pop().unwrap();
        proof {
            assert(one == all[done]);
            assert(all.subrange(0, done + 1).drop_last() =~= all.subrange(0, done));
            assert(reversed@ =~= all.subrange(done + 1, all.len() as int).reverse());
        }
        if one.level >= min_level {
            let ghost before = kept@;
            if one.has_errors() {
                error_count = error_count + 1;
            }
            if !one.is_reliable(RELIABLE_PPM) {
                low_confidence_count = low_confidence_count + 1;
            }
            kept.push(one);
            assert(kept@.drop_last() =~= before);
        }
        proof {
            done = done + 1;
        }
    }
    assert(all.subrange(0, all.len() as int) =~= all);
    ScanSummary { results: kept, error_count, low_confidence_count }
}

} // verus!
