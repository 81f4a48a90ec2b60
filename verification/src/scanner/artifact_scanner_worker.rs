use vstd::prelude::*;
use vstd::string::*;

use crate::capture::image::{color_distance, color_distance_spec, Rgb, RgbImage};
use crate::ocr::ImageToText;
use crate::positioning::Rect;
use crate::scanner::artifact_scanner_config::GenshinArtifactScannerConfig;
use crate::scanner::artifact_scanner_window_info::ArtifactScannerWindowInfo;
use crate::scanner::error::{
    level_failure_text, ocr_failure_text, ArtifactScanError, ErrorStatistics, PPM,
};
use crate::scanner::message_items::SendItem;
use crate::scanner::performance_optimizations::{
    is_crop_of, AdaptiveDelayManager, DelayState, OptimizedImageProcessor, OptimizedOCRRecognizer,
    PerformanceMonitor,
};
use crate::scanner::scan_result::{
    penalised_by_all, penalty_ppm, GenshinArtifactScanResult, ScanContent,
};
use crate::utils::clock::{elapsed_nanos, now};
use crate::utils::decimal::{parse_i32_from, parse_i32_spec, IntParseError};
use crate::utils::text::{
    chars_of, find_char, first_index, has_prefix, replace_all, replace_str, starts_with,
};

verus! {

/// Why a text is not a level.
#[derive(Debug, Clone, PartialEq, Eq)]
pub struct LevelParseError {
    /// The part of the text that was read as a number.
    pub text: String,
    /// Whether that part starts at a plus sign.
    pub after_plus: bool,
    /// Why that part is not a number.
    pub cause: IntParseError,
}

/// Whether the text holds a plus sign.
pub open spec fn has_plus(s: Seq<char>) -> bool {
    first_index(s, '+') < s.len()
}

/// The part of a level text that is read as a number: from the first plus
/// sign on, or all of it where there is none.
pub open spec fn level_part(s: Seq<char>) -> Seq<char> {
    if has_plus(s) {
        s.skip(first_index(s, '+'))
    } else {
        s
    }
}

/// The level that a text denotes: a whole number, or a plus sign followed by
/// one, after anything at all.
pub open spec fn parse_level_spec(s: Seq<char>) -> Result<int, IntParseError> {
    parse_i32_spec(level_part(s))
}

/// How the failure to read a level is worded: the part that was read, and
/// why it is no number.
pub open spec fn level_parse_message(part: Seq<char>, after_plus: bool, cause: IntParseError) -> Seq<
    char,
> {
    if after_plus {
        "等级解析失败: 无法解析带+号的等级 '"@ + part + "', 错误: "@ + cause.message_text()
    } else {
        "等级解析失败: 无法解析数字 '"@ + part + "', 错误: "@ + cause.message_text()
    }
}

impl LevelParseError {
    /// What is wrong, in words.
    pub open spec fn message_text(&self) -> Seq<char> {
        level_parse_message(self.text@, self.after_plus, self.cause)
    }

    /// What is wrong, in words.
    pub fn message(&self) -> (text: String)
        ensures
            text@ == self.message_text(),
    {
        let mut text = if self.after_plus {
            String::from_str("等级解析失败: 无法解析带+号的等级 '")
        } else {
            String::from_str("等级解析失败: 无法解析数字 '")
        };
        text.append(self.text.as_str());
        text.append("', 错误: ");
        text.append(self.cause.message());
        text
    }
}

/// Reads a level: a whole number such as `15`, or a text with a plus sign
/// followed by one, such as `+15`. Anything else is an error, which says
/// what part was read and why it is no number.
pub fn parse_level(s: &str) -> (level: Result<i32, LevelParseError>)
    ensures
        match level {
            Ok(v) => parse_level_spec(s@) == Ok::<int, IntParseError>(v as int),
            Err(e) => parse_level_spec(s@) == Err::<int, IntParseError>(e.cause) && e.text@
                == level_part(s@) && e.after_plus == has_plus(s@),
        },
{
    let chars = chars_of(s);
    match find_char(&chars, '+') {
        None => {
            assert(chars@.skip(0) =~= s@);
            match parse_i32_from(&chars, 0) {
                Ok(v) => Ok(v),
                Err(cause) => Err(LevelParseError { text: s.to_owned(), after_plus: false, cause }),
            }
        },
        Some(at) => {
            match parse_i32_from(&chars, at) {
                Ok(v) => Ok(v),
                Err(cause) => {
                    let part = s.substring_char(at, chars.len());
                    assert(part@ =~= s@.skip(at as int));
                    Err(LevelParseError { text: part.to_owned(), after_plus: true, cause })
                },
            }
        },
    }
}

/// Whether the known misreading is to be mended: only for a marked item, and
/// only in a window of 1920 by 1080.
pub open spec fn mending_applies(is_hoarfrost: bool, window_size: (u32, u32)) -> bool {
    is_hoarfrost && window_size.0 == 1920 && window_size.1 == 1080
}

/// A recognised text with the known misreading mended: where mending
/// applies and the text starts with the truncated label and a plus sign, with
/// or without a space between them, the label is written out in full.
pub open spec fn fixed_text(text: Seq<char>, is_hoarfrost: bool, window_size: (u32, u32)) -> Seq<
    char,
> {
    if mending_applies(is_hoarfrost, window_size) && (has_prefix(text, "暴击伤+"@) || has_prefix(
        text,
        "暴击伤 +"@,
    )) {
        replace_all(text, "暴击伤"@, "暴击伤害"@)
    } else {
        text
    }
}

/// Mends the known misreading of one label in a recognised text.
pub fn fix_hoarfrost_ocr_text(text: &str, is_hoarfrost: bool, window_size: (u32, u32)) -> (fixed:
    String)
    ensures
        fixed@ == fixed_text(text@, is_hoarfrost, window_size),
{
    if !is_hoarfrost || window_size.0 != 1920 || window_size.1 != 1080 {
        return text.to_owned();
    }
    if starts_with(text, "暴击伤+") || starts_with(text, "暴击伤 +") {
        proof {
            reveal_strlit("暴击伤");
        }
        return replace_str(text, "暴击伤", "暴击伤害");
    }
    text.to_owned()
}

/// The colour that marks a locked item in the list.
pub open spec fn lock_marker() -> Rgb {
    Rgb { r: 255, g: 138, b: 117 }
}

/// How far, squared, a colour may lie from the lock marker and still count
/// as locked: less than this.
pub const LOCK_DISTANCE_LIMIT: u32 = 900;

/// The colour that marks the shifted panel layout.
pub open spec fn hoarfrost_marker() -> Rgb {
    Rgb { r: 220, g: 192, b: 255 }
}

/// A coordinate as a pixel index: nought where it is negative.
pub open spec fn pixel_index(v: int) -> int {
    if v < 0 {
        0
    } else if v > u32::MAX {
        u32::MAX as int
    } else {
        v
    }
}

fn pixel_index_exec(v: i64) -> (index: u32)
    ensures
        index == pixel_index(v as int),
{
    if v < 0 {
        0
    } else if v > u32::MAX as i64 {
        u32::MAX
    } else {
        v as u32
    }
}

/// The product of a pitch and a cell number.
fn pitch_times(pitch: i64, k: i32) -> (product: i64)
    requires
        -0x1_0000_0000 <= pitch <= 0x1_0000_0000,
        0 <= k,
    ensures
        product == pitch * k,
        -0x7fff_ffff_0000_0000 <= product <= 0x7fff_ffff_0000_0000,
{
    assert(-0x1_0000_0000 * 0x7fff_ffff <= pitch * k <= 0x1_0000_0000 * 0x7fff_ffff)
        by (nonlinear_arith)
        requires
            -0x1_0000_0000 <= pitch <= 0x1_0000_0000,
            0 <= k <= 0x7fff_ffff,
    ;
    pitch * (k as i64)
}

impl ArtifactScannerWindowInfo {
    /// Column of the panel pixel that tells a marked item: ten pixels left of
    /// the level text.
    pub open spec fn hoarfrost_x(&self) -> int {
        self.level_rect.left - 10 - self.panel_rect.left
    }

    /// Row of the panel pixel that tells a marked item: fifteen pixels above
    /// the level text.
    pub open spec fn hoarfrost_y(&self) -> int {
        self.level_rect.top - 15 - self.panel_rect.top
    }

    /// Whether the panel shows a marked item: the telling pixel lies in the
    /// panel and has exactly the marker's colour.
    pub open spec fn shows_hoarfrost(&self, panel_image: &RgbImage) -> bool {
        &&& panel_image.holds(self.hoarfrost_x(), self.hoarfrost_y())
        &&& panel_image.pixel(self.hoarfrost_x(), self.hoarfrost_y()) == hoarfrost_marker()
    }

    /// Whether the panel shows a marked item.
    pub fn check_consecration_of_hoarfrost(&self, panel_image: &RgbImage) -> (marked: bool)
        requires
            panel_image.wf(),
        ensures
            marked == self.shows_hoarfrost(panel_image),
    {
        let x: i64 = self.level_rect.left as i64 - 10 - self.panel_rect.left as i64;
        let y: i64 = self.level_rect.top as i64 - 15 - self.panel_rect.top as i64;
        if x >= 0 && y >= 0 && x < panel_image.width() as i64 && y < panel_image.height() as i64 {
            let color = panel_image.get_pixel(x as u32, y as u32);
            color.r == 220 && color.g == 192 && color.b == 255
        } else {
            false
        }
    }

    /// Distance between the left edges of two neighbouring cells.
    pub open spec fn pitch_x(&self) -> int {
        self.item_gap_size.width + self.item_size.width
    }

    /// Distance between the top edges of two neighbouring cells.
    pub open spec fn pitch_y(&self) -> int {
        self.item_gap_size.height + self.item_size.height
    }

    /// Whether the row `r` of the list starts below the list frame, so that
    /// it and the rows after it are not sampled.
    pub open spec fn row_is_out(&self, list_image: &RgbImage, r: int) -> bool {
        pixel_index(self.pitch_y() * r) > list_image.spec_height()
    }

    /// The colour sampled for the cell at row `r`, column `c`, if the
    /// sampling point lies in the list frame.
    pub open spec fn lock_sample(&self, list_image: &RgbImage, r: int, c: int) -> Option<Rgb> {
        let x = pixel_index(self.pitch_x() * c + self.lock_pos.x);
        let y = pixel_index(self.pitch_y() * r + self.lock_pos.y);
        if list_image.holds(x, y) {
            Some(list_image.pixel(x, y))
        } else {
            None
        }
    }

    /// How many rows are sampled: all rows before the first that is out.
    pub open spec fn rows_sampled(&self, list_image: &RgbImage, upto: int) -> int
        decreases upto,
    {
        if upto <= 0 {
            0
        } else {
            let before = self.rows_sampled(list_image, upto - 1);
            if before == upto - 1 && !self.row_is_out(list_image, upto - 1) {
                upto
            } else {
                before
            }
        }
    }

    /// Whether the cell at row `r`, column `c` shows as locked: its sampling
    /// point lies in the frame and the colour there is close to the lock
    /// marker.
    pub open spec fn shows_locked(&self, list_image: &RgbImage, r: int, c: int) -> bool {
        match self.lock_sample(list_image, r, c) {
            Some(color) => color_distance_spec(color, lock_marker()) < LOCK_DISTANCE_LIMIT,
            None => false,
        }
    }

    /// The flags of the cells before row `r`, column `c`, in reading order:
    /// one for each cell, so that a cell's flag stands at the cell's number.
    pub open spec fn flags_before(&self, list_image: &RgbImage, r: int, c: int) -> Seq<bool>
        decreases r, c,
    {
        if c > 0 {
            self.flags_before(list_image, r, c - 1).push(self.shows_locked(list_image, r, c - 1))
        } else if r > 0 && self.col > 0 {
            self.flags_before(list_image, r - 1, self.col as int)
        } else if r > 0 {
            self.flags_before(list_image, r - 1, 0)
        } else {
            Seq::empty()
        }
    }

    /// The lock flags read off one page of the list: one flag for each cell
    /// of the rows sampled, in reading order. A cell whose sampling point
    /// lies outside the frame counts as not locked.
    pub open spec fn page_locks(&self, list_image: &RgbImage) -> Seq<bool> {
        self.flags_before(list_image, self.rows_sampled(list_image, self.row as int), 0)
    }

    /// Reads the lock flags off one page of the list.
    pub fn get_page_locks_optimized(&self, list_image: &RgbImage) -> (locks: Vec<bool>)
        requires
            list_image.wf(),
        ensures
            locks@ == self.page_locks(list_image),
    {
        let pitch_x: i64 = self.item_gap_size.width as i64 + self.item_size.width as i64;
        let pitch_y: i64 = self.item_gap_size.height as i64 + self.item_size.height as i64;
        let target = Rgb { r: 255, g: 138, b: 117 };
        let mut locks: Vec<bool> = Vec::new();
        let mut r: i32 = 0;
        while r < self.row
            invariant_except_break
                self.rows_sampled(list_image, r as int) == r,
                locks@ == self.flags_before(list_image, r as int, 0),
            invariant
                0 <= r,
                r <= self.row || r == 0,
                list_image.wf(),
                pitch_x == self.pitch_x(),
                pitch_y == self.pitch_y(),
                target == lock_marker(),
            ensures
                locks@ == self.flags_before(
                    list_image,
                    self.rows_sampled(list_image, self.row as int),
                    0,
                ),
            decreases self.row - r,
        {
            if pixel_index_exec(pitch_times(pitch_y, r)) > list_image.height() {
                proof {
                    self.lemma_rows_sampled_stops(list_image, r as int, self.row as int);
                }
                break ;
            }
            let mut c: i32 = 0;
            while c < self.col
                invariant
                    0 <= c,
                    c <= self.col || c == 0,
                    0 <= r < self.row,
                    list_image.wf(),
                    pitch_x == self.pitch_x(),
                    pitch_y == self.pitch_y(),
                    target == lock_marker(),
                    locks@ == self.flags_before(list_image, r as int, c as int),
                decreases self.col - c,
            {
                let x = pixel_index_exec(pitch_times(pitch_x, c) + self.lock_pos.x as i64);
                let y = pixel_index_exec(pitch_times(pitch_y, r) + self.lock_pos.y as i64);
                if x < list_image.width() && y < list_image.height() {
                    let color = list_image.get_pixel(x, y);
                    locks.push(color_distance(&color, &target) < LOCK_DISTANCE_LIMIT);
                } else {
                    locks.push(false);
                }
                c = c + 1;
            }
            assert(locks@ == self.flags_before(list_image, r + 1, 0));
            r = r + 1;
        }
        locks
    }

    /// Once a row is out, no later row is sampled.
    pub proof fn lemma_rows_sampled_stops(&self, list_image: &RgbImage, r: int, upto: int)
        requires
            0 <= r < upto,
            self.rows_sampled(list_image, r) == r,
            self.row_is_out(list_image, r),
        ensures
            self.rows_sampled(list_image, upto) == r,
        decreases upto - r,
    {
        if upto > r + 1 {
            self.lemma_rows_sampled_stops(list_image, r, upto - 1);
        }
    }
}

/// What recognition gave for each field of one item: a text, or why there is
/// none.
#[derive(Debug)]
pub struct RecognizedFields {
    pub title: Result<String, String>,
    pub main_stat_name: Result<String, String>,
    pub main_stat_value: Result<String, String>,
    pub level: Result<String, String>,
    pub equip: Result<String, String>,
    pub sub_stat_1: Result<String, String>,
    pub sub_stat_2: Result<String, String>,
    pub sub_stat_3: Result<String, String>,
    pub sub_stat_4: Result<String, String>,
}

/// The recognised text, or `fallback` where recognition failed.
pub open spec fn text_or(outcome: Result<String, String>, fallback: Seq<char>) -> Seq<char> {
    match outcome {
        Ok(text) => text@,
        Err(_) => fallback,
    }
}

/// The failure recorded for a field that was not recognised: none where it
/// was.
pub open spec fn ocr_failure_texts(outcome: Result<String, String>, field: Seq<char>) -> Seq<
    Seq<char>,
> {
    match outcome {
        Ok(_) => Seq::empty(),
        Err(why) => seq![ocr_failure_text(field, Seq::empty(), why@)],
    }
}

/// The penalty for a field that was not recognised: none where it was.
pub open spec fn ocr_failure_factors(outcome: Result<String, String>) -> Seq<nat> {
    match outcome {
        Ok(_) => Seq::empty(),
        Err(_) => seq![800_000nat],
    }
}

/// The level that a level text gives: nought where it is no level.
pub open spec fn level_or_zero(level_text: Seq<char>) -> int {
    match parse_level_spec(level_text) {
        Ok(v) => v,
        Err(_) => 0,
    }
}

/// The failure recorded for a level text that is no level: none where it is
/// one.
pub open spec fn level_failure_texts(level_text: Seq<char>) -> Seq<Seq<char>> {
    match parse_level_spec(level_text) {
        Ok(_) => Seq::empty(),
        Err(cause) => seq![
            level_failure_text(
                level_text,
                level_parse_message(level_part(level_text), has_plus(level_text), cause),
            ),
        ],
    }
}

/// The penalty for a level text that is no level: none where it is one.
pub open spec fn level_failure_factors(level_text: Seq<char>) -> Seq<nat> {
    match parse_level_spec(level_text) {
        Ok(_) => Seq::empty(),
        Err(_) => seq![900_000nat],
    }
}

/// The texts of a run of failures.
pub open spec fn messages_of(errors: Seq<ArtifactScanError>) -> Seq<Seq<char>> {
    Seq::new(errors.len(), |i: int| errors[i].message_text())
}

/// The penalties of a run of failures.
pub open spec fn penalties_of(errors: Seq<ArtifactScanError>) -> Seq<nat> {
    Seq::new(errors.len(), |i: int| penalty_ppm(&errors[i]))
}

impl RecognizedFields {
    /// The text that is read as the level: `0` where none was recognised.
    pub open spec fn level_text(&self) -> Seq<char> {
        text_or(self.level, "0"@)
    }

    /// The failures that the record carries, in order: one for each field
    /// that was not recognised, the primary fields first and the secondary
    /// stats after them, then one if the level text is no level.
    pub open spec fn failure_texts(&self) -> Seq<Seq<char>> {
        ocr_failure_texts(self.title, "圣遗物名称"@) + ocr_failure_texts(
            self.main_stat_name,
            "主属性名称"@,
        ) + ocr_failure_texts(self.main_stat_value, "主属性数值"@) + ocr_failure_texts(
            self.level,
            "等级"@,
        ) + ocr_failure_texts(self.equip, "装备状态"@) + ocr_failure_texts(
            self.sub_stat_1,
            "副属性1"@,
        ) + ocr_failure_texts(self.sub_stat_2, "副属性2"@) + ocr_failure_texts(
            self.sub_stat_3,
            "副属性3"@,
        ) + ocr_failure_texts(self.sub_stat_4, "副属性4"@) + level_failure_texts(
            self.level_text(),
        )
    }

    /// The penalties that go with `failure_texts`, in the same order.
    pub open spec fn failure_factors(&self) -> Seq<nat> {
        ocr_failure_factors(self.title) + ocr_failure_factors(self.main_stat_name)
            + ocr_failure_factors(self.main_stat_value) + ocr_failure_factors(self.level)
            + ocr_failure_factors(self.equip) + ocr_failure_factors(self.sub_stat_1)
            + ocr_failure_factors(self.sub_stat_2) + ocr_failure_factors(self.sub_stat_3)
            + ocr_failure_factors(self.sub_stat_4) + level_failure_factors(self.level_text())
    }

    /// The content of the record: each recognised text, or its stand-in
    /// where recognition failed; the secondary stats mended; the level read
    /// off the level text, nought where it is no level.
    pub open spec fn content(
        &self,
        is_hoarfrost: bool,
        window_size: (u32, u32),
        star: i32,
        lock: bool,
    ) -> ScanContent {
        ScanContent {
            name: text_or(self.title, "未识别"@),
            main_stat_name: text_or(self.main_stat_name, "未识别"@),
            main_stat_value: text_or(self.main_stat_value, "0"@),
            sub_stat: seq![
                fixed_text(text_or(self.sub_stat_1, Seq::empty()), is_hoarfrost, window_size),
                fixed_text(text_or(self.sub_stat_2, Seq::empty()), is_hoarfrost, window_size),
                fixed_text(text_or(self.sub_stat_3, Seq::empty()), is_hoarfrost, window_size),
                fixed_text(text_or(self.sub_stat_4, Seq::empty()), is_hoarfrost, window_size),
            ],
            equip: text_or(self.equip, Seq::empty()),
            level: level_or_zero(self.level_text()),
            star: star as int,
            lock,
        }
    }
}

/// The recognised text of a field, or `fallback` and a recorded failure
/// where recognition failed.
fn take_or_report(
    outcome: Result<String, String>,
    field: &str,
    fallback: &str,
    errors: &mut Vec<ArtifactScanError>,
) -> (text: String)
    ensures
        text@ == text_or(outcome, fallback@),
        messages_of(final(errors)@) == messages_of(old(errors)@) + ocr_failure_texts(
            outcome,
            field@,
        ),
        penalties_of(final(errors)@) == penalties_of(old(errors)@) + ocr_failure_factors(outcome),
{
    match outcome {
        Ok(text) => {
            assert(messages_of(errors@) + Seq::<Seq<char>>::empty() =~= messages_of(errors@));
            assert(penalties_of(errors@) + Seq::<nat>::empty() =~= penalties_of(errors@));
            text
        },
        Err(why) => {
            let error = ArtifactScanError::OcrRecognitionFailed {
                field: field.to_owned(),
                raw_text: String::new(),
                error_msg: why,
            };
            errors.push(error);
            assert(messages_of(errors@) =~= messages_of(old(errors)@) + ocr_failure_texts(
                outcome,
                field@,
            ));
            assert(penalties_of(errors@) =~= penalties_of(old(errors)@) + ocr_failure_factors(
                outcome,
            ));
            fallback.to_owned()
        },
    }
}

/// Records every failure of `errors` in `result`, in order.
pub fn add_all_errors(result: &mut GenshinArtifactScanResult, errors: &Vec<ArtifactScanError>)
    ensures
        final(result).content() == old(result).content(),
        final(result).error_texts() == old(result).error_texts() + messages_of(errors@),
        final(result).confidence_ppm == penalised_by_all(
            old(result).confidence_ppm as nat,
            penalties_of(errors@),
        ),
        final(result).confidence_ppm <= old(result).confidence_ppm,
{
    let mut i: usize = 0;
    assert(old(result).error_texts() + messages_of(errors@).subrange(0, 0) =~= old(
        result,
    ).error_texts());
    assert(penalties_of(errors@).subrange(0, 0) =~= Seq::<nat>::empty());
    while i < errors.len()
        invariant
            i <= errors@.len(),
            result.content() == old(result).content(),
            result.error_texts() == old(result).error_texts() + messages_of(errors@).subrange(
                0,
                i as int,
            ),
            result.confidence_ppm == penalised_by_all(
                old(result).confidence_ppm as nat,
                penalties_of(errors@).subrange(0, i as int),
            ),
            result.confidence_ppm <= old(result).confidence_ppm,
        decreases errors@.len() - i,
    {
        let ghost before = result.error_texts();
        result.add_error(&errors[i]);
        proof {
            let texts = messages_of(errors@);
            let factors = penalties_of(errors@);
            assert(texts.subrange(0, i + 1) =~= texts.subrange(0, i as int).push(texts[i as int]));
            assert(old(result).error_texts() + texts.subrange(0, i + 1) =~= before.push(
                errors@[i as int].message_text(),
            ));
            assert(factors.subrange(0, i + 1).drop_last() =~= factors.subrange(0, i as int));
            assert(factors.subrange(0, i + 1).last() == penalty_ppm(&errors@[i as int]));
        }
        i = i + 1;
    }
    assert(messages_of(errors@).subrange(0, errors@.len() as int) =~= messages_of(errors@));
    assert(penalties_of(errors@).subrange(0, errors@.len() as int) =~= penalties_of(errors@));
}

/// Builds the record of one item from what recognition gave. A field that
/// was not recognised gets its stand-in and a recorded failure; a level text
/// that is no level gives level nought and a recorded failure. Each failure
/// costs confidence.
pub fn assemble_scan_result(
    fields: RecognizedFields,
    is_hoarfrost: bool,
    window_size: (u32, u32),
    star: i32,
    lock: bool,
) -> (result: GenshinArtifactScanResult)
    ensures
        result.content() == fields.content(is_hoarfrost, window_size, star, lock),
        result.error_texts() == fields.failure_texts(),
        result.confidence_ppm == penalised_by_all(PPM as nat, fields.failure_factors()),
        result.wf(),
{
    let mut errors: Vec<ArtifactScanError> = Vec::new();
    assert(messages_of(errors@) =~= Seq::<Seq<char>>::empty());
    assert(penalties_of(errors@) =~= Seq::<nat>::empty());
    let RecognizedFields {
        title,
        main_stat_name,
        main_stat_value,
        level,
        equip,
        sub_stat_1,
        sub_stat_2,
        sub_stat_3,
        sub_stat_4,
    } = fields;
    proof {
        reveal_strlit("0");
    }
    let str_title = take_or_report(title, "圣遗物名称", "未识别", &mut errors);
    let str_main_stat_name = take_or_report(main_stat_name, "主属性名称", "未识别", &mut errors);
    let str_main_stat_value = take_or_report(main_stat_value, "主属性数值", "0", &mut errors);
    let str_level = take_or_report(level, "等级", "0", &mut errors);
    proof {
        reveal_strlit("");
        assert(""@ =~= Seq::<char>::empty());
    }
    let str_equip = take_or_report(equip, "装备状态", "", &mut errors);
    let raw_sub_stat0 = take_or_report(sub_stat_1, "副属性1", "", &mut errors);
    let raw_sub_stat1 = take_or_report(sub_stat_2, "副属性2", "", &mut errors);
    let raw_sub_stat2 = take_or_report(sub_stat_3, "副属性3", "", &mut errors);
    let raw_sub_stat3 = take_or_report(sub_stat_4, "副属性4", "", &mut errors);
    let str_sub_stat0 = fix_hoarfrost_ocr_text(raw_sub_stat0.as_str(), is_hoarfrost, window_size);
    let str_sub_stat1 = fix_hoarfrost_ocr_text(raw_sub_stat1.as_str(), is_hoarfrost, window_size);
    let str_sub_stat2 = fix_hoarfrost_ocr_text(raw_sub_stat2.as_str(), is_hoarfrost, window_size);
    let str_sub_stat3 = fix_hoarfrost_ocr_text(raw_sub_stat3.as_str(), is_hoarfrost, window_size);
    let ghost ocr_texts = messages_of(errors@);
    let ghost ocr_factors = penalties_of(errors@);
    let level_value = match parse_level(str_level.as_str()) {
        Ok(v) => v,
        Err(e) => {
            let error = ArtifactScanError::LevelParsingFailed {
                raw_text: str_level.clone(),
                error_msg: e.message(),
            };
            errors.push(error);
            0
        },
    };
    proof {
        assert(messages_of(errors@) =~= ocr_texts + level_failure_texts(str_level@));
        assert(penalties_of(errors@) =~= ocr_factors + level_failure_factors(str_level@));
        assert(messages_of(errors@) =~= fields.failure_texts());
        assert(penalties_of(errors@) =~= fields.failure_factors());
    }
    let mut result = GenshinArtifactScanResult::new(
        str_title,
        str_main_stat_name,
        str_main_stat_value,
        [str_sub_stat0, str_sub_stat1, str_sub_stat2, str_sub_stat3],
        str_equip,
        level_value,
        star,
        lock,
    );
    assert(result.error_texts() =~= Seq::<Seq<char>>::empty());
    assert(result.content().sub_stat =~= fields.content(
        is_hoarfrost,
        window_size,
        star,
        lock,
    ).sub_stat);
    add_all_errors(&mut result, &errors);
    assert(result.error_texts() =~= fields.failure_texts());
    result
}

/// Why the worker takes no further item.
#[derive(Debug, Clone, Copy, PartialEq, Eq, Structural)]
pub enum StopReason {
    /// An item below the least level came up.
    LevelBelowMinimum,
    /// As many duplicates as a row holds came up in a row.
    DuplicateStreak,
}

/// What the worker does after an item.
#[derive(Debug, Clone, Copy, PartialEq, Eq, Structural)]
pub enum WorkerStep {
    /// Wait for `delay_ms` milliseconds, then take the next item.
    Continue { delay_ms: u32 },
    /// Take no further item.
    Stop(StopReason),
}

/// Whether a record with the content `content` is among `results`.
pub open spec fn seen_before(results: Seq<GenshinArtifactScanResult>, content: ScanContent) -> bool {
    exists|i: int| 0 <= i < results.len() && (#[trigger] results[i]).content() == content
}

/// Whether no two records of `results` have the same content.
pub open spec fn all_distinct(results: Seq<GenshinArtifactScanResult>) -> bool {
    forall|i: int, j: int|
        0 <= i < j < results.len() ==> (#[trigger] results[i]).content() != (
        #[trigger] results[j]).content()
}

/// How many duplicates in a row end the scan: the number of columns.
pub open spec fn streak_limit(col: i32) -> nat {
    if col < 0 {
        usize::MAX as nat
    } else {
        col as nat
    }
}

/// Whether `outcome` is what `model` gives for the part of `image` that
/// `region` covers, handed over as it is, not preprocessed.
pub open spec fn read_from<R: ImageToText>(
    model: R,
    image: RgbImage,
    region: Rect<i64>,
    outcome: Result<String, String>,
) -> bool {
    exists|frame: RgbImage|
        is_crop_of(frame, image, region) && #[trigger] model.reads(frame, false, outcome)
}

impl ArtifactScannerWindowInfo {
    /// How far down the level and the secondary stats stand on `panel_image`:
    /// by the height of the mark where the panel shows a marked item.
    pub open spec fn shift_on(&self, panel_image: &RgbImage) -> int {
        if self.shows_hoarfrost(panel_image) {
            self.hoarfrost_offset.height as int
        } else {
            0
        }
    }
}

impl RecognizedFields {
    /// Whether the fields are what `model` gives for the nine regions of the
    /// panel `image`: title, main stat and equip state where the geometry
    /// has them, the level and the four secondary stats moved down where the
    /// panel shows a marked item.
    pub open spec fn read_by<R: ImageToText>(
        &self,
        model: R,
        info: ArtifactScannerWindowInfo,
        image: RgbImage,
    ) -> bool {
        let shift = info.shift_on(&image);
        &&& read_from(model, image, panel_region(info.title_rect, info.panel_rect, 0), self.title)
        &&& read_from(
            model,
            image,
            panel_region(info.main_stat_name_rect, info.panel_rect, 0),
            self.main_stat_name,
        )
        &&& read_from(
            model,
            image,
            panel_region(info.main_stat_value_rect, info.panel_rect, 0),
            self.main_stat_value,
        )
        &&& read_from(model, image, panel_region(info.level_rect, info.panel_rect, shift), self.level)
        &&& read_from(
            model,
            image,
            panel_region(info.item_equip_rect, info.panel_rect, 0),
            self.equip,
        )
        &&& read_from(model, image, panel_region(info.sub_stat_1, info.panel_rect, shift), self.sub_stat_1)
        &&& read_from(model, image, panel_region(info.sub_stat_2, info.panel_rect, shift), self.sub_stat_2)
        &&& read_from(model, image, panel_region(info.sub_stat_3, info.panel_rect, shift), self.sub_stat_3)
        &&& read_from(model, image, panel_region(info.sub_stat_4, info.panel_rect, shift), self.sub_stat_4)
    }
}

/// Whether `result` is the record of `item` as `model` reads it: the record
/// that `assemble_scan_result` builds from the fields that the model gives
/// for the nine regions of the item's panel.
pub open spec fn scanned_as<R: ImageToText>(
    result: GenshinArtifactScanResult,
    model: R,
    info: ArtifactScannerWindowInfo,
    window_size: (u32, u32),
    item: SendItem,
    lock: bool,
) -> bool {
    exists|fields: RecognizedFields|
        {
            &&& #[trigger] fields.read_by(model, info, item.panel_image)
            &&& result.content() == fields.content(
                info.shows_hoarfrost(&item.panel_image),
                window_size,
                item.star as i32,
                lock,
            )
            &&& result.error_texts() == fields.failure_texts()
            &&& result.confidence_ppm == penalised_by_all(PPM as nat, fields.failure_factors())
            &&& result.wf()
        }
}

/// The records kept after `result` was taken in: `result` joins them if it
/// has the least level and its content is new.
pub open spec fn results_after(
    min_level: i32,
    results: Seq<GenshinArtifactScanResult>,
    result: GenshinArtifactScanResult,
) -> Seq<GenshinArtifactScanResult> {
    if result.level >= min_level && !seen_before(results, result.content()) {
        results.push(result)
    } else {
        results
    }
}

/// The run of duplicates after `result` was taken in: unchanged by a record
/// below the least level, one longer after a record seen before, over after
/// a new record.
pub open spec fn streak_after(
    min_level: i32,
    results: Seq<GenshinArtifactScanResult>,
    streak: usize,
    result: GenshinArtifactScanResult,
) -> usize {
    if result.level < min_level {
        streak
    } else if seen_before(results, result.content()) {
        (streak + 1) as usize
    } else {
        0
    }
}

/// The counts after `result` was taken in: a record of the least level that
/// was seen before counts as a failure.
pub open spec fn stats_after(
    min_level: i32,
    results: Seq<GenshinArtifactScanResult>,
    stats: ErrorStatistics,
    result: GenshinArtifactScanResult,
) -> ErrorStatistics {
    if result.level >= min_level && seen_before(results, result.content()) {
        with_duplicate(stats)
    } else {
        stats
    }
}

/// How the worker goes on after a record of level `level`, with the run of
/// duplicates at `streak`: a record below the least level ends the scan, and
/// so does a run as long as a row has columns unless duplicates are let
/// pass; else the next item is due after `delay_ms`.
pub open spec fn step_after(
    config: GenshinArtifactScannerConfig,
    col: i32,
    level: i32,
    streak: usize,
    delay_ms: u32,
) -> WorkerStep {
    if level < config.min_level {
        WorkerStep::Stop(StopReason::LevelBelowMinimum)
    } else if streak >= streak_limit(col) && !config.ignore_dup {
        WorkerStep::Stop(StopReason::DuplicateStreak)
    } else {
        WorkerStep::Continue { delay_ms }
    }
}

/// Whether `after` is `before` with the times of `reads` more recognitions
/// recorded, whatever they took, and with no capture recorded: the batch of
/// the primary fields counts as one recognition.
pub open spec fn timed_reads(before: PerformanceMonitor, after: PerformanceMonitor, reads: nat) -> bool {
    &&& after.capture_times() == before.capture_times()
    &&& exists|times: Seq<u64>|
        #![trigger times.len()]
        times.len() == reads && after.ocr_times() == before.ocr_times() + times
}

/// The counts after one more scan was counted.
pub open spec fn with_scan(stats: ErrorStatistics) -> ErrorStatistics {
    ErrorStatistics { successful_scans: (stats.successful_scans + 1) as usize, ..stats }
}

/// The counts after one more duplicate was met.
pub open spec fn with_duplicate(stats: ErrorStatistics) -> ErrorStatistics {
    ErrorStatistics {
        total_errors: (stats.total_errors + 1) as usize,
        duplicate_items: (stats.duplicate_items + 1) as usize,
        ..stats
    }
}

/// A rectangle of the window, as seen from the panel's corner, and moved
/// down by `shift`.
pub open spec fn panel_region(rect: Rect<i32>, panel: Rect<i32>, shift: int) -> Rect<i64> {
    Rect {
        left: (rect.left - panel.left) as i64,
        top: (rect.top + shift - panel.top) as i64,
        width: rect.width as i64,
        height: rect.height as i64,
    }
}

fn panel_region_exec(rect: &Rect<i32>, panel: &Rect<i32>, shift: i32) -> (region: Rect<i64>)
    ensures
        region == panel_region(*rect, *panel, shift as int),
{
    Rect {
        left: rect.left as i64 - panel.left as i64,
        top: rect.top as i64 + shift as i64 - panel.top as i64,
        width: rect.width as i64,
        height: rect.height as i64,
    }
}

fn clamp_nanos(nanos: u128) -> (clamped: u64)
    ensures
        clamped == if nanos > u64::MAX {
            u64::MAX as int
        } else {
            nanos as int
        },
{
    if nanos > u64::MAX as u128 {
        u64::MAX
    } else {
        nanos as u64
    }
}

fn take_last(outcomes: &mut Vec<Result<String, String>>) -> (outcome: Result<String, String>)
    ensures
        old(outcomes)@.len() > 0 ==> outcome == old(outcomes)@.last() && final(outcomes)@ == old(
            outcomes,
        )@.drop_last(),
{
    match outcomes.pop() {
        Some(outcome) => outcome,
        None => Err(String::new()),
    }
}

/// Turns the items that the controller hands over into records, and keeps
/// the records that are new.
pub struct ArtifactScannerWorker<R: ImageToText> {
    ocr_recognizer: OptimizedOCRRecognizer<R>,
    window_info: ArtifactScannerWindowInfo,
    config: GenshinArtifactScannerConfig,
    error_stats: ErrorStatistics,
    performance_monitor: PerformanceMonitor,
    adaptive_delay: AdaptiveDelayManager,
    window_size: (u32, u32),
    results: Vec<GenshinArtifactScanResult>,
    consecutive_dup_count: usize,
    locks: Vec<bool>,
    artifact_index: i32,
}

impl<R: ImageToText> ArtifactScannerWorker<R> {
    /// The records kept so far, in the order in which they came.
    pub closed spec fn results(&self) -> Seq<GenshinArtifactScanResult> {
        self.results@
    }

    /// How many duplicates came up in a row, up to now.
    pub closed spec fn consecutive_dup_count(&self) -> usize {
        self.consecutive_dup_count
    }

    /// The lock flags of all pages seen so far.
    pub closed spec fn locks(&self) -> Seq<bool> {
        self.locks@
    }

    /// How many items were taken.
    pub closed spec fn artifact_index(&self) -> i32 {
        self.artifact_index
    }

    /// The counts of successes and failures.
    pub closed spec fn error_stats(&self) -> ErrorStatistics {
        self.error_stats
    }

    /// What the user asked of the scan.
    pub closed spec fn config(&self) -> GenshinArtifactScannerConfig {
        self.config
    }

    /// The geometry of the window.
    pub closed spec fn window_info(&self) -> ArtifactScannerWindowInfo {
        self.window_info
    }

    /// The size of the window, width first.
    pub closed spec fn window_size(&self) -> (u32, u32) {
        self.window_size
    }

    /// The state of the pacing.
    pub closed spec fn delay_state(&self) -> DelayState {
        self.adaptive_delay.state()
    }

    /// The model that the worker reads through.
    pub closed spec fn model(&self) -> R {
        self.ocr_recognizer.model()
    }

    /// The record of the times that recognition took.
    pub closed spec fn monitor(&self) -> PerformanceMonitor {
        self.performance_monitor
    }

    /// Whether the worker's state hangs together: no record is kept twice,
    /// every record's confidence is in range, and the counts agree.
    pub open spec fn wf(&self) -> bool {
        &&& all_distinct(self.results())
        &&& forall|i: int| 0 <= i < self.results().len() ==> (#[trigger] self.results()[i]).wf()
        &&& forall|i: int|
            0 <= i < self.results().len() ==> (#[trigger] self.results()[i]).level
                >= self.config().min_level
        &&& self.error_stats().consistent()
        &&& self.artifact_index() >= 0
        &&& self.delay_state().in_range()
    }

    /// Whether every counter can count one more item.
    pub open spec fn has_room(&self) -> bool {
        &&& self.artifact_index() < i32::MAX
        &&& self.consecutive_dup_count() < usize::MAX
        &&& self.error_stats().total_errors < usize::MAX
        &&& self.error_stats().successful_scans < usize::MAX
        &&& self.delay_state().success_count < u32::MAX
        &&& self.delay_state().failure_count < u32::MAX
    }

    /// A worker that has taken no item yet. The pacing starts at ten
    /// milliseconds.
    pub fn new(
        model: R,
        window_info: ArtifactScannerWindowInfo,
        config: GenshinArtifactScannerConfig,
        window_size: (u32, u32),
    ) -> (worker: ArtifactScannerWorker<R>)
        ensures
            worker.wf(),
            worker.has_room(),
            worker.results().len() == 0,
            worker.consecutive_dup_count() == 0,
            worker.locks().len() == 0,
            worker.artifact_index() == 0,
            worker.error_stats() == ErrorStatistics::zero(),
            worker.config() == config,
            worker.window_info() == window_info,
            worker.window_size() == window_size,
            worker.model() == model,
            worker.monitor().ocr_times().len() == 0,
            worker.monitor().capture_times().len() == 0,
            worker.delay_state() == (DelayState {
                base_delay: 10,
                current_delay: 10,
                success_count: 0,
                failure_count: 0,
            }),
    {
        ArtifactScannerWorker {
            ocr_recognizer: OptimizedOCRRecognizer::new(model),
            window_info,
            config,
            error_stats: ErrorStatistics::new(),
            performance_monitor: PerformanceMonitor::new(),
            adaptive_delay: AdaptiveDelayManager::new(10),
            window_size,
            results: Vec::new(),
            consecutive_dup_count: 0,
            locks: Vec::new(),
            artifact_index: 0,
        }
    }

    /// Whether every counter can count one more item.
    pub fn check_room(&self) -> (room: bool)
        ensures
            room == self.has_room(),
    {
        let delays = self.adaptive_delay.get_state();
        self.artifact_index < i32::MAX && self.consecutive_dup_count < usize::MAX
            && self.error_stats.total_errors < usize::MAX && self.error_stats.successful_scans
            < usize::MAX && delays.success_count < u32::MAX && delays.failure_count < u32::MAX
    }

    /// The counts of successes and failures.
    pub fn get_error_stats(&self) -> (stats: ErrorStatistics)
        ensures
            stats == self.error_stats(),
    {
        self.error_stats
    }

    /// How many records are kept.
    pub fn result_count(&self) -> (count: usize)
        ensures
            count == self.results().len(),
    {
        self.results.len()
    }

    /// How many duplicates came up in a row, up to now.
    pub fn get_consecutive_dup_count(&self) -> (count: usize)
        ensures
            count == self.consecutive_dup_count(),
    {
        self.consecutive_dup_count
    }

    /// The report of the times that recognition took, as of now: the
    /// monitor's report for the running time that the clock gives.
    pub fn get_performance_summary(&self) -> (text: String)
        ensures
            exists|total_nanos: u64| text@ == #[trigger] self.monitor().summary_text(total_nanos),
    {
        let text = self.performance_monitor.get_performance_summary();
        proof {
            let total_nanos = choose|total_nanos: u64|
                text@ == #[trigger] self.performance_monitor.summary_text(total_nanos);
            assert(text@ == self.monitor().summary_text(total_nanos));
        }
        text
    }

    /// Ends the run: the records kept, in the order in which they came, no
    /// two of them with the same content, each of the least level or more.
    pub fn finish(self) -> (results: Vec<GenshinArtifactScanResult>)
        requires
            self.wf(),
        ensures
            results@ == self.results(),
            all_distinct(results@),
            forall|i: int|
                0 <= i < results@.len() ==> (#[trigger] results@[i]).level >= self.config().min_level,
    {
        self.results
    }

    fn crop_region(&self, image: &RgbImage, rect: &Rect<i32>, shift: i32) -> (cropped: RgbImage)
        requires
            image.wf(),
        ensures
            cropped.wf(),
            is_crop_of(cropped, *image, panel_region(*rect, self.window_info().panel_rect, shift as int)),
    {
        let region = panel_region_exec(rect, &self.window_info.panel_rect, shift);
        OptimizedImageProcessor::crop_optimized(image, &region)
    }

    /// Reads one region of the panel, and records how long that took: the
    /// outcome is what the model gives for the part of `image` that `rect`
    /// covers, taken relative to the panel and moved down by `shift`.
    fn model_inference_optimized(&mut self, rect: &Rect<i32>, shift: i32, image: &RgbImage) -> (text:
        Result<String, String>)
        requires
            image.wf(),
        ensures
            read_from(
                old(self).model(),
                *image,
                panel_region(*rect, old(self).window_info().panel_rect, shift as int),
                text,
            ),
            exists|taken: u64|
                final(self).monitor().ocr_times() == #[trigger] old(self).monitor().ocr_times().push(
                    taken,
                ),
            final(self).monitor().capture_times() == old(self).monitor().capture_times(),
            final(self).model() == old(self).model(),
            final(self).results() == old(self).results(),
            final(self).consecutive_dup_count() == old(self).consecutive_dup_count(),
            final(self).locks() == old(self).locks(),
            final(self).artifact_index() == old(self).artifact_index(),
            final(self).error_stats() == old(self).error_stats(),
            final(self).config() == old(self).config(),
            final(self).window_info() == old(self).window_info(),
            final(self).window_size() == old(self).window_size(),
            final(self).delay_state() == old(self).delay_state(),
    {
        let start = now();
        let cropped = self.crop_region(image, rect, shift);
        let text = self.ocr_recognizer.recognize(&cropped);
        let taken = clamp_nanos(elapsed_nanos(&start));
        self.performance_monitor.record_ocr_time(taken);
        assert(old(self).model().reads(cropped, false, text));
        assert(self.monitor().ocr_times() == old(self).monitor().ocr_times().push(taken));
        text
    }

    /// Reads the five primary regions of the panel in one batch, and records
    /// how long the batch took: title, main stat name, main stat value, level
    /// and equip state, in this order, the level moved down by `level_shift`.
    fn batch_model_inference(&mut self, level_shift: i32, image: &RgbImage) -> (texts: Vec<
        Result<String, String>,
    >)
        requires
            image.wf(),
        ensures
            texts@.len() == 5,
            read_from(
                old(self).model(),
                *image,
                panel_region(old(self).window_info().title_rect, old(self).window_info().panel_rect, 0),
                texts@[0],
            ),
            read_from(
                old(self).model(),
                *image,
                panel_region(
                    old(self).window_info().main_stat_name_rect,
                    old(self).window_info().panel_rect,
                    0,
                ),
                texts@[1],
            ),
            read_from(
                old(self).model(),
                *image,
                panel_region(
                    old(self).window_info().main_stat_value_rect,
                    old(self).window_info().panel_rect,
                    0,
                ),
                texts@[2],
            ),
            read_from(
                old(self).model(),
                *image,
                panel_region(
                    old(self).window_info().level_rect,
                    old(self).window_info().panel_rect,
                    level_shift as int,
                ),
                texts@[3],
            ),
            read_from(
                old(self).model(),
                *image,
                panel_region(
                    old(self).window_info().item_equip_rect,
                    old(self).window_info().panel_rect,
                    0,
                ),
                texts@[4],
            ),
            final(self).model() == old(self).model(),
            exists|taken: u64|
                final(self).monitor().ocr_times() == #[trigger] old(self).monitor().ocr_times().push(
                    taken,
                ),
            final(self).monitor().capture_times() == old(self).monitor().capture_times(),
            final(self).results() == old(self).results(),
            final(self).consecutive_dup_count() == old(self).consecutive_dup_count(),
            final(self).locks() == old(self).locks(),
            final(self).artifact_index() == old(self).artifact_index(),
            final(self).error_stats() == old(self).error_stats(),
            final(self).config() == old(self).config(),
            final(self).window_info() == old(self).window_info(),
            final(self).window_size() == old(self).window_size(),
            final(self).delay_state() == old(self).delay_state(),
    {
        let start = now();
        let mut crops: Vec<RgbImage> = Vec::new();
        crops.push(self.crop_region(image, &self.window_info.title_rect, 0));
        crops.push(self.crop_region(image, &self.window_info.main_stat_name_rect, 0));
        crops.push(self.crop_region(image, &self.window_info.main_stat_value_rect, 0));
        crops.push(self.crop_region(image, &self.window_info.level_rect, level_shift));
        crops.push(self.crop_region(image, &self.window_info.item_equip_rect, 0));
        let texts = self.ocr_recognizer.batch_recognize(&crops);
        let taken = clamp_nanos(elapsed_nanos(&start));
        self.performance_monitor.record_ocr_time(taken);
        proof {
            assert(old(self).model().reads(crops@[0], false, texts@[0]));
            assert(old(self).model().reads(crops@[1], false, texts@[1]));
            assert(old(self).model().reads(crops@[2], false, texts@[2]));
            assert(old(self).model().reads(crops@[3], false, texts@[3]));
            assert(old(self).model().reads(crops@[4], false, texts@[4]));
            assert(self.monitor().ocr_times() == old(self).monitor().ocr_times().push(taken));
        }
        texts
    }

    /// Scans one item: tells whether the panel has the shifted layout, reads
    /// the five primary fields in one batch and the four secondary fields one
    /// by one, and builds the record from what came back. The pacing counts a
    /// success if the record carries no failure, a failure otherwise.
    ///
    /// Whatever the recognizer gives, the record is the one that
    /// `assemble_scan_result` builds from it.
    pub fn scan_item_image_optimized(&mut self, item: &SendItem, lock: bool) -> (result:
        GenshinArtifactScanResult)
        requires
            item.wf(),
            old(self).delay_state().success_count < u32::MAX,
            old(self).delay_state().failure_count < u32::MAX,
        ensures
            scanned_as(
                result,
                old(self).model(),
                old(self).window_info(),
                old(self).window_size(),
                *item,
                lock,
            ),
            result.wf(),
            final(self).model() == old(self).model(),
            timed_reads(old(self).monitor(), final(self).monitor(), 5),
            result.lock == lock,
            result.star == item.star as i32,
            final(self).results() == old(self).results(),
            final(self).consecutive_dup_count() == old(self).consecutive_dup_count(),
            final(self).locks() == old(self).locks(),
            final(self).artifact_index() == old(self).artifact_index(),
            final(self).error_stats() == old(self).error_stats(),
            final(self).config() == old(self).config(),
            final(self).window_info() == old(self).window_info(),
            final(self).window_size() == old(self).window_size(),
            exists|elapsed_secs: u64, clean: bool|
                clean == (result.scan_errors@.len() == 0) && final(self).delay_state()
                    == #[trigger] old(self).delay_state().counted(clean).adjusted(elapsed_secs),
            final(self).delay_state().base_delay == old(self).delay_state().base_delay,
            old(self).delay_state().in_range() ==> final(self).delay_state().in_range(),
    {
        let image = &item.panel_image;
        let is_hoarfrost = self.window_info.check_consecration_of_hoarfrost(image);
        let shift: i32 = if is_hoarfrost {
            self.window_info.hoarfrost_offset.height
        } else {
            0
        };
        let ghost t0 = self.monitor().ocr_times();
        let mut primary = self.batch_model_inference(shift, image);
        let ghost t1 = self.monitor().ocr_times();
        let equip = take_last(&mut primary);
        let level = take_last(&mut primary);
        let main_stat_value = take_last(&mut primary);
        let main_stat_name = take_last(&mut primary);
        let title = take_last(&mut primary);
        let sub_stat_1_rect = self.window_info.sub_stat_1;
        let sub_stat_2_rect = self.window_info.sub_stat_2;
        let sub_stat_3_rect = self.window_info.sub_stat_3;
        let sub_stat_4_rect = self.window_info.sub_stat_4;
        let sub_stat_1 = self.model_inference_optimized(&sub_stat_1_rect, shift, image);
        let ghost t2 = self.monitor().ocr_times();
        let sub_stat_2 = self.model_inference_optimized(&sub_stat_2_rect, shift, image);
        let ghost t3 = self.monitor().ocr_times();
        let sub_stat_3 = self.model_inference_optimized(&sub_stat_3_rect, shift, image);
        let ghost t4 = self.monitor().ocr_times();
        let sub_stat_4 = self.model_inference_optimized(&sub_stat_4_rect, shift, image);
        proof {
            let t5 = self.monitor().ocr_times();
            let times = seq![t1.last(), t2.last(), t3.last(), t4.last(), t5.last()];
            assert(times.len() == 5);
            assert(t5 =~= t0 + times);
        }
        let fields = RecognizedFields {
            title,
            main_stat_name,
            main_stat_value,
            level,
            equip,
            sub_stat_1,
            sub_stat_2,
            sub_stat_3,
            sub_stat_4,
        };
        let star: i32 = if item.star > i32::MAX as usize {
            i32::MAX
        } else {
            item.star as i32
        };
        let ghost read = fields;
        assert(read.read_by(old(self).model(), old(self).window_info(), item.panel_image));
        let result = assemble_scan_result(fields, is_hoarfrost, self.window_size, star, lock);
        let ghost before = self.delay_state();
        if result.has_errors() {
            self.adaptive_delay.record_failure();
            proof {
                let e = choose|e: u64|
                    self.delay_state() == #[trigger] before.with_failure().adjusted(e);
                assert(self.delay_state() == before.counted(false).adjusted(e));
            }
        } else {
            self.adaptive_delay.record_success();
            proof {
                let e = choose|e: u64|
                    self.delay_state() == #[trigger] before.with_success().adjusted(e);
                assert(self.delay_state() == before.counted(true).adjusted(e));
            }
        }
        result
    }
}

/// The lock flag of the item with the running number `index`, counted from
/// one: the flag at that place, `false` where the flags do not reach it.
pub open spec fn lock_of(locks: Seq<bool>, index: int) -> bool {
    if 1 <= index <= locks.len() {
        locks[index - 1]
    } else {
        false
    }
}

impl<R: ImageToText> ArtifactScannerWorker<R> {
    /// Whether a record with the same content as `result` is kept already.
    pub fn is_duplicate(&self, result: &GenshinArtifactScanResult) -> (seen: bool)
        ensures
            seen == seen_before(self.results(), result.content()),
    {
        let mut i: usize = 0;
        while i < self.results.len()
            invariant
                i <= self.results@.len(),
                forall|k: int|
                    0 <= k < i ==> (#[trigger] self.results@[k]).content() != result.content(),
            decreases self.results@.len() - i,
        {
            if self.results[i].same_content(result) {
                return true;
            }
            i = i + 1;
        }
        false
    }

    /// Takes in the record of one item, and says how to go on.
    ///
    /// A record below the least level ends the scan and is not kept. A
    /// record whose content was seen before is not kept: it lengthens the
    /// run of duplicates and is counted as a failure. A new record is kept
    /// and ends the run of duplicates. The scan ends once the run is as long
    /// as a row has columns, unless duplicates are let pass.
    pub fn record_result(&mut self, result: GenshinArtifactScanResult) -> (step: WorkerStep)
        requires
            old(self).wf(),
            result.wf(),
            old(self).consecutive_dup_count() < usize::MAX,
            old(self).error_stats().total_errors < usize::MAX,
        ensures
            final(self).wf(),
            final(self).locks() == old(self).locks(),
            final(self).artifact_index() == old(self).artifact_index(),
            final(self).config() == old(self).config(),
            final(self).window_info() == old(self).window_info(),
            final(self).window_size() == old(self).window_size(),
            final(self).delay_state() == old(self).delay_state(),
            final(self).model() == old(self).model(),
            final(self).monitor() == old(self).monitor(),
            final(self).results() == results_after(
                old(self).config().min_level,
                old(self).results(),
                result,
            ),
            final(self).consecutive_dup_count() == streak_after(
                old(self).config().min_level,
                old(self).results(),
                old(self).consecutive_dup_count(),
                result,
            ),
            final(self).error_stats() == stats_after(
                old(self).config().min_level,
                old(self).results(),
                old(self).error_stats(),
                result,
            ),
            step == step_after(
                old(self).config(),
                old(self).window_info().col,
                result.level,
                final(self).consecutive_dup_count(),
                old(self).delay_state().current_delay,
            ),
    {
        if result.level < self.config.min_level {
            return WorkerStep::Stop(StopReason::LevelBelowMinimum);
        }
        let threshold: usize = if self.window_info.col < 0 {
            usize::MAX
        } else {
            self.window_info.col as usize
        };
        if self.is_duplicate(&result) {
            self.consecutive_dup_count += 1;
            let dup_error = ArtifactScanError::ConsecutiveDuplicateItems {
                count: self.consecutive_dup_count,
                threshold,
            };
            self.error_stats.add_error(&dup_error);
        } else {
            self.consecutive_dup_count = 0;
            self.results.push(result);
            proof {
                let kept = self.results();
                assert forall|i: int, j: int| 0 <= i < j < kept.len() implies (
                #[trigger] kept[i]).content() != (#[trigger] kept[j]).content() by {
                    if j == kept.len() - 1 {
                        assert(kept[i] == old(self).results()[i]);
                    } else {
                        assert(kept[i] == old(self).results()[i]);
                        assert(kept[j] == old(self).results()[j]);
                    }
                }
                assert forall|i: int| 0 <= i < kept.len() implies (#[trigger] kept[i]).wf() by {
                    if i < kept.len() - 1 {
                        assert(kept[i] == old(self).results()[i]);
                    }
                }
            }
        }
        if self.consecutive_dup_count >= threshold && !self.config.ignore_dup {
            return WorkerStep::Stop(StopReason::DuplicateStreak);
        }
        WorkerStep::Continue { delay_ms: self.adaptive_delay.get_current_delay() }
    }

    /// Takes one item from the controller: reads the lock flags off the list
    /// frame if the item brings one, scans the item, counts the scan as a
    /// success and takes the record in as `record_result` does.
    ///
    /// One more item is counted and the lock flags of the page are appended.
    /// The record is the one that the model's readings of the item's panel
    /// give, with the lock flag that stands at the item's number; the
    /// records kept, the run of duplicates, the counts and the way to go on
    /// are those that `record_result` gives for that record.
    pub fn process_item(&mut self, item: SendItem) -> (step: WorkerStep)
        requires
            old(self).wf(),
            old(self).has_room(),
            item.wf(),
        ensures
            final(self).wf(),
            final(self).artifact_index() == old(self).artifact_index() + 1,
            final(self).config() == old(self).config(),
            final(self).window_info() == old(self).window_info(),
            final(self).window_size() == old(self).window_size(),
            final(self).locks() == old(self).locks() + (match item.list_image {
                Some(list_image) => old(self).window_info().page_locks(&list_image),
                None => Seq::empty(),
            }),
            final(self).model() == old(self).model(),
            timed_reads(old(self).monitor(), final(self).monitor(), 5),
            final(self).delay_state().base_delay == old(self).delay_state().base_delay,
            exists|result: GenshinArtifactScanResult|
                {
                    &&& #[trigger] scanned_as(
                        result,
                        old(self).model(),
                        old(self).window_info(),
                        old(self).window_size(),
                        item,
                        lock_of(final(self).locks(), final(self).artifact_index() as int),
                    )
                    &&& final(self).results() == results_after(
                        old(self).config().min_level,
                        old(self).results(),
                        result,
                    )
                    &&& final(self).consecutive_dup_count() == streak_after(
                        old(self).config().min_level,
                        old(self).results(),
                        old(self).consecutive_dup_count(),
                        result,
                    )
                    &&& final(self).error_stats() == stats_after(
                        old(self).config().min_level,
                        old(self).results(),
                        with_scan(old(self).error_stats()),
                        result,
                    )
                    &&& step == step_after(
                        old(self).config(),
                        old(self).window_info().col,
                        result.level,
                        final(self).consecutive_dup_count(),
                        final(self).delay_state().current_delay,
                    )
                },
            exists|elapsed_secs: u64, clean: bool|
                final(self).delay_state() == #[trigger] old(self).delay_state().counted(
                    clean,
                ).adjusted(elapsed_secs),
    {
        match &item.list_image {
            Some(list_image) => {
                let page = self.window_info.get_page_locks_optimized(list_image);
                let mut k: usize = 0;
                while k < page.len()
                    invariant
                        k <= page@.len(),
                        self.locks@ == old(self).locks@ + page@.subrange(0, k as int),
                        self.results == old(self).results,
                        self.consecutive_dup_count == old(self).consecutive_dup_count,
                        self.artifact_index == old(self).artifact_index,
                        self.error_stats == old(self).error_stats,
                        self.config == old(self).config,
                        self.window_info == old(self).window_info,
                        self.window_size == old(self).window_size,
                        self.adaptive_delay == old(self).adaptive_delay,
                        self.ocr_recognizer == old(self).ocr_recognizer,
                        self.performance_monitor == old(self).performance_monitor,
                    decreases page@.len() - k,
                {
                    self.locks.push(page[k]);
                    k = k + 1;
                    assert(page@.subrange(0, k as int) =~= page@.subrange(0, k - 1).push(
                        page@[k - 1],
                    ));
                }
                assert(page@.subrange(0, page@.len() as int) =~= page@);
            },
            None => {
                assert(self.locks@ + Seq::<bool>::empty() =~= self.locks@);
            },
        }
        self.artifact_index += 1;
        let at: usize = (self.artifact_index - 1) as usize;
        let lock = if at < self.locks.len() {
            self.locks[at]
        } else {
            false
        };
        let result = self.scan_item_image_optimized(&item, lock);
        self.error_stats.add_success();
        let ghost scanned = result;
        let step = self.record_result(result);
        assert(scanned_as(
            scanned,
            old(self).model(),
            old(self).window_info(),
            old(self).window_size(),
            item,
            lock_of(self.locks(), self.artifact_index() as int),
        ));
        step
    }
}

} // verus!
