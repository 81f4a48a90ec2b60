use vstd::prelude::*;
use vstd::string::*;

use crate::error_recovery::{ErrorCategory, RecoverableError};
use crate::utils::decimal::{decimal_text, push_decimal};

verus! {

/// One million: confidences and rates are kept in parts per million.
pub const PPM: u32 = 1_000_000;

/// What can go wrong while one item is scanned.
#[derive(Debug, Clone, PartialEq)]
pub enum ArtifactScanError {
    /// A field could not be recognised.
    OcrRecognitionFailed { field: String, raw_text: String, error_msg: String },
    /// A screen region could not be captured.
    ImageCaptureFailed { region: String, error_msg: String },
    /// A recognised field does not have the expected form.
    ArtifactParsingFailed { field: String, value: String, expected_format: String },
    /// The same item came up several times in a row.
    ConsecutiveDuplicateItems { count: usize, threshold: usize },
    /// The rarity colour is far from every known colour. The confidence is in
    /// parts per million.
    StarRecognitionFailed { detected_color: String, confidence_ppm: u32 },
    /// The level text is not a level.
    LevelParsingFailed { raw_text: String, error_msg: String },
    /// The recognition model could not be loaded.
    ModelLoadFailed { model_path: String, error_msg: String },
    /// The window geometry is not known.
    WindowInfoFailed { error_msg: String },
    /// The scan was interrupted.
    ScanInterrupted { reason: String, scanned_count: usize },
    /// Anything else.
    Unknown { error_msg: String },
}

/// `ppm` rounded to hundredths, ties to the even neighbour.
pub open spec fn hundredths_of_ppm(ppm: nat) -> nat {
    let q = ppm / 10_000;
    let r = ppm % 10_000;
    if r > 5_000 || (r == 5_000 && q % 2 == 1) {
        q + 1
    } else {
        q
    }
}

/// A value given in parts per million, written with two decimals.
pub open spec fn two_decimals_text(ppm: nat) -> Seq<char> {
    let h = hundredths_of_ppm(ppm);
    decimal_text(h / 100) + seq!['.'] + decimal_text((h % 100) / 10) + decimal_text(h % 10)
}

/// Appends a value given in parts per million, written with two decimals.
pub fn push_two_decimals(out: &mut String, ppm: u32)
    ensures
        final(out)@ == old(out)@ + two_decimals_text(ppm as nat),
{
    let q = ppm / 10_000;
    let r = ppm % 10_000;
    let h: u32 = if r > 5_000 || (r == 5_000 && q % 2 == 1) {
        q + 1
    } else {
        q
    };
    proof {
        reveal_strlit(".");
    }
    push_decimal(out, (h / 100) as u64);
    out.append(".");
    push_decimal(out, ((h % 100) / 10) as u64);
    push_decimal(out, (h % 10) as u64);
    assert(final(out)@ =~= old(out)@ + two_decimals_text(ppm as nat));
}

/// How the failure to recognise a field is described.
pub open spec fn ocr_failure_text(
    field: Seq<char>,
    raw_text: Seq<char>,
    error_msg: Seq<char>,
) -> Seq<char> {
    "OCR识别失败 - 字段: "@ + field + ", 原始文本: '"@ + raw_text + "', 错误: "@ + error_msg
}

/// How the failure to read a level is described.
pub open spec fn level_failure_text(raw_text: Seq<char>, error_msg: Seq<char>) -> Seq<char> {
    "等级解析失败 - 原始文本: '"@ + raw_text + "', 错误: "@ + error_msg
}

impl ArtifactScanError {
    /// The recovery category of the failure.
    pub open spec fn spec_error_category(&self) -> ErrorCategory {
        match self {
            ArtifactScanError::OcrRecognitionFailed { .. } => ErrorCategory::OCR,
            ArtifactScanError::ImageCaptureFailed { .. } => ErrorCategory::ImageProcessing,
            ArtifactScanError::ArtifactParsingFailed { .. } => ErrorCategory::Parsing,
            ArtifactScanError::ConsecutiveDuplicateItems { .. } => ErrorCategory::Temporary,
            ArtifactScanError::StarRecognitionFailed { .. } => ErrorCategory::OCR,
            ArtifactScanError::LevelParsingFailed { .. } => ErrorCategory::Parsing,
            ArtifactScanError::ModelLoadFailed { .. } => ErrorCategory::Configuration,
            ArtifactScanError::WindowInfoFailed { .. } => ErrorCategory::Configuration,
            ArtifactScanError::ScanInterrupted { .. } => ErrorCategory::Temporary,
            ArtifactScanError::Unknown { .. } => ErrorCategory::Unknown,
        }
    }

    /// The recovery category of the failure.
    #[verifier::when_used_as_spec(spec_error_category)]
    pub fn category(&self) -> (category: ErrorCategory)
        ensures
            category == self.spec_error_category(),
    {
        match self {
            ArtifactScanError::OcrRecognitionFailed { .. } => ErrorCategory::OCR,
            ArtifactScanError::ImageCaptureFailed { .. } => ErrorCategory::ImageProcessing,
            ArtifactScanError::ArtifactParsingFailed { .. } => ErrorCategory::Parsing,
            ArtifactScanError::ConsecutiveDuplicateItems { .. } => ErrorCategory::Temporary,
            ArtifactScanError::StarRecognitionFailed { .. } => ErrorCategory::OCR,
            ArtifactScanError::LevelParsingFailed { .. } => ErrorCategory::Parsing,
            ArtifactScanError::ModelLoadFailed { .. } => ErrorCategory::Configuration,
            ArtifactScanError::WindowInfoFailed { .. } => ErrorCategory::Configuration,
            ArtifactScanError::ScanInterrupted { .. } => ErrorCategory::Temporary,
            ArtifactScanError::Unknown { .. } => ErrorCategory::Unknown,
        }
    }

    /// The text that describes the failure to the user.
    pub open spec fn message_text(&self) -> Seq<char> {
        match self {
            ArtifactScanError::OcrRecognitionFailed { field, raw_text, error_msg } => {
                ocr_failure_text(field@, raw_text@, error_msg@)
            },
            ArtifactScanError::ImageCaptureFailed { region, error_msg } => {
                "图像捕获失败 - 区域: "@ + region@ + ", 错误: "@ + error_msg@
            },
            ArtifactScanError::ArtifactParsingFailed { field, value, expected_format } => {
                "圣遗物数据解析失败 - 字段: "@ + field@ + ", 值: '"@ + value@ + "', 期望格式: "@
                    + expected_format@
            },
            ArtifactScanError::ConsecutiveDuplicateItems { count, threshold } => {
                "检测到连续重复物品 - 数量: "@ + decimal_text(*count as nat) + ", 阈值: "@
                    + decimal_text(*threshold as nat)
                    + " (可能为翻页错误或非背包顶部开始扫描)"@
            },
            ArtifactScanError::StarRecognitionFailed { detected_color, confidence_ppm } => {
                "星级识别失败 - 检测到颜色: "@ + detected_color@ + ", 置信度: "@
                    + two_decimals_text(*confidence_ppm as nat)
            },
            ArtifactScanError::LevelParsingFailed { raw_text, error_msg } => {
                level_failure_text(raw_text@, error_msg@)
            },
            ArtifactScanError::ModelLoadFailed { model_path, error_msg } => {
                "模型加载失败 - 路径: "@ + model_path@ + ", 错误: "@ + error_msg@
            },
            ArtifactScanError::WindowInfoFailed { error_msg } => {
                "窗口信息获取失败 - 错误: "@ + error_msg@
            },
            ArtifactScanError::ScanInterrupted { reason, scanned_count } => {
                "扫描中断 - 原因: "@ + reason@ + ", 已扫描: "@ + decimal_text(
                    *scanned_count as nat,
                ) + " 个"@
            },
            ArtifactScanError::Unknown { error_msg } => { "未知错误: "@ + error_msg@ },
        }
    }

    /// The text that describes the failure to the user.
    pub fn message(&self) -> (text: String)
        ensures
            text@ == self.message_text(),
    {
        match self {
            ArtifactScanError::OcrRecognitionFailed { field, raw_text, error_msg } => {
                let mut text = String::from_str("OCR识别失败 - 字段: ");
                text.append(field.as_str());
                text.append(", 原始文本: '");
                text.append(raw_text.as_str());
                text.append("', 错误: ");
                text.append(error_msg.as_str());
                text
            },
            ArtifactScanError::ImageCaptureFailed { region, error_msg } => {
                let mut text = String::from_str("图像捕获失败 - 区域: ");
                text.append(region.as_str());
                text.append(", 错误: ");
                text.append(error_msg.as_str());
                text
            },
            ArtifactScanError::ArtifactParsingFailed { field, value, expected_format } => {
                let mut text = String::from_str("圣遗物数据解析失败 - 字段: ");
                text.append(field.as_str());
                text.append(", 值: '");
                text.append(value.as_str());
                text.append("', 期望格式: ");
                text.append(expected_format.as_str());
                text
            },
            ArtifactScanError::ConsecutiveDuplicateItems { count, threshold } => {
                let mut text = String::from_str("检测到连续重复物品 - 数量: ");
                push_decimal(&mut text, *count as u64);
                text.append(", 阈值: ");
                push_decimal(&mut text, *threshold as u64);
                text.append(" (可能为翻页错误或非背包顶部开始扫描)");
                text
            },
            ArtifactScanError::StarRecognitionFailed { detected_color, confidence_ppm } => {
                let mut text = String::from_str("星级识别失败 - 检测到颜色: ");
                text.append(detected_color.as_str());
                text.append(", 置信度: ");
                push_two_decimals(&mut text, *confidence_ppm);
                text
            },
            ArtifactScanError::LevelParsingFailed { raw_text, error_msg } => {
                let mut text = String::from_str("等级解析失败 - 原始文本: '");
                text.append(raw_text.as_str());
                text.append("', 错误: ");
                text.append(error_msg.as_str());
                text
            },
            ArtifactScanError::ModelLoadFailed { model_path, error_msg } => {
                let mut text = String::from_str("模型加载失败 - 路径: ");
                text.append(model_path.as_str());
                text.append(", 错误: ");
                text.append(error_msg.as_str());
                text
            },
            ArtifactScanError::WindowInfoFailed { error_msg } => {
                let mut text = String::from_str("窗口信息获取失败 - 错误: ");
                text.append(error_msg.as_str());
                text
            },
            ArtifactScanError::ScanInterrupted { reason, scanned_count } => {
                let mut text = String::from_str("扫描中断 - 原因: ");
                text.append(reason.as_str());
                text.append(", 已扫描: ");
                push_decimal(&mut text, *scanned_count as u64);
                text.append(" 个");
                text
            },
            ArtifactScanError::Unknown { error_msg } => {
                let mut text = String::from_str("未知错误: ");
                text.append(error_msg.as_str());
                text
            },
        }
    }
}

impl RecoverableError for ArtifactScanError {
    /// A failure reports the one category of its kind.
    open spec fn has_category(&self, category: ErrorCategory) -> bool {
        category == self.spec_error_category()
    }

    fn error_category(&self) -> (category: ErrorCategory)
        ensures
            category == self.spec_error_category(),
    {
        self.category()
    }
}

/// The advice that goes with a failure.
pub open spec fn suggestion_text(error: &ArtifactScanError) -> Seq<char> {
    match error {
        ArtifactScanError::OcrRecognitionFailed { field, .. } => {
            "建议: 检查游戏界面是否清晰，确保"@ + field@ + "区域没有被遮挡"@
        },
        ArtifactScanError::ImageCaptureFailed { region, .. } => {
            "建议: 检查游戏窗口是否正常显示，"@ + region@ + "区域是否可见"@
        },
        ArtifactScanError::ArtifactParsingFailed { field, .. } => {
            "建议: 检查"@ + field@ + "的显示格式是否正常，可能需要切换游戏语言为简体中文"@
        },
        ArtifactScanError::ConsecutiveDuplicateItems { .. } => {
            "建议: 请确保从背包顶部开始扫描，避免在扫描过程中手动翻页"@
        },
        ArtifactScanError::StarRecognitionFailed { .. } => {
            "建议: 检查游戏亮度设置，确保星级显示清晰可见"@
        },
        ArtifactScanError::LevelParsingFailed { .. } => {
            "建议: 检查圣遗物等级显示是否正常，确保使用简体中文界面"@
        },
        ArtifactScanError::ModelLoadFailed { .. } => {
            "建议: 检查模型文件是否存在且完整，可能需要重新下载程序"@
        },
        ArtifactScanError::WindowInfoFailed { .. } => {
            "建议: 检查游戏分辨率是否受支持，推荐使用16:9比例的分辨率"@
        },
        ArtifactScanError::ScanInterrupted { .. } => { "建议: 扫描被中断，可以重新开始扫描"@ },
        ArtifactScanError::Unknown { .. } => { "建议: 遇到未知错误，请检查系统环境或联系开发者"@ },
    }
}

/// The advice that goes with a failure.
pub fn get_error_suggestion(error: &ArtifactScanError) -> (text: String)
    ensures
        text@ == suggestion_text(error),
{
    match error {
        ArtifactScanError::OcrRecognitionFailed { field, .. } => {
            let mut text = String::from_str("建议: 检查游戏界面是否清晰，确保");
            text.append(field.as_str());
            text.append("区域没有被遮挡");
            text
        },
        ArtifactScanError::ImageCaptureFailed { region, .. } => {
            let mut text = String::from_str("建议: 检查游戏窗口是否正常显示，");
            text.append(region.as_str());
            text.append("区域是否可见");
            text
        },
        ArtifactScanError::ArtifactParsingFailed { field, .. } => {
            let mut text = String::from_str("建议: 检查");
            text.append(field.as_str());
            text.append("的显示格式是否正常，可能需要切换游戏语言为简体中文");
            text
        },
        ArtifactScanError::ConsecutiveDuplicateItems { .. } => {
            String::from_str("建议: 请确保从背包顶部开始扫描，避免在扫描过程中手动翻页")
        },
        ArtifactScanError::StarRecognitionFailed { .. } => {
            String::from_str("建议: 检查游戏亮度设置，确保星级显示清晰可见")
        },
        ArtifactScanError::LevelParsingFailed { .. } => {
            String::from_str("建议: 检查圣遗物等级显示是否正常，确保使用简体中文界面")
        },
        ArtifactScanError::ModelLoadFailed { .. } => {
            String::from_str("建议: 检查模型文件是否存在且完整，可能需要重新下载程序")
        },
        ArtifactScanError::WindowInfoFailed { .. } => {
            String::from_str("建议: 检查游戏分辨率是否受支持，推荐使用16:9比例的分辨率")
        },
        ArtifactScanError::ScanInterrupted { .. } => {
            String::from_str("建议: 扫描被中断，可以重新开始扫描")
        },
        ArtifactScanError::Unknown { .. } => {
            String::from_str("建议: 遇到未知错误，请检查系统环境或联系开发者")
        },
    }
}


/// Running counts of what went wrong, and of what went well.
#[derive(Debug, Clone, Copy, PartialEq, Eq, Structural)]
pub struct ErrorStatistics {
    pub successful_scans: usize,
    pub total_errors: usize,
    pub ocr_errors: usize,
    pub image_capture_errors: usize,
    pub parsing_errors: usize,
    pub star_recognition_errors: usize,
    pub level_parsing_errors: usize,
    pub duplicate_items: usize,
    pub model_load_errors: usize,
    pub window_info_errors: usize,
    pub interruption_errors: usize,
    pub unknown_errors: usize,
}

/// The share `part / whole` in parts per million, rounded down; zero when
/// `whole` is zero.
pub open spec fn share_ppm(part: nat, whole: nat) -> nat {
    if whole == 0 {
        0
    } else {
        (part * 1_000_000) / whole
    }
}

/// The share `part / whole` in tenths of a percent, rounded to the nearest
/// tenth, halves upwards; zero when `whole` is zero.
pub open spec fn share_permille_rounded(part: nat, whole: nat) -> nat {
    if whole == 0 {
        0
    } else {
        (part * 2_000 + whole) / (2 * whole)
    }
}

/// A value given in tenths, written with one decimal.
pub open spec fn one_decimal_text(tenths: nat) -> Seq<char> {
    decimal_text(tenths / 10) + seq!['.'] + decimal_text(tenths % 10)
}

impl ErrorStatistics {
    /// Statistics with every count at zero.
    pub fn new() -> (stats: ErrorStatistics)
        ensures
            stats == ErrorStatistics::zero(),
    {
        ErrorStatistics {
            successful_scans: 0,
            total_errors: 0,
            ocr_errors: 0,
            image_capture_errors: 0,
            parsing_errors: 0,
            star_recognition_errors: 0,
            level_parsing_errors: 0,
            duplicate_items: 0,
            model_load_errors: 0,
            window_info_errors: 0,
            interruption_errors: 0,
            unknown_errors: 0,
        }
    }

    /// Statistics with every count at zero.
    pub open spec fn zero() -> ErrorStatistics {
        ErrorStatistics {
            successful_scans: 0,
            total_errors: 0,
            ocr_errors: 0,
            image_capture_errors: 0,
            parsing_errors: 0,
            star_recognition_errors: 0,
            level_parsing_errors: 0,
            duplicate_items: 0,
            model_load_errors: 0,
            window_info_errors: 0,
            interruption_errors: 0,
            unknown_errors: 0,
        }
    }

    /// Whether every per-kind count is at most the total.
    pub open spec fn consistent(&self) -> bool {
        &&& self.ocr_errors <= self.total_errors
        &&& self.image_capture_errors <= self.total_errors
        &&& self.parsing_errors <= self.total_errors
        &&& self.star_recognition_errors <= self.total_errors
        &&& self.level_parsing_errors <= self.total_errors
        &&& self.duplicate_items <= self.total_errors
        &&& self.model_load_errors <= self.total_errors
        &&& self.window_info_errors <= self.total_errors
        &&& self.interruption_errors <= self.total_errors
        &&& self.unknown_errors <= self.total_errors
    }

    /// The statistics after one more failure `error`.
    pub open spec fn with_error(self, error: &ArtifactScanError) -> ErrorStatistics {
        let counted = ErrorStatistics { total_errors: (self.total_errors + 1) as usize, ..self };
        match error {
            ArtifactScanError::OcrRecognitionFailed { .. } => ErrorStatistics {
                ocr_errors: (self.ocr_errors + 1) as usize,
                ..counted
            },
            ArtifactScanError::ImageCaptureFailed { .. } => ErrorStatistics {
                image_capture_errors: (self.image_capture_errors + 1) as usize,
                ..counted
            },
            ArtifactScanError::ArtifactParsingFailed { .. } => ErrorStatistics {
                parsing_errors: (self.parsing_errors + 1) as usize,
                ..counted
            },
            ArtifactScanError::StarRecognitionFailed { .. } => ErrorStatistics {
                star_recognition_errors: (self.star_recognition_errors + 1) as usize,
                ..counted
            },
            ArtifactScanError::LevelParsingFailed { .. } => ErrorStatistics {
                level_parsing_errors: (self.level_parsing_errors + 1) as usize,
                ..counted
            },
            ArtifactScanError::ConsecutiveDuplicateItems { .. } => ErrorStatistics {
                duplicate_items: (self.duplicate_items + 1) as usize,
                ..counted
            },
            ArtifactScanError::ModelLoadFailed { .. } => ErrorStatistics {
                model_load_errors: (self.model_load_errors + 1) as usize,
                ..counted
            },
            ArtifactScanError::WindowInfoFailed { .. } => ErrorStatistics {
                window_info_errors: (self.window_info_errors + 1) as usize,
                ..counted
            },
            ArtifactScanError::ScanInterrupted { .. } => ErrorStatistics {
                interruption_errors: (self.interruption_errors + 1) as usize,
                ..counted
            },
            ArtifactScanError::Unknown { .. } => ErrorStatistics {
                unknown_errors: (self.unknown_errors + 1) as usize,
                ..counted
            },
        }
    }

    /// Counts one more failure, in the total and under its kind.
    pub fn add_error(&mut self, error: &ArtifactScanError)
        requires
            old(self).consistent(),
            old(self).total_errors < usize::MAX,
        ensures
            *final(self) == old(self).with_error(error),
            final(self).consistent(),
    {
        self.total_errors += 1;
        match error {
            ArtifactScanError::OcrRecognitionFailed { .. } => self.ocr_errors += 1,
            ArtifactScanError::ImageCaptureFailed { .. } => self.image_capture_errors += 1,
            ArtifactScanError::ArtifactParsingFailed { .. } => self.parsing_errors += 1,
            ArtifactScanError::StarRecognitionFailed { .. } => self.star_recognition_errors += 1,
            ArtifactScanError::LevelParsingFailed { .. } => self.level_parsing_errors += 1,
            ArtifactScanError::ConsecutiveDuplicateItems { .. } => self.duplicate_items += 1,
            ArtifactScanError::ModelLoadFailed { .. } => self.model_load_errors += 1,
            ArtifactScanError::WindowInfoFailed { .. } => self.window_info_errors += 1,
            ArtifactScanError::ScanInterrupted { .. } => self.interruption_errors += 1,
            ArtifactScanError::Unknown { .. } => self.unknown_errors += 1,
        }
    }

    /// Counts one more item scanned without failure.
    pub fn add_success(&mut self)
        requires
            old(self).successful_scans < usize::MAX,
        ensures
            *final(self) == (ErrorStatistics {
                successful_scans: (old(self).successful_scans + 1) as usize,
                ..*old(self)
            }),
    {
        self.successful_scans += 1;
    }

    /// The share of attempts that succeeded, in parts per million.
    pub open spec fn success_rate_ppm(&self) -> nat {
        share_ppm(self.successful_scans as nat, (self.successful_scans + self.total_errors) as nat)
    }

    /// The share of attempts that succeeded, in parts per million and rounded
    /// down: zero when nothing was attempted, else successes over attempts.
    pub fn get_success_rate(&self) -> (ppm: u32)
        ensures
            ppm == self.success_rate_ppm(),
            self.successful_scans + self.total_errors == 0 ==> ppm == 0,
            self.successful_scans + self.total_errors > 0 ==> ppm == (self.successful_scans
                * 1_000_000) / (self.successful_scans + self.total_errors),
            ppm <= PPM,
    {
        let attempts: u128 = self.successful_scans as u128 + self.total_errors as u128;
        if attempts == 0 {
            return 0;
        }
        let q: u128 = (self.successful_scans as u128 * 1_000_000) / attempts;
        assert(q <= 1_000_000) by (nonlinear_arith)
            requires
                q == (self.successful_scans * 1_000_000) / (attempts as int),
                0 <= self.successful_scans <= attempts,
                attempts > 0,
        ;
        q as u32
    }

    /// The success rate in tenths of a percent, rounded to the nearest tenth.
    pub open spec fn success_rate_tenths(&self) -> nat {
        share_permille_rounded(
            self.successful_scans as nat,
            (self.successful_scans + self.total_errors) as nat,
        )
    }

    fn success_rate_tenths_exec(&self) -> (tenths: u64)
        ensures
            tenths == self.success_rate_tenths(),
    {
        let attempts: u128 = self.successful_scans as u128 + self.total_errors as u128;
        if attempts == 0 {
            return 0;
        }
        let q: u128 = (self.successful_scans as u128 * 2_000 + attempts) / (2 * attempts);
        assert(q <= 1_000) by (nonlinear_arith)
            requires
                q == (self.successful_scans * 2_000 + attempts) / (2 * attempts),
                0 <= self.successful_scans <= attempts,
                attempts > 0,
        ;
        q as u64
    }

    /// The report: one line per count, and the success rate in percent.
    pub open spec fn summary_text(&self) -> Seq<char> {
        "错误统计报告:\n- 成功扫描: "@ + decimal_text(self.successful_scans as nat)
            + " 个\n- 总错误数: "@ + decimal_text(self.total_errors as nat) + " 个\n- 成功率: "@
            + one_decimal_text(self.success_rate_tenths()) + "%\n- OCR识别错误: "@
            + decimal_text(self.ocr_errors as nat) + " 个\n- 图像捕获错误: "@ + decimal_text(
            self.image_capture_errors as nat,
        ) + " 个\n- 数据解析错误: "@ + decimal_text(self.parsing_errors as nat)
            + " 个\n- 星级识别错误: "@ + decimal_text(self.star_recognition_errors as nat)
            + " 个\n- 等级解析错误: "@ + decimal_text(self.level_parsing_errors as nat)
            + " 个\n- 重复物品检测: "@ + decimal_text(self.duplicate_items as nat) + " 个"@
    }

    /// The report: one line per count, and the success rate in percent.
    pub fn get_error_summary(&self) -> (text: String)
        ensures
            text@ == self.summary_text(),
    {
        let tenths = self.success_rate_tenths_exec();
        proof {
            reveal_strlit(".");
        }
        let mut text = String::from_str("错误统计报告:\n- 成功扫描: ");
        push_decimal(&mut text, self.successful_scans as u64);
        text.append(" 个\n- 总错误数: ");
        push_decimal(&mut text, self.total_errors as u64);
        text.append(" 个\n- 成功率: ");
        push_decimal(&mut text, tenths / 10);
        text.append(".");
        push_decimal(&mut text, tenths % 10);
        text.append("%\n- OCR识别错误: ");
        push_decimal(&mut text, self.ocr_errors as u64);
        text.append(" 个\n- 图像捕获错误: ");
        push_decimal(&mut text, self.image_capture_errors as u64);
        text.append(" 个\n- 数据解析错误: ");
        push_decimal(&mut text, self.parsing_errors as u64);
        text.append(" 个\n- 星级识别错误: ");
        push_decimal(&mut text, self.star_recognition_errors as u64);
        text.append(" 个\n- 等级解析错误: ");
        push_decimal(&mut text, self.level_parsing_errors as u64);
        text.append(" 个\n- 重复物品检测: ");
        push_decimal(&mut text, self.duplicate_items as u64);
        text.append(" 个");
        assert(text@ =~= self.summary_text());
        text
    }
}

impl Default for ErrorStatistics {
    fn default() -> (stats: ErrorStatistics)
        ensures
            stats == ErrorStatistics::zero(),
    {
        ErrorStatistics::new()
    }
}

} // verus!
