use vstd::prelude::*;
use vstd::string::*;

use crate::utils::decimal::{decimal_text, push_decimal};

verus! {

/// The window sizes that share one layout.
#[derive(Debug, Clone, Copy, PartialEq, Eq, Hash, Structural)]
pub enum ResolutionFamily {
    /// 2560 by 1440, 1920 by 1080 and 1600 by 900.
    Windows16x9,
}

/// A window size that no layout is known for.
#[derive(Debug, Clone, Copy, PartialEq, Eq, Structural)]
pub struct UnsupportedResolution {
    pub width: u32,
    pub height: u32,
}

/// Whether a layout is known for the window size.
pub open spec fn is_supported(width: u32, height: u32) -> bool {
    ||| width == 2560 && height == 1440
    ||| width == 1920 && height == 1080
    ||| width == 1600 && height == 900
}

impl UnsupportedResolution {
    /// What is wrong, and which sizes would do.
    pub open spec fn message_text(&self) -> Seq<char> {
        "不支持的分辨率: "@ + decimal_text(self.width as nat) + "×"@ + decimal_text(
            self.height as nat,
        ) + "\n支持的分辨率:\n- 2560×1440\n- 1920×1080\n- 1600×900"@
    }

    /// What is wrong, and which sizes would do.
    pub fn message(&self) -> (text: String)
        ensures
            text@ == self.message_text(),
    {
        let mut text = String::from_str("不支持的分辨率: ");
        push_decimal(&mut text, self.width as u64);
        text.append("×");
        push_decimal(&mut text, self.height as u64);
        text.append("\n支持的分辨率:\n- 2560×1440\n- 1920×1080\n- 1600×900");
        text
    }
}

impl ResolutionFamily {
    /// The family of a window size: one of the three sizes that are
    /// supported, and an error for any other.
    pub fn new(width: u32, height: u32) -> (family: Result<ResolutionFamily, UnsupportedResolution>)
        ensures
            is_supported(width, height) ==> family == Ok::<
                ResolutionFamily,
                UnsupportedResolution,
            >(ResolutionFamily::Windows16x9),
            !is_supported(width, height) ==> family == Err::<
                ResolutionFamily,
                UnsupportedResolution,
            >(UnsupportedResolution { width, height }),
    {
        if (width == 2560 && height == 1440) || (width == 1920 && height == 1080) || (width == 1600
            && height == 900) {
            Ok(ResolutionFamily::Windows16x9)
        } else {
            Err(UnsupportedResolution { width, height })
        }
    }
}

} // verus!
