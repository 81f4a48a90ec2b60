//! Recognition: what turns a frame into text.

pub mod decode;

use vstd::prelude::*;

use crate::capture::image::RgbImage;

verus! {

/// Something that reads the text in a frame. The library hands it frames
/// that hold their pixels, and promises nothing of what comes back: every
/// caller copes with any text and any failure. What a recognizer may give
/// for a frame is its own to say, in `reads`.
pub trait ImageToText {
    /// Whether `outcome` is what this recognizer may give for `image`:
    /// anything, unless the recognizer says more of itself.
    open spec fn reads(
        &self,
        image: RgbImage,
        is_preprocessed: bool,
        outcome: Result<String, String>,
    ) -> bool {
        true
    }

    /// Whether `mean` is what this recognizer may tell of its mean time:
    /// anything, unless the recognizer says more of itself.
    open spec fn tells_mean_time(&self, mean: Option<u64>) -> bool {
        true
    }

    /// The text in `image`, or why it could not be read.
    fn image_to_text(&self, image: &RgbImage, is_preprocessed: bool) -> (outcome: Result<
        String,
        String,
    >)
        requires
            image.wf(),
        ensures
            self.reads(*image, is_preprocessed, outcome),
    ;

    /// The mean time that a recognition took so far, in nanoseconds, if any
    /// was made.
    fn get_average_inference_time(&self) -> (mean: Option<u64>)
        ensures
            self.tells_mean_time(mean),
    ;
}

/// What a recognizer tells of its own work. Times are in nanoseconds.
pub trait OcrStatistics {
    /// How many recognitions were tried.
    fn get_total_recognitions(&self) -> usize;

    /// How many of them succeeded.
    fn get_successful_recognitions(&self) -> usize;

    /// The mean time of a recognition, if any was tried.
    fn get_average_inference_time(&self) -> Option<u64>;

    /// The time of the last recognition, if any was tried.
    fn get_last_inference_time(&self) -> Option<u64>;

    /// Starts the counts anew.
    fn reset_statistics(&mut self);
}

} // verus!
