use std::time::Instant;

use vstd::prelude::*;
use vstd::string::*;

use crate::capture::image::{color_distance, color_distance_spec, Rgb, RgbImage};
use crate::ocr::ImageToText;
use crate::positioning::Rect;
use crate::utils::clock::{duration_debug_text, elapsed_nanos, format_duration, now};
use crate::utils::decimal::{decimal_text, push_decimal};

verus! {

/// Pixel work on frames.
pub struct OptimizedImageProcessor;

/// Where a crop starts along one axis: the requested start, but not before
/// the frame's edge.
pub open spec fn crop_start(start: int) -> int {
    if start < 0 {
        0
    } else if start > u32::MAX {
        u32::MAX as int
    } else {
        start
    }
}

/// How far a crop reaches along one axis: the requested extent, cut at the
/// frame's far edge, and nothing where that leaves less than nothing.
pub open spec fn crop_extent(start: int, extent: int, limit: int) -> int {
    let room = limit - crop_start(start);
    let cut = if extent < room {
        extent
    } else {
        room
    };
    if cut < 0 {
        0
    } else {
        cut
    }
}

fn crop_start_exec(start: i64) -> (s: u32)
    ensures
        s == crop_start(start as int),
{
    if start < 0 {
        0
    } else if start > u32::MAX as i64 {
        u32::MAX
    } else {
        start as u32
    }
}

fn crop_extent_exec(start: i64, extent: i64, limit: u32) -> (e: u32)
    ensures
        e == crop_extent(start as int, extent as int, limit as int),
        e <= limit,
        e > 0 ==> crop_start(start as int) + e <= limit,
{
    let room: i64 = limit as i64 - crop_start_exec(start) as i64;
    let cut: i64 = if extent < room {
        extent
    } else {
        room
    };
    if cut < 0 {
        0
    } else {
        cut as u32
    }
}

/// Whether `cropped` is the part of `image` that `rect` covers: it starts at
/// the rectangle's corner, or at the frame's edge where the corner lies
/// before it, ends with the rectangle or with the frame, and holds the
/// frame's pixels.
pub open spec fn is_crop_of(cropped: RgbImage, image: RgbImage, rect: Rect<i64>) -> bool {
    &&& cropped.wf()
    &&& cropped.spec_width() == crop_extent(
        rect.left as int,
        rect.width as int,
        image.spec_width() as int,
    )
    &&& cropped.spec_height() == crop_extent(
        rect.top as int,
        rect.height as int,
        image.spec_height() as int,
    )
    &&& forall|dx: int, dy: int|
        cropped.holds(dx, dy) ==> #[trigger] cropped.pixel(dx, dy) == image.pixel(
            crop_start(rect.left as int) + dx,
            crop_start(rect.top as int) + dy,
        )
}

impl OptimizedImageProcessor {
    /// The part of `image` that `rect` covers. The crop starts at the
    /// rectangle's corner, or at the frame's edge where the corner lies
    /// before it, and ends with the rectangle or with the frame.
    pub fn crop_optimized(image: &RgbImage, rect: &Rect<i64>) -> (cropped: RgbImage)
        requires
            image.wf(),
        ensures
            cropped.wf(),
            cropped.spec_width() == crop_extent(
                rect.left as int,
                rect.width as int,
                image.spec_width() as int,
            ),
            cropped.spec_height() == crop_extent(
                rect.top as int,
                rect.height as int,
                image.spec_height() as int,
            ),
            forall|dx: int, dy: int|
                cropped.holds(dx, dy) ==> #[trigger] cropped.pixel(dx, dy) == image.pixel(
                    crop_start(rect.left as int) + dx,
                    crop_start(rect.top as int) + dy,
                ),
    {
        let x = crop_start_exec(rect.left);
        let y = crop_start_exec(rect.top);
        let width = crop_extent_exec(rect.left, rect.width, image.width());
        let height = crop_extent_exec(rect.top, rect.height, image.height());
        let raw_len = image.as_raw().len();
        assert(width * height * 3 <= image.spec_width() * image.spec_height() * 3)
            by (nonlinear_arith)
            requires
                0 <= width <= image.spec_width(),
                0 <= height <= image.spec_height(),
        ;
        let mut cropped = RgbImage::new(width, height);
        let mut dy: u32 = 0;
        while dy < height
            invariant
                image.wf(),
                cropped.wf(),
                cropped.spec_width() == width,
                cropped.spec_height() == height,
                dy <= height,
                width > 0 ==> x + width <= image.spec_width(),
                height > 0 ==> y + height <= image.spec_height(),
                forall|i: int, j: int|
                    0 <= i < width && 0 <= j < dy ==> #[trigger] cropped.pixel(i, j)
                        == image.pixel(x + i, y + j),
            decreases height - dy,
        {
            let mut dx: u32 = 0;
            while dx < width
                invariant
                    image.wf(),
                    cropped.wf(),
                    cropped.spec_width() == width,
                    cropped.spec_height() == height,
                    dy < height,
                    dx <= width,
                    width > 0 ==> x + width <= image.spec_width(),
                    y + height <= image.spec_height(),
                    forall|i: int, j: int|
                        0 <= i < width && 0 <= j < dy ==> #[trigger] cropped.pixel(i, j)
                            == image.pixel(x + i, y + j),
                    forall|i: int| 0 <= i < dx ==> #[trigger] cropped.pixel(i, dy as int)
                        == image.pixel(x + i, y + dy),
                decreases width - dx,
            {
                let color = image.get_pixel(x + dx, y + dy);
                cropped.put_pixel(dx, dy, color);
                dx = dx + 1;
            }
            dy = dy + 1;
        }
        cropped
    }

    /// The squared distance between two colours.
    pub fn color_distance_fast(c1: &Rgb, c2: &Rgb) -> (distance: u32)
        ensures
            distance == color_distance_spec(*c1, *c2),
    {
        color_distance(c1, c2)
    }

    /// The squared distance of each colour to `target`, in order.
    pub fn batch_color_distance(colors: &Vec<Rgb>, target: &Rgb) -> (distances: Vec<u32>)
        ensures
            distances@.len() == colors@.len(),
            forall|i: int|
                0 <= i < colors@.len() ==> #[trigger] distances@[i] == color_distance_spec(
                    colors@[i],
                    *target,
                ),
    {
        let mut distances: Vec<u32> = Vec::new();
        let mut i: usize = 0;
        while i < colors.len()
            invariant
                i <= colors@.len(),
                distances@.len() == i,
                forall|k: int|
                    0 <= k < i ==> #[trigger] distances@[k] == color_distance_spec(
                        colors@[k],
                        *target,
                    ),
            decreases colors@.len() - i,
        {
            distances.push(color_distance(&colors[i], target));
            i = i + 1;
        }
        distances
    }
}

/// The sum of the times.
pub open spec fn total_of(times: Seq<u64>) -> nat
    decreases times.len(),
{
    if times.len() == 0 {
        0
    } else {
        total_of(times.drop_last()) + times.last() as nat
    }
}

/// The mean of the times, rounded down; zero where there are none.
pub open spec fn average_of(times: Seq<u64>) -> nat {
    if times.len() == 0 {
        0
    } else {
        total_of(times) / times.len()
    }
}

fn average_exec(times: &Vec<u64>) -> (mean: u64)
    ensures
        mean == average_of(times@),
{
    let n = times.len();
    if n == 0 {
        return 0;
    }
    let mut total: u128 = 0;
    let mut i: usize = 0;
    while i < n
        invariant
            n == times@.len(),
            i <= n,
            total == total_of(times@.subrange(0, i as int)),
            total <= i * u64::MAX,
        decreases n - i,
    {
        proof {
            assert(times@.subrange(0, i + 1).drop_last() =~= times@.subrange(0, i as int));
            assert(i * u64::MAX + u64::MAX == (i + 1) * u64::MAX) by (nonlinear_arith);
            assert((i + 1) * u64::MAX <= usize::MAX * u64::MAX) by (nonlinear_arith)
                requires
                    i + 1 <= usize::MAX,
            ;
        }
        total = total + times[i] as u128;
        i = i + 1;
    }
    proof {
        assert(times@.subrange(0, n as int) =~= times@);
        assert(total / (n as u128) <= u64::MAX) by (nonlinear_arith)
            requires
                total <= n * u64::MAX,
                n > 0,
        ;
    }
    (total / (n as u128)) as u64
}

/// Keeps the times that recognition and capture took.
#[derive(Debug)]
pub struct PerformanceMonitor {
    start_time: Instant,
    ocr_times: Vec<u64>,
    capture_times: Vec<u64>,
}

impl PerformanceMonitor {
    /// The recognition times recorded so far, in nanoseconds.
    pub closed spec fn ocr_times(&self) -> Seq<u64> {
        self.ocr_times@
    }

    /// The capture times recorded so far, in nanoseconds.
    pub closed spec fn capture_times(&self) -> Seq<u64> {
        self.capture_times@
    }

    /// A monitor that starts now, with nothing recorded.
    pub fn new() -> (monitor: PerformanceMonitor)
        ensures
            monitor.ocr_times().len() == 0,
            monitor.capture_times().len() == 0,
    {
        PerformanceMonitor { start_time: now(), ocr_times: Vec::new(), capture_times: Vec::new() }
    }

    /// Records how long one recognition took, in nanoseconds.
    pub fn record_ocr_time(&mut self, nanos: u64)
        ensures
            final(self).ocr_times() == old(self).ocr_times().push(nanos),
            final(self).capture_times() == old(self).capture_times(),
    {
        self.ocr_times.push(nanos);
    }

    /// Records how long one capture took, in nanoseconds.
    pub fn record_capture_time(&mut self, nanos: u64)
        ensures
            final(self).capture_times() == old(self).capture_times().push(nanos),
            final(self).ocr_times() == old(self).ocr_times(),
    {
        self.capture_times.push(nanos);
    }

    /// How many recognitions were recorded.
    pub fn ocr_count(&self) -> (count: usize)
        ensures
            count == self.ocr_times().len(),
    {
        self.ocr_times.len()
    }

    /// How many captures were recorded.
    pub fn capture_count(&self) -> (count: usize)
        ensures
            count == self.capture_times().len(),
    {
        self.capture_times.len()
    }

    /// The mean recognition time in nanoseconds, rounded down.
    pub fn average_ocr_time(&self) -> (mean: u64)
        ensures
            mean == average_of(self.ocr_times()),
    {
        average_exec(&self.ocr_times)
    }

    /// The mean capture time in nanoseconds, rounded down.
    pub fn average_capture_time(&self) -> (mean: u64)
        ensures
            mean == average_of(self.capture_times()),
    {
        average_exec(&self.capture_times)
    }

    /// The report for a monitor that has run for `total_nanos`.
    pub open spec fn summary_text(&self, total_nanos: u64) -> Seq<char> {
        "性能统计 - 总时间: "@ + duration_debug_text(total_nanos) + ", 平均OCR时间: "@
            + duration_debug_text(average_of(self.ocr_times()) as u64) + ", 平均捕获时间: "@
            + duration_debug_text(average_of(self.capture_times()) as u64) + ", OCR次数: "@
            + decimal_text(self.ocr_times().len()) + ", 捕获次数: "@ + decimal_text(
            self.capture_times().len(),
        )
    }

    /// The report for a monitor that has run for `total_nanos`: the running
    /// time, the two mean times, and how many of each were recorded.
    pub fn summary_after(&self, total_nanos: u64) -> (text: String)
        ensures
            text@ == self.summary_text(total_nanos),
    {
        let mean_ocr = average_exec(&self.ocr_times);
        let mean_capture = average_exec(&self.capture_times);
        let mut text = String::from_str("性能统计 - 总时间: ");
        text.append(format_duration(total_nanos).as_str());
        text.append(", 平均OCR时间: ");
        text.append(format_duration(mean_ocr).as_str());
        text.append(", 平均捕获时间: ");
        text.append(format_duration(mean_capture).as_str());
        text.append(", OCR次数: ");
        push_decimal(&mut text, self.ocr_times.len() as u64);
        text.append(", 捕获次数: ");
        push_decimal(&mut text, self.capture_times.len() as u64);
        assert(text@ =~= self.summary_text(total_nanos));
        text
    }

    /// The report as of now: `summary_after` the time that the clock gives.
    pub fn get_performance_summary(&self) -> (text: String)
        ensures
            exists|total_nanos: u64| text@ == #[trigger] self.summary_text(total_nanos),
    {
        let elapsed = elapsed_nanos(&self.start_time);
        let total_nanos: u64 = if elapsed > u64::MAX as u128 {
            u64::MAX
        } else {
            elapsed as u64
        };
        self.summary_after(total_nanos)
    }
}

/// The whole seconds in `nanos` nanoseconds, as far as 64 bits hold them.
pub open spec fn whole_secs_of(nanos: int) -> int {
    if nanos / 1_000_000_000 > u64::MAX {
        u64::MAX as int
    } else {
        nanos / 1_000_000_000
    }
}

fn whole_secs(nanos: u128) -> (secs: u64)
    ensures
        secs == whole_secs_of(nanos as int),
{
    let secs: u128 = nanos / 1_000_000_000;
    if secs > u64::MAX as u128 {
        u64::MAX
    } else {
        secs as u64
    }
}

/// What the pacing depends on: the delays and the two counts.
#[derive(Debug, Clone, Copy, PartialEq, Eq, Structural)]
pub struct DelayState {
    pub base_delay: u32,
    pub current_delay: u32,
    pub success_count: u32,
    pub failure_count: u32,
}

/// How many seconds pass between two adjustments, at least.
pub const ADJUSTMENT_PERIOD_SECS: u64 = 5;

impl DelayState {
    /// Whether the delay lies between half the base delay and its double.
    pub open spec fn in_range(self) -> bool {
        self.base_delay / 2 <= self.current_delay <= self.base_delay * 2
    }

    /// Whether more than 95 in 100 operations succeeded.
    pub open spec fn mostly_succeeding(self) -> bool {
        self.success_count * 100 > 95 * (self.success_count + self.failure_count)
    }

    /// Whether fewer than 80 in 100 operations succeeded.
    pub open spec fn often_failing(self) -> bool {
        self.success_count * 100 < 80 * (self.success_count + self.failure_count)
    }

    /// The delay after a shrink: nine tenths of it, but no less than half
    /// the base delay.
    pub open spec fn shrunk_delay(self) -> int {
        let shrunk = (self.current_delay * 9) / 10;
        let floor = self.base_delay / 2;
        if shrunk > floor {
            shrunk
        } else {
            floor as int
        }
    }

    /// The delay after a growth: twelve tenths of it, but no more than
    /// double the base delay, nor than a `u32` holds.
    pub open spec fn grown_delay(self) -> int {
        let grown = (self.current_delay * 12) / 10;
        let ceiling = self.base_delay * 2;
        let capped = if grown < ceiling {
            grown
        } else {
            ceiling
        };
        if capped > u32::MAX {
            u32::MAX as int
        } else {
            capped
        }
    }

    /// The state with one more success counted.
    pub open spec fn with_success(self) -> DelayState {
        DelayState { success_count: (self.success_count + 1) as u32, ..self }
    }

    /// The state with one more failure counted.
    pub open spec fn with_failure(self) -> DelayState {
        DelayState { failure_count: (self.failure_count + 1) as u32, ..self }
    }

    /// The state with one more operation counted, as a success or a failure.
    pub open spec fn counted(self, success: bool) -> DelayState {
        if success {
            self.with_success()
        } else {
            self.with_failure()
        }
    }

    /// Whether an adjustment is due `elapsed_secs` after the last one.
    pub open spec fn adjustment_due(self, elapsed_secs: u64) -> bool {
        elapsed_secs >= ADJUSTMENT_PERIOD_SECS && self.success_count + self.failure_count > 0
    }

    /// The state after the adjustment that is made `elapsed_secs` after the
    /// last one: none before the period is over, nor without any operation;
    /// else the delay shrinks, grows or stays, and the counts start anew.
    pub open spec fn adjusted(self, elapsed_secs: u64) -> DelayState {
        if !self.adjustment_due(elapsed_secs) {
            self
        } else {
            DelayState {
                base_delay: self.base_delay,
                current_delay: if self.mostly_succeeding() {
                    self.shrunk_delay() as u32
                } else if self.often_failing() {
                    self.grown_delay() as u32
                } else {
                    self.current_delay
                },
                success_count: 0,
                failure_count: 0,
            }
        }
    }
}

/// An adjustment keeps the delay between half the base delay and its double,
/// never grows it while operations mostly succeed, and never shrinks it
/// while they often fail.
pub proof fn lemma_adjusted_stays_in_range(state: DelayState, elapsed_secs: u64)
    requires
        state.in_range(),
    ensures
        state.adjusted(elapsed_secs).in_range(),
        state.adjusted(elapsed_secs).base_delay == state.base_delay,
        state.adjustment_due(elapsed_secs) && state.mostly_succeeding() ==> state.adjusted(
            elapsed_secs,
        ).current_delay <= state.current_delay,
        state.adjustment_due(elapsed_secs) && state.often_failing() ==> state.adjusted(
            elapsed_secs,
        ).current_delay >= state.current_delay,
{
}

/// Paces the worker: the delay between two items follows the share of
/// operations that succeed.
#[derive(Debug)]
pub struct AdaptiveDelayManager {
    base_delay: u32,
    current_delay: u32,
    success_count: u32,
    failure_count: u32,
    last_adjustment: Instant,
}

impl AdaptiveDelayManager {
    /// The delays and the counts.
    pub closed spec fn state(&self) -> DelayState {
        DelayState {
            base_delay: self.base_delay,
            current_delay: self.current_delay,
            success_count: self.success_count,
            failure_count: self.failure_count,
        }
    }

    /// The reading of the clock that the time to the next adjustment is
    /// counted from: that of the last adjustment, or of the start.
    pub closed spec fn counted_from(&self) -> Instant {
        self.last_adjustment
    }

    /// A manager that starts at the base delay, with the clock read now.
    pub fn new(base_delay: u32) -> (manager: AdaptiveDelayManager)
        ensures
            manager.state() == (DelayState {
                base_delay,
                current_delay: base_delay,
                success_count: 0,
                failure_count: 0,
            }),
    {
        AdaptiveDelayManager {
            base_delay,
            current_delay: base_delay,
            success_count: 0,
            failure_count: 0,
            last_adjustment: now(),
        }
    }

    /// A manager in the given state, with the clock read now.
    pub fn from_state(state: DelayState) -> (manager: AdaptiveDelayManager)
        ensures
            manager.state() == state,
    {
        AdaptiveDelayManager {
            base_delay: state.base_delay,
            current_delay: state.current_delay,
            success_count: state.success_count,
            failure_count: state.failure_count,
            last_adjustment: now(),
        }
    }

    /// The delays and the counts.
    pub fn get_state(&self) -> (state: DelayState)
        ensures
            state == self.state(),
    {
        DelayState {
            base_delay: self.base_delay,
            current_delay: self.current_delay,
            success_count: self.success_count,
            failure_count: self.failure_count,
        }
    }

    /// The delay to keep between two items, in milliseconds.
    pub fn get_current_delay(&self) -> (delay: u32)
        ensures
            delay == self.state().current_delay,
    {
        self.current_delay
    }

    /// Makes the adjustment that is due `elapsed_secs` after the last one.
    /// A delay between half the base delay and its double stays there.
    pub fn adjust_delay(&mut self, elapsed_secs: u64)
        ensures
            final(self).state() == old(self).state().adjusted(elapsed_secs),
            final(self).state().base_delay == old(self).state().base_delay,
            old(self).state().in_range() ==> final(self).state().in_range(),
            !old(self).state().adjustment_due(elapsed_secs) ==> final(self).counted_from() == old(self).counted_from(),
    {
        proof {
            if old(self).state().in_range() {
                lemma_adjusted_stays_in_range(old(self).state(), elapsed_secs);
            }
        }
        if elapsed_secs < ADJUSTMENT_PERIOD_SECS {
            return ;
        }
        let total: u64 = self.success_count as u64 + self.failure_count as u64;
        if total == 0 {
            return ;
        }
        let successes: u64 = self.success_count as u64;
        let current: u64 = self.current_delay as u64;
        let base: u64 = self.base_delay as u64;
        if successes * 100 > 95 * total {
            let shrunk: u64 = (current * 9) / 10;
            let floor: u64 = base / 2;
            self.current_delay = if shrunk > floor {
                shrunk as u32
            } else {
                floor as u32
            };
        } else if successes * 100 < 80 * total {
            let grown: u64 = (current * 12) / 10;
            let ceiling: u64 = base * 2;
            let capped: u64 = if grown < ceiling {
                grown
            } else {
                ceiling
            };
            self.current_delay = if capped > u32::MAX as u64 {
                u32::MAX
            } else {
                capped as u32
            };
        }
        self.success_count = 0;
        self.failure_count = 0;
        self.last_adjustment = now();
    }

    fn elapsed_secs(&self) -> (secs: u64) {
        whole_secs(elapsed_nanos(&self.last_adjustment))
    }

    /// Counts a success, then makes the adjustment that is due by the clock.
    pub fn record_success(&mut self)
        requires
            old(self).state().success_count < u32::MAX,
        ensures
            exists|elapsed_secs: u64|
                {
                    &&& final(self).state() == #[trigger] old(self).state().with_success().adjusted(
                        elapsed_secs,
                    )
                    &&& !old(self).state().with_success().adjustment_due(elapsed_secs) ==> final(self).counted_from() == old(self).counted_from()
                },
            final(self).state().base_delay == old(self).state().base_delay,
            old(self).state().in_range() ==> final(self).state().in_range(),
    {
        self.success_count += 1;
        assert(self.state() == old(self).state().with_success());
        let elapsed = self.elapsed_secs();
        self.adjust_delay(elapsed);
        assert(self.state() == old(self).state().with_success().adjusted(elapsed));
    }

    /// Counts a failure, then makes the adjustment that is due by the clock.
    pub fn record_failure(&mut self)
        requires
            old(self).state().failure_count < u32::MAX,
        ensures
            exists|elapsed_secs: u64|
                {
                    &&& final(self).state() == #[trigger] old(self).state().with_failure().adjusted(
                        elapsed_secs,
                    )
                    &&& !old(self).state().with_failure().adjustment_due(elapsed_secs) ==> final(self).counted_from() == old(self).counted_from()
                },
            final(self).state().base_delay == old(self).state().base_delay,
            old(self).state().in_range() ==> final(self).state().in_range(),
    {
        self.failure_count += 1;
        assert(self.state() == old(self).state().with_failure());
        let elapsed = self.elapsed_secs();
        self.adjust_delay(elapsed);
        assert(self.state() == old(self).state().with_failure().adjusted(elapsed));
    }
}

/// Recognises text through a model, one frame or several at a time.
pub struct OptimizedOCRRecognizer<R: ImageToText> {
    model: R,
}

impl<R: ImageToText> OptimizedOCRRecognizer<R> {
    /// The model that the recognizer reads through.
    pub closed spec fn model(&self) -> R {
        self.model
    }

    /// A recognizer that reads through `model`.
    pub fn new(model: R) -> (recognizer: OptimizedOCRRecognizer<R>)
        ensures
            recognizer.model() == model,
    {
        OptimizedOCRRecognizer { model }
    }

    /// Reads one frame: what the model gives for the frame as it is, not
    /// preprocessed.
    pub fn recognize(&self, image: &RgbImage) -> (text: Result<String, String>)
        requires
            image.wf(),
        ensures
            self.model().reads(*image, false, text),
    {
        self.model.image_to_text(image, false)
    }

    /// The mean time that the model took for a recognition, in nanoseconds:
    /// what the model tells.
    pub fn get_average_inference_time(&self) -> (mean: Option<u64>)
        ensures
            self.model().tells_mean_time(mean),
    {
        self.model.get_average_inference_time()
    }

    /// Reads each frame in turn: one outcome for each, in order, each what
    /// the model gives for its frame as it is, not preprocessed.
    pub fn batch_recognize(&self, images: &Vec<RgbImage>) -> (texts: Vec<Result<String, String>>)
        requires
            forall|i: int| 0 <= i < images@.len() ==> (#[trigger] images@[i]).wf(),
        ensures
            texts@.len() == images@.len(),
            forall|i: int|
                0 <= i < images@.len() ==> self.model().reads(
                    #[trigger] images@[i],
                    false,
                    texts@[i],
                ),
    {
        let mut texts: Vec<Result<String, String>> = Vec::new();
        let mut i: usize = 0;
        while i < images.len()
            invariant
                i <= images@.len(),
                texts@.len() == i,
                forall|k: int| 0 <= k < images@.len() ==> (#[trigger] images@[k]).wf(),
                forall|k: int|
                    0 <= k < i ==> self.model().reads(#[trigger] images@[k], false, texts@[k]),
            decreases images@.len() - i,
        {
            let outcome = self.model.image_to_text(&images[i], false);
            texts.push(outcome);
            i = i + 1;
        }
        texts
    }
}

} // verus!
