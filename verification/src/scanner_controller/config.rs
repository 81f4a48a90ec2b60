use vstd::prelude::*;

verus! {

/// How the controller paces itself.
#[derive(Debug, Clone, Copy, PartialEq, Eq, Structural)]
pub struct GenshinRepositoryScannerLogicConfig {
    /// The most rows to scan; a negative number sets no limit.
    pub max_row: i32,
    /// How long the wheel rests after a notch, in milliseconds.
    pub scroll_delay: i32,
    /// How long to wait for the next item to show, at most, in milliseconds.
    pub max_wait_switch_item: i32,
    /// How long to wait for the next item in a streamed game, in
    /// milliseconds.
    pub cloud_wait_switch_item: i32,
    /// Whether to wait less.
    pub fast_mode: bool,
    /// Whether the delays follow the observed timing.
    pub adaptive_timing: bool,
    /// Whether timings are recorded.
    pub performance_monitor: bool,
}

/// Four fifths of `ms`, rounded towards nought.
pub open spec fn four_fifths(ms: int) -> int {
    if ms >= 0 {
        (ms * 4) / 5
    } else {
        -((-ms * 4) / 5)
    }
}

fn four_fifths_exec(ms: i32) -> (reduced: i32)
    ensures
        reduced == four_fifths(ms as int),
{
    let wide: i64 = ms as i64;
    if wide >= 0 {
        ((wide * 4) / 5) as i32
    } else {
        (-((-wide * 4) / 5)) as i32
    }
}

impl GenshinRepositoryScannerLogicConfig {
    /// The usual pacing.
    pub open spec fn usual() -> GenshinRepositoryScannerLogicConfig {
        GenshinRepositoryScannerLogicConfig {
            max_row: -1i32,
            scroll_delay: 50,
            max_wait_switch_item: 600,
            cloud_wait_switch_item: 200,
            fast_mode: false,
            adaptive_timing: true,
            performance_monitor: false,
        }
    }

    /// The longest wait for the next item: a fifth less in fast mode.
    pub open spec fn optimized_switch_wait(&self) -> int {
        if self.fast_mode {
            four_fifths(self.max_wait_switch_item as int)
        } else {
            self.max_wait_switch_item as int
        }
    }

    /// The wait for the next item in a streamed game: a fifth less in fast
    /// mode.
    pub open spec fn optimized_cloud_wait(&self) -> int {
        if self.fast_mode {
            four_fifths(self.cloud_wait_switch_item as int)
        } else {
            self.cloud_wait_switch_item as int
        }
    }

    /// The longest wait for the next item: a fifth less in fast mode.
    pub fn get_optimized_switch_wait(&self) -> (ms: i32)
        ensures
            ms == self.optimized_switch_wait(),
    {
        if self.fast_mode {
            four_fifths_exec(self.max_wait_switch_item)
        } else {
            self.max_wait_switch_item
        }
    }

    /// The wait for the next item in a streamed game: a fifth less in fast
    /// mode.
    pub fn get_optimized_cloud_wait(&self) -> (ms: i32)
        ensures
            ms == self.optimized_cloud_wait(),
    {
        if self.fast_mode {
            four_fifths_exec(self.cloud_wait_switch_item)
        } else {
            self.cloud_wait_switch_item
        }
    }
}

impl Default for GenshinRepositoryScannerLogicConfig {
    fn default() -> (config: GenshinRepositoryScannerLogicConfig)
        ensures
            config == GenshinRepositoryScannerLogicConfig::usual(),
    {
        GenshinRepositoryScannerLogicConfig {
            max_row: -1,
            scroll_delay: 50,
            max_wait_switch_item: 600,
            cloud_wait_switch_item: 200,
            fast_mode: false,
            adaptive_timing: true,
            performance_monitor: false,
        }
    }
}

} // verus!
