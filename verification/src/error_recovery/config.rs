use vstd::prelude::*;

use crate::error_recovery::category::ErrorCategory;
use crate::error_recovery::strategy::RecoveryStrategy;

verus! {

/// When to stop trying to recover.
#[derive(Debug, Clone, Copy, PartialEq, Eq, Structural)]
pub struct ErrorThresholds {
    /// As many failures of one category among the latest failures stop the
    /// recovery.
    pub consecutive_failure_threshold: usize,
    /// A share of failed recoveries above this stops the recovery; in parts
    /// per million.
    pub overall_error_rate_threshold_ppm: u32,
    /// As many failures within the time window stop the recovery.
    pub error_count_per_window: usize,
    /// The time window, in milliseconds.
    pub time_window: u64,
}

/// The strategy for each category that has one.
#[derive(Debug, Clone, Copy, PartialEq, Eq)]
pub struct StrategyMap {
    entries: [Option<RecoveryStrategy>; 10],
}

/// The strategy for a category that has none configured.
pub open spec fn fallback_strategy() -> RecoveryStrategy {
    RecoveryStrategy::DelayedRetry(200)
}

impl StrategyMap {
    /// The strategies by category.
    pub closed spec fn view(&self) -> Map<ErrorCategory, RecoveryStrategy> {
        Map::new(
            |c: ErrorCategory| self.entries@[c.spec_index() as int] is Some,
            |c: ErrorCategory| self.entries@[c.spec_index() as int]->Some_0,
        )
    }

    /// A map that gives no category a strategy.
    pub fn new() -> (map: StrategyMap)
        ensures
            map@ == Map::<ErrorCategory, RecoveryStrategy>::empty(),
    {
        let map = StrategyMap { entries: [None, None, None, None, None, None, None, None, None, None] };
        assert(map@ =~= Map::<ErrorCategory, RecoveryStrategy>::empty());
        map
    }

    /// Gives `category` the strategy `strategy`; the strategy it had before
    /// comes back.
    pub fn insert(&mut self, category: ErrorCategory, strategy: RecoveryStrategy) -> (before: Option<
        RecoveryStrategy,
    >)
        ensures
            final(self)@ == old(self)@.insert(category, strategy),
            before == (if old(self)@.dom().contains(category) {
                Some(old(self)@[category])
            } else {
                None
            }),
    {
        let at = category.index();
        let before = self.entries[at];
        self.entries[at] = Some(strategy);
        assert(final(self)@ =~= old(self)@.insert(category, strategy)) by {
            assert forall|c: ErrorCategory| c != category implies c.spec_index()
                != category.spec_index() by {}
        }
        before
    }

    /// The strategy of `category`, if it has one.
    pub fn get(&self, category: ErrorCategory) -> (strategy: Option<RecoveryStrategy>)
        ensures
            strategy == (if self@.dom().contains(category) {
                Some(self@[category])
            } else {
                None
            }),
    {
        self.entries[category.index()]
    }

    /// Whether `category` has a strategy.
    pub fn contains_key(&self, category: ErrorCategory) -> (has: bool)
        ensures
            has == self@.dom().contains(category),
    {
        self.entries[category.index()].is_some()
    }
}

/// How failures are recovered from.
#[derive(Debug, Clone, Copy, PartialEq, Eq)]
pub struct RecoveryConfig {
    /// How many times an operation is tried again, at most.
    pub max_retries: usize,
    pub strategy_map: StrategyMap,
    /// Whether the policy follows the observed failures.
    pub adaptive_adjustment: bool,
    pub error_thresholds: ErrorThresholds,
}

impl RecoveryConfig {
    /// The strategy for `category`: the one configured, else a retry after
    /// two hundred milliseconds.
    pub open spec fn strategy_for(&self, category: ErrorCategory) -> RecoveryStrategy {
        if self.strategy_map@.dom().contains(category) {
            self.strategy_map@[category]
        } else {
            fallback_strategy()
        }
    }

    /// The strategy for `category`: the one configured, else a retry after
    /// two hundred milliseconds.
    pub fn get_recovery_strategy(&self, category: ErrorCategory) -> (strategy: RecoveryStrategy)
        ensures
            strategy == self.strategy_for(category),
    {
        match self.strategy_map.get(category) {
            Some(strategy) => strategy,
            None => RecoveryStrategy::DelayedRetry(200),
        }
    }

    /// The usual strategies, category by category.
    pub open spec fn usual_strategies() -> Map<ErrorCategory, RecoveryStrategy> {
        Map::<ErrorCategory, RecoveryStrategy>::empty().insert(
            ErrorCategory::Network,
            RecoveryStrategy::ExponentialBackoff {
                initial_delay: 100,
                max_delay: 10_000,
                multiplier_milli: 2_000,
            },
        ).insert(ErrorCategory::IO, RecoveryStrategy::DelayedRetry(500)).insert(
            ErrorCategory::Parsing,
            RecoveryStrategy::UseDefault,
        ).insert(ErrorCategory::OCR, RecoveryStrategy::ImmediateRetry).insert(
            ErrorCategory::ImageProcessing,
            RecoveryStrategy::UseFallback,
        ).insert(ErrorCategory::ResourceExhaustion, RecoveryStrategy::DelayedRetry(1_000)).insert(
            ErrorCategory::Configuration,
            RecoveryStrategy::Fail,
        ).insert(ErrorCategory::Temporary, RecoveryStrategy::ImmediateRetry).insert(
            ErrorCategory::Permanent,
            RecoveryStrategy::Fail,
        ).insert(ErrorCategory::Unknown, RecoveryStrategy::DelayedRetry(200))
    }

    /// The usual thresholds: five failures of a category, three failed
    /// recoveries in ten, ten failures a minute.
    pub open spec fn usual_thresholds() -> ErrorThresholds {
        ErrorThresholds {
            consecutive_failure_threshold: 5,
            overall_error_rate_threshold_ppm: 300_000,
            error_count_per_window: 10,
            time_window: 60_000,
        }
    }
}

impl Default for RecoveryConfig {
    fn default() -> (config: RecoveryConfig)
        ensures
            config.max_retries == 3,
            config.strategy_map@ == RecoveryConfig::usual_strategies(),
            config.adaptive_adjustment,
            config.error_thresholds == RecoveryConfig::usual_thresholds(),
    {
        let mut strategy_map = StrategyMap::new();
        strategy_map.insert(
            ErrorCategory::Network,
            RecoveryStrategy::ExponentialBackoff {
                initial_delay: 100,
                max_delay: 10_000,
                multiplier_milli: 2_000,
            },
        );
        strategy_map.insert(ErrorCategory::IO, RecoveryStrategy::DelayedRetry(500));
        strategy_map.insert(ErrorCategory::Parsing, RecoveryStrategy::UseDefault);
        strategy_map.insert(ErrorCategory::OCR, RecoveryStrategy::ImmediateRetry);
        strategy_map.insert(ErrorCategory::ImageProcessing, RecoveryStrategy::UseFallback);
        strategy_map.insert(ErrorCategory::ResourceExhaustion, RecoveryStrategy::DelayedRetry(1_000));
        strategy_map.insert(ErrorCategory::Configuration, RecoveryStrategy::Fail);
        strategy_map.insert(ErrorCategory::Temporary, RecoveryStrategy::ImmediateRetry);
        strategy_map.insert(ErrorCategory::Permanent, RecoveryStrategy::Fail);
        strategy_map.insert(ErrorCategory::Unknown, RecoveryStrategy::DelayedRetry(200));
        RecoveryConfig {
            max_retries: 3,
            strategy_map,
            adaptive_adjustment: true,
            error_thresholds: ErrorThresholds {
                consecutive_failure_threshold: 5,
                overall_error_rate_threshold_ppm: 300_000,
                error_count_per_window: 10,
                time_window: 60_000,
            },
        }
    }
}

} // verus!
