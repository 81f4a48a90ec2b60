use vstd::prelude::*;

use crate::error_recovery::category::ErrorCategory;

verus! {

/// What to do about a failure. Delays are in milliseconds.
#[derive(Debug, Clone, Copy, PartialEq, Eq, Structural)]
pub enum RecoveryStrategy {
    /// Try again at once.
    ImmediateRetry,
    /// Wait, then try again.
    DelayedRetry(u64),
    /// Try again after waits that grow by `multiplier_milli` thousandths
    /// from one to the next, up to `max_delay`.
    ExponentialBackoff { initial_delay: u64, max_delay: u64, multiplier_milli: u32 },
    /// Leave the operation out.
    Skip,
    /// Go on with a default value.
    UseDefault,
    /// Go on by other means.
    UseFallback,
    /// Give up.
    Fail,
}

/// The lesser of two waits.
pub open spec fn lesser(a: u64, b: u64) -> u64 {
    if a < b {
        a
    } else {
        b
    }
}

/// The wait that follows a wait of `current` milliseconds: `current` scaled
/// by the multiplier and rounded down, but no less than `current`, and
/// `max_delay` at most.
pub open spec fn next_backoff_delay(current: u64, max_delay: u64, multiplier_milli: u32) -> u64 {
    let scaled = (current * multiplier_milli) / 1000;
    if scaled >= max_delay || current >= max_delay {
        max_delay
    } else if scaled > current {
        scaled as u64
    } else {
        current
    }
}

/// The wait before the `k`-th retry, counted from one: the initial delay
/// before the first, `max_delay` at most, and after that each wait grown
/// from the one before.
pub open spec fn backoff_delay(
    initial_delay: u64,
    max_delay: u64,
    multiplier_milli: u32,
    k: nat,
) -> u64
    decreases k,
{
    if k <= 1 {
        lesser(initial_delay, max_delay)
    } else {
        next_backoff_delay(
            backoff_delay(initial_delay, max_delay, multiplier_milli, (k - 1) as nat),
            max_delay,
            multiplier_milli,
        )
    }
}

/// Computes `next_backoff_delay`.
pub fn grow_backoff_delay(current: u64, max_delay: u64, multiplier_milli: u32) -> (next: u64)
    ensures
        next == next_backoff_delay(current, max_delay, multiplier_milli),
        next <= max_delay,
        current <= max_delay ==> current <= next,
{
    assert(0 <= current * multiplier_milli <= 0xffff_ffff_ffff_ffff * 0xffff_ffff)
        by (nonlinear_arith)
        requires
            0 <= current <= 0xffff_ffff_ffff_ffff,
            0 <= multiplier_milli <= 0xffff_ffff,
    ;
    let scaled: u128 = ((current as u128) * (multiplier_milli as u128)) / 1000;
    if scaled >= max_delay as u128 || current >= max_delay {
        max_delay
    } else if scaled > current as u128 {
        scaled as u64
    } else {
        current
    }
}

/// Whatever the delays and the multiplier, no wait is more than
/// `max_delay`.
pub proof fn lemma_backoff_is_bounded(
    initial_delay: u64,
    max_delay: u64,
    multiplier_milli: u32,
    k: nat,
)
    ensures
        backoff_delay(initial_delay, max_delay, multiplier_milli, k) <= max_delay,
{
}

/// Whatever the delays and the multiplier, the waits never shrink, and none
/// is more than `max_delay`.
pub proof fn lemma_backoff_never_shrinks(
    initial_delay: u64,
    max_delay: u64,
    multiplier_milli: u32,
    k: nat,
)
    ensures
        backoff_delay(initial_delay, max_delay, multiplier_milli, k) <= backoff_delay(
            initial_delay,
            max_delay,
            multiplier_milli,
            k + 1,
        ),
        backoff_delay(initial_delay, max_delay, multiplier_milli, k + 1) <= max_delay,
{
    let d = backoff_delay(initial_delay, max_delay, multiplier_milli, k);
    lemma_backoff_is_bounded(initial_delay, max_delay, multiplier_milli, k);
    if k >= 1 {
        assert(backoff_delay(initial_delay, max_delay, multiplier_milli, k + 1)
            == next_backoff_delay(d, max_delay, multiplier_milli));
    } else {
        assert(backoff_delay(initial_delay, max_delay, multiplier_milli, 1) == d);
    }
}

impl ErrorCategory {
    /// The strategy that suits a failure of this category, where nothing
    /// else is configured.
    pub open spec fn spec_suggested_recovery(self) -> RecoveryStrategy {
        match self {
            ErrorCategory::Network => RecoveryStrategy::ExponentialBackoff {
                initial_delay: 100,
                max_delay: 5_000,
                multiplier_milli: 2_000,
            },
            ErrorCategory::Temporary => RecoveryStrategy::ImmediateRetry,
            ErrorCategory::Parsing => RecoveryStrategy::UseDefault,
            ErrorCategory::Permanent => RecoveryStrategy::Fail,
            ErrorCategory::Configuration => RecoveryStrategy::Fail,
            _ => RecoveryStrategy::DelayedRetry(100),
        }
    }

    /// The strategy that suits a failure of this category, where nothing
    /// else is configured.
    #[verifier::when_used_as_spec(spec_suggested_recovery)]
    pub fn suggested_recovery(self) -> (strategy: RecoveryStrategy)
        ensures
            strategy == self.spec_suggested_recovery(),
    {
        match self {
            ErrorCategory::Network => RecoveryStrategy::ExponentialBackoff {
                initial_delay: 100,
                max_delay: 5_000,
                multiplier_milli: 2_000,
            },
            ErrorCategory::Temporary => RecoveryStrategy::ImmediateRetry,
            ErrorCategory::Parsing => RecoveryStrategy::UseDefault,
            ErrorCategory::Permanent => RecoveryStrategy::Fail,
            ErrorCategory::Configuration => RecoveryStrategy::Fail,
            _ => RecoveryStrategy::DelayedRetry(100),
        }
    }
}

/// A failure that the recovery policy can classify.
pub trait RecoverableError {
    /// Whether `category` is a category that this failure may report:
    /// any, unless the failure says more of itself.
    open spec fn has_category(&self, category: ErrorCategory) -> bool {
        true
    }

    /// The category of the failure.
    fn error_category(&self) -> (category: ErrorCategory)
        ensures
            self.has_category(category),
    ;

    /// Whether the failure is worth retrying: by its category, unless the
    /// failure knows better.
    fn is_retryable(&self) -> (retry: bool)
        default_ensures
            exists|category: ErrorCategory| #[trigger]
                self.has_category(category) && retry == category.spec_is_retryable(),
    {
        self.error_category().is_retryable()
    }

    /// The strategy that suits the failure: that of its category, unless the
    /// failure knows better.
    fn suggested_recovery(&self) -> (strategy: RecoveryStrategy)
        default_ensures
            exists|category: ErrorCategory| #[trigger]
                self.has_category(category) && strategy == category.spec_suggested_recovery(),
    {
        self.error_category().suggested_recovery()
    }
}

} // verus!
