use vstd::prelude::*;
use vstd::string::*;

use crate::error_recovery::category::ErrorCategory;
use crate::error_recovery::config::{ErrorThresholds, RecoveryConfig};
use crate::error_recovery::statistics::{
    dropped_of, later_than, lemma_trailing_all_match, trailing_matches, with_recent,
    ErrorStatistics,
};
use crate::error_recovery::strategy::{
    grow_backoff_delay, lesser, next_backoff_delay, RecoveryStrategy,
};

verus! {

/// How a recovery ended.
#[derive(Debug, Clone, Copy, PartialEq, Eq, Structural)]
pub enum RecoveryVerdict {
    /// The operation succeeded on a retry.
    Recovered,
    /// Every allowed try failed.
    MaxRetriesExceeded,
    /// No recovery was tried: the strategy is to fail, or failures pile up.
    RecoveryAborted,
    /// The operation is to be left out.
    OperationSkipped,
    /// A default value is to be used.
    UseDefaultRequested,
    /// Other means are to be used.
    UseFallbackRequested,
}

/// Why an operation was not recovered. The first two carry the failure: the
/// last one met, and the one that started the recovery.
#[derive(Debug, Clone, PartialEq, Eq)]
pub enum RecoveryError<E> {
    MaxRetriesExceeded(E),
    RecoveryAborted(E),
    OperationSkipped,
    UseDefaultRequested,
    UseFallbackRequested,
}

impl<E> RecoveryError<E> {
    /// The verdict that the error stands for.
    pub open spec fn spec_verdict(&self) -> RecoveryVerdict {
        match self {
            RecoveryError::MaxRetriesExceeded(_) => RecoveryVerdict::MaxRetriesExceeded,
            RecoveryError::RecoveryAborted(_) => RecoveryVerdict::RecoveryAborted,
            RecoveryError::OperationSkipped => RecoveryVerdict::OperationSkipped,
            RecoveryError::UseDefaultRequested => RecoveryVerdict::UseDefaultRequested,
            RecoveryError::UseFallbackRequested => RecoveryVerdict::UseFallbackRequested,
        }
    }

    /// The verdict that the error stands for.
    #[verifier::when_used_as_spec(spec_verdict)]
    pub fn verdict(&self) -> (verdict: RecoveryVerdict)
        ensures
            verdict == self.spec_verdict(),
    {
        match self {
            RecoveryError::MaxRetriesExceeded(_) => RecoveryVerdict::MaxRetriesExceeded,
            RecoveryError::RecoveryAborted(_) => RecoveryVerdict::RecoveryAborted,
            RecoveryError::OperationSkipped => RecoveryVerdict::OperationSkipped,
            RecoveryError::UseDefaultRequested => RecoveryVerdict::UseDefaultRequested,
            RecoveryError::UseFallbackRequested => RecoveryVerdict::UseFallbackRequested,
        }
    }

    /// The error for a verdict, with the failure that goes with it; none for
    /// a recovery that succeeded.
    pub fn from_verdict(verdict: RecoveryVerdict, failure: E) -> (error: Option<RecoveryError<E>>)
        ensures
            verdict == RecoveryVerdict::Recovered <==> error is None,
            error matches Some(e) ==> e.spec_verdict() == verdict,
            verdict == RecoveryVerdict::MaxRetriesExceeded ==> error == Some(
                RecoveryError::MaxRetriesExceeded(failure),
            ),
            verdict == RecoveryVerdict::RecoveryAborted ==> error == Some(
                RecoveryError::RecoveryAborted(failure),
            ),
    {
        match verdict {
            RecoveryVerdict::Recovered => None,
            RecoveryVerdict::MaxRetriesExceeded => Some(RecoveryError::MaxRetriesExceeded(failure)),
            RecoveryVerdict::RecoveryAborted => Some(RecoveryError::RecoveryAborted(failure)),
            RecoveryVerdict::OperationSkipped => Some(RecoveryError::OperationSkipped),
            RecoveryVerdict::UseDefaultRequested => Some(RecoveryError::UseDefaultRequested),
            RecoveryVerdict::UseFallbackRequested => Some(RecoveryError::UseFallbackRequested),
        }
    }

    /// The error in words; `failure` is the text of the failure it carries.
    pub open spec fn description(&self, failure: Seq<char>) -> Seq<char> {
        match self {
            RecoveryError::MaxRetriesExceeded(_) => "达到最大重试次数: "@ + failure,
            RecoveryError::RecoveryAborted(_) => "恢复被中止: "@ + failure,
            RecoveryError::OperationSkipped => "操作被跳过"@,
            RecoveryError::UseDefaultRequested => "需要使用默认值"@,
            RecoveryError::UseFallbackRequested => "需要使用备用方法"@,
        }
    }

    /// The error in words; `failure` is the text of the failure it carries.
    pub fn describe(&self, failure: &str) -> (text: String)
        ensures
            text@ == self.description(failure@),
    {
        match self {
            RecoveryError::MaxRetriesExceeded(_) => {
                let mut text = String::from_str("达到最大重试次数: ");
                text.append(failure);
                text
            },
            RecoveryError::RecoveryAborted(_) => {
                let mut text = String::from_str("恢复被中止: ");
                text.append(failure);
                text
            },
            RecoveryError::OperationSkipped => String::from_str("操作被跳过"),
            RecoveryError::UseDefaultRequested => String::from_str("需要使用默认值"),
            RecoveryError::UseFallbackRequested => String::from_str("需要使用备用方法"),
        }
    }
}

/// How the retries of one recovery are spaced.
#[derive(Debug, Clone, Copy, PartialEq, Eq, Structural)]
pub enum RetryPlan {
    /// The same wait of `delay` milliseconds before every retry.
    Fixed { delay: u64 },
    /// Waits that grow by a factor: `next_delay` comes before the next retry.
    Backoff { next_delay: u64, max_delay: u64, multiplier_milli: u32 },
}

/// One recovery under way.
#[derive(Debug, Clone, Copy, PartialEq, Eq, Structural)]
pub struct RecoverySession {
    pub plan: RetryPlan,
    /// The number of the try that is under way, counted from nought.
    pub attempt: usize,
}

/// What the driver of a recovery is to do next.
#[derive(Debug, Clone, Copy, PartialEq, Eq, Structural)]
pub enum RecoveryStep {
    /// Wait for `after_ms` milliseconds, try the operation, and report how
    /// it went.
    Attempt { after_ms: u64, session: RecoverySession },
    /// The recovery is over.
    Done(RecoveryVerdict),
}

/// Whether the circuit is broken for `category` at `now`: as many of the
/// latest failures as the threshold says are of the category, or too many
/// failures fall in the time window, or too large a share of recoveries
/// failed.
pub open spec fn breaker_open(
    recent: Seq<(u64, ErrorCategory)>,
    failed: nat,
    total: nat,
    thresholds: ErrorThresholds,
    now: u64,
    category: ErrorCategory,
) -> bool {
    ||| trailing_matches(recent, thresholds.consecutive_failure_threshold as nat, category)
        >= thresholds.consecutive_failure_threshold
    ||| later_than(recent, now - thresholds.time_window).len() >= thresholds.error_count_per_window
    ||| total > 0 && failed * 1_000_000 > thresholds.overall_error_rate_threshold_ppm * total
}

/// Whether a strategy tries the operation again.
pub open spec fn retries(strategy: RecoveryStrategy) -> bool {
    strategy is ImmediateRetry || strategy is DelayedRetry || strategy is ExponentialBackoff
}

/// How a recovery starts under `strategy`, where `max_retries` tries are
/// allowed. A strategy that does not retry ends the recovery at once with
/// its own verdict. One that retries has its first try after the
/// strategy's delay, or at once; where no try is allowed it ends at once,
/// with the tries used up.
pub open spec fn first_step(strategy: RecoveryStrategy, max_retries: usize) -> RecoveryStep {
    match strategy {
        RecoveryStrategy::Fail => RecoveryStep::Done(RecoveryVerdict::RecoveryAborted),
        RecoveryStrategy::Skip => RecoveryStep::Done(RecoveryVerdict::OperationSkipped),
        RecoveryStrategy::UseDefault => RecoveryStep::Done(RecoveryVerdict::UseDefaultRequested),
        RecoveryStrategy::UseFallback => RecoveryStep::Done(RecoveryVerdict::UseFallbackRequested),
        _ => if max_retries == 0 {
            RecoveryStep::Done(RecoveryVerdict::MaxRetriesExceeded)
        } else {
            RecoveryStep::Attempt {
                after_ms: first_wait(strategy),
                session: RecoverySession { plan: plan_of(strategy), attempt: 0 },
            }
        },
    }
}

/// The wait before the first try: the delay of a delayed retry, else none.
pub open spec fn first_wait(strategy: RecoveryStrategy) -> u64 {
    match strategy {
        RecoveryStrategy::DelayedRetry(delay) => delay,
        _ => 0,
    }
}

/// How the retries are spaced under a strategy that retries: by the delay
/// of a delayed retry, by nothing for an immediate one, and for a backoff
/// by waits that start at the initial delay, `max_delay` at most.
pub open spec fn plan_of(strategy: RecoveryStrategy) -> RetryPlan {
    match strategy {
        RecoveryStrategy::DelayedRetry(delay) => RetryPlan::Fixed { delay },
        RecoveryStrategy::ExponentialBackoff {
            initial_delay,
            max_delay,
            multiplier_milli,
        } => RetryPlan::Backoff {
            next_delay: lesser(initial_delay, max_delay),
            max_delay,
            multiplier_milli,
        },
        _ => RetryPlan::Fixed { delay: 0 },
    }
}

/// The try that follows a failed one: the wait before it, and the recovery
/// as it stands then. On the fixed plan the wait is the plan's delay; on
/// the growing plan it is the wait that the plan holds, and the plan goes
/// on with the wait grown from it.
pub open spec fn retry_step(session: RecoverySession) -> RecoveryStep {
    match session.plan {
        RetryPlan::Fixed { delay } => RecoveryStep::Attempt {
            after_ms: delay,
            session: RecoverySession { plan: session.plan, attempt: (session.attempt + 1) as usize },
        },
        RetryPlan::Backoff { next_delay, max_delay, multiplier_milli } => RecoveryStep::Attempt {
            after_ms: next_delay,
            session: RecoverySession {
                plan: RetryPlan::Backoff {
                    next_delay: next_backoff_delay(next_delay, max_delay, multiplier_milli),
                    max_delay,
                    multiplier_milli,
                },
                attempt: (session.attempt + 1) as usize,
            },
        },
    }
}

/// Decides whether and how failures are recovered from, and keeps count.
#[derive(Debug)]
pub struct ErrorRecoveryManager {
    config: RecoveryConfig,
    statistics: ErrorStatistics,
}

impl ErrorRecoveryManager {
    /// The policy.
    pub closed spec fn config(&self) -> RecoveryConfig {
        self.config
    }

    /// The counts.
    pub closed spec fn statistics(&self) -> ErrorStatistics {
        self.statistics
    }

    /// Whether the breaker is open for `category` at `now`, by the counts as
    /// they stand.
    pub open spec fn breaker_is_open(&self, now: u64, category: ErrorCategory) -> bool {
        breaker_open(
            self.statistics().recent_errors@,
            self.statistics().failed_recoveries as nat,
            self.statistics().total_errors as nat,
            self.config().error_thresholds,
            now,
            category,
        )
    }

    /// A manager with the policy `config` and counts of nothing.
    pub fn new(config: RecoveryConfig) -> (manager: ErrorRecoveryManager)
        ensures
            manager.config() == config,
            manager.statistics().total_errors == 0,
            manager.statistics().successful_recoveries == 0,
            manager.statistics().failed_recoveries == 0,
            manager.statistics().recent_errors@.len() == 0,
            forall|c: ErrorCategory| manager.statistics().count_of(c) == 0,
    {
        ErrorRecoveryManager { config, statistics: ErrorStatistics::new() }
    }

    /// A manager with the usual policy.
    pub fn new_default() -> (manager: ErrorRecoveryManager)
        ensures
            manager.config().max_retries == 3,
            manager.config().strategy_map@ == RecoveryConfig::usual_strategies(),
            manager.config().adaptive_adjustment,
            manager.config().error_thresholds == RecoveryConfig::usual_thresholds(),
            manager.statistics().total_errors == 0,
            manager.statistics().successful_recoveries == 0,
            manager.statistics().failed_recoveries == 0,
            manager.statistics().recent_errors@.len() == 0,
            forall|c: ErrorCategory| manager.statistics().count_of(c) == 0,
    {
        ErrorRecoveryManager::new(RecoveryConfig::default())
    }

    /// The counts.
    pub fn get_statistics(&self) -> (stats: &ErrorStatistics)
        ensures
            *stats == self.statistics(),
    {
        &self.statistics
    }

    /// The policy.
    pub fn get_config(&self) -> (config: &RecoveryConfig)
        ensures
            *config == self.config(),
    {
        &self.config
    }

    /// Forgets the latest failures that are two time windows old or older.
    pub fn cleanup_statistics(&mut self, now: u64)
        ensures
            final(self).config() == old(self).config(),
            final(self).statistics().recent_errors@ == later_than(
                old(self).statistics().recent_errors@,
                now - 2 * old(self).config().error_thresholds.time_window,
            ),
            final(self).statistics().total_errors == old(self).statistics().total_errors,
            final(self).statistics().successful_recoveries == old(
                self,
            ).statistics().successful_recoveries,
            final(self).statistics().failed_recoveries == old(self).statistics().failed_recoveries,
            final(self).statistics().category_counts == old(self).statistics().category_counts,
    {
        let window = self.config.error_thresholds.time_window;
        if window <= u64::MAX / 2 {
            self.statistics.cleanup_old_errors(now, 2 * window);
        } else {
            proof {
                lemma_later_than_all(self.statistics.recent_errors@, now - 2 * window);
            }
        }
    }

    /// Whether recovery is to be tried for `category` at `now`: not while the
    /// breaker is open.
    pub fn should_attempt_recovery(&self, now: u64, category: ErrorCategory) -> (attempt: bool)
        ensures
            attempt == !self.breaker_is_open(now, category),
    {
        let thresholds = self.config.error_thresholds;
        let recent_failures = self.statistics.recent_failures_of(
            thresholds.consecutive_failure_threshold,
            category,
        );
        if recent_failures >= thresholds.consecutive_failure_threshold {
            return false;
        }
        if self.statistics.error_count_in_window(now, thresholds.time_window)
            >= thresholds.error_count_per_window {
            return false;
        }
        let failed: u128 = self.statistics.failed_recoveries as u128;
        let total: u128 = self.statistics.total_errors as u128;
        assert(failed * 1_000_000 <= 0xffff_ffff_ffff_ffff * 1_000_000 && thresholds.overall_error_rate_threshold_ppm
            * total <= 0xffff_ffff * 0xffff_ffff_ffff_ffff) by (nonlinear_arith)
            requires
                failed <= 0xffff_ffff_ffff_ffff,
                total <= 0xffff_ffff_ffff_ffff,
                thresholds.overall_error_rate_threshold_ppm <= 0xffff_ffff,
        ;
        if total > 0 && failed * 1_000_000 > (thresholds.overall_error_rate_threshold_ppm as u128)
            * total {
            return false;
        }
        true
    }

    /// Starts the recovery from a failure of `category` met at `now`. The
    /// failure is recorded first. Then, if the breaker is open, the recovery
    /// is aborted and the operation is not tried; else the strategy of the
    /// category says how to go on.
    pub fn begin_recovery(&mut self, now: u64, category: ErrorCategory) -> (step: RecoveryStep)
        requires
            old(self).statistics().has_room_for(category),
        ensures
            final(self).config() == old(self).config(),
            final(self).statistics().total_errors == old(self).statistics().total_errors + 1,
            final(self).statistics().count_of(category) == old(self).statistics().count_of(
                category,
            ) + 1,
            forall|c: ErrorCategory|
                c != category ==> final(self).statistics().count_of(c) == old(
                    self,
                ).statistics().count_of(c),
            final(self).statistics().recent_errors@ == with_recent(
                old(self).statistics().recent_errors@,
                now,
                category,
                old(self).config().error_thresholds.consecutive_failure_threshold as nat,
            ),
            final(self).statistics().successful_recoveries == old(
                self,
            ).statistics().successful_recoveries,
            final(self).statistics().failed_recoveries == old(self).statistics().failed_recoveries,
            step == (if final(self).breaker_is_open(now, category) {
                RecoveryStep::Done(RecoveryVerdict::RecoveryAborted)
            } else {
                first_step(old(self).config().strategy_for(category), old(self).config().max_retries)
            }),
            step matches RecoveryStep::Attempt { session, .. } ==> session.attempt < old(
                self,
            ).config().max_retries,
    {
        self.statistics.record_error_keeping(
            now,
            category,
            self.config.error_thresholds.consecutive_failure_threshold,
        );
        if !self.should_attempt_recovery(now, category) {
            return RecoveryStep::Done(RecoveryVerdict::RecoveryAborted);
        }
        let strategy = self.config.get_recovery_strategy(category);
        let (after_ms, plan) = match strategy {
            RecoveryStrategy::Fail => {
                return RecoveryStep::Done(RecoveryVerdict::RecoveryAborted);
            },
            RecoveryStrategy::Skip => {
                return RecoveryStep::Done(RecoveryVerdict::OperationSkipped);
            },
            RecoveryStrategy::UseDefault => {
                return RecoveryStep::Done(RecoveryVerdict::UseDefaultRequested);
            },
            RecoveryStrategy::UseFallback => {
                return RecoveryStep::Done(RecoveryVerdict::UseFallbackRequested);
            },
            RecoveryStrategy::ImmediateRetry => (0, RetryPlan::Fixed { delay: 0 }),
            RecoveryStrategy::DelayedRetry(delay) => (delay, RetryPlan::Fixed { delay }),
            RecoveryStrategy::ExponentialBackoff { initial_delay, max_delay, multiplier_milli } => (
                0,
                RetryPlan::Backoff {
                    next_delay: if initial_delay < max_delay {
                        initial_delay
                    } else {
                        max_delay
                    },
                    max_delay,
                    multiplier_milli,
                },
            ),
        };
        if self.config.max_retries == 0 {
            return RecoveryStep::Done(RecoveryVerdict::MaxRetriesExceeded);
        }
        RecoveryStep::Attempt { after_ms, session: RecoverySession { plan, attempt: 0 } }
    }

    /// Takes the report that the try under way succeeded: the recovery is
    /// counted as a success, and is over.
    pub fn report_success(&mut self) -> (verdict: RecoveryVerdict)
        requires
            old(self).statistics().successful_recoveries < usize::MAX,
        ensures
            verdict == RecoveryVerdict::Recovered,
            final(self).config() == old(self).config(),
            final(self).statistics().successful_recoveries == old(
                self,
            ).statistics().successful_recoveries + 1,
            final(self).statistics().total_errors == old(self).statistics().total_errors,
            final(self).statistics().failed_recoveries == old(self).statistics().failed_recoveries,
            final(self).statistics().category_counts == old(self).statistics().category_counts,
            final(self).statistics().recent_errors == old(self).statistics().recent_errors,
    {
        self.statistics.record_successful_recovery();
        RecoveryVerdict::Recovered
    }

    /// Takes the report that the try under way failed, at `now`, with a
    /// failure of `category`. After the last allowed try the recovery is
    /// counted as failed, and is over. Before that the failure is recorded
    /// and the next try is due after the wait that the plan gives.
    pub fn report_failure(
        &mut self,
        now: u64,
        session: RecoverySession,
        category: ErrorCategory,
    ) -> (step: RecoveryStep)
        requires
            session.attempt < old(self).config().max_retries,
            session.attempt + 1 < old(self).config().max_retries ==> old(
                self,
            ).statistics().has_room_for(category),
            session.attempt + 1 == old(self).config().max_retries ==> old(
                self,
            ).statistics().failed_recoveries < usize::MAX,
        ensures
            final(self).config() == old(self).config(),
            final(self).statistics().successful_recoveries == old(
                self,
            ).statistics().successful_recoveries,
            forall|c: ErrorCategory|
                c != category ==> final(self).statistics().count_of(c) == old(
                    self,
                ).statistics().count_of(c),
            session.attempt + 1 == old(self).config().max_retries ==> {
                &&& step == RecoveryStep::Done(RecoveryVerdict::MaxRetriesExceeded)
                &&& final(self).statistics().failed_recoveries == old(
                    self,
                ).statistics().failed_recoveries + 1
                &&& final(self).statistics().total_errors == old(self).statistics().total_errors
                &&& final(self).statistics().count_of(category) == old(
                    self,
                ).statistics().count_of(category)
                &&& final(self).statistics().recent_errors == old(self).statistics().recent_errors
            },
            session.attempt + 1 < old(self).config().max_retries ==> {
                &&& step == retry_step(session)
                &&& final(self).statistics().failed_recoveries == old(
                    self,
                ).statistics().failed_recoveries
                &&& final(self).statistics().total_errors == old(self).statistics().total_errors
                    + 1
                &&& final(self).statistics().count_of(category) == old(
                    self,
                ).statistics().count_of(category) + 1
                &&& final(self).statistics().recent_errors@ == with_recent(
                    old(self).statistics().recent_errors@,
                    now,
                    category,
                    old(self).config().error_thresholds.consecutive_failure_threshold as nat,
                )
            },
            step matches RecoveryStep::Attempt { session: next, .. } ==> next.attempt < old(
                self,
            ).config().max_retries,
    {
        if session.attempt == self.config.max_retries - 1 {
            self.statistics.record_failed_recovery();
            return RecoveryStep::Done(RecoveryVerdict::MaxRetriesExceeded);
        }
        self.statistics.record_error_keeping(
            now,
            category,
            self.config.error_thresholds.consecutive_failure_threshold,
        );
        match session.plan {
            RetryPlan::Fixed { delay } => RecoveryStep::Attempt {
                after_ms: delay,
                session: RecoverySession { plan: session.plan, attempt: session.attempt + 1 },
            },
            RetryPlan::Backoff { next_delay, max_delay, multiplier_milli } => RecoveryStep::Attempt {
                after_ms: next_delay,
                session: RecoverySession {
                    plan: RetryPlan::Backoff {
                        next_delay: grow_backoff_delay(next_delay, max_delay, multiplier_milli),
                        max_delay,
                        multiplier_milli,
                    },
                    attempt: session.attempt + 1,
                },
            },
        }
    }
}

/// The wait that a step asks for; nought for a step that ends the recovery.
pub open spec fn wait_of(step: RecoveryStep) -> u64 {
    match step {
        RecoveryStep::Attempt { after_ms, .. } => after_ms,
        RecoveryStep::Done(_) => 0,
    }
}

/// The longest wait that a plan can still ask for: on the fixed plan its
/// delay, on the growing plan the wait that the plan holds or its longest
/// delay, whichever is longer.
pub open spec fn longest_wait(plan: RetryPlan) -> int {
    match plan {
        RetryPlan::Fixed { delay } => delay as int,
        RetryPlan::Backoff { next_delay, max_delay, .. } => if next_delay > max_delay {
            next_delay as int
        } else {
            max_delay as int
        },
    }
}

/// Whether a plan holds a wait of its longest delay at most. The plan that
/// a recovery starts with does, and so does every plan that follows it.
pub open spec fn within_cap(plan: RetryPlan) -> bool {
    match plan {
        RetryPlan::Fixed { .. } => true,
        RetryPlan::Backoff { next_delay, max_delay, .. } => next_delay <= max_delay,
    }
}

/// Every wait between two tries is bounded by the longest wait of the plan,
/// and the plan that follows has no longer a longest wait: no recovery waits
/// without end.
pub proof fn lemma_waits_are_bounded(session: RecoverySession)
    ensures
        wait_of(retry_step(session)) <= longest_wait(session.plan),
        retry_step(session) matches RecoveryStep::Attempt { session: next, .. } ==> next.attempt
            == (session.attempt + 1) as usize && longest_wait(next.plan) <= longest_wait(
            session.plan,
        ),
{
}

/// A recovery starts with a plan whose wait is within its cap, whatever the
/// strategy: the first wait of a backoff is `max_delay` at most. The wait
/// before the first try is no longer than the wait before the second.
pub proof fn lemma_first_plan_is_within_cap(strategy: RecoveryStrategy, max_retries: usize)
    ensures
        first_step(strategy, max_retries) matches RecoveryStep::Attempt { after_ms, session } ==> {
            &&& within_cap(session.plan)
            &&& session.attempt == 0
            &&& after_ms <= wait_of(retry_step(session))
            &&& (strategy matches RecoveryStrategy::ExponentialBackoff { max_delay, .. }
                ==> wait_of(retry_step(session)) <= max_delay)
        },
{
}

/// The waits of a recovery never shrink and never pass the cap: from a plan
/// that is within its cap, the wait after the next is no shorter than the
/// next, both are within the cap, and the plan stays within its cap,
/// whatever the multiplier.
pub proof fn lemma_waits_never_shrink(session: RecoverySession)
    requires
        within_cap(session.plan),
    ensures
        retry_step(session) matches RecoveryStep::Attempt { after_ms, session: next } ==> {
            &&& within_cap(next.plan)
            &&& after_ms <= wait_of(retry_step(next))
            &&& wait_of(retry_step(next)) <= longest_wait(session.plan)
            &&& (session.plan matches RetryPlan::Backoff { max_delay, .. } ==> wait_of(
                retry_step(next),
            ) <= max_delay)
        },
{
}

/// The session that follows a failed try.
pub open spec fn next_session(session: RecoverySession) -> RecoverySession {
    match retry_step(session) {
        RecoveryStep::Attempt { session: next, .. } => next,
        RecoveryStep::Done(_) => session,
    }
}

/// The sum of the next `n` waits of a recovery whose tries all fail.
pub open spec fn waits_ahead(session: RecoverySession, n: nat) -> int
    decreases n,
{
    if n == 0 {
        0
    } else {
        wait_of(retry_step(session)) + waits_ahead(next_session(session), (n - 1) as nat)
    }
}

/// No recovery waits without end: from a plan that is within its cap, the
/// next `n` waits sum up to `n` times the longest wait of the plan at most.
/// A recovery of `max_retries` tries waits between its tries
/// `max_retries - 1` times.
pub proof fn lemma_total_wait_is_bounded(session: RecoverySession, n: nat)
    requires
        within_cap(session.plan),
    ensures
        waits_ahead(session, n) <= n * longest_wait(session.plan),
    decreases n,
{
    if n > 0 {
        let next = next_session(session);
        lemma_waits_never_shrink(session);
        lemma_waits_are_bounded(session);
        lemma_total_wait_is_bounded(next, (n - 1) as nat);
        assert(longest_wait(next.plan) <= longest_wait(session.plan));
        assert((n - 1) * longest_wait(next.plan) <= (n - 1) * longest_wait(session.plan))
            by (nonlinear_arith)
            requires
                n >= 1,
                0 <= longest_wait(next.plan) <= longest_wait(session.plan),
        ;
        assert(n * longest_wait(session.plan) == longest_wait(session.plan) + (n - 1)
            * longest_wait(session.plan)) by (nonlinear_arith);
    }
}

/// A cutoff before every time keeps every entry.
pub proof fn lemma_later_than_all(entries: Seq<(u64, ErrorCategory)>, cutoff: int)
    requires
        cutoff < 0,
    ensures
        later_than(entries, cutoff) == entries,
    decreases entries.len(),
{
    if entries.len() > 0 {
        lemma_later_than_all(entries.drop_last(), cutoff);
        assert(entries.drop_last().push(entries.last()) =~= entries);
    }
}

/// The circuit breaker: once as many of the latest failures as the
/// threshold says are of one category, the breaker is open for the next
/// failure of that category, so that its recovery is aborted and the
/// operation is not tried. This holds of every threshold: the latest
/// failures are trimmed so that as many as the threshold says stay.
pub proof fn lemma_breaker_opens_after_threshold(
    recent: Seq<(u64, ErrorCategory)>,
    failed: nat,
    total: nat,
    thresholds: ErrorThresholds,
    now: u64,
    category: ErrorCategory,
)
    requires
        thresholds.consecutive_failure_threshold <= recent.len(),
        forall|i: int|
            recent.len() - thresholds.consecutive_failure_threshold <= i < recent.len() ==> (
            #[trigger] recent[i]).1 == category,
    ensures
        breaker_open(
            with_recent(recent, now, category, thresholds.consecutive_failure_threshold as nat),
            failed,
            total,
            thresholds,
            now,
            category,
        ),
{
    let n = thresholds.consecutive_failure_threshold as nat;
    let after = with_recent(recent, now, category, n);
    let pushed = recent.push((now, category));
    let cut = dropped_of(pushed.len(), n);
    assert(after.len() == pushed.len() - cut);
    assert forall|i: int| after.len() - n <= i < after.len() implies (#[trigger] after[i]).1
        == category by {
        assert(after[i] == pushed[i + cut]);
    }
    lemma_trailing_all_match(after, n, category);
}

} // verus!
