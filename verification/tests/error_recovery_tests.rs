use furina::error_recovery::manager::{
    RecoverySession, RecoveryStep, RecoveryVerdict, RetryPlan,
};
use furina::error_recovery::strategy::grow_backoff_delay;
use furina::error_recovery::{
    ErrorCategory, ErrorRecoveryManager, ErrorStatistics, RecoverableError, RecoveryConfig,
    RecoveryError, RecoveryStrategy,
};

#[derive(Debug, Clone)]
struct TestError {
    message: String,
    category: ErrorCategory,
}

impl RecoverableError for TestError {
    fn error_category(&self) -> ErrorCategory {
        self.category
    }
}

/// Drives one recovery to its end on a clock that only the waits advance.
/// The waits are noted in `waits`.
fn attempt_recovery<T>(
    manager: &mut ErrorRecoveryManager,
    now: &mut u64,
    waits: &mut Vec<u64>,
    mut operation: impl FnMut() -> Result<T, TestError>,
    error: &TestError,
) -> Result<T, RecoveryError<TestError>> {
    let mut step = manager.begin_recovery(*now, error.error_category());
    let mut last = error.clone();
    loop {
        match step {
            RecoveryStep::Done(RecoveryVerdict::MaxRetriesExceeded) => {
                return Err(RecoveryError::MaxRetriesExceeded(last));
            },
            RecoveryStep::Done(verdict) => {
                return Err(RecoveryError::from_verdict(verdict, error.clone()).unwrap());
            },
            RecoveryStep::Attempt { after_ms, session } => {
                *now += after_ms;
                waits.push(after_ms);
                match operation() {
                    Ok(value) => {
                        assert_eq!(manager.report_success(), RecoveryVerdict::Recovered);
                        return Ok(value);
                    },
                    Err(e) => {
                        step = manager.report_failure(*now, session, e.error_category());
                        last = e;
                    },
                }
            },
        }
    }
}

fn failing(category: ErrorCategory, message: &str) -> TestError {
    TestError { message: message.to_string(), category }
}

#[test]
fn test_immediate_retry_success() {
    let mut manager = ErrorRecoveryManager::new_default();
    let mut count = 0;
    let operation = || {
        let seen = count;
        count += 1;
        if seen < 2 {
            Err(failing(ErrorCategory::Temporary, "临时错误"))
        } else {
            Ok("success".to_string())
        }
    };
    let error = failing(ErrorCategory::Temporary, "初始错误");

    let result = attempt_recovery(&mut manager, &mut 0, &mut Vec::new(), operation, &error);
    assert!(result.is_ok());
    assert_eq!(result.unwrap(), "success");
}

#[test]
fn mod_test_max_retries_exceeded() {
    let mut manager = ErrorRecoveryManager::new_default();
    let operation = || Err(failing(ErrorCategory::Network, "持续错误"));
    let error = failing(ErrorCategory::Network, "初始错误");

    let result: Result<String, RecoveryError<TestError>> =
        attempt_recovery(&mut manager, &mut 0, &mut Vec::new(), operation, &error);
    assert!(result.is_err());

    match result.unwrap_err() {
        RecoveryError::MaxRetriesExceeded(last) => assert_eq!(last.message, "持续错误"),
        _ => panic!("expected MaxRetriesExceeded"),
    }
}

#[test]
fn test_exponential_backoff() {
    let mut manager = ErrorRecoveryManager::new_default();
    let mut count = 0;
    let operation = || {
        let seen = count;
        count += 1;
        if seen < 2 {
            Err(failing(ErrorCategory::Network, "网络错误"))
        } else {
            Ok("success".to_string())
        }
    };
    let error = failing(ErrorCategory::Network, "网络错误");
    let mut now = 0;
    let mut waits = Vec::new();

    let result = attempt_recovery(&mut manager, &mut now, &mut waits, operation, &error);

    assert!(result.is_ok());
    assert!(now >= 100);
    assert_eq!(waits, vec![0, 100, 200]);
}

#[test]
fn mod_test_error_statistics() {
    let mut stats = ErrorStatistics::default();

    stats.record_error(0, ErrorCategory::Network);
    stats.record_error(0, ErrorCategory::OCR);
    stats.record_successful_recovery();
    stats.record_failed_recovery();

    assert_eq!(stats.total_errors, 2);
    assert_eq!(stats.successful_recoveries, 1);
    assert_eq!(stats.failed_recoveries, 1);
    assert_eq!(stats.category_count(ErrorCategory::Network), 1);
    assert_eq!(stats.category_count(ErrorCategory::OCR), 1);
}

#[test]
fn test_recovery_config_default() {
    let config = RecoveryConfig::default();

    assert_eq!(config.max_retries, 3);
    assert!(config.strategy_map.contains_key(ErrorCategory::Network));
    assert!(config.adaptive_adjustment);
}

#[test]
fn test_error_rate_calculation() {
    let mut stats = ErrorStatistics::default();

    assert_eq!(stats.error_rate(), 0);
    assert_eq!(stats.recovery_success_rate(), 0);

    stats.record_error(0, ErrorCategory::Network);
    stats.record_successful_recovery();
    stats.record_error(0, ErrorCategory::OCR);
    stats.record_failed_recovery();

    assert_eq!(stats.error_rate(), 500_000);
    assert_eq!(stats.recovery_success_rate(), 500_000);
}

#[test]
fn test_recovery_strategy_skip() {
    let mut config = RecoveryConfig::default();
    config.strategy_map.insert(ErrorCategory::Configuration, RecoveryStrategy::Skip);

    let mut manager = ErrorRecoveryManager::new(config);
    let operation = || Ok("should not be called".to_string());
    let error = failing(ErrorCategory::Configuration, "配置错误");

    let result = attempt_recovery(&mut manager, &mut 0, &mut Vec::new(), operation, &error);
    assert!(result.is_err());

    match result.unwrap_err() {
        RecoveryError::OperationSkipped => {},
        _ => panic!("expected OperationSkipped"),
    }
}

#[test]
fn test_cleanup_old_errors() {
    let mut stats = ErrorStatistics::default();
    let now: u64 = 1_000_000;

    stats.recent_errors.push((now - 120_000, ErrorCategory::Network));
    stats.recent_errors.push((now - 30_000, ErrorCategory::OCR));
    stats.recent_errors.push((now, ErrorCategory::Parsing));

    assert_eq!(stats.recent_errors.len(), 3);

    stats.cleanup_old_errors(now, 60_000);

    assert_eq!(stats.recent_errors.len(), 2);
    assert_eq!(
        stats.recent_errors,
        vec![(now - 30_000, ErrorCategory::OCR), (now, ErrorCategory::Parsing)]
    );
}

#[test]
fn test_error_count_in_window() {
    let mut stats = ErrorStatistics::default();
    let now: u64 = 1_000_000;

    stats.recent_errors.push((now - 120_000, ErrorCategory::Network));
    stats.recent_errors.push((now - 30_000, ErrorCategory::OCR));
    stats.recent_errors.push((now, ErrorCategory::Parsing));

    let count = stats.error_count_in_window(now, 60_000);
    assert_eq!(count, 2);
}

#[test]
fn test_immediate_retry_strategy() {
    let mut manager = ErrorRecoveryManager::new_default();
    let mut counter = 0;
    let operation = || {
        let count = counter;
        counter += 1;
        if count < 2 {
            Err(failing(ErrorCategory::Temporary, "temporary error"))
        } else {
            Ok("success".to_string())
        }
    };
    let error = failing(ErrorCategory::Temporary, "initial error");

    let result = attempt_recovery(&mut manager, &mut 0, &mut Vec::new(), operation, &error);
    assert!(result.is_ok());
    assert_eq!(result.unwrap(), "success");

    assert_eq!(counter, 3);
}

#[test]
fn test_exponential_backoff_strategy() {
    let mut manager = ErrorRecoveryManager::new_default();
    let mut counter = 0;
    let operation = || {
        let count = counter;
        counter += 1;
        if count < 2 {
            Err(failing(ErrorCategory::Network, "network error"))
        } else {
            Ok("network recovery".to_string())
        }
    };
    let error = failing(ErrorCategory::Network, "network connection failure");
    let mut now = 0;

    let result = attempt_recovery(&mut manager, &mut now, &mut Vec::new(), operation, &error);

    assert!(result.is_ok());
    assert_eq!(result.unwrap(), "network recovery");
    assert!(now >= 100);
}

#[test]
fn error_recovery_tests_test_max_retries_exceeded() {
    let mut manager = ErrorRecoveryManager::new_default();
    let mut counter = 0;
    let operation = || {
        counter += 1;
        Err(failing(ErrorCategory::Network, "persistent failure"))
    };
    let error = failing(ErrorCategory::Network, "initial error");

    let result: Result<String, RecoveryError<TestError>> =
        attempt_recovery(&mut manager, &mut 0, &mut Vec::new(), operation, &error);
    assert!(result.is_err());

    match result.unwrap_err() {
        RecoveryError::MaxRetriesExceeded(_) => {},
        _ => panic!("expected MaxRetriesExceeded error"),
    }

    assert_eq!(counter, 3);
}

#[test]
fn test_non_retryable_error() {
    let mut manager = ErrorRecoveryManager::new_default();
    let operation = || Ok("should not be called".to_string());
    let error = failing(ErrorCategory::Configuration, "configuration error");

    let result = attempt_recovery(&mut manager, &mut 0, &mut Vec::new(), operation, &error);
    assert!(result.is_err());

    match result.unwrap_err() {
        RecoveryError::RecoveryAborted(first) => assert_eq!(first.message, "configuration error"),
        _ => panic!("expected RecoveryAborted error"),
    }
}

#[test]
fn error_recovery_tests_test_error_statistics() {
    let mut stats = ErrorStatistics::default();

    stats.record_error(0, ErrorCategory::Network);
    stats.record_error(0, ErrorCategory::OCR);
    stats.record_error(0, ErrorCategory::Parsing);

    stats.record_successful_recovery();
    stats.record_successful_recovery();
    stats.record_failed_recovery();

    assert_eq!(stats.total_errors, 3);
    assert_eq!(stats.successful_recoveries, 2);
    assert_eq!(stats.failed_recoveries, 1);

    assert_eq!(stats.error_rate(), 333_333);
    assert_eq!(stats.recovery_success_rate(), 666_666);

    assert_eq!(stats.category_count(ErrorCategory::Network), 1);
    assert_eq!(stats.category_count(ErrorCategory::OCR), 1);
    assert_eq!(stats.category_count(ErrorCategory::Parsing), 1);
}

#[test]
fn test_custom_recovery_config() {
    let config = RecoveryConfig {
        max_retries: 5,
        strategy_map: {
            let mut map = RecoveryConfig::default().strategy_map;
            map.insert(ErrorCategory::OCR, RecoveryStrategy::DelayedRetry(50));
            map
        },
        ..RecoveryConfig::default()
    };

    let mut manager = ErrorRecoveryManager::new(config);
    let mut counter = 0;
    let operation = || {
        let count = counter;
        counter += 1;
        if count < 4 {
            Err(failing(ErrorCategory::OCR, "OCR recognition failure"))
        } else {
            Ok("OCR success".to_string())
        }
    };
    let error = failing(ErrorCategory::OCR, "OCR error");
    let mut now = 0;
    let mut waits = Vec::new();

    let result = attempt_recovery(&mut manager, &mut now, &mut waits, operation, &error);

    assert!(result.is_ok());
    assert_eq!(result.unwrap(), "OCR success");

    assert!(now >= 200);
    assert_eq!(waits, vec![50, 50, 50, 50, 50]);
    assert_eq!(counter, 5);
}

#[test]
fn test_skip_operation_strategy() {
    let mut config = RecoveryConfig::default();
    config.strategy_map.insert(ErrorCategory::Parsing, RecoveryStrategy::Skip);

    let mut manager = ErrorRecoveryManager::new(config);
    let operation = || -> Result<String, TestError> {
        panic!("operation should not be executed");
    };
    let error = failing(ErrorCategory::Parsing, "parsing error");

    let result = attempt_recovery(&mut manager, &mut 0, &mut Vec::new(), operation, &error);
    assert!(result.is_err());

    match result.unwrap_err() {
        RecoveryError::OperationSkipped => {},
        _ => panic!("expected OperationSkipped error"),
    }
}

#[test]
fn test_use_default_strategy() {
    let mut config = RecoveryConfig::default();
    config.strategy_map.insert(ErrorCategory::Parsing, RecoveryStrategy::UseDefault);

    let mut manager = ErrorRecoveryManager::new(config);
    let operation = || -> Result<String, TestError> {
        Err(failing(ErrorCategory::Parsing, "parsing failure"))
    };
    let error = failing(ErrorCategory::Parsing, "parsing error");

    let result = attempt_recovery(&mut manager, &mut 0, &mut Vec::new(), operation, &error);
    assert!(result.is_err());

    match result.unwrap_err() {
        RecoveryError::UseDefaultRequested => {},
        _ => panic!("expected UseDefaultRequested error"),
    }
}

#[test]
fn test_error_threshold_mechanism() {
    let mut config = RecoveryConfig::default();
    config.error_thresholds.consecutive_failure_threshold = 2;

    let mut manager = ErrorRecoveryManager::new(config);
    let mut now = 0;

    for _ in 0..3 {
        let operation =
            || -> Result<String, TestError> { Err(failing(ErrorCategory::Network, "network error")) };
        let error = failing(ErrorCategory::Network, "network connection failure");
        let _result = attempt_recovery(&mut manager, &mut now, &mut Vec::new(), operation, &error);
    }

    let operation = || -> Result<String, TestError> {
        panic!("operation should not be executed");
    };
    let error = failing(ErrorCategory::Network, "another network error");

    let result = attempt_recovery(&mut manager, &mut now, &mut Vec::new(), operation, &error);
    assert!(result.is_err());

    match result.unwrap_err() {
        RecoveryError::RecoveryAborted(_) => {},
        _ => panic!("expected RecoveryAborted error"),
    }
}

#[test]
fn test_statistics_cleanup() {
    let mut manager = ErrorRecoveryManager::new_default();
    let mut now = 0;
    let operation =
        || -> Result<String, TestError> { Err(failing(ErrorCategory::Network, "test error")) };
    let error = failing(ErrorCategory::Network, "test error");
    let _ = attempt_recovery(&mut manager, &mut now, &mut Vec::new(), operation, &error);

    manager.cleanup_statistics(now);

    let stats = manager.get_statistics();
    assert!(stats.total_errors > 0);
}

#[test]
fn test_error_count_in_time_window() {
    let mut stats = ErrorStatistics::default();
    let now: u64 = 1_000_000;

    stats.recent_errors.push((now - 120_000, ErrorCategory::Network));
    stats.recent_errors.push((now - 30_000, ErrorCategory::OCR));
    stats.recent_errors.push((now, ErrorCategory::Parsing));

    let count = stats.error_count_in_window(now, 60_000);
    assert_eq!(count, 2);
}

#[test]
fn cleanup_forgets_failures_older_than_two_windows() {
    let mut manager = ErrorRecoveryManager::new_default();
    let _ = manager.begin_recovery(0, ErrorCategory::Parsing);
    let _ = manager.begin_recovery(100_000, ErrorCategory::Parsing);
    manager.cleanup_statistics(130_000);
    assert_eq!(manager.get_statistics().recent_errors, vec![(100_000, ErrorCategory::Parsing)]);
    assert_eq!(manager.get_statistics().total_errors, 2);
}

#[test]
fn a_window_longer_than_the_clock_keeps_everything() {
    let mut stats = ErrorStatistics::default();
    stats.record_error(5, ErrorCategory::IO);
    stats.record_error(7, ErrorCategory::IO);
    assert_eq!(stats.error_count_in_window(10, 1_000), 2);
    stats.cleanup_old_errors(10, 1_000);
    assert_eq!(stats.recent_errors.len(), 2);
    assert_eq!(stats.error_count_in_window(10, 3), 0);
    assert_eq!(stats.error_count_in_window(10, 4), 1);
}

#[test]
fn recent_failures_are_capped_at_a_thousand() {
    let mut stats = ErrorStatistics::default();
    for t in 0..1000u64 {
        stats.record_error(t, ErrorCategory::Unknown);
    }
    assert_eq!(stats.recent_errors.len(), 1000);
    stats.record_error(1000, ErrorCategory::Network);
    assert_eq!(stats.recent_errors.len(), 901);
    assert_eq!(stats.recent_errors[0], (100, ErrorCategory::Unknown));
    assert_eq!(stats.recent_errors[900], (1000, ErrorCategory::Network));
    assert_eq!(stats.total_errors, 1001);
    assert_eq!(stats.category_count(ErrorCategory::Unknown), 1000);
    assert_eq!(stats.recent_failures_of(5, ErrorCategory::Unknown), 4);
    assert_eq!(stats.recent_failures_of(0, ErrorCategory::Unknown), 0);
}

#[test]
fn breaker_opens_after_threshold_failures_of_one_category() {
    let mut config = RecoveryConfig::default();
    config.error_thresholds.consecutive_failure_threshold = 3;
    config.error_thresholds.error_count_per_window = 1_000;
    config.error_thresholds.overall_error_rate_threshold_ppm = 1_000_000;
    let mut manager = ErrorRecoveryManager::new(config);

    assert!(matches!(
        manager.begin_recovery(0, ErrorCategory::OCR),
        RecoveryStep::Attempt { after_ms: 0, .. }
    ));
    assert!(matches!(
        manager.begin_recovery(1, ErrorCategory::OCR),
        RecoveryStep::Attempt { after_ms: 0, .. }
    ));
    assert!(manager.should_attempt_recovery(2, ErrorCategory::OCR));
    assert_eq!(
        manager.begin_recovery(2, ErrorCategory::OCR),
        RecoveryStep::Done(RecoveryVerdict::RecoveryAborted)
    );
    // A failure of another category does not find the breaker open...
    assert!(matches!(
        manager.begin_recovery(3, ErrorCategory::IO),
        RecoveryStep::Attempt { after_ms: 500, .. }
    ));
    // ...and breaks the run of the first category.
    assert!(matches!(
        manager.begin_recovery(4, ErrorCategory::OCR),
        RecoveryStep::Attempt { after_ms: 0, .. }
    ));
}

#[test]
fn breaker_opens_on_too_many_failures_in_the_window() {
    let mut config = RecoveryConfig::default();
    config.error_thresholds.consecutive_failure_threshold = 100;
    config.error_thresholds.error_count_per_window = 3;
    config.error_thresholds.time_window = 1_000;
    let mut manager = ErrorRecoveryManager::new(config);

    assert!(matches!(manager.begin_recovery(0, ErrorCategory::OCR), RecoveryStep::Attempt { .. }));
    assert!(matches!(manager.begin_recovery(10, ErrorCategory::IO), RecoveryStep::Attempt { .. }));
    assert_eq!(
        manager.begin_recovery(20, ErrorCategory::Temporary),
        RecoveryStep::Done(RecoveryVerdict::RecoveryAborted)
    );
    // Once the window has passed, recovery is tried again.
    assert!(matches!(
        manager.begin_recovery(5_000, ErrorCategory::Temporary),
        RecoveryStep::Attempt { .. }
    ));
}

#[test]
fn breaker_opens_on_too_large_a_share_of_failed_recoveries() {
    let mut config = RecoveryConfig::default();
    config.max_retries = 1;
    config.error_thresholds.consecutive_failure_threshold = 100;
    config.error_thresholds.error_count_per_window = 100;
    config.error_thresholds.overall_error_rate_threshold_ppm = 300_000;
    let mut manager = ErrorRecoveryManager::new(config);

    let step = manager.begin_recovery(0, ErrorCategory::Temporary);
    let session = match step {
        RecoveryStep::Attempt { session, .. } => session,
        _ => panic!("expected an attempt"),
    };
    assert_eq!(
        manager.report_failure(0, session, ErrorCategory::Temporary),
        RecoveryStep::Done(RecoveryVerdict::MaxRetriesExceeded)
    );
    // One failed recovery of two failures: half is more than three tenths.
    assert_eq!(
        manager.begin_recovery(1, ErrorCategory::Temporary),
        RecoveryStep::Done(RecoveryVerdict::RecoveryAborted)
    );
    assert_eq!(manager.get_statistics().failed_recoveries, 1);
    assert_eq!(manager.get_statistics().total_errors, 2);
}

#[test]
fn backoff_waits_never_shrink_and_stay_below_the_cap() {
    let mut delay = 100;
    let mut waits = vec![delay];
    for _ in 0..10 {
        delay = grow_backoff_delay(delay, 10_000, 2_000);
        waits.push(delay);
    }
    assert_eq!(
        waits,
        vec![100, 200, 400, 800, 1_600, 3_200, 6_400, 10_000, 10_000, 10_000, 10_000]
    );
    assert_eq!(grow_backoff_delay(7, 10_000, 1_500), 10);
    assert_eq!(grow_backoff_delay(u64::MAX, u64::MAX, u32::MAX), u64::MAX);
    // A multiplier below one leaves the wait as it is; the cap still holds.
    assert_eq!(grow_backoff_delay(100, 10_000, 500), 100);
    assert_eq!(grow_backoff_delay(100, 10_000, 0), 100);
    assert_eq!(grow_backoff_delay(100_000, 10_000, 500), 10_000);
    assert_eq!(grow_backoff_delay(100_000, 10_000, 2_000), 10_000);
}

#[test]
fn retries_stop_at_the_configured_maximum() {
    let mut config = RecoveryConfig::default();
    config.max_retries = 4;
    config.error_thresholds.consecutive_failure_threshold = 100;
    config.error_thresholds.error_count_per_window = 100;
    let mut manager = ErrorRecoveryManager::new(config);
    let mut step = manager.begin_recovery(0, ErrorCategory::Unknown);
    let mut attempts = 0;
    let mut waits = Vec::new();
    while let RecoveryStep::Attempt { after_ms, session } = step {
        attempts += 1;
        waits.push(after_ms);
        assert!(session.attempt < 4);
        step = manager.report_failure(0, session, ErrorCategory::Unknown);
    }
    assert_eq!(attempts, 4);
    assert_eq!(waits, vec![200, 200, 200, 200]);
    assert_eq!(step, RecoveryStep::Done(RecoveryVerdict::MaxRetriesExceeded));
}

#[test]
fn each_strategy_starts_as_it_should() {
    let mut config = RecoveryConfig::default();
    config.error_thresholds.consecutive_failure_threshold = 100;
    config.error_thresholds.error_count_per_window = 100;
    config.strategy_map.insert(ErrorCategory::Temporary, RecoveryStrategy::Skip);
    let mut manager = ErrorRecoveryManager::new(config);
    assert_eq!(
        manager.begin_recovery(0, ErrorCategory::Network),
        RecoveryStep::Attempt {
            after_ms: 0,
            session: RecoverySession {
                plan: RetryPlan::Backoff {
                    next_delay: 100,
                    max_delay: 10_000,
                    multiplier_milli: 2_000
                },
                attempt: 0
            }
        }
    );
    assert_eq!(
        manager.begin_recovery(0, ErrorCategory::Parsing),
        RecoveryStep::Done(RecoveryVerdict::UseDefaultRequested)
    );
    assert_eq!(
        manager.begin_recovery(0, ErrorCategory::ImageProcessing),
        RecoveryStep::Done(RecoveryVerdict::UseFallbackRequested)
    );
    assert_eq!(
        manager.begin_recovery(0, ErrorCategory::Permanent),
        RecoveryStep::Done(RecoveryVerdict::RecoveryAborted)
    );
    assert_eq!(
        manager.begin_recovery(0, ErrorCategory::Temporary),
        RecoveryStep::Done(RecoveryVerdict::OperationSkipped)
    );
    assert_eq!(
        manager.begin_recovery(0, ErrorCategory::ResourceExhaustion),
        RecoveryStep::Attempt {
            after_ms: 1_000,
            session: RecoverySession { plan: RetryPlan::Fixed { delay: 1_000 }, attempt: 0 }
        }
    );
}

#[test]
fn categories_tell_what_to_retry() {
    assert!(ErrorCategory::Network.is_retryable());
    assert!(ErrorCategory::Unknown.is_retryable());
    assert!(!ErrorCategory::Parsing.is_retryable());
    assert!(!ErrorCategory::Configuration.is_retryable());
    assert!(!ErrorCategory::Permanent.is_retryable());
    assert_eq!(
        ErrorCategory::Network.suggested_recovery(),
        RecoveryStrategy::ExponentialBackoff {
            initial_delay: 100,
            max_delay: 5_000,
            multiplier_milli: 2_000
        }
    );
    assert_eq!(ErrorCategory::IO.suggested_recovery(), RecoveryStrategy::DelayedRetry(100));
    assert_eq!(ErrorCategory::Parsing.suggested_recovery(), RecoveryStrategy::UseDefault);
}

#[test]
fn recovery_errors_describe_themselves() {
    let e: RecoveryError<TestError> =
        RecoveryError::MaxRetriesExceeded(failing(ErrorCategory::IO, "boom"));
    assert_eq!(e.describe("boom"), "达到最大重试次数: boom");
    assert_eq!(e.verdict(), RecoveryVerdict::MaxRetriesExceeded);
    let skipped: RecoveryError<TestError> = RecoveryError::OperationSkipped;
    assert_eq!(skipped.describe(""), "操作被跳过");
    assert!(RecoveryError::from_verdict(RecoveryVerdict::Recovered, 1).is_none());
    assert_eq!(
        RecoveryError::from_verdict(RecoveryVerdict::RecoveryAborted, 7),
        Some(RecoveryError::RecoveryAborted(7))
    );
}

/// The waits that a recovery asks for while every try fails.
fn waits_of_a_failing_recovery(config: RecoveryConfig, category: ErrorCategory) -> Vec<u64> {
    let mut manager = ErrorRecoveryManager::new(config);
    let mut step = manager.begin_recovery(0, category);
    let mut waits = Vec::new();
    while let RecoveryStep::Attempt { after_ms, session } = step {
        waits.push(after_ms);
        step = manager.report_failure(0, session, category);
    }
    assert_eq!(step, RecoveryStep::Done(RecoveryVerdict::MaxRetriesExceeded));
    waits
}

fn patient(max_retries: usize, strategy: RecoveryStrategy) -> RecoveryConfig {
    let mut config = RecoveryConfig::default();
    config.max_retries = max_retries;
    config.error_thresholds.consecutive_failure_threshold = 1_000;
    config.error_thresholds.error_count_per_window = 1_000;
    config.strategy_map.insert(ErrorCategory::Network, strategy);
    config
}

#[test]
fn backoff_waits_never_shrink_whatever_the_multiplier() {
    let halving = RecoveryStrategy::ExponentialBackoff {
        initial_delay: 100,
        max_delay: 10_000,
        multiplier_milli: 500,
    };
    assert_eq!(
        waits_of_a_failing_recovery(patient(5, halving), ErrorCategory::Network),
        vec![0, 100, 100, 100, 100]
    );
    let standing = RecoveryStrategy::ExponentialBackoff {
        initial_delay: 100,
        max_delay: 10_000,
        multiplier_milli: 0,
    };
    assert_eq!(
        waits_of_a_failing_recovery(patient(4, standing), ErrorCategory::Network),
        vec![0, 100, 100, 100]
    );
    let tripling = RecoveryStrategy::ExponentialBackoff {
        initial_delay: 100,
        max_delay: 1_000,
        multiplier_milli: 3_000,
    };
    assert_eq!(
        waits_of_a_failing_recovery(patient(6, tripling), ErrorCategory::Network),
        vec![0, 100, 300, 900, 1_000, 1_000]
    );
}

#[test]
fn the_first_backoff_wait_is_capped_too() {
    let eager = RecoveryStrategy::ExponentialBackoff {
        initial_delay: 10_000,
        max_delay: 100,
        multiplier_milli: 2_000,
    };
    let mut manager = ErrorRecoveryManager::new(patient(4, eager));
    assert_eq!(
        manager.begin_recovery(0, ErrorCategory::Network),
        RecoveryStep::Attempt {
            after_ms: 0,
            session: RecoverySession {
                plan: RetryPlan::Backoff { next_delay: 100, max_delay: 100, multiplier_milli: 2_000 },
                attempt: 0
            }
        }
    );
    assert_eq!(
        waits_of_a_failing_recovery(patient(4, eager), ErrorCategory::Network),
        vec![0, 100, 100, 100]
    );
}

#[test]
fn a_policy_of_no_retries_gives_a_typed_outcome() {
    for strategy in [
        RecoveryStrategy::ImmediateRetry,
        RecoveryStrategy::DelayedRetry(50),
        RecoveryStrategy::ExponentialBackoff {
            initial_delay: 100,
            max_delay: 1_000,
            multiplier_milli: 2_000,
        },
    ] {
        let mut manager = ErrorRecoveryManager::new(patient(0, strategy));
        let error = failing(ErrorCategory::Network, "down");
        let mut now = 0;
        let mut waits = Vec::new();
        let mut calls = 0;
        let result: Result<(), _> = attempt_recovery(
            &mut manager,
            &mut now,
            &mut waits,
            || {
                calls += 1;
                Err(failing(ErrorCategory::Network, "still down"))
            },
            &error,
        );
        assert!(matches!(result, Err(RecoveryError::MaxRetriesExceeded(e)) if e.message == "down"));
        assert_eq!(calls, 0);
        assert!(waits.is_empty());
        assert_eq!(manager.get_statistics().total_errors, 1);
        assert_eq!(manager.get_statistics().failed_recoveries, 0);
    }
    // The strategies that never retry answer as ever.
    let mut manager = ErrorRecoveryManager::new(patient(0, RecoveryStrategy::Skip));
    assert_eq!(
        manager.begin_recovery(0, ErrorCategory::Network),
        RecoveryStep::Done(RecoveryVerdict::OperationSkipped)
    );
    assert_eq!(
        manager.begin_recovery(0, ErrorCategory::Parsing),
        RecoveryStep::Done(RecoveryVerdict::UseDefaultRequested)
    );
    assert_eq!(
        manager.begin_recovery(0, ErrorCategory::Permanent),
        RecoveryStep::Done(RecoveryVerdict::RecoveryAborted)
    );
}

#[test]
fn the_breaker_opens_for_a_threshold_near_the_limit_of_what_is_kept() {
    let mut config = RecoveryConfig::default();
    config.max_retries = 1;
    config.error_thresholds.consecutive_failure_threshold = 950;
    config.error_thresholds.error_count_per_window = 1_000_000;
    config.error_thresholds.overall_error_rate_threshold_ppm = 1_000_000;
    config.strategy_map.insert(ErrorCategory::OCR, RecoveryStrategy::Skip);
    let mut manager = ErrorRecoveryManager::new(config);
    for t in 0..60u64 {
        manager.begin_recovery(t, ErrorCategory::IO);
    }
    // 949 failures of one category: the breaker is still shut.
    for t in 0..949u64 {
        assert_eq!(
            manager.begin_recovery(100 + t, ErrorCategory::OCR),
            RecoveryStep::Done(RecoveryVerdict::OperationSkipped)
        );
    }
    assert_eq!(manager.get_statistics().recent_errors.len(), 958);
    // From the 950th on it is open, also when the list is trimmed.
    for t in 0..200u64 {
        assert_eq!(
            manager.begin_recovery(2_000 + t, ErrorCategory::OCR),
            RecoveryStep::Done(RecoveryVerdict::RecoveryAborted)
        );
        assert!(manager.get_statistics().recent_errors.len() >= 950);
        assert!(manager.get_statistics().recent_errors.len() <= 1_000);
    }
}

#[test]
fn trimming_keeps_what_it_is_told_to_keep() {
    let mut stats = ErrorStatistics::default();
    for t in 0..1000u64 {
        stats.record_error_keeping(t, ErrorCategory::Unknown, 950);
    }
    assert_eq!(stats.recent_errors.len(), 1000);
    stats.record_error_keeping(1000, ErrorCategory::Network, 950);
    assert_eq!(stats.recent_errors.len(), 950);
    assert_eq!(stats.recent_errors[0], (51, ErrorCategory::Unknown));
    let mut stats = ErrorStatistics::default();
    for t in 0..1001u64 {
        stats.record_error_keeping(t, ErrorCategory::Unknown, 2_000);
    }
    assert_eq!(stats.recent_errors.len(), 1001);
    let mut stats = ErrorStatistics::default();
    for t in 0..1001u64 {
        stats.record_error_keeping(t, ErrorCategory::Unknown, 900);
    }
    assert_eq!(stats.recent_errors.len(), 901);
}

#[test]
fn the_counts_by_category_follow_every_failed_try() {
    let mut config = RecoveryConfig::default();
    config.error_thresholds.consecutive_failure_threshold = 100;
    config.error_thresholds.error_count_per_window = 100;
    let mut manager = ErrorRecoveryManager::new(config);
    let mut step = manager.begin_recovery(0, ErrorCategory::Temporary);
    assert_eq!(manager.get_statistics().category_count(ErrorCategory::Temporary), 1);
    let mut tries = 0;
    while let RecoveryStep::Attempt { session, .. } = step {
        tries += 1;
        step = manager.report_failure(0, session, ErrorCategory::IO);
        let expected = if tries < 3 { tries } else { 2 };
        assert_eq!(manager.get_statistics().category_count(ErrorCategory::IO), expected);
        assert_eq!(manager.get_statistics().category_count(ErrorCategory::Temporary), 1);
    }
    assert_eq!(tries, 3);
    assert_eq!(manager.get_statistics().total_errors, 3);
    assert_eq!(manager.get_statistics().failed_recoveries, 1);
}
