use kowalski_rlm::batch_scheduler::{BatchScheduler, BatchSchedulerConfig, SchedulingStrategy};
use kowalski_rlm::time::Duration;

#[test]
fn batch_scheduler_test_default_config() {
    let config = BatchSchedulerConfig::default();
    assert_eq!(config.max_concurrent, 10);
    assert_eq!(config.max_retries, 3);
    assert_eq!(config.strategy, SchedulingStrategy::Parallel);
}

#[test]
fn batch_scheduler_test_scheduler_creation() {
    let scheduler = BatchScheduler::with_defaults();
    assert_eq!(scheduler.config().max_concurrent, 10);
}

#[test]
fn test_retry_delay_exponential_backoff() {
    let scheduler = BatchScheduler::with_defaults();

    let delay_0 = scheduler.retry_delay(0);
    let delay_1 = scheduler.retry_delay(1);
    let delay_2 = scheduler.retry_delay(2);

    assert_eq!(delay_0.as_millis(), 100);
    assert_eq!(delay_1.as_millis(), 200);
    assert_eq!(delay_2.as_millis(), 400);
}

#[test]
fn test_should_retry() {
    let scheduler = BatchScheduler::with_defaults();

    assert!(scheduler.should_retry(0, "429 Rate limit exceeded"));
    assert!(scheduler.should_retry(0, "Request timeout"));
    assert!(scheduler.should_retry(1, "Service temporarily unavailable"));
    assert!(!scheduler.should_retry(3, "Some error"));
}

#[test]
fn test_max_retries_boundary() {
    let config = BatchSchedulerConfig {
        max_retries: 2,
        ..Default::default()
    };
    let scheduler = BatchScheduler::new(config);

    assert!(scheduler.should_retry(0, "timeout"));
    assert!(scheduler.should_retry(1, "timeout"));
    assert!(!scheduler.should_retry(2, "timeout"));
}

#[test]
fn test_scheduling_strategies() {
    let parallel = SchedulingStrategy::Parallel;
    let sequential = SchedulingStrategy::Sequential;
    let grouped = SchedulingStrategy::Grouped { group_size: 5 };
    let adaptive = SchedulingStrategy::Adaptive;

    assert_eq!(parallel, SchedulingStrategy::Parallel);
    assert_ne!(parallel, sequential);
    assert_ne!(grouped, adaptive);
}

#[test]
fn retry_delay_doubles_and_saturates() {
    let scheduler = BatchScheduler::with_defaults();
    assert_eq!(scheduler.retry_delay(3).as_millis(), 800);
    assert_eq!(scheduler.retry_delay(10).as_millis(), 102_400);
    assert_eq!(scheduler.retry_delay(200).as_millis(), u64::MAX as u128);
    let zero = BatchScheduler::new(BatchSchedulerConfig { retry_backoff_ms: 0, ..Default::default() });
    assert_eq!(zero.retry_delay(1_000_000).as_millis(), 0);
    assert_eq!(scheduler.config().request_timeout, Duration::from_secs(30));
    assert_eq!(scheduler.config().request_timeout.as_secs(), 30);
}

#[test]
fn retry_needs_a_transient_error() {
    let scheduler = BatchScheduler::with_defaults();
    assert!(scheduler.should_retry(2, "service unavailable"));
    assert!(!scheduler.should_retry(0, ""));
    assert!(!scheduler.should_retry(0, "Timeout"));
    assert!(!scheduler.should_retry(0, "42 9"));
}

#[test]
fn retry_delay_is_the_span_of_its_milliseconds() {
    let scheduler = BatchScheduler::with_defaults();
    for (attempt, ms) in [(0usize, 100u64), (1, 200), (2, 400), (3, 800), (4, 1600), (10, 102_400)] {
        assert_eq!(scheduler.retry_delay(attempt), Duration::from_millis(ms));
    }
    assert_eq!(scheduler.retry_delay(4).as_secs(), 1);
    let odd = BatchScheduler::new(BatchSchedulerConfig { retry_backoff_ms: 333, ..Default::default() });
    assert_eq!(odd.retry_delay(3), Duration::from_millis(2664));
    assert_eq!(odd.retry_delay(62), Duration::from_millis(u64::MAX));
    assert_eq!(scheduler.retry_delay(1), Duration::from_millis(200));
    assert!(scheduler.retry_delay(1) != Duration::from_millis(201));
}
