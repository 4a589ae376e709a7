use std::time::{Duration, SystemTime, UNIX_EPOCH};

use universal_openai_rs::retry::{
    add_jitter, add_jitter_at, retry_after_delay, retry_after_delay_at, saturating_pow2,
};
use universal_openai_rs::{ApiClient, AttemptOutcome, Config, RetryConfig, RetryStep};

fn policy(jitter: bool) -> RetryConfig {
    RetryConfig {
        max_retries: 3,
        initial_backoff: Duration::from_millis(250).as_nanos(),
        max_backoff: Duration::from_secs(2).as_nanos(),
        jitter,
        respect_retry_after: true,
    }
}

#[test]
fn retry_after_accepts_seconds() {
    assert_eq!(retry_after_delay("3"), Some(Duration::from_secs(3).as_nanos()));
}

#[test]
fn retry_after_accepts_http_date() {
    let retry_at = SystemTime::now() + Duration::from_secs(5);
    let header = httpdate::fmt_http_date(retry_at);

    assert!(retry_after_delay(&header).is_some());
}

#[test]
fn retry_after_rejects_garbage_and_past_dates() {
    assert_eq!(retry_after_delay("soon"), None);
    assert_eq!(retry_after_delay(""), None);
    assert_eq!(retry_after_delay("Thu, 01 Jan 1970 00:00:10 GMT"), None);
    assert_eq!(retry_after_delay(" 7 "), Some(7_000_000_000));
}

#[test]
fn retry_after_at_a_given_time() {
    let now = Duration::from_secs(100).as_nanos();

    assert_eq!(retry_after_delay_at("x", Some(105), now), Some(5_000_000_000));
    assert_eq!(retry_after_delay_at("x", Some(99), now), None);
    assert_eq!(retry_after_delay_at("x", None, now), None);
    assert_eq!(retry_after_delay_at("2", Some(500), now), Some(2_000_000_000));
    let http_date = httpdate::parse_http_date("Thu, 01 Jan 1970 00:01:45 GMT").unwrap();
    let secs = http_date.duration_since(UNIX_EPOCH).unwrap().as_secs();
    assert_eq!(retry_after_delay_at("Thu, 01 Jan 1970 00:01:45 GMT", Some(secs), now), Some(5_000_000_000));
}

#[test]
fn backoff_doubles_up_to_the_cap() {
    let retry = policy(false);

    assert_eq!(retry.backoff(0), 250_000_000);
    assert_eq!(retry.backoff(1), 250_000_000);
    assert_eq!(retry.backoff(2), 500_000_000);
    assert_eq!(retry.backoff(3), 1_000_000_000);
    assert_eq!(retry.backoff(4), 2_000_000_000);
    assert_eq!(retry.backoff(5), 2_000_000_000);
    assert_eq!(retry.backoff(100), 2_000_000_000);
}

#[test]
fn saturating_power_of_two() {
    assert_eq!(saturating_pow2(0), 1);
    assert_eq!(saturating_pow2(10), 1024);
    assert_eq!(saturating_pow2(31), 1 << 31);
    assert_eq!(saturating_pow2(32), u32::MAX);
}

#[test]
fn jitter_adds_less_than_a_quarter_and_respects_the_cap() {
    assert_eq!(add_jitter_at(1_000, 10_000, 999_999), 1_000 + 999_999 % 250);
    assert_eq!(add_jitter_at(1_000, 1_100, 200), 1_100);
    assert_eq!(add_jitter_at(0, 10, 7), 0);
    assert_eq!(add_jitter_at(3, 10, 7), 3);
}

#[test]
fn retry_delay_prefers_retry_after_within_the_cap() {
    let retry = policy(true);

    assert_eq!(retry.retry_delay_at(1, Some(1_000_000_000), 5), 1_000_000_000);
    assert_eq!(retry.retry_delay_at(1, Some(60_000_000_000), 5), 2_000_000_000);
    assert_eq!(retry.retry_delay_at(2, None, 1_000), 500_001_000);
    let ignoring = RetryConfig { respect_retry_after: false, ..policy(false) };
    assert_eq!(ignoring.retry_delay_at(2, Some(1), 0), 500_000_000);
    assert!(retry.retry_delay(3, None) <= retry.max_backoff);
}

#[test]
fn which_failures_are_retried() {
    let retry = policy(false);

    assert!(retry.should_retry(429, 0));
    assert!(retry.should_retry(503, 2));
    assert!(!retry.should_retry(503, 3));
    assert!(!retry.should_retry(404, 0));
    assert!(!retry.should_retry(200, 0));
    assert!(retry.should_retry_error(true, 0));
    assert!(!retry.should_retry_error(false, 0));
    assert!(!retry.should_retry_error(true, 3));
}

#[test]
fn retry_steps_of_the_client() {
    let client = ApiClient::new(Config::new("k").with_retry_config(policy(false))).unwrap();

    assert_eq!(
        client.retry_step(0, AttemptOutcome::Answered { status: 200, retry_after: None }),
        RetryStep::Deliver
    );
    assert_eq!(
        client.retry_step(0, AttemptOutcome::Answered { status: 400, retry_after: None }),
        RetryStep::Deliver
    );
    assert_eq!(
        client.retry_step(0, AttemptOutcome::Answered { status: 500, retry_after: None }),
        RetryStep::Retry { attempt: 1, delay: 250_000_000 }
    );
    assert_eq!(
        client.retry_step(1, AttemptOutcome::Answered { status: 429, retry_after: Some("1".to_string()) }),
        RetryStep::Retry { attempt: 2, delay: 1_000_000_000 }
    );
    assert_eq!(
        client.retry_step(3, AttemptOutcome::Answered { status: 500, retry_after: None }),
        RetryStep::Deliver
    );
    assert_eq!(
        client.retry_step(1, AttemptOutcome::TransportFailed { timeout_or_connect: true }),
        RetryStep::Retry { attempt: 2, delay: 500_000_000 }
    );
    assert_eq!(
        client.retry_step(0, AttemptOutcome::TransportFailed { timeout_or_connect: false }),
        RetryStep::Fail
    );
    assert_eq!(
        client.retry_step(3, AttemptOutcome::TransportFailed { timeout_or_connect: true }),
        RetryStep::Fail
    );
}

#[test]
fn clock_jitter_stays_within_a_quarter() {
    for _ in 0..20 {
        let delay = add_jitter(1_000, 10_000);
        assert!((1_000..1_250).contains(&delay), "{delay}");
    }
    assert_eq!(add_jitter(1_000, 1_000), 1_000);
}
