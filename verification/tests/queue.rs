use duihua_background_worker::attempts::{
    entry_source_for_pending_retry, max_pending_retry_attempts, next_retry_attempt,
};
use duihua_background_worker::config::{
    autoclaim_min_idle_ms_for_upstream_timeout, max_concurrent_jobs_from_env_value,
    recommended_termination_grace_period_seconds_for_upstream,
    recommended_termination_grace_period_seconds_for_upstream_and_block, resolve_consumer_name,
    QueueConfig, QueueEnv,
};
use duihua_background_worker::message::{EntrySource, QueueMessage, StoredResponse};
use duihua_background_worker::retry::{DuePendingRetry, PendingRetryScheduler};
use duihua_background_worker::time::Backoff;

#[test]
fn rejects_zero_block_ms() {
    let env = QueueEnv {
        block_ms: Some("0".to_string()),
        ..QueueEnv::default()
    };
    assert!(QueueConfig::from_env(&env).is_err());
}

#[test]
fn default_autoclaim_exceeds_upstream_timeout() {
    assert_eq!(autoclaim_min_idle_ms_for_upstream_timeout(600), 720_000);
}

#[test]
fn consumer_name_defaults_include_process_id() {
    assert_eq!(resolve_consumer_name(None, "pod-1", 4242), "pod-1-4242");
}

#[test]
fn consumer_name_honors_explicit_override() {
    assert_eq!(
        resolve_consumer_name(Some("worker-a"), "pod-1", 1),
        "worker-a"
    );
}

#[test]
fn max_concurrent_jobs_defaults_and_rejects_zero() {
    assert_eq!(max_concurrent_jobs_from_env_value(None).unwrap(), 1);
    assert!(max_concurrent_jobs_from_env_value(Some("0")).is_err());
    assert_eq!(max_concurrent_jobs_from_env_value(Some("4")).unwrap(), 4);
}

#[test]
fn recommended_grace_period_exceeds_upstream_timeout() {
    assert_eq!(
        recommended_termination_grace_period_seconds_for_upstream(600),
        660
    );
    assert_eq!(
        recommended_termination_grace_period_seconds_for_upstream_and_block(600, 5_000),
        665
    );
    assert_eq!(
        recommended_termination_grace_period_seconds_for_upstream_and_block(600, 120_000),
        780
    );
}

#[test]
fn pending_retry_scheduler_honors_backoff() {
    let mut scheduler = PendingRetryScheduler::new();
    let message = QueueMessage {
        stream_id: "1-0".to_string(),
        response_id: "resp_a".to_string(),
        idle_ms: None,
        autoclaimed: false,
    };
    scheduler.schedule(
        &message,
        Backoff::from_secs(60),
        EntrySource::Live,
        1,
        None,
    );
    assert!(scheduler.due_retries().is_empty());
    let retry_at = scheduler.get("1-0").unwrap().retry_at;
    assert!(scheduler.due_retries_at(retry_at - 1).is_empty());
    assert_eq!(
        scheduler.due_retries_at(retry_at),
        vec![DuePendingRetry {
            message: message.clone(),
            entry_source: EntrySource::Live,
            attempt: 1,
            pending_completion: None,
        }]
    );
}

#[test]
fn pending_retry_scheduler_preserves_entry_source_and_increments_attempts() {
    let mut scheduler = PendingRetryScheduler::new();
    let message = QueueMessage {
        stream_id: "1-0".to_string(),
        response_id: "resp_a".to_string(),
        idle_ms: None,
        autoclaimed: false,
    };
    scheduler.schedule(
        &message,
        Backoff::from_secs(30),
        EntrySource::Live,
        1,
        None,
    );
    scheduler.schedule(
        &message,
        Backoff::from_secs(30),
        EntrySource::Live,
        2,
        None,
    );
    let entry = scheduler.get("1-0").unwrap();
    assert_eq!(entry.entry_source, EntrySource::Live);
    assert_eq!(entry.attempt, 2);
}

fn due_retry(attempt: u32) -> DuePendingRetry {
    DuePendingRetry {
        message: QueueMessage {
            stream_id: "1-0".to_string(),
            response_id: "resp_a".to_string(),
            idle_ms: None,
            autoclaimed: false,
        },
        entry_source: EntrySource::Live,
        attempt,
        pending_completion: None,
    }
}

#[test]
fn pending_retry_escalates_to_autoclaimed_after_idle_window() {
    assert_eq!(
        entry_source_for_pending_retry(&due_retry(24), 720_000, Backoff::from_secs(30)),
        EntrySource::Autoclaimed
    );
    assert_eq!(
        entry_source_for_pending_retry(&due_retry(23), 720_000, Backoff::from_secs(30)),
        EntrySource::Live
    );
}

#[test]
fn max_pending_retry_attempts_matches_autoclaim_window() {
    assert_eq!(
        max_pending_retry_attempts(720_000, Backoff::from_secs(30)),
        24
    );
}

#[test]
fn max_pending_retry_attempts_uses_ceiling_division() {
    assert_eq!(
        max_pending_retry_attempts(45_000, Backoff::from_secs(30)),
        2
    );
}

#[test]
fn next_retry_attempt_increments_from_due_retry() {
    assert_eq!(next_retry_attempt(None), 1);
    assert_eq!(next_retry_attempt(Some(3)), 4);
}

#[test]
fn pending_retry_scheduler_retains_completion_payload() {
    let mut scheduler = PendingRetryScheduler::new();
    let completion = StoredResponse {
        upstream: "http://model".to_string(),
        response: "{\"status\":\"completed\",\"background\":true}".to_string(),
        input: "[]".to_string(),
        pending_upstream_request: None,
        upstream_authorization: None,
        enqueued_at: None,
    };
    scheduler.schedule(
        &QueueMessage {
            stream_id: "2-0".to_string(),
            response_id: "resp_b".to_string(),
            idle_ms: None,
            autoclaimed: false,
        },
        Backoff::from_secs(30),
        EntrySource::Live,
        1,
        Some(completion.clone()),
    );
    assert_eq!(
        scheduler.get("2-0").unwrap().pending_completion,
        Some(completion)
    );
}
