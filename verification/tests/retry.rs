use duihua_background_worker::attempts::{
    entry_source_for_pending_retry, has_retry_window, max_pending_retry_attempts,
    next_retry_attempt,
};
use duihua_background_worker::claim::{
    claim_jobs, claim_jobs_request, live_claim_request, schedule_pending_hydration_retries,
    schedule_pending_hydration_retries_at, startup_claim_request,
};
use duihua_background_worker::config::QueueConfig;
use duihua_background_worker::message::{
    entry_source_for_message, EntrySource, QueueMessage, StoredResponse,
};
use duihua_background_worker::retry::{
    DuePendingRetry, PendingRetryEntry, PendingRetryScheduler,
};
use duihua_background_worker::store::{
    BackgroundJob, ClaimBackgroundJobsRequest, ClaimBackgroundJobsResult, PendingBackgroundJob,
};
use duihua_background_worker::time::Backoff;

fn message(stream_id: &str, response_id: &str) -> QueueMessage {
    QueueMessage {
        stream_id: stream_id.to_string(),
        response_id: response_id.to_string(),
        idle_ms: Some(9),
        autoclaimed: true,
    }
}

fn completion() -> StoredResponse {
    StoredResponse {
        upstream: "http://model".to_string(),
        response: "{}".to_string(),
        input: "[]".to_string(),
        pending_upstream_request: None,
        upstream_authorization: Some("Bearer x".to_string()),
        enqueued_at: Some("1".to_string()),
    }
}

fn config() -> QueueConfig {
    QueueConfig {
        consumer_group: "group".to_string(),
        consumer_name: "pod-1".to_string(),
        block_ms: 0x1_0000_0007,
        autoclaim_min_idle_ms: 0x2_0000_0003,
        max_concurrent_jobs: 1,
    }
}

#[test]
fn scheduled_message_is_due_from_its_moment_on() {
    let mut scheduler = PendingRetryScheduler::default();
    scheduler.schedule_at(
        5,
        &message("1-0", "resp_a"),
        Backoff::from_secs(1),
        EntrySource::StartupPending,
        3,
        Some(completion()),
    );
    assert_eq!(
        scheduler.get("1-0"),
        Some(&PendingRetryEntry {
            response_id: "resp_a".to_string(),
            retry_at: 1_000_000_005,
            autoclaimed: true,
            idle_ms: Some(9),
            entry_source: EntrySource::StartupPending,
            attempt: 3,
            pending_completion: Some(completion()),
        })
    );
    assert!(scheduler.due_retries_at(1_000_000_004).is_empty());
    assert_eq!(
        scheduler.due_retries_at(1_000_000_005),
        vec![DuePendingRetry {
            message: message("1-0", "resp_a"),
            entry_source: EntrySource::StartupPending,
            attempt: 3,
            pending_completion: Some(completion()),
        }]
    );
}

#[test]
fn message_without_backoff_is_due_at_once() {
    let mut scheduler = PendingRetryScheduler::new();
    scheduler.schedule(
        &message("1-0", "resp_a"),
        Backoff::from_secs(0),
        EntrySource::Live,
        1,
        None,
    );
    for _ in 0..100 {
        let due = scheduler.due_retries();
        assert_eq!(due.len(), 1);
        assert_eq!(due[0].message, message("1-0", "resp_a"));
    }
}

#[test]
fn clock_of_the_scheduler_moves() {
    let mut scheduler = PendingRetryScheduler::new();
    let backoff = Backoff {
        secs: 0,
        subsec_nanos: 1_000_000,
    };
    scheduler.schedule(&message("1-0", "resp_a"), backoff, EntrySource::Live, 1, None);
    while scheduler.due_retries().is_empty() {}
    scheduler.schedule(&message("2-0", "resp_b"), backoff, EntrySource::Live, 1, None);
    let first = scheduler.get("1-0").unwrap().retry_at;
    let second = scheduler.get("2-0").unwrap().retry_at;
    assert!(second >= first + 1_000_000);
}

#[test]
fn scheduling_again_replaces_and_removing_forgets() {
    let mut scheduler = PendingRetryScheduler::new();
    let second = Backoff::from_secs(1);
    scheduler.schedule_at(0, &message("1-0", "a"), second, EntrySource::Live, 1, None);
    scheduler.schedule_at(0, &message("2-0", "b"), second, EntrySource::Live, 1, None);
    scheduler.schedule_at(7, &message("1-0", "c"), second, EntrySource::Live, 2, None);
    let due = scheduler.due_retries_at(1_000_000_007);
    assert_eq!(due.len(), 2);
    assert_eq!(scheduler.due_retries_at(1_000_000_006).len(), 1);
    assert_eq!(scheduler.get("1-0").unwrap().response_id, "c");
    scheduler.remove("1-0");
    scheduler.remove("3-0");
    assert!(scheduler.get("1-0").is_none());
    assert_eq!(scheduler.get("2-0").unwrap().response_id, "b");
    assert_eq!(scheduler.due_retries_at(u128::MAX).len(), 1);
}

#[test]
fn attempts_count_up_to_the_largest_number() {
    assert_eq!(next_retry_attempt(Some(u32::MAX - 1)), u32::MAX);
    assert_eq!(next_retry_attempt(Some(u32::MAX)), u32::MAX);
}

#[test]
fn attempts_fill_the_idle_time() {
    assert_eq!(max_pending_retry_attempts(0, Backoff::from_secs(30)), 1);
    assert_eq!(max_pending_retry_attempts(1, Backoff::from_secs(30)), 1);
    assert_eq!(max_pending_retry_attempts(30_001, Backoff::from_secs(30)), 2);
    assert_eq!(max_pending_retry_attempts(5, Backoff::from_secs(0)), 5);
    // Two to the thirty-second attempts leave nothing in thirty-two bits.
    assert_eq!(
        max_pending_retry_attempts(0x1_0000_0000, Backoff::from_secs(0)),
        0
    );
}

#[test]
fn some_waiting_times_are_no_window() {
    assert!(has_retry_window(Backoff::from_secs(0)));
    assert!(has_retry_window(Backoff::from_secs(30)));
    assert!(has_retry_window(Backoff::from_secs(u64::MAX)));
    // A thousand times two to the sixty-first leaves nothing in sixty-four bits.
    assert!(!has_retry_window(Backoff::from_secs(1 << 61)));
}

#[test]
fn taken_over_messages_stay_taken_over() {
    let due = |attempt: u32, entry_source: EntrySource| DuePendingRetry {
        message: message("1-0", "resp_a"),
        entry_source,
        attempt,
        pending_completion: None,
    };
    let backoff = Backoff::from_secs(1);
    let mut source = EntrySource::StartupPending;
    for attempt in 1..10 {
        source = entry_source_for_pending_retry(&due(attempt, source), 5_000, backoff);
        let expected = if attempt < 5 {
            EntrySource::StartupPending
        } else {
            EntrySource::Autoclaimed
        };
        assert_eq!(source, expected);
        let from_the_first = due(attempt, EntrySource::StartupPending);
        assert_eq!(
            entry_source_for_pending_retry(&from_the_first, 5_000, backoff),
            expected
        );
    }
}

#[test]
fn sources_of_messages() {
    let mut delivered = message("1-0", "resp_a");
    delivered.autoclaimed = false;
    let taken = message("1-0", "resp_a");
    assert_eq!(
        entry_source_for_message(&delivered, false),
        EntrySource::Live
    );
    assert_eq!(
        entry_source_for_message(&taken, false),
        EntrySource::Autoclaimed
    );
    assert_eq!(
        entry_source_for_message(&delivered, true),
        EntrySource::StartupPending
    );
    assert_eq!(
        entry_source_for_message(&taken, true),
        EntrySource::StartupPending
    );
}

#[test]
fn claims_carry_the_lower_bits_of_long_times() {
    let request = |count: u32, block_ms: u32| ClaimBackgroundJobsRequest {
        consumer_group: "group".to_string(),
        consumer_name: "pod-1".to_string(),
        count,
        block_ms,
        autoclaim_min_idle_ms: 3,
    };
    assert_eq!(claim_jobs_request(&config(), 4, 9), request(4, 9));
    assert_eq!(live_claim_request(&config()), request(1, 7));
    assert_eq!(startup_claim_request(&config()), request(1, 0));
}

#[test]
fn first_claimed_job_becomes_the_message() {
    let job = |stream_id: &str| BackgroundJob {
        stream_id: stream_id.to_string(),
        response_id: "resp_a".to_string(),
        idle_ms: Some(9),
        autoclaimed: true,
    };
    let pending = || PendingBackgroundJob {
        stream_id: "9-0".to_string(),
        response_id: "resp_z".to_string(),
    };
    let claimed = claim_jobs(ClaimBackgroundJobsResult {
        jobs: vec![job("1-0"), job("2-0")],
        pending_jobs: vec![pending()],
    });
    assert_eq!(claimed.job, Some(message("1-0", "resp_a")));
    assert_eq!(claimed.pending_jobs, vec![pending()]);
    let claimed = claim_jobs(ClaimBackgroundJobsResult {
        jobs: vec![],
        pending_jobs: vec![],
    });
    assert_eq!(claimed.job, None);
}

#[test]
fn jobs_that_were_not_ready_are_tried_again() {
    let pending = vec![
        PendingBackgroundJob {
            stream_id: "1-0".to_string(),
            response_id: "resp_a".to_string(),
        },
        PendingBackgroundJob {
            stream_id: "2-0".to_string(),
            response_id: "resp_b".to_string(),
        },
        PendingBackgroundJob {
            stream_id: "1-0".to_string(),
            response_id: "resp_c".to_string(),
        },
    ];
    let entry = |response_id: &str, retry_at: u128| PendingRetryEntry {
        response_id: response_id.to_string(),
        retry_at,
        autoclaimed: false,
        idle_ms: None,
        entry_source: EntrySource::Live,
        attempt: 1,
        pending_completion: None,
    };
    let mut scheduler = PendingRetryScheduler::new();
    schedule_pending_hydration_retries_at(
        &pending,
        &mut scheduler,
        &vec![1, 2, 3],
        Backoff::from_secs(30),
    );
    assert_eq!(
        scheduler.get("1-0"),
        Some(&entry("resp_c", 30_000_000_003))
    );
    assert_eq!(
        scheduler.get("2-0"),
        Some(&entry("resp_b", 30_000_000_002))
    );

    let mut scheduler = PendingRetryScheduler::new();
    schedule_pending_hydration_retries(&pending, &mut scheduler, Backoff::from_secs(30));
    assert_eq!(scheduler.get("1-0").unwrap().response_id, "resp_c");
    assert_eq!(scheduler.get("2-0").unwrap().response_id, "resp_b");
    assert!(scheduler.due_retries().is_empty());
    schedule_pending_hydration_retries(&vec![], &mut scheduler, Backoff::from_secs(30));
    assert_eq!(scheduler.due_retries_at(u128::MAX).len(), 2);
}
