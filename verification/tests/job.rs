use duihua_background_worker::config::QueueConfig;
use duihua_background_worker::job::{
    handle_message, process_due_pending_retries, process_message, process_message_start,
    schedule_message_retry_on_error, schedule_message_retry_on_error_at, HandleAction,
    HandleEvent, JobEnd, JobError, MessageEvent, MessageJob, MessageStep, ProcessContext,
    ProcessOutcome, RetryableAckError, RetryableMessageError,
};
use duihua_background_worker::message::{EntrySource, QueueMessage, StoredResponse};
use duihua_background_worker::retry::PendingRetryScheduler;
use duihua_background_worker::store::{ClientError, StoreError};
use duihua_background_worker::time::Backoff;

fn config() -> QueueConfig {
    QueueConfig {
        consumer_group: "group".to_string(),
        consumer_name: "pod-1".to_string(),
        block_ms: 5_000,
        autoclaim_min_idle_ms: 720_000,
        max_concurrent_jobs: 1,
    }
}

fn message() -> QueueMessage {
    QueueMessage {
        stream_id: "1-0".to_string(),
        response_id: "resp_a".to_string(),
        idle_ms: Some(9),
        autoclaimed: true,
    }
}

fn completion() -> StoredResponse {
    StoredResponse {
        upstream: "http://model".to_string(),
        response: "{}".to_string(),
        input: "[]".to_string(),
        pending_upstream_request: None,
        upstream_authorization: None,
        enqueued_at: None,
    }
}

fn handle(pending: Option<StoredResponse>, event: HandleEvent) -> HandleAction {
    handle_message(&config(), &message(), EntrySource::Live, &pending, event)
}

fn acknowledge() -> HandleAction {
    HandleAction::Acknowledge {
        consumer_group: "group".to_string(),
        stream_id: "1-0".to_string(),
    }
}

#[test]
fn stored_completion_is_only_persisted() {
    assert_eq!(
        handle(Some(completion()), HandleEvent::Begin),
        HandleAction::PersistCompletion {
            response_id: "resp_a".to_string(),
            completion: completion(),
        }
    );
    assert_eq!(
        handle(Some(completion()), HandleEvent::Persisted(Ok(()))),
        acknowledge()
    );
    assert_eq!(
        handle(
            Some(completion()),
            HandleEvent::Persisted(Err(JobError::RetryableCompletion(completion())))
        ),
        HandleAction::Finish(Err(JobError::RetryableCompletion(completion())))
    );
}

#[test]
fn other_messages_are_processed_and_acknowledged() {
    assert_eq!(
        handle(None, HandleEvent::Begin),
        HandleAction::ProcessResponse {
            response_id: "resp_a".to_string(),
            context: ProcessContext {
                message_idle_ms: Some(9),
                autoclaim_min_idle_ms: 720_000,
                entry_source: EntrySource::Live,
            },
        }
    );
    assert_eq!(
        handle(None, HandleEvent::Processed(Ok(ProcessOutcome::Ack))),
        acknowledge()
    );
    assert_eq!(
        handle(None, HandleEvent::Processed(Ok(ProcessOutcome::Retry))),
        HandleAction::Finish(Err(JobError::RetryableMessage(RetryableMessageError)))
    );
    assert_eq!(
        handle(
            None,
            HandleEvent::Processed(Err(JobError::Other("bad".to_string())))
        ),
        HandleAction::Finish(Err(JobError::Other("bad".to_string())))
    );
    assert_eq!(
        handle(None, HandleEvent::Acknowledged(Ok(()))),
        HandleAction::Finish(Ok(()))
    );
}

#[test]
fn failed_acknowledgement_is_retried_only_if_retryable() {
    let retryable = StoreError::Client(ClientError::Transport("reset".to_string()));
    assert_eq!(
        handle(None, HandleEvent::Acknowledged(Err(retryable))),
        HandleAction::Finish(Err(JobError::RetryableAck(RetryableAckError)))
    );
    let hopeless = || StoreError::Client(ClientError::NotFound("1-0".to_string()));
    assert_eq!(
        handle(None, HandleEvent::Acknowledged(Err(hopeless()))),
        HandleAction::Finish(Err(JobError::AckFailed(hopeless())))
    );
    assert_eq!(
        handle(Some(completion()), HandleEvent::Acknowledged(Err(hopeless()))),
        HandleAction::Finish(Err(JobError::AckFailed(hopeless())))
    );
}

#[test]
fn job_errors_say_what_happened() {
    let cause = StoreError::Client(ClientError::NotFound("1-0".to_string()));
    for (err, text) in [
        (
            JobError::RetryableMessage(RetryableMessageError),
            "background queue message will be retried",
        ),
        (
            JobError::RetryableAck(RetryableAckError),
            "failed to acknowledge background queue message; will retry",
        ),
        (
            JobError::RetryableCompletion(completion()),
            "failed to store a completed response; will retry",
        ),
        (
            JobError::AckFailed(cause),
            "failed to acknowledge background queue message",
        ),
        (JobError::Other("bad gateway".to_string()), "bad gateway"),
    ] {
        assert_eq!(err.message(), text);
    }
}

#[test]
fn retryable_errors_say_what_happened() {
    assert_eq!(
        RetryableMessageError.message(),
        "background queue message will be retried"
    );
    assert_eq!(
        RetryableAckError.message(),
        "failed to acknowledge background queue message; will retry"
    );
}

#[test]
fn new_job_knows_its_source_and_next_attempt() {
    let job = MessageJob::new(message(), None, None, None);
    assert_eq!(job.message, message());
    assert_eq!(job.entry_source, EntrySource::Autoclaimed);
    assert_eq!(job.next_attempt, 1);
    assert_eq!(job.pending_completion, None);
    let job = MessageJob::new(
        message(),
        Some(EntrySource::Live),
        Some(3),
        Some(completion()),
    );
    assert_eq!(job.entry_source, EntrySource::Live);
    assert_eq!(job.next_attempt, 4);
    assert_eq!(job.pending_completion, Some(completion()));
}

#[test]
fn failed_job_comes_back_with_its_next_number() {
    let backoff = Backoff::from_secs(30);
    let mut scheduler = PendingRetryScheduler::new();
    let job = MessageJob::new(message(), Some(EntrySource::Live), Some(22), None);
    let failed = Err(JobError::RetryableCompletion(completion()));
    assert_eq!(
        job.finish_at(10, &failed, &mut scheduler, backoff),
        JobEnd::WillRetry
    );
    assert!(scheduler.due_retries_at(30_000_000_009).is_empty());
    let mut due = scheduler.due_retries_at(30_000_000_010);
    assert_eq!(due.len(), 1);

    let none = process_due_pending_retries(&mut due, true, &mut scheduler, 720_000, backoff);
    assert_eq!(none, None);
    assert_eq!(due.len(), 1);
    assert!(scheduler.get("1-0").is_some());

    let again = process_due_pending_retries(&mut due, false, &mut scheduler, 720_000, backoff);
    assert_eq!(
        again,
        Some(MessageJob {
            message: message(),
            entry_source: EntrySource::Live,
            next_attempt: 24,
            pending_completion: Some(completion()),
        })
    );
    assert!(due.is_empty());
    assert!(scheduler.get("1-0").is_none());

    let again = again.unwrap();
    let failed = Err(JobError::RetryableMessage(RetryableMessageError));
    assert_eq!(
        again.finish_at(0, &failed, &mut scheduler, backoff),
        JobEnd::WillRetry
    );
    let mut due = scheduler.due_retries_at(30_000_000_000);
    let escalated =
        process_due_pending_retries(&mut due, false, &mut scheduler, 720_000, backoff).unwrap();
    assert_eq!(escalated.entry_source, EntrySource::Autoclaimed);
    assert_eq!(escalated.next_attempt, 25);
    assert_eq!(escalated.pending_completion, None);
    assert_eq!(
        process_due_pending_retries(&mut due, false, &mut scheduler, 720_000, backoff),
        None
    );
}

#[test]
fn only_retryable_failures_are_remembered() {
    let backoff = Backoff::from_secs(30);
    let mut scheduler = PendingRetryScheduler::new();
    let job = MessageJob::new(message(), None, None, None);
    assert_eq!(job.finish(&Ok(()), &mut scheduler, backoff), JobEnd::Done);
    let hopeless = Err(JobError::Other("bad".to_string()));
    assert_eq!(
        job.finish(&hopeless, &mut scheduler, backoff),
        JobEnd::Failed
    );
    let ack = JobError::AckFailed(StoreError::Other(vec![]));
    assert!(!schedule_message_retry_on_error(
        &ack,
        &message(),
        &mut scheduler,
        backoff,
        EntrySource::Live,
        1
    ));
    assert!(scheduler.get("1-0").is_none());

    let retryable = Err(JobError::RetryableAck(RetryableAckError));
    assert_eq!(
        job.finish(&retryable, &mut scheduler, backoff),
        JobEnd::WillRetry
    );
    assert_eq!(scheduler.get("1-0").unwrap().attempt, 1);
    assert!(scheduler.get("1-0").unwrap().retry_at >= 30_000_000_000);
    assert!(schedule_message_retry_on_error(
        &JobError::RetryableMessage(RetryableMessageError),
        &message(),
        &mut scheduler,
        backoff,
        EntrySource::Live,
        7
    ));
    assert_eq!(scheduler.get("1-0").unwrap().attempt, 7);
    assert!(schedule_message_retry_on_error_at(
        4,
        &JobError::RetryableCompletion(completion()),
        &message(),
        &mut scheduler,
        backoff,
        EntrySource::StartupPending,
        8
    ));
    let entry = scheduler.get("1-0").unwrap();
    assert_eq!(entry.attempt, 8);
    assert_eq!(entry.retry_at, 30_000_000_004);
    assert_eq!(entry.entry_source, EntrySource::StartupPending);
    assert_eq!(entry.pending_completion, Some(completion()));
}

#[test]
fn message_is_worked_on_only_with_a_permit() {
    let step = process_message_start(false);
    assert_eq!(step, MessageStep::AcquirePermit);
    assert_eq!(
        process_message(step, MessageEvent::PermitAnswered(false)),
        MessageStep::Abandoned
    );
    assert_eq!(process_message(step, MessageEvent::Handled), step);
    let step = process_message(step, MessageEvent::PermitAnswered(true));
    assert_eq!(step, MessageStep::CheckShutdown);
    assert_eq!(step, process_message_start(true));
    assert_eq!(
        process_message(step, MessageEvent::ShutdownRead(true)),
        MessageStep::HandleInline
    );
    let step = process_message(step, MessageEvent::ShutdownRead(false));
    assert_eq!(step, MessageStep::Spawn);
    let step = process_message(step, MessageEvent::Handled);
    assert_eq!(step, MessageStep::ReleasePermit);
    assert_eq!(
        process_message(MessageStep::HandleInline, MessageEvent::Handled),
        MessageStep::ReleasePermit
    );
    assert_eq!(
        process_message(step, MessageEvent::Released),
        MessageStep::Finished
    );
}
