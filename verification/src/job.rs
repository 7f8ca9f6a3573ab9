//! The life of one message: when it may be worked on, what is done for it, and
//! what becomes of it when that fails.
use vstd::prelude::*;

use crate::attempts::{
    entry_source_for_pending_retry, following_attempt, next_retry_attempt, retried_source,
    retry_window_ms,
};
use crate::config::QueueConfig;
use crate::message::{
    entry_source_for_message, message_source, EntrySource, QueueMessage, StoredResponse,
};
use crate::retry::{
    clone_completion, is_due, lists_due, retry_entry, DuePendingRetry, PendingRetryEntry,
    PendingRetryScheduler,
};
use crate::store::{is_retryable_store_error, store_error_is_retryable, StoreError};
use crate::time::{Backoff, MAX_CLOCK_NANOS};

verus! {

/// A message that is not finished yet and has to be tried again.
#[derive(Clone, Copy, Debug, PartialEq, Eq, Structural)]
pub struct RetryableMessageError;

impl RetryableMessageError {
    /// What happened, in words.
    pub fn message(&self) -> (text: String)
        ensures
            text@ == "background queue message will be retried"@,
    {
        "background queue message will be retried".to_owned()
    }
}

/// A message that is finished but could not be reported as done.
#[derive(Clone, Copy, Debug, PartialEq, Eq, Structural)]
pub struct RetryableAckError;

impl RetryableAckError {
    /// What happened, in words.
    pub fn message(&self) -> (text: String)
        ensures
            text@ == "failed to acknowledge background queue message; will retry"@,
    {
        "failed to acknowledge background queue message; will retry".to_owned()
    }
}

/// Why the work on a message did not come to its end.
#[derive(Debug, PartialEq, Eq)]
pub enum JobError {
    /// The message is not finished yet.
    RetryableMessage(RetryableMessageError),
    /// The message could not be reported as done, which may still succeed.
    RetryableAck(RetryableAckError),
    /// The response is complete but could not be stored, which may still
    /// succeed.
    RetryableCompletion(StoredResponse),
    /// The message could not be reported as done, and will not be.
    AckFailed(StoreError),
    /// Anything else, in words.
    Other(String),
}

/// What such a failure says of itself. What led to it is told apart from that.
pub open spec fn job_error_text(err: JobError) -> Seq<char> {
    match err {
        JobError::RetryableMessage(_) => "background queue message will be retried"@,
        JobError::RetryableAck(_) =>
            "failed to acknowledge background queue message; will retry"@,
        JobError::RetryableCompletion(_) => "failed to store a completed response; will retry"@,
        JobError::AckFailed(_) => "failed to acknowledge background queue message"@,
        JobError::Other(text) => text@,
    }
}

impl JobError {
    /// What happened, in words.
    pub fn message(&self) -> (text: String)
        ensures
            text@ == job_error_text(*self),
    {
        match self {
            JobError::RetryableMessage(err) => err.message(),
            JobError::RetryableAck(err) => err.message(),
            JobError::RetryableCompletion(_) =>
                "failed to store a completed response; will retry".to_owned(),
            JobError::AckFailed(_) => "failed to acknowledge background queue message".to_owned(),
            JobError::Other(text) => text.clone(),
        }
    }
}

/// Whether a message is tried again after this failure, and with which
/// completed response, if one waits to be stored.
pub open spec fn retry_after(err: JobError) -> Option<Option<StoredResponse>> {
    match err {
        JobError::RetryableMessage(_) => Some(None),
        JobError::RetryableAck(_) => Some(None),
        JobError::RetryableCompletion(completion) => Some(Some(completion)),
        _ => None,
    }
}

/// Whether a message is tried again after this failure, and with which
/// completed response.
fn wanted_retry(err: &JobError) -> (wanted: Option<Option<StoredResponse>>)
    ensures
        wanted == retry_after(*err),
{
    match err {
        JobError::RetryableMessage(_) | JobError::RetryableAck(_) => Some(None),
        JobError::RetryableCompletion(completion) => Some(Some(completion.clone())),
        JobError::AckFailed(_) | JobError::Other(_) => None,
    }
}

/// Remembers a failed message for another attempt, counted from the clock
/// reading `now`, if its failure allows for one. Tells whether it does.
pub fn schedule_message_retry_on_error_at(
    now: u128,
    err: &JobError,
    message: &QueueMessage,
    scheduler: &mut PendingRetryScheduler,
    backoff: Backoff,
    entry_source: EntrySource,
    attempt: u32,
) -> (scheduled: bool)
    requires
        now <= MAX_CLOCK_NANOS,
    ensures
        scheduled == (retry_after(*err) is Some),
        final(scheduler).same_clock(*old(scheduler)),
        final(scheduler)@ == match retry_after(*err) {
            Some(completion) => old(scheduler)@.insert(
                message.stream_id@,
                retry_entry(
                    *message,
                    now as nat + backoff.nanos(),
                    entry_source,
                    attempt,
                    completion,
                ),
            ),
            None => old(scheduler)@,
        },
{
    match wanted_retry(err) {
        Some(completion) => {
            scheduler.schedule_at(now, message, backoff, entry_source, attempt, completion);
            true
        },
        None => false,
    }
}

/// Remembers a failed message for another attempt, counted from now, if its
/// failure allows for one. Tells whether it does.
///
/// The moment is a reading of the scheduler's clock.
pub fn schedule_message_retry_on_error(
    err: &JobError,
    message: &QueueMessage,
    scheduler: &mut PendingRetryScheduler,
    backoff: Backoff,
    entry_source: EntrySource,
    attempt: u32,
) -> (scheduled: bool)
    ensures
        scheduled == (retry_after(*err) is Some),
        final(scheduler).started_at() == old(scheduler).started_at(),
        match retry_after(*err) {
            Some(completion) => {
                &&& old(scheduler).is_reading(final(scheduler).last_reading())
                &&& final(scheduler)@ == old(scheduler)@.insert(
                    message.stream_id@,
                    retry_entry(
                        *message,
                        final(scheduler).last_reading() as nat + backoff.nanos(),
                        entry_source,
                        attempt,
                        completion,
                    ),
                )
            },
            None => final(scheduler).same_clock(*old(scheduler)) && final(scheduler)@
                == old(scheduler)@,
        },
{
    match wanted_retry(err) {
        Some(completion) => {
            scheduler.schedule(message, backoff, entry_source, attempt, completion);
            true
        },
        None => false,
    }
}

/// A message on which the worker is about to work.
///
/// `next_attempt` is the number under which it is remembered if that fails.
#[derive(Debug, PartialEq, Eq)]
pub struct MessageJob {
    pub message: QueueMessage,
    pub entry_source: EntrySource,
    pub next_attempt: u32,
    pub pending_completion: Option<StoredResponse>,
}

/// The work on a message: its source is the given one or follows from the
/// message itself, and the attempt after this one is the next in number.
pub open spec fn message_job(
    message: QueueMessage,
    entry_source: Option<EntrySource>,
    retry_attempt: Option<u32>,
    pending_completion: Option<StoredResponse>,
) -> MessageJob {
    MessageJob {
        message,
        entry_source: match entry_source {
            Some(source) => source,
            None => message_source(message.autoclaimed, false),
        },
        next_attempt: following_attempt(retry_attempt),
        pending_completion,
    }
}

/// How the work on a message ended.
#[derive(Clone, Copy, Debug, PartialEq, Eq, Structural)]
pub enum JobEnd {
    /// It is done.
    Done,
    /// It will be tried again.
    WillRetry,
    /// It failed for good.
    Failed,
}

/// How the work ended, given what it came to.
pub open spec fn job_end(result: Result<(), JobError>) -> JobEnd {
    match result {
        Ok(_) => JobEnd::Done,
        Err(err) => if retry_after(err) is Some {
            JobEnd::WillRetry
        } else {
            JobEnd::Failed
        },
    }
}

impl MessageJob {
    /// The work on a message.
    pub fn new(
        message: QueueMessage,
        entry_source: Option<EntrySource>,
        retry_attempt: Option<u32>,
        pending_completion: Option<StoredResponse>,
    ) -> (job: MessageJob)
        ensures
            job == message_job(message, entry_source, retry_attempt, pending_completion),
    {
        let entry_source = match entry_source {
            Some(source) => source,
            None => entry_source_for_message(&message, false),
        };
        MessageJob {
            message,
            entry_source,
            next_attempt: next_retry_attempt(retry_attempt),
            pending_completion,
        }
    }

    /// What is remembered after the work on this message came to `result` at
    /// the clock reading `now`.
    pub open spec fn remembered(
        self,
        entries: Map<Seq<char>, PendingRetryEntry>,
        result: Result<(), JobError>,
        now: u128,
        backoff: Backoff,
    ) -> Map<Seq<char>, PendingRetryEntry> {
        match result {
            Ok(_) => entries,
            Err(err) => match retry_after(err) {
                Some(completion) => entries.insert(
                    self.message.stream_id@,
                    retry_entry(
                        self.message,
                        now as nat + backoff.nanos(),
                        self.entry_source,
                        self.next_attempt,
                        completion,
                    ),
                ),
                None => entries,
            },
        }
    }

    /// Ends the work on this message at the clock reading `now`.
    pub fn finish_at(
        &self,
        now: u128,
        result: &Result<(), JobError>,
        scheduler: &mut PendingRetryScheduler,
        backoff: Backoff,
    ) -> (end: JobEnd)
        requires
            now <= MAX_CLOCK_NANOS,
        ensures
            end == job_end(*result),
            final(scheduler).same_clock(*old(scheduler)),
            final(scheduler)@ == self.remembered(old(scheduler)@, *result, now, backoff),
    {
        match result {
            Ok(_) => JobEnd::Done,
            Err(err) => {
                if schedule_message_retry_on_error_at(
                    now,
                    err,
                    &self.message,
                    scheduler,
                    backoff,
                    self.entry_source,
                    self.next_attempt,
                ) {
                    JobEnd::WillRetry
                } else {
                    JobEnd::Failed
                }
            },
        }
    }

    /// Ends the work on this message now.
    ///
    /// The moment is a reading of the scheduler's clock.
    pub fn finish(
        &self,
        result: &Result<(), JobError>,
        scheduler: &mut PendingRetryScheduler,
        backoff: Backoff,
    ) -> (end: JobEnd)
        ensures
            end == job_end(*result),
            final(scheduler).started_at() == old(scheduler).started_at(),
            if job_end(*result) is WillRetry {
                old(scheduler).is_reading(final(scheduler).last_reading())
            } else {
                final(scheduler).same_clock(*old(scheduler))
            },
            final(scheduler)@ == self.remembered(
                old(scheduler)@,
                *result,
                final(scheduler).last_reading(),
                backoff,
            ),
    {
        match result {
            Ok(_) => JobEnd::Done,
            Err(err) => {
                if schedule_message_retry_on_error(
                    err,
                    &self.message,
                    scheduler,
                    backoff,
                    self.entry_source,
                    self.next_attempt,
                ) {
                    JobEnd::WillRetry
                } else {
                    JobEnd::Failed
                }
            },
        }
    }
}

/// What the worker does to take a message on.
#[derive(Clone, Copy, Debug, PartialEq, Eq, Structural)]
pub enum MessageStep {
    /// Wait for a permit to run.
    AcquirePermit,
    /// With a permit: look whether the worker has to stop.
    CheckShutdown,
    /// With a permit: work on the message and wait for the end.
    HandleInline,
    /// With a permit: work on the message beside everything else.
    Spawn,
    /// Give the permit back, as the work is over.
    ReleasePermit,
    /// The message is left where it is, for another consumer.
    Abandoned,
    /// The message has been worked on.
    Finished,
}

/// What the worker learns while it takes a message on.
#[derive(Clone, Copy, Debug, PartialEq, Eq, Structural)]
pub enum MessageEvent {
    /// The wait for a permit is over: whether there is one.
    PermitAnswered(bool),
    /// The worker has looked whether it has to stop.
    ShutdownRead(bool),
    /// The work on the message is over.
    Handled,
    /// The permit is back.
    Released,
}

/// The first step with a message: a permit that was taken for it is used.
pub open spec fn message_start(permit_reserved: bool) -> MessageStep {
    if permit_reserved {
        MessageStep::CheckShutdown
    } else {
        MessageStep::AcquirePermit
    }
}

/// The step with a message after `event`.
///
/// Without a permit the message is left. With one it is worked on, beside
/// everything else unless the worker has to stop, and the permit is kept until
/// the work is over.
pub open spec fn message_next(step: MessageStep, event: MessageEvent) -> MessageStep {
    match (step, event) {
        (MessageStep::AcquirePermit, MessageEvent::PermitAnswered(granted)) => if granted {
            MessageStep::CheckShutdown
        } else {
            MessageStep::Abandoned
        },
        (MessageStep::CheckShutdown, MessageEvent::ShutdownRead(shutdown)) => if shutdown {
            MessageStep::HandleInline
        } else {
            MessageStep::Spawn
        },
        (MessageStep::HandleInline, MessageEvent::Handled)
        | (MessageStep::Spawn, MessageEvent::Handled) => MessageStep::ReleasePermit,
        (MessageStep::ReleasePermit, MessageEvent::Released) => MessageStep::Finished,
        _ => step,
    }
}

/// The first step with a message.
pub fn process_message_start(permit_reserved: bool) -> (step: MessageStep)
    ensures
        step == message_start(permit_reserved),
{
    if permit_reserved {
        MessageStep::CheckShutdown
    } else {
        MessageStep::AcquirePermit
    }
}

/// The next step with a message.
pub fn process_message(step: MessageStep, event: MessageEvent) -> (next: MessageStep)
    ensures
        next == message_next(step, event),
{
    match (step, event) {
        (MessageStep::AcquirePermit, MessageEvent::PermitAnswered(true)) =>
            MessageStep::CheckShutdown,
        (MessageStep::AcquirePermit, MessageEvent::PermitAnswered(false)) => MessageStep::Abandoned,
        (MessageStep::CheckShutdown, MessageEvent::ShutdownRead(true)) => MessageStep::HandleInline,
        (MessageStep::CheckShutdown, MessageEvent::ShutdownRead(false)) => MessageStep::Spawn,
        (MessageStep::HandleInline, MessageEvent::Handled) => MessageStep::ReleasePermit,
        (MessageStep::Spawn, MessageEvent::Handled) => MessageStep::ReleasePermit,
        (MessageStep::ReleasePermit, MessageEvent::Released) => MessageStep::Finished,
        _ => step,
    }
}

/// What the upstream's side is told of a message.
#[derive(Clone, Copy, Debug, PartialEq, Eq, Structural)]
pub struct ProcessContext {
    pub message_idle_ms: Option<u64>,
    pub autoclaim_min_idle_ms: usize,
    pub entry_source: EntrySource,
}

/// What the upstream's side says of a message.
#[derive(Clone, Copy, Debug, PartialEq, Eq, Structural)]
pub enum ProcessOutcome {
    /// It is finished.
    Ack,
    /// It has to be tried again.
    Retry,
}

/// What the worker learns while it works on a message.
#[derive(Debug, PartialEq, Eq)]
pub enum HandleEvent {
    /// The work begins.
    Begin,
    /// The attempt to store a completed response is over.
    Persisted(Result<(), JobError>),
    /// The attempt to get a response is over.
    Processed(Result<ProcessOutcome, JobError>),
    /// The attempt to report the message as done is over.
    Acknowledged(Result<(), StoreError>),
}

/// What the worker does next for a message.
#[derive(Debug, PartialEq, Eq)]
pub enum HandleAction {
    /// Store a response that is complete.
    PersistCompletion { response_id: String, completion: StoredResponse },
    /// Get a response and store it.
    ProcessResponse { response_id: String, context: ProcessContext },
    /// Report the message as done.
    Acknowledge { consumer_group: String, stream_id: String },
    /// Stop, with this result.
    Finish(Result<(), JobError>),
}

/// What the worker does for `message` after `event`.
///
/// A response that is complete is only stored. The message is reported as done
/// once its response is stored, and the work ends well once that was heard.
pub open spec fn handle_action(
    config: QueueConfig,
    message: QueueMessage,
    entry_source: EntrySource,
    pending_completion: Option<StoredResponse>,
    event: HandleEvent,
) -> HandleAction {
    match event {
        HandleEvent::Begin => match pending_completion {
            Some(completion) => HandleAction::PersistCompletion {
                response_id: message.response_id,
                completion,
            },
            None => HandleAction::ProcessResponse {
                response_id: message.response_id,
                context: ProcessContext {
                    message_idle_ms: message.idle_ms,
                    autoclaim_min_idle_ms: config.autoclaim_min_idle_ms,
                    entry_source,
                },
            },
        },
        HandleEvent::Persisted(Ok(_)) | HandleEvent::Processed(Ok(ProcessOutcome::Ack)) =>
            HandleAction::Acknowledge {
            consumer_group: config.consumer_group,
            stream_id: message.stream_id,
        },
        HandleEvent::Processed(Ok(ProcessOutcome::Retry)) => HandleAction::Finish(
            Err(JobError::RetryableMessage(RetryableMessageError)),
        ),
        HandleEvent::Persisted(Err(err)) => HandleAction::Finish(Err(err)),
        HandleEvent::Processed(Err(err)) => HandleAction::Finish(Err(err)),
        HandleEvent::Acknowledged(Ok(_)) => HandleAction::Finish(Ok(())),
        HandleEvent::Acknowledged(Err(err)) => HandleAction::Finish(
            Err(
                if store_error_is_retryable(err) {
                    JobError::RetryableAck(RetryableAckError)
                } else {
                    JobError::AckFailed(err)
                },
            ),
        ),
    }
}

/// What the worker does for `message` after `event`.
pub fn handle_message(
    config: &QueueConfig,
    message: &QueueMessage,
    entry_source: EntrySource,
    pending_completion: &Option<StoredResponse>,
    event: HandleEvent,
) -> (action: HandleAction)
    ensures
        action == handle_action(*config, *message, entry_source, *pending_completion, event),
{
    match event {
        HandleEvent::Begin => match clone_completion(pending_completion) {
            Some(completion) => HandleAction::PersistCompletion {
                response_id: message.response_id.clone(),
                completion,
            },
            None => HandleAction::ProcessResponse {
                response_id: message.response_id.clone(),
                context: ProcessContext {
                    message_idle_ms: message.idle_ms,
                    autoclaim_min_idle_ms: config.autoclaim_min_idle_ms,
                    entry_source,
                },
            },
        },
        HandleEvent::Persisted(Ok(_)) | HandleEvent::Processed(Ok(ProcessOutcome::Ack)) =>
            HandleAction::Acknowledge {
            consumer_group: config.consumer_group.clone(),
            stream_id: message.stream_id.clone(),
        },
        HandleEvent::Processed(Ok(ProcessOutcome::Retry)) => HandleAction::Finish(
            Err(JobError::RetryableMessage(RetryableMessageError)),
        ),
        HandleEvent::Persisted(Err(err)) => HandleAction::Finish(Err(err)),
        HandleEvent::Processed(Err(err)) => HandleAction::Finish(Err(err)),
        HandleEvent::Acknowledged(Ok(_)) => HandleAction::Finish(Ok(())),
        HandleEvent::Acknowledged(Err(err)) => {
            if is_retryable_store_error(&err) {
                HandleAction::Finish(Err(JobError::RetryableAck(RetryableAckError)))
            } else {
                HandleAction::Finish(Err(JobError::AckFailed(err)))
            }
        },
    }
}

/// Takes the next of the messages that were found due and gives the work on
/// it, unless the worker has to stop or no message is left.
///
/// A message that is taken is no longer remembered; one that is not taken
/// still is.
pub fn process_due_pending_retries(
    due_retries: &mut Vec<DuePendingRetry>,
    shutdown: bool,
    scheduler: &mut PendingRetryScheduler,
    autoclaim_min_idle_ms: usize,
    backoff: Backoff,
) -> (job: Option<MessageJob>)
    requires
        !shutdown && old(due_retries).len() > 0 ==> retry_window_ms(backoff) != 0,
    ensures
        final(scheduler).same_clock(*old(scheduler)),
        shutdown || old(due_retries).len() == 0 ==> {
            &&& job is None
            &&& final(due_retries)@ == old(due_retries)@
            &&& final(scheduler)@ == old(scheduler)@
        },
        !shutdown && old(due_retries).len() > 0 ==> {
            let due = old(due_retries)@[0];
            &&& job == Some(
                message_job(
                    due.message,
                    Some(
                        retried_source(
                            due.entry_source,
                            due.attempt,
                            autoclaim_min_idle_ms as nat,
                            backoff,
                        ),
                    ),
                    Some(due.attempt),
                    due.pending_completion,
                ),
            )
            &&& final(due_retries)@ == old(due_retries)@.skip(1)
            &&& final(scheduler)@ == old(scheduler)@.remove(due.message.stream_id@)
        },
{
    if shutdown || due_retries.len() == 0 {
        return None;
    }
    let due = due_retries.remove(0);
    assert(due_retries@ =~= old(due_retries)@.skip(1));
    let entry_source = entry_source_for_pending_retry(&due, autoclaim_min_idle_ms, backoff);
    scheduler.remove(due.message.stream_id.as_str());
    Some(
        MessageJob::new(
            due.message,
            Some(entry_source),
            Some(due.attempt),
            due.pending_completion,
        ),
    )
}

/// A response that is complete is stored and never asked for again.
pub proof fn completion_is_only_stored(
    config: QueueConfig,
    message: QueueMessage,
    entry_source: EntrySource,
    completion: StoredResponse,
    event: HandleEvent,
)
    ensures
        !(handle_action(config, message, entry_source, Some(completion), event)
            is ProcessResponse),
        handle_action(config, message, entry_source, Some(completion), HandleEvent::Begin)
            == (HandleAction::PersistCompletion { response_id: message.response_id, completion }),
{
}

/// A message is reported as done only after its response was stored: by this
/// worker, or by the upstream's side that calls it finished.
pub proof fn acknowledged_only_when_stored(
    config: QueueConfig,
    message: QueueMessage,
    entry_source: EntrySource,
    pending_completion: Option<StoredResponse>,
    event: HandleEvent,
)
    ensures
        handle_action(config, message, entry_source, pending_completion, event) is Acknowledge <==> (
        event is Persisted && event->Persisted_0 is Ok) || (event is Processed
            && event->Processed_0 == Ok::<ProcessOutcome, JobError>(ProcessOutcome::Ack)),
{
}

/// The work on a message ends well exactly when the report that it is done was
/// heard.
pub proof fn done_only_when_acknowledged(
    config: QueueConfig,
    message: QueueMessage,
    entry_source: EntrySource,
    pending_completion: Option<StoredResponse>,
    event: HandleEvent,
)
    ensures
        handle_action(config, message, entry_source, pending_completion, event)
            == HandleAction::Finish(Ok(())) <==> event is Acknowledged
            && event->Acknowledged_0 is Ok,
{
}

/// A message whose report failed is tried again exactly when the store's
/// failure is worth it; otherwise the work ends with that failure and says that
/// the report failed. Whether a completed response was waiting does not matter.
pub proof fn failed_report_is_retried_if_retryable(
    config: QueueConfig,
    message: QueueMessage,
    entry_source: EntrySource,
    pending_completion: Option<StoredResponse>,
    err: StoreError,
)
    ensures
        ({
            let action = handle_action(
                config,
                message,
                entry_source,
                pending_completion,
                HandleEvent::Acknowledged(Err(err)),
            );
            &&& action is Finish
            &&& action->Finish_0 == Err::<(), JobError>(
                if store_error_is_retryable(err) {
                    JobError::RetryableAck(RetryableAckError)
                } else {
                    JobError::AckFailed(err)
                },
            )
            &&& !store_error_is_retryable(err) ==> job_error_text(action->Finish_0->Err_0)
                == "failed to acknowledge background queue message"@
            &&& job_end(action->Finish_0) == if store_error_is_retryable(err) {
                JobEnd::WillRetry
            } else {
                JobEnd::Failed
            }
        }),
{
}

/// Whether `event` tells how `action` went.
pub open spec fn answers(action: HandleAction, event: HandleEvent) -> bool {
    match action {
        HandleAction::PersistCompletion { .. } => event is Persisted,
        HandleAction::ProcessResponse { .. } => event is Processed,
        HandleAction::Acknowledge { .. } => event is Acknowledged,
        HandleAction::Finish(_) => false,
    }
}

/// The work on a message takes one call for its response and at most one more
/// to report it as done.
pub proof fn handling_takes_at_most_two_calls(
    config: QueueConfig,
    message: QueueMessage,
    entry_source: EntrySource,
    pending_completion: Option<StoredResponse>,
    first: HandleEvent,
    second: HandleEvent,
)
    requires
        answers(
            handle_action(
                config,
                message,
                entry_source,
                pending_completion,
                HandleEvent::Begin,
            ),
            first,
        ),
        answers(
            handle_action(config, message, entry_source, pending_completion, first),
            second,
        ),
    ensures
        handle_action(config, message, entry_source, pending_completion, first) is Acknowledge,
        handle_action(config, message, entry_source, pending_completion, second) is Finish,
{
}

/// The step with a message after a number of events.
pub open spec fn message_after(step: MessageStep, events: Seq<MessageEvent>) -> MessageStep
    decreases events.len(),
{
    if events.len() == 0 {
        step
    } else {
        message_next(message_after(step, events.drop_last()), events.last())
    }
}

/// One where the message has a permit.
pub open spec fn message_permits(step: MessageStep) -> nat {
    if step is CheckShutdown || step is HandleInline || step is Spawn || step is ReleasePermit {
        1
    } else {
        0
    }
}

/// How many permits were taken for a message after it had arrived.
pub open spec fn message_permits_taken(step: MessageStep, events: Seq<MessageEvent>) -> nat
    decreases events.len(),
{
    if events.len() == 0 {
        0
    } else {
        message_permits_taken(step, events.drop_last()) + if message_after(step, events.drop_last())
            is AcquirePermit && events.last() == MessageEvent::PermitAnswered(true) {
            1nat
        } else {
            0nat
        }
    }
}

/// How many permits of a message were given back.
pub open spec fn message_permits_released(step: MessageStep, events: Seq<MessageEvent>) -> nat
    decreases events.len(),
{
    if events.len() == 0 {
        0
    } else {
        message_permits_released(step, events.drop_last()) + if message_after(
            step,
            events.drop_last(),
        ) is ReleasePermit && events.last() == MessageEvent::Released {
            1nat
        } else {
            0nat
        }
    }
}

/// A message is worked on only with a permit, which it keeps until the work is
/// over and of which it never has two; when it is over every permit is back.
/// A message is left only if no permit was to be had.
pub proof fn message_permits_are_accounted_for(permit_reserved: bool, events: Seq<MessageEvent>)
    ensures
        ({
            let start = message_start(permit_reserved);
            let step = message_after(start, events);
            &&& message_permits(start) + message_permits_taken(start, events)
                == message_permits_released(start, events) + message_permits(step)
            &&& step is HandleInline || step is Spawn ==> message_permits(step) == 1
            &&& step is Finished ==> message_permits_released(start, events) == 1
            &&& step is Abandoned ==> !permit_reserved && message_permits_taken(start, events) == 0
        }),
    decreases events.len(),
{
    if events.len() > 0 {
        message_permits_are_accounted_for(permit_reserved, events.drop_last());
        lemma_message_permits(permit_reserved, events.drop_last());
    }
}

/// How many permits a number of messages have together.
pub open spec fn total_permits(steps: Seq<MessageStep>) -> nat
    decreases steps.len(),
{
    if steps.len() == 0 {
        0
    } else {
        total_permits(steps.drop_last()) + message_permits(steps.last())
    }
}

/// How many of a number of messages are worked on.
pub open spec fn total_worked_on(steps: Seq<MessageStep>) -> nat
    decreases steps.len(),
{
    if steps.len() == 0 {
        0
    } else {
        total_worked_on(steps.drop_last()) + if steps.last() is HandleInline || steps.last()
            is Spawn {
            1nat
        } else {
            0nat
        }
    }
}

/// Each message that is worked on has a permit of its own.
pub proof fn work_needs_permits(steps: Seq<MessageStep>)
    ensures
        total_worked_on(steps) <= total_permits(steps),
    decreases steps.len(),
{
    if steps.len() > 0 {
        work_needs_permits(steps.drop_last());
    }
}

/// What the permits of a message say of its step.
proof fn lemma_message_permits(permit_reserved: bool, events: Seq<MessageEvent>)
    ensures
        ({
            let start = message_start(permit_reserved);
            let step = message_after(start, events);
            &&& step is AcquirePermit ==> !permit_reserved && message_permits_taken(start, events)
                == 0
            &&& !(step is Finished) ==> message_permits_released(start, events) == 0
            &&& step is Finished ==> message_permits_released(start, events) == 1
        }),
    decreases events.len(),
{
    if events.len() > 0 {
        lemma_message_permits(permit_reserved, events.drop_last());
    }
}

/// A message that failed and may be tried again comes back: from the moment
/// that its waiting time is over it is found due, and the work on it then is
/// work on the same message, with the completed response if there was one,
/// under the next number.
pub proof fn failed_message_comes_back(
    job: MessageJob,
    err: JobError,
    entries: Map<Seq<char>, PendingRetryEntry>,
    failed_at: u128,
    backoff: Backoff,
    now: nat,
    due: Seq<DuePendingRetry>,
    autoclaim_min_idle_ms: nat,
)
    requires
        failed_at <= MAX_CLOCK_NANOS,
        retry_after(err) is Some,
        lists_due(due, job.remembered(entries, Err(err), failed_at, backoff), now),
    ensures
        now < failed_at + backoff.nanos() ==> forall|i: int|
            0 <= i < due.len() ==> (#[trigger] due[i]).message.stream_id@
                != job.message.stream_id@,
        now >= failed_at + backoff.nanos() ==> exists|i: int|
            0 <= i < due.len() && {
                let again = message_job(
                    (#[trigger] due[i]).message,
                    Some(
                        retried_source(
                            due[i].entry_source,
                            due[i].attempt,
                            autoclaim_min_idle_ms,
                            backoff,
                        ),
                    ),
                    Some(due[i].attempt),
                    due[i].pending_completion,
                );
                &&& again.message.stream_id@ == job.message.stream_id@
                &&& again.message.response_id == job.message.response_id
                &&& again.message.idle_ms == job.message.idle_ms
                &&& again.message.autoclaimed == job.message.autoclaimed
                &&& again.entry_source == retried_source(
                    job.entry_source,
                    job.next_attempt,
                    autoclaim_min_idle_ms,
                    backoff,
                )
                &&& again.next_attempt == following_attempt(Some(job.next_attempt))
                &&& Some(again.pending_completion) == retry_after(err)
            },
{
    let after = job.remembered(entries, Err(err), failed_at, backoff);
    let id = job.message.stream_id@;
    assert(after.contains_key(id));
    assert(after[id].retry_at == failed_at + backoff.nanos());
    if now >= failed_at + backoff.nanos() {
        assert(is_due(after, id, now));
        let i = choose|i: int| 0 <= i < due.len() && (#[trigger] due[i]).message.stream_id@ == id;
        assert(due[i].message.stream_id@ == id);
    } else {
        assert(!is_due(after, id, now));
    }
}

/// What is remembered once all of `due` has been taken.
pub open spec fn without_due(
    entries: Map<Seq<char>, PendingRetryEntry>,
    due: Seq<DuePendingRetry>,
) -> Map<Seq<char>, PendingRetryEntry>
    decreases due.len(),
{
    if due.len() == 0 {
        entries
    } else {
        without_due(entries.remove(due[0].message.stream_id@), due.skip(1))
    }
}

/// Taking messages forgets them and nothing else.
proof fn lemma_without_due(entries: Map<Seq<char>, PendingRetryEntry>, due: Seq<DuePendingRetry>)
    ensures
        forall|id: Seq<char>| #[trigger]
            without_due(entries, due).contains_key(id) <==> entries.contains_key(id) && forall|
                i: int,
            |
                0 <= i < due.len() ==> (#[trigger] due[i]).message.stream_id@ != id,
        forall|id: Seq<char>|
            without_due(entries, due).contains_key(id) ==> #[trigger] without_due(entries, due)[id]
                == entries[id],
    decreases due.len(),
{
    if due.len() > 0 {
        let rest = due.skip(1);
        let smaller = entries.remove(due[0].message.stream_id@);
        lemma_without_due(smaller, rest);
        assert(without_due(entries, due) == without_due(smaller, rest));
        assert forall|id: Seq<char>| #[trigger]
            without_due(entries, due).contains_key(id) <==> entries.contains_key(id) && forall|
                i: int,
            |
                0 <= i < due.len() ==> (#[trigger] due[i]).message.stream_id@ != id by {
            if without_due(entries, due).contains_key(id) {
                assert forall|i: int| 0 <= i < due.len() implies (
                #[trigger] due[i]).message.stream_id@ != id by {
                    if i > 0 {
                        assert(rest[i - 1] == due[i]);
                    }
                }
            }
            if entries.contains_key(id) && forall|i: int|
                0 <= i < due.len() ==> (#[trigger] due[i]).message.stream_id@ != id {
                assert(due[0].message.stream_id@ != id);
                assert(smaller.contains_key(id));
                assert forall|i: int| 0 <= i < rest.len() implies (
                #[trigger] rest[i]).message.stream_id@ != id by {
                    assert(rest[i] == due[i + 1]);
                }
            }
        }
    }
}

/// Once every message that was due has been taken, exactly those that were not
/// due are still remembered, unchanged.
pub proof fn taking_due_messages_keeps_the_others(
    entries: Map<Seq<char>, PendingRetryEntry>,
    due: Seq<DuePendingRetry>,
    now: nat,
)
    requires
        lists_due(due, entries, now),
    ensures
        forall|id: Seq<char>| #[trigger]
            without_due(entries, due).contains_key(id) <==> entries.contains_key(id) && !is_due(
                entries,
                id,
                now,
            ),
        forall|id: Seq<char>|
            without_due(entries, due).contains_key(id) ==> #[trigger] without_due(entries, due)[id]
                == entries[id],
{
    lemma_without_due(entries, due);
    assert forall|id: Seq<char>| #[trigger]
        without_due(entries, due).contains_key(id) <==> entries.contains_key(id) && !is_due(
            entries,
            id,
            now,
        ) by {
        if is_due(entries, id, now) {
            let i = choose|i: int|
                0 <= i < due.len() && (#[trigger] due[i]).message.stream_id@ == id;
            assert(due[i].message.stream_id@ == id);
        }
    }
}

/// The work on a message is work on that message, with the completed response
/// that waits for it and under the number after the last attempt. A source that
/// is given is kept. Without one, the message counts as taken over exactly if
/// it was, as delivered otherwise, and never as pending since before the start.
pub proof fn work_knows_where_its_message_came_from(
    message: QueueMessage,
    entry_source: Option<EntrySource>,
    retry_attempt: Option<u32>,
    pending_completion: Option<StoredResponse>,
)
    ensures
        ({
            let job = message_job(message, entry_source, retry_attempt, pending_completion);
            &&& job.message == message
            &&& job.pending_completion == pending_completion
            &&& entry_source is Some ==> job.entry_source == entry_source->0
            &&& entry_source is None ==> job.entry_source != EntrySource::StartupPending
            &&& entry_source is None ==> (job.entry_source == EntrySource::Autoclaimed
                <==> message.autoclaimed)
            &&& retry_attempt is None ==> job.next_attempt == 1
            &&& retry_attempt is Some && retry_attempt->0 < u32::MAX ==> job.next_attempt
                - retry_attempt->0 == 1
            &&& retry_attempt == Some(u32::MAX) ==> job.next_attempt == u32::MAX
        }),
{
}

/// Three failures are tried again, and no other. A completed response waits to
/// be stored exactly if it is the one that could not be.
pub proof fn three_failures_are_tried_again(err: JobError, completion: StoredResponse)
    ensures
        retry_after(err) is Some <==> err is RetryableMessage || err is RetryableAck || err
            is RetryableCompletion,
        retry_after(err) == Some(Some(completion)) <==> err == JobError::RetryableCompletion(
            completion,
        ),
        err is RetryableMessage || err is RetryableAck ==> retry_after(err) == Some(
            None::<StoredResponse>,
        ),
{
}

/// A failure in words of its own is told in them; the others each have theirs.
pub proof fn failures_are_told_in_words(err: JobError)
    ensures
        err is Other ==> job_error_text(err) == err->Other_0@,
        err is RetryableMessage ==> job_error_text(err)
            == "background queue message will be retried"@,
        err is RetryableAck ==> job_error_text(err)
            == "failed to acknowledge background queue message; will retry"@,
        err is RetryableCompletion ==> job_error_text(err)
            == "failed to store a completed response; will retry"@,
        err is AckFailed ==> job_error_text(err)
            == "failed to acknowledge background queue message"@,
{
}

/// The work is done exactly if it came to no failure. Of a failure it fails for
/// good exactly if that is none of the three that are tried again.
pub proof fn work_ends_as_its_failure_says(result: Result<(), JobError>)
    ensures
        job_end(result) == JobEnd::Done <==> result is Ok,
        job_end(result) == JobEnd::WillRetry <==> result is Err && (result->Err_0
            is RetryableMessage || result->Err_0 is RetryableAck || result->Err_0
            is RetryableCompletion),
        job_end(result) == JobEnd::Failed <==> result is Err && (result->Err_0 is AckFailed
            || result->Err_0 is Other),
{
}

/// After the work on a message, what is remembered of any other is what was.
/// Of the message itself it is as well, unless its failure is tried again: then
/// it is the message as it is, to be tried when the waiting time is over, under
/// the next number, from the same source, with the completed response that
/// could not be stored.
pub proof fn only_a_failed_message_is_remembered_anew(
    job: MessageJob,
    entries: Map<Seq<char>, PendingRetryEntry>,
    result: Result<(), JobError>,
    now: u128,
    backoff: Backoff,
    id: Seq<char>,
)
    requires
        now <= MAX_CLOCK_NANOS,
    ensures
        ({
            let after = job.remembered(entries, result, now, backoff);
            let again = result is Err && (result->Err_0 is RetryableMessage || result->Err_0
                is RetryableAck || result->Err_0 is RetryableCompletion);
            let entry = after[job.message.stream_id@];
            &&& !again ==> after == entries
            &&& id != job.message.stream_id@ ==> after.contains_key(id) == entries.contains_key(id)
                && after[id] == entries[id]
            &&& again ==> {
                &&& after.contains_key(job.message.stream_id@)
                &&& entry.response_id == job.message.response_id
                &&& entry.idle_ms == job.message.idle_ms
                &&& entry.autoclaimed == job.message.autoclaimed
                &&& entry.retry_at == now + backoff.nanos()
                &&& entry.entry_source == job.entry_source
                &&& entry.attempt == job.next_attempt
                &&& entry.pending_completion == if result->Err_0 is RetryableCompletion {
                    Some(result->Err_0->RetryableCompletion_0)
                } else {
                    None
                }
            }
        }),
{
}

/// A message is taken on by these turns alone: a permit that is answered lets
/// it go on or leaves it; with the permit, whether the worker has to stop
/// decides whether the work is done beside everything else; work that is over
/// makes the permit go back, and then the message is finished. Nothing else
/// moves it, and it is never asked for a permit twice.
pub proof fn message_moves_only_as_it_may(step: MessageStep, event: MessageEvent)
    ensures
        ({
            let next = message_next(step, event);
            &&& next is AcquirePermit ==> step is AcquirePermit
            &&& next is CheckShutdown && !(step is CheckShutdown) <==> step is AcquirePermit
                && event == MessageEvent::PermitAnswered(true)
            &&& next is Abandoned && !(step is Abandoned) <==> step is AcquirePermit && event
                == MessageEvent::PermitAnswered(false)
            &&& next is HandleInline && !(step is HandleInline) <==> step is CheckShutdown && event
                == MessageEvent::ShutdownRead(true)
            &&& next is Spawn && !(step is Spawn) <==> step is CheckShutdown && event
                == MessageEvent::ShutdownRead(false)
            &&& next is ReleasePermit && !(step is ReleasePermit) <==> (step is HandleInline || step
                is Spawn) && event is Handled
            &&& next is Finished && !(step is Finished) <==> step is ReleasePermit && event
                is Released
        }),
{
}

/// A message that has its permit goes straight on, any other waits for one.
pub proof fn reserved_permit_is_used(permit_reserved: bool)
    ensures
        message_start(permit_reserved) is CheckShutdown <==> permit_reserved,
        message_start(permit_reserved) is AcquirePermit <==> !permit_reserved,
{
}

/// The work begins with the completed response where one waits, and with the
/// upstream where none does, each for the response of this message. The
/// upstream's side is told of the message as it is.
pub proof fn work_begins_with_what_is_missing(
    config: QueueConfig,
    message: QueueMessage,
    entry_source: EntrySource,
    pending_completion: Option<StoredResponse>,
    event: HandleEvent,
)
    ensures
        ({
            let action = handle_action(config, message, entry_source, pending_completion, event);
            &&& action is PersistCompletion <==> event is Begin && pending_completion is Some
            &&& action is ProcessResponse <==> event is Begin && pending_completion is None
            &&& action is PersistCompletion ==> action->PersistCompletion_response_id
                == message.response_id && Some(action->completion) == pending_completion
            &&& action is ProcessResponse ==> action->ProcessResponse_response_id
                == message.response_id
            &&& action is ProcessResponse ==> action->context.message_idle_ms == message.idle_ms
            &&& action is ProcessResponse ==> action->context.autoclaim_min_idle_ms
                == config.autoclaim_min_idle_ms
            &&& action is ProcessResponse ==> action->context.entry_source == entry_source
            &&& action is Acknowledge ==> action->consumer_group == config.consumer_group
            &&& action is Acknowledge ==> action->stream_id == message.stream_id
        }),
{
}

/// A failure to get or to store a response ends the work with that very
/// failure; an upstream that is not finished ends it with a retry.
pub proof fn failures_are_handed_on_unchanged(
    config: QueueConfig,
    message: QueueMessage,
    entry_source: EntrySource,
    pending_completion: Option<StoredResponse>,
    err: JobError,
)
    ensures
        handle_action(
            config,
            message,
            entry_source,
            pending_completion,
            HandleEvent::Processed(Err(err)),
        ) == HandleAction::Finish(Err(err)),
        handle_action(
            config,
            message,
            entry_source,
            pending_completion,
            HandleEvent::Persisted(Err(err)),
        ) == HandleAction::Finish(Err(err)),
        handle_action(
            config,
            message,
            entry_source,
            pending_completion,
            HandleEvent::Processed(Ok(ProcessOutcome::Retry)),
        ) == HandleAction::Finish(Err(JobError::RetryableMessage(RetryableMessageError))),
{
}

/// A completed response that could not be stored is not lost: it waits under
/// the message, and the work on that message then begins with storing it.
pub proof fn completed_response_waits_to_be_stored(
    config: QueueConfig,
    job: MessageJob,
    completion: StoredResponse,
    event: HandleEvent,
    entries: Map<Seq<char>, PendingRetryEntry>,
    now: u128,
    backoff: Backoff,
    again: MessageJob,
)
    requires
        event == HandleEvent::Processed(Err(JobError::RetryableCompletion(completion))) || event
            == HandleEvent::Persisted(Err(JobError::RetryableCompletion(completion))),
        again.pending_completion == job.remembered(
            entries,
            handle_action(
                config,
                job.message,
                job.entry_source,
                job.pending_completion,
                event,
            )->Finish_0,
            now,
            backoff,
        )[job.message.stream_id@].pending_completion,
    ensures
        handle_action(
            config,
            again.message,
            again.entry_source,
            again.pending_completion,
            HandleEvent::Begin,
        ) == (HandleAction::PersistCompletion {
            response_id: again.message.response_id,
            completion,
        }),
{
}

} // verus!
