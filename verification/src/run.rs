//! The loops of the worker, one step at a time.
//!
//! Each loop is a machine: a step says what the worker has to do now, an event
//! says how that went, and a function gives the step that follows. An event
//! that no step waits for changes nothing.
use vstd::prelude::*;

use crate::claim::ClaimJobsResult;
use crate::config::QueueConfig;
use crate::job::{message_job, MessageJob};
use crate::message::{entry_source_for_message, message_source, EntrySource};
use crate::store::{StoreError, StoreRequest};

verus! {

/// How often the worker tries to make sure that its consumer group exists.
pub const ENSURE_CONSUMER_GROUP_ATTEMPTS: usize = 30;

/// The seconds between two of these attempts.
pub const ENSURE_CONSUMER_GROUP_RETRY_DELAY_SECONDS: u64 = 2;

/// The seconds that the worker waits after a claim that failed.
pub const STORE_ERROR_DELAY_SECONDS: u64 = 1;

/// What the worker asks the store for before it claims anything: that its
/// consumer group exists, and reads from the beginning.
pub fn ensure_group_request(config: &QueueConfig) -> (request: StoreRequest)
    ensures
        request matches StoreRequest::EnsureConsumerGroup { consumer_group, start_id }
            && consumer_group == config.consumer_group && start_id@ == "0"@,
{
    StoreRequest::EnsureConsumerGroup {
        consumer_group: config.consumer_group.clone(),
        start_id: "0".to_owned(),
    }
}

/// Why the worker has no consumer group: what its last attempt failed with.
#[derive(Debug, PartialEq, Eq)]
pub struct EnsureGroupError {
    pub cause: StoreError,
}

impl EnsureGroupError {
    /// What happened, in words.
    pub fn message(&self) -> (text: String)
        ensures
            text@ == "failed to ensure background queue consumer group"@,
    {
        "failed to ensure background queue consumer group".to_owned()
    }
}

/// What the worker does to make sure that its consumer group exists.
#[derive(Debug, PartialEq, Eq)]
pub enum EnsureStep {
    /// Ask the store, for the `attempt`th time.
    Call { attempt: usize },
    /// Wait before the next attempt.
    Wait { attempt: usize },
    /// The group exists.
    Ready,
    /// The last attempt failed.
    GaveUp(EnsureGroupError),
}

/// What the worker learns while it makes sure that its consumer group exists.
#[derive(Debug, PartialEq, Eq)]
pub enum EnsureEvent {
    /// The store was asked: whether it made the group, or its failure.
    Answered(Result<bool, StoreError>),
    /// The wait is over.
    Waited,
}

/// The first step: the first attempt.
pub open spec fn ensure_start() -> EnsureStep {
    EnsureStep::Call { attempt: 1 }
}

/// The step after `event`: an attempt that failed is followed by a wait and
/// the next one, but the last. It does not matter whether the group is new.
pub open spec fn ensure_next(step: EnsureStep, event: EnsureEvent) -> EnsureStep {
    match (step, event) {
        (EnsureStep::Call { attempt }, EnsureEvent::Answered(answer)) => match answer {
            Ok(_) => EnsureStep::Ready,
            Err(cause) => if attempt < ENSURE_CONSUMER_GROUP_ATTEMPTS {
                EnsureStep::Wait { attempt }
            } else {
                EnsureStep::GaveUp(EnsureGroupError { cause })
            },
        },
        (EnsureStep::Wait { attempt }, EnsureEvent::Waited) => if attempt < usize::MAX {
            EnsureStep::Call { attempt: (attempt + 1) as usize }
        } else {
            EnsureStep::Call { attempt }
        },
        _ => step,
    }
}

/// The first step towards a consumer group.
pub fn ensure_background_consumer_group_start() -> (step: EnsureStep)
    ensures
        step == ensure_start(),
{
    EnsureStep::Call { attempt: 1 }
}

/// The next step towards a consumer group.
pub fn ensure_background_consumer_group(step: EnsureStep, event: EnsureEvent) -> (next: EnsureStep)
    ensures
        next == ensure_next(step, event),
{
    match (step, event) {
        (EnsureStep::Call { .. }, EnsureEvent::Answered(Ok(_))) => EnsureStep::Ready,
        (EnsureStep::Call { attempt }, EnsureEvent::Answered(Err(cause))) => {
            if attempt < ENSURE_CONSUMER_GROUP_ATTEMPTS {
                EnsureStep::Wait { attempt }
            } else {
                EnsureStep::GaveUp(EnsureGroupError { cause })
            }
        },
        (EnsureStep::Wait { attempt }, EnsureEvent::Waited) => EnsureStep::Call {
            attempt: attempt.saturating_add(1),
        },
        (step, _) => step,
    }
}

/// The step after the store gave these answers, each of them followed by a wait
/// where there is one.
pub open spec fn ensure_after_answers(answers: Seq<Result<bool, StoreError>>) -> EnsureStep
    decreases answers.len(),
{
    if answers.len() == 0 {
        ensure_start()
    } else {
        ensure_next(
            ensure_next(
                ensure_after_answers(answers.drop_last()),
                EnsureEvent::Answered(answers.last()),
            ),
            EnsureEvent::Waited,
        )
    }
}

/// How often the store was asked until it had given these answers.
pub open spec fn ensure_calls(answers: Seq<Result<bool, StoreError>>) -> nat
    decreases answers.len(),
{
    if answers.len() == 0 {
        0
    } else {
        ensure_calls(answers.drop_last()) + if ensure_after_answers(answers.drop_last()) is Call {
            1nat
        } else {
            0nat
        }
    }
}

/// As long as the store fails, the worker asks it again, up to the number of
/// attempts it is allowed. Then it gives up, with the failure of the last
/// attempt.
pub proof fn ensure_gives_up_after_all_attempts(answers: Seq<Result<bool, StoreError>>)
    requires
        forall|i: int|
            0 <= i < answers.len() && i < ENSURE_CONSUMER_GROUP_ATTEMPTS ==> (
            #[trigger] answers[i]) is Err,
    ensures
        answers.len() < ENSURE_CONSUMER_GROUP_ATTEMPTS ==> {
            &&& ensure_after_answers(answers) == (EnsureStep::Call {
                attempt: (answers.len() + 1) as usize,
            })
            &&& ensure_calls(answers) == answers.len()
        },
        answers.len() >= ENSURE_CONSUMER_GROUP_ATTEMPTS ==> {
            &&& ensure_after_answers(answers) == EnsureStep::GaveUp(
                EnsureGroupError { cause: answers[ENSURE_CONSUMER_GROUP_ATTEMPTS - 1]->Err_0 },
            )
            &&& ensure_calls(answers) == ENSURE_CONSUMER_GROUP_ATTEMPTS
        },
    decreases answers.len(),
{
    if answers.len() > 0 {
        let earlier = answers.drop_last();
        assert forall|i: int|
            0 <= i < earlier.len() && i < ENSURE_CONSUMER_GROUP_ATTEMPTS implies (
        #[trigger] earlier[i]) is Err by {
            assert(earlier[i] == answers[i]);
        }
        ensure_gives_up_after_all_attempts(earlier);
        assert(answers.last() == answers[answers.len() - 1]);
    }
}

/// The first answer that is no failure ends the search: the group is there
/// after exactly the attempts up to that one, whether it is new or not.
pub proof fn ensure_ends_with_the_first_answer(answers: Seq<Result<bool, StoreError>>, first: nat)
    requires
        first < answers.len(),
        first < ENSURE_CONSUMER_GROUP_ATTEMPTS,
        answers[first as int] is Ok,
        forall|i: int| 0 <= i < first ==> (#[trigger] answers[i]) is Err,
    ensures
        ensure_after_answers(answers) == EnsureStep::Ready,
        ensure_calls(answers) == first + 1,
    decreases answers.len(),
{
    let earlier = answers.drop_last();
    if answers.len() == first + 1 {
        ensure_gives_up_after_all_attempts(earlier);
    } else {
        ensure_ends_with_the_first_answer(earlier, first);
    }
}

/// Where the worker stands in its wait for a permit to run a job.
#[derive(Clone, Copy, Debug, PartialEq, Eq, Structural)]
pub enum AcquireStep {
    /// Look whether the worker has to stop.
    CheckShutdown,
    /// Wait for a change of the stop signal or, if there is none, a permit.
    WaitForChangeOrPermit,
    /// The signal changed: look whether the worker has to stop.
    ConfirmChange,
    /// There is a permit: look whether the worker has to stop.
    ConfirmPermit,
    /// Wait for a permit.
    WaitForPermit,
    /// The permit is the worker's.
    Granted,
    /// There is no permit; one that was taken is given back.
    Refused,
}

/// What the worker learns while it waits for a permit.
#[derive(Clone, Copy, Debug, PartialEq, Eq, Structural)]
pub enum AcquireEvent {
    /// The worker has looked whether it has to stop.
    ShutdownRead(bool),
    /// The stop signal changed, or the sender of it is gone.
    ShutdownChanged { sender_gone: bool },
    /// The wait for a permit is over: whether there is one.
    PermitAnswered(bool),
}

/// The first step of the wait for a permit.
pub open spec fn acquire_start(stop_on_shutdown: bool) -> AcquireStep {
    if stop_on_shutdown {
        AcquireStep::CheckShutdown
    } else {
        AcquireStep::WaitForPermit
    }
}

/// The step after `event`.
pub open spec fn acquire_next(step: AcquireStep, event: AcquireEvent) -> AcquireStep {
    match (step, event) {
        (AcquireStep::CheckShutdown, AcquireEvent::ShutdownRead(shutdown)) => if shutdown {
            AcquireStep::Refused
        } else {
            AcquireStep::WaitForChangeOrPermit
        },
        (
            AcquireStep::WaitForChangeOrPermit,
            AcquireEvent::ShutdownChanged { sender_gone },
        ) => if sender_gone {
            AcquireStep::Refused
        } else {
            AcquireStep::ConfirmChange
        },
        (AcquireStep::WaitForChangeOrPermit, AcquireEvent::PermitAnswered(granted)) => if granted {
            AcquireStep::ConfirmPermit
        } else {
            AcquireStep::Refused
        },
        (AcquireStep::ConfirmChange, AcquireEvent::ShutdownRead(shutdown)) => if shutdown {
            AcquireStep::Refused
        } else {
            AcquireStep::CheckShutdown
        },
        (AcquireStep::ConfirmPermit, AcquireEvent::ShutdownRead(shutdown)) => if shutdown {
            AcquireStep::Refused
        } else {
            AcquireStep::Granted
        },
        (AcquireStep::WaitForPermit, AcquireEvent::PermitAnswered(granted)) => if granted {
            AcquireStep::Granted
        } else {
            AcquireStep::Refused
        },
        _ => step,
    }
}

/// The first step of the wait for a permit.
pub fn acquire_job_permit_start(stop_on_shutdown: bool) -> (step: AcquireStep)
    ensures
        step == acquire_start(stop_on_shutdown),
{
    if stop_on_shutdown {
        AcquireStep::CheckShutdown
    } else {
        AcquireStep::WaitForPermit
    }
}

/// The next step of the wait for a permit.
pub fn acquire_job_permit(step: AcquireStep, event: AcquireEvent) -> (next: AcquireStep)
    ensures
        next == acquire_next(step, event),
{
    match (step, event) {
        (AcquireStep::CheckShutdown, AcquireEvent::ShutdownRead(true)) => AcquireStep::Refused,
        (AcquireStep::CheckShutdown, AcquireEvent::ShutdownRead(false)) =>
            AcquireStep::WaitForChangeOrPermit,
        (
            AcquireStep::WaitForChangeOrPermit,
            AcquireEvent::ShutdownChanged { sender_gone: true },
        ) => AcquireStep::Refused,
        (
            AcquireStep::WaitForChangeOrPermit,
            AcquireEvent::ShutdownChanged { sender_gone: false },
        ) => AcquireStep::ConfirmChange,
        (AcquireStep::WaitForChangeOrPermit, AcquireEvent::PermitAnswered(true)) =>
            AcquireStep::ConfirmPermit,
        (AcquireStep::WaitForChangeOrPermit, AcquireEvent::PermitAnswered(false)) =>
            AcquireStep::Refused,
        (AcquireStep::ConfirmChange, AcquireEvent::ShutdownRead(true)) => AcquireStep::Refused,
        (AcquireStep::ConfirmChange, AcquireEvent::ShutdownRead(false)) =>
            AcquireStep::CheckShutdown,
        (AcquireStep::ConfirmPermit, AcquireEvent::ShutdownRead(true)) => AcquireStep::Refused,
        (AcquireStep::ConfirmPermit, AcquireEvent::ShutdownRead(false)) => AcquireStep::Granted,
        (AcquireStep::WaitForPermit, AcquireEvent::PermitAnswered(true)) => AcquireStep::Granted,
        (AcquireStep::WaitForPermit, AcquireEvent::PermitAnswered(false)) => AcquireStep::Refused,
        _ => step,
    }
}

/// The step after a number of events.
pub open spec fn acquire_after(step: AcquireStep, events: Seq<AcquireEvent>) -> AcquireStep
    decreases events.len(),
{
    if events.len() == 0 {
        step
    } else {
        acquire_next(acquire_after(step, events.drop_last()), events.last())
    }
}

/// Whether the worker has to look for the stop signal now.
pub open spec fn acquire_reads_shutdown(step: AcquireStep) -> bool {
    step is CheckShutdown || step is ConfirmChange || step is ConfirmPermit
}

/// A wait that heeds the stop signal gets its permit only after the worker has
/// looked, with the permit at hand, and does not have to stop; the sight of
/// the stop signal always ends it without one.
pub proof fn stopping_worker_gets_no_permit(events: Seq<AcquireEvent>, event: AcquireEvent)
    ensures
        ({
            let step = acquire_after(acquire_start(true), events);
            let next = acquire_next(step, event);
            &&& !(step is WaitForPermit)
            &&& next is Granted && !(step is Granted) ==> step is ConfirmPermit && event
                == AcquireEvent::ShutdownRead(false)
            &&& acquire_reads_shutdown(step) && event == AcquireEvent::ShutdownRead(true)
                ==> next is Refused
        }),
    decreases events.len(),
{
    if events.len() > 0 {
        stopping_worker_gets_no_permit(events.drop_last(), events.last());
    }
}

/// A wait that is over stays over.
pub proof fn permit_answer_is_final(step: AcquireStep, event: AcquireEvent)
    requires
        step is Granted || step is Refused,
    ensures
        acquire_next(step, event) == step,
{
}

/// What the worker does with the messages that were left pending when it
/// starts.
#[derive(Debug, PartialEq, Eq)]
pub enum StartupStep {
    /// Look whether the worker has to stop.
    CheckShutdown,
    /// Claim a job without waiting for one.
    Claim,
    /// Remember the jobs that were not ready.
    ScheduleHydration { claimed: ClaimJobsResult },
    /// Work on a message.
    ProcessMessage { job: MessageJob },
    /// Wait a moment after a claim that failed.
    WaitAfterError,
    /// Nothing is left to do.
    Finished,
}

/// What the worker learns while it does that.
#[derive(Debug, PartialEq, Eq)]
pub enum StartupEvent {
    /// The worker has looked whether it has to stop.
    ShutdownRead(bool),
    /// The claim gave this.
    Claimed(ClaimJobsResult),
    /// The claim failed.
    ClaimFailed,
    /// What the step asks for is done.
    Completed,
}

/// The first step with the messages that were left pending.
pub open spec fn startup_start() -> StartupStep {
    StartupStep::CheckShutdown
}

/// The step after `event`.
///
/// As long as messages are taken over, there may be more of them. The first
/// one that is not, an empty claim and a failed one end the search.
pub open spec fn startup_next(step: StartupStep, event: StartupEvent) -> StartupStep {
    match (step, event) {
        (StartupStep::CheckShutdown, StartupEvent::ShutdownRead(shutdown)) => if shutdown {
            StartupStep::Finished
        } else {
            StartupStep::Claim
        },
        (StartupStep::Claim, StartupEvent::Claimed(claimed)) => StartupStep::ScheduleHydration {
            claimed,
        },
        (StartupStep::Claim, StartupEvent::ClaimFailed) => StartupStep::WaitAfterError,
        (
            StartupStep::ScheduleHydration { claimed },
            StartupEvent::Completed,
        ) => match claimed.job {
            Some(message) => StartupStep::ProcessMessage {
                job: message_job(
                    message,
                    Some(message_source(message.autoclaimed, message.autoclaimed)),
                    None,
                    None,
                ),
            },
            None => StartupStep::Finished,
        },
        (
            StartupStep::ProcessMessage { job },
            StartupEvent::Completed,
        ) => if job.message.autoclaimed {
            StartupStep::CheckShutdown
        } else {
            StartupStep::Finished
        },
        (StartupStep::WaitAfterError, StartupEvent::Completed) => StartupStep::Finished,
        _ => step,
    }
}

/// The first step with the messages that were left pending.
pub fn drain_pending_at_startup_start() -> (step: StartupStep)
    ensures
        step == startup_start(),
{
    StartupStep::CheckShutdown
}

/// The next step with the messages that were left pending.
pub fn drain_pending_at_startup(step: StartupStep, event: StartupEvent) -> (next: StartupStep)
    ensures
        next == startup_next(step, event),
{
    match (step, event) {
        (StartupStep::CheckShutdown, StartupEvent::ShutdownRead(shutdown)) => {
            if shutdown {
                StartupStep::Finished
            } else {
                StartupStep::Claim
            }
        },
        (StartupStep::Claim, StartupEvent::Claimed(claimed)) => StartupStep::ScheduleHydration {
            claimed,
        },
        (StartupStep::Claim, StartupEvent::ClaimFailed) => StartupStep::WaitAfterError,
        (StartupStep::ScheduleHydration { claimed }, StartupEvent::Completed) => {
            match claimed.job {
                Some(message) => {
                    let entry_source = entry_source_for_message(&message, message.autoclaimed);
                    StartupStep::ProcessMessage {
                        job: MessageJob::new(message, Some(entry_source), None, None),
                    }
                },
                None => StartupStep::Finished,
            }
        },
        (StartupStep::ProcessMessage { job }, StartupEvent::Completed) => {
            if job.message.autoclaimed {
                StartupStep::CheckShutdown
            } else {
                StartupStep::Finished
            }
        },
        (StartupStep::WaitAfterError, StartupEvent::Completed) => StartupStep::Finished,
        (step, _) => step,
    }
}

/// A message that was taken over at the start counts as pending since before,
/// any other as delivered.
pub proof fn startup_message_sources(claimed: ClaimJobsResult)
    requires
        claimed.job is Some,
    ensures
        ({
            let next = startup_next(
                StartupStep::ScheduleHydration { claimed },
                StartupEvent::Completed,
            );
            &&& next is ProcessMessage
            &&& next->job.message == claimed.job->0
            &&& next->job.next_attempt == 1
            &&& next->job.entry_source == if claimed.job->0.autoclaimed {
                EntrySource::StartupPending
            } else {
                EntrySource::Live
            }
        }),
{
}

/// The search for pending messages goes on only after one that was taken over,
/// ends at once when the worker has to stop, and does not begin again.
pub proof fn startup_search_ends(step: StartupStep, event: StartupEvent)
    ensures
        startup_next(step, event) is CheckShutdown && !(step is CheckShutdown) ==> step
            is ProcessMessage && step->job.message.autoclaimed && event is Completed,
        startup_next(step, event) is Claim && !(step is Claim) ==> step is CheckShutdown && event
            == StartupEvent::ShutdownRead(false),
        step is CheckShutdown && event == StartupEvent::ShutdownRead(true) ==> startup_next(
            step,
            event,
        ) is Finished,
        step is Finished ==> startup_next(step, event) is Finished,
{
}

/// What the worker does, from its start to its end.
#[derive(Debug, PartialEq, Eq)]
pub enum RunStep {
    /// Read the configuration.
    LoadConfig,
    /// Listen for the signal to stop.
    SpawnShutdownListener,
    /// Set up the connection to the store.
    ConnectStore,
    /// Make sure that the consumer group exists.
    EnsureConsumerGroup,
    /// Tell how long the worker should be given to stop.
    LogGracePeriod,
    /// Set up the connection to the upstream.
    BuildUpstreamClient,
    /// Work on the messages that were left pending.
    DrainPendingAtStartup,
    /// The loop begins anew: look whether the worker has to stop.
    CheckShutdownAtTop,
    /// Look after the jobs that have ended.
    ReapCompletedJobs,
    /// Look whether the worker has to stop before it tries anything again.
    CheckShutdownBeforeRetries,
    /// Work on the messages whose waiting time is over.
    ProcessDueRetries,
    /// Look whether the worker has to stop before it takes a permit.
    CheckShutdownAfterRetries,
    /// Wait for a permit to run a job.
    AcquirePermit,
    /// With a permit: look whether the worker has to stop.
    CheckShutdownWithPermit,
    /// With a permit: claim a job and wait for it.
    ClaimJobs,
    /// With a permit: remember the jobs that were not ready.
    ScheduleHydration { claimed: ClaimJobsResult },
    /// Work on a message; the permit goes with it.
    ProcessMessage { job: MessageJob },
    /// Give back the permit, as there is no job.
    ReleasePermit,
    /// Give back the permit, as the claim failed.
    ReleasePermitAfterError,
    /// Wait a moment after a claim that failed.
    WaitAfterError,
    /// Give back the permit, as the worker has to stop.
    ReleasePermitAndStop,
    /// Give out no more permits and wait for the jobs that still run.
    CloseAndDrain,
    /// The worker has stopped.
    Stopped,
    /// The worker could not start; the last failure is the result.
    StartFailed,
}

/// What the worker learns on its way.
#[derive(Debug, PartialEq, Eq)]
pub enum RunEvent {
    /// What the step asks for is done.
    Completed,
    /// What the step asks for failed.
    Failed,
    /// The worker has looked whether it has to stop.
    ShutdownRead(bool),
    /// The wait for a permit is over: whether there is one.
    PermitAnswered(bool),
    /// The claim gave this.
    Claimed(ClaimJobsResult),
}

/// The first step of the worker.
pub open spec fn worker_start() -> RunStep {
    RunStep::LoadConfig
}

/// The step after `event` while the worker starts.
pub open spec fn run_start_next(step: RunStep, event: RunEvent) -> RunStep {
    match (step, event) {
        (RunStep::LoadConfig, RunEvent::Completed) => RunStep::SpawnShutdownListener,
        (RunStep::SpawnShutdownListener, RunEvent::Completed) => RunStep::ConnectStore,
        (RunStep::ConnectStore, RunEvent::Completed) => RunStep::EnsureConsumerGroup,
        (RunStep::EnsureConsumerGroup, RunEvent::Completed) => RunStep::LogGracePeriod,
        (RunStep::LogGracePeriod, RunEvent::Completed) => RunStep::BuildUpstreamClient,
        (RunStep::BuildUpstreamClient, RunEvent::Completed) => RunStep::DrainPendingAtStartup,
        (RunStep::DrainPendingAtStartup, RunEvent::Completed) => RunStep::CheckShutdownAtTop,
        (RunStep::LoadConfig, RunEvent::Failed)
        | (RunStep::ConnectStore, RunEvent::Failed)
        | (RunStep::EnsureConsumerGroup, RunEvent::Failed)
        | (RunStep::BuildUpstreamClient, RunEvent::Failed) => RunStep::StartFailed,
        _ => step,
    }
}

/// The step after `event` while the worker runs and stops.
pub open spec fn run_loop_next(step: RunStep, event: RunEvent) -> RunStep {
    match (step, event) {
        (RunStep::CheckShutdownAtTop, RunEvent::ShutdownRead(shutdown)) => if shutdown {
            RunStep::CloseAndDrain
        } else {
            RunStep::ReapCompletedJobs
        },
        (RunStep::ReapCompletedJobs, RunEvent::Completed) => RunStep::CheckShutdownBeforeRetries,
        (RunStep::CheckShutdownBeforeRetries, RunEvent::ShutdownRead(shutdown)) => if shutdown {
            RunStep::CheckShutdownAfterRetries
        } else {
            RunStep::ProcessDueRetries
        },
        (RunStep::ProcessDueRetries, RunEvent::Completed) => RunStep::CheckShutdownAfterRetries,
        (RunStep::CheckShutdownAfterRetries, RunEvent::ShutdownRead(shutdown)) => if shutdown {
            RunStep::CloseAndDrain
        } else {
            RunStep::AcquirePermit
        },
        (RunStep::AcquirePermit, RunEvent::PermitAnswered(granted)) => if granted {
            RunStep::CheckShutdownWithPermit
        } else {
            RunStep::CloseAndDrain
        },
        (RunStep::CheckShutdownWithPermit, RunEvent::ShutdownRead(shutdown)) => if shutdown {
            RunStep::ReleasePermitAndStop
        } else {
            RunStep::ClaimJobs
        },
        (RunStep::ClaimJobs, RunEvent::Claimed(claimed)) => RunStep::ScheduleHydration { claimed },
        (RunStep::ClaimJobs, RunEvent::Failed) => RunStep::ReleasePermitAfterError,
        (RunStep::ScheduleHydration { claimed }, RunEvent::Completed) => match claimed.job {
            Some(message) => RunStep::ProcessMessage { job: message_job(message, None, None, None) },
            None => RunStep::ReleasePermit,
        },
        (RunStep::ProcessMessage { .. }, RunEvent::Completed) => RunStep::CheckShutdownAtTop,
        (RunStep::ReleasePermit, RunEvent::Completed) => RunStep::CheckShutdownAtTop,
        (RunStep::ReleasePermitAfterError, RunEvent::Completed) => RunStep::WaitAfterError,
        (RunStep::WaitAfterError, RunEvent::Completed) => RunStep::CheckShutdownAtTop,
        (RunStep::ReleasePermitAndStop, RunEvent::Completed) => RunStep::CloseAndDrain,
        (RunStep::CloseAndDrain, RunEvent::Completed) => RunStep::Stopped,
        _ => step,
    }
}

/// Whether the worker is still starting.
pub open spec fn is_starting(step: RunStep) -> bool {
    step is LoadConfig || step is SpawnShutdownListener || step is ConnectStore
        || step is EnsureConsumerGroup || step is LogGracePeriod || step is BuildUpstreamClient
        || step is DrainPendingAtStartup
}

/// The step after `event`.
pub open spec fn run_next(step: RunStep, event: RunEvent) -> RunStep {
    if is_starting(step) {
        run_start_next(step, event)
    } else {
        run_loop_next(step, event)
    }
}

/// The first step of the worker.
pub fn run_start() -> (step: RunStep)
    ensures
        step == worker_start(),
{
    RunStep::LoadConfig
}

/// The next step of the worker.
pub fn run(step: RunStep, event: RunEvent) -> (next: RunStep)
    ensures
        next == run_next(step, event),
{
    match (step, event) {
        (RunStep::LoadConfig, RunEvent::Completed) => RunStep::SpawnShutdownListener,
        (RunStep::SpawnShutdownListener, RunEvent::Completed) => RunStep::ConnectStore,
        (RunStep::ConnectStore, RunEvent::Completed) => RunStep::EnsureConsumerGroup,
        (RunStep::EnsureConsumerGroup, RunEvent::Completed) => RunStep::LogGracePeriod,
        (RunStep::LogGracePeriod, RunEvent::Completed) => RunStep::BuildUpstreamClient,
        (RunStep::BuildUpstreamClient, RunEvent::Completed) => RunStep::DrainPendingAtStartup,
        (RunStep::DrainPendingAtStartup, RunEvent::Completed) => RunStep::CheckShutdownAtTop,
        (RunStep::LoadConfig, RunEvent::Failed) => RunStep::StartFailed,
        (RunStep::ConnectStore, RunEvent::Failed) => RunStep::StartFailed,
        (RunStep::EnsureConsumerGroup, RunEvent::Failed) => RunStep::StartFailed,
        (RunStep::BuildUpstreamClient, RunEvent::Failed) => RunStep::StartFailed,
        (RunStep::CheckShutdownAtTop, RunEvent::ShutdownRead(true)) => RunStep::CloseAndDrain,
        (RunStep::CheckShutdownAtTop, RunEvent::ShutdownRead(false)) => RunStep::ReapCompletedJobs,
        (RunStep::ReapCompletedJobs, RunEvent::Completed) => RunStep::CheckShutdownBeforeRetries,
        (RunStep::CheckShutdownBeforeRetries, RunEvent::ShutdownRead(true)) =>
            RunStep::CheckShutdownAfterRetries,
        (RunStep::CheckShutdownBeforeRetries, RunEvent::ShutdownRead(false)) =>
            RunStep::ProcessDueRetries,
        (RunStep::ProcessDueRetries, RunEvent::Completed) => RunStep::CheckShutdownAfterRetries,
        (RunStep::CheckShutdownAfterRetries, RunEvent::ShutdownRead(true)) =>
            RunStep::CloseAndDrain,
        (RunStep::CheckShutdownAfterRetries, RunEvent::ShutdownRead(false)) =>
            RunStep::AcquirePermit,
        (RunStep::AcquirePermit, RunEvent::PermitAnswered(true)) =>
            RunStep::CheckShutdownWithPermit,
        (RunStep::AcquirePermit, RunEvent::PermitAnswered(false)) => RunStep::CloseAndDrain,
        (RunStep::CheckShutdownWithPermit, RunEvent::ShutdownRead(true)) =>
            RunStep::ReleasePermitAndStop,
        (RunStep::CheckShutdownWithPermit, RunEvent::ShutdownRead(false)) => RunStep::ClaimJobs,
        (RunStep::ClaimJobs, RunEvent::Claimed(claimed)) => RunStep::ScheduleHydration { claimed },
        (RunStep::ClaimJobs, RunEvent::Failed) => RunStep::ReleasePermitAfterError,
        (RunStep::ScheduleHydration { claimed }, RunEvent::Completed) => {
            match claimed.job {
                Some(message) => RunStep::ProcessMessage {
                    job: MessageJob::new(message, None, None, None),
                },
                None => RunStep::ReleasePermit,
            }
        },
        (RunStep::ProcessMessage { .. }, RunEvent::Completed) => RunStep::CheckShutdownAtTop,
        (RunStep::ReleasePermit, RunEvent::Completed) => RunStep::CheckShutdownAtTop,
        (RunStep::ReleasePermitAfterError, RunEvent::Completed) => RunStep::WaitAfterError,
        (RunStep::WaitAfterError, RunEvent::Completed) => RunStep::CheckShutdownAtTop,
        (RunStep::ReleasePermitAndStop, RunEvent::Completed) => RunStep::CloseAndDrain,
        (RunStep::CloseAndDrain, RunEvent::Completed) => RunStep::Stopped,
        (step, _) => step,
    }
}

/// The step after a number of events.
pub open spec fn run_after(step: RunStep, events: Seq<RunEvent>) -> RunStep
    decreases events.len(),
{
    if events.len() == 0 {
        step
    } else {
        run_next(run_after(step, events.drop_last()), events.last())
    }
}

/// How often the worker has told that it has started.
pub open spec fn startup_lines(step: RunStep, events: Seq<RunEvent>) -> nat
    decreases events.len(),
{
    if events.len() == 0 {
        0
    } else {
        startup_lines(step, events.drop_last()) + if run_after(step, events.drop_last())
            is LogGracePeriod && events.last() is Completed {
            1nat
        } else {
            0nat
        }
    }
}

/// Whether the worker's consumer group was made sure of.
pub open spec fn group_is_ensured(step: RunStep, events: Seq<RunEvent>) -> bool
    decreases events.len(),
{
    events.len() > 0 && (group_is_ensured(step, events.drop_last()) || run_after(
        step,
        events.drop_last(),
    ) is EnsureConsumerGroup && events.last() is Completed)
}

/// The worker tells that it has started at most once, after it has made sure of
/// its consumer group; it has done so before it looks for messages that were
/// left pending, and so before it claims anything.
pub proof fn worker_tells_once_that_it_has_started(events: Seq<RunEvent>)
    ensures
        ({
            let step = run_after(worker_start(), events);
            let told = startup_lines(worker_start(), events);
            &&& told <= 1
            &&& step is LogGracePeriod ==> told == 0
            &&& step is LogGracePeriod || told == 1 ==> group_is_ensured(worker_start(), events)
            &&& step is BuildUpstreamClient || step is DrainPendingAtStartup ==> told == 1
            &&& step is ClaimJobs ==> told == 1
            &&& !is_starting(step) && !(step is StartFailed) ==> told == 1
            &&& step is LoadConfig || step is SpawnShutdownListener || step is ConnectStore || step
                is EnsureConsumerGroup ==> told == 0
        }),
    decreases events.len(),
{
    if events.len() > 0 {
        worker_tells_once_that_it_has_started(events.drop_last());
    }
}

/// Whether the worker has to look for the stop signal now.
pub open spec fn run_reads_shutdown(step: RunStep) -> bool {
    step is CheckShutdownAtTop || step is CheckShutdownBeforeRetries
        || step is CheckShutdownAfterRetries || step is CheckShutdownWithPermit
}

/// Whether all that is left is to stop: nothing more is claimed, tried again
/// or begun.
pub open spec fn is_winding_down(step: RunStep) -> bool {
    step is CheckShutdownAfterRetries || step is ReleasePermitAndStop || step is CloseAndDrain
        || step is Stopped
}

/// Once the worker has seen the signal to stop, which stays, it claims no job,
/// tries no message again and begins no work: it gives its permit back and
/// waits for the jobs that still run.
pub proof fn nothing_begins_after_shutdown(step: RunStep, events: Seq<RunEvent>)
    requires
        run_reads_shutdown(step),
        events.len() > 0,
        events[0] == RunEvent::ShutdownRead(true),
        forall|i: int|
            0 <= i < events.len() && (#[trigger] events[i]) is ShutdownRead ==> events[i]
                == RunEvent::ShutdownRead(true),
    ensures
        is_winding_down(run_after(step, events)),
    decreases events.len(),
{
    if events.len() == 1 {
        assert(events.drop_last().len() == 0);
        assert(run_after(step, events.drop_last()) == step);
    } else {
        let earlier = events.drop_last();
        assert(earlier[0] == events[0]);
        assert forall|i: int|
            0 <= i < earlier.len() && (
            #[trigger] earlier[i]) is ShutdownRead implies earlier[i] == RunEvent::ShutdownRead(
            true,
        ) by {
            assert(earlier[i] == events[i]);
        }
        nothing_begins_after_shutdown(step, earlier);
        assert(events.last() == events[events.len() - 1]);
    }
}

/// What tells a worker that only has to stop that its step is done.
pub open spec fn winding_down_event(step: RunStep) -> RunEvent {
    if step is CheckShutdownAfterRetries {
        RunEvent::ShutdownRead(true)
    } else {
        RunEvent::Completed
    }
}

/// Once all that is left is to stop, the worker has stopped after two steps at
/// most, the last of which waits for the jobs that still run.
pub proof fn winding_down_ends(step: RunStep)
    requires
        is_winding_down(step),
    ensures
        ({
            let second = run_next(step, winding_down_event(step));
            let third = run_next(second, winding_down_event(second));
            &&& third is Stopped
            &&& step is Stopped || step is CloseAndDrain || second is CloseAndDrain
        }),
{
}

/// The worker stops only after it has waited for the jobs that still run, and
/// it fails only while it starts.
pub proof fn worker_ends_after_its_jobs(step: RunStep, event: RunEvent)
    ensures
        run_next(step, event) is Stopped && !(step is Stopped) ==> step is CloseAndDrain,
        run_next(step, event) is StartFailed && !(step is StartFailed) ==> is_starting(step)
            && event is Failed,
{
}

/// Whether the main loop has a permit in its hands. When it works on a message,
/// the permit is that message's.
pub open spec fn holds_permit(step: RunStep) -> bool {
    step is CheckShutdownWithPermit || step is ClaimJobs || step is ScheduleHydration
        || step is ReleasePermit || step is ReleasePermitAfterError
        || step is ReleasePermitAndStop
}

/// One where the event gives the main loop a permit.
pub open spec fn permit_taken(step: RunStep, event: RunEvent) -> nat {
    if step is AcquirePermit && event == RunEvent::PermitAnswered(true) {
        1
    } else {
        0
    }
}

/// One where the event ends a step that gives a permit back.
pub open spec fn permit_released(step: RunStep, event: RunEvent) -> nat {
    if event is Completed && (step is ReleasePermit || step is ReleasePermitAfterError
        || step is ReleasePermitAndStop) {
        1
    } else {
        0
    }
}

/// One where the event makes the main loop hand its permit to a message.
pub open spec fn permit_handed_on(step: RunStep, event: RunEvent) -> nat {
    if step is ScheduleHydration && run_next(step, event) is ProcessMessage {
        1
    } else {
        0
    }
}

/// One where the main loop has a permit in its hands.
pub open spec fn permits_held(step: RunStep) -> nat {
    if holds_permit(step) {
        1
    } else {
        0
    }
}

/// How many permits the main loop was given.
pub open spec fn permits_taken(step: RunStep, events: Seq<RunEvent>) -> nat
    decreases events.len(),
{
    if events.len() == 0 {
        0
    } else {
        permits_taken(step, events.drop_last()) + permit_taken(
            run_after(step, events.drop_last()),
            events.last(),
        )
    }
}

/// How many permits the main loop gave back or handed on.
pub open spec fn permits_passed_on(step: RunStep, events: Seq<RunEvent>) -> nat
    decreases events.len(),
{
    if events.len() == 0 {
        0
    } else {
        permits_passed_on(step, events.drop_last()) + permit_released(
            run_after(step, events.drop_last()),
            events.last(),
        ) + permit_handed_on(run_after(step, events.drop_last()), events.last())
    }
}

/// Every permit that the main loop was given is in its hands, was given back
/// or went with a message; so it never has two, and none when it has stopped.
pub proof fn permits_are_accounted_for(events: Seq<RunEvent>)
    ensures
        permits_taken(worker_start(), events) == permits_passed_on(
            worker_start(),
            events,
        ) + permits_held(run_after(worker_start(), events)),
        run_after(worker_start(), events) is Stopped ==> permits_taken(
            worker_start(),
            events,
        ) == permits_passed_on(worker_start(), events),
    decreases events.len(),
{
    if events.len() > 0 {
        permits_are_accounted_for(events.drop_last());
    }
}

/// A job is claimed only with a permit, and a claimed job is always worked on.
pub proof fn claimed_job_is_worked_on(claimed: ClaimJobsResult)
    ensures
        holds_permit(RunStep::ClaimJobs),
        ({
            let scheduling = run_next(RunStep::ClaimJobs, RunEvent::Claimed(claimed));
            let next = run_next(scheduling, RunEvent::Completed);
            &&& scheduling == (RunStep::ScheduleHydration { claimed })
            &&& next == match claimed.job {
                Some(message) => RunStep::ProcessMessage {
                    job: message_job(message, None, None, None),
                },
                None => RunStep::ReleasePermit,
            }
        }),
{
}

/// The worker asks first and asks again only after a wait, with the next
/// number. An answer, whatever it is, ends the search well. A failure makes it
/// wait, but for the thirtieth and any after it, which ends the search with
/// that failure. Nothing else moves it.
pub proof fn ensure_moves_only_as_it_may(step: EnsureStep, event: EnsureEvent)
    ensures
        ensure_start() == (EnsureStep::Call { attempt: 1 }),
        ({
            let next = ensure_next(step, event);
            &&& next is Ready && !(step is Ready) <==> step is Call && event is Answered
                && event->Answered_0 is Ok
            &&& next is Wait && !(step is Wait) <==> step is Call && event is Answered
                && event->Answered_0 is Err && step->Call_attempt < 30
            &&& next is GaveUp && !(step is GaveUp) <==> step is Call && event is Answered
                && event->Answered_0 is Err && step->Call_attempt >= 30
            &&& next is Call && !(step is Call) <==> step is Wait && event is Waited
            &&& next is Wait && step is Call ==> next->Wait_attempt == step->Call_attempt
            &&& next is GaveUp && step is Call ==> next->GaveUp_0.cause == event->Answered_0->Err_0
            &&& next is Call && step is Wait ==> next->Call_attempt == if step->Wait_attempt
                < usize::MAX {
                step->Wait_attempt + 1
            } else {
                usize::MAX as int
            }
            &&& next is Call && step is Call ==> next == step
            &&& next is Wait && step is Wait ==> next == step
            &&& next is GaveUp && step is GaveUp ==> next == step
        }),
{
}

/// The wait for a permit is moved by these turns alone. It is refused at every
/// sight of the signal to stop, when the sender of the signal is gone and when
/// there is no permit; it is granted only with a permit at hand and, where it
/// heeds the signal, after one more look.
pub proof fn acquire_moves_only_as_it_may(step: AcquireStep, event: AcquireEvent)
    ensures
        acquire_start(true) is CheckShutdown,
        acquire_start(false) is WaitForPermit,
        ({
            let next = acquire_next(step, event);
            &&& next is CheckShutdown && !(step is CheckShutdown) <==> step is ConfirmChange
                && event == AcquireEvent::ShutdownRead(false)
            &&& next is WaitForChangeOrPermit && !(step is WaitForChangeOrPermit) <==> step
                is CheckShutdown && event == AcquireEvent::ShutdownRead(false)
            &&& next is ConfirmChange && !(step is ConfirmChange) <==> step is WaitForChangeOrPermit
                && event == (AcquireEvent::ShutdownChanged { sender_gone: false })
            &&& next is ConfirmPermit && !(step is ConfirmPermit) <==> step is WaitForChangeOrPermit
                && event == AcquireEvent::PermitAnswered(true)
            &&& next is WaitForPermit ==> step is WaitForPermit
            &&& next is Granted && !(step is Granted) <==> {
                ||| step is ConfirmPermit && event == AcquireEvent::ShutdownRead(false)
                ||| step is WaitForPermit && event == AcquireEvent::PermitAnswered(true)
            }
            &&& next is Refused && !(step is Refused) <==> {
                ||| (step is CheckShutdown || step is ConfirmChange || step is ConfirmPermit)
                    && event == AcquireEvent::ShutdownRead(true)
                ||| (step is WaitForChangeOrPermit || step is WaitForPermit) && event
                    == AcquireEvent::PermitAnswered(false)
                ||| step is WaitForChangeOrPermit && event == (AcquireEvent::ShutdownChanged {
                    sender_gone: true,
                })
            }
        }),
{
}

/// The search for pending messages is moved by these turns alone. Every claim
/// that succeeded, with a job or without one, is followed by remembering the
/// jobs of that very claim that were not ready; then its job is worked on, or
/// the search ends where there is none.
pub proof fn startup_moves_only_as_it_may(step: StartupStep, event: StartupEvent)
    ensures
        startup_start() is CheckShutdown,
        ({
            let next = startup_next(step, event);
            &&& next is CheckShutdown && !(step is CheckShutdown) <==> step is ProcessMessage
                && step->job.message.autoclaimed && event is Completed
            &&& next is Claim && !(step is Claim) <==> step is CheckShutdown && event
                == StartupEvent::ShutdownRead(false)
            &&& next is ScheduleHydration && !(step is ScheduleHydration) <==> step is Claim && event
                is Claimed
            &&& next is ScheduleHydration && step is Claim ==> next->claimed == event->Claimed_0
            &&& next is ProcessMessage && !(step is ProcessMessage) <==> step is ScheduleHydration
                && step->claimed.job is Some && event is Completed
            &&& next is ProcessMessage && step is ScheduleHydration ==> {
                let message = step->claimed.job->0;
                &&& next->job.message == message
                &&& next->job.next_attempt == 1
                &&& next->job.pending_completion is None
                &&& message.autoclaimed ==> next->job.entry_source == EntrySource::StartupPending
                &&& !message.autoclaimed ==> next->job.entry_source == EntrySource::Live
            }
            &&& next is WaitAfterError && !(step is WaitAfterError) <==> step is Claim && event
                is ClaimFailed
            &&& next is Finished && !(step is Finished) <==> {
                ||| step is CheckShutdown && event == StartupEvent::ShutdownRead(true)
                ||| step is ScheduleHydration && step->claimed.job is None && event is Completed
                ||| step is ProcessMessage && !step->job.message.autoclaimed && event is Completed
                ||| step is WaitAfterError && event is Completed
            }
            &&& next is ScheduleHydration && step is ScheduleHydration ==> next == step
            &&& next is ProcessMessage && step is ProcessMessage ==> next == step
        }),
{
}

/// The start of the worker goes on step by step in one order, and ends without
/// success exactly if one of the four steps that can fail does.
pub proof fn start_moves_only_as_it_may(step: RunStep, event: RunEvent)
    ensures
        worker_start() is LoadConfig,
        ({
            let next = run_next(step, event);
            &&& next is LoadConfig ==> step is LoadConfig
            &&& next is SpawnShutdownListener && !(step is SpawnShutdownListener) <==> step
                is LoadConfig && event is Completed
            &&& next is ConnectStore && !(step is ConnectStore) <==> step is SpawnShutdownListener
                && event is Completed
            &&& next is EnsureConsumerGroup && !(step is EnsureConsumerGroup) <==> step
                is ConnectStore && event is Completed
            &&& next is LogGracePeriod && !(step is LogGracePeriod) <==> step is EnsureConsumerGroup
                && event is Completed
            &&& next is BuildUpstreamClient && !(step is BuildUpstreamClient) <==> step
                is LogGracePeriod && event is Completed
            &&& next is DrainPendingAtStartup && !(step is DrainPendingAtStartup) <==> step
                is BuildUpstreamClient && event is Completed
            &&& next is StartFailed && !(step is StartFailed) <==> (step is LoadConfig || step
                is ConnectStore || step is EnsureConsumerGroup || step is BuildUpstreamClient)
                && event is Failed
        }),
{
}

/// The loop of the worker is moved by these turns alone, from its top to the
/// claim with a permit.
pub proof fn loop_moves_only_as_it_may(step: RunStep, event: RunEvent)
    ensures
        ({
            let next = run_next(step, event);
            &&& next is CheckShutdownAtTop && !(step is CheckShutdownAtTop) <==> (step
                is DrainPendingAtStartup || step is ProcessMessage || step is ReleasePermit || step
                is WaitAfterError) && event is Completed
            &&& next is ReapCompletedJobs && !(step is ReapCompletedJobs) <==> step
                is CheckShutdownAtTop && event == RunEvent::ShutdownRead(false)
            &&& next is CheckShutdownBeforeRetries && !(step is CheckShutdownBeforeRetries)
                <==> step is ReapCompletedJobs && event is Completed
            &&& next is ProcessDueRetries && !(step is ProcessDueRetries) <==> step
                is CheckShutdownBeforeRetries && event == RunEvent::ShutdownRead(false)
            &&& next is CheckShutdownAfterRetries && !(step is CheckShutdownAfterRetries) <==> {
                ||| step is ProcessDueRetries && event is Completed
                ||| step is CheckShutdownBeforeRetries && event == RunEvent::ShutdownRead(true)
            }
            &&& next is AcquirePermit && !(step is AcquirePermit) <==> step
                is CheckShutdownAfterRetries && event == RunEvent::ShutdownRead(false)
            &&& next is CheckShutdownWithPermit && !(step is CheckShutdownWithPermit) <==> step
                is AcquirePermit && event == RunEvent::PermitAnswered(true)
            &&& next is ClaimJobs && !(step is ClaimJobs) <==> step is CheckShutdownWithPermit
                && event == RunEvent::ShutdownRead(false)
        }),
{
}

/// What a claim gave decides what follows it. Every claim that succeeded, with
/// a job or without one, is followed by remembering the jobs of that very claim
/// that were not ready; then its job is worked on for the first time, as one
/// that was taken over exactly if it was and as delivered otherwise, or the
/// permit goes back where there is none. A claim that failed makes the permit
/// go back first and the worker wait then.
pub proof fn claim_is_followed_up(step: RunStep, event: RunEvent)
    ensures
        ({
            let next = run_next(step, event);
            &&& next is ScheduleHydration && !(step is ScheduleHydration) <==> step is ClaimJobs
                && event is Claimed
            &&& next is ScheduleHydration && step is ClaimJobs ==> next->claimed == event->Claimed_0
            &&& next is ProcessMessage && !(step is ProcessMessage) <==> step is ScheduleHydration
                && step->claimed.job is Some && event is Completed
            &&& next is ProcessMessage && step is ScheduleHydration ==> {
                let message = step->claimed.job->0;
                &&& next->job.message == message
                &&& next->job.next_attempt == 1
                &&& next->job.pending_completion is None
                &&& message.autoclaimed ==> next->job.entry_source == EntrySource::Autoclaimed
                &&& !message.autoclaimed ==> next->job.entry_source == EntrySource::Live
            }
            &&& next is ReleasePermit && !(step is ReleasePermit) <==> step is ScheduleHydration
                && step->claimed.job is None && event is Completed
            &&& next is ReleasePermitAfterError && !(step is ReleasePermitAfterError) <==> step
                is ClaimJobs && event is Failed
            &&& next is WaitAfterError && !(step is WaitAfterError) <==> step
                is ReleasePermitAfterError && event is Completed
            &&& next is ScheduleHydration && step is ScheduleHydration ==> next == step
            &&& next is ProcessMessage && step is ProcessMessage ==> next == step
        }),
{
}

/// The worker begins to stop exactly if it sees the signal where it looks for
/// it in its loop or gets no permit; a permit that it has goes back before.
pub proof fn stop_moves_only_as_it_may(step: RunStep, event: RunEvent)
    ensures
        ({
            let next = run_next(step, event);
            &&& next is ReleasePermitAndStop && !(step is ReleasePermitAndStop) <==> step
                is CheckShutdownWithPermit && event == RunEvent::ShutdownRead(true)
            &&& next is CloseAndDrain && !(step is CloseAndDrain) <==> {
                ||| (step is CheckShutdownAtTop || step is CheckShutdownAfterRetries) && event
                    == RunEvent::ShutdownRead(true)
                ||| step is AcquirePermit && event == RunEvent::PermitAnswered(false)
                ||| step is ReleasePermitAndStop && event is Completed
            }
            &&& next is Stopped && !(step is Stopped) <==> step is CloseAndDrain && event
                is Completed
        }),
{
}

} // verus!
