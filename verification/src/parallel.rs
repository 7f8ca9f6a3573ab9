//! The worker as a whole: its main loop and the messages beside it.
use vstd::prelude::*;

use crate::config::QueueConfig;
use crate::job::{
    message_next, message_permits, message_start, total_permits, total_worked_on,
    work_needs_permits, MessageEvent, MessageStep,
};
use crate::run::{
    is_starting, permit_handed_on, permit_released, permit_taken, permits_held, run_next,
    worker_start, RunEvent, RunStep,
};

verus! {

/// Where the main loop stands, and where each message stands that has arrived
/// since the start.
pub struct WorkerState {
    pub step: RunStep,
    pub messages: Seq<MessageStep>,
}

/// Something that happens in the worker. The main loop and the messages go on
/// side by side, in any order.
pub enum WorkerEvent {
    /// The main loop learns something.
    Main(RunEvent),
    /// A message arrives that was left pending at the start, or whose waiting
    /// time is over.
    Arrived,
    /// The message at this place learns something.
    Message { at: int, event: MessageEvent },
}

/// The worker before anything has happened.
pub open spec fn worker_begins() -> WorkerState {
    WorkerState { step: worker_start(), messages: Seq::empty() }
}

/// Whether messages may arrive that were not claimed with a permit.
pub open spec fn takes_messages(step: RunStep) -> bool {
    step is DrainPendingAtStartup || step is ProcessDueRetries
}

/// The worker after `event`.
///
/// The message that the main loop claimed arrives with the permit of the main
/// loop, any other without one.
pub open spec fn worker_next(state: WorkerState, event: WorkerEvent) -> WorkerState {
    match event {
        WorkerEvent::Main(event) => WorkerState {
            step: run_next(state.step, event),
            messages: if permit_handed_on(state.step, event) == 1 {
                state.messages.push(message_start(true))
            } else {
                state.messages
            },
        },
        WorkerEvent::Arrived => if takes_messages(state.step) {
            WorkerState { step: state.step, messages: state.messages.push(message_start(false)) }
        } else {
            state
        },
        WorkerEvent::Message { at, event } => if 0 <= at < state.messages.len() {
            WorkerState {
                step: state.step,
                messages: state.messages.update(at, message_next(state.messages[at], event)),
            }
        } else {
            state
        },
    }
}

/// The worker after a number of events.
pub open spec fn worker_after(events: Seq<WorkerEvent>) -> WorkerState
    decreases events.len(),
{
    if events.len() == 0 {
        worker_begins()
    } else {
        worker_next(worker_after(events.drop_last()), events.last())
    }
}

/// One where the event gives the worker a permit.
pub open spec fn takes_permit(state: WorkerState, event: WorkerEvent) -> nat {
    match event {
        WorkerEvent::Main(event) => permit_taken(state.step, event),
        WorkerEvent::Arrived => 0,
        WorkerEvent::Message { at, event } => if 0 <= at < state.messages.len()
            && state.messages[at] is AcquirePermit && event == MessageEvent::PermitAnswered(true) {
            1
        } else {
            0
        },
    }
}

/// One where the event tells that the worker has given a permit back.
pub open spec fn returns_permit(state: WorkerState, event: WorkerEvent) -> nat {
    match event {
        WorkerEvent::Main(event) => permit_released(state.step, event),
        WorkerEvent::Arrived => 0,
        WorkerEvent::Message { at, event } => if 0 <= at < state.messages.len()
            && state.messages[at] is ReleasePermit && event == MessageEvent::Released {
            1
        } else {
            0
        },
    }
}

/// How many permits the worker was given.
pub open spec fn all_permits_taken(events: Seq<WorkerEvent>) -> nat
    decreases events.len(),
{
    if events.len() == 0 {
        0
    } else {
        all_permits_taken(events.drop_last()) + takes_permit(
            worker_after(events.drop_last()),
            events.last(),
        )
    }
}

/// How many permits the worker gave back.
pub open spec fn all_permits_returned(events: Seq<WorkerEvent>) -> nat
    decreases events.len(),
{
    if events.len() == 0 {
        0
    } else {
        all_permits_returned(events.drop_last()) + returns_permit(
            worker_after(events.drop_last()),
            events.last(),
        )
    }
}

/// Whether the permits come from a semaphore of `permits` of them: each was
/// given while fewer than that were out.
pub open spec fn given_by_semaphore(permits: nat, events: Seq<WorkerEvent>) -> bool
    decreases events.len(),
{
    events.len() == 0 || {
        &&& given_by_semaphore(permits, events.drop_last())
        &&& takes_permit(worker_after(events.drop_last()), events.last()) == 1
            ==> all_permits_taken(events.drop_last()) < all_permits_returned(events.drop_last())
            + permits
    }
}

/// One more message adds its permits.
proof fn lemma_permits_push(steps: Seq<MessageStep>, step: MessageStep)
    ensures
        total_permits(steps.push(step)) == total_permits(steps) + message_permits(step),
{
    assert(steps.push(step).drop_last() =~= steps);
}

/// A message that goes on changes the sum by its own permits.
proof fn lemma_permits_update(steps: Seq<MessageStep>, at: int, step: MessageStep)
    requires
        0 <= at < steps.len(),
    ensures
        total_permits(steps.update(at, step)) + message_permits(steps[at]) == total_permits(steps)
            + message_permits(step),
    decreases steps.len(),
{
    let after = steps.update(at, step);
    if at == steps.len() - 1 {
        assert(after.drop_last() =~= steps.drop_last());
    } else {
        lemma_permits_update(steps.drop_last(), at, step);
        assert(after.drop_last() =~= steps.drop_last().update(at, step));
    }
}

/// Every permit that the worker was given and has not given back is in the
/// hands of the main loop or of one message.
pub proof fn all_permits_are_accounted_for(events: Seq<WorkerEvent>)
    ensures
        all_permits_taken(events) == all_permits_returned(events) + permits_held(
            worker_after(events).step,
        ) + total_permits(worker_after(events).messages),
    decreases events.len(),
{
    if events.len() > 0 {
        let before = worker_after(events.drop_last());
        all_permits_are_accounted_for(events.drop_last());
        match events.last() {
            WorkerEvent::Main(event) => {
                lemma_permits_push(before.messages, message_start(true));
            },
            WorkerEvent::Arrived => {
                lemma_permits_push(before.messages, message_start(false));
            },
            WorkerEvent::Message { at, event } => {
                if 0 <= at < before.messages.len() {
                    lemma_permits_update(
                        before.messages,
                        at,
                        message_next(before.messages[at], event),
                    );
                }
            },
        }
    }
}

/// With a semaphore of as many permits as jobs may run in parallel, no more
/// messages than that are worked on at any moment: those that were left pending
/// at the start, those that are tried again and those that were claimed
/// together. A job is claimed only while one more may run.
pub proof fn parallel_work_is_bounded(config: QueueConfig, events: Seq<WorkerEvent>)
    requires
        given_by_semaphore(config.max_concurrent_jobs as nat, events),
    ensures
        total_worked_on(worker_after(events).messages) <= config.max_concurrent_jobs,
        worker_after(events).step is ClaimJobs ==> total_worked_on(worker_after(events).messages)
            < config.max_concurrent_jobs,
{
    lemma_permits_out(config.max_concurrent_jobs as nat, events);
    all_permits_are_accounted_for(events);
    work_needs_permits(worker_after(events).messages);
}

/// Whether nothing more is done for a message: it was left, or worked on to the
/// end.
pub open spec fn is_over(step: MessageStep) -> bool {
    step is Abandoned || step is Finished
}

/// Whether nothing more is done for any of a number of messages.
pub open spec fn all_are_over(steps: Seq<MessageStep>) -> bool {
    forall|i: int| 0 <= i < steps.len() ==> is_over(#[trigger] steps[i])
}

/// Whether the worker waits for its jobs before it stops: the step that does so
/// ends only while nothing more is done for any message.
pub open spec fn drain_waits(events: Seq<WorkerEvent>) -> bool
    decreases events.len(),
{
    events.len() == 0 || {
        let before = worker_after(events.drop_last());
        &&& drain_waits(events.drop_last())
        &&& before.step is CloseAndDrain && events.last() == WorkerEvent::Main(RunEvent::Completed)
            ==> all_are_over(before.messages)
    }
}

/// With a drain that waits for the jobs that still run, nothing is worked on
/// once the worker has stopped, and every permit is back.
pub proof fn stopped_worker_works_on_nothing(events: Seq<WorkerEvent>)
    requires
        drain_waits(events),
    ensures
        worker_after(events).step is Stopped ==> {
            let messages = worker_after(events).messages;
            &&& forall|i: int|
                0 <= i < messages.len() ==> (#[trigger] messages[i]) is Abandoned || messages[i]
                    is Finished
            &&& total_worked_on(messages) == 0
            &&& all_permits_taken(events) == all_permits_returned(events)
        },
{
    if worker_after(events).step is Stopped {
        lemma_stopped_messages_are_over(events);
        let messages = worker_after(events).messages;
        assert forall|i: int| 0 <= i < messages.len() implies (#[trigger] messages[i]) is Abandoned
            || messages[i] is Finished by {
            assert(is_over(messages[i]));
        }
        lemma_nothing_held_when_over(messages);
        work_needs_permits(messages);
        all_permits_are_accounted_for(events);
    }
}

/// A worker that could not start has taken no message on.
pub proof fn failed_start_takes_no_message(events: Seq<WorkerEvent>)
    ensures
        worker_after(events).step is StartFailed ==> worker_after(events).messages.len() == 0,
{
    lemma_no_message_before_the_drain(events);
}

/// When the worker has stopped, all of its messages are over.
proof fn lemma_stopped_messages_are_over(events: Seq<WorkerEvent>)
    requires
        drain_waits(events),
        worker_after(events).step is Stopped,
    ensures
        all_are_over(worker_after(events).messages),
    decreases events.len(),
{
    if events.len() > 0 {
        let before = worker_after(events.drop_last());
        if before.step is Stopped {
            lemma_stopped_messages_are_over(events.drop_last());
        }
    }
}

/// Messages that are over have no permits.
proof fn lemma_nothing_held_when_over(steps: Seq<MessageStep>)
    requires
        all_are_over(steps),
    ensures
        total_permits(steps) == 0,
    decreases steps.len(),
{
    if steps.len() > 0 {
        assert(is_over(steps[steps.len() - 1]));
        assert forall|i: int| 0 <= i < steps.drop_last().len() implies is_over(
            #[trigger] steps.drop_last()[i],
        ) by {
            assert(steps.drop_last()[i] == steps[i]);
        }
        lemma_nothing_held_when_over(steps.drop_last());
    }
}

/// No message arrives before the worker looks for those that were left pending.
proof fn lemma_no_message_before_the_drain(events: Seq<WorkerEvent>)
    ensures
        is_starting(worker_after(events).step) && !(worker_after(events).step
            is DrainPendingAtStartup) || worker_after(events).step is StartFailed ==> worker_after(
            events,
        ).messages.len() == 0,
    decreases events.len(),
{
    if events.len() > 0 {
        lemma_no_message_before_the_drain(events.drop_last());
    }
}

/// A semaphore never has more permits out than it has.
proof fn lemma_permits_out(permits: nat, events: Seq<WorkerEvent>)
    requires
        given_by_semaphore(permits, events),
    ensures
        all_permits_taken(events) <= all_permits_returned(events) + permits,
    decreases events.len(),
{
    if events.len() > 0 {
        lemma_permits_out(permits, events.drop_last());
    }
}

} // verus!
