use duihua_background_worker::claim::ClaimJobsResult;
use duihua_background_worker::config::{QueueConfig, QueueEnv};
use duihua_background_worker::job::{
    process_message, process_message_start, MessageEvent, MessageJob, MessageStep,
};
use duihua_background_worker::message::{EntrySource, QueueMessage};
use duihua_background_worker::run::{
    acquire_job_permit, acquire_job_permit_start, drain_pending_at_startup,
    drain_pending_at_startup_start, ensure_background_consumer_group,
    ensure_background_consumer_group_start, ensure_group_request, run, run_start, AcquireEvent,
    AcquireStep, EnsureEvent, EnsureGroupError, EnsureStep, RunEvent, RunStep, StartupEvent,
    StartupStep, ENSURE_CONSUMER_GROUP_RETRY_DELAY_SECONDS, STORE_ERROR_DELAY_SECONDS,
};
use duihua_background_worker::store::{ClientError, StoreError, StoreRequest};

fn message(autoclaimed: bool) -> QueueMessage {
    QueueMessage {
        stream_id: "1-0".to_string(),
        response_id: "resp_a".to_string(),
        idle_ms: None,
        autoclaimed,
    }
}

fn claimed(job: Option<QueueMessage>) -> ClaimJobsResult {
    ClaimJobsResult {
        job,
        pending_jobs: vec![],
    }
}

fn failure(number: usize) -> StoreError {
    StoreError::Client(ClientError::Transport(format!("failure {number}")))
}

#[test]
fn consumer_group_is_asked_for_from_the_beginning() {
    let config = QueueConfig::from_env(&QueueEnv::default()).unwrap();
    assert_eq!(
        ensure_group_request(&config),
        StoreRequest::EnsureConsumerGroup {
            consumer_group: "duihua-background".to_string(),
            start_id: "0".to_string(),
        }
    );
}

#[test]
fn consumer_group_is_asked_for_thirty_times() {
    assert_eq!(ENSURE_CONSUMER_GROUP_RETRY_DELAY_SECONDS, 2);
    let mut step = ensure_background_consumer_group_start();
    let mut calls = 0;
    let mut waits = 0;
    loop {
        match step {
            EnsureStep::Call { .. } => {
                calls += 1;
                step = ensure_background_consumer_group(
                    step,
                    EnsureEvent::Answered(Err(failure(calls))),
                );
            }
            EnsureStep::Wait { .. } => {
                waits += 1;
                step = ensure_background_consumer_group(step, EnsureEvent::Waited);
            }
            EnsureStep::Ready | EnsureStep::GaveUp(_) => break,
        }
    }
    let error = EnsureGroupError { cause: failure(30) };
    assert_eq!(
        error.message(),
        "failed to ensure background queue consumer group"
    );
    assert_eq!(step, EnsureStep::GaveUp(error));
    assert_eq!(calls, 30);
    assert_eq!(waits, 29);
}

#[test]
fn consumer_group_is_ready_once_the_store_says_so() {
    for made in [true, false] {
        let mut step = ensure_background_consumer_group_start();
        step = ensure_background_consumer_group(step, EnsureEvent::Answered(Err(failure(1))));
        assert_eq!(step, EnsureStep::Wait { attempt: 1 });
        step = ensure_background_consumer_group(step, EnsureEvent::Answered(Ok(made)));
        assert_eq!(step, EnsureStep::Wait { attempt: 1 });
        step = ensure_background_consumer_group(step, EnsureEvent::Waited);
        assert_eq!(step, EnsureStep::Call { attempt: 2 });
        step = ensure_background_consumer_group(step, EnsureEvent::Answered(Ok(made)));
        assert_eq!(step, EnsureStep::Ready);
    }
}

fn acquire(stop_on_shutdown: bool, events: &[AcquireEvent]) -> AcquireStep {
    let mut step = acquire_job_permit_start(stop_on_shutdown);
    for event in events {
        step = acquire_job_permit(step, *event);
    }
    step
}

#[test]
fn permit_is_granted_while_the_worker_runs() {
    assert_eq!(
        acquire(
            true,
            &[
                AcquireEvent::ShutdownRead(false),
                AcquireEvent::ShutdownChanged { sender_gone: false },
                AcquireEvent::ShutdownRead(false),
                AcquireEvent::ShutdownRead(false),
                AcquireEvent::PermitAnswered(true),
                AcquireEvent::ShutdownRead(false),
            ]
        ),
        AcquireStep::Granted
    );
    assert_eq!(
        acquire(false, &[AcquireEvent::PermitAnswered(true)]),
        AcquireStep::Granted
    );
}

#[test]
fn permit_is_refused_once_the_worker_stops() {
    let read = AcquireEvent::ShutdownRead;
    for events in [
        vec![read(true)],
        vec![
            read(false),
            AcquireEvent::ShutdownChanged { sender_gone: true },
        ],
        vec![
            read(false),
            AcquireEvent::ShutdownChanged { sender_gone: false },
            read(true),
        ],
        vec![read(false), AcquireEvent::PermitAnswered(false)],
        vec![read(false), AcquireEvent::PermitAnswered(true), read(true)],
    ] {
        assert_eq!(acquire(true, &events), AcquireStep::Refused);
    }
    assert_eq!(
        acquire(false, &[AcquireEvent::PermitAnswered(false)]),
        AcquireStep::Refused
    );
    assert_eq!(
        acquire(false, &[read(true)]),
        AcquireStep::WaitForPermit
    );
}

#[test]
fn startup_goes_on_while_messages_are_taken_over() {
    let mut step = drain_pending_at_startup_start();
    assert_eq!(step, StartupStep::CheckShutdown);
    step = drain_pending_at_startup(step, StartupEvent::ShutdownRead(false));
    assert_eq!(step, StartupStep::Claim);
    step = drain_pending_at_startup(step, StartupEvent::Claimed(claimed(Some(message(true)))));
    assert_eq!(
        step,
        StartupStep::ScheduleHydration {
            claimed: claimed(Some(message(true)))
        }
    );
    step = drain_pending_at_startup(step, StartupEvent::Completed);
    assert_eq!(
        step,
        StartupStep::ProcessMessage {
            job: MessageJob {
                message: message(true),
                entry_source: EntrySource::StartupPending,
                next_attempt: 1,
                pending_completion: None,
            }
        }
    );
    step = drain_pending_at_startup(step, StartupEvent::Completed);
    assert_eq!(step, StartupStep::CheckShutdown);
    assert_eq!(
        drain_pending_at_startup(step, StartupEvent::ShutdownRead(true)),
        StartupStep::Finished
    );
}

#[test]
fn startup_ends_with_a_delivered_message_an_empty_claim_or_a_failure() {
    let step = StartupStep::ScheduleHydration {
        claimed: claimed(Some(message(false))),
    };
    let step = drain_pending_at_startup(step, StartupEvent::Completed);
    assert_eq!(
        step,
        StartupStep::ProcessMessage {
            job: MessageJob {
                message: message(false),
                entry_source: EntrySource::Live,
                next_attempt: 1,
                pending_completion: None,
            }
        }
    );
    assert_eq!(
        drain_pending_at_startup(step, StartupEvent::Completed),
        StartupStep::Finished
    );
    let step = StartupStep::ScheduleHydration {
        claimed: claimed(None),
    };
    assert_eq!(
        drain_pending_at_startup(step, StartupEvent::Completed),
        StartupStep::Finished
    );
    assert_eq!(STORE_ERROR_DELAY_SECONDS, 1);
    let step = drain_pending_at_startup(StartupStep::Claim, StartupEvent::ClaimFailed);
    assert_eq!(step, StartupStep::WaitAfterError);
    assert_eq!(
        drain_pending_at_startup(step, StartupEvent::Completed),
        StartupStep::Finished
    );
}

#[test]
fn worker_starts_in_order() {
    let mut step = run_start();
    assert_eq!(step, RunStep::LoadConfig);
    for expected in [
        RunStep::SpawnShutdownListener,
        RunStep::ConnectStore,
        RunStep::EnsureConsumerGroup,
        RunStep::LogGracePeriod,
        RunStep::BuildUpstreamClient,
        RunStep::DrainPendingAtStartup,
        RunStep::CheckShutdownAtTop,
    ] {
        step = run(step, RunEvent::Completed);
        assert_eq!(step, expected);
    }
}

#[test]
fn worker_fails_to_start_where_a_step_can_fail() {
    for step in [
        RunStep::LoadConfig,
        RunStep::ConnectStore,
        RunStep::EnsureConsumerGroup,
        RunStep::BuildUpstreamClient,
    ] {
        assert_eq!(run(step, RunEvent::Failed), RunStep::StartFailed);
    }
    assert_eq!(
        run(RunStep::LogGracePeriod, RunEvent::Failed),
        RunStep::LogGracePeriod
    );
}

#[test]
fn worker_claims_with_a_permit_and_works_on_the_job() {
    let mut step = RunStep::CheckShutdownAtTop;
    for (event, expected) in [
        (RunEvent::ShutdownRead(false), RunStep::ReapCompletedJobs),
        (RunEvent::Completed, RunStep::CheckShutdownBeforeRetries),
        (RunEvent::ShutdownRead(false), RunStep::ProcessDueRetries),
        (RunEvent::Completed, RunStep::CheckShutdownAfterRetries),
        (RunEvent::ShutdownRead(false), RunStep::AcquirePermit),
        (
            RunEvent::PermitAnswered(true),
            RunStep::CheckShutdownWithPermit,
        ),
        (RunEvent::ShutdownRead(false), RunStep::ClaimJobs),
        (
            RunEvent::Claimed(claimed(Some(message(true)))),
            RunStep::ScheduleHydration {
                claimed: claimed(Some(message(true))),
            },
        ),
        (
            RunEvent::Completed,
            RunStep::ProcessMessage {
                job: MessageJob {
                    message: message(true),
                    entry_source: EntrySource::Autoclaimed,
                    next_attempt: 1,
                    pending_completion: None,
                },
            },
        ),
        (RunEvent::Completed, RunStep::CheckShutdownAtTop),
    ] {
        step = run(step, event);
        assert_eq!(step, expected);
    }
}

#[test]
fn worker_gives_the_permit_back_without_a_job() {
    let step = run(RunStep::ClaimJobs, RunEvent::Claimed(claimed(None)));
    let step = run(step, RunEvent::Completed);
    assert_eq!(step, RunStep::ReleasePermit);
    assert_eq!(run(step, RunEvent::Completed), RunStep::CheckShutdownAtTop);
    let step = run(RunStep::ClaimJobs, RunEvent::Failed);
    assert_eq!(step, RunStep::ReleasePermitAfterError);
    let step = run(step, RunEvent::Completed);
    assert_eq!(step, RunStep::WaitAfterError);
    assert_eq!(run(step, RunEvent::Completed), RunStep::CheckShutdownAtTop);
}

#[test]
fn worker_winds_down_after_the_signal() {
    assert_eq!(
        run(RunStep::CheckShutdownAtTop, RunEvent::ShutdownRead(true)),
        RunStep::CloseAndDrain
    );
    let step = run(
        RunStep::CheckShutdownBeforeRetries,
        RunEvent::ShutdownRead(true),
    );
    assert_eq!(step, RunStep::CheckShutdownAfterRetries);
    assert_eq!(
        run(step, RunEvent::ShutdownRead(true)),
        RunStep::CloseAndDrain
    );
    assert_eq!(
        run(RunStep::AcquirePermit, RunEvent::PermitAnswered(false)),
        RunStep::CloseAndDrain
    );
    let step = run(
        RunStep::CheckShutdownWithPermit,
        RunEvent::ShutdownRead(true),
    );
    assert_eq!(step, RunStep::ReleasePermitAndStop);
    let step = run(step, RunEvent::Completed);
    assert_eq!(step, RunStep::CloseAndDrain);
    let step = run(step, RunEvent::Completed);
    assert_eq!(step, RunStep::Stopped);
    assert_eq!(run(step, RunEvent::Completed), RunStep::Stopped);
}

#[test]
fn every_permit_is_given_back_or_handed_on() {
    let mut taken = 0;
    let mut passed_on = 0;
    let mut claims = 0;
    let mut step = run_start();
    loop {
        let event = match &step {
            RunStep::CheckShutdownAtTop
            | RunStep::CheckShutdownBeforeRetries
            | RunStep::CheckShutdownAfterRetries => RunEvent::ShutdownRead(false),
            RunStep::CheckShutdownWithPermit => RunEvent::ShutdownRead(claims == 3),
            RunStep::AcquirePermit => {
                taken += 1;
                RunEvent::PermitAnswered(true)
            }
            RunStep::ClaimJobs => {
                claims += 1;
                match claims {
                    1 => RunEvent::Claimed(claimed(Some(message(false)))),
                    2 => RunEvent::Claimed(claimed(None)),
                    _ => RunEvent::Failed,
                }
            }
            RunStep::ProcessMessage { .. }
            | RunStep::ReleasePermit
            | RunStep::ReleasePermitAfterError
            | RunStep::ReleasePermitAndStop => {
                passed_on += 1;
                RunEvent::Completed
            }
            RunStep::Stopped | RunStep::StartFailed => break,
            _ => RunEvent::Completed,
        };
        step = run(step, event);
    }
    assert_eq!(step, RunStep::Stopped);
    assert_eq!(claims, 3);
    assert_eq!(taken, 4);
    assert_eq!(passed_on, 4);
}

#[test]
fn nothing_begins_after_the_signal() {
    for first in [
        RunStep::CheckShutdownAtTop,
        RunStep::CheckShutdownBeforeRetries,
        RunStep::CheckShutdownAfterRetries,
        RunStep::CheckShutdownWithPermit,
    ] {
        let mut step = run(first, RunEvent::ShutdownRead(true));
        let mut steps = 0;
        while step != RunStep::Stopped {
            assert!(matches!(
                step,
                RunStep::CheckShutdownAfterRetries
                    | RunStep::ReleasePermitAndStop
                    | RunStep::CloseAndDrain
            ));
            let event = if step == RunStep::CheckShutdownAfterRetries {
                RunEvent::ShutdownRead(true)
            } else {
                RunEvent::Completed
            };
            step = run(step, event);
            steps += 1;
        }
        assert!(steps <= 2);
    }
}

#[test]
fn two_permits_let_two_messages_run() {
    let mut free = 2;
    let mut messages = vec![
        process_message_start(false),
        process_message_start(false),
        process_message_start(false),
        process_message_start(false),
    ];
    let mut most = 0;
    while messages.iter().any(|step| *step != MessageStep::Finished) {
        let mut moved = false;
        for at in 0..messages.len() {
            let step = messages[at];
            let event = match step {
                MessageStep::AcquirePermit if free > 0 => {
                    free -= 1;
                    MessageEvent::PermitAnswered(true)
                }
                MessageStep::AcquirePermit | MessageStep::Finished => continue,
                MessageStep::CheckShutdown => MessageEvent::ShutdownRead(at == 3),
                MessageStep::HandleInline | MessageStep::Spawn => MessageEvent::Handled,
                MessageStep::ReleasePermit => {
                    free += 1;
                    MessageEvent::Released
                }
                MessageStep::Abandoned => panic!("no message is left"),
            };
            messages[at] = process_message(step, event);
            moved = true;
            let worked_on = messages
                .iter()
                .filter(|step| matches!(step, MessageStep::HandleInline | MessageStep::Spawn))
                .count();
            most = most.max(worked_on);
        }
        assert!(moved);
    }
    assert_eq!(most, 2);
    assert_eq!(free, 2);
}

#[test]
fn worker_stops_once_its_messages_are_over() {
    let mut messages = vec![
        MessageStep::Spawn,
        process_message(process_message_start(false), MessageEvent::PermitAnswered(false)),
    ];
    let over = |step: &MessageStep| matches!(step, MessageStep::Abandoned | MessageStep::Finished);
    let mut step = run(RunStep::CheckShutdownAtTop, RunEvent::ShutdownRead(true));
    assert_eq!(step, RunStep::CloseAndDrain);
    for event in [MessageEvent::Handled, MessageEvent::Released] {
        assert!(!messages.iter().all(over));
        messages = messages
            .iter()
            .map(|message| process_message(*message, event))
            .collect();
    }
    assert_eq!(messages, [MessageStep::Finished, MessageStep::Abandoned]);
    step = run(step, RunEvent::Completed);
    assert_eq!(step, RunStep::Stopped);
    for event in [
        MessageEvent::PermitAnswered(true),
        MessageEvent::ShutdownRead(false),
        MessageEvent::Handled,
        MessageEvent::Released,
    ] {
        for message in &messages {
            assert_eq!(process_message(*message, event), *message);
        }
    }
}
