//! What the worker claims, and what it does with claims that are not ready.
use std::time::Instant;

use vstd::prelude::*;

use crate::config::QueueConfig;
use crate::message::{EntrySource, QueueMessage};
use crate::retry::{is_clock_reading, PendingRetryEntry, PendingRetryScheduler};
use crate::store::{ClaimBackgroundJobsRequest, ClaimBackgroundJobsResult, PendingBackgroundJob};
use crate::time::{Backoff, MAX_CLOCK_NANOS};

verus! {

/// The job that a claim gave, if any, and the jobs that were not ready.
#[derive(Debug, PartialEq, Eq)]
pub struct ClaimJobsResult {
    pub job: Option<QueueMessage>,
    pub pending_jobs: Vec<PendingBackgroundJob>,
}

/// The lower thirty-two bits of a number.
pub open spec fn low_u32(n: nat) -> u32 {
    (n % 0x1_0000_0000) as u32
}

/// The claim that a worker of this configuration makes.
///
/// Times travel as `u32`: of a longer one, the lower thirty-two bits do.
pub fn claim_jobs_request(config: &QueueConfig, count: u32, block_ms: u32) -> (request:
    ClaimBackgroundJobsRequest)
    ensures
        request == (ClaimBackgroundJobsRequest {
            consumer_group: config.consumer_group,
            consumer_name: config.consumer_name,
            count,
            block_ms,
            autoclaim_min_idle_ms: low_u32(config.autoclaim_min_idle_ms as nat),
        }),
        config.autoclaim_min_idle_ms <= u32::MAX ==> request.autoclaim_min_idle_ms
            == config.autoclaim_min_idle_ms,
{
    ClaimBackgroundJobsRequest {
        consumer_group: config.consumer_group.clone(),
        consumer_name: config.consumer_name.clone(),
        count,
        block_ms,
        autoclaim_min_idle_ms: (config.autoclaim_min_idle_ms as u64 % 0x1_0000_0000) as u32,
    }
}

/// The claim of a worker that runs: one job, for which it waits.
pub fn live_claim_request(config: &QueueConfig) -> (request: ClaimBackgroundJobsRequest)
    ensures
        request == (ClaimBackgroundJobsRequest {
            consumer_group: config.consumer_group,
            consumer_name: config.consumer_name,
            count: 1,
            block_ms: low_u32(config.block_ms as nat),
            autoclaim_min_idle_ms: low_u32(config.autoclaim_min_idle_ms as nat),
        }),
        config.autoclaim_min_idle_ms <= u32::MAX ==> request.autoclaim_min_idle_ms
            == config.autoclaim_min_idle_ms,
        config.block_ms <= u32::MAX ==> request.block_ms == config.block_ms,
{
    claim_jobs_request(config, 1, (config.block_ms as u64 % 0x1_0000_0000) as u32)
}

/// The claim of a worker that starts: one job, for which it does not wait.
pub fn startup_claim_request(config: &QueueConfig) -> (request: ClaimBackgroundJobsRequest)
    ensures
        request == (ClaimBackgroundJobsRequest {
            consumer_group: config.consumer_group,
            consumer_name: config.consumer_name,
            count: 1,
            block_ms: 0,
            autoclaim_min_idle_ms: low_u32(config.autoclaim_min_idle_ms as nat),
        }),
        config.autoclaim_min_idle_ms <= u32::MAX ==> request.autoclaim_min_idle_ms
            == config.autoclaim_min_idle_ms,
{
    claim_jobs_request(config, 1, 0)
}

/// The first job of a claim as a message, and the jobs that were not ready.
pub fn claim_jobs(result: ClaimBackgroundJobsResult) -> (claimed: ClaimJobsResult)
    ensures
        claimed.pending_jobs == result.pending_jobs,
        claimed.job == if result.jobs.len() == 0 {
            None
        } else {
            Some(
                QueueMessage {
                    stream_id: result.jobs[0].stream_id,
                    response_id: result.jobs[0].response_id,
                    idle_ms: result.jobs[0].idle_ms,
                    autoclaimed: result.jobs[0].autoclaimed,
                },
            )
        },
{
    let mut jobs = result.jobs;
    if jobs.len() == 0 {
        return ClaimJobsResult { job: None, pending_jobs: result.pending_jobs };
    }
    let first = jobs.swap_remove(0);
    ClaimJobsResult {
        job: Some(
            QueueMessage {
                stream_id: first.stream_id,
                response_id: first.response_id,
                idle_ms: first.idle_ms,
                autoclaimed: first.autoclaimed,
            },
        ),
        pending_jobs: result.pending_jobs,
    }
}

/// What is remembered of a job that was not ready when it was claimed.
pub open spec fn hydration_entry(job: PendingBackgroundJob, retry_at: nat) -> PendingRetryEntry {
    PendingRetryEntry {
        response_id: job.response_id,
        retry_at: retry_at as u128,
        autoclaimed: false,
        idle_ms: None,
        entry_source: EntrySource::Live,
        attempt: 1,
        pending_completion: None,
    }
}

/// `entries` with the jobs that were not ready, each of them to be tried again
/// `backoff` after its own clock reading; of two jobs with one stream id the
/// later stays.
pub open spec fn with_hydration_retries(
    entries: Map<Seq<char>, PendingRetryEntry>,
    jobs: Seq<PendingBackgroundJob>,
    readings: Seq<u128>,
    backoff: Backoff,
) -> Map<Seq<char>, PendingRetryEntry>
    decreases jobs.len(),
{
    if jobs.len() == 0 {
        entries
    } else {
        with_hydration_retries(
            entries,
            jobs.drop_last(),
            readings.drop_last(),
            backoff,
        ).insert(
            jobs.last().stream_id@,
            hydration_entry(jobs.last(), readings.last() as nat + backoff.nanos()),
        )
    }
}

/// Remembers the jobs that were not ready at the given clock readings, one
/// for each of them.
pub fn schedule_pending_hydration_retries_at(
    pending_jobs: &Vec<PendingBackgroundJob>,
    scheduler: &mut PendingRetryScheduler,
    readings: &Vec<u128>,
    backoff: Backoff,
)
    requires
        readings.len() == pending_jobs.len(),
        forall|i: int| 0 <= i < readings.len() ==> #[trigger] readings[i] <= MAX_CLOCK_NANOS,
    ensures
        final(scheduler).same_clock(*old(scheduler)),
        final(scheduler)@ == with_hydration_retries(
            old(scheduler)@,
            pending_jobs@,
            readings@,
            backoff,
        ),
{
    let ghost before = scheduler@;
    let ghost scheduler_before = *scheduler;
    let mut at: usize = 0;
    while at < pending_jobs.len()
        invariant
            at <= pending_jobs.len(),
            readings.len() == pending_jobs.len(),
            forall|i: int| 0 <= i < readings.len() ==> #[trigger] readings[i] <= MAX_CLOCK_NANOS,
            scheduler.same_clock(scheduler_before),
            scheduler@ == with_hydration_retries(
                before,
                pending_jobs@.take(at as int),
                readings@.take(at as int),
                backoff,
            ),
        decreases pending_jobs.len() - at,
    {
        let pending = &pending_jobs[at];
        let message = QueueMessage {
            stream_id: pending.stream_id.clone(),
            response_id: pending.response_id.clone(),
            idle_ms: None,
            autoclaimed: false,
        };
        scheduler.schedule_at(readings[at], &message, backoff, EntrySource::Live, 1, None);
        proof {
            assert(pending_jobs@.take(at + 1).drop_last() =~= pending_jobs@.take(at as int));
            assert(readings@.take(at + 1).drop_last() =~= readings@.take(at as int));
        }
        at = at + 1;
    }
    proof {
        assert(pending_jobs@.take(at as int) =~= pending_jobs@);
        assert(readings@.take(at as int) =~= readings@);
    }
}

/// Whether `readings` are readings of the clock that counts from `start` and
/// stood at `last` before, taken one after the other.
pub open spec fn are_clock_readings(start: Instant, last: u128, readings: Seq<u128>) -> bool {
    forall|i: int|
        0 <= i < readings.len() ==> is_clock_reading(
            start,
            if i == 0 {
                last
            } else {
                readings[i - 1]
            },
            #[trigger] readings[i],
        )
}

/// Remembers the jobs that were not ready, each of them to be tried again
/// `backoff` from now.
///
/// The moment is a reading of the scheduler's clock, taken for each of them.
pub fn schedule_pending_hydration_retries(
    pending_jobs: &Vec<PendingBackgroundJob>,
    scheduler: &mut PendingRetryScheduler,
    backoff: Backoff,
)
    ensures
        final(scheduler).started_at() == old(scheduler).started_at(),
        exists|readings: Seq<u128>|
            readings.len() == pending_jobs.len() && are_clock_readings(
                old(scheduler).started_at(),
                old(scheduler).last_reading(),
                readings,
            ) && final(scheduler).last_reading() == (if readings.len() == 0 {
                old(scheduler).last_reading()
            } else {
                readings.last()
            }) && final(scheduler)@ == #[trigger] with_hydration_retries(
                old(scheduler)@,
                pending_jobs@,
                readings,
                backoff,
            ),
{
    let ghost before = scheduler@;
    let ghost scheduler_before = *scheduler;
    let ghost mut readings: Seq<u128> = Seq::empty();
    let mut at: usize = 0;
    while at < pending_jobs.len()
        invariant
            at <= pending_jobs.len(),
            readings.len() == at,
            are_clock_readings(
                scheduler_before.started_at(),
                scheduler_before.last_reading(),
                readings,
            ),
            scheduler.last_reading() == if at == 0 {
                scheduler_before.last_reading()
            } else {
                readings.last()
            },
            scheduler.started_at() == scheduler_before.started_at(),
            scheduler@ == with_hydration_retries(
                before,
                pending_jobs@.take(at as int),
                readings,
                backoff,
            ),
        decreases pending_jobs.len() - at,
    {
        let pending = &pending_jobs[at];
        let message = QueueMessage {
            stream_id: pending.stream_id.clone(),
            response_id: pending.response_id.clone(),
            idle_ms: None,
            autoclaimed: false,
        };
        scheduler.schedule(&message, backoff, EntrySource::Live, 1, None);
        proof {
            let now = scheduler.last_reading();
            assert(readings.push(now).drop_last() =~= readings);
            assert(pending_jobs@.take(at + 1).drop_last() =~= pending_jobs@.take(at as int));
            readings = readings.push(now);
        }
        at = at + 1;
    }
    assert(pending_jobs@.take(at as int) =~= pending_jobs@);
}

/// After a claim, every job that was not ready is remembered, as one that was
/// tried once, and everything else that was remembered stays as it was.
pub proof fn hydration_retries_are_remembered(
    entries: Map<Seq<char>, PendingRetryEntry>,
    jobs: Seq<PendingBackgroundJob>,
    readings: Seq<u128>,
    backoff: Backoff,
)
    requires
        readings.len() == jobs.len(),
    ensures
        ({
            let after = with_hydration_retries(entries, jobs, readings, backoff);
            &&& forall|i: int|
                0 <= i < jobs.len() ==> {
                    let id = (#[trigger] jobs[i]).stream_id@;
                    after.contains_key(id) && after[id].attempt == 1 && after[id].entry_source
                        == EntrySource::Live
                }
            &&& forall|id: Seq<char>|
                (forall|i: int| 0 <= i < jobs.len() ==> (#[trigger] jobs[i]).stream_id@ != id) ==> (
                #[trigger] after.contains_key(id)) == entries.contains_key(id)
            &&& forall|id: Seq<char>|
                (forall|i: int| 0 <= i < jobs.len() ==> (#[trigger] jobs[i]).stream_id@ != id)
                    && entries.contains_key(id) ==> #[trigger] after[id] == entries[id]
        }),
    decreases jobs.len(),
{
    if jobs.len() > 0 {
        let last = jobs.len() - 1;
        hydration_retries_are_remembered(entries, jobs.drop_last(), readings.drop_last(), backoff);
        let earlier = with_hydration_retries(
            entries,
            jobs.drop_last(),
            readings.drop_last(),
            backoff,
        );
        let after = with_hydration_retries(entries, jobs, readings, backoff);
        assert forall|i: int| 0 <= i < jobs.len() implies {
            let id = (#[trigger] jobs[i]).stream_id@;
            after.contains_key(id) && after[id].attempt == 1 && after[id].entry_source
                == EntrySource::Live
        } by {
            if i < last {
                assert(jobs.drop_last()[i] == jobs[i]);
            }
        }
        assert forall|id: Seq<char>|
            (forall|i: int|
                0 <= i < jobs.len() ==> (#[trigger] jobs[i]).stream_id@ != id) implies (
        #[trigger] after.contains_key(id)) == entries.contains_key(id) && (entries.contains_key(id)
            ==> after[id] == entries[id]) by {
            assert(jobs[last].stream_id@ != id);
            assert forall|i: int| 0 <= i < jobs.drop_last().len() implies (
            #[trigger] jobs.drop_last()[i]).stream_id@ != id by {
                assert(jobs.drop_last()[i] == jobs[i]);
            }
            assert(earlier.contains_key(id) == entries.contains_key(id));
        }
    }
}

/// A time that fits in a `u32` travels as it is. Of any other, what travels
/// differs from it by a multiple of what a `u32` can count.
pub proof fn times_travel_as_they_are_where_they_fit(n: nat)
    ensures
        n <= u32::MAX ==> low_u32(n) == n,
        low_u32(n) <= n,
        (n - low_u32(n)) % (u32::MAX + 1) == 0,
{
    let whole = n as int;
    let unit = u32::MAX + 1;
    vstd::arithmetic::div_mod::lemma_fundamental_div_mod(whole, unit);
    let times = whole / unit;
    assert(unit * times == times * unit) by (nonlinear_arith);
    assert(whole - low_u32(n) == times * unit);
    vstd::arithmetic::div_mod::lemma_mod_multiples_basic(times, unit);
    assert(times * unit >= 0) by (nonlinear_arith)
        requires
            times >= 0,
            unit > 0,
    ;
}

/// Readings that were taken one after the other never go back: each is one of
/// the clock after the reading before it.
pub proof fn readings_never_go_back(start: Instant, last: u128, readings: Seq<u128>, i: int)
    requires
        are_clock_readings(start, last, readings),
        0 <= i < readings.len(),
    ensures
        i == 0 ==> is_clock_reading(start, last, readings[i]) && last <= readings[i],
        i > 0 ==> is_clock_reading(start, readings[i - 1], readings[i]) && readings[i - 1]
            <= readings[i],
{
}

/// Of a job that was not ready, and of which no later one of the claim has the
/// stream id, exactly this is remembered: its response, as a delivered message
/// that was tried once, to be tried again when the waiting time after its own
/// reading is over.
pub proof fn job_that_was_not_ready_is_remembered(
    entries: Map<Seq<char>, PendingRetryEntry>,
    jobs: Seq<PendingBackgroundJob>,
    readings: Seq<u128>,
    backoff: Backoff,
    at: int,
)
    requires
        readings.len() == jobs.len(),
        0 <= at < jobs.len(),
        readings[at] <= MAX_CLOCK_NANOS,
        forall|later: int|
            at < later < jobs.len() ==> (#[trigger] jobs[later]).stream_id@ != jobs[at].stream_id@,
    ensures
        ({
            let after = with_hydration_retries(entries, jobs, readings, backoff);
            let id = jobs[at].stream_id@;
            &&& after.contains_key(id)
            &&& after[id].response_id == jobs[at].response_id
            &&& after[id].retry_at == readings[at] + backoff.nanos()
            &&& after[id].entry_source == EntrySource::Live
            &&& after[id].attempt == 1
            &&& !after[id].autoclaimed
            &&& after[id].idle_ms is None
            &&& after[id].pending_completion is None
        }),
    decreases jobs.len(),
{
    if at < jobs.len() - 1 {
        let last = jobs.len() - 1;
        assert(jobs[last].stream_id@ != jobs[at].stream_id@);
        assert forall|later: int| at < later < jobs.drop_last().len() implies (
        #[trigger] jobs.drop_last()[later]).stream_id@ != jobs.drop_last()[at].stream_id@ by {
            assert(jobs.drop_last()[later] == jobs[later]);
        }
        job_that_was_not_ready_is_remembered(
            entries,
            jobs.drop_last(),
            readings.drop_last(),
            backoff,
            at,
        );
    }
}

} // verus!
