//! How often a message is tried, and when its owner is given up on.
use vstd::prelude::*;

use crate::arith::{ceil_div, ceil_div_is_least, div_ceil};
use crate::message::EntrySource;
use crate::retry::DuePendingRetry;
use crate::time::Backoff;

verus! {

/// The number of the attempt that follows the attempt `current`; the first
/// one has the number one.
pub open spec fn following_attempt(current: Option<u32>) -> u32 {
    match current {
        Some(attempt) => if attempt < u32::MAX {
            (attempt + 1) as u32
        } else {
            u32::MAX
        },
        None => 1,
    }
}

/// The number of the attempt that follows the attempt `current`.
pub fn next_retry_attempt(current: Option<u32>) -> (next: u32)
    ensures
        next == following_attempt(current),
{
    match current {
        Some(attempt) => attempt.saturating_add(1),
        None => 1,
    }
}

/// The milliseconds between two attempts: the waiting time, at least one, as
/// far as a `u64` holds it.
pub open spec fn retry_window_ms(backoff: Backoff) -> nat {
    (if backoff.millis() < 1 {
        1
    } else {
        backoff.millis()
    }) % 0x1_0000_0000_0000_0000
}

/// The number of attempts, at least one, whose waiting times fill the idle
/// time `autoclaim_min_idle_ms`, as far as a `u32` holds it.
pub open spec fn attempts_to_fill(autoclaim_min_idle_ms: nat, window_ms: nat) -> u32 {
    let attempts = ceil_div(autoclaim_min_idle_ms, window_ms);
    ((if attempts < 1 {
        1
    } else {
        attempts
    }) % 0x1_0000_0000) as u32
}

/// Whether attempts can be counted with this waiting time: whether the
/// milliseconds between two of them, as far as a `u64` holds them, are not
/// nothing.
pub fn has_retry_window(backoff: Backoff) -> (usable: bool)
    ensures
        usable == (retry_window_ms(backoff) != 0),
{
    let millis: u128 = backoff.as_millis();
    millis == 0 || millis % 0x1_0000_0000_0000_0000 != 0
}

/// The number of attempts from which on a message counts as taken over.
pub fn max_pending_retry_attempts(autoclaim_min_idle_ms: usize, backoff: Backoff) -> (attempts: u32)
    requires
        retry_window_ms(backoff) != 0,
    ensures
        attempts == attempts_to_fill(autoclaim_min_idle_ms as nat, retry_window_ms(backoff)),
{
    let millis: u128 = backoff.as_millis();
    let at_least_one: u128 = if millis < 1 {
        1
    } else {
        millis
    };
    let window_ms: u64 = (at_least_one % 0x1_0000_0000_0000_0000) as u64;
    let attempts: u64 = div_ceil(autoclaim_min_idle_ms as u64, window_ms);
    let attempts_at_least_one: u64 = if attempts < 1 {
        1
    } else {
        attempts
    };
    (attempts_at_least_one % 0x1_0000_0000) as u32
}

/// Where a message comes from when it is tried again for the `attempt`th time:
/// once the attempts have filled the idle time, from a consumer that left it.
pub open spec fn retried_source(
    source: EntrySource,
    attempt: u32,
    autoclaim_min_idle_ms: nat,
    backoff: Backoff,
) -> EntrySource {
    if attempt >= attempts_to_fill(autoclaim_min_idle_ms, retry_window_ms(backoff)) {
        EntrySource::Autoclaimed
    } else {
        source
    }
}

/// Where the message of `due` comes from, now that it is tried again.
pub fn entry_source_for_pending_retry(
    due: &DuePendingRetry,
    autoclaim_min_idle_ms: usize,
    backoff: Backoff,
) -> (source: EntrySource)
    requires
        retry_window_ms(backoff) != 0,
    ensures
        source == retried_source(
            due.entry_source,
            due.attempt,
            autoclaim_min_idle_ms as nat,
            backoff,
        ),
{
    if due.attempt >= max_pending_retry_attempts(autoclaim_min_idle_ms, backoff) {
        EntrySource::Autoclaimed
    } else {
        due.entry_source
    }
}

/// The attempt number of a message after `failures` attempts have failed.
pub open spec fn attempt_after(failures: nat) -> Option<u32>
    decreases failures,
{
    if failures == 0 {
        None
    } else {
        Some(following_attempt(attempt_after((failures - 1) as nat)))
    }
}

/// The attempt number counts the failures, up to the largest `u32`.
pub proof fn attempts_count_failures(failures: nat)
    requires
        failures > 0,
    ensures
        attempt_after(failures) == Some(
            if failures <= u32::MAX {
                failures as u32
            } else {
                u32::MAX
            },
        ),
    decreases failures,
{
    if failures > 1 {
        attempts_count_failures((failures - 1) as nat);
    } else {
        assert(attempt_after(0) is None);
    }
}

/// A message counts as taken over exactly when the times between its attempts
/// have filled the idle time after which other consumers may take it, as long
/// as the number of attempts that this takes fits in a `u32`.
pub proof fn escalation_fills_idle_window(
    source: EntrySource,
    attempt: u32,
    autoclaim_min_idle_ms: nat,
    backoff: Backoff,
)
    requires
        attempt >= 1 || autoclaim_min_idle_ms >= 1,
        retry_window_ms(backoff) != 0,
        ceil_div(autoclaim_min_idle_ms, retry_window_ms(backoff)) < 0x1_0000_0000,
    ensures
        attempt * retry_window_ms(backoff) >= autoclaim_min_idle_ms ==> retried_source(
            source,
            attempt,
            autoclaim_min_idle_ms,
            backoff,
        ) == EntrySource::Autoclaimed,
        attempt * retry_window_ms(backoff) < autoclaim_min_idle_ms ==> retried_source(
            source,
            attempt,
            autoclaim_min_idle_ms,
            backoff,
        ) == source,
{
    ceil_div_is_least(autoclaim_min_idle_ms, retry_window_ms(backoff), attempt as nat);
    assert(0 * retry_window_ms(backoff) == 0);
}

/// The time between two attempts is the waiting time in milliseconds, where
/// that is at least one and fits in a `u64`.
pub proof fn retry_window_is_the_waiting_time(backoff: Backoff)
    requires
        1 <= backoff.millis() < 0x1_0000_0000_0000_0000,
    ensures
        retry_window_ms(backoff) == backoff.millis(),
{
}

/// A message that counts as taken over in one attempt counts as taken over in
/// every later one, whether that starts from where the message came from at
/// first or from where it is taken to come from since.
pub proof fn escalation_is_permanent(
    source: EntrySource,
    attempt: u32,
    later: u32,
    autoclaim_min_idle_ms: nat,
    backoff: Backoff,
)
    requires
        attempt <= later,
        retried_source(source, attempt, autoclaim_min_idle_ms, backoff) == EntrySource::Autoclaimed,
    ensures
        retried_source(source, later, autoclaim_min_idle_ms, backoff) == EntrySource::Autoclaimed,
        retried_source(
            retried_source(source, attempt, autoclaim_min_idle_ms, backoff),
            later,
            autoclaim_min_idle_ms,
            backoff,
        ) == EntrySource::Autoclaimed,
{
}

/// A message that keeps failing counts as taken over once the times between
/// its attempts have filled the idle time, as long as the numbers of attempts
/// fit in a `u32`.
pub proof fn repeated_failures_escalate(
    source: EntrySource,
    failures: nat,
    autoclaim_min_idle_ms: nat,
    backoff: Backoff,
)
    requires
        1 <= failures <= u32::MAX,
        retry_window_ms(backoff) != 0,
        ceil_div(autoclaim_min_idle_ms, retry_window_ms(backoff)) < 0x1_0000_0000,
        failures * retry_window_ms(backoff) >= autoclaim_min_idle_ms,
    ensures
        attempt_after(failures) is Some,
        retried_source(source, attempt_after(failures)->0, autoclaim_min_idle_ms, backoff)
            == EntrySource::Autoclaimed,
{
    attempts_count_failures(failures);
    escalation_fills_idle_window(source, failures as u32, autoclaim_min_idle_ms, backoff);
}

/// The attempt after a given one has the next number, and the first attempt has
/// the number one; the largest number is kept.
pub proof fn attempts_are_numbered_in_order(attempt: u32)
    ensures
        following_attempt(None) == 1,
        attempt < u32::MAX ==> following_attempt(Some(attempt)) - attempt == 1,
        attempt == u32::MAX ==> following_attempt(Some(attempt)) == attempt,
{
}

/// The time between two attempts is one millisecond where there is no whole one
/// to wait, and otherwise differs from the waiting time by a multiple of what a
/// `u64` can count.
pub proof fn retry_window_keeps_the_waiting_time(backoff: Backoff)
    ensures
        backoff.nanos() < 1_000_000 ==> retry_window_ms(backoff) == 1,
        retry_window_ms(backoff) <= u64::MAX,
        backoff.nanos() >= 1_000_000 ==> (backoff.millis() - retry_window_ms(backoff)) % (u64::MAX
            + 1) == 0,
{
    crate::time::waiting_time_in_its_units(backoff);
    if backoff.millis() >= 1 {
        let whole = backoff.millis() as int;
        let unit = u64::MAX + 1;
        vstd::arithmetic::div_mod::lemma_fundamental_div_mod(whole, unit);
        let times = whole / unit;
        assert(whole - retry_window_ms(backoff) == times * unit) by {
            assert(unit * times == times * unit) by (nonlinear_arith);
        }
        vstd::arithmetic::div_mod::lemma_mod_multiples_basic(times, unit);
    }
}

/// The number of attempts is the least one, but not nothing, whose times reach
/// the idle time, where it fits in a `u32`. Elsewhere it differs from the
/// rounded-up quotient by a multiple of what a `u32` can count.
pub proof fn attempts_reach_the_idle_time(autoclaim_min_idle_ms: nat, window_ms: nat)
    requires
        window_ms > 0,
    ensures
        autoclaim_min_idle_ms <= u32::MAX * window_ms ==> {
            let attempts = attempts_to_fill(autoclaim_min_idle_ms, window_ms);
            &&& attempts >= 1
            &&& attempts * window_ms >= autoclaim_min_idle_ms
            &&& attempts > 1 ==> (attempts - 1) * window_ms < autoclaim_min_idle_ms
        },
        autoclaim_min_idle_ms > 0 ==> (ceil_div(autoclaim_min_idle_ms, window_ms)
            - attempts_to_fill(autoclaim_min_idle_ms, window_ms)) % (u32::MAX + 1) == 0,
{
    let quotient = ceil_div(autoclaim_min_idle_ms, window_ms);
    ceil_div_is_least(autoclaim_min_idle_ms, window_ms, u32::MAX as nat);
    ceil_div_is_least(autoclaim_min_idle_ms, window_ms, quotient);
    ceil_div_is_least(autoclaim_min_idle_ms, window_ms, 0);
    ceil_div_is_least(autoclaim_min_idle_ms, window_ms, 1);
    assert(0 * window_ms == 0);
    assert(1 * window_ms == window_ms);
    if quotient >= 1 {
        ceil_div_is_least(autoclaim_min_idle_ms, window_ms, (quotient - 1) as nat);
    }
    if autoclaim_min_idle_ms > 0 {
        let whole = quotient as int;
        let unit = u32::MAX + 1;
        vstd::arithmetic::div_mod::lemma_fundamental_div_mod(whole, unit);
        let times = whole / unit;
        assert(unit * times == times * unit) by (nonlinear_arith);
        assert(whole - attempts_to_fill(autoclaim_min_idle_ms, window_ms) == times * unit);
        vstd::arithmetic::div_mod::lemma_mod_multiples_basic(times, unit);
    }
}

/// A message keeps the source that it had until its attempts reach the limit,
/// and counts as taken over from then on.
pub proof fn source_changes_at_the_limit(
    source: EntrySource,
    attempt: u32,
    autoclaim_min_idle_ms: nat,
    backoff: Backoff,
)
    ensures
        ({
            let limit = attempts_to_fill(autoclaim_min_idle_ms, retry_window_ms(backoff));
            let retried = retried_source(source, attempt, autoclaim_min_idle_ms, backoff);
            &&& attempt < limit ==> retried == source
            &&& attempt >= limit ==> retried == EntrySource::Autoclaimed
        }),
{
}

} // verus!
