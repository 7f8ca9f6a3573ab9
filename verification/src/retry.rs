//! The messages that wait for another attempt.
use std::time::Instant;

use vstd::prelude::*;

use crate::message::{EntrySource, QueueMessage, StoredResponse};
use crate::time::{clock_start, nanos_since, Backoff, MAX_CLOCK_NANOS};

verus! {

/// What is remembered of a message that waits for another attempt.
///
/// `retry_at` is the reading of the scheduler's clock, in nanoseconds, from
/// which on the message is due.
#[derive(Debug, PartialEq, Eq)]
pub struct PendingRetryEntry {
    pub response_id: String,
    pub retry_at: u128,
    pub autoclaimed: bool,
    pub idle_ms: Option<u64>,
    pub entry_source: EntrySource,
    pub attempt: u32,
    pub pending_completion: Option<StoredResponse>,
}

/// A message whose waiting time is over.
#[derive(Debug, PartialEq, Eq)]
pub struct DuePendingRetry {
    pub message: QueueMessage,
    pub entry_source: EntrySource,
    pub attempt: u32,
    pub pending_completion: Option<StoredResponse>,
}

/// An entry under the stream id that it belongs to.
#[derive(Debug)]
struct RetrySlot {
    stream_id: String,
    entry: PendingRetryEntry,
}

/// Remembers, for each stream id, at most one message that waits for another
/// attempt.
///
/// The view is the map from stream ids to what is remembered. Its clock counts
/// from the moment that it was made, and never goes back behind the reading
/// that was taken last to remember a message.
#[derive(Debug)]
pub struct PendingRetryScheduler {
    start: Instant,
    last: u128,
    slots: Vec<RetrySlot>,
}

/// Copies the completion that waits to be stored, if there is one.
pub(crate) fn clone_completion(completion: &Option<StoredResponse>) -> (copy: Option<
    StoredResponse,
>)
    ensures
        copy == *completion,
{
    match completion {
        Some(completion) => Some(completion.clone()),
        None => None,
    }
}

/// What is remembered of `message` when it is to be tried again from
/// `retry_at` on.
pub open spec fn retry_entry(
    message: QueueMessage,
    retry_at: nat,
    entry_source: EntrySource,
    attempt: u32,
    pending_completion: Option<StoredResponse>,
) -> PendingRetryEntry {
    PendingRetryEntry {
        response_id: message.response_id,
        retry_at: retry_at as u128,
        autoclaimed: message.autoclaimed,
        idle_ms: message.idle_ms,
        entry_source,
        attempt,
        pending_completion,
    }
}

/// Whether `due` is the message that is remembered as `entry` under `id`.
pub open spec fn is_retry_of(due: DuePendingRetry, id: Seq<char>, entry: PendingRetryEntry) -> bool {
    &&& due.message.stream_id@ == id
    &&& due.message.response_id == entry.response_id
    &&& due.message.idle_ms == entry.idle_ms
    &&& due.message.autoclaimed == entry.autoclaimed
    &&& due.entry_source == entry.entry_source
    &&& due.attempt == entry.attempt
    &&& due.pending_completion == entry.pending_completion
}

/// Whether something is remembered under `id` that is due at `now`.
pub open spec fn is_due(
    entries: Map<Seq<char>, PendingRetryEntry>,
    id: Seq<char>,
    now: nat,
) -> bool {
    entries.contains_key(id) && entries[id].retry_at <= now
}

/// Whether `due` lists exactly what is due at `now`, each stream id once, in
/// any order.
pub open spec fn lists_due(
    due: Seq<DuePendingRetry>,
    entries: Map<Seq<char>, PendingRetryEntry>,
    now: nat,
) -> bool {
    &&& forall|i: int|
        0 <= i < due.len() ==> {
            let id = (#[trigger] due[i]).message.stream_id@;
            is_due(entries, id, now) && is_retry_of(due[i], id, entries[id])
        }
    &&& forall|i: int, j: int|
        0 <= i < j < due.len() ==> (#[trigger] due[i]).message.stream_id@ != (
        #[trigger] due[j]).message.stream_id@
    &&& forall|id: Seq<char>| #[trigger]
        is_due(entries, id, now) ==> exists|i: int|
            0 <= i < due.len() && (#[trigger] due[i]).message.stream_id@ == id
}

/// Whether no stream id occurs twice.
spec fn ids_are_distinct(slots: Seq<RetrySlot>) -> bool {
    forall|i: int, j: int|
        0 <= i < j < slots.len() ==> (#[trigger] slots[i]).stream_id@ != (
        #[trigger] slots[j]).stream_id@
}

/// Whether a slot holds `id`.
spec fn holds_id(slots: Seq<RetrySlot>, id: Seq<char>) -> bool {
    exists|i: int| 0 <= i < slots.len() && (#[trigger] slots[i]).stream_id@ == id
}

/// The place of the slot that holds `id`.
spec fn place_of(slots: Seq<RetrySlot>, id: Seq<char>) -> int {
    choose|i: int| 0 <= i < slots.len() && (#[trigger] slots[i]).stream_id@ == id
}

/// The map that the slots stand for.
spec fn slots_map(slots: Seq<RetrySlot>) -> Map<Seq<char>, PendingRetryEntry> {
    Map::new(
        |id: Seq<char>| holds_id(slots, id),
        |id: Seq<char>| slots[place_of(slots, id)].entry,
    )
}

/// A slot of distinct ids is what the map gives for its id.
proof fn lemma_slot_in_map(slots: Seq<RetrySlot>, i: int)
    requires
        ids_are_distinct(slots),
        0 <= i < slots.len(),
    ensures
        place_of(slots, slots[i].stream_id@) == i,
        slots_map(slots).contains_key(slots[i].stream_id@),
        slots_map(slots)[slots[i].stream_id@] == slots[i].entry,
{
    let id = slots[i].stream_id@;
    assert(holds_id(slots, id));
    let place = place_of(slots, id);
    assert(0 <= place < slots.len() && slots[place].stream_id@ == id);
    if place < i {
        assert(slots[place].stream_id@ != slots[i].stream_id@);
    } else if i < place {
        assert(slots[i].stream_id@ != slots[place].stream_id@);
    }
}

/// Writing a slot over another of the same id inserts into the map.
proof fn lemma_overwrite_slot(slots: Seq<RetrySlot>, i: int, slot: RetrySlot)
    requires
        ids_are_distinct(slots),
        0 <= i < slots.len(),
        slot.stream_id@ == slots[i].stream_id@,
    ensures
        ids_are_distinct(slots.update(i, slot)),
        slots_map(slots.update(i, slot)) == slots_map(slots).insert(slot.stream_id@, slot.entry),
{
    let after = slots.update(i, slot);
    assert forall|a: int, b: int| 0 <= a < b < after.len() implies (#[trigger] after[a]).stream_id@
        != (#[trigger] after[b]).stream_id@ by {
        assert(slots[a].stream_id@ != slots[b].stream_id@);
    }
    let expected = slots_map(slots).insert(slot.stream_id@, slot.entry);
    assert forall|id: Seq<char>| holds_id(after, id) == expected.contains_key(id) by {
        if holds_id(after, id) {
            let k = place_of(after, id);
            assert(after[k].stream_id@ == id);
            assert(slots[k].stream_id@ == id);
        }
        if holds_id(slots, id) {
            let k = place_of(slots, id);
            assert(slots[k].stream_id@ == id);
            assert(after[k].stream_id@ == id);
        }
        assert(after[i].stream_id@ == slot.stream_id@);
    }
    assert forall|id: Seq<char>| holds_id(after, id) implies slots_map(after)[id] == expected[id] by {
        let k = place_of(after, id);
        assert(after[k].stream_id@ == id);
        assert(slots[k].stream_id@ == id);
        lemma_slot_in_map(slots, k);
        lemma_slot_in_map(after, i);
    }
    assert(slots_map(after) =~= expected);
}

/// Adding a slot of a new id inserts into the map.
proof fn lemma_push_slot(slots: Seq<RetrySlot>, slot: RetrySlot)
    requires
        ids_are_distinct(slots),
        !holds_id(slots, slot.stream_id@),
    ensures
        ids_are_distinct(slots.push(slot)),
        slots_map(slots.push(slot)) == slots_map(slots).insert(slot.stream_id@, slot.entry),
{
    let after = slots.push(slot);
    assert forall|a: int, b: int| 0 <= a < b < after.len() implies (#[trigger] after[a]).stream_id@
        != (#[trigger] after[b]).stream_id@ by {
        assert(after[a] == slots[a]);
        if b < slots.len() {
            assert(slots[a].stream_id@ != slots[b].stream_id@);
        }
    }
    let last = slots.len() as int;
    let expected = slots_map(slots).insert(slot.stream_id@, slot.entry);
    assert forall|id: Seq<char>| holds_id(after, id) == expected.contains_key(id) by {
        if holds_id(after, id) {
            let k = place_of(after, id);
            assert(after[k].stream_id@ == id);
            if k < last {
                assert(slots[k].stream_id@ == id);
            }
        }
        if holds_id(slots, id) {
            let k = place_of(slots, id);
            assert(slots[k].stream_id@ == id);
            assert(after[k].stream_id@ == id);
        }
        assert(after[last].stream_id@ == slot.stream_id@);
    }
    assert forall|id: Seq<char>| holds_id(after, id) implies slots_map(after)[id] == expected[id] by {
        let k = place_of(after, id);
        assert(after[k].stream_id@ == id);
        if k < last {
            assert(slots[k].stream_id@ == id);
            lemma_slot_in_map(slots, k);
        }
    }
    assert(slots_map(after) =~= expected);
}

/// Taking a slot out removes its id from the map.
proof fn lemma_remove_slot(slots: Seq<RetrySlot>, i: int)
    requires
        ids_are_distinct(slots),
        0 <= i < slots.len(),
    ensures
        ids_are_distinct(slots.remove(i)),
        slots_map(slots.remove(i)) == slots_map(slots).remove(slots[i].stream_id@),
{
    let after = slots.remove(i);
    let gone = slots[i].stream_id@;
    assert forall|a: int, b: int| 0 <= a < b < after.len() implies (#[trigger] after[a]).stream_id@
        != (#[trigger] after[b]).stream_id@ by {
        let from_a = if a < i { a } else { a + 1 };
        let from_b = if b < i { b } else { b + 1 };
        assert(slots[from_a].stream_id@ != slots[from_b].stream_id@);
    }
    let expected = slots_map(slots).remove(gone);
    assert forall|id: Seq<char>| holds_id(after, id) == expected.contains_key(id) by {
        if holds_id(after, id) {
            let k = place_of(after, id);
            assert(after[k].stream_id@ == id);
            let from = if k < i { k } else { k + 1 };
            assert(slots[from].stream_id@ == id);
            if from < i {
                assert(slots[from].stream_id@ != slots[i].stream_id@);
            } else {
                assert(slots[i].stream_id@ != slots[from].stream_id@);
            }
        }
        if holds_id(slots, id) && id != gone {
            let k = place_of(slots, id);
            assert(slots[k].stream_id@ == id);
            let to = if k < i { k } else { k - 1 };
            assert(after[to].stream_id@ == id);
        }
    }
    assert forall|id: Seq<char>| holds_id(after, id) implies slots_map(after)[id] == expected[id] by {
        let k = place_of(after, id);
        assert(after[k].stream_id@ == id);
        let from = if k < i { k } else { k + 1 };
        assert(slots[from] == after[k]);
        lemma_slot_in_map(slots, from);
    }
    assert(slots_map(after) =~= expected);
}

/// Whether `nanos` is an outcome of asking the machine's clock how long ago
/// `start` was.
pub closed spec fn clock_gave(start: Instant, nanos: u128) -> bool {
    call_ensures(nanos_since, (&start,), nanos)
}

/// Whether `now` is a reading of the clock that counts from `start` and stood at
/// `last` before: what the machine's clock gives, but never less than that.
pub open spec fn is_clock_reading(start: Instant, last: u128, now: u128) -> bool {
    now <= MAX_CLOCK_NANOS && exists|given: u128| #[trigger]
        clock_gave(start, given) && now == if given < last {
            last
        } else {
            given
        }
}

impl View for PendingRetryScheduler {
    type V = Map<Seq<char>, PendingRetryEntry>;

    closed spec fn view(&self) -> Map<Seq<char>, PendingRetryEntry> {
        slots_map(self.slots@)
    }
}

impl Default for PendingRetryScheduler {
    fn default() -> (scheduler: Self)
        ensures
            scheduler.last_reading() == 0,
            scheduler@ == Map::<Seq<char>, PendingRetryEntry>::empty(),
    {
        PendingRetryScheduler::new()
    }
}

impl PendingRetryScheduler {
    #[verifier::type_invariant]
    spec fn well_formed(self) -> bool {
        ids_are_distinct(self.slots@) && self.last <= MAX_CLOCK_NANOS
    }

    /// The moment from which this scheduler's clock counts.
    pub closed spec fn started_at(self) -> Instant {
        self.start
    }

    /// The reading of its clock at which this scheduler was last asked to
    /// remember a message.
    pub closed spec fn last_reading(self) -> u128 {
        self.last
    }

    /// Whether `now` is a reading of this scheduler's clock.
    pub open spec fn is_reading(self, now: u128) -> bool {
        is_clock_reading(self.started_at(), self.last_reading(), now)
    }

    /// Whether the clock of `other` is this one, at the same last reading.
    pub open spec fn same_clock(self, other: PendingRetryScheduler) -> bool {
        self.started_at() == other.started_at() && self.last_reading() == other.last_reading()
    }

    /// A scheduler that remembers nothing.
    pub fn new() -> (scheduler: PendingRetryScheduler)
        ensures
            scheduler.last_reading() == 0,
            scheduler@ == Map::<Seq<char>, PendingRetryEntry>::empty(),
    {
        let scheduler = PendingRetryScheduler { start: clock_start(), last: 0, slots: Vec::new() };
        assert(scheduler@ =~= Map::<Seq<char>, PendingRetryEntry>::empty());
        scheduler
    }

    /// The place of the slot that holds `stream_id`, or the number of slots.
    fn find(slots: &Vec<RetrySlot>, stream_id: &String) -> (place: usize)
        ensures
            place <= slots.len(),
            place < slots.len() ==> slots[place as int].stream_id@ == stream_id@,
            place == slots.len() ==> !holds_id(slots@, stream_id@),
    {
        let mut place: usize = 0;
        while place < slots.len()
            invariant
                place <= slots.len(),
                forall|i: int| 0 <= i < place ==> (#[trigger] slots[i]).stream_id@ != stream_id@,
            decreases slots.len() - place,
        {
            if slots[place].stream_id == *stream_id {
                return place;
            }
            place = place + 1;
        }
        place
    }

    /// Remembers `message` for another attempt `backoff` after the clock
    /// reading `now`, in place of whatever was remembered of its stream id.
    pub fn schedule_at(
        &mut self,
        now: u128,
        message: &QueueMessage,
        backoff: Backoff,
        entry_source: EntrySource,
        attempt: u32,
        pending_completion: Option<StoredResponse>,
    )
        requires
            now <= MAX_CLOCK_NANOS,
        ensures
            final(self).same_clock(*old(self)),
            final(self)@ == old(self)@.insert(
                message.stream_id@,
                retry_entry(
                    *message,
                    now as nat + backoff.nanos(),
                    entry_source,
                    attempt,
                    pending_completion,
                ),
            ),
    {
        proof {
            use_type_invariant(&*self);
        }
        let mut slots: Vec<RetrySlot> = Vec::new();
        std::mem::swap(&mut slots, &mut self.slots);
        let ghost before = slots@;
        let slot = RetrySlot {
            stream_id: message.stream_id.clone(),
            entry: PendingRetryEntry {
                response_id: message.response_id.clone(),
                retry_at: now + backoff.as_nanos(),
                autoclaimed: message.autoclaimed,
                idle_ms: message.idle_ms,
                entry_source,
                attempt,
                pending_completion,
            },
        };
        let place: usize = Self::find(&slots, &message.stream_id);
        if place < slots.len() {
            proof {
                lemma_overwrite_slot(before, place as int, slot);
            }
            slots.set(place, slot);
        } else {
            proof {
                lemma_push_slot(before, slot);
            }
            slots.push(slot);
        }
        self.slots = slots;
    }

    /// Remembers `message` for another attempt `backoff` from now, in place of
    /// whatever was remembered of its stream id.
    ///
    /// The moment is a reading of this scheduler's clock, which is its last
    /// reading from then on.
    pub fn schedule(
        &mut self,
        message: &QueueMessage,
        backoff: Backoff,
        entry_source: EntrySource,
        attempt: u32,
        pending_completion: Option<StoredResponse>,
    )
        ensures
            final(self).started_at() == old(self).started_at(),
            old(self).is_reading(final(self).last_reading()),
            final(self)@ == old(self)@.insert(
                message.stream_id@,
                retry_entry(
                    *message,
                    final(self).last_reading() as nat + backoff.nanos(),
                    entry_source,
                    attempt,
                    pending_completion,
                ),
            ),
    {
        let now: u128 = self.now();
        proof {
            use_type_invariant(&*self);
        }
        self.last = now;
        self.schedule_at(now, message, backoff, entry_source, attempt, pending_completion);
    }

    /// The reading of this scheduler's clock: the nanoseconds since it was made,
    /// but never less than the last reading.
    fn now(&self) -> (now: u128)
        ensures
            self.is_reading(now),
    {
        proof {
            use_type_invariant(self);
        }
        let given: u128 = nanos_since(&self.start);
        assert(clock_gave(self.started_at(), given));
        if given < self.last {
            self.last
        } else {
            given
        }
    }

    /// What is remembered of the message with this stream id.
    pub fn get(&self, stream_id: &str) -> (entry: Option<&PendingRetryEntry>)
        ensures
            match entry {
                Some(entry) => self@.contains_key(stream_id@) && *entry == self@[stream_id@],
                None => !self@.contains_key(stream_id@),
            },
    {
        proof {
            use_type_invariant(self);
        }
        let place: usize = Self::find(&self.slots, &stream_id.to_owned());
        if place < self.slots.len() {
            proof {
                lemma_slot_in_map(self.slots@, place as int);
            }
            Some(&self.slots[place].entry)
        } else {
            None
        }
    }

    /// Forgets the message with this stream id.
    pub fn remove(&mut self, stream_id: &str)
        ensures
            final(self).same_clock(*old(self)),
            final(self)@ == old(self)@.remove(stream_id@),
    {
        proof {
            use_type_invariant(&*self);
        }
        let mut slots: Vec<RetrySlot> = Vec::new();
        std::mem::swap(&mut slots, &mut self.slots);
        let place: usize = Self::find(&slots, &stream_id.to_owned());
        if place < slots.len() {
            proof {
                lemma_remove_slot(slots@, place as int);
            }
            slots.remove(place);
        } else {
            assert(slots_map(slots@).remove(stream_id@) =~= slots_map(slots@));
        }
        self.slots = slots;
    }

    /// The messages that are due at the clock reading `now`.
    pub fn due_retries_at(&self, now: u128) -> (due: Vec<DuePendingRetry>)
        ensures
            lists_due(due@, self@, now as nat),
    {
        proof {
            use_type_invariant(self);
        }
        let mut due: Vec<DuePendingRetry> = Vec::new();
        let ghost mut places: Seq<int> = Seq::empty();
        let mut at: usize = 0;
        while at < self.slots.len()
            invariant
                at <= self.slots.len(),
                ids_are_distinct(self.slots@),
                places.len() == due.len(),
                forall|i: int|
                    0 <= i < due.len() ==> {
                        let place = #[trigger] places[i];
                        &&& 0 <= place < at
                        &&& self.slots[place].entry.retry_at <= now
                        &&& is_retry_of(
                            due[i],
                            self.slots[place].stream_id@,
                            self.slots[place].entry,
                        )
                    },
                forall|i: int, j: int|
                    0 <= i < j < due.len() ==> #[trigger] places[i] < #[trigger] places[j],
                forall|k: int|
                    0 <= k < at && (#[trigger] self.slots[k]).entry.retry_at <= now
                        ==> places.contains(k),
            decreases self.slots.len() - at,
        {
            let slot = &self.slots[at];
            let ghost before = places;
            if slot.entry.retry_at <= now {
                due.push(
                    DuePendingRetry {
                        message: QueueMessage {
                            stream_id: slot.stream_id.clone(),
                            response_id: slot.entry.response_id.clone(),
                            idle_ms: slot.entry.idle_ms,
                            autoclaimed: slot.entry.autoclaimed,
                        },
                        entry_source: slot.entry.entry_source,
                        attempt: slot.entry.attempt,
                        pending_completion: clone_completion(&slot.entry.pending_completion),
                    },
                );
                proof {
                    places = places.push(at as int);
                    assert(places[before.len() as int] == at);
                    assert forall|k: int|
                        0 <= k < at + 1 && (#[trigger] self.slots[k]).entry.retry_at
                            <= now implies places.contains(k) by {
                        if k < at {
                            let w = before.index_of(k);
                            assert(before.contains(k));
                            assert(places[w] == k);
                        }
                    }
                }
            }
            at = at + 1;
        }
        proof {
            let slots = self.slots@;
            assert forall|i: int| 0 <= i < due.len() implies {
                let id = (#[trigger] due[i]).message.stream_id@;
                is_due(self@, id, now as nat) && is_retry_of(due[i], id, self@[id])
            } by {
                lemma_slot_in_map(slots, places[i]);
            }
            assert forall|i: int, j: int| 0 <= i < j < due.len() implies (
            #[trigger] due[i]).message.stream_id@ != (#[trigger] due[j]).message.stream_id@ by {
                assert(places[i] < places[j]);
                assert(slots[places[i]].stream_id@ != slots[places[j]].stream_id@);
            }
            assert forall|id: Seq<char>| #[trigger]
                is_due(self@, id, now as nat) implies exists|i: int|
                0 <= i < due.len() && (#[trigger] due[i]).message.stream_id@ == id by {
                let k = place_of(slots, id);
                assert(slots[k].stream_id@ == id);
                lemma_slot_in_map(slots, k);
                assert(places.contains(k));
                let i = places.index_of(k);
                assert(places[i] == k);
                assert(due[i].message.stream_id@ == id);
            }
        }
        due
    }

    /// The messages that are due now.
    ///
    /// The moment is a reading of this scheduler's clock.
    pub fn due_retries(&self) -> (due: Vec<DuePendingRetry>)
        ensures
            exists|now: u128| #[trigger]
                self.is_reading(now) && lists_due(due@, self@, now as nat),
    {
        let now: u128 = self.now();
        self.due_retries_at(now)
    }
}

/// A message that is remembered is due from its moment on, and remembering it
/// changes nothing for the others.
pub proof fn remembered_message_is_due_from_its_moment_on(
    entries: Map<Seq<char>, PendingRetryEntry>,
    message: QueueMessage,
    retry_at: nat,
    entry_source: EntrySource,
    attempt: u32,
    pending_completion: Option<StoredResponse>,
    now: nat,
)
    requires
        retry_at <= u128::MAX,
    ensures
        ({
            let after = entries.insert(
                message.stream_id@,
                retry_entry(message, retry_at, entry_source, attempt, pending_completion),
            );
            &&& is_due(after, message.stream_id@, now) <==> now >= retry_at
            &&& forall|id: Seq<char>|
                id != message.stream_id@ ==> #[trigger] is_due(after, id, now) == is_due(
                    entries,
                    id,
                    now,
                )
        }),
{
}

/// A message is found due when its waiting time is over on the scheduler's own
/// clock, and not before; with no waiting time, at the very next look. It is
/// then found once, as it was remembered.
///
/// `after` is the scheduler once the message was remembered, `looked_at` the
/// reading at which it is asked and `due` what it then finds.
pub proof fn message_is_due_once_its_waiting_time_is_over(
    before: PendingRetryScheduler,
    after: PendingRetryScheduler,
    message: QueueMessage,
    backoff: Backoff,
    entry_source: EntrySource,
    attempt: u32,
    pending_completion: Option<StoredResponse>,
    looked_at: u128,
    due: Seq<DuePendingRetry>,
)
    requires
        before.is_reading(after.last_reading()),
        after@ == before@.insert(
            message.stream_id@,
            retry_entry(
                message,
                after.last_reading() as nat + backoff.nanos(),
                entry_source,
                attempt,
                pending_completion,
            ),
        ),
        after.is_reading(looked_at),
        lists_due(due, after@, looked_at as nat),
    ensures
        before.last_reading() <= after.last_reading() <= looked_at,
        backoff.nanos() == 0 ==> found_once(
            due,
            message.stream_id@,
            after@[message.stream_id@],
        ),
        looked_at >= after.last_reading() + backoff.nanos() ==> found_once(
            due,
            message.stream_id@,
            after@[message.stream_id@],
        ),
        looked_at < after.last_reading() + backoff.nanos() ==> forall|i: int|
            0 <= i < due.len() ==> (#[trigger] due[i]).message.stream_id@ != message.stream_id@,
{
    let id = message.stream_id@;
    assert(after@.contains_key(id));
    if looked_at >= after.last_reading() + backoff.nanos() {
        lemma_due_is_found_once(due, after@, looked_at as nat, id);
    } else {
        assert(!is_due(after@, id, looked_at as nat));
    }
}

/// Whether exactly one of `due` has this stream id, and is the message that is
/// remembered as `entry` under it.
pub open spec fn found_once(
    due: Seq<DuePendingRetry>,
    id: Seq<char>,
    entry: PendingRetryEntry,
) -> bool {
    exists|i: int|
        0 <= i < due.len() && is_retry_of(#[trigger] due[i], id, entry) && forall|j: int|
            0 <= j < due.len() && j != i ==> (#[trigger] due[j]).message.stream_id@ != id
}

/// What is due is found once.
proof fn lemma_due_is_found_once(
    due: Seq<DuePendingRetry>,
    entries: Map<Seq<char>, PendingRetryEntry>,
    now: nat,
    id: Seq<char>,
)
    requires
        lists_due(due, entries, now),
        is_due(entries, id, now),
    ensures
        found_once(due, id, entries[id]),
{
    let i = choose|i: int| 0 <= i < due.len() && (#[trigger] due[i]).message.stream_id@ == id;
    assert(is_retry_of(due[i], id, entries[id]));
    assert forall|j: int| 0 <= j < due.len() && j != i implies (
    #[trigger] due[j]).message.stream_id@ != id by {
        if j < i {
            assert(due[j].message.stream_id@ != due[i].message.stream_id@);
        } else {
            assert(due[i].message.stream_id@ != due[j].message.stream_id@);
        }
    }
}

/// A message that is remembered a second time is remembered only as it was the
/// second time.
pub proof fn remembering_again_replaces(
    entries: Map<Seq<char>, PendingRetryEntry>,
    id: Seq<char>,
    first: PendingRetryEntry,
    second: PendingRetryEntry,
)
    ensures
        entries.insert(id, first).insert(id, second) == entries.insert(id, second),
{
    assert(entries.insert(id, first).insert(id, second) =~= entries.insert(id, second));
}

/// A message that was forgotten is not due, whenever one looks, and forgetting
/// it undoes that it was remembered.
pub proof fn forgotten_message_is_never_due(
    entries: Map<Seq<char>, PendingRetryEntry>,
    id: Seq<char>,
    entry: PendingRetryEntry,
    now: nat,
)
    ensures
        !is_due(entries.remove(id), id, now),
        !entries.contains_key(id) ==> entries.insert(id, entry).remove(id) == entries,
{
    if !entries.contains_key(id) {
        assert(entries.insert(id, entry).remove(id) =~= entries);
    }
}

/// A reading of the clock is what the machine's clock gave, unless that lies
/// behind the last reading, which is then kept.
pub(crate) proof fn readings_come_from_the_clock(start: Instant, last: u128, now: u128)
    requires
        is_clock_reading(start, last, now),
    ensures
        last <= now <= MAX_CLOCK_NANOS,
        exists|given: u128|
            call_ensures(nanos_since, (&start,), given) && (given >= last ==> now == given) && (
            given < last ==> now == last) && #[trigger] clock_gave(start, given),
{
}

/// Two schedulers have the same clock if they count from the same moment and
/// stand at the same last reading.
pub proof fn clocks_are_the_same_in_start_and_reading(
    one: PendingRetryScheduler,
    other: PendingRetryScheduler,
)
    ensures
        one.same_clock(other) <==> one.started_at() == other.started_at() && one.last_reading()
            == other.last_reading(),
{
}

/// What a message is remembered as keeps its response, its idle time and
/// whether it was taken over, and what was said of it: its moment, its source,
/// its attempt and the completed response that waits to be stored.
pub proof fn remembered_entry_keeps_the_message(
    message: QueueMessage,
    retry_at: nat,
    entry_source: EntrySource,
    attempt: u32,
    pending_completion: Option<StoredResponse>,
)
    requires
        retry_at <= u128::MAX,
    ensures
        ({
            let entry = retry_entry(message, retry_at, entry_source, attempt, pending_completion);
            &&& entry.response_id == message.response_id
            &&& entry.idle_ms == message.idle_ms
            &&& entry.autoclaimed == message.autoclaimed
            &&& entry.retry_at == retry_at
            &&& entry.entry_source == entry_source
            &&& entry.attempt == attempt
            &&& entry.pending_completion == pending_completion
        }),
{
}

/// A stream id is found exactly if something is remembered under it whose
/// moment has come. It is found once, and with all that is remembered.
pub proof fn due_messages_are_those_whose_moment_has_come(
    due: Seq<DuePendingRetry>,
    entries: Map<Seq<char>, PendingRetryEntry>,
    now: nat,
)
    requires
        lists_due(due, entries, now),
    ensures
        forall|id: Seq<char>|
            #![trigger entries.contains_key(id)]
            (exists|i: int| 0 <= i < due.len() && (#[trigger] due[i]).message.stream_id@ == id)
                <==> entries.contains_key(id) && entries[id].retry_at <= now,
        forall|i: int|
            0 <= i < due.len() ==> {
                let found = #[trigger] due[i];
                let entry = entries[found.message.stream_id@];
                &&& found.message.response_id == entry.response_id
                &&& found.message.idle_ms == entry.idle_ms
                &&& found.message.autoclaimed == entry.autoclaimed
                &&& found.entry_source == entry.entry_source
                &&& found.attempt == entry.attempt
                &&& found.pending_completion == entry.pending_completion
            },
        forall|i: int, j: int|
            0 <= i < due.len() && 0 <= j < due.len() && (#[trigger] due[i]).message.stream_id@ == (
            #[trigger] due[j]).message.stream_id@ ==> i == j,
{
    assert forall|id: Seq<char>|
        #![trigger entries.contains_key(id)]
        (exists|i: int| 0 <= i < due.len() && (#[trigger] due[i]).message.stream_id@ == id)
            <==> entries.contains_key(id) && entries[id].retry_at <= now by {
        if entries.contains_key(id) && entries[id].retry_at <= now {
            assert(is_due(entries, id, now));
        }
        if exists|i: int| 0 <= i < due.len() && (#[trigger] due[i]).message.stream_id@ == id {
            let i = choose|i: int|
                0 <= i < due.len() && (#[trigger] due[i]).message.stream_id@ == id;
            assert(is_due(entries, due[i].message.stream_id@, now));
        }
    }
    assert forall|i: int, j: int|
        0 <= i < due.len() && 0 <= j < due.len() && (#[trigger] due[i]).message.stream_id@ == (
        #[trigger] due[j]).message.stream_id@ implies i == j by {
        if i < j {
            assert(due[i].message.stream_id@ != due[j].message.stream_id@);
        } else if j < i {
            assert(due[j].message.stream_id@ != due[i].message.stream_id@);
        }
    }
}

} // verus!
