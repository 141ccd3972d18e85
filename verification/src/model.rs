//! An ideal key-value store, a whole operation carried out against it, and
//! what then holds of the cache.
//!
//! The store applies each command at once and as a whole, keeps a clock, and
//! forgets an entry when its time to live has elapsed. The laws below speak of
//! operations whose effects are performed faithfully: the command that a step
//! names is the one that reaches the store, and the store's answer is the one
//! handed to the next step.

use vstd::prelude::*;

use crate::keys::{
    lemma_plain_key_same_type, lemma_scoped_key_same_type, plain_key_spec, scoped_key_spec,
};
use crate::protocol::{settle, CacheErrorKind, IntentView, OperationView, OutcomeView, StepView};
use crate::stats::StatsView;
use crate::wire::RequestView;

verus! {

/// A stored payload, and the time at which it expires, if it does.
pub struct Entry {
    pub value: Seq<u8>,
    pub expires_at: Option<nat>,
}

/// The key-value store: its entries, and its clock in seconds.
pub struct Store {
    pub entries: Map<Seq<char>, Entry>,
    pub now: nat,
}

impl Store {
    /// Whether the store holds a live entry at `key`.
    pub open spec fn holds(self, key: Seq<char>) -> bool {
        self.entries.contains_key(key) && match self.entries[key].expires_at {
            Some(time) => self.now < time,
            None => true,
        }
    }

    /// The answer to `GET key`: the entry's payload, or no bytes at all where
    /// the store holds no live entry.
    pub open spec fn read(self, key: Seq<char>) -> Seq<u8> {
        if self.holds(key) {
            self.entries[key].value
        } else {
            Seq::empty()
        }
    }

    /// The store after a command. A write replaces the entry as a whole; the
    /// time to live counts from the write, and a read does not renew it.
    pub open spec fn apply(self, request: RequestView) -> Store {
        match request {
            RequestView::Get { .. } => self,
            RequestView::SetEx { key, ttl, value } => Store {
                entries: self.entries.insert(
                    key,
                    Entry { value, expires_at: Some(self.now + ttl) },
                ),
                now: self.now,
            },
            RequestView::Persist { key, value } => Store {
                entries: self.entries.insert(key, Entry { value, expires_at: None }),
                now: self.now,
            },
            RequestView::Del { key } => Store {
                entries: self.entries.remove(key),
                now: self.now,
            },
        }
    }

    /// The store after `seconds` more seconds.
    pub open spec fn later(self, seconds: nat) -> Store {
        Store { entries: self.entries, now: self.now + seconds }
    }
}

/// What surrounds an operation: whether the pool gives a connection, whether
/// the store fails the commands that it is sent, what the serializer makes of
/// the value to write (`None` if it fails), and which payloads deserialize to
/// the type that a read asks for.
pub struct Surroundings {
    pub reachable: bool,
    pub failing: bool,
    pub encoded: Option<Seq<u8>>,
    pub decodable: Set<Seq<u8>>,
}

impl Surroundings {
    /// A store that can be reached and answers, a value that serializes to
    /// `payload`, and a decoder that accepts the payloads in `decodable`.
    pub open spec fn sound(payload: Seq<u8>, decodable: Set<Seq<u8>>) -> Surroundings {
        Surroundings { reachable: true, failing: false, encoded: Some(payload), decodable }
    }
}

/// One step of an operation: the effect that the step names is performed,
/// as a whole, and its result is handed to the step. A command that is sent
/// reaches the store and is answered by it, unless the store fails it, which
/// leaves the store as it was.
pub open spec fn advance(step: StepView, around: Surroundings, store: Store) -> (StepView, Store) {
    match step {
        StepView::Encode { .. } => (step.encoded(around.encoded), store),
        StepView::Connect { .. } => (step.connected(around.reachable), store),
        StepView::Read { key, .. } => if around.failing {
            (step.read_replied(None), store)
        } else {
            (step.read_replied(Some(store.read(key))), store)
        },
        StepView::Write { request } => if around.failing {
            (step.write_replied(false), store)
        } else {
            (step.write_replied(true), store.apply(request))
        },
        StepView::Decode { payload, .. } => (
            step.decoded(around.decodable.contains(payload)),
            store,
        ),
        StepView::Done(_) => (step, store),
    }
}

/// An operation on its way: the step it has reached, the store, and the
/// statistics.
pub struct Run {
    pub last: StepView,
    pub store: Store,
    pub stats: StatsView,
}

impl Run {
    /// The operation's outcome.
    pub open spec fn outcome(self) -> OutcomeView
        recommends
            self.last is Done,
    {
        self.last->Done_0
    }

    /// The operation one step further.
    pub open spec fn proceed(self, around: Surroundings) -> Run {
        let (next, store) = advance(self.last, around, self.store);
        Run { last: next, store, stats: settle(self.stats, self.last.counted(), next) }
    }
}

/// A whole operation against the store, from its first step to its end,
/// which it reaches after three steps at most.
pub open spec fn run(
    op: OperationView,
    enabled: bool,
    ttl: nat,
    around: Surroundings,
    store: Store,
    stats: StatsView,
) -> Run {
    let begun = op.begin(enabled, ttl);
    let start = Run { last: begun, store, stats: settle(stats, op.counted(), begun) };
    start.proceed(around).proceed(around).proceed(around)
}

/// Two operations against one store, their steps interleaved: the first
/// operation takes a step wherever the schedule says `true`, the second
/// wherever it says `false`.
pub open spec fn race(
    schedule: Seq<bool>,
    first: StepView,
    around1: Surroundings,
    second: StepView,
    around2: Surroundings,
    store: Store,
) -> (StepView, StepView, Store)
    decreases schedule.len(),
{
    if schedule.len() == 0 {
        (first, second, store)
    } else if schedule[0] {
        let (next, store) = advance(first, around1, store);
        race(schedule.drop_first(), next, around1, second, around2, store)
    } else {
        let (next, store) = advance(second, around2, store);
        race(schedule.drop_first(), first, around1, next, around2, store)
    }
}

/// Every operation ends, and a typed read counts exactly once: one hit if it
/// resolved to a value, one miss if it did not. No other operation touches
/// the statistics.
pub proof fn law_every_operation_ends(
    op: OperationView,
    enabled: bool,
    ttl: nat,
    around: Surroundings,
    store: Store,
    stats: StatsView,
)
    ensures
        run(op, enabled, ttl, around, store, stats).last is Done,
        run(op, enabled, ttl, around, store, stats).stats == if !(op is Get) {
            stats
        } else if run(op, enabled, ttl, around, store, stats).outcome() is Hit {
            stats.hit()
        } else {
            stats.miss()
        },
{
}

/// A value written with `setex` is read back by `get` on the same type and
/// id, as the very payload that was written, for as long as the time to live
/// has not elapsed; the read counts one hit.
pub proof fn law_get_after_setex(
    type_id: Seq<char>,
    id: Seq<char>,
    payload: Seq<u8>,
    ttl: nat,
    elapsed: nat,
    decodable: Set<Seq<u8>>,
    store: Store,
    stats: StatsView,
)
    requires
        elapsed < ttl,
        decodable.contains(payload),
    ensures
        ({
            let written = run(
                OperationView::SetEx { type_id, id },
                true,
                ttl,
                Surroundings::sound(payload, decodable),
                store,
                stats,
            );
            let read = run(
                OperationView::Get { type_id, id },
                true,
                ttl,
                Surroundings { reachable: true, failing: false, encoded: None, decodable },
                written.store.later(elapsed),
                written.stats,
            );
            &&& written.outcome() == OutcomeView::Stored
            &&& written.stats == stats
            &&& read.outcome() == (OutcomeView::Hit { payload })
            &&& read.stats == stats.hit()
            &&& stats.hits < usize::MAX ==> read.stats.hits == stats.hits + 1
        }),
{
}

/// A typed read of a key at which the store holds nothing resolves to no
/// value and counts exactly one miss, whether or not the cache is enabled and
/// reachable. The decoder must reject the empty payload, which is what the
/// store answers for such a key.
pub proof fn law_get_of_unwritten_key_misses(
    type_id: Seq<char>,
    id: Seq<char>,
    enabled: bool,
    ttl: nat,
    around: Surroundings,
    store: Store,
    stats: StatsView,
)
    requires
        !store.holds(plain_key_spec(type_id, id)),
        !around.decodable.contains(Seq::empty()),
    ensures
        ({
            let read = run(OperationView::Get { type_id, id }, enabled, ttl, around, store, stats);
            &&& read.outcome() is Degraded
            &&& enabled && around.reachable && !around.failing ==> read.outcome()
                == OutcomeView::Degraded(CacheErrorKind::DecodeFailed)
            &&& read.stats == stats.miss()
            &&& stats.misses < usize::MAX ==> read.stats.misses == stats.misses + 1
            &&& read.stats.hits == stats.hits
            &&& read.store == store
        }),
{
}

/// Whether the operation writes a value, which must serialize first.
pub open spec fn writes_value(op: OperationView) -> bool {
    op is SetEx || op is SetScoped
}

/// No fault reaches the caller as anything but a miss or a skipped write: a
/// disabled cache, a value that does not serialize, a connection that cannot
/// be had, a command that the store fails, each ends the operation without a
/// value, leaves the store as it was, and counts no hit. The first fault in
/// this order names the outcome.
pub proof fn law_faults_degrade(
    op: OperationView,
    enabled: bool,
    ttl: nat,
    around: Surroundings,
    store: Store,
    stats: StatsView,
)
    requires
        !(op is Status),
        !enabled || (writes_value(op) && around.encoded is None) || !around.reachable
            || around.failing,
    ensures
        ({
            let ended = run(op, enabled, ttl, around, store, stats);
            &&& ended.outcome() == OutcomeView::Degraded(
                if !enabled {
                    CacheErrorKind::ConfigAbsent
                } else if writes_value(op) && around.encoded is None {
                    CacheErrorKind::EncodeFailed
                } else if !around.reachable {
                    CacheErrorKind::ConnectionFailed
                } else {
                    CacheErrorKind::BackendError
                },
            )
            &&& ended.store == store
            &&& ended.stats.hits == stats.hits
        }),
{
}

/// A plain entry is gone once its time to live has elapsed, counted from the
/// write: a read in between gives the value and does not renew the time to
/// live.
pub proof fn law_entry_expires(
    type_id: Seq<char>,
    id: Seq<char>,
    payload: Seq<u8>,
    ttl: nat,
    early: nat,
    late: nat,
    decodable: Set<Seq<u8>>,
    store: Store,
    stats: StatsView,
)
    requires
        early < ttl <= early + late,
        decodable.contains(payload),
        !decodable.contains(Seq::empty()),
    ensures
        ({
            let get = OperationView::Get { type_id, id };
            let around = Surroundings::sound(payload, decodable);
            let written = run(OperationView::SetEx { type_id, id }, true, ttl, around, store, stats);
            let first = run(get, true, ttl, around, written.store.later(early), written.stats);
            let second = run(get, true, ttl, around, first.store.later(late), first.stats);
            &&& first.outcome() == (OutcomeView::Hit { payload })
            &&& second.outcome() == OutcomeView::Degraded(CacheErrorKind::DecodeFailed)
            &&& second.stats == stats.hit().miss()
        }),
{
}

/// A removed entry is gone: after `delete` on the key of a plain entry, a
/// read of the entry resolves to no value.
pub proof fn law_get_after_delete_misses(
    type_id: Seq<char>,
    id: Seq<char>,
    payload: Seq<u8>,
    ttl: nat,
    decodable: Set<Seq<u8>>,
    store: Store,
    stats: StatsView,
)
    requires
        !decodable.contains(Seq::empty()),
    ensures
        ({
            let around = Surroundings::sound(payload, decodable);
            let written = run(OperationView::SetEx { type_id, id }, true, ttl, around, store, stats);
            let removed = run(
                OperationView::Delete { key: plain_key_spec(type_id, id) },
                true,
                ttl,
                around,
                written.store,
                written.stats,
            );
            let read = run(
                OperationView::Get { type_id, id },
                true,
                ttl,
                around,
                removed.store,
                removed.stats,
            );
            &&& removed.outcome() == OutcomeView::Deleted
            &&& read.outcome() == OutcomeView::Degraded(CacheErrorKind::DecodeFailed)
            &&& read.stats == stats.miss()
        }),
{
}

/// On a disabled cache every operation ends before any effect: it asks for no
/// connection and sends no command, leaves the store as it is, resolves to no
/// value, and counts no hit.
pub proof fn law_disabled_cache_is_inert(
    op: OperationView,
    ttl: nat,
    around: Surroundings,
    store: Store,
    stats: StatsView,
)
    ensures
        op.begin(false, ttl) is Done,
        ({
            let ended = run(op, false, ttl, around, store, stats);
            &&& ended.last == op.begin(false, ttl)
            &&& ended.outcome() == if op is Status {
                OutcomeView::Status { enabled: false, healthy: false }
            } else {
                OutcomeView::Degraded(CacheErrorKind::ConfigAbsent)
            }
            &&& ended.store == store
            &&& ended.stats.hits == stats.hits
        }),
{
}

/// Entries of two scopes whose keys differ do not leak into each other: after
/// a scoped write to each, a scoped read of either gives what was written to
/// it, however much time has passed.
pub proof fn law_scoped_entries_are_independent(
    scope1: Seq<char>,
    type1: Seq<char>,
    payload1: Seq<u8>,
    decodable1: Set<Seq<u8>>,
    scope2: Seq<char>,
    type2: Seq<char>,
    payload2: Seq<u8>,
    decodable2: Set<Seq<u8>>,
    ttl: nat,
    elapsed: nat,
    store: Store,
    stats: StatsView,
)
    requires
        scope1 != scope2,
        scoped_key_spec(scope1, type1) != scoped_key_spec(scope2, type2),
        decodable1.contains(payload1),
        decodable2.contains(payload2),
    ensures
        ({
            let around1 = Surroundings::sound(payload1, decodable1);
            let around2 = Surroundings::sound(payload2, decodable2);
            let first = run(
                OperationView::SetScoped { scope: scope1, type_id: type1 },
                true,
                ttl,
                around1,
                store,
                stats,
            );
            let second = run(
                OperationView::SetScoped { scope: scope2, type_id: type2 },
                true,
                ttl,
                around2,
                first.store,
                first.stats,
            );
            let read1 = run(
                OperationView::GetScoped { scope: scope1, type_id: type1 },
                true,
                ttl,
                around1,
                second.store.later(elapsed),
                second.stats,
            );
            let read2 = run(
                OperationView::GetScoped { scope: scope2, type_id: type2 },
                true,
                ttl,
                around2,
                second.store.later(elapsed),
                second.stats,
            );
            &&& read1.outcome() == (OutcomeView::Hit { payload: payload1 })
            &&& read2.outcome() == (OutcomeView::Hit { payload: payload2 })
            &&& read2.stats == stats
        }),
{
}

/// Plain entries of one type and two distinct ids do not leak into each
/// other either: after a write to each, a read of either gives what was
/// written to it, for as long as the time to live has not elapsed.
pub proof fn law_plain_entries_are_independent(
    type_id: Seq<char>,
    id1: Seq<char>,
    payload1: Seq<u8>,
    id2: Seq<char>,
    payload2: Seq<u8>,
    decodable: Set<Seq<u8>>,
    ttl: nat,
    elapsed: nat,
    store: Store,
    stats: StatsView,
)
    requires
        id1 != id2,
        elapsed < ttl,
        decodable.contains(payload1),
        decodable.contains(payload2),
    ensures
        ({
            let around1 = Surroundings::sound(payload1, decodable);
            let around2 = Surroundings::sound(payload2, decodable);
            let first = run(
                OperationView::SetEx { type_id, id: id1 },
                true,
                ttl,
                around1,
                store,
                stats,
            );
            let second = run(
                OperationView::SetEx { type_id, id: id2 },
                true,
                ttl,
                around2,
                first.store,
                first.stats,
            );
            let read1 = run(
                OperationView::Get { type_id, id: id1 },
                true,
                ttl,
                around1,
                second.store.later(elapsed),
                second.stats,
            );
            let read2 = run(
                OperationView::Get { type_id, id: id2 },
                true,
                ttl,
                around2,
                second.store.later(elapsed),
                second.stats,
            );
            &&& read1.outcome() == (OutcomeView::Hit { payload: payload1 })
            &&& read2.outcome() == (OutcomeView::Hit { payload: payload2 })
        }),
{
    lemma_plain_key_same_type(type_id, id1, id2);
}

/// Two distinct scopes never share the entry of one type: the law above holds
/// of them without any condition on their keys.
pub proof fn law_distinct_scopes_of_one_type(
    scope1: Seq<char>,
    payload1: Seq<u8>,
    scope2: Seq<char>,
    payload2: Seq<u8>,
    type_id: Seq<char>,
    decodable: Set<Seq<u8>>,
    ttl: nat,
    elapsed: nat,
    store: Store,
    stats: StatsView,
)
    requires
        scope1 != scope2,
        decodable.contains(payload1),
        decodable.contains(payload2),
    ensures
        ({
            let around1 = Surroundings::sound(payload1, decodable);
            let around2 = Surroundings::sound(payload2, decodable);
            let first = run(
                OperationView::SetScoped { scope: scope1, type_id },
                true,
                ttl,
                around1,
                store,
                stats,
            );
            let second = run(
                OperationView::SetScoped { scope: scope2, type_id },
                true,
                ttl,
                around2,
                first.store,
                first.stats,
            );
            let read1 = run(
                OperationView::GetScoped { scope: scope1, type_id },
                true,
                ttl,
                around1,
                second.store.later(elapsed),
                second.stats,
            );
            let read2 = run(
                OperationView::GetScoped { scope: scope2, type_id },
                true,
                ttl,
                around2,
                second.store.later(elapsed),
                second.stats,
            );
            &&& read1.outcome() == (OutcomeView::Hit { payload: payload1 })
            &&& read2.outcome() == (OutcomeView::Hit { payload: payload2 })
        }),
{
    lemma_scoped_key_same_type(scope1, scope2, type_id);
    law_scoped_entries_are_independent(
        scope1,
        type_id,
        payload1,
        decodable,
        scope2,
        type_id,
        payload2,
        decodable,
        ttl,
        elapsed,
        store,
        stats,
    );
}

/// A status check reports a cache as enabled exactly when it holds a pool, and
/// as healthy exactly when it is enabled and the pool gave a connection: a
/// disabled cache is never reported healthy, and an enabled one whose store
/// cannot be reached is reported enabled and unhealthy.
pub proof fn law_status_is_healthy_only_if_enabled(
    enabled: bool,
    ttl: nat,
    around: Surroundings,
    store: Store,
    stats: StatsView,
)
    ensures
        ({
            let checked = run(OperationView::Status, enabled, ttl, around, store, stats);
            &&& checked.outcome() == (OutcomeView::Status {
                enabled,
                healthy: enabled && around.reachable,
            })
            &&& checked.store == store
            &&& checked.stats == stats
        }),
{
}

/// Of two writes to one plain entry, one after the other, the later one is
/// what a read then gives.
pub proof fn law_last_write_wins(
    type_id: Seq<char>,
    id: Seq<char>,
    earlier: Seq<u8>,
    later: Seq<u8>,
    ttl: nat,
    elapsed: nat,
    decodable: Set<Seq<u8>>,
    store: Store,
    stats: StatsView,
)
    requires
        elapsed < ttl,
        decodable.contains(later),
    ensures
        ({
            let op = OperationView::SetEx { type_id, id };
            let first = run(
                op,
                true,
                ttl,
                Surroundings::sound(earlier, decodable),
                store,
                stats,
            );
            let second = run(
                op,
                true,
                ttl,
                Surroundings::sound(later, decodable),
                first.store,
                first.stats,
            );
            let read = run(
                OperationView::Get { type_id, id },
                true,
                ttl,
                Surroundings { reachable: true, failing: false, encoded: None, decodable },
                second.store.later(elapsed),
                second.stats,
            );
            read.outcome() == (OutcomeView::Hit { payload: later })
        }),
{
}

/// A step of a write of `payload` to the entry at `key`, to expire after
/// `ttl` seconds, on a cache that is enabled and reachable.
spec fn writes(step: StepView, key: Seq<char>, ttl: nat, payload: Seq<u8>) -> bool {
    let request = RequestView::SetEx { key, ttl, value: payload };
    ||| step == (StepView::Encode { key, ttl: Some(ttl) })
    ||| step == (StepView::Connect { intent: IntentView::Write { request } })
    ||| step == (StepView::Write { request })
    ||| step == StepView::Done(OutcomeView::Stored)
}

/// The store holds one of two payloads at `key`, whole, to expire `ttl`
/// seconds from now.
spec fn holds_one_of(
    store: Store,
    key: Seq<char>,
    ttl: nat,
    payload1: Seq<u8>,
    payload2: Seq<u8>,
) -> bool {
    &&& store.entries.contains_key(key)
    &&& store.entries[key].expires_at == Some(store.now + ttl)
    &&& store.entries[key].value == payload1 || store.entries[key].value == payload2
}

/// However the steps of two writes interleave, each stays a write of its own
/// payload, and once either is over the store holds one of the two payloads.
proof fn lemma_race_of_writes(
    schedule: Seq<bool>,
    first: StepView,
    second: StepView,
    key: Seq<char>,
    ttl: nat,
    payload1: Seq<u8>,
    payload2: Seq<u8>,
    decodable: Set<Seq<u8>>,
    store: Store,
)
    requires
        writes(first, key, ttl, payload1),
        writes(second, key, ttl, payload2),
        first is Done || second is Done ==> holds_one_of(store, key, ttl, payload1, payload2),
    ensures
        ({
            let around1 = Surroundings::sound(payload1, decodable);
            let around2 = Surroundings::sound(payload2, decodable);
            let (one, two, raced) = race(schedule, first, around1, second, around2, store);
            &&& writes(one, key, ttl, payload1)
            &&& writes(two, key, ttl, payload2)
            &&& raced.now == store.now
            &&& one is Done || two is Done ==> holds_one_of(raced, key, ttl, payload1, payload2)
        }),
    decreases schedule.len(),
{
    let around1 = Surroundings::sound(payload1, decodable);
    let around2 = Surroundings::sound(payload2, decodable);
    if schedule.len() > 0 {
        if schedule[0] {
            let (next, after) = advance(first, around1, store);
            lemma_race_of_writes(
                schedule.drop_first(),
                next,
                second,
                key,
                ttl,
                payload1,
                payload2,
                decodable,
                after,
            );
        } else {
            let (next, after) = advance(second, around2, store);
            lemma_race_of_writes(
                schedule.drop_first(),
                first,
                next,
                key,
                ttl,
                payload1,
                payload2,
                decodable,
                after,
            );
        }
    }
}

/// Two writes of one plain entry that race leave one of the two payloads, as
/// a whole: however the steps of the two callers interleave, once both are
/// over a read gives the one payload or the other, for as long as the time to
/// live has not elapsed.
pub proof fn law_racing_writes_leave_one_value(
    type_id: Seq<char>,
    id: Seq<char>,
    payload1: Seq<u8>,
    payload2: Seq<u8>,
    schedule: Seq<bool>,
    ttl: nat,
    elapsed: nat,
    decodable: Set<Seq<u8>>,
    store: Store,
    stats: StatsView,
)
    requires
        elapsed < ttl,
        decodable.contains(payload1),
        decodable.contains(payload2),
    ensures
        ({
            let op = OperationView::SetEx { type_id, id };
            let (one, two, raced) = race(
                schedule,
                op.begin(true, ttl),
                Surroundings::sound(payload1, decodable),
                op.begin(true, ttl),
                Surroundings::sound(payload2, decodable),
                store,
            );
            let read = run(
                OperationView::Get { type_id, id },
                true,
                ttl,
                Surroundings { reachable: true, failing: false, encoded: None, decodable },
                raced.later(elapsed),
                stats,
            );
            one is Done && two is Done ==> {
                &&& one == StepView::Done(OutcomeView::Stored)
                &&& two == StepView::Done(OutcomeView::Stored)
                &&& read.outcome() == (OutcomeView::Hit { payload: payload1 }) || read.outcome()
                    == (OutcomeView::Hit { payload: payload2 })
            }
        }),
{
    let op = OperationView::SetEx { type_id, id };
    lemma_race_of_writes(
        schedule,
        op.begin(true, ttl),
        op.begin(true, ttl),
        plain_key_spec(type_id, id),
        ttl,
        payload1,
        payload2,
        decodable,
        store,
    );
}

} // verus!
