//! Per-match command serialization: the decisions of a match actor (replay,
//! staleness, bounded idempotency cache) and the table of loaded actors.
use vstd::prelude::*;

use crate::keyed::{
    keep_where, lemma_keep_where_step, lemma_map_of_contains, lemma_map_of_index,
    lemma_map_of_push, lemma_map_of_remove, lemma_map_of_update, lemma_take_full, map_of,
    unique_keys,
};

verus! {

/// Commands that may wait in one match actor's queue by default.
pub const DEFAULT_ACTOR_QUEUE_CAPACITY: usize = 64;

/// When a command was received and when it was decided, in milliseconds since
/// the Unix epoch.
#[derive(Debug, Clone, Copy, PartialEq, Eq, Structural)]
pub struct CommandTiming {
    pub received_unix_millis: u64,
    pub decided_unix_millis: u64,
}

/// Why a well-formed command was not applied.
#[derive(Debug, Clone, PartialEq, Eq)]
pub enum CommandRejection {
    WrongSeat,
    InactivePhase,
    ExpiredTime,
    IllegalAction(String),
}

/// How executing a command failed.
#[derive(Debug, Clone, PartialEq, Eq)]
pub enum ExecutionError {
    Rejected(CommandRejection),
    Fatal(String),
}

/// Why a command could not be handed to its match actor.
#[derive(Debug, Clone, PartialEq, Eq)]
pub enum ActorSubmitError {
    QueueFull,
    Unavailable,
    Failed,
    Load(String),
}

impl ActorSubmitError {
    /// Whether the same command may succeed when sent again: a full queue, an
    /// unavailable actor, or a failed actor (which reloads); not a load failure.
    pub fn retryable(&self) -> (retryable: bool)
        ensures
            retryable == !(self is Load),
    {
        match self {
            ActorSubmitError::QueueFull | ActorSubmitError::Unavailable | ActorSubmitError::Failed => true,
            ActorSubmitError::Load(_) => false,
        }
    }

    /// The message of this error.
    pub fn message(&self) -> (text: String)
        ensures
            text@ == match self {
                ActorSubmitError::QueueFull => "match command queue is full"@,
                ActorSubmitError::Unavailable => "match actor is unavailable"@,
                ActorSubmitError::Failed => "match actor failed and will be reloaded"@,
                ActorSubmitError::Load(reason) => "durable match could not be loaded: "@ + reason@,
            },
    {
        match self {
            ActorSubmitError::QueueFull => String::from_str("match command queue is full"),
            ActorSubmitError::Unavailable => String::from_str("match actor is unavailable"),
            ActorSubmitError::Failed => String::from_str("match actor failed and will be reloaded"),
            ActorSubmitError::Load(reason) => {
                let mut text = String::from_str("durable match could not be loaded: ");
                vstd::string::StringExecFns::append(&mut text, reason.as_str());
                text
            },
        }
    }
}

/// The queue capacity of a new actor: the requested one, but at least one.
pub fn queue_capacity(requested: usize) -> (capacity: usize)
    ensures
        capacity == if requested == 0 {
            1
        } else {
            requested
        },
{
    if requested == 0 {
        1
    } else {
        requested
    }
}

/// What a match actor does with a command before executing it.
#[derive(Debug, Clone, Copy, PartialEq, Eq, Structural)]
pub enum Admission {
    /// The idempotency key was decided before: answer with that decision.
    Replay,
    /// The command targets another match or revision: answer with the current
    /// snapshot.
    Stale,
    /// Execute the command.
    Execute,
}

/// The admission of a command: a remembered key replays, then a command for
/// another match or an outdated revision is stale, else it executes.
pub open spec fn admission_of(
    remembered: bool,
    command_match: u128,
    actor_match: u128,
    expected_revision: u64,
    current_revision: u64,
) -> Admission {
    if remembered {
        Admission::Replay
    } else if command_match != actor_match || expected_revision != current_revision {
        Admission::Stale
    } else {
        Admission::Execute
    }
}

/// The decisions a match actor remembers by idempotency key, oldest first,
/// at most `capacity` of them.
pub struct DecisionCache<D> {
    decisions: Vec<(u128, D)>,
    capacity: usize,
}

impl<D> DecisionCache<D> {
    /// The remembered decisions, oldest first.
    pub closed spec fn view(self) -> Seq<(u128, D)> {
        self.decisions@
    }

    /// The most decisions remembered at once.
    pub closed spec fn limit(self) -> nat {
        self.capacity as nat
    }

    /// Keys are unique and the cache is within its limit.
    pub closed spec fn well_formed(self) -> bool {
        unique_keys(self.decisions@) && self.decisions@.len() <= self.capacity
    }

    /// The decision remembered for each key.
    pub open spec fn decided(self) -> Map<u128, D> {
        map_of(self.view())
    }

    /// An empty cache that remembers at most `capacity` decisions.
    pub fn new(capacity: usize) -> (cache: DecisionCache<D>)
        ensures
            cache.well_formed(),
            cache.view() == Seq::<(u128, D)>::empty(),
            cache.limit() == capacity,
    {
        DecisionCache { decisions: Vec::new(), capacity }
    }

    /// The decision remembered for `key`.
    pub fn lookup(&self, key: u128) -> (found: Option<&D>)
        requires
            self.well_formed(),
        ensures
            match found {
                Some(d) => self.decided().contains_key(key) && *d == self.decided()[key],
                None => !self.decided().contains_key(key),
            },
    {
        let mut k: usize = 0;
        while k < self.decisions.len()
            invariant
                k <= self.decisions@.len(),
                self.well_formed(),
                forall|j: int| 0 <= j < k ==> #[trigger] self.decisions@[j].0 != key,
            decreases self.decisions@.len() - k,
        {
            if self.decisions[k].0 == key {
                proof {
                    lemma_map_of_index(self.decisions@, k as int);
                }
                return Some(&self.decisions[k].1);
            }
            k = k + 1;
        }
        proof {
            lemma_map_of_contains(self.decisions@, key);
        }
        None
    }

    /// Decides what to do with a command, as `admission_of` says.
    pub fn admission(
        &self,
        key: u128,
        command_match: u128,
        actor_match: u128,
        expected_revision: u64,
        current_revision: u64,
    ) -> (admission: Admission)
        requires
            self.well_formed(),
        ensures
            admission == admission_of(
                self.decided().contains_key(key),
                command_match,
                actor_match,
                expected_revision,
                current_revision,
            ),
    {
        if self.lookup(key).is_some() {
            Admission::Replay
        } else if command_match != actor_match || expected_revision != current_revision {
            Admission::Stale
        } else {
            Admission::Execute
        }
    }

    /// Remembers the decision of a newly executed command; beyond the limit the
    /// oldest decision is forgotten.
    pub fn record(&mut self, key: u128, decision: D)
        requires
            old(self).well_formed(),
            !old(self).decided().contains_key(key),
        ensures
            final(self).well_formed(),
            final(self).limit() == old(self).limit(),
            final(self).view() == record_step(old(self).view(), old(self).limit(), (key, decision)),
    {
        let ghost before = self.decisions@;
        proof {
            lemma_map_of_push(before, key, decision);
        }
        self.decisions.push((key, decision));
        if self.decisions.len() > self.capacity {
            let ghost pushed = self.decisions@;
            self.decisions.remove(0);
            proof {
                assert(self.decisions@ =~= pushed.drop_first());
                assert(unique_keys(self.decisions@)) by {
                    assert forall|a: int, b: int|
                        0 <= a < self.decisions@.len() && 0 <= b < self.decisions@.len() && a != b
                        implies self.decisions@[a].0 != self.decisions@[b].0 by {
                        assert(self.decisions@[a] == pushed[a + 1]);
                        assert(self.decisions@[b] == pushed[b + 1]);
                    }
                }
            }
        }
    }
}

/// A decision stays remembered, and replays, until the limit's worth of newer
/// decisions has been recorded: recording one more keeps every decision but the
/// oldest of a full cache.
pub proof fn law_recorded_decision_survives<D>(
    view: Seq<(u128, D)>,
    limit: nat,
    key: u128,
    decision: D,
    kept: u128,
)
    requires
        unique_keys(view),
        view.len() <= limit,
        !map_of(view).contains_key(key),
        map_of(view).contains_key(kept),
        view.len() < limit || view[0].0 != kept,
    ensures
        ({
            let after = if view.len() + 1 > limit {
                view.push((key, decision)).drop_first()
            } else {
                view.push((key, decision))
            };
            map_of(after).contains_key(kept) && map_of(after)[kept] == map_of(view)[kept]
        }),
{
    lemma_map_of_push(view, key, decision);
    let pushed = view.push((key, decision));
    lemma_map_of_contains(view, kept);
    let i = choose|i: int| 0 <= i < view.len() && #[trigger] view[i].0 == kept;
    lemma_map_of_index(view, i);
    lemma_map_of_index(pushed, i);
    if view.len() + 1 > limit {
        let after = pushed.drop_first();
        assert(i > 0);
        assert(after[i - 1] == pushed[i]);
        assert(unique_keys(after)) by {
            assert forall|a: int, b: int|
                0 <= a < after.len() && 0 <= b < after.len() && a != b implies after[a].0
                != after[b].0 by {
                assert(after[a] == pushed[a + 1]);
                assert(after[b] == pushed[b + 1]);
            }
        }
        lemma_map_of_index(after, i - 1);
    }
}

/// The remembered decisions after one more is recorded: beyond `limit` the
/// oldest is forgotten.
pub open spec fn record_step<D>(view: Seq<(u128, D)>, limit: nat, entry: (u128, D)) -> Seq<(u128, D)> {
    if view.len() + 1 > limit {
        view.push(entry).drop_first()
    } else {
        view.push(entry)
    }
}

/// The remembered decisions after `records` are recorded in turn.
pub open spec fn record_all<D>(view: Seq<(u128, D)>, limit: nat, records: Seq<(u128, D)>) -> Seq<
    (u128, D),
>
    decreases records.len(),
{
    if records.len() == 0 {
        view
    } else {
        record_all(record_step(view, limit, records[0]), limit, records.drop_first())
    }
}

/// Keys that occur nowhere else: distinct among `records` and absent from
/// `view`.
pub open spec fn fresh_records<D>(view: Seq<(u128, D)>, records: Seq<(u128, D)>) -> bool {
    &&& forall|i: int, j: int|
        #![trigger records[i], records[j]]
        0 <= i < records.len() && 0 <= j < records.len() && i != j ==> records[i].0 != records[j].0
    &&& forall|i: int, q: int|
        #![trigger records[i], view[q]]
        0 <= i < records.len() && 0 <= q < view.len() ==> records[i].0 != view[q].0
}

proof fn lemma_record_all_keeps<D>(view: Seq<(u128, D)>, limit: nat, records: Seq<(u128, D)>, p: int)
    requires
        unique_keys(view),
        view.len() <= limit,
        0 <= p < view.len(),
        fresh_records(view, records),
        (view.len() - 1 - p) + records.len() < limit,
    ensures
        unique_keys(record_all(view, limit, records)),
        exists|p2: int|
            0 <= p2 < record_all(view, limit, records).len() && #[trigger] record_all(
                view,
                limit,
                records,
            )[p2] == view[p],
    decreases records.len(),
{
    let result = record_all(view, limit, records);
    if records.len() == 0 {
        assert(result[p] == view[p]);
    } else {
        let entry = records[0];
        let pushed = view.push(entry);
        assert(unique_keys(pushed)) by {
            assert forall|a: int, b: int|
                0 <= a < pushed.len() && 0 <= b < pushed.len() && a != b implies pushed[a].0
                != pushed[b].0 by {
                if a == view.len() {
                    assert(records[0].0 != view[b].0);
                } else if b == view.len() {
                    assert(records[0].0 != view[a].0);
                }
            }
        }
        let next = record_step(view, limit, entry);
        let p1: int = if view.len() + 1 > limit {
            p - 1
        } else {
            p
        };
        if view.len() + 1 > limit {
            assert(p > 0);
            assert(next[p1] == pushed[p]);
            assert(unique_keys(next)) by {
                assert forall|a: int, b: int|
                    0 <= a < next.len() && 0 <= b < next.len() && a != b implies next[a].0
                    != next[b].0 by {
                    assert(next[a] == pushed[a + 1]);
                    assert(next[b] == pushed[b + 1]);
                }
            }
        } else {
            assert(next[p1] == pushed[p]);
        }
        let rest = records.drop_first();
        assert(fresh_records(next, rest)) by {
            assert forall|i: int, j: int|
                0 <= i < rest.len() && 0 <= j < rest.len() && i != j implies rest[i].0
                != rest[j].0 by {
                assert(rest[i] == records[i + 1]);
                assert(rest[j] == records[j + 1]);
            }
            assert forall|i: int, q: int|
                0 <= i < rest.len() && 0 <= q < next.len() implies rest[i].0 != next[q].0 by {
                assert(rest[i] == records[i + 1]);
                let k: int = if view.len() + 1 > limit {
                    q + 1
                } else {
                    q
                };
                assert(next[q] == pushed[k]);
                if k == view.len() {
                    assert(records[i + 1].0 != records[0].0);
                } else {
                    assert(records[i + 1].0 != view[k].0);
                }
            }
        }
        lemma_record_all_keeps(next, limit, rest, p1);
    }
}

/// A decided idempotency key keeps replaying its decision for as long as
/// fewer than the limit's worth of decisions are newer than it: recording any
/// sequence of new keys that leaves it so keeps it, with its decision.
pub proof fn law_decision_replays_until_limit<D>(
    view: Seq<(u128, D)>,
    limit: nat,
    records: Seq<(u128, D)>,
    p: int,
)
    requires
        unique_keys(view),
        view.len() <= limit,
        0 <= p < view.len(),
        fresh_records(view, records),
        (view.len() - 1 - p) + records.len() < limit,
    ensures
        map_of(record_all(view, limit, records)).contains_key(view[p].0),
        map_of(record_all(view, limit, records))[view[p].0] == view[p].1,
{
    lemma_record_all_keeps(view, limit, records, p);
    let result = record_all(view, limit, records);
    let p2 = choose|p2: int| 0 <= p2 < result.len() && #[trigger] result[p2] == view[p];
    lemma_map_of_index(result, p2);
}

/// A loaded actor: its handle and when it was last used.
pub struct ActorEntry<H> {
    pub match_id: u128,
    pub handle: H,
    pub last_used: u64,
}

/// The loaded match actors, by match.
pub struct ActorTable<H> {
    entries: Vec<ActorEntry<H>>,
}

/// Whether an actor last used at `last_used` has been idle for
/// `maximum_idle` milliseconds at `now`.
pub open spec fn actor_idle(last_used: u64, now: u64, maximum_idle: u64) -> bool {
    (if now >= last_used {
        now - last_used
    } else {
        0
    }) >= maximum_idle
}

impl<H> ActorTable<H> {
    pub closed spec fn pairs(self) -> Seq<(u128, (H, u64))> {
        self.entries@.map_values(|e: ActorEntry<H>| (e.match_id, (e.handle, e.last_used)))
    }

    /// Each loaded actor's handle and last use, by match.
    pub closed spec fn view(self) -> Map<u128, (H, u64)> {
        map_of(self.pairs())
    }

    /// No match has two actors.
    pub closed spec fn well_formed(self) -> bool {
        unique_keys(self.pairs())
    }

    /// The number of loaded actors.
    pub closed spec fn len(self) -> nat {
        self.entries@.len()
    }

    /// A table without actors.
    pub fn new() -> (table: ActorTable<H>)
        ensures
            table.well_formed(),
            table.view() == Map::<u128, (H, u64)>::empty(),
            table.len() == 0,
    {
        let table = ActorTable { entries: Vec::new() };
        assert(table.pairs() =~= Seq::empty());
        table
    }

    fn find(&self, match_id: u128) -> (found: Option<usize>)
        requires
            self.well_formed(),
        ensures
            match found {
                Some(k) => k < self.entries@.len() && self.pairs()[k as int].0 == match_id
                    && self.view().contains_key(match_id) && self.view()[match_id] == self.pairs()[k as int].1,
                None => !self.view().contains_key(match_id),
            },
    {
        let mut k: usize = 0;
        while k < self.entries.len()
            invariant
                k <= self.entries@.len(),
                self.well_formed(),
                forall|j: int| 0 <= j < k ==> #[trigger] self.pairs()[j].0 != match_id,
            decreases self.entries@.len() - k,
        {
            assert(self.pairs()[k as int].0 == self.entries@[k as int].match_id);
            if self.entries[k].match_id == match_id {
                proof {
                    lemma_map_of_index(self.pairs(), k as int);
                }
                return Some(k);
            }
            k = k + 1;
        }
        proof {
            lemma_map_of_contains(self.pairs(), match_id);
        }
        None
    }

    /// The actor of `match_id`, marked used at `now`.
    pub fn touch(&mut self, match_id: u128, now: u64) -> (found: Option<&H>)
        requires
            old(self).well_formed(),
        ensures
            final(self).well_formed(),
            final(self).len() == old(self).len(),
            match found {
                Some(h) => old(self).view().contains_key(match_id) && *h == old(self).view()[match_id].0
                    && final(self).view() == old(self).view().insert(match_id, (*h, now)),
                None => !old(self).view().contains_key(match_id) && final(self).view() == old(self).view(),
            },
    {
        match self.find(match_id) {
            None => None,
            Some(k) => {
                let ghost ps = self.pairs();
                let ghost handle = self.entries@[k as int].handle;
                let mut entry = self.entries.remove(k);
                entry.last_used = now;
                let ghost value = entry;
                self.entries.insert(k, entry);
                proof {
                    assert(self.pairs() =~= ps.update(k as int, (match_id, (handle, now))));
                    lemma_map_of_update(ps, k as int, (handle, now));
                }
                Some(&self.entries[k].handle)
            },
        }
    }

    /// Adds the actor of a match that has none, used at `now`.
    pub fn insert(&mut self, match_id: u128, handle: H, now: u64)
        requires
            old(self).well_formed(),
            !old(self).view().contains_key(match_id),
        ensures
            final(self).well_formed(),
            final(self).view() == old(self).view().insert(match_id, (handle, now)),
            final(self).len() == old(self).len() + 1,
    {
        let ghost ps = self.pairs();
        let ghost h = handle;
        self.entries.push(ActorEntry { match_id, handle, last_used: now });
        proof {
            assert(self.pairs() =~= ps.push((match_id, (h, now))));
            lemma_map_of_push(ps, match_id, (h, now));
        }
    }

    /// Drops the actor of `match_id`, if loaded.
    pub fn remove(&mut self, match_id: u128) -> (removed: bool)
        requires
            old(self).well_formed(),
        ensures
            final(self).well_formed(),
            removed == old(self).view().contains_key(match_id),
            final(self).view() == old(self).view().remove(match_id),
    {
        match self.find(match_id) {
            None => {
                assert(self.view().remove(match_id) =~= self.view());
                false
            },
            Some(k) => {
                let ghost ps = self.pairs();
                self.entries.remove(k);
                proof {
                    assert(self.pairs() =~= ps.remove(k as int));
                    lemma_map_of_remove(ps, k as int);
                }
                true
            },
        }
    }

    /// Unloads every actor idle for at least `maximum_idle` milliseconds at
    /// `now` (the durable matches stay); returns how many it unloaded.
    pub fn unload_idle(&mut self, now: u64, maximum_idle: u64) -> (unloaded: usize)
        requires
            old(self).well_formed(),
        ensures
            final(self).well_formed(),
            final(self).view() == keep_where(
                old(self).view(),
                |id: u128, v: (H, u64)| !actor_idle(v.1, now, maximum_idle),
            ),
            unloaded == old(self).len() - final(self).len(),
    {
        let ghost ps = self.pairs();
        let ghost keep = |id: u128, v: (H, u64)| !actor_idle(v.1, now, maximum_idle);
        let before = self.entries.len();
        let mut kept: Vec<ActorEntry<H>> = Vec::new();
        proof {
            assert(map_of(ps.take(0)) =~= Map::empty());
            assert(kept@.map_values(|e: ActorEntry<H>| (e.match_id, (e.handle, e.last_used))) =~= Seq::empty());
            assert(keep_where(map_of(ps.take(0)), keep) =~= Map::empty());
        }
        while self.entries.len() > 0
            invariant
                ps == old(self).pairs(),
                unique_keys(ps),
                self.entries@ == old(self).entries@.skip(ps.len() - self.entries@.len()),
                self.entries@.len() <= ps.len(),
                keep == (|id: u128, v: (H, u64)| !actor_idle(v.1, now, maximum_idle)),
                kept@.len() <= ps.len() - self.entries@.len(),
                unique_keys(kept@.map_values(|e: ActorEntry<H>| (e.match_id, (e.handle, e.last_used)))),
                map_of(kept@.map_values(|e: ActorEntry<H>| (e.match_id, (e.handle, e.last_used))))
                    == keep_where(map_of(ps.take(ps.len() - self.entries@.len())), keep),
            decreases self.entries@.len(),
        {
            let ghost n = ps.len() - self.entries@.len();
            let ghost ks = kept@.map_values(|e: ActorEntry<H>| (e.match_id, (e.handle, e.last_used)));
            proof {
                lemma_keep_where_step(ps, n, ks, keep);
            }
            let entry = self.entries.remove(0);
            assert(ps[n] == (entry.match_id, (entry.handle, entry.last_used)));
            assert(self.entries@ =~= old(self).entries@.skip(n + 1));
            let idle = (if now >= entry.last_used {
                now - entry.last_used
            } else {
                0
            }) >= maximum_idle;
            if !idle {
                kept.push(entry);
                proof {
                    assert(kept@.map_values(|e: ActorEntry<H>| (e.match_id, (e.handle, e.last_used))) =~= ks.push(ps[n]));
                    lemma_map_of_push(ks, ps[n].0, ps[n].1);
                }
            }
        }
        proof {
            lemma_take_full(ps);
        }
        self.entries = kept;
        before - self.entries.len()
    }
}

} // verus!
