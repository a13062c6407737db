//! The latest snapshot of each live match, the seats connected to it, and
//! the room-state events that every connection of the match is sent. The
//! channels that carry snapshots and events to connections belong to the
//! server; the hub decides what they carry.
use vstd::prelude::*;

use crate::connections::{presence_state, ConnectionState, RematchState, SeatPresence};
use crate::keyed::{
    lemma_map_of_contains, lemma_map_of_index, lemma_map_of_push, lemma_map_of_update, map_of,
    unique_keys,
};
use crate::rooms::Player;

verus! {

/// A match snapshot as the hub keeps it: the rest of the snapshot (`body`),
/// whether its state has an outcome, and the room and rematch states it
/// reports.
#[derive(Debug)]
pub struct HubSnapshot<S> {
    pub body: S,
    pub ended: bool,
    pub room_state: ConnectionState,
    pub rematch_state: Option<RematchState>,
}

/// An event sent to every connection of a match.
#[derive(Debug, Clone, Copy, PartialEq, Eq, Structural)]
pub enum HubEvent {
    ConnectionState(ConnectionState),
    RematchState(RematchState),
}

/// One match in the hub.
#[derive(Debug)]
pub struct HubEntry<S> {
    pub match_id: u128,
    pub latest: Option<HubSnapshot<S>>,
    pub presence: SeatPresence,
}

/// The live matches, by match.
#[derive(Debug)]
pub struct SnapshotHub<S> {
    entries: Vec<HubEntry<S>>,
}

/// What the hub holds of one match: its latest snapshot, if any, and which
/// seats are connected.
pub type HubRecord<S> = (Option<HubSnapshot<S>>, SeatPresence);

/// No seat connected.
pub open spec fn nobody() -> SeatPresence {
    SeatPresence { north: false, south: false }
}

/// The hub after a match is registered without a snapshot: a known match is
/// left as it is.
pub open spec fn room_registered<S>(hub: Map<u128, HubRecord<S>>, match_id: u128) -> Map<
    u128,
    HubRecord<S>,
> {
    if hub.contains_key(match_id) {
        hub
    } else {
        hub.insert(match_id, (None, nobody()))
    }
}

/// The hub after a snapshot is registered: it becomes the latest, and the
/// connected seats of a known match are kept.
pub open spec fn snapshot_registered<S>(
    hub: Map<u128, HubRecord<S>>,
    match_id: u128,
    snapshot: HubSnapshot<S>,
) -> Map<u128, HubRecord<S>> {
    hub.insert(
        match_id,
        (
            Some(snapshot),
            if hub.contains_key(match_id) {
                hub[match_id].1
            } else {
                nobody()
            },
        ),
    )
}

/// A snapshot reporting other room and rematch states.
pub open spec fn restated<S>(
    latest: Option<HubSnapshot<S>>,
    room_state: ConnectionState,
    rematch_state: Option<RematchState>,
) -> Option<HubSnapshot<S>> {
    match latest {
        None => None,
        Some(s) => Some(HubSnapshot { body: s.body, ended: s.ended, room_state, rematch_state }),
    }
}

/// The events that announce a room state, and a rematch state when there is
/// one.
pub open spec fn room_state_events(
    connection: ConnectionState,
    rematch: Option<RematchState>,
) -> Seq<HubEvent> {
    match rematch {
        None => seq![HubEvent::ConnectionState(connection)],
        Some(r) => seq![HubEvent::ConnectionState(connection), HubEvent::RematchState(r)],
    }
}

/// The connected seats after `seat` connects or disconnects.
pub open spec fn presence_after(presence: SeatPresence, seat: Player, connected: bool) -> SeatPresence {
    match seat {
        Player::North => SeatPresence { north: connected, ..presence },
        Player::South => SeatPresence { south: connected, ..presence },
    }
}

/// Whether a match's latest snapshot has an outcome.
pub open spec fn latest_ended<S>(latest: Option<HubSnapshot<S>>) -> bool {
    latest matches Some(s) && s.ended
}

/// The room state that a seat's coming or going announces.
pub open spec fn seat_state<S>(record: HubRecord<S>, seat: Player, connected: bool) -> ConnectionState {
    presence_state(presence_after(record.1, seat, connected), latest_ended(record.0))
}

/// The hub after a seat connects or disconnects: the snapshot reports the new
/// room state and keeps its rematch state.
pub open spec fn seat_recorded<S>(
    hub: Map<u128, HubRecord<S>>,
    match_id: u128,
    seat: Player,
    connected: bool,
) -> Map<u128, HubRecord<S>> {
    let record = hub[match_id];
    let latest = match record.0 {
        None => None,
        Some(s) => Some(
            HubSnapshot {
                body: s.body,
                ended: s.ended,
                room_state: seat_state(record, seat, connected),
                rematch_state: s.rematch_state,
            },
        ),
    };
    hub.insert(match_id, (latest, presence_after(record.1, seat, connected)))
}

impl<S> SnapshotHub<S> {
    closed spec fn pairs(self) -> Seq<(u128, HubRecord<S>)> {
        self.entries@.map_values(|e: HubEntry<S>| (e.match_id, (e.latest, e.presence)))
    }

    /// Each live match's latest snapshot and connected seats.
    pub closed spec fn view(self) -> Map<u128, HubRecord<S>> {
        map_of(self.pairs())
    }

    /// No match is held twice.
    pub closed spec fn well_formed(self) -> bool {
        unique_keys(self.pairs())
    }

    /// A hub without matches.
    pub fn new() -> (hub: Self)
        ensures
            hub.well_formed(),
            hub.view() == Map::<u128, HubRecord<S>>::empty(),
    {
        let hub = SnapshotHub { entries: Vec::new() };
        assert(hub.pairs() =~= Seq::empty());
        hub
    }

    fn find(&self, match_id: u128) -> (found: Option<usize>)
        requires
            self.well_formed(),
        ensures
            match found {
                Some(k) => k < self.entries@.len() && self.pairs()[k as int].0 == match_id
                    && self.view().contains_key(match_id) && self.view()[match_id]
                    == self.pairs()[k as int].1,
                None => !self.view().contains_key(match_id),
            },
    {
        let mut k: usize = 0;
        while k < self.entries.len()
            invariant
                k <= self.entries@.len(),
                self.well_formed(),
                forall|j: int| 0 <= j < k ==> #[trigger] self.pairs()[j].0 != match_id,
            decreases self.entries@.len() - k,
        {
            assert(self.pairs()[k as int].0 == self.entries@[k as int].match_id);
            if self.entries[k].match_id == match_id {
                proof {
                    lemma_map_of_index(self.pairs(), k as int);
                }
                return Some(k);
            }
            k = k + 1;
        }
        proof {
            lemma_map_of_contains(self.pairs(), match_id);
        }
        None
    }

    fn push_entry(&mut self, entry: HubEntry<S>)
        requires
            old(self).well_formed(),
            !old(self).view().contains_key(entry.match_id),
        ensures
            final(self).well_formed(),
            final(self).view() == old(self).view().insert(
                entry.match_id,
                (entry.latest, entry.presence),
            ),
    {
        let ghost ps = self.pairs();
        let ghost key = entry.match_id;
        let ghost value = (entry.latest, entry.presence);
        self.entries.push(entry);
        proof {
            assert(self.pairs() =~= ps.push((key, value)));
            lemma_map_of_push(ps, key, value);
        }
    }

    fn replace_entry(&mut self, k: usize, entry: HubEntry<S>)
        requires
            old(self).well_formed(),
            k < old(self).entries@.len(),
            old(self).pairs()[k as int].0 == entry.match_id,
        ensures
            final(self).well_formed(),
            final(self).view() == old(self).view().insert(
                entry.match_id,
                (entry.latest, entry.presence),
            ),
    {
        let ghost ps = self.pairs();
        let ghost value = (entry.latest, entry.presence);
        self.entries.set(k, entry);
        proof {
            assert(self.pairs() =~= ps.update(k as int, (ps[k as int].0, value)));
            lemma_map_of_update(ps, k as int, value);
        }
    }

    /// Makes a match known before its first snapshot.
    pub fn register_room(&mut self, match_id: u128)
        requires
            old(self).well_formed(),
        ensures
            final(self).well_formed(),
            final(self).view() == room_registered(old(self).view(), match_id),
    {
        if self.find(match_id).is_none() {
            self.push_entry(HubEntry { match_id, latest: None, presence: SeatPresence { north: false, south: false } });
        }
    }

    /// Makes `snapshot` the latest of its match.
    pub fn register(&mut self, match_id: u128, snapshot: HubSnapshot<S>)
        requires
            old(self).well_formed(),
        ensures
            final(self).well_formed(),
            final(self).view() == snapshot_registered(old(self).view(), match_id, snapshot),
    {
        match self.find(match_id) {
            Some(k) => {
                let presence = self.entries[k].presence;
                self.replace_entry(k, HubEntry { match_id, latest: Some(snapshot), presence });
            },
            None => {
                self.push_entry(HubEntry { match_id, latest: Some(snapshot), presence: SeatPresence { north: false, south: false } });
            },
        }
    }

    /// Replaces the latest snapshot of a committed transition without waiting
    /// for any connection.
    pub fn publish_committed(&mut self, match_id: u128, snapshot: HubSnapshot<S>)
        requires
            old(self).well_formed(),
        ensures
            final(self).well_formed(),
            final(self).view() == snapshot_registered(old(self).view(), match_id, snapshot),
    {
        self.register(match_id, snapshot)
    }

    /// Announces a room state (and a rematch state) to a known match; its
    /// latest snapshot reports both from now on. An unknown match is left
    /// alone and nothing is announced.
    pub fn publish_room_state(
        &mut self,
        match_id: u128,
        connection: ConnectionState,
        rematch: Option<RematchState>,
    ) -> (events: Vec<HubEvent>)
        requires
            old(self).well_formed(),
        ensures
            final(self).well_formed(),
            !old(self).view().contains_key(match_id) ==> final(self).view() == old(self).view()
                && events@.len() == 0,
            old(self).view().contains_key(match_id) ==> final(self).view() == old(self).view().insert(
                match_id,
                (restated(old(self).view()[match_id].0, connection, rematch), old(self).view()[match_id].1),
            ) && events@ == room_state_events(connection, rematch),
    {
        let mut events: Vec<HubEvent> = Vec::new();
        match self.find(match_id) {
            None => events,
            Some(k) => {
                let ghost ps = self.pairs();
                let entry = self.entries.remove(k);
                let ghost old_latest = entry.latest;
                assert(ps[k as int] == (entry.match_id, (entry.latest, entry.presence)));
                let latest = match entry.latest {
                    None => None,
                    Some(s) => Some(
                        HubSnapshot {
                            body: s.body,
                            ended: s.ended,
                            room_state: connection,
                            rematch_state: rematch,
                        },
                    ),
                };
                assert(latest == restated(old_latest, connection, rematch));
                let ghost value = (latest, entry.presence);
                self.entries.insert(k, HubEntry { match_id, latest, presence: entry.presence });
                proof {
                    assert(self.pairs() =~= ps.update(k as int, (ps[k as int].0, value)));
                    lemma_map_of_update(ps, k as int, value);
                }
                events.push(HubEvent::ConnectionState(connection));
                if let Some(r) = rematch {
                    events.push(HubEvent::RematchState(r));
                }
                proof {
                    assert(events@ =~= room_state_events(connection, rematch));
                }
                events
            },
        }
    }

    /// Records that `seat` of a known match connected or disconnected and
    /// announces the room state that follows (finished once the latest
    /// snapshot has an outcome); the latest snapshot reports it from now on.
    /// An unknown match is left alone and nothing is announced.
    pub fn set_seat_connected(&mut self, match_id: u128, seat: Player, connected: bool) -> (events:
        Vec<HubEvent>)
        requires
            old(self).well_formed(),
        ensures
            final(self).well_formed(),
            !old(self).view().contains_key(match_id) ==> final(self).view() == old(self).view()
                && events@.len() == 0,
            old(self).view().contains_key(match_id) ==> final(self).view() == seat_recorded(
                old(self).view(),
                match_id,
                seat,
                connected,
            ) && events@ == seq![
                HubEvent::ConnectionState(seat_state(old(self).view()[match_id], seat, connected)),
            ],
    {
        let mut events: Vec<HubEvent> = Vec::new();
        match self.find(match_id) {
            None => events,
            Some(k) => {
                let ghost ps = self.pairs();
                let entry = self.entries.remove(k);
                let ghost record = (entry.latest, entry.presence);
                assert(ps[k as int] == (entry.match_id, record));
                let mut presence = entry.presence;
                let ended = match &entry.latest {
                    Some(s) => s.ended,
                    None => false,
                };
                let state = presence.set_seat_connected(seat, connected, ended);
                assert(presence == presence_after(record.1, seat, connected));
                assert(state == seat_state(record, seat, connected));
                let latest = match entry.latest {
                    None => None,
                    Some(s) => Some(
                        HubSnapshot {
                            body: s.body,
                            ended: s.ended,
                            room_state: state,
                            rematch_state: s.rematch_state,
                        },
                    ),
                };
                let ghost value = (latest, presence);
                self.entries.insert(k, HubEntry { match_id, latest, presence });
                proof {
                    assert(self.pairs() =~= ps.update(k as int, (ps[k as int].0, value)));
                    lemma_map_of_update(ps, k as int, value);
                    assert(value == seat_recorded(map_of(ps), match_id, seat, connected)[match_id]);
                }
                events.push(HubEvent::ConnectionState(state));
                events
            },
        }
    }

    /// Whether connections can follow a match: it is known to the hub.
    pub fn subscribe(&self, match_id: u128) -> (known: bool)
        requires
            self.well_formed(),
        ensures
            known == self.view().contains_key(match_id),
    {
        self.find(match_id).is_some()
    }

    /// The latest snapshot of a match, if the hub has one.
    pub fn latest(&self, match_id: u128) -> (latest: Option<&HubSnapshot<S>>)
        requires
            self.well_formed(),
        ensures
            match latest {
                Some(s) => self.view().contains_key(match_id) && self.view()[match_id].0 == Some(*s),
                None => !self.view().contains_key(match_id) || self.view()[match_id].0 is None,
            },
    {
        match self.find(match_id) {
            None => None,
            Some(k) => match &self.entries[k].latest {
                Some(s) => Some(s),
                None => None,
            },
        }
    }
}

/// A registered snapshot is the one read back, whatever the match held
/// before; the seats connected to a known match stay connected; no other
/// match changes.
pub proof fn law_latest_is_last_registered<S>(
    hub: Map<u128, HubRecord<S>>,
    match_id: u128,
    snapshot: HubSnapshot<S>,
    other: u128,
)
    ensures
        snapshot_registered(hub, match_id, snapshot)[match_id].0 == Some(snapshot),
        hub.contains_key(match_id) ==> snapshot_registered(hub, match_id, snapshot)[match_id].1
            == hub[match_id].1,
        other != match_id ==> snapshot_registered(hub, match_id, snapshot).contains_key(other)
            == hub.contains_key(other),
        other != match_id && hub.contains_key(other) ==> snapshot_registered(
            hub,
            match_id,
            snapshot,
        )[other] == hub[other],
{
}

/// Once the latest snapshot of a match has an outcome, every seat's coming
/// or going announces a finished room, and the snapshot keeps saying so.
pub proof fn law_finished_match_stays_finished<S>(
    hub: Map<u128, HubRecord<S>>,
    match_id: u128,
    seat: Player,
    connected: bool,
)
    requires
        hub.contains_key(match_id),
        latest_ended(hub[match_id].0),
    ensures
        seat_state(hub[match_id], seat, connected) == ConnectionState::Finished,
        seat_recorded(hub, match_id, seat, connected)[match_id].0 matches Some(s) && s.room_state
            == ConnectionState::Finished && s.ended,
{
}

/// A match is only reported connected while both of its seats are.
pub proof fn law_connected_needs_both_seats<S>(
    hub: Map<u128, HubRecord<S>>,
    match_id: u128,
    seat: Player,
    connected: bool,
)
    requires
        hub.contains_key(match_id),
    ensures
        seat_state(hub[match_id], seat, connected) == ConnectionState::Connected ==> {
            let p = seat_recorded(hub, match_id, seat, connected)[match_id].1;
            p.north && p.south
        },
        !connected ==> seat_state(hub[match_id], seat, connected) != ConnectionState::Connected,
{
}

/// A published room state is what the latest snapshot reports afterwards,
/// and its announcement leads with it.
pub proof fn law_published_state_is_reported<S>(
    hub: Map<u128, HubRecord<S>>,
    match_id: u128,
    connection: ConnectionState,
    rematch: Option<RematchState>,
)
    requires
        hub.contains_key(match_id),
        hub[match_id].0 is Some,
    ensures
        restated(hub[match_id].0, connection, rematch) matches Some(s) && s.room_state == connection
            && s.rematch_state == rematch,
        room_state_events(connection, rematch)[0] == HubEvent::ConnectionState(connection),
{
}

} // verus!
