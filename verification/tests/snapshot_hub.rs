use crownlines::connections::{ConnectionState, RematchState};
use crownlines::rooms::Player;
use crownlines::snapshot_hub::{HubEvent, HubSnapshot, SnapshotHub};

fn snapshot(body: &str, ended: bool) -> HubSnapshot<String> {
    HubSnapshot {
        body: body.to_owned(),
        ended,
        room_state: ConnectionState::Connected,
        rematch_state: None,
    }
}

#[test]
fn the_latest_snapshot_is_the_last_registered() {
    let mut hub: SnapshotHub<String> = SnapshotHub::new();
    assert!(!hub.subscribe(7));
    assert!(hub.latest(7).is_none());
    hub.register_room(7);
    assert!(hub.subscribe(7));
    assert!(hub.latest(7).is_none());
    hub.register(7, snapshot("revision 1", false));
    hub.publish_committed(7, snapshot("revision 2", false));
    assert_eq!(hub.latest(7).map(|s| s.body.as_str()), Some("revision 2"));
    hub.register(9, snapshot("other", false));
    assert_eq!(hub.latest(7).map(|s| s.body.as_str()), Some("revision 2"));
    assert_eq!(hub.latest(9).map(|s| s.body.as_str()), Some("other"));
}

#[test]
fn unknown_matches_announce_nothing() {
    let mut hub: SnapshotHub<String> = SnapshotHub::new();
    assert!(hub
        .publish_room_state(3, ConnectionState::Finished, Some(RematchState::Requested))
        .is_empty());
    assert!(hub.set_seat_connected(3, Player::North, true).is_empty());
    assert!(!hub.subscribe(3));
}

#[test]
fn published_room_states_are_announced_and_reported() {
    let mut hub: SnapshotHub<String> = SnapshotHub::new();
    hub.register(5, snapshot("state", true));
    let events = hub.publish_room_state(5, ConnectionState::Finished, Some(RematchState::Requested));
    assert_eq!(
        events,
        vec![
            HubEvent::ConnectionState(ConnectionState::Finished),
            HubEvent::RematchState(RematchState::Requested),
        ]
    );
    let latest = hub.latest(5).unwrap();
    assert_eq!(latest.room_state, ConnectionState::Finished);
    assert_eq!(latest.rematch_state, Some(RematchState::Requested));
    let events = hub.publish_room_state(5, ConnectionState::Finished, None);
    assert_eq!(events, vec![HubEvent::ConnectionState(ConnectionState::Finished)]);
    assert_eq!(hub.latest(5).unwrap().rematch_state, None);
}

#[test]
fn seats_coming_and_going_set_the_room_state() {
    let mut hub: SnapshotHub<String> = SnapshotHub::new();
    hub.register(1, snapshot("live", false));
    assert_eq!(
        hub.set_seat_connected(1, Player::North, true),
        vec![HubEvent::ConnectionState(ConnectionState::OpponentDisconnected)]
    );
    assert_eq!(
        hub.set_seat_connected(1, Player::South, true),
        vec![HubEvent::ConnectionState(ConnectionState::Connected)]
    );
    assert_eq!(hub.latest(1).unwrap().room_state, ConnectionState::Connected);
    hub.register(1, snapshot("next", false));
    assert_eq!(
        hub.set_seat_connected(1, Player::North, true),
        vec![HubEvent::ConnectionState(ConnectionState::Connected)]
    );
    assert_eq!(
        hub.set_seat_connected(1, Player::South, false),
        vec![HubEvent::ConnectionState(ConnectionState::OpponentDisconnected)]
    );
    assert_eq!(hub.latest(1).unwrap().room_state, ConnectionState::OpponentDisconnected);
}

#[test]
fn a_finished_match_stays_finished() {
    let mut hub: SnapshotHub<String> = SnapshotHub::new();
    hub.register(2, snapshot("over", true));
    assert_eq!(
        hub.set_seat_connected(2, Player::North, true),
        vec![HubEvent::ConnectionState(ConnectionState::Finished)]
    );
    assert_eq!(
        hub.set_seat_connected(2, Player::South, false),
        vec![HubEvent::ConnectionState(ConnectionState::Finished)]
    );
    assert_eq!(hub.latest(2).unwrap().room_state, ConnectionState::Finished);

    let mut empty: SnapshotHub<String> = SnapshotHub::new();
    empty.register_room(4);
    assert_eq!(
        empty.set_seat_connected(4, Player::North, true),
        vec![HubEvent::ConnectionState(ConnectionState::OpponentDisconnected)]
    );
    assert!(empty.latest(4).is_none());
}
