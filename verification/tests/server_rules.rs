use crownlines::actors::{ActorSubmitError, ActorTable, Admission, DecisionCache, queue_capacity};
use crownlines::connections::{
    ClientRequest, ConnectionState, DrawAction, DrawCommand, ErrorCode, RematchCommand, Route,
    SeatPresence, check_protocol, http_error, route_message,
};
use crownlines::database::{Durability, MigrationStep, SchemaError, migration_plan, synchronous_setting};
use crownlines::limits::{
    ConnectionRegistry, EnvVar, LimitKind, PeerAddress, RequestLimiter, ServerLimits,
};
use crownlines::rooms::{
    ClockSettings, CreateRoomRequest, InstalledScenario, JoinRoomRequest, MatchProgress, Player,
    PersistedRoomRecord,
    RoomError, RoomPhase, RoomService, ScenarioCatalog, MAX_INVALID_TOKEN_ATTEMPTS,
    PROTOCOL_VERSION, ROOM_CODE_CHARS, TOKEN_PARTS, constant_time_eq, normalize_code,
};
use crownlines::server_config::{ServerSettings, durability_from};

const PROTOCOL: u16 = PROTOCOL_VERSION;

fn catalog() -> ScenarioCatalog {
    ScenarioCatalog::from_scenarios(vec![
        InstalledScenario {
            id: "crownlines-introductory".to_owned(),
            hash: "a".repeat(64),
        },
        InstalledScenario {
            id: "crownlines-standard".to_owned(),
            hash: "b".repeat(64),
        },
        InstalledScenario {
            id: "crownlines-large".to_owned(),
            hash: "c".repeat(64),
        },
    ])
}

fn create_request() -> CreateRoomRequest {
    CreateRoomRequest {
        protocol_version: PROTOCOL,
        player_name: "Host <North>".to_owned(),
        scenario_id: "crownlines-standard".to_owned(),
        clock: Some(ClockSettings {
            base_minutes: 15,
            increment_seconds: 3,
        }),
    }
}

fn join_request(code: &str) -> JoinRoomRequest {
    JoinRoomRequest {
        protocol_version: PROTOCOL,
        player_name: "Guest & South".to_owned(),
        room_code: format!("  {}  ", code.to_ascii_lowercase()),
    }
}

#[test]
fn fixed_windows_limit_then_expire_without_unbounded_scope_growth() {
    let now: u64 = 5_000_000;
    let mut limiter = RequestLimiter::default();
    assert!(limiter.check(LimitKind::Create, "127.0.0.1", 2, now));
    assert!(limiter.check(LimitKind::Create, "127.0.0.1", 2, now));
    assert!(!limiter.check(LimitKind::Create, "127.0.0.1", 2, now));
    limiter.discard_expired(now + 60_000);
    assert_eq!(limiter.tracked_scopes(), 0);
}

#[test]
fn connections_are_bounded_per_ip_and_globally_and_release_capacity() {
    let limits = ServerLimits {
        max_connections_total: 2,
        max_connections_per_ip: 1,
        ..ServerLimits::defaults(65_536)
    };
    let first = PeerAddress::V4(0x7f00_0001);
    let second = PeerAddress::V4(0x7f00_0002);
    let mut registry = ConnectionRegistry::new();
    assert!(registry.try_open(first, &limits));
    assert!(!registry.try_open(first, &limits));
    assert!(registry.try_open(second, &limits));
    registry.close(first);
    assert!(registry.try_open(first, &limits));
}

#[test]
fn request_windows_are_separate_per_kind_and_scope_and_reopen_after_a_minute() {
    let mut limiter = RequestLimiter::new();
    assert!(limiter.check(LimitKind::Join, "10.0.0.1", 1, 0));
    assert!(!limiter.check(LimitKind::Join, "10.0.0.1", 1, 59_999));
    assert!(limiter.check(LimitKind::Create, "10.0.0.1", 1, 10));
    assert!(limiter.check(LimitKind::Join, "10.0.0.2", 1, 10));
    assert_eq!(limiter.tracked_scopes(), 3);
    assert!(limiter.check(LimitKind::Join, "10.0.0.1", 1, 60_000));
    limiter.discard_expired(60_009);
    assert_eq!(limiter.tracked_scopes(), 3);
    limiter.discard_expired(120_000);
    assert_eq!(limiter.tracked_scopes(), 0);
}

#[test]
fn a_zero_maximum_admits_nothing() {
    let mut limiter = RequestLimiter::new();
    assert!(!limiter.check(LimitKind::RoomOperation, "ROOM01", 0, 0));
}

#[test]
fn limits_default_and_accept_positive_overrides() {
    let defaults = ServerLimits::defaults(65_536);
    assert_eq!(defaults.max_rooms, 1_000);
    assert_eq!(defaults.pregame_idle_timeout, 1_800);
    let env = vec![
        EnvVar {
            name: "CROWNLINE_MAX_ROOMS".to_owned(),
            value: Some("25".to_owned()),
        },
        EnvVar {
            name: "UNRELATED".to_owned(),
            value: Some("x".to_owned()),
        },
    ];
    let limits = ServerLimits::from_env(defaults, &env).unwrap();
    assert_eq!(limits.max_rooms, 25);
    assert_eq!(limits.max_connections_per_ip, 8);
}

#[test]
fn limits_reject_zero_and_non_numeric_overrides() {
    let defaults = ServerLimits::defaults(65_536);
    let zero = vec![EnvVar {
        name: "CROWNLINE_MAX_ROOMS".to_owned(),
        value: Some("0".to_owned()),
    }];
    assert!(ServerLimits::from_env(defaults, &zero).is_err());
    let word = vec![EnvVar {
        name: "CROWNLINE_MAX_CONNECTIONS_PER_IP".to_owned(),
        value: Some("many".to_owned()),
    }];
    assert!(ServerLimits::from_env(defaults, &word).is_err());
    let unreadable = vec![EnvVar {
        name: "CROWNLINE_MAX_ROOMS".to_owned(),
        value: None,
    }];
    assert!(ServerLimits::from_env(defaults, &unreadable).is_err());
}

#[test]
fn newer_schema_is_rejected_without_applying_changes() {
    assert_eq!(
        migration_plan(99),
        Err(SchemaError::NewerSchema {
            found: 99,
            supported: 1
        })
    );
    assert_eq!(migration_plan(0), Ok(MigrationStep::ApplyInitial));
    assert_eq!(migration_plan(1), Ok(MigrationStep::UpToDate));
    assert_eq!(synchronous_setting(Durability::Full), "FULL");
    assert_eq!(synchronous_setting(Durability::Normal), "NORMAL");
}

#[test]
fn create_join_and_ready_reach_play_once_both_seats_are_ready() {
    let mut service = RoomService::new(catalog());
    let created = service.create(create_request(), true, 1_000).unwrap();
    assert_eq!(created.room_code.len(), ROOM_CODE_CHARS);
    assert!(created
        .room_code
        .bytes()
        .all(|byte| b"ABCDEFGHJKLMNPQRSTUVWXYZ23456789".contains(&byte)));
    assert_eq!(created.seat, Player::North);
    let joined = service
        .join(join_request(&created.room_code), true, 2_000)
        .unwrap();
    assert_eq!(joined.seat, Player::South);
    assert_eq!(joined.match_id, created.match_id);
    assert_eq!(
        service.ready(&created.room_code, &created.reconnect_token, 3_000),
        Ok(RoomPhase::WaitingForReady)
    );
    assert!(service.room(&created.room_code).unwrap().state.is_none());
    assert_eq!(
        service.ready(&created.room_code, &joined.reconnect_token, 4_000),
        Ok(RoomPhase::Playing)
    );
    let room = service.room(&created.room_code).unwrap();
    assert_eq!(room.scenario_hash, "b".repeat(64));
    assert_eq!(
        room.state.as_ref().unwrap().scenario_id,
        "crownlines-standard"
    );
}

#[test]
fn full_room_and_wrong_seat_credentials_cannot_join_or_ready() {
    let mut service = RoomService::new(catalog());
    let created = service.create(create_request(), true, 0).unwrap();
    let host_token = created.reconnect_token.clone();
    let joined = service
        .join(join_request(&created.room_code), true, 0)
        .unwrap();
    let guest_token = joined.reconnect_token.clone();
    assert_eq!(
        service
            .join(join_request(&created.room_code), true, 0)
            .unwrap_err(),
        RoomError::Full
    );
    assert_eq!(
        service.ready(&created.room_code, "invalid-token", 0),
        Err(RoomError::Unauthorized)
    );
    assert_ne!(host_token, guest_token);
}

#[test]
fn lobby_leave_and_terminal_rematch_are_deterministic() {
    let mut service = RoomService::new(catalog());
    let created = service.create(create_request(), true, 0).unwrap();
    let code = created.room_code.clone();
    let host_token = created.reconnect_token.clone();
    let joined = service.join(join_request(&code), true, 0).unwrap();
    assert_eq!(
        service.leave_lobby(&code, &joined.reconnect_token, 0),
        Ok(false)
    );
    let joined = service.join(join_request(&code), true, 0).unwrap();
    let guest_token = joined.reconnect_token.clone();
    service.ready(&code, &host_token, 0).unwrap();
    service.ready(&code, &guest_token, 0).unwrap();
    let old_match = service.room(&code).unwrap().match_id;
    let terminal = MatchProgress {
        scenario_id: "crownlines-standard".to_owned(),
        terminal: true,
    };
    assert_eq!(
        service.sync_committed_state(&code, old_match, terminal, 0),
        Ok(RoomPhase::Finished)
    );
    assert_eq!(
        service.accept_rematch(&code, &host_token, 0),
        Ok(RoomPhase::Finished)
    );
    assert_eq!(
        service.accept_rematch(&code, &guest_token, 0),
        Ok(RoomPhase::Playing)
    );
    let room = service.room(&code).unwrap();
    assert_ne!(room.match_id, old_match);
    assert!(!room.state.as_ref().unwrap().terminal);
}

#[test]
fn unknown_scenario_and_invalid_clock_are_rejected_before_room_creation() {
    let mut service = RoomService::new(catalog());
    let mut request = create_request();
    request.scenario_id = "not-installed".to_owned();
    assert_eq!(
        service.create(request, true, 0).unwrap_err(),
        RoomError::UnknownScenario
    );
    let mut request = create_request();
    request.clock.as_mut().unwrap().base_minutes = 0;
    assert_eq!(
        service.create(request, true, 0).unwrap_err(),
        RoomError::InvalidRequest
    );
}

#[test]
fn issued_tokens_are_distinct_high_entropy_and_redacted_at_rest() {
    let mut service = RoomService::new(catalog());
    let created = service.create(create_request(), true, 0).unwrap();
    let joined = service
        .join(join_request(&created.room_code), true, 0)
        .unwrap();
    assert_eq!(created.reconnect_token.len(), TOKEN_PARTS * 32);
    assert_eq!(joined.reconnect_token.len(), TOKEN_PARTS * 32);
    assert_ne!(created.reconnect_token, joined.reconnect_token);
    let stored = format!("{:?}", service.room(&created.room_code).unwrap());
    assert!(!stored.contains(&created.reconnect_token));
    assert!(!stored.contains(&joined.reconnect_token));
}

#[test]
fn invalid_tokens_are_indistinguishable_and_rate_limited_per_room_locator() {
    let mut service = RoomService::new(catalog());
    let created = service.create(create_request(), true, 0).unwrap();
    assert_eq!(
        service.ready(&created.room_code, "wrong", 0),
        Err(RoomError::Unauthorized)
    );
    assert_eq!(service.ready("ZZZZZZ", "wrong", 0), Err(RoomError::Unauthorized));
    for _ in 1..MAX_INVALID_TOKEN_ATTEMPTS {
        assert_eq!(
            service.ready(&created.room_code, "wrong", 0),
            Err(RoomError::Unauthorized)
        );
    }
    assert_eq!(
        service.ready(&created.room_code, "wrong", 0),
        Err(RoomError::RateLimited)
    );
}

#[test]
fn cleanup_expires_only_idle_never_started_rooms_and_room_count_is_bounded() {
    let start: u64 = 0;
    let mut service = RoomService::new(catalog()).with_max_rooms(2);
    let idle = service.create(create_request(), true, start).unwrap();
    let active = service.create(create_request(), true, start).unwrap();
    let joined = service
        .join(join_request(&active.room_code), true, start)
        .unwrap();
    service
        .ready(&active.room_code, &active.reconnect_token, start)
        .unwrap();
    service
        .ready(&active.room_code, &joined.reconnect_token, start)
        .unwrap();
    assert_eq!(
        service.create(create_request(), true, start).unwrap_err(),
        RoomError::RateLimited
    );
    let now = start + 31 * 60_000;
    assert_eq!(service.expire_idle_pregame(now, 30 * 60_000), 1);
    assert!(service.room(&idle.room_code).is_none());
    assert!(service.room(&active.room_code).is_some());
    assert!(service.create(create_request(), true, now).is_ok());
}

#[test]
fn room_codes_are_trimmed_and_upper_cased() {
    assert_eq!(normalize_code("  abc234 "), "ABC234");
    assert_eq!(normalize_code("XYZ"), "XYZ");
}

#[test]
fn token_digests_compare_in_full() {
    let a = [7u8; 32];
    let mut b = [7u8; 32];
    assert!(constant_time_eq(&a, &b));
    b[31] = 8;
    assert!(!constant_time_eq(&a, &b));
}

#[test]
fn messages_for_another_match_are_refused_and_draws_name_the_seat() {
    assert_eq!(
        route_message(ClientRequest::Ready { match_id: 2 }, 1, Player::North),
        Route::Refuse {
            code: ErrorCode::Unauthorized,
            message: "Wrong match."
        }
    );
    assert_eq!(
        route_message(
            ClientRequest::Draw {
                match_id: 1,
                command: DrawCommand::Accept
            },
            1,
            Player::South
        ),
        Route::SubmitDraw(DrawAction::RespondToDraw {
            player: Player::South,
            accept: true
        })
    );
    assert_eq!(
        route_message(
            ClientRequest::Rematch {
                match_id: 1,
                command: RematchCommand::Decline
            },
            1,
            Player::North
        ),
        Route::DeclineRematch
    );
    assert_eq!(
        route_message(ClientRequest::Authenticate, 1, Player::North),
        Route::Refuse {
            code: ErrorCode::InvalidRequest,
            message: "Already authenticated."
        }
    );
}

#[test]
fn room_errors_map_to_public_http_replies() {
    let full = http_error(RoomError::Full);
    assert_eq!((full.status, full.code), (409, ErrorCode::RoomFull));
    assert_eq!(full.message, "The room is full.");
    assert!(!full.retryable);
    let busy = http_error(RoomError::CodeSpaceExhausted);
    assert_eq!(busy.status, 503);
    assert!(busy.retryable);
    assert_eq!(http_error(RoomError::RateLimited).status, 429);
}

#[test]
fn seat_presence_reports_the_room_state() {
    let mut presence = SeatPresence::default();
    assert_eq!(
        presence.set_seat_connected(Player::North, true, false),
        ConnectionState::OpponentDisconnected
    );
    assert_eq!(
        presence.set_seat_connected(Player::South, true, false),
        ConnectionState::Connected
    );
    assert_eq!(
        presence.set_seat_connected(Player::South, false, true),
        ConnectionState::Finished
    );
}

#[test]
fn decisions_replay_and_stale_commands_are_told_apart() {
    let mut cache: DecisionCache<u32> = DecisionCache::new(2);
    assert_eq!(cache.admission(10, 1, 1, 4, 4), Admission::Execute);
    assert_eq!(cache.admission(10, 1, 1, 3, 4), Admission::Stale);
    assert_eq!(cache.admission(10, 2, 1, 4, 4), Admission::Stale);
    cache.record(10, 100);
    assert_eq!(cache.admission(10, 1, 1, 3, 4), Admission::Replay);
    assert_eq!(cache.lookup(10), Some(&100));
    cache.record(11, 101);
    cache.record(12, 102);
    assert_eq!(cache.lookup(10), None);
    assert_eq!(cache.lookup(12), Some(&102));
}

#[test]
fn idle_actors_unload_and_queues_hold_at_least_one_command() {
    assert_eq!(queue_capacity(0), 1);
    assert_eq!(queue_capacity(64), 64);
    let mut table: ActorTable<&str> = ActorTable::new();
    table.insert(1, "first", 0);
    table.insert(2, "second", 50_000);
    assert_eq!(table.unload_idle(60_000, 30_000), 1);
    assert_eq!(table.touch(1, 60_000), None);
    assert_eq!(table.touch(2, 60_000), Some(&"second"));
    assert!(table.remove(2));
    assert!(!table.remove(2));
}

#[test]
fn submit_errors_say_whether_to_retry() {
    assert!(ActorSubmitError::QueueFull.retryable());
    assert!(ActorSubmitError::Failed.retryable());
    assert!(!ActorSubmitError::Load("broken".to_owned()).retryable());
}

#[test]
fn server_settings_default_and_reject_out_of_range_values() {
    let settings = ServerSettings::from_values(None, None, None).unwrap();
    assert!(!settings.json_logs);
    assert_eq!(settings.shutdown_seconds, 15);
    let settings =
        ServerSettings::from_values(Some("JSON"), Some("https://play.example".to_owned()), Some("300"))
            .unwrap();
    assert!(settings.json_logs);
    assert_eq!(settings.shutdown_seconds, 300);
    assert_eq!(
        ServerSettings::from_values(None, Some("ftp://x".to_owned()), None).unwrap_err(),
        "CROWNLINE_PUBLIC_URL must use http:// or https://"
    );
    assert_eq!(
        ServerSettings::from_values(None, None, Some("soon")).unwrap_err(),
        "CROWNLINE_SHUTDOWN_SECONDS must be an integer"
    );
    assert_eq!(
        ServerSettings::from_values(None, None, Some("0")).unwrap_err(),
        "CROWNLINE_SHUTDOWN_SECONDS must be between 1 and 300"
    );
    assert_eq!(durability_from(None), Ok(Durability::Full));
    assert_eq!(durability_from(Some("NORMAL")), Ok(Durability::Normal));
    assert!(durability_from(Some("fast")).is_err());
}

#[test]
fn incompatible_protocol_is_actionable_before_a_seat_is_joined() {
    let mut service = RoomService::new(catalog());
    let future_version = PROTOCOL_VERSION + 1;
    let mut future = create_request();
    future.protocol_version = future_version;
    let refused = service.create(future, true, 0).unwrap_err();
    assert_eq!(refused, RoomError::IncompatibleProtocol);
    let reply = http_error(refused);
    assert_eq!((reply.status, reply.code), (426, ErrorCode::IncompatibleProtocol));

    let created = service.create(create_request(), true, 0).unwrap();
    assert!(created.room_code.len() == ROOM_CODE_CHARS);
    let mut future_join = join_request(&created.room_code);
    future_join.protocol_version = future_version;
    let refused = service.join(future_join, true, 0).unwrap_err();
    assert_eq!(refused, RoomError::IncompatibleProtocol);
    assert_eq!(http_error(refused).status, 426);
    service.join(join_request(&created.room_code), true, 0).unwrap();

    let message = check_protocol(future_version).unwrap_err();
    assert!(message.contains("Client protocol") && message.contains("server protocol"));
    assert_eq!(message, "Client protocol 2 is not supported; server protocol is 1.");
    assert_eq!(check_protocol(PROTOCOL_VERSION), Ok(()));
}

#[test]
fn a_room_is_always_created_in_an_empty_service() {
    let mut service = RoomService::new(catalog());
    assert!(service.create(create_request(), true, 0).is_ok());
    let mut untimed = create_request();
    untimed.clock = None;
    assert!(service.create(untimed, true, 0).is_ok());
    let mut too_long = create_request();
    too_long.clock.as_mut().unwrap().increment_seconds = 61;
    assert_eq!(service.create(too_long, true, 0).unwrap_err(), RoomError::InvalidRequest);
}

#[test]
fn a_decision_replays_until_the_limit_of_newer_decisions() {
    let mut cache: DecisionCache<u32> = DecisionCache::new(4);
    cache.record(1, 10);
    for key in 2..=4u128 {
        cache.record(key, 0);
        assert_eq!(cache.lookup(1), Some(&10));
        assert_eq!(cache.admission(1, 9, 9, 0, 5), Admission::Replay);
    }
    cache.record(5, 0);
    assert_eq!(cache.lookup(1), None);
}

#[test]
fn a_running_window_admits_at_most_its_maximum() {
    let mut limiter = RequestLimiter::new();
    let admitted = (0..10u64)
        .filter(|i| limiter.check(LimitKind::Join, "10.0.0.1", 3, 1_000 + i * 5_000))
        .count();
    assert_eq!(admitted, 3);
}

#[test]
fn discarding_ended_windows_changes_no_later_answer() {
    let mut kept = RequestLimiter::new();
    let mut discarded = RequestLimiter::new();
    for limiter in [&mut kept, &mut discarded] {
        limiter.check(LimitKind::Create, "a", 1, 0);
        limiter.check(LimitKind::Create, "b", 1, 50_000);
    }
    discarded.discard_expired(70_000);
    for (scope, time) in [("a", 70_000u64), ("a", 71_000), ("b", 80_000), ("b", 110_000), ("c", 120_000)] {
        assert_eq!(
            kept.check(LimitKind::Create, scope, 1, time),
            discarded.check(LimitKind::Create, scope, 1, time)
        );
    }
}

#[test]
fn wall_clock_readings_convert_to_milliseconds() {
    assert_eq!(
        crownlines::authority::unix_millis(std::time::UNIX_EPOCH + std::time::Duration::from_millis(1_234)),
        Ok(1_234)
    );
    assert_eq!(
        crownlines::authority::unix_millis(std::time::UNIX_EPOCH - std::time::Duration::from_secs(1)),
        Err("server wall clock precedes Unix epoch".to_owned())
    );
    assert!(crownlines::recovery::now_unix_millis().is_ok());
}

#[test]
fn persisted_hashes_reconstruct_both_authenticated_seats_without_raw_tokens() {
    let mut service = RoomService::new(catalog());
    let created = service.create(create_request(), true, 0).unwrap();
    let joined = service.join(join_request(&created.room_code), true, 0).unwrap();
    let host_token = created.reconnect_token.clone();
    let guest_token = joined.reconnect_token.clone();
    service.ready(&created.room_code, &host_token, 0).unwrap();
    service.ready(&created.room_code, &guest_token, 0).unwrap();
    let record: PersistedRoomRecord = service.persisted_room(&created.room_code).unwrap();
    assert!(!format!("{:?}", record).contains(&host_token));
    let progress = service.room(&created.room_code).unwrap().state.as_ref().unwrap();
    let state = MatchProgress { scenario_id: progress.scenario_id.clone(), terminal: progress.terminal };

    let mut restored = RoomService::new(catalog());
    assert_eq!(restored.restore_started_room(record, state, 10), Ok(()));
    assert_eq!(
        restored.authenticate_seat(&created.room_code, &host_token, 10).unwrap().1,
        Player::North
    );
    assert_eq!(
        restored.authenticate_seat(&created.room_code, &guest_token, 10).unwrap().1,
        Player::South
    );
    assert_eq!(
        restored.authenticate_seat(&created.room_code, "not-a-token", 10),
        Err(RoomError::Unauthorized)
    );

    let again = service.persisted_room(&created.room_code).unwrap();
    let state = MatchProgress { scenario_id: "crownlines-standard".to_owned(), terminal: false };
    assert_eq!(restored.restore_started_room(again, state, 10), Err(RoomError::InvalidRequest));
}
