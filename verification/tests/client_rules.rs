use crownlines::config::{
    CameraBindingsSettings, CameraKey, DEFAULT_WINDOW_HEIGHT, DEFAULT_WINDOW_WIDTH,
    validate_server_url, validate_window,
};
use crownlines::lifecycle::{
    ClientFlow, LifecycleCommand, LifecycleKeys, LocalSetup, MAX_BASE_MINUTES,
    MAX_INCREMENT_SECONDS, MIN_BASE_MINUTES, accumulate_elapsed, next_flow, update_clock_setup,
    validate_names,
};
use crownlines::menu::{MenuAction, MenuButton, MenuEffect, MenuRoute, MenuState, menu_title};
use crownlines::persistence::{
    LocalPersistenceStatus, check_save_size,
    next_slot, slot_file_name, validate_save_header, validate_saved_setup,
};
use crownlines::rooms::ClockSettings;

fn no_keys() -> LifecycleKeys {
    LifecycleKeys {
        previous_scenario: false,
        next_scenario: false,
        toggle_clock: false,
        base_down: false,
        base_up: false,
        increment_down: false,
        increment_up: false,
        swap_names: false,
        start_local: false,
        pause: false,
        resign: false,
        offer_draw: false,
        accept_draw: false,
        decline_draw: false,
        escape: false,
        enter: false,
        rematch: false,
    }
}

#[test]
fn menu_navigation_stack_is_bounded_and_deterministic() {
    let mut state = MenuState::new();
    state.open(MenuRoute::Home);
    state.open(MenuRoute::Settings);
    state.open(MenuRoute::Settings);
    assert_eq!(state.previous, vec![MenuRoute::Home]);
    state.back();
    assert_eq!(state.route, Some(MenuRoute::Home));
    state.close();
    assert!(!state.is_open());
    assert!(state.previous.is_empty());
}

#[test]
fn pointer_and_keyboard_use_the_same_typed_intent() {
    let button = MenuButton::new(MenuAction::Open(MenuRoute::Settings));
    assert!(button.can_activate());
    assert_eq!(
        button.intent(),
        Some(MenuAction::Open(MenuRoute::Settings))
    );
    assert_eq!(button.disabled().intent(), None);
    assert_eq!(button.pending().intent(), None);
    assert!(button.selected().destructive().can_activate());
}

#[test]
fn quitting_asks_for_confirmation_on_home_and_escape_dismisses_first() {
    let mut state = MenuState::new();
    assert_eq!(state.escape_action(), None);
    state.apply(MenuAction::Open(MenuRoute::Home));
    assert_eq!(state.apply(MenuAction::Quit), MenuEffect::Nothing);
    assert!(state.modal);
    assert_eq!(state.escape_action(), Some(MenuAction::Cancel));
    assert_eq!(state.apply(MenuAction::Confirm), MenuEffect::ExitApplication);
    state.apply(MenuAction::Cancel);
    assert!(!state.modal);
    assert_eq!(state.escape_action(), Some(MenuAction::Back));
    state.apply(MenuAction::Back);
    assert_eq!(state.route, Some(MenuRoute::Home));
    state.apply(MenuAction::Open(MenuRoute::Saves));
    state.apply(MenuAction::Back);
    assert_eq!(state.route, Some(MenuRoute::Home));
    assert_eq!(menu_title(Some(MenuRoute::Saves)), "LOCAL SAVES");
    assert_eq!(menu_title(None), "CROWNLINES");
}

#[test]
fn invalid_names_are_rejected_and_trimmed_names_are_accepted() {
    assert!(validate_names("", "South").is_err());
    assert!(validate_names("Alex", "alex").is_err());
    assert!(validate_names(&"x".repeat(25), "South").is_err());
    assert_eq!(
        validate_names(" North ", " South ").unwrap(),
        ("North".to_owned(), "South".to_owned())
    );
}

#[test]
fn name_errors_name_their_reason() {
    assert_eq!(
        validate_names("  ", "South").unwrap_err(),
        "Both player names are required."
    );
    assert_eq!(
        validate_names("North", &"y".repeat(30)).unwrap_err(),
        "Player names must be 24 characters or fewer."
    );
    assert_eq!(
        validate_names("ALEX", " alex ").unwrap_err(),
        "Player names must be distinct."
    );
}

#[test]
fn rematch_preserves_setup_but_creates_fresh_session_and_state() {
    let mut setup = LocalSetup::new();
    setup.begin_session();
    assert_eq!(setup.session_id, 1);
    assert_eq!(setup.north_name, "North Player");
    assert_eq!(setup.south_name, "South Player");
    assert_eq!(setup.selected_scenario, 1);
}

#[test]
fn clock_setup_is_untimed_by_default_and_clamps_documented_bounds() {
    let setup = LocalSetup::new();
    assert_eq!(setup.clock, None);
    let toggle = LifecycleKeys {
        toggle_clock: true,
        ..no_keys()
    };
    assert_eq!(update_clock_setup(setup.clock, &toggle).unwrap().base_minutes, 10);
    let low = Some(ClockSettings {
        base_minutes: MIN_BASE_MINUTES,
        increment_seconds: 0,
    });
    let down = LifecycleKeys {
        base_down: true,
        increment_down: true,
        ..no_keys()
    };
    assert_eq!(
        update_clock_setup(low, &down).unwrap().base_minutes,
        MIN_BASE_MINUTES
    );
    let high = Some(ClockSettings {
        base_minutes: MAX_BASE_MINUTES,
        increment_seconds: MAX_INCREMENT_SECONDS,
    });
    let up = LifecycleKeys {
        base_up: true,
        increment_up: true,
        ..no_keys()
    };
    let clock = update_clock_setup(high, &up).unwrap();
    assert_eq!(clock.base_minutes, MAX_BASE_MINUTES);
    assert_eq!(clock.increment_seconds, MAX_INCREMENT_SECONDS);
    assert_eq!(update_clock_setup(clock.into(), &toggle), None);
}

#[test]
fn monotonic_elapsed_carry_is_independent_of_frame_partitioning() {
    let frame = |carry: &mut u32, micros: u64| {
        let d = std::time::Duration::from_micros(micros);
        accumulate_elapsed(carry, d.as_secs(), d.subsec_nanos())
    };
    let mut split = 0u32;
    let split_total: u64 = [333_333u64, 333_333, 333_334]
        .into_iter()
        .map(|micros| frame(&mut split, micros))
        .sum();
    let mut single = 0u32;
    assert_eq!(split_total, frame(&mut single, 1_000_000));
    assert_eq!(split_total, 1_000);
    assert_eq!(split, single);
}

#[test]
fn setup_keys_cycle_scenarios_swap_names_and_start_sessions() {
    let mut setup = LocalSetup::new();
    let previous = LifecycleKeys {
        previous_scenario: true,
        ..no_keys()
    };
    assert!(!setup.handle_setup_keys(&previous, 3, "A", "B"));
    assert_eq!(setup.selected_scenario, 0);
    assert!(!setup.handle_setup_keys(&previous, 3, "A", "B"));
    assert_eq!(setup.selected_scenario, 2);
    let start = LifecycleKeys {
        start_local: true,
        swap_names: true,
        ..no_keys()
    };
    assert!(setup.handle_setup_keys(&start, 3, " Ada ", "Grace"));
    assert_eq!(setup.north_name, "Grace");
    assert_eq!(setup.south_name, "Ada");
    assert_eq!(setup.session_id, 1);
    assert!(setup.error.is_empty());
    let start = LifecycleKeys {
        start_local: true,
        ..no_keys()
    };
    assert!(!setup.handle_setup_keys(&start, 3, "Same", "same"));
    assert_eq!(setup.error, "Player names must be distinct.");
    assert_eq!(setup.session_id, 1);
}

#[test]
fn resignation_needs_confirmation_and_pause_blocks_commands() {
    let resign = LifecycleKeys {
        resign: true,
        ..no_keys()
    };
    assert_eq!(
        next_flow(ClientFlow::Playing, &resign, false, false),
        (ClientFlow::ConfirmResign, LifecycleCommand::Nothing)
    );
    let enter = LifecycleKeys {
        enter: true,
        ..no_keys()
    };
    assert_eq!(
        next_flow(ClientFlow::ConfirmResign, &enter, false, false),
        (ClientFlow::Outcome, LifecycleCommand::Resign)
    );
    let accept = LifecycleKeys {
        accept_draw: true,
        ..no_keys()
    };
    assert_eq!(
        next_flow(ClientFlow::Playing, &accept, false, false),
        (ClientFlow::Playing, LifecycleCommand::Nothing)
    );
    assert_eq!(
        next_flow(ClientFlow::Playing, &accept, false, true),
        (ClientFlow::Playing, LifecycleCommand::RespondToDraw(true))
    );
    assert_eq!(
        next_flow(ClientFlow::Paused, &accept, false, true),
        (ClientFlow::Paused, LifecycleCommand::Nothing)
    );
    assert_eq!(
        next_flow(ClientFlow::Playing, &no_keys(), true, false),
        (ClientFlow::Outcome, LifecycleCommand::Nothing)
    );
    let rematch = LifecycleKeys {
        rematch: true,
        ..no_keys()
    };
    assert_eq!(
        next_flow(ClientFlow::Outcome, &rematch, true, false),
        (ClientFlow::Playing, LifecycleCommand::Rematch)
    );
}

#[test]
fn defaults_are_valid() {
    assert_eq!(
        validate_window(DEFAULT_WINDOW_WIDTH, DEFAULT_WINDOW_HEIGHT),
        Ok(())
    );
    assert_eq!(validate_server_url("ws://127.0.0.1:5000"), Ok(()));
    let bindings = CameraBindingsSettings::default();
    assert_eq!(bindings.pan_up, CameraKey::W);
    assert_eq!(bindings.zoom_out, CameraKey::Q);
    assert_eq!(bindings.reset, CameraKey::F);
}

#[test]
fn rejects_non_websocket_server_url() {
    assert!(validate_server_url("https://example.invalid").is_err());
    assert_eq!(
        validate_window(320, 800),
        Err("window_width must be between 640 and 7680")
    );
    assert_eq!(
        validate_window(1280, 5000),
        Err("window_height must be between 480 and 4320")
    );
    assert_eq!(validate_server_url("wss://play.example"), Ok(()));
}

#[test]
fn save_slots_cycle_and_name_their_files() {
    assert_eq!(next_slot(1), 2);
    assert_eq!(next_slot(3), 1);
    assert_eq!(slot_file_name(2).unwrap(), "slot-2.json");
    assert_eq!(slot_file_name(4).unwrap_err(), "save slot 4 is outside 1–3");
}

#[test]
fn save_fields_are_checked_in_order() {
    assert_eq!(validate_save_header(1, "0.1.0"), Ok(()));
    assert_eq!(
        validate_save_header(2, "0.1.0").unwrap_err(),
        "local save format 2 is unsupported (current 1)"
    );
    assert_eq!(
        validate_save_header(1, "   ").unwrap_err(),
        "application version is missing"
    );
    assert_eq!(validate_saved_setup("North", "South", 1), Ok(()));
    assert_eq!(
        validate_saved_setup("North", "north", 1).unwrap_err(),
        "saved player names are invalid"
    );
    assert_eq!(
        validate_saved_setup("North", "South", 3).unwrap_err(),
        "saved scenario selection is invalid"
    );
}

#[test]
fn save_slot_status_messages() {
    let mut status = LocalPersistenceStatus::new();
    assert_eq!(status.slot, 1);
    assert_eq!(status.message, "F5 save · F9 load · F6 change slot");
    status.change_slot();
    assert_eq!((status.slot, status.message.as_str()), (2, "Selected save slot 2."));
    status.change_slot();
    status.change_slot();
    assert_eq!((status.slot, status.message.as_str()), (1, "Selected save slot 1."));

    assert!(!LocalPersistenceStatus::save_allowed(ClientFlow::Setup));
    assert!(LocalPersistenceStatus::save_allowed(ClientFlow::Paused));

    status.record_save(Ok("/saves/slot-1.json"));
    assert_eq!(status.message, "Saved slot 1 safely to /saves/slot-1.json.");
    status.record_save(Err("disk full."));
    assert_eq!(
        status.message,
        "Save failed; the previous slot was preserved. disk full. Check storage permissions and free space."
    );
}

#[test]
fn loading_a_slot_resumes_play_or_the_outcome() {
    let mut status = LocalPersistenceStatus::new();
    assert_eq!(status.record_load(Ok((false, 17))), Some(ClientFlow::Playing));
    assert_eq!(
        status.message,
        "Loaded slot 1. Offline time was not charged; canonical revision 17 restored."
    );
    assert_eq!(status.record_load(Ok((true, 40))), Some(ClientFlow::Outcome));
    assert_eq!(status.record_load(Err("save JSON is invalid.")), None);
    assert_eq!(
        status.message,
        "Load failed; the slot file was left unchanged. save JSON is invalid. Try another slot or restore a known-good copy."
    );
}

#[test]
fn oversized_saves_are_refused_before_reading() {
    assert_eq!(check_save_size(100, 100, true), Ok(()));
    assert_eq!(
        check_save_size(101, 100, true),
        Err("slot exceeds the 100 byte safety limit".to_owned())
    );
    assert_eq!(
        check_save_size(5000, 4096, false),
        Err("save exceeds the 4096 byte safety limit".to_owned())
    );
}

#[test]
fn long_frames_count_every_millisecond() {
    let mut carry = 999_999u32;
    assert_eq!(accumulate_elapsed(&mut carry, 1_000_000_000_000, 1), 1_000_000_000_000_001);
    assert_eq!(carry, 0);
}
