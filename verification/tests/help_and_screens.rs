use crownlines::guided::{
    GuidedControl, GuidedKeys, GuidedOutline, ResumeMeta, guided_controls, guided_step,
    resume_consistent,
};
use crownlines::lifecycle::{ClientFlow, LocalSetup, ScenarioSummary, pause_text, visible_screens};
use crownlines::help::{
    HelpRules, HelpSection, HelpState, help_text, legend_help, movement_help, realm_help,
};
use crownlines::online_lobby::{
    LobbyControl, LobbyScreen, OnlineField, OnlineLobby, OnlineSeat, control_visible,
    field_visible,
};
use crownlines::rooms::{ClockSettings, Player};

fn standard_rules() -> HelpRules {
    HelpRules {
        allow_pawn_double_step: true,
        allow_en_passant: true,
        castling_routes: 2,
        establishment_cycles: 3,
        development_resets_when_interrupted: false,
        production_cycles: 3,
        promotion_cycles: 2,
    }
}

fn legend_entries() -> Vec<(String, String)> {
    vec![
        ("◆".to_owned(), "selected piece".to_owned()),
        ("•".to_owned(), "legal destination".to_owned()),
    ]
}

fn no_guided_keys() -> GuidedKeys {
    GuidedKeys {
        open: false,
        previous: false,
        next: false,
        start: false,
        resume: false,
        reset: false,
        escape: false,
        hint: false,
        retry: false,
    }
}

#[test]
fn help_uses_active_scenario_switches_and_thresholds() {
    let rules = standard_rules();
    let text = format!("{}\n{}", movement_help(&rules), realm_help(&rules));
    assert!(text.contains("Pawn double-step: enabled"));
    assert!(text.contains("En passant: enabled"));
    assert!(text.contains("after 3 continuous"));
    assert!(text.contains("after 3 eligible"));
    assert!(text.contains("after 2 surviving"));
    assert!(text.contains("pauses progress"));
}

#[test]
fn legend_names_every_terrain_edge_feature_and_overlay() {
    let entries = legend_entries();
    let text = legend_help(&entries);
    for name in [
        "Open",
        "Forest",
        "Mountain",
        "Road",
        "River",
        "Bridge",
        "Ford",
        "Wall",
        "Gate",
        "Keep",
        "settlement",
        "promotion site",
        "fortification",
    ] {
        assert!(text.contains(name), "missing {name}");
    }
    for (_, description) in &entries {
        assert!(text.contains(description.as_str()));
    }
}

#[test]
fn generated_help_does_not_claim_out_of_scope_modes() {
    let legend = legend_help(&legend_entries());
    let text = help_text(HelpSection::Overview, &standard_rules(), &legend);
    for unsupported in [" AI ", "faction", "campaign"] {
        assert!(!text.to_lowercase().contains(&unsupported.to_lowercase()));
    }
    assert!(text.starts_with("CROWNLINES RULES"));
    assert!(text.ends_with("Open Board legend for every visual mark."));
}

#[test]
fn context_link_opens_relevant_help_without_changing_match_state() {
    let mut state = HelpState::new();
    state.handle_controls(false, false, Some(HelpSection::Realm), false);
    assert!(state.open);
    assert_eq!(state.section, HelpSection::Realm);
    state.handle_controls(false, true, None, false);
    assert!(!state.open);
    state.handle_controls(true, false, None, false);
    assert!(state.open);
    assert_eq!(state.section, HelpSection::Overview);
    state.handle_controls(true, false, None, false);
    assert!(!state.open);
}

#[test]
fn every_lobby_control_is_shown_on_some_screen() {
    let controls = [
        LobbyControl::Host,
        LobbyControl::Join,
        LobbyControl::Back,
        LobbyControl::PreviousScenario,
        LobbyControl::NextScenario,
        LobbyControl::ToggleClock,
        LobbyControl::DecreaseBase,
        LobbyControl::IncreaseBase,
        LobbyControl::DecreaseIncrement,
        LobbyControl::IncreaseIncrement,
        LobbyControl::Create,
        LobbyControl::SubmitJoin,
        LobbyControl::ToggleShareAddress,
        LobbyControl::CopyInvitation,
        LobbyControl::Ready,
        LobbyControl::Leave,
    ];
    assert_eq!(controls.len(), 16);
    let screens = [
        LobbyScreen::Menu,
        LobbyScreen::Host,
        LobbyScreen::Join,
        LobbyScreen::Waiting,
    ];
    for control in controls {
        assert!(screens
            .iter()
            .any(|screen| control_visible(*screen, control, true)));
        assert!(!control_visible(LobbyScreen::Closed, control, true));
    }
    assert!(!control_visible(LobbyScreen::Host, LobbyControl::IncreaseBase, false));
    assert!(field_visible(LobbyScreen::Join, OnlineField::RoomCode));
    assert!(!field_visible(LobbyScreen::Host, OnlineField::RoomCode));
    assert!(!field_visible(LobbyScreen::Waiting, OnlineField::ServerUrl));
}

#[test]
fn lobby_screens_describe_their_state() {
    let mut lobby = OnlineLobby {
        screen: LobbyScreen::Host,
        server_url: "ws://127.0.0.1:5000".to_owned(),
        player_name: "Ada".to_owned(),
        room_code: " ab-c 234 ".to_owned(),
        selected_scenario: 1,
        clock: Some(ClockSettings {
            base_minutes: 10,
            increment_seconds: 5,
        }),
        share_server_address: true,
        request_pending: false,
        ready_requested: false,
        status: "ok".to_owned(),
        seat: None,
    };
    let host = lobby.screen_text("Standard - 8x8", "unused");
    assert!(host.starts_with("HOST PRIVATE ROOM\nServer: ws://127.0.0.1:5000\nName: Ada"));
    assert!(host.contains("Scenario: Standard - 8x8 - Clock: 10 min + 5 sec"));
    lobby.screen = LobbyScreen::Join;
    assert!(lobby.screen_text("", "").contains("Room code: ABC234"));
    lobby.screen = LobbyScreen::Waiting;
    let waiting = lobby.screen_text("", "0000");
    assert!(waiting.starts_with("PRIVATE ROOM ------\nSeat: unknown - Match: unknown - Credential stored: no"));
    lobby.seat = Some(OnlineSeat {
        match_id: 1,
        room_code: "ABC234".to_owned(),
        seat: Player::South,
        reconnect_token: "secret".to_owned(),
    });
    let waiting = lobby.screen_text("", "0000-1");
    assert!(waiting.starts_with("PRIVATE ROOM ABC234\nSeat: South - Match: 0000-1 - Credential stored: yes"));
    assert!(waiting.contains("A include server address: yes"));
    assert!(!waiting.contains("secret"));
    lobby.screen = LobbyScreen::Closed;
    assert_eq!(lobby.screen_text("", ""), "");
}

#[test]
fn guided_keys_follow_the_pressed_buttons() {
    let keys = GuidedKeys {
        open: true,
        escape: true,
        hint: true,
        ..no_guided_keys()
    };
    assert_eq!(
        guided_controls(&[GuidedControl::Replay], &keys, true, false, false),
        vec![GuidedControl::Replay, GuidedControl::Open]
    );
    assert_eq!(
        guided_controls(&[], &keys, true, true, false),
        vec![GuidedControl::Close]
    );
    assert_eq!(
        guided_controls(&[], &keys, false, false, true),
        vec![GuidedControl::Hint, GuidedControl::Leave]
    );
    let step = guided_step(GuidedControl::Start, false, true);
    assert!(step.applies && step.cancels_search && !step.persists);
    let step = guided_step(GuidedControl::Start, false, false);
    assert!(!step.applies && !step.cancels_search);
    assert!(guided_step(GuidedControl::Hint, false, false).persists);
    assert!(!guided_step(GuidedControl::Open, false, false).applies);
}

#[test]
fn setup_and_outcome_screens_describe_the_local_match() {
    let mut setup = LocalSetup::new();
    let scenario = ScenarioSummary {
        name: "Standard".to_owned(),
        width: 8,
        height: 8,
        min_minutes: 20,
        max_minutes: 40,
        double_step: true,
        en_passant: false,
        castling_routes: 2,
    };
    let text = setup.setup_text(&scenario);
    assert!(text.starts_with("CROWNLINES — LOCAL SETUP\nScenario: Standard · 8×8 · 20–40 minutes"));
    assert!(text.contains("Double-step: enabled · en passant: disabled · castling routes: 2"));
    assert!(text.contains("F2 local start"));
    assert!(text.contains("F3 online"));
    assert!(text.contains("Clock: untimed (default)"));
    setup.clock = Some(ClockSettings {
        base_minutes: 5,
        increment_seconds: 2,
    });
    assert!(setup.setup_text(&scenario).contains("Clock: 5 min + 2 sec"));
    assert_eq!(setup.outcome_text(None), "Match outcome pending");
    assert_eq!(
        setup.outcome_text(Some((Some(Player::South), "Checkmate"))),
        "MATCH ENDED\nSouth Player (South)\nReason: Checkmate\nR rematch · settings preserved"
    );
    assert_eq!(visible_screens(ClientFlow::ConfirmResign), (false, true, false));
    assert_eq!(
        pause_text(ClientFlow::ConfirmResign, Player::North),
        "CONFIRM RESIGNATION\nNorth will lose. Enter confirms · Esc cancels"
    );
}

#[test]
fn saved_attempts_must_fit_their_guided_scenario() {
    let outline = GuidedOutline {
        id: "lesson.one".to_owned(),
        stage_ids: vec!["move".to_owned(), "capture".to_owned()],
        hint_counts: vec![2, 1],
    };
    let resume = ResumeMeta {
        guided_id: "lesson.one".to_owned(),
        stage_index: 1,
        completed_stage_ids: vec!["move".to_owned()],
        hint_reveals: vec![2, 0],
    };
    assert!(resume_consistent(&outline, &resume));
    let too_many_hints = ResumeMeta {
        hint_reveals: vec![3, 0],
        ..resume
    };
    assert!(!resume_consistent(&outline, &too_many_hints));
    let repeated = ResumeMeta {
        guided_id: "lesson.one".to_owned(),
        stage_index: 1,
        completed_stage_ids: vec!["move".to_owned(), "move".to_owned()],
        hint_reveals: vec![0, 0],
    };
    assert!(!resume_consistent(&outline, &repeated));
    let unknown = ResumeMeta {
        guided_id: "lesson.one".to_owned(),
        stage_index: 0,
        completed_stage_ids: vec!["fly".to_owned()],
        hint_reveals: vec![0, 0],
    };
    assert!(!resume_consistent(&outline, &unknown));
    let other = ResumeMeta {
        guided_id: "lesson.two".to_owned(),
        stage_index: 0,
        completed_stage_ids: vec![],
        hint_reveals: vec![0, 0],
    };
    assert!(!resume_consistent(&outline, &other));
}
