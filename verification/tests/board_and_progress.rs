use crownlines::guided::{
    GuidedNotice, ResumeChecks, ai_configuration_message, guided_notice_text, hint_message,
    reset_notice, resume_refusal, GuidedMetrics, GuidedProgress, GuidedSession, ObjectiveResult, ResetOutcome, StageOutline,
    complete_metrics, first_available_stage, request_progress_reset, select_relative,
    MAX_PROGRESS_ENTRIES,
};
use crownlines::lifecycle::ClientFlow;
use crownlines::local_interaction::{
    Activation, ArrowKeys, BoardCommand, BoardGate, BoardInteraction, BoardKeys, BoardSize,
    Coord, CycleDirection, PromotionKind, PromotionUnlocks, SubmitRoute, activated_square,
    clock_description, cycle_choice_focus, format_clock, move_focus, promotion_binding,
    promotion_required_score,
};
use crownlines::panels::{PanelKind, PanelState, bounded_history, clock_is_low, HISTORY_LIMIT};
use crownlines::playtest::{
    ExportRefusal, ExportStep, check_report_size, export_status, export_step, playtest_file_name,
    refusal_text, CheckMark, ContactKind, ContactMilestone, GeographicCounts, PlaytestMetrics, SideCounts,
    PlaytestReport, TransitionEventKind, TransitionSummary,
};
use crownlines::rooms::Player;

fn no_arrows() -> ArrowKeys {
    ArrowKeys {
        left: false,
        right: false,
        up: false,
        down: false,
    }
}

fn no_board_keys() -> BoardKeys {
    BoardKeys {
        arrows: no_arrows(),
        escape: false,
        enter: false,
        hold: false,
        left_click: false,
        digit1: false,
        digit2: false,
        digit3: false,
        digit4: false,
    }
}

fn board() -> BoardSize {
    BoardSize {
        width: 8,
        height: 8,
    }
}

fn session() -> GuidedSession {
    GuidedSession {
        stage_index: 0,
        hint_reveals: vec![0, 0],
        actions_taken: 0,
        turns_elapsed: 0,
        total_actions: 0,
        total_turns: 0,
        ai_actions_taken: 0,
        retries: 0,
        failed: false,
        complete: false,
        last_turn_number: 1,
    }
}

#[test]
fn keyboard_focus_clamps_to_board_and_can_be_released() {
    assert_eq!(
        move_focus(Coord { x: 0, y: 0 }, (-1, -1), board()),
        Coord { x: 0, y: 0 }
    );
    assert_eq!(
        move_focus(Coord { x: 7, y: 7 }, (1, 1), board()),
        Coord { x: 7, y: 7 }
    );
    let mut interaction = BoardInteraction::new();
    interaction.keyboard_focus = Some(Coord { x: 3, y: 3 });
    interaction.selected_piece = Some(5);
    let escape = BoardKeys {
        escape: true,
        ..no_board_keys()
    };
    assert_eq!(
        interaction.free_input(&escape, None, false, None, board()),
        BoardCommand::Nothing
    );
    assert_eq!(interaction.keyboard_focus, None);
    assert_eq!(interaction.selected_piece, None);
    assert_eq!(interaction.status, "Board focus released.");
}

#[test]
fn ui_captured_pointer_input_never_activates_a_board_command() {
    let hovered = Some(Coord { x: 2, y: 5 });
    assert_eq!(activated_square(false, true, None, hovered, true), None);
    assert_eq!(activated_square(false, true, None, hovered, false), hovered);
    assert_eq!(
        activated_square(true, true, Some(Coord { x: 1, y: 1 }), hovered, true),
        Some(Coord { x: 1, y: 1 })
    );
}

#[test]
fn arrows_move_the_focus_from_the_selection_and_presses_activate_it() {
    let mut interaction = BoardInteraction::new();
    let right = BoardKeys {
        arrows: ArrowKeys {
            right: true,
            ..no_arrows()
        },
        enter: true,
        ..no_board_keys()
    };
    let command = interaction.free_input(&right, None, false, Some(Coord { x: 4, y: 6 }), board());
    assert_eq!(command, BoardCommand::Activate(Coord { x: 5, y: 6 }));
    assert_eq!(interaction.keyboard_focus, Some(Coord { x: 5, y: 6 }));
    let hold = BoardKeys {
        hold: true,
        ..no_board_keys()
    };
    assert_eq!(
        interaction.free_input(&hold, None, false, None, board()),
        BoardCommand::Hold
    );
}

#[test]
fn activation_selects_reselects_cancels_and_confirms_only_legal_destinations() {
    let mut interaction = BoardInteraction::new();
    assert_eq!(interaction.apply_activation(Activation::Select(4)), None);
    assert_eq!(interaction.selected_piece, Some(4));
    assert_eq!(
        interaction.status,
        "Piece selected. Choose a highlighted destination."
    );
    assert_eq!(
        interaction.apply_activation(Activation::Move {
            piece: 4,
            to: Coord { x: 4, y: 4 }
        }),
        Some((4, Coord { x: 4, y: 4 }))
    );
    assert_eq!(interaction.apply_activation(Activation::Clear), None);
    assert_eq!(interaction.selected_piece, None);
    assert_eq!(interaction.status, "Selection cleared.");
}

#[test]
fn one_submission_advances_exactly_one_revision_and_clears_selection() {
    let mut interaction = BoardInteraction::new();
    interaction.selected_piece = Some(2);
    assert_eq!(interaction.begin_submit(false, false), SubmitRoute::Local);
    assert_eq!(interaction.begin_submit(false, false), SubmitRoute::Ignored);
    interaction.finish_local(Ok(1));
    assert_eq!(interaction.observed_revision, Some(1));
    assert_eq!(interaction.selected_piece, None);
    assert_eq!(interaction.status, "Command accepted.");
    assert!(!interaction.submitting);
}

#[test]
fn online_submission_locks_one_intent_without_mutating_canonical_state() {
    let mut interaction = BoardInteraction::new();
    assert_eq!(
        interaction.gate(Some(ClientFlow::OnlinePlaying), false, false, 3, false),
        BoardGate::Open
    );
    assert_eq!(interaction.begin_submit(true, false), SubmitRoute::Online);
    assert_eq!(
        interaction.status,
        "Command pending authoritative acknowledgement."
    );
    assert_eq!(interaction.observed_revision, Some(3));
    assert_eq!(
        interaction.gate(Some(ClientFlow::OnlinePlaying), false, false, 3, true),
        BoardGate::AwaitingServer
    );
    assert!(interaction.submitting);
    interaction.resolve_online("Command accepted by the server.");
    assert!(!interaction.submitting);
}

#[test]
fn gates_close_the_board_outside_play_and_during_handoffs() {
    let mut interaction = BoardInteraction::new();
    interaction.selected_piece = Some(1);
    assert_eq!(
        interaction.gate(Some(ClientFlow::Setup), false, false, 0, false),
        BoardGate::Inactive
    );
    assert_eq!(interaction.selected_piece, None);
    assert_eq!(
        interaction.gate(Some(ClientFlow::Playing), true, false, 0, false),
        BoardGate::Handoff
    );
    assert_eq!(
        interaction.status,
        "Private handoff: board input and clocks are paused."
    );
    assert_eq!(
        interaction.gate(Some(ClientFlow::Playing), false, true, 0, false),
        BoardGate::ComputerTurn
    );
    assert_eq!(
        interaction.gate(None, false, false, 0, false),
        BoardGate::Open
    );
}

#[test]
fn locked_promotion_key_reports_feedback_without_emitting_action() {
    let mut interaction = BoardInteraction::new();
    let queen = BoardKeys {
        digit1: true,
        ..no_board_keys()
    };
    assert_eq!(
        interaction.promotion_input(&queen, None),
        Some(PromotionKind::Queen)
    );
    let unlocks = PromotionUnlocks {
        bishop: 2,
        rook: 4,
        queen: 8,
    };
    let required = promotion_required_score(&unlocks, PromotionKind::Queen);
    interaction.report_locked_promotion(PromotionKind::Queen, 0, required);
    assert!(interaction.status.contains("Queen is locked"));
    assert!(interaction.status.contains("frozen score 0, requires 8"));
    assert_eq!(
        interaction.promotion_input(&no_board_keys(), Some(PromotionKind::Knight)),
        Some(PromotionKind::Knight)
    );
    let escape = BoardKeys {
        escape: true,
        ..no_board_keys()
    };
    assert_eq!(interaction.promotion_input(&escape, None), None);
    assert_eq!(
        interaction.status,
        "Promotion is mandatory; choose 1, 2, 3, or 4."
    );
    assert_eq!(promotion_required_score(&unlocks, PromotionKind::Knight), 0);
    assert_eq!(promotion_binding(PromotionKind::Bishop), "3");
}

#[test]
fn pawn_choice_focus_cycles_only_reducer_provided_squares() {
    let choices = [
        Coord { x: 2, y: 2 },
        Coord { x: 3, y: 2 },
        Coord { x: 4, y: 2 },
    ];
    assert_eq!(
        cycle_choice_focus(&choices, Some(Coord { x: 2, y: 2 }), CycleDirection::Previous),
        Some(Coord { x: 4, y: 2 })
    );
    assert_eq!(
        cycle_choice_focus(&choices, Some(Coord { x: 4, y: 2 }), CycleDirection::Next),
        Some(Coord { x: 2, y: 2 })
    );
    assert_eq!(cycle_choice_focus(&[], None, CycleDirection::Next), None);
}

#[test]
fn placement_accepts_only_legal_squares() {
    let legal = [Coord { x: 1, y: 0 }, Coord { x: 2, y: 0 }];
    let mut interaction = BoardInteraction::new();
    let enter = BoardKeys {
        enter: true,
        ..no_board_keys()
    };
    assert_eq!(
        interaction.placement_input(&enter, &legal, None, false),
        Some(Coord { x: 1, y: 0 })
    );
    let next = BoardKeys {
        arrows: ArrowKeys {
            right: true,
            ..no_arrows()
        },
        enter: true,
        ..no_board_keys()
    };
    assert_eq!(
        interaction.placement_input(&next, &legal, None, false),
        Some(Coord { x: 2, y: 0 })
    );
    let click = BoardKeys {
        left_click: true,
        ..no_board_keys()
    };
    assert_eq!(
        interaction.placement_input(&click, &legal, Some(Coord { x: 7, y: 7 }), false),
        None
    );
    assert_eq!(
        interaction.status,
        "Choose one of the highlighted legal Pawn squares."
    );
    assert_eq!(interaction.placement_input(&enter, &[], None, false), None);
    assert_eq!(
        interaction.status,
        "Pawn placement is waiting for a legal adjacent square."
    );
}

#[test]
fn active_clocks_have_a_stable_visible_choice_label() {
    assert_eq!(
        clock_description(61_001, 59_000),
        "Clocks - North 1:02 - South 0:59"
    );
    assert_eq!(format_clock(0), "0:00");
    assert_eq!(format_clock(600_000), "10:00");
}

#[test]
fn reset_requires_two_explicit_requests() {
    let mut progress = GuidedProgress::new();
    let index = progress.entry_index("lesson.one");
    let metrics = GuidedMetrics {
        completed: true,
        ..GuidedMetrics::new()
    };
    progress.set_metrics(index, metrics);
    let mut armed = None;
    assert_eq!(
        request_progress_reset(&mut progress, &mut armed, "lesson.one", None),
        ResetOutcome::Armed
    );
    assert!(progress.find("lesson.one").is_some());
    assert_eq!(armed.as_deref(), Some("lesson.one"));
    assert_eq!(
        request_progress_reset(&mut progress, &mut armed, "lesson.one", Some("lesson.one")),
        ResetOutcome::Reset { clear_resume: true }
    );
    assert!(progress.find("lesson.one").is_none());
    assert_eq!(armed, None);
}

#[test]
fn progress_document_round_trips_and_rejects_unbounded_entries() {
    let mut progress = GuidedProgress::new();
    let index = progress.entry_index("lesson.one");
    progress.set_metrics(
        index,
        GuidedMetrics {
            completed: true,
            attempts: 2,
            retries: 1,
            hints_revealed: 1,
            best_actions: Some(3),
            best_turns: Some(2),
        },
    );
    assert_eq!(progress.validate_entries(), Ok(()));
    for index in 0..=MAX_PROGRESS_ENTRIES {
        progress.entry_index(&index.to_string());
    }
    assert!(progress.validate_entries().is_err());
}

#[test]
fn completion_keeps_the_best_results() {
    let first = complete_metrics(GuidedMetrics::new(), 2, 10, 6, true, true);
    assert!(first.completed);
    assert_eq!(first.best_actions, Some(10));
    let second = complete_metrics(first, 1, 12, 4, true, true);
    assert_eq!(second.best_actions, Some(10));
    assert_eq!(second.best_turns, Some(4));
    assert_eq!(second.retries, 2);
    let unrecorded = complete_metrics(GuidedMetrics::new(), 0, 5, 5, false, false);
    assert_eq!(unrecorded.best_actions, None);
    let mut progress = GuidedProgress::new();
    progress.record_completion("lesson.two", 1, 8, 3, true, false);
    let index = progress.find("lesson.two").unwrap();
    assert_eq!(progress.entries[index].1.best_actions, Some(8));
    assert_eq!(progress.entries[index].1.best_turns, None);
}

#[test]
fn the_next_stage_is_the_first_unlocked_one() {
    let stages = vec![
        StageOutline {
            id: "move".to_owned(),
            prerequisites: vec![],
        },
        StageOutline {
            id: "capture".to_owned(),
            prerequisites: vec!["move".to_owned()],
        },
        StageOutline {
            id: "settle".to_owned(),
            prerequisites: vec!["move".to_owned(), "capture".to_owned()],
        },
    ];
    assert_eq!(first_available_stage(&stages, &[]), Some(0));
    assert_eq!(first_available_stage(&stages, &["move".to_owned()]), Some(1));
    assert_eq!(
        first_available_stage(
            &stages,
            &["move".to_owned(), "capture".to_owned(), "settle".to_owned()]
        ),
        None
    );
    assert_eq!(select_relative(0, 3, true), 2);
    assert_eq!(select_relative(2, 3, false), 0);
    assert_eq!(select_relative(5, 0, false), 0);
}

#[test]
fn attempts_count_actions_turns_hints_and_retries() {
    let mut s = session();
    s.count_transition(true, false, 1);
    s.count_transition(true, true, 3);
    assert_eq!(s.actions_taken, 2);
    assert_eq!(s.ai_actions_taken, 1);
    assert_eq!(s.turns_elapsed, 2);
    assert_eq!(s.reveal_hint(1), Some(1));
    assert_eq!(s.reveal_hint(1), None);
    s.apply_objective(ObjectiveResult::Succeeded, Some(1), 3);
    assert_eq!(s.stage_index, 1);
    assert_eq!(s.actions_taken, 0);
    assert_eq!(s.total_actions, 2);
    s.apply_objective(ObjectiveResult::Failed, None, 3);
    assert!(s.failed);
    s.count_transition(true, false, 9);
    assert_eq!(s.total_actions, 2);
    s.retry(3);
    assert!(!s.failed);
    assert_eq!(s.retries, 1);
    s.apply_objective(ObjectiveResult::Succeeded, None, 4);
    assert!(s.complete);
}

#[test]
fn history_presentation_is_one_bounded_recent_slice() {
    let entries: Vec<_> = (1..=100).map(|index| format!("Move {index}")).collect();
    let text = bounded_history(&entries);
    assert!(text.contains("showing 12 of 100"));
    assert!(!text.contains("Move 88\n"));
    assert!(text.contains("89. Move 89"));
    assert!(text.contains("100. Move 100"));
    assert_eq!(text.lines().count(), HISTORY_LIMIT + 1);
    assert_eq!(bounded_history(&[]), "RECENT ACTIONS - 0\nNo actions yet.");
}

#[test]
fn each_panel_collapses_independently() {
    let mut state = PanelState::new();
    state.toggle(PanelKind::Match);
    assert!(state.collapsed(PanelKind::Match));
    assert!(!state.collapsed(PanelKind::Settlements));
    state.toggle(PanelKind::Settlements);
    assert!(state.collapsed(PanelKind::Settlements));
    assert!(clock_is_low(60_000));
    assert!(!clock_is_low(60_001));
}

#[test]
fn accepted_transitions_produce_required_balance_metrics() {
    let mut metrics = PlaytestMetrics::new(0, 1);
    let turn = metrics.record(
        &TransitionSummary {
            action_player: Some(Player::North),
            move_to_x: Some(0),
            events: vec![
                TransitionEventKind::SettlementClaimed(Player::North),
                TransitionEventKind::PawnProduced,
                TransitionEventKind::TurnStarted(2),
            ],
            turn_number: 2,
            revision: 1,
            has_outcome: false,
            checkmate: false,
            active_player: Player::South,
            in_check: true,
        },
        8,
    );
    assert_eq!(turn, 1);
    assert_eq!(metrics.claims, SideCounts { north: 1, south: 0 });
    assert_eq!(metrics.produced_pawns.north, 1);
    assert_eq!(metrics.checks_delivered.north, 1);
    assert_eq!(
        metrics.last_check_against,
        Some(CheckMark {
            turn: 1,
            checked: Player::South
        })
    );
    assert_eq!(
        metrics.first_contact,
        Some(ContactMilestone {
            turn: 1,
            revision: 1,
            kind: ContactKind::SettlementClaim
        })
    );
    assert_eq!(metrics.geographic_moves.north_west, 1);
    assert_eq!(metrics.final_revision, 1);
    assert_eq!(metrics.turn_count, 2);
}

#[test]
fn moves_are_counted_by_third_of_the_board() {
    let mut counts = GeographicCounts::new();
    counts.record(Player::South, 3, 7);
    counts.record(Player::South, 6, 7);
    counts.record(Player::North, 0, 0);
    assert_eq!(counts.south_center, 1);
    assert_eq!(counts.south_east, 1);
    assert_eq!(counts.north_center, 1);
}

#[test]
fn playtest_export_is_gated_by_flow_fog_and_report() {
    assert_eq!(export_step(false, ClientFlow::Playing, false, false, true), ExportStep::Ignore);
    assert_eq!(export_step(true, ClientFlow::Setup, false, false, true), ExportStep::Ignore);
    assert_eq!(export_step(true, ClientFlow::OnlinePlaying, false, true, true), ExportStep::Ignore);
    assert_eq!(
        export_step(true, ClientFlow::Playing, true, false, true),
        ExportStep::Refuse(ExportRefusal::FogLocked)
    );
    assert_eq!(export_step(true, ClientFlow::Outcome, true, true, true), ExportStep::Write);
    assert_eq!(
        export_step(true, ClientFlow::Paused, false, false, false),
        ExportStep::Refuse(ExportRefusal::NoReport)
    );
    assert_eq!(
        refusal_text(ExportRefusal::NoReport),
        "No local playtest session is available to export."
    );
}

#[test]
fn playtest_files_are_named_safely() {
    assert_eq!(
        playtest_file_name("crownlines-standard", 12, "abc"),
        "crownlines-standard-session-12-abc.json"
    );
    assert_eq!(
        playtest_file_name("../fog map é", 3, "u"),
        "___fog_map__-session-3-u.json"
    );
    assert_eq!(check_report_size(16 * 1024 * 1024), Ok(()));
    assert_eq!(
        check_report_size(16 * 1024 * 1024 + 1),
        Err("record exceeds the 16777216 byte local export limit".to_owned())
    );
    assert_eq!(
        export_status(Ok("/tmp/report.json")),
        "Explicit local playtest export written to /tmp/report.json. Add consented qualitative review before submission."
    );
    assert_eq!(
        export_status(Err("disk full")),
        "Playtest export failed without upload: disk full"
    );
}

#[test]
fn starting_a_guided_attempt_counts_it() {
    let mut progress = GuidedProgress::new();
    progress.record_attempt("opening-lesson");
    progress.record_attempt("opening-lesson");
    progress.record_attempt("second-lesson");
    let first = progress.find("opening-lesson").unwrap();
    assert_eq!(progress.entries[first].1.attempts, 2);
    assert!(!progress.entries[first].1.completed);
    let second = progress.find("second-lesson").unwrap();
    assert_eq!(progress.entries[second].1.attempts, 1);
    assert_eq!(progress.entries.len(), 2);
}

#[test]
fn guided_hints_and_retries_are_recorded() {
    let mut progress = GuidedProgress::new();
    progress.record_hint("lesson");
    progress.record_hint("lesson");
    progress.record_retries("lesson", 4);
    let index = progress.find("lesson").unwrap();
    let metrics = progress.entries[index].1;
    assert_eq!((metrics.hints_revealed, metrics.retries, metrics.attempts), (2, 4, 0));
    assert_eq!(hint_message(Some(2), 3), "Hint 2 of 3 revealed by request.");
    assert_eq!(hint_message(None, 3), "No further hints are available for this stage.");
}

#[test]
fn guided_messages_follow_the_checks() {
    let all = ResumeChecks {
        saved: true,
        same_scenario: true,
        scenario_parses: true,
        scenario_unchanged: true,
        state_valid: true,
    };
    assert_eq!(resume_refusal(all), None);
    assert_eq!(
        resume_refusal(ResumeChecks { saved: false, same_scenario: false, ..all }),
        Some(GuidedNotice::NoResume)
    );
    assert_eq!(
        resume_refusal(ResumeChecks { same_scenario: false, state_valid: false, ..all }),
        Some(GuidedNotice::ResumeOtherScenario)
    );
    assert_eq!(
        resume_refusal(ResumeChecks { scenario_parses: false, ..all }),
        Some(GuidedNotice::ResumeScenarioMalformed)
    );
    assert_eq!(
        resume_refusal(ResumeChecks { scenario_unchanged: false, ..all }),
        Some(GuidedNotice::ContentChanged)
    );
    assert_eq!(
        resume_refusal(ResumeChecks { state_valid: false, ..all }),
        Some(GuidedNotice::ResumeStateInvalid)
    );
    assert_eq!(
        guided_notice_text(GuidedNotice::ContentChanged),
        "Guided content changed; start a fresh attempt."
    );
    assert_eq!(reset_notice(ResetOutcome::Armed), GuidedNotice::ResetArmed);
    assert_eq!(
        guided_notice_text(reset_notice(ResetOutcome::Reset { clear_resume: true })),
        "Guided progress reset; ordinary save slots were untouched."
    );
    assert_eq!(
        ai_configuration_message("seat missing"),
        "Guided AI configuration is invalid: seat missing"
    );
}

#[test]
fn the_report_logs_each_transition_and_the_outcome() {
    let mut report: PlaytestReport<&str, &str, &str> = PlaytestReport::new(0, 1, None);
    report.record(
        &TransitionSummary {
            action_player: Some(Player::South),
            move_to_x: Some(3),
            events: vec![
                TransitionEventKind::PieceCaptured,
                TransitionEventKind::SettlementClaimed(Player::South),
                TransitionEventKind::PawnProduced,
                TransitionEventKind::PiecePromoted,
            ],
            turn_number: 2,
            revision: 1,
            has_outcome: true,
            checkmate: true,
            active_player: Player::North,
            in_check: true,
        },
        8,
        Some("move south to d5"),
        vec!["captured", "claimed", "produced", "promoted"],
        Some("checkmate, south wins"),
        "hash-1".to_owned(),
    );
    assert_eq!(
        report.metrics.first_contact,
        Some(ContactMilestone { turn: 2, revision: 1, kind: ContactKind::Capture })
    );
    assert_eq!(report.metrics.claims.south, 1);
    assert_eq!(report.metrics.produced_pawns.south, 1);
    assert_eq!(report.metrics.promoted_pawns.south, 1);
    assert_eq!((report.metrics.turn_count, report.metrics.final_revision), (2, 1));
    assert_eq!(report.outcome, Some("checkmate, south wins"));
    assert_eq!(report.actions.len(), 1);
    let entry = &report.actions[0];
    assert_eq!((entry.turn, entry.revision, entry.player), (2, 1, Some(Player::South)));
    assert_eq!(entry.action, Some("move south to d5"));
    assert_eq!(entry.events.len(), 4);
    assert_eq!(entry.state_hash, "hash-1");
}

#[test]
fn waiting_for_the_server_follows_new_revisions_but_keeps_submitting() {
    let mut interaction = BoardInteraction::new();
    interaction.gate(Some(ClientFlow::OnlinePlaying), false, false, 3, false);
    interaction.begin_submit(true, false);
    assert_eq!(
        interaction.gate(Some(ClientFlow::OnlinePlaying), false, false, 4, true),
        BoardGate::AwaitingServer
    );
    assert_eq!(interaction.observed_revision, Some(4));
    assert!(interaction.submitting);
}
