//! The match controls of an online seat: offering and answering draws,
//! resigning with confirmation, asking for a rematch and leaving a finished
//! room; and the text that shows them.
use vstd::prelude::*;

use crate::connections::{DrawCommand, RematchCommand, RematchState};
use crate::online_connection::OnlineControlKind;
use crate::rooms::Player;

verus! {

/// What the match shows of itself to the controls.
#[derive(Debug, Clone, Copy, PartialEq, Eq, Structural)]
pub struct MatchView {
    pub has_outcome: bool,
    pub active_player: Player,
    pub draw_offer: Option<Player>,
}

/// The match controls used this frame, by key or by button (resigning and
/// offering a draw count only without a modifier).
#[derive(Debug, Clone, Copy, PartialEq, Eq, Structural)]
pub struct LifecycleControls {
    pub leave: bool,
    pub rematch: bool,
    pub decline_rematch: bool,
    pub request_resign: bool,
    pub confirm_resign: bool,
    pub cancel_resign: bool,
    pub offer_draw: bool,
    pub accept_draw: bool,
    pub decline_draw: bool,
}

/// A match control to send.
#[derive(Debug, Clone, Copy, PartialEq, Eq, Structural)]
pub enum ControlRequest {
    Draw(DrawCommand),
    Resign,
    Rematch(RematchCommand),
    Leave,
}

/// The kind under which a control request waits for its answer.
pub open spec fn request_kind(request: ControlRequest) -> OnlineControlKind {
    match request {
        ControlRequest::Draw(_) => OnlineControlKind::Draw,
        ControlRequest::Resign => OnlineControlKind::Resign,
        ControlRequest::Rematch(_) => OnlineControlKind::Rematch,
        ControlRequest::Leave => OnlineControlKind::Leave,
    }
}

/// The kind under which a control request waits for its answer.
pub fn control_kind(request: ControlRequest) -> (kind: OnlineControlKind)
    ensures
        kind == request_kind(request),
{
    match request {
        ControlRequest::Draw(_) => OnlineControlKind::Draw,
        ControlRequest::Resign => OnlineControlKind::Resign,
        ControlRequest::Rematch(_) => OnlineControlKind::Rematch,
        ControlRequest::Leave => OnlineControlKind::Leave,
    }
}

/// The state of the match controls.
#[derive(Debug)]
pub struct OnlineLifecycleState {
    pub confirm_resign: bool,
    pub rematch_state: Option<RematchState>,
    pub requested_rematch_by_self: bool,
    pub status: String,
}

/// Whether `seat` may resign: the match is on and it is the seat's turn.
pub open spec fn may_resign(view: MatchView, seat: Player) -> bool {
    !view.has_outcome && view.active_player == seat
}

/// Whether `seat` may resign now.
pub fn resignation_available(view: &MatchView, seat: Player) -> (available: bool)
    ensures
        available == may_resign(*view, seat),
{
    !view.has_outcome && view.active_player == seat
}

/// The name of a control kind.
pub open spec fn kind_name(kind: OnlineControlKind) -> Seq<char> {
    match kind {
        OnlineControlKind::Draw => "Draw"@,
        OnlineControlKind::Resign => "Resign"@,
        OnlineControlKind::Rematch => "Rematch"@,
        OnlineControlKind::Leave => "Leave"@,
    }
}

fn kind_text(kind: OnlineControlKind) -> (text: &'static str)
    ensures
        text@ == kind_name(kind),
{
    match kind {
        OnlineControlKind::Draw => "Draw",
        OnlineControlKind::Resign => "Resign",
        OnlineControlKind::Rematch => "Rematch",
        OnlineControlKind::Leave => "Leave",
    }
}

fn joined(parts: &[&str]) -> (text: String)
    ensures
        text@ == parts@.fold_left(Seq::<char>::empty(), |acc: Seq<char>, p: &str| acc + p@),
{
    let mut text = String::new();
    let mut i: usize = 0;
    while i < parts.len()
        invariant
            i <= parts@.len(),
            text@ == parts@.subrange(0, i as int).fold_left(
                Seq::<char>::empty(),
                |acc: Seq<char>, p: &str| acc + p@,
            ),
        decreases parts.len() - i,
    {
        let ghost before = parts@.subrange(0, i as int);
        vstd::string::StringExecFns::append(&mut text, parts[i]);
        proof {
            let after = parts@.subrange(0, i + 1);
            assert(after.drop_last() =~= before);
            before.lemma_fold_left_alt(Seq::<char>::empty(), |acc: Seq<char>, p: &str| acc + p@);
            after.lemma_fold_left_alt(Seq::<char>::empty(), |acc: Seq<char>, p: &str| acc + p@);
        }
        i = i + 1;
    }
    assert(parts@.subrange(0, parts@.len() as int) =~= parts@);
    text
}

impl OnlineLifecycleState {
    /// Nothing confirmed, requested or said yet.
    pub fn new() -> (state: Self)
        ensures
            !state.confirm_resign,
            state.rematch_state is None,
            !state.requested_rematch_by_self,
            state.status@.len() == 0,
    {
        OnlineLifecycleState {
            confirm_resign: false,
            rematch_state: None,
            requested_rematch_by_self: false,
            status: String::new(),
        }
    }

    /// Takes the server's answer to a match control: any confirmation prompt
    /// closes and the status reports the answer.
    pub fn observe_resolution(&mut self, kind: OnlineControlKind, accepted: bool)
        ensures
            !final(self).confirm_resign,
            final(self).status@ == kind_name(kind) + (if accepted {
                " control accepted by the server."@
            } else {
                " control rejected by the server."@
            }),
            final(self).rematch_state == old(self).rematch_state,
            final(self).requested_rematch_by_self == old(self).requested_rematch_by_self,
    {
        self.confirm_resign = false;
        let mut status = String::from_str(kind_text(kind));
        if accepted {
            vstd::string::StringExecFns::append(&mut status, " control accepted by the server.");
        } else {
            vstd::string::StringExecFns::append(&mut status, " control rejected by the server.");
        }
        self.status = status;
    }

    /// Takes a change of the rematch state.
    pub fn observe_rematch(&mut self, state: Option<RematchState>)
        ensures
            final(self).rematch_state == state,
            final(self).confirm_resign == old(self).confirm_resign,
            final(self).requested_rematch_by_self == (match state {
                Some(RematchState::Declined) | None => false,
                _ => old(self).requested_rematch_by_self,
            }),
            final(self).status@ == (match state {
                Some(RematchState::Requested) => "A rematch has been requested."@,
                Some(RematchState::Accepted) => "Both seats accepted. Starting a fresh rematch…"@,
                Some(RematchState::Declined) => "The rematch was declined."@,
                None => old(self).status@,
            }),
    {
        self.rematch_state = state;
        match state {
            Some(RematchState::Requested) => {
                self.status = String::from_str("A rematch has been requested.");
            },
            Some(RematchState::Accepted) => {
                self.status = String::from_str("Both seats accepted. Starting a fresh rematch…");
            },
            Some(RematchState::Declined) => {
                self.requested_rematch_by_self = false;
                self.status = String::from_str("The rematch was declined.");
            },
            None => {
                self.requested_rematch_by_self = false;
            },
        }
    }

    /// One frame of match controls for `seat` (when the client has one) in
    /// `flow_online` (the online match is shown) with no menu open. Outside
    /// the online match any prompt closes. In a finished match the seat may
    /// leave, decline a requested rematch, or request (or accept the other
    /// seat's) rematch. In a live match the resignation prompt is confirmed or
    /// cancelled; otherwise the seat may open it on its turn, offer a draw on
    /// its turn, or answer the other seat's offer. Nothing is sent while a
    /// command or a control awaits an answer.
    pub fn handle_input(
        &mut self,
        menu_open: bool,
        flow_online: bool,
        seat: Option<Player>,
        view: &MatchView,
        controls_locked: bool,
        input: &LifecycleControls,
    ) -> (request: Option<ControlRequest>)
        ensures
            menu_open ==> request is None && *final(self) == *old(self),
            !menu_open && !flow_online ==> request is None && !final(self).confirm_resign
                && final(self).status == old(self).status,
            !menu_open && flow_online && seat is None ==> request is None && *final(self) == *old(self),
            !menu_open && flow_online && seat is Some && view.has_outcome ==> {
                &&& !final(self).confirm_resign
                &&& request == (if controls_locked {
                    None
                } else if input.leave {
                    Some(ControlRequest::Leave)
                } else if input.decline_rematch && old(self).rematch_state == Some(
                    RematchState::Requested,
                ) {
                    Some(ControlRequest::Rematch(RematchCommand::Decline))
                } else if input.rematch && old(self).rematch_state != Some(
                    RematchState::Accepted,
                ) {
                    if old(self).rematch_state == Some(RematchState::Requested)
                        && !old(self).requested_rematch_by_self {
                        Some(ControlRequest::Rematch(RematchCommand::Accept))
                    } else {
                        Some(ControlRequest::Rematch(RematchCommand::Request))
                    }
                } else {
                    None
                })
                &&& final(self).requested_rematch_by_self == (match request {
                    Some(ControlRequest::Rematch(RematchCommand::Decline)) => false,
                    Some(ControlRequest::Rematch(_)) => true,
                    _ => old(self).requested_rematch_by_self,
                })
            },
            !menu_open && flow_online && !view.has_outcome && old(self).confirm_resign ==> (
            seat matches Some(s) ==> {
                &&& request == (if !input.cancel_resign && input.confirm_resign && !controls_locked
                    && may_resign(*view, s) {
                    Some(ControlRequest::Resign)
                } else {
                    None
                })
                &&& final(self).confirm_resign == !(input.cancel_resign || (input.confirm_resign
                    && !controls_locked && !may_resign(*view, s)))
            }),
            !menu_open && flow_online && !view.has_outcome && !old(self).confirm_resign ==> (
            seat matches Some(s) ==> {
                &&& final(self).confirm_resign == (!controls_locked && input.request_resign
                    && may_resign(*view, s))
                &&& request == (if controls_locked || (input.request_resign && may_resign(
                    *view,
                    s,
                )) {
                    None
                } else {
                    match view.draw_offer {
                        None => if input.offer_draw && view.active_player == s {
                            Some(ControlRequest::Draw(DrawCommand::Offer))
                        } else {
                            None
                        },
                        Some(offering) => if offering != s && (input.accept_draw
                            || input.decline_draw) {
                            if input.accept_draw {
                                Some(ControlRequest::Draw(DrawCommand::Accept))
                            } else {
                                Some(ControlRequest::Draw(DrawCommand::Reject))
                            }
                        } else {
                            None
                        },
                    }
                })
            }),
            request matches Some(ControlRequest::Resign) ==> seat matches Some(s) && may_resign(
                *view,
                s,
            ),
            !menu_open && flow_online ==> (seat matches Some(s) ==> final(self).status@
                == input_status(old(self).status@, old(self).confirm_resign, s, *view, controls_locked, *input)),
    {
        if menu_open {
            return None;
        }
        if !flow_online {
            self.confirm_resign = false;
            return None;
        }
        let seat = match seat {
            None => return None,
            Some(seat) => seat,
        };
        if view.has_outcome {
            self.confirm_resign = false;
            if controls_locked {
                return None;
            }
            if input.leave {
                self.status = String::from_str(
                    "Leaving this finished room; its durable result remains on the server.",
                );
                return Some(ControlRequest::Leave);
            } else if input.decline_rematch && self.rematch_state == Some(RematchState::Requested) {
                self.requested_rematch_by_self = false;
                return Some(ControlRequest::Rematch(RematchCommand::Decline));
            } else if input.rematch && self.rematch_state != Some(RematchState::Accepted) {
                let accepting_other = self.rematch_state == Some(RematchState::Requested)
                    && !self.requested_rematch_by_self;
                self.requested_rematch_by_self = true;
                return Some(
                    ControlRequest::Rematch(
                        if accepting_other {
                            RematchCommand::Accept
                        } else {
                            RematchCommand::Request
                        },
                    ),
                );
            }
            return None;
        }
        if self.confirm_resign {
            if input.cancel_resign {
                self.confirm_resign = false;
                self.status = String::from_str("Resignation cancelled.");
            } else if input.confirm_resign && !controls_locked {
                if resignation_available(view, seat) {
                    self.status = String::from_str(
                        "Resignation submitted; awaiting the authoritative outcome.",
                    );
                    return Some(ControlRequest::Resign);
                } else {
                    self.confirm_resign = false;
                    self.status = String::from_str(
                        "Resignation cancelled because the authoritative turn changed.",
                    );
                }
            }
            return None;
        }
        if controls_locked {
            return None;
        }
        if input.request_resign && resignation_available(view, seat) {
            self.confirm_resign = true;
            self.status = String::from_str("Confirm resignation with Enter, or cancel with Escape.");
            return None;
        }
        match view.draw_offer {
            None => {
                if input.offer_draw && view.active_player == seat {
                    Some(ControlRequest::Draw(DrawCommand::Offer))
                } else {
                    None
                }
            },
            Some(offering) => {
                if offering != seat && (input.accept_draw || input.decline_draw) {
                    if input.accept_draw {
                        Some(ControlRequest::Draw(DrawCommand::Accept))
                    } else {
                        Some(ControlRequest::Draw(DrawCommand::Reject))
                    }
                } else {
                    None
                }
            },
        }
    }
}

/// The status after a frame of match controls of `seat` in the online match:
/// leaving a finished room, and each step of the resignation prompt, say what
/// happens; anything else leaves `status` as it was.
pub open spec fn input_status(
    status: Seq<char>,
    confirm_resign: bool,
    seat: Player,
    view: MatchView,
    controls_locked: bool,
    input: LifecycleControls,
) -> Seq<char> {
    if view.has_outcome {
        if !controls_locked && input.leave {
            "Leaving this finished room; its durable result remains on the server."@
        } else {
            status
        }
    } else if confirm_resign {
        if input.cancel_resign {
            "Resignation cancelled."@
        } else if input.confirm_resign && !controls_locked {
            if may_resign(view, seat) {
                "Resignation submitted; awaiting the authoritative outcome."@
            } else {
                "Resignation cancelled because the authoritative turn changed."@
            }
        } else {
            status
        }
    } else if !controls_locked && input.request_resign && may_resign(view, seat) {
        "Confirm resignation with Enter, or cancel with Escape."@
    } else {
        status
    }
}

/// The draw line of the live-match controls.
pub open spec fn draw_line(view: MatchView, seat: Player) -> Seq<char> {
    match view.draw_offer {
        None => if view.active_player == seat {
            "D offer draw"@
        } else {
            "Draw offer unavailable until your turn"@
        },
        Some(offering) => if offering == seat {
            "Draw offered - awaiting opponent"@
        } else {
            "Opponent offered draw - Y accept - N decline"@
        },
    }
}

/// The resignation line of the live-match controls.
pub open spec fn resign_line(view: MatchView, seat: Player, confirm_resign: bool) -> Seq<char> {
    if view.has_outcome {
        "Resign disabled: match finished"@
    } else if confirm_resign {
        "CONFIRM RESIGNATION - Enter confirm - Esc cancel"@
    } else if view.active_player == seat {
        "Q resign (confirmation required)"@
    } else {
        "Resign unavailable until your turn"@
    }
}

/// The text of the live-match controls.
pub fn active_controls(
    view: &MatchView,
    seat: Player,
    confirm_resign: bool,
    locked: bool,
    status: &str,
) -> (text: String)
    ensures
        text@ == "MATCH CONTROLS"@ + (if locked {
            " - PENDING"@
        } else {
            ""@
        }) + "\n"@ + draw_line(*view, seat) + "\n"@ + resign_line(*view, seat, confirm_resign)
            + "\n"@ + status@,
{
    let draw: &str = match view.draw_offer {
        None => if view.active_player == seat {
            "D offer draw"
        } else {
            "Draw offer unavailable until your turn"
        },
        Some(offering) => if offering == seat {
            "Draw offered - awaiting opponent"
        } else {
            "Opponent offered draw - Y accept - N decline"
        },
    };
    let resign: &str = if view.has_outcome {
        "Resign disabled: match finished"
    } else if confirm_resign {
        "CONFIRM RESIGNATION - Enter confirm - Esc cancel"
    } else if view.active_player == seat {
        "Q resign (confirmation required)"
    } else {
        "Resign unavailable until your turn"
    };
    let pending: &str = if locked {
        " - PENDING"
    } else {
        ""
    };
    let parts = [ "MATCH CONTROLS", pending, "\n", draw, "\n", resign, "\n", status];
    let text = joined(&parts);
    proof {
        reveal_with_fuel(Seq::fold_left, 9);
        assert(parts@ =~= seq!["MATCH CONTROLS", pending, "\n", draw, "\n", resign, "\n", status]);
    }
    text
}

/// The rematch line of the finished-match controls.
pub open spec fn rematch_line(rematch: Option<RematchState>, requested_by_self: bool) -> Seq<char> {
    match rematch {
        None | Some(RematchState::Declined) => "R request rematch"@,
        Some(RematchState::Requested) => if requested_by_self {
            "Rematch requested - waiting for opponent - N decline"@
        } else {
            "Opponent requests rematch - R accept - N decline"@
        },
        Some(RematchState::Accepted) => "Rematch accepted - reconnecting to fresh match"@,
    }
}

/// The winner line: who won, or a draw.
pub open spec fn winner_text(winner: Option<Player>) -> Seq<char> {
    match winner {
        None => "Draw"@,
        Some(Player::North) => "North wins"@,
        Some(Player::South) => "South wins"@,
    }
}

/// The text of the finished-match controls, given the name of the reason the
/// match ended.
pub fn terminal_controls(
    reason: &str,
    winner: Option<Player>,
    rematch: Option<RematchState>,
    requested_by_self: bool,
    locked: bool,
    status: &str,
) -> (text: String)
    ensures
        text@ == "MATCH ENDED - "@ + reason@ + " - "@ + winner_text(winner) + (if locked {
            " - CONTROL PENDING"@
        } else {
            ""@
        }) + "\n"@ + rematch_line(rematch, requested_by_self) + "\nL leave finished room\n"@
            + status@,
{
    let winner_part: &str = match winner {
        None => "Draw",
        Some(Player::North) => "North wins",
        Some(Player::South) => "South wins",
    };
    let pending: &str = if locked {
        " - CONTROL PENDING"
    } else {
        ""
    };
    let rematch_part: &str = match rematch {
        None | Some(RematchState::Declined) => "R request rematch",
        Some(RematchState::Requested) => if requested_by_self {
            "Rematch requested - waiting for opponent - N decline"
        } else {
            "Opponent requests rematch - R accept - N decline"
        },
        Some(RematchState::Accepted) => "Rematch accepted - reconnecting to fresh match",
    };
    let parts = [
        "MATCH ENDED - ",
        reason,
        " - ",
        winner_part,
        pending,
        "\n",
        rematch_part,
        "\nL leave finished room\n",
        status,
    ];
    let text = joined(&parts);
    proof {
        reveal_with_fuel(Seq::fold_left, 10);
        assert(parts@ =~= seq![
            "MATCH ENDED - ",
            reason,
            " - ",
            winner_part,
            pending,
            "\n",
            rematch_part,
            "\nL leave finished room\n",
            status,
        ]);
    }
    text
}

} // verus!
