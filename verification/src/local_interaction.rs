//! Board input: keyboard focus and its movement, which square a press
//! activates, what a frame of input asks of the match, the mandatory
//! promotion and pawn-placement choices, and the one-command-at-a-time rule.
use vstd::prelude::*;

use crate::lifecycle::ClientFlow;
use crate::text::{decimal, decimal_text, push_char};

verus! {

/// A square of the board.
#[derive(Debug, Clone, Copy, PartialEq, Eq, Structural)]
pub struct Coord {
    pub x: u16,
    pub y: u16,
}

/// The board's size.
#[derive(Debug, Clone, Copy, PartialEq, Eq, Structural)]
pub struct BoardSize {
    pub width: u16,
    pub height: u16,
}

/// What a pawn may be promoted to.
#[derive(Debug, Clone, Copy, PartialEq, Eq, Structural)]
pub enum PromotionKind {
    Queen,
    Rook,
    Bishop,
    Knight,
}

/// The control scores that unlock each promotion.
#[derive(Debug, Clone, Copy, PartialEq, Eq, Structural)]
pub struct PromotionUnlocks {
    pub bishop: u32,
    pub rook: u32,
    pub queen: u32,
}

/// The key that chooses a promotion.
pub fn promotion_binding(kind: PromotionKind) -> (key: &'static str)
    ensures
        key@ == match kind {
            PromotionKind::Queen => "1"@,
            PromotionKind::Rook => "2"@,
            PromotionKind::Bishop => "3"@,
            PromotionKind::Knight => "4"@,
        },
{
    match kind {
        PromotionKind::Queen => "1",
        PromotionKind::Rook => "2",
        PromotionKind::Bishop => "3",
        PromotionKind::Knight => "4",
    }
}

/// The control score a promotion needs: nothing for a knight.
pub fn promotion_required_score(unlocks: &PromotionUnlocks, kind: PromotionKind) -> (score: u32)
    ensures
        score == match kind {
            PromotionKind::Knight => 0,
            PromotionKind::Bishop => unlocks.bishop,
            PromotionKind::Rook => unlocks.rook,
            PromotionKind::Queen => unlocks.queen,
        },
{
    match kind {
        PromotionKind::Knight => 0,
        PromotionKind::Bishop => unlocks.bishop,
        PromotionKind::Rook => unlocks.rook,
        PromotionKind::Queen => unlocks.queen,
    }
}

/// Which way the focus cycles through the choices.
#[derive(Debug, Clone, Copy, PartialEq, Eq, Structural)]
pub enum CycleDirection {
    Previous,
    Next,
}

/// The position of the first occurrence of `c` in `s`.
pub open spec fn first_index(s: Seq<Coord>, c: Coord) -> int {
    choose|i: int| 0 <= i < s.len() && s[i] == c && forall|j: int| 0 <= j < i ==> s[j] != c
}

/// The position of the first choice equal to `current`, or the first one.
pub open spec fn focus_index(choices: Seq<Coord>, current: Option<Coord>) -> int {
    match current {
        Some(c) => if choices.contains(c) {
            first_index(choices, c)
        } else {
            0
        },
        None => 0,
    }
}

/// The choice after (or before) the focused one, cycling; none without choices.
pub open spec fn cycled_focus(choices: Seq<Coord>, current: Option<Coord>, direction: CycleDirection) -> Option<Coord> {
    if choices.len() == 0 {
        None
    } else {
        let i = focus_index(choices, current);
        let n = choices.len() as int;
        Some(choices[match direction {
            CycleDirection::Previous => if i == 0 {
                n - 1
            } else {
                i - 1
            },
            CycleDirection::Next => if i + 1 == n {
                0
            } else {
                i + 1
            },
        }])
    }
}

/// Moves the focus through the legal choices, cycling.
pub fn cycle_choice_focus(choices: &[Coord], current: Option<Coord>, direction: CycleDirection) -> (next: Option<Coord>)
    ensures
        next == cycled_focus(choices@, current, direction),
        next matches Some(c) ==> choices@.contains(c),
{
    let n = choices.len();
    if n == 0 {
        return None;
    }
    let index: usize = match current {
        Some(c) => match position_of(choices, c) {
            Some(i) => i,
            None => 0,
        },
        None => 0,
    };
    let target = match direction {
        CycleDirection::Previous => if index == 0 {
            n - 1
        } else {
            index - 1
        },
        CycleDirection::Next => if index + 1 == n {
            0
        } else {
            index + 1
        },
    };
    Some(choices[target])
}

fn position_of(items: &[Coord], wanted: Coord) -> (found: Option<usize>)
    ensures
        match found {
            Some(i) => items@.contains(wanted) && i == first_index(items@, wanted) && i < items@.len(),
            None => !items@.contains(wanted),
        },
{
    let mut i: usize = 0;
    while i < items.len()
        invariant
            i <= items@.len(),
            forall|j: int| 0 <= j < i ==> items@[j] != wanted,
        decreases items.len() - i,
    {
        if items[i] == wanted {
            proof {
                assert(items@[i as int] == wanted);
                assert(items@.contains(wanted));
                let p = |k: int| 0 <= k < items@.len() && items@[k] == wanted && forall|j: int|
                    0 <= j < k ==> items@[j] != wanted;
                assert(p(i as int));
                let k = first_index(items@, wanted);
                assert(p(k));
                if k < i {
                    assert(items@[k] != wanted);
                }
                if k > i {
                    assert(items@[i as int] != wanted);
                }
            }
            return Some(i);
        }
        i = i + 1;
    }
    false_none(items, wanted)
}

fn false_none(items: &[Coord], wanted: Coord) -> (none: Option<usize>)
    requires
        forall|j: int| 0 <= j < items@.len() ==> items@[j] != wanted,
    ensures
        none is None,
        !items@.contains(wanted),
{
    None
}

/// The arrow keys pressed this frame.
#[derive(Debug, Clone, Copy, PartialEq, Eq, Structural)]
pub struct ArrowKeys {
    pub left: bool,
    pub right: bool,
    pub up: bool,
    pub down: bool,
}

/// The step of the focus: the first arrow pressed of left, right, up, down.
pub open spec fn arrow_step(keys: ArrowKeys) -> Option<(i8, i8)> {
    if keys.left {
        Some((-1i8, 0i8))
    } else if keys.right {
        Some((1i8, 0i8))
    } else if keys.up {
        Some((0i8, -1i8))
    } else if keys.down {
        Some((0i8, 1i8))
    } else {
        None
    }
}

/// The step of the focus for this frame's arrows.
pub fn navigation_step(keys: &ArrowKeys) -> (step: Option<(i8, i8)>)
    ensures
        step == arrow_step(*keys),
{
    if keys.left {
        Some((-1, 0))
    } else if keys.right {
        Some((1, 0))
    } else if keys.up {
        Some((0, -1))
    } else if keys.down {
        Some((0, 1))
    } else {
        None
    }
}

/// A single arrow moves the focus one square along its own axis: Left and Up
/// towards column and row 0, Right and Down away from them, so opposite
/// arrows step in opposite directions; no arrow gives no step.
pub proof fn law_arrows_step_one_square(keys: ArrowKeys)
    ensures
        !keys.left && !keys.right && !keys.up && !keys.down ==> arrow_step(keys) is None,
        keys.left && !keys.right && !keys.up && !keys.down ==> (arrow_step(keys) matches Some(s)
            && s.0 < 0 && s.0 + 1 == 0 && s.1 == 0),
        !keys.left && keys.right && !keys.up && !keys.down ==> (arrow_step(keys) matches Some(s)
            && s.0 > 0 && s.0 - 1 == 0 && s.1 == 0),
        !keys.left && !keys.right && keys.up && !keys.down ==> (arrow_step(keys) matches Some(s)
            && s.1 < 0 && s.1 + 1 == 0 && s.0 == 0),
        !keys.left && !keys.right && !keys.up && keys.down ==> (arrow_step(keys) matches Some(s)
            && s.1 > 0 && s.1 - 1 == 0 && s.0 == 0),
{
}

/// Up then Down (and Left then Right) brings a focus that is not on the
/// board's edge back to its square.
pub proof fn law_opposite_arrows_return(value: int, limit: int)
    requires
        0 < value < limit - 1,
    ensures
        ({
            let up = arrow_step(ArrowKeys { left: false, right: false, up: true, down: false })->0;
            let down = arrow_step(ArrowKeys { left: false, right: false, up: false, down: true })->0;
            clamped(clamped(value, up.1 as int, limit), down.1 as int, limit) == value
                && clamped(clamped(value, down.1 as int, limit), up.1 as int, limit) == value
        }),
        ({
            let left = arrow_step(ArrowKeys { left: true, right: false, up: false, down: false })->0;
            let right = arrow_step(ArrowKeys { left: false, right: true, up: false, down: false })->0;
            clamped(clamped(value, left.0 as int, limit), right.0 as int, limit) == value
                && clamped(clamped(value, right.0 as int, limit), left.0 as int, limit) == value
        }),
{
}

/// A coordinate moved by a step and held within `0 ..= limit - 1`.
pub open spec fn clamped(value: int, step: int, limit: int) -> int {
    let moved = value + step;
    if moved < 0 {
        0
    } else if moved > limit - 1 {
        limit - 1
    } else {
        moved
    }
}

fn clamp_axis(value: u16, step: i8, limit: u16) -> (result: u16)
    requires
        limit > 0,
    ensures
        result == clamped(value as int, step as int, limit as int),
{
    let moved: i32 = value as i32 + step as i32;
    if moved < 0 {
        0
    } else if moved > limit as i32 - 1 {
        limit - 1
    } else {
        moved as u16
    }
}

/// Moves the keyboard focus by a step, held on the board.
pub fn move_focus(at: Coord, step: (i8, i8), board: BoardSize) -> (moved: Coord)
    requires
        board.width > 0,
        board.height > 0,
    ensures
        moved.x == clamped(at.x as int, step.0 as int, board.width as int),
        moved.y == clamped(at.y as int, step.1 as int, board.height as int),
        moved.x < board.width,
        moved.y < board.height,
{
    Coord { x: clamp_axis(at.x, step.0, board.width), y: clamp_axis(at.y, step.1, board.height) }
}

/// The square a press activates: Enter activates the focus, a left click
/// the hovered square unless the interface holds the pointer.
pub open spec fn activated(
    enter: bool,
    left_click: bool,
    focus: Option<Coord>,
    hovered: Option<Coord>,
    ui_has_pointer: bool,
) -> Option<Coord> {
    if enter {
        focus
    } else if left_click && !ui_has_pointer {
        hovered
    } else {
        None
    }
}

/// The square this frame's press activates.
pub fn activated_square(
    enter: bool,
    left_click: bool,
    focus: Option<Coord>,
    hovered: Option<Coord>,
    ui_has_pointer: bool,
) -> (square: Option<Coord>)
    ensures
        square == activated(enter, left_click, focus, hovered, ui_has_pointer),
{
    if enter {
        focus
    } else if left_click && !ui_has_pointer {
        hovered
    } else {
        None
    }
}

/// The board keys pressed this frame.
#[derive(Debug, Clone, Copy, PartialEq, Eq, Structural)]
pub struct BoardKeys {
    pub arrows: ArrowKeys,
    pub escape: bool,
    pub enter: bool,
    pub hold: bool,
    pub left_click: bool,
    pub digit1: bool,
    pub digit2: bool,
    pub digit3: bool,
    pub digit4: bool,
}

/// Whether board input is taken this frame, and if not, why.
#[derive(Debug, Clone, Copy, PartialEq, Eq, Structural)]
pub enum BoardGate {
    /// No match is being played.
    Inactive,
    /// A private hand-off between local players is under way.
    Handoff,
    /// The computer plays the side to move.
    ComputerTurn,
    /// A command awaits the server's answer.
    AwaitingServer,
    /// Input is taken.
    Open,
}

/// What a frame of free board input asks for.
#[derive(Debug, Clone, Copy, PartialEq, Eq, Structural)]
pub enum BoardCommand {
    Nothing,
    Hold,
    Activate(Coord),
}

/// What the match says of an activated square.
#[derive(Debug, Clone, Copy, PartialEq, Eq, Structural)]
pub enum Activation {
    Select(u64),
    Move { piece: u64, to: Coord },
    Clear,
}

/// Where a command goes once submitted.
#[derive(Debug, Clone, Copy, PartialEq, Eq, Structural)]
pub enum SubmitRoute {
    /// Another submission is under way: nothing happens.
    Ignored,
    /// Queued for the server.
    Online,
    /// Applied to the local match.
    Local,
}

/// What the board input keeps from frame to frame.
#[derive(Debug)]
pub struct BoardInteraction {
    pub keyboard_focus: Option<Coord>,
    pub observed_revision: Option<u64>,
    pub status: String,
    pub submitting: bool,
    pub selected_piece: Option<u64>,
}

impl BoardInteraction {
    /// Nothing focused, selected, observed or said.
    pub fn new() -> (interaction: Self)
        ensures
            interaction.keyboard_focus is None,
            interaction.observed_revision is None,
            interaction.status@.len() == 0,
            !interaction.submitting,
            interaction.selected_piece is None,
    {
        BoardInteraction {
            keyboard_focus: None,
            observed_revision: None,
            status: String::new(),
            submitting: false,
            selected_piece: None,
        }
    }

    /// The server answered the command: submitting ends with this status.
    pub fn resolve_online(&mut self, status: &str)
        ensures
            !final(self).submitting,
            final(self).status@ == status@,
            final(self).keyboard_focus == old(self).keyboard_focus,
            final(self).observed_revision == old(self).observed_revision,
            final(self).selected_piece == old(self).selected_piece,
    {
        self.submitting = false;
        self.status = status.to_owned();
    }

    /// Decides whether the board takes input this frame. Outside a played
    /// match the selection is dropped. Locally, a hand-off pauses the board
    /// and the computer's turn releases it. A new revision drops the
    /// selection and ends a submission (online, only once the outbox is
    /// free). Online, a locked outbox waits for the server.
    pub fn gate(
        &mut self,
        flow: Option<ClientFlow>,
        handoff: bool,
        computer_to_move: bool,
        revision: u64,
        outbox_locked: bool,
    ) -> (gate: BoardGate)
        ensures
            ({
                let online = flow == Some(ClientFlow::OnlinePlaying);
                let playing = match flow {
                    None => true,
                    Some(f) => f == ClientFlow::Playing || f == ClientFlow::OnlinePlaying,
                };
                let new_revision = old(self).observed_revision != Some(revision);
                &&& gate == (if !playing {
                    BoardGate::Inactive
                } else if !online && handoff {
                    BoardGate::Handoff
                } else if !online && computer_to_move {
                    BoardGate::ComputerTurn
                } else if online && outbox_locked {
                    BoardGate::AwaitingServer
                } else {
                    BoardGate::Open
                })
                &&& gate != BoardGate::Open ==> final(self).selected_piece is None
                &&& (gate == BoardGate::Handoff || gate == BoardGate::ComputerTurn)
                    ==> final(self).keyboard_focus is None
                &&& gate == BoardGate::Handoff ==> final(self).status@
                    == "Private handoff: board input and clocks are paused."@
                &&& gate == BoardGate::AwaitingServer ==> {
                    &&& final(self).status@ == "Command pending authoritative acknowledgement."@
                    &&& final(self).observed_revision == Some(revision)
                    &&& final(self).submitting == old(self).submitting
                    &&& final(self).keyboard_focus == old(self).keyboard_focus
                }
                &&& (gate == BoardGate::Inactive || gate == BoardGate::Handoff || gate
                    == BoardGate::ComputerTurn) ==> {
                    &&& final(self).observed_revision == old(self).observed_revision
                    &&& final(self).submitting == old(self).submitting
                }
                &&& gate == BoardGate::Inactive ==> final(self).keyboard_focus == old(self).keyboard_focus
                    && final(self).status == old(self).status
                &&& gate == BoardGate::ComputerTurn ==> final(self).status == old(self).status
                &&& gate == BoardGate::Open ==> {
                    &&& final(self).observed_revision == Some(revision)
                    &&& final(self).selected_piece == (if new_revision {
                        None
                    } else {
                        old(self).selected_piece
                    })
                    &&& final(self).submitting == (if new_revision && !(online && outbox_locked) {
                        false
                    } else {
                        old(self).submitting
                    })
                    &&& final(self).keyboard_focus == old(self).keyboard_focus
                    &&& final(self).status == old(self).status
                }
            }),
    {
        let online = match flow {
            Some(ClientFlow::OnlinePlaying) => true,
            _ => false,
        };
        let playing = match flow {
            None => true,
            Some(ClientFlow::Playing) | Some(ClientFlow::OnlinePlaying) => true,
            _ => false,
        };
        if !playing {
            self.selected_piece = None;
            return BoardGate::Inactive;
        }
        if !online && handoff {
            self.selected_piece = None;
            self.keyboard_focus = None;
            self.status = String::from_str("Private handoff: board input and clocks are paused.");
            return BoardGate::Handoff;
        }
        if !online && computer_to_move {
            self.selected_piece = None;
            self.keyboard_focus = None;
            return BoardGate::ComputerTurn;
        }
        if self.observed_revision != Some(revision) {
            self.selected_piece = None;
            self.observed_revision = Some(revision);
            if !online || !outbox_locked {
                self.submitting = false;
            }
        }
        if online && outbox_locked {
            self.selected_piece = None;
            self.status = String::from_str("Command pending authoritative acknowledgement.");
            return BoardGate::AwaitingServer;
        }
        BoardGate::Open
    }

    /// One frame of free board input (no mandatory choice pending): Escape
    /// releases focus and selection; an arrow moves the focus from the focus,
    /// else from the selected piece, else from the hovered square, else from
    /// the corner; the hold key asks to hold; otherwise a press activates a
    /// square, which becomes the focus.
    pub fn free_input(
        &mut self,
        keys: &BoardKeys,
        hovered: Option<Coord>,
        ui_has_pointer: bool,
        selected_at: Option<Coord>,
        board: BoardSize,
    ) -> (command: BoardCommand)
        requires
            board.width > 0,
            board.height > 0,
        ensures
            keys.escape ==> command == BoardCommand::Nothing && final(self).keyboard_focus is None
                && final(self).selected_piece is None && final(self).status@
                == "Board focus released."@,
            !keys.escape ==> {
                let origin = match old(self).keyboard_focus {
                    Some(f) => f,
                    None => match selected_at {
                        Some(s) => s,
                        None => match hovered {
                            Some(h) => h,
                            None => Coord { x: 0, y: 0 },
                        },
                    },
                };
                let focus = match arrow_step(keys.arrows) {
                    Some(step) => Some(
                        Coord {
                            x: clamped(origin.x as int, step.0 as int, board.width as int) as u16,
                            y: clamped(origin.y as int, step.1 as int, board.height as int) as u16,
                        },
                    ),
                    None => old(self).keyboard_focus,
                };
                let square = activated(keys.enter, keys.left_click, focus, hovered, ui_has_pointer);
                &&& command == (if keys.hold {
                    BoardCommand::Hold
                } else {
                    match square {
                        Some(at) => BoardCommand::Activate(at),
                        None => BoardCommand::Nothing,
                    }
                })
                &&& final(self).keyboard_focus == (match command {
                    BoardCommand::Activate(at) => Some(at),
                    _ => focus,
                })
                &&& final(self).selected_piece == old(self).selected_piece
                &&& final(self).status == old(self).status
            },
            final(self).submitting == old(self).submitting,
            final(self).observed_revision == old(self).observed_revision,
    {
        if keys.escape {
            self.keyboard_focus = None;
            self.selected_piece = None;
            self.status = String::from_str("Board focus released.");
            return BoardCommand::Nothing;
        }
        if let Some(step) = navigation_step(&keys.arrows) {
            let origin = match self.keyboard_focus {
                Some(f) => f,
                None => match selected_at {
                    Some(s) => s,
                    None => match hovered {
                        Some(h) => h,
                        None => Coord { x: 0, y: 0 },
                    },
                },
            };
            self.keyboard_focus = Some(move_focus(origin, step, board));
        }
        if keys.hold {
            return BoardCommand::Hold;
        }
        match activated_square(keys.enter, keys.left_click, self.keyboard_focus, hovered, ui_has_pointer) {
            None => BoardCommand::Nothing,
            Some(at) => {
                self.keyboard_focus = Some(at);
                BoardCommand::Activate(at)
            },
        }
    }

    /// Applies what the match says of an activated square: selects a piece,
    /// asks to move the selected piece there, or clears the selection.
    pub fn apply_activation(&mut self, activation: Activation) -> (move_to: Option<(u64, Coord)>)
        ensures
            move_to == (match activation {
                Activation::Move { piece, to } => Some((piece, to)),
                _ => None,
            }),
            final(self).selected_piece == (match activation {
                Activation::Select(piece) => Some(piece),
                Activation::Clear => None,
                Activation::Move { .. } => old(self).selected_piece,
            }),
            final(self).status@ == (match activation {
                Activation::Select(_) => "Piece selected. Choose a highlighted destination."@,
                Activation::Clear => "Selection cleared."@,
                Activation::Move { .. } => old(self).status@,
            }),
            final(self).keyboard_focus == old(self).keyboard_focus,
            final(self).submitting == old(self).submitting,
            final(self).observed_revision == old(self).observed_revision,
    {
        match activation {
            Activation::Select(piece) => {
                self.selected_piece = Some(piece);
                self.status = String::from_str("Piece selected. Choose a highlighted destination.");
                None
            },
            Activation::Move { piece, to } => Some((piece, to)),
            Activation::Clear => {
                self.selected_piece = None;
                self.status = String::from_str("Selection cleared.");
                None
            },
        }
    }

    /// Starts submitting a command: a second submission while one is under
    /// way does nothing. Online, the command is queued (unless the outbox is
    /// already locked); locally it is applied at once.
    pub fn begin_submit(&mut self, online: bool, outbox_locked: bool) -> (route: SubmitRoute)
        ensures
            route == (if old(self).submitting {
                SubmitRoute::Ignored
            } else if online && outbox_locked {
                SubmitRoute::Ignored
            } else if online {
                SubmitRoute::Online
            } else {
                SubmitRoute::Local
            }),
            final(self).submitting,
            route == SubmitRoute::Online ==> final(self).selected_piece is None
                && final(self).status@ == "Command pending authoritative acknowledgement."@,
            route != SubmitRoute::Online ==> final(self).selected_piece == old(self).selected_piece
                && final(self).status == old(self).status,
            final(self).keyboard_focus == old(self).keyboard_focus,
            final(self).observed_revision == old(self).observed_revision,
    {
        if self.submitting {
            return SubmitRoute::Ignored;
        }
        self.submitting = true;
        if online {
            if outbox_locked {
                return SubmitRoute::Ignored;
            }
            self.selected_piece = None;
            self.status = String::from_str("Command pending authoritative acknowledgement.");
            return SubmitRoute::Online;
        }
        SubmitRoute::Local
    }

    /// Ends a local submission: an accepted command records the new revision
    /// and drops the selection; a rejected one shows why.
    pub fn finish_local(&mut self, outcome: Result<u64, String>)
        ensures
            !final(self).submitting,
            match outcome {
                Ok(revision) => final(self).observed_revision == Some(revision)
                    && final(self).selected_piece is None && final(self).status@
                    == "Command accepted."@,
                Err(message) => final(self).status@ == message@ && final(self).observed_revision
                    == old(self).observed_revision && final(self).selected_piece == old(self).selected_piece,
            },
            final(self).keyboard_focus == old(self).keyboard_focus,
    {
        match outcome {
            Ok(revision) => {
                self.observed_revision = Some(revision);
                self.selected_piece = None;
                self.status = String::from_str("Command accepted.");
            },
            Err(message) => {
                self.status = message;
            },
        }
        self.submitting = false;
    }

    /// One frame of a mandatory promotion: holding is refused; the pointer's
    /// choice, else the first digit key pressed (1 queen, 2 rook, 3 bishop,
    /// 4 knight), is the promotion asked for; Escape only reminds that the
    /// choice is mandatory.
    pub fn promotion_input(&mut self, keys: &BoardKeys, pointer: Option<PromotionKind>) -> (choice:
        Option<PromotionKind>)
        ensures
            final(self).selected_piece is None,
            keys.hold ==> choice is None && final(self).status@
                == "Hold disabled: resolve the mandatory choice first."@ && final(self).keyboard_focus == old(self).keyboard_focus,
            !keys.hold ==> {
                &&& final(self).keyboard_focus is None
                &&& choice == (match pointer {
                    Some(kind) => Some(kind),
                    None => if keys.digit1 {
                        Some(PromotionKind::Queen)
                    } else if keys.digit2 {
                        Some(PromotionKind::Rook)
                    } else if keys.digit3 {
                        Some(PromotionKind::Bishop)
                    } else if keys.digit4 {
                        Some(PromotionKind::Knight)
                    } else {
                        None
                    },
                })
                &&& choice is None && keys.escape ==> final(self).status@
                    == "Promotion is mandatory; choose 1, 2, 3, or 4."@
                &&& !(choice is None && keys.escape) ==> final(self).status == old(self).status
            },
            final(self).submitting == old(self).submitting,
            final(self).observed_revision == old(self).observed_revision,
    {
        self.selected_piece = None;
        if keys.hold {
            self.status = String::from_str("Hold disabled: resolve the mandatory choice first.");
            return None;
        }
        self.keyboard_focus = None;
        let choice = match pointer {
            Some(kind) => Some(kind),
            None => if keys.digit1 {
                Some(PromotionKind::Queen)
            } else if keys.digit2 {
                Some(PromotionKind::Rook)
            } else if keys.digit3 {
                Some(PromotionKind::Bishop)
            } else if keys.digit4 {
                Some(PromotionKind::Knight)
            } else {
                None
            },
        };
        if choice.is_none() && keys.escape {
            self.status = String::from_str("Promotion is mandatory; choose 1, 2, 3, or 4.");
        }
        choice
    }

    /// Reports a promotion that the batch's frozen score does not unlock.
    pub fn report_locked_promotion(&mut self, kind: PromotionKind, score: u32, required: u32)
        ensures
            final(self).status@ == kind_name(kind) + " is locked for this batch: frozen score "@
                + decimal(score as nat) + ", requires "@ + decimal(required as nat) + seq!['.'],
            final(self).keyboard_focus == old(self).keyboard_focus,
            final(self).selected_piece == old(self).selected_piece,
            final(self).submitting == old(self).submitting,
    {
        let mut status = String::from_str(kind_text(kind));
        vstd::string::StringExecFns::append(&mut status, " is locked for this batch: frozen score ");
        let s = decimal_text(score as u64);
        vstd::string::StringExecFns::append(&mut status, s.as_str());
        vstd::string::StringExecFns::append(&mut status, ", requires ");
        let r = decimal_text(required as u64);
        vstd::string::StringExecFns::append(&mut status, r.as_str());
        push_char(&mut status, '.');
        self.status = status;
    }

    /// One frame of a mandatory pawn placement among `legal` squares: holding
    /// is refused; with no legal square the player waits; the focus is kept
    /// on a legal square (the first by default) and cycles with the arrows;
    /// Escape only reminds that the choice is mandatory; a press on a legal
    /// square places the pawn there, elsewhere it asks for a highlighted one.
    pub fn placement_input(
        &mut self,
        keys: &BoardKeys,
        legal: &[Coord],
        hovered: Option<Coord>,
        ui_has_pointer: bool,
    ) -> (place_at: Option<Coord>)
        ensures
            final(self).selected_piece is None,
            place_at matches Some(at) ==> legal@.contains(at),
            keys.hold ==> place_at is None && final(self).status@
                == "Hold disabled: resolve the mandatory choice first."@,
            !keys.hold && legal@.len() == 0 ==> place_at is None && final(self).status@
                == "Pawn placement is waiting for a legal adjacent square."@,
            !keys.hold && legal@.len() > 0 ==> {
                let start = match old(self).keyboard_focus {
                    Some(f) => if legal@.contains(f) {
                        Some(f)
                    } else {
                        Some(legal@[0])
                    },
                    None => Some(legal@[0]),
                };
                let focus = if keys.arrows.left || keys.arrows.up {
                    cycled_focus(legal@, start, CycleDirection::Previous)
                } else if keys.arrows.right || keys.arrows.down {
                    cycled_focus(legal@, start, CycleDirection::Next)
                } else {
                    start
                };
                let square = activated(keys.enter, keys.left_click, focus, hovered, ui_has_pointer);
                &&& final(self).keyboard_focus == focus
                &&& keys.escape ==> place_at is None && final(self).status@
                    == "Pawn placement is mandatory; choose a highlighted square."@
                &&& !keys.escape ==> place_at == (match square {
                    Some(at) => if legal@.contains(at) {
                        Some(at)
                    } else {
                        None
                    },
                    None => None,
                })
                &&& !keys.escape && square is Some && place_at is None ==> final(self).status@
                    == "Choose one of the highlighted legal Pawn squares."@
            },
            final(self).submitting == old(self).submitting,
            final(self).observed_revision == old(self).observed_revision,
    {
        self.selected_piece = None;
        if keys.hold {
            self.status = String::from_str("Hold disabled: resolve the mandatory choice first.");
            return None;
        }
        if legal.len() == 0 {
            self.status = String::from_str("Pawn placement is waiting for a legal adjacent square.");
            return None;
        }
        let focused_is_legal = match self.keyboard_focus {
            Some(f) => slice_contains(legal, f),
            None => false,
        };
        if !focused_is_legal {
            self.keyboard_focus = Some(legal[0]);
        }
        if keys.arrows.left || keys.arrows.up {
            self.keyboard_focus = cycle_choice_focus(legal, self.keyboard_focus, CycleDirection::Previous);
        } else if keys.arrows.right || keys.arrows.down {
            self.keyboard_focus = cycle_choice_focus(legal, self.keyboard_focus, CycleDirection::Next);
        }
        if keys.escape {
            self.status = String::from_str("Pawn placement is mandatory; choose a highlighted square.");
            return None;
        }
        match activated_square(keys.enter, keys.left_click, self.keyboard_focus, hovered, ui_has_pointer) {
            None => None,
            Some(at) => {
                if slice_contains(legal, at) {
                    Some(at)
                } else {
                    self.status = String::from_str("Choose one of the highlighted legal Pawn squares.");
                    None
                }
            },
        }
    }
}

fn slice_contains(items: &[Coord], wanted: Coord) -> (found: bool)
    ensures
        found == items@.contains(wanted),
{
    let mut i: usize = 0;
    while i < items.len()
        invariant
            i <= items@.len(),
            forall|j: int| 0 <= j < i ==> items@[j] != wanted,
        decreases items.len() - i,
    {
        if items[i] == wanted {
            assert(items@[i as int] == wanted);
            return true;
        }
        i = i + 1;
    }
    false
}

/// The name of a promotion.
pub open spec fn kind_name(kind: PromotionKind) -> Seq<char> {
    match kind {
        PromotionKind::Queen => "Queen"@,
        PromotionKind::Rook => "Rook"@,
        PromotionKind::Bishop => "Bishop"@,
        PromotionKind::Knight => "Knight"@,
    }
}

fn kind_text(kind: PromotionKind) -> (text: &'static str)
    ensures
        text@ == kind_name(kind),
{
    match kind {
        PromotionKind::Queen => "Queen",
        PromotionKind::Rook => "Rook",
        PromotionKind::Bishop => "Bishop",
        PromotionKind::Knight => "Knight",
    }
}

/// Whole seconds shown for a remaining time: rounded up.
pub open spec fn shown_seconds(millis: u64) -> nat {
    ((millis as nat + 999) / 1000) as nat
}

/// A remaining time as minutes and two-digit seconds, seconds rounded up.
pub open spec fn clock_text(millis: u64) -> Seq<char> {
    let total = shown_seconds(millis);
    let minutes = total / 60;
    let seconds = total % 60;
    decimal(minutes) + seq![':'] + (if seconds < 10 {
        seq!['0']
    } else {
        Seq::empty()
    }) + decimal(seconds)
}

/// Formats a remaining time for the clock line.
pub fn format_clock(millis: u64) -> (text: String)
    ensures
        text@ == clock_text(millis) ,
{
    let total: u64 = millis / 1000 + if millis % 1000 == 0 {
        0
    } else {
        1
    };
    assert(total == shown_seconds(millis)) by (nonlinear_arith)
        requires
            total == millis / 1000 + if millis % 1000 == 0 {
                0int
            } else {
                1int
            },
    ;
    let mut text = decimal_text(total / 60);
    push_char(&mut text, ':');
    if total % 60 < 10 {
        push_char(&mut text, '0');
    }
    let seconds = decimal_text(total % 60);
    vstd::string::StringExecFns::append(&mut text, seconds.as_str());
    text
}

/// The clock line of the choice panel.
pub fn clock_description(north_millis: u64, south_millis: u64) -> (text: String)
    ensures
        text@ == "Clocks - North "@ + clock_text(north_millis) + " - South "@ + clock_text(
            south_millis,
        ),
{
    let mut text = String::from_str("Clocks - North ");
    let north = format_clock(north_millis);
    vstd::string::StringExecFns::append(&mut text, north.as_str());
    vstd::string::StringExecFns::append(&mut text, " - South ");
    let south = format_clock(south_millis);
    vstd::string::StringExecFns::append(&mut text, south.as_str());
    text
}

} // verus!
