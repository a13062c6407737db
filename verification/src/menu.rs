//! The menu's navigation state: which page is shown, the pages to go back to,
//! and whether a confirmation prompt is up; and the typed intents that pointer
//! and keyboard input both produce.
use vstd::prelude::*;

verus! {

/// A page of the menu.
#[derive(Debug, Clone, Copy, PartialEq, Eq, Structural)]
pub enum MenuRoute {
    Home,
    LocalSetup,
    Guided,
    Online,
    Settings,
    Pause,
    Saves,
    Outcome,
}

/// What a menu control asks for.
#[derive(Debug, Clone, Copy, PartialEq, Eq, Structural)]
pub enum MenuAction {
    Open(MenuRoute),
    Back,
    Close,
    Confirm,
    Cancel,
    OpenHelp,
    Quit,
}

/// The shown page, the pages behind it, and whether a confirmation prompt is up.
#[derive(Debug, Clone)]
pub struct MenuState {
    pub route: Option<MenuRoute>,
    pub previous: Vec<MenuRoute>,
    pub modal: bool,
}

/// What follows from handling one menu action besides the new state.
#[derive(Debug, Clone, Copy, PartialEq, Eq, Structural)]
pub enum MenuEffect {
    Nothing,
    ExitApplication,
}

/// The menu's state as a value: the shown page, the pages kept to go back to
/// (the last one first), and whether a prompt is up.
pub ghost struct MenuView {
    pub route: Option<MenuRoute>,
    pub previous: Seq<MenuRoute>,
    pub modal: bool,
}

impl View for MenuState {
    type V = MenuView;

    open spec fn view(&self) -> MenuView {
        MenuView { route: self.route, previous: self.previous@, modal: self.modal }
    }
}

/// The state after showing `route`.
pub open spec fn opened(state: MenuView, route: MenuRoute) -> MenuView {
    MenuView {
        route: Some(route),
        previous: match state.route {
            Some(current) => if current != route {
                state.previous.push(current)
            } else {
                state.previous
            },
            None => state.previous,
        },
        ..state
    }
}

/// The state after going back.
pub open spec fn went_back(state: MenuView) -> MenuView {
    if state.previous.len() == 0 {
        MenuView { route: None, modal: false, ..state }
    } else {
        MenuView { route: Some(state.previous.last()), previous: state.previous.drop_last(), modal: false }
    }
}

/// The closed state.
pub open spec fn closed() -> MenuView {
    MenuView { route: None, previous: Seq::empty(), modal: false }
}

/// The state after handling `action`.
pub open spec fn after_action(state: MenuView, action: MenuAction) -> MenuView {
    match action {
        MenuAction::Open(route) => opened(state, route),
        MenuAction::Back => if state.route == Some(MenuRoute::Home) {
            state
        } else {
            went_back(state)
        },
        MenuAction::Close => closed(),
        MenuAction::Quit => MenuView { modal: true, ..state },
        MenuAction::Cancel => MenuView { modal: false, ..state },
        MenuAction::Confirm | MenuAction::OpenHelp => state,
    }
}

/// Whether handling `action` exits the application: confirming the quit
/// prompt on Home.
pub open spec fn exits(state: MenuView, action: MenuAction) -> bool {
    action == MenuAction::Confirm && state.modal && state.route == Some(MenuRoute::Home)
}

impl MenuState {
    /// A closed menu with nothing to go back to.
    pub fn new() -> (state: Self)
        ensures
            state@ == closed(),
    {
        MenuState { route: None, previous: Vec::new(), modal: false }
    }

    /// Shows `route`; the page shown before, if any and if it is another page,
    /// is kept to go back to.
    pub fn open(&mut self, route: MenuRoute)
        ensures
            final(self)@ == opened(old(self)@, route),
    {
        if let Some(current) = self.route {
            if current != route {
                self.previous.push(current);
            }
        }
        self.route = Some(route);
    }

    /// Shows `route` without keeping the page shown before.
    pub fn replace(&mut self, route: MenuRoute)
        ensures
            final(self)@ == (MenuView { route: Some(route), ..old(self)@ }),
    {
        self.route = Some(route);
    }

    /// Goes back to the last kept page (closing the menu when none is kept)
    /// and dismisses any prompt.
    pub fn back(&mut self)
        ensures
            final(self)@ == went_back(old(self)@),
    {
        self.route = self.previous.pop();
        self.modal = false;
    }

    /// Closes the menu, forgetting every kept page and any prompt.
    pub fn close(&mut self)
        ensures
            final(self)@ == closed(),
    {
        self.route = None;
        self.previous.clear();
        self.modal = false;
    }

    /// Whether a page is shown.
    pub fn is_open(&self) -> (open: bool)
        ensures
            open == self.route is Some,
    {
        self.route.is_some()
    }

    /// Handles one action: opening a page, going back (except from Home),
    /// closing, raising the quit prompt, confirming it on Home (which exits),
    /// or dismissing it.
    pub fn apply(&mut self, action: MenuAction) -> (effect: MenuEffect)
        ensures
            final(self)@ == after_action(old(self)@, action),
            effect == (if exits(old(self)@, action) {
                MenuEffect::ExitApplication
            } else {
                MenuEffect::Nothing
            }),
    {
        match action {
            MenuAction::Open(route) => {
                self.open(route);
                MenuEffect::Nothing
            },
            MenuAction::Back => {
                if self.route != Some(MenuRoute::Home) {
                    self.back();
                }
                MenuEffect::Nothing
            },
            MenuAction::Close => {
                self.close();
                MenuEffect::Nothing
            },
            MenuAction::Quit => {
                self.modal = true;
                MenuEffect::Nothing
            },
            MenuAction::Confirm => {
                if self.modal && self.route == Some(MenuRoute::Home) {
                    MenuEffect::ExitApplication
                } else {
                    MenuEffect::Nothing
                }
            },
            MenuAction::Cancel => {
                self.modal = false;
                MenuEffect::Nothing
            },
            MenuAction::OpenHelp => MenuEffect::Nothing,
        }
    }

    /// What the Escape key asks for: nothing while the menu is closed,
    /// dismissing the prompt while one is up, else going back.
    pub fn escape_action(&self) -> (action: Option<MenuAction>)
        ensures
            action == (if self.route is None {
                None
            } else if self.modal {
                Some(MenuAction::Cancel)
            } else {
                Some(MenuAction::Back)
            }),
    {
        if self.route.is_some() {
            if self.modal {
                Some(MenuAction::Cancel)
            } else {
                Some(MenuAction::Back)
            }
        } else {
            None
        }
    }
}

/// The title shown above a page.
pub fn menu_title(route: Option<MenuRoute>) -> (title: &'static str)
    ensures
        title@ == match route {
            Some(MenuRoute::Home) | None => "CROWNLINES"@,
            Some(MenuRoute::LocalSetup) => "NEW LOCAL MATCH"@,
            Some(MenuRoute::Guided) => "GUIDED PLAY"@,
            Some(MenuRoute::Online) => "ONLINE PLAY"@,
            Some(MenuRoute::Settings) => "SETTINGS"@,
            Some(MenuRoute::Pause) => "MATCH MENU"@,
            Some(MenuRoute::Saves) => "LOCAL SAVES"@,
            Some(MenuRoute::Outcome) => "MATCH COMPLETE"@,
        },
{
    match route {
        Some(MenuRoute::Home) | None => "CROWNLINES",
        Some(MenuRoute::LocalSetup) => "NEW LOCAL MATCH",
        Some(MenuRoute::Guided) => "GUIDED PLAY",
        Some(MenuRoute::Online) => "ONLINE PLAY",
        Some(MenuRoute::Settings) => "SETTINGS",
        Some(MenuRoute::Pause) => "MATCH MENU",
        Some(MenuRoute::Saves) => "LOCAL SAVES",
        Some(MenuRoute::Outcome) => "MATCH COMPLETE",
    }
}

/// Whether a control takes input.
#[derive(Debug, Clone, Copy, PartialEq, Eq, Structural)]
pub enum MenuAvailability {
    Enabled,
    Disabled,
    Pending,
}

/// How a control is drawn.
#[derive(Debug, Clone, Copy, PartialEq, Eq, Structural)]
pub enum MenuEmphasis {
    Normal,
    Selected,
    Destructive,
}

/// A menu control: the action it sends, whether it takes input, how it is drawn.
#[derive(Debug, Clone, Copy, PartialEq, Eq, Structural)]
pub struct MenuButton {
    pub action: MenuAction,
    pub availability: MenuAvailability,
    pub emphasis: MenuEmphasis,
}

impl MenuButton {
    /// An enabled, normally drawn control for `action`.
    pub fn new(action: MenuAction) -> (button: Self)
        ensures
            button == (MenuButton {
                action,
                availability: MenuAvailability::Enabled,
                emphasis: MenuEmphasis::Normal,
            }),
    {
        MenuButton { action, availability: MenuAvailability::Enabled, emphasis: MenuEmphasis::Normal }
    }

    /// This control, taking no input.
    pub fn disabled(self) -> (button: Self)
        ensures
            button == (MenuButton { availability: MenuAvailability::Disabled, ..self }),
    {
        MenuButton { availability: MenuAvailability::Disabled, ..self }
    }

    /// This control, drawn as the current choice.
    pub fn selected(self) -> (button: Self)
        ensures
            button == (MenuButton { emphasis: MenuEmphasis::Selected, ..self }),
    {
        MenuButton { emphasis: MenuEmphasis::Selected, ..self }
    }

    /// This control, waiting on work in progress.
    pub fn pending(self) -> (button: Self)
        ensures
            button == (MenuButton { availability: MenuAvailability::Pending, ..self }),
    {
        MenuButton { availability: MenuAvailability::Pending, ..self }
    }

    /// This control, drawn as destructive.
    pub fn destructive(self) -> (button: Self)
        ensures
            button == (MenuButton { emphasis: MenuEmphasis::Destructive, ..self }),
    {
        MenuButton { emphasis: MenuEmphasis::Destructive, ..self }
    }

    /// Whether pressing or confirming this control sends its action.
    pub fn can_activate(self) -> (active: bool)
        ensures
            active == (self.availability == MenuAvailability::Enabled),
    {
        self.availability == MenuAvailability::Enabled
    }

    /// The intent a press or a confirm on this control produces: its action,
    /// only while it takes input.
    pub fn intent(self) -> (intent: Option<MenuAction>)
        ensures
            intent == (if self.availability == MenuAvailability::Enabled {
                Some(self.action)
            } else {
                None
            }),
    {
        if self.can_activate() {
            Some(self.action)
        } else {
            None
        }
    }
}

/// Opening another page and then going back shows again the page that was
/// shown, with the same pages kept behind it, and no prompt.
pub proof fn law_open_then_back_restores(state: MenuView, route: MenuRoute)
    requires
        state.route is Some,
        state.route != Some(route),
    ensures
        went_back(opened(state, route)) == (MenuView { modal: false, ..state }),
{
    assert(state.previous.push(state.route->0).drop_last() =~= state.previous);
}

/// Opening the page already shown never grows the pages kept to go back to:
/// the history is bounded by the number of distinct steps taken.
pub proof fn law_reopening_keeps_history(state: MenuView, route: MenuRoute)
    requires
        state.route == Some(route),
    ensures
        opened(state, route) == state,
{
}

/// Closing forgets everything, from any state.
pub proof fn law_close_forgets_everything(state: MenuView)
    ensures
        after_action(state, MenuAction::Close) == closed(),
        closed().route is None,
        closed().previous.len() == 0,
{
}

/// Going back never leaves Home, and handling an action exits the application
/// only from the quit prompt on Home.
pub proof fn law_home_is_the_floor(state: MenuView, action: MenuAction)
    ensures
        state.route == Some(MenuRoute::Home) ==> after_action(state, MenuAction::Back) == state,
        exits(state, action) ==> state.modal && state.route == Some(MenuRoute::Home),
{
}

} // verus!
