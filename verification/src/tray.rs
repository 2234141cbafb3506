//! The tray icon: its menu, and what clicks on it do.

use vstd::prelude::*;
use crate::effects::{
    emit_only, exit_with, keep_window, no_reaction, raise_and_emit, raise_window, window_only,
    Reaction, ReactionModel, WindowPlan,
};
use crate::intent::{check_updates, navigate_to, new_chat, IntentEvent, NavigationIntent};

verus! {

/// The commands of the tray menu.
#[derive(Clone, Copy, Debug, PartialEq, Eq, Structural)]
pub enum MenuCommand {
    Show,
    NewChat,
    CheckUpdates,
    Settings,
    Quit,
}

/// One line of the tray menu.
#[derive(Clone, Copy, Debug, PartialEq, Eq, Structural)]
pub enum MenuEntry {
    Command(MenuCommand),
    Separator,
}

/// The identifier under which a command is registered and reported.
pub open spec fn command_id(command: MenuCommand) -> Seq<char> {
    match command {
        MenuCommand::Show => "show"@,
        MenuCommand::NewChat => "new_chat"@,
        MenuCommand::CheckUpdates => "check_updates"@,
        MenuCommand::Settings => "settings"@,
        MenuCommand::Quit => "quit"@,
    }
}

/// The text shown for a command.
pub open spec fn command_label(command: MenuCommand) -> Seq<char> {
    match command {
        MenuCommand::Show => "Show GatewayZ"@,
        MenuCommand::NewChat => "New Chat"@,
        MenuCommand::CheckUpdates => "Check for Updates..."@,
        MenuCommand::Settings => "Settings..."@,
        MenuCommand::Quit => "Quit GatewayZ"@,
    }
}

/// The keyboard accelerator shown beside a command, if it has one.
pub open spec fn command_accelerator(command: MenuCommand) -> Option<Seq<char>> {
    match command {
        MenuCommand::Show => None,
        MenuCommand::NewChat => Some("CmdOrCtrl+N"@),
        MenuCommand::CheckUpdates => None,
        MenuCommand::Settings => Some("CmdOrCtrl+,"@),
        MenuCommand::Quit => Some("CmdOrCtrl+Q"@),
    }
}

/// The command registered under `id`, if there is one.
pub open spec fn command_of(id: Seq<char>) -> Option<MenuCommand> {
    if id == "show"@ {
        Some(MenuCommand::Show)
    } else if id == "new_chat"@ {
        Some(MenuCommand::NewChat)
    } else if id == "check_updates"@ {
        Some(MenuCommand::CheckUpdates)
    } else if id == "settings"@ {
        Some(MenuCommand::Settings)
    } else if id == "quit"@ {
        Some(MenuCommand::Quit)
    } else {
        None
    }
}

/// The tray menu, top to bottom.
pub open spec fn tray_menu() -> Seq<MenuEntry> {
    seq![
        MenuEntry::Command(MenuCommand::Show),
        MenuEntry::Command(MenuCommand::NewChat),
        MenuEntry::Separator,
        MenuEntry::Command(MenuCommand::CheckUpdates),
        MenuEntry::Command(MenuCommand::Settings),
        MenuEntry::Separator,
        MenuEntry::Command(MenuCommand::Quit),
    ]
}

/// What a command does. `Quit` ends the process with status 0, window or
/// not; every other command needs the main window and does nothing
/// without it.
pub open spec fn command_reaction(command: MenuCommand, main_window: bool) -> ReactionModel {
    match command {
        MenuCommand::Quit => exit_with(0),
        _ => if !main_window {
            no_reaction()
        } else {
            match command {
                MenuCommand::Show => window_only(raise_window()),
                MenuCommand::NewChat => raise_and_emit(new_chat()),
                MenuCommand::CheckUpdates => emit_only(check_updates()),
                MenuCommand::Settings => raise_and_emit(navigate_to("/settings"@)),
                MenuCommand::Quit => exit_with(0),
            }
        },
    }
}

/// What a menu event with the identifier `id` does: the reaction of its
/// command, and nothing for an identifier that names none.
pub open spec fn menu_reaction(id: Seq<char>, main_window: bool) -> ReactionModel {
    match command_of(id) {
        Some(command) => command_reaction(command, main_window),
        None => no_reaction(),
    }
}

impl MenuCommand {
    /// The identifier under which the command is registered.
    pub fn id(&self) -> (id: &'static str)
        ensures
            id@ == command_id(*self),
    {
        match self {
            MenuCommand::Show => "show",
            MenuCommand::NewChat => "new_chat",
            MenuCommand::CheckUpdates => "check_updates",
            MenuCommand::Settings => "settings",
            MenuCommand::Quit => "quit",
        }
    }

    /// The text shown for the command.
    pub fn label(&self) -> (label: &'static str)
        ensures
            label@ == command_label(*self),
    {
        match self {
            MenuCommand::Show => "Show GatewayZ",
            MenuCommand::NewChat => "New Chat",
            MenuCommand::CheckUpdates => "Check for Updates...",
            MenuCommand::Settings => "Settings...",
            MenuCommand::Quit => "Quit GatewayZ",
        }
    }

    /// The keyboard accelerator shown beside the command, if any.
    pub fn accelerator(&self) -> (accelerator: Option<&'static str>)
        ensures
            match accelerator {
                Some(keys) => command_accelerator(*self) == Some(keys@),
                None => command_accelerator(*self).is_none(),
            },
    {
        match self {
            MenuCommand::Show => None,
            MenuCommand::NewChat => Some("CmdOrCtrl+N"),
            MenuCommand::CheckUpdates => None,
            MenuCommand::Settings => Some("CmdOrCtrl+,"),
            MenuCommand::Quit => Some("CmdOrCtrl+Q"),
        }
    }

    /// The command registered under `id`.
    pub fn from_id(id: &str) -> (command: Option<MenuCommand>)
        ensures
            command == command_of(id@),
    {
        let id = id.to_owned();
        if id == "show".to_owned() {
            Some(MenuCommand::Show)
        } else if id == "new_chat".to_owned() {
            Some(MenuCommand::NewChat)
        } else if id == "check_updates".to_owned() {
            Some(MenuCommand::CheckUpdates)
        } else if id == "settings".to_owned() {
            Some(MenuCommand::Settings)
        } else if id == "quit".to_owned() {
            Some(MenuCommand::Quit)
        } else {
            None
        }
    }

    /// Decides what the command does. `main_window` says whether the main
    /// window exists.
    pub fn reaction(&self, main_window: bool) -> (r: Reaction)
        ensures
            r@ == command_reaction(*self, main_window),
    {
        match self {
            MenuCommand::Quit => Reaction { window: WindowPlan::keep(), emit: None, exit: Some(0) },
            _ => {
                if !main_window {
                    Reaction { window: WindowPlan::keep(), emit: None, exit: None }
                } else {
                    match self {
                        MenuCommand::Show => Reaction {
                            window: WindowPlan::raise(),
                            emit: None,
                            exit: None,
                        },
                        MenuCommand::NewChat => Reaction {
                            window: WindowPlan::raise(),
                            emit: Some(NavigationIntent::bare(IntentEvent::NewChat)),
                            exit: None,
                        },
                        MenuCommand::CheckUpdates => Reaction {
                            window: WindowPlan::keep(),
                            emit: Some(NavigationIntent::bare(IntentEvent::CheckUpdates)),
                            exit: None,
                        },
                        MenuCommand::Settings => Reaction {
                            window: WindowPlan::raise(),
                            emit: Some(
                                NavigationIntent::new(
                                    IntentEvent::Navigate,
                                    "/settings".to_owned(),
                                ),
                            ),
                            exit: None,
                        },
                        MenuCommand::Quit => Reaction {
                            window: WindowPlan::keep(),
                            emit: None,
                            exit: Some(0),
                        },
                    }
                }
            },
        }
    }
}

/// The entries of the tray menu, top to bottom.
pub fn setup_tray() -> (menu: Vec<MenuEntry>)
    ensures
        menu@ == tray_menu(),
{
    let mut menu: Vec<MenuEntry> = Vec::new();
    menu.push(MenuEntry::Command(MenuCommand::Show));
    menu.push(MenuEntry::Command(MenuCommand::NewChat));
    menu.push(MenuEntry::Separator);
    menu.push(MenuEntry::Command(MenuCommand::CheckUpdates));
    menu.push(MenuEntry::Command(MenuCommand::Settings));
    menu.push(MenuEntry::Separator);
    menu.push(MenuEntry::Command(MenuCommand::Quit));
    assert(menu@ =~= tray_menu());
    menu
}

/// Decides what a click on the menu item `id` does.
pub fn on_menu_event(id: &str, main_window: bool) -> (r: Reaction)
    ensures
        r@ == menu_reaction(id@, main_window),
{
    match MenuCommand::from_id(id) {
        Some(command) => command.reaction(main_window),
        None => Reaction { window: WindowPlan::keep(), emit: None, exit: None },
    }
}

/// The buttons of a pointing device.
#[derive(Clone, Copy, Debug, PartialEq, Eq, Structural)]
pub enum MouseButton {
    Left,
    Right,
    Middle,
}

/// Whether a button went down or came up.
#[derive(Clone, Copy, Debug, PartialEq, Eq, Structural)]
pub enum ButtonState {
    Up,
    Down,
}

/// What raising the main window comes to: show and focus where it
/// exists, nothing where it does not.
pub open spec fn raise_if_present(main_window: bool) -> WindowPlan {
    if main_window {
        raise_window()
    } else {
        keep_window()
    }
}

/// What a click on the tray icon does: releasing the left button raises
/// the main window, every other click is left to the menu.
pub open spec fn tray_click_plan(button: MouseButton, state: ButtonState, main_window: bool)
    -> WindowPlan {
    if button == MouseButton::Left && state == ButtonState::Up {
        raise_if_present(main_window)
    } else {
        keep_window()
    }
}

/// Raises the main window where it exists.
pub fn raise_main_window(main_window: bool) -> (plan: WindowPlan)
    ensures
        plan == raise_if_present(main_window),
{
    if main_window {
        WindowPlan::raise()
    } else {
        WindowPlan::keep()
    }
}

/// Decides what a click on the tray icon does.
pub fn on_tray_icon_event(button: MouseButton, state: ButtonState, main_window: bool) -> (plan:
    WindowPlan)
    ensures
        plan == tray_click_plan(button, state, main_window),
{
    match (button, state) {
        (MouseButton::Left, ButtonState::Up) => raise_main_window(main_window),
        _ => WindowPlan::keep(),
    }
}

/// Decides what the launch of a second instance does to the first: its
/// main window is raised.
pub fn on_second_instance(main_window: bool) -> (plan: WindowPlan)
    ensures
        plan == raise_if_present(main_window),
{
    raise_main_window(main_window)
}

/// What is done with a request to close the window.
#[derive(Clone, Copy, Debug, PartialEq, Eq, Structural)]
pub struct CloseDecision {
    /// Hide the window.
    pub hide: bool,
    /// Keep the framework from closing it.
    pub prevent_close: bool,
}

/// A close request hides the window and keeps it alive, so that the
/// application stays reachable from the tray; other window events pass.
pub open spec fn close_policy(close_requested: bool) -> CloseDecision {
    CloseDecision { hide: close_requested, prevent_close: close_requested }
}

/// Decides what a window event does. `close_requested` says whether the
/// event is a request to close the window.
pub fn on_window_event(close_requested: bool) -> (decision: CloseDecision)
    ensures
        decision == close_policy(close_requested),
{
    CloseDecision { hide: close_requested, prevent_close: close_requested }
}

/// Identifiers and commands correspond one to one: the command found
/// under a command's identifier is that command.
pub proof fn lemma_command_ids_round_trip(command: MenuCommand)
    ensures
        command_of(command_id(command)) == Some(command),
{
    reveal_strlit("show");
    reveal_strlit("new_chat");
    reveal_strlit("check_updates");
    reveal_strlit("settings");
    reveal_strlit("quit");
    assert("show"@[0] != "quit"@[0]);
    assert("new_chat"@[0] != "settings"@[0]);
    assert("show"@.len() == 4 && "quit"@.len() == 4);
    assert("new_chat"@.len() == 8 && "settings"@.len() == 8);
    assert("check_updates"@.len() == 13);
}

/// Every command of the tray menu is reached by its own identifier, and
/// the menu offers each command exactly once.
pub proof fn lemma_menu_is_wired(i: int)
    requires
        0 <= i < tray_menu().len(),
    ensures
        tray_menu()[i] matches MenuEntry::Command(command) ==> forall|main_window: bool|
            menu_reaction(command_id(command), main_window) == command_reaction(
                command,
                main_window,
            ),
        forall|j: int|
            0 <= j < tray_menu().len() && j != i && tray_menu()[i] is Command ==> tray_menu()[j]
                != tray_menu()[i],
{
    match tray_menu()[i] {
        MenuEntry::Command(command) => lemma_command_ids_round_trip(command),
        MenuEntry::Separator => {},
    }
}

/// Only `Quit` ends the process, and without a main window nothing else
/// happens at all.
pub proof fn lemma_menu_without_window(id: Seq<char>)
    ensures
        menu_reaction(id, false) == if command_of(id) == Some(MenuCommand::Quit) {
            exit_with(0)
        } else {
            no_reaction()
        },
        forall|main_window: bool|
            menu_reaction(id, main_window).exit.is_some() <==> command_of(id) == Some(
                MenuCommand::Quit,
            ),
{
}

} // verus!
