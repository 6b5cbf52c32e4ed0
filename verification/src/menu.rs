//! Where a client stands: in which screen, logged in or not, connected or
//! not; and what a press of a button does to that.

use crate::connection::{ClientMirror, ConnectionState};
use crate::lobby::{join_request, IsHost, MatchIdInput};
use crate::match_id::{canonical_text, parse_outcome, MatchIdentifier};
use crate::player::{PlayerSelection, ShootingLock};
use crate::protocol::{ClientMessage, ClientMessageView};
use crate::shooting::ShootingStates;
use vstd::prelude::*;

verus! {

/// The phase of the game on a client.
#[derive(Clone, Copy, Debug, PartialEq, Eq, Hash, Structural)]
pub enum GameState {
    MainMenu,
    InGame,
    GameOver,
}

impl Default for GameState {
    fn default() -> (state: GameState)
        ensures
            state == GameState::MainMenu,
    {
        GameState::MainMenu
    }
}

/// Whether the player is logged in, and whether in a duel.
#[derive(Clone, Copy, Debug, PartialEq, Eq, Hash, Structural)]
pub enum LoggedInState {
    NotLoggedIn,
    LoggedIn,
    InGame,
}

impl Default for LoggedInState {
    fn default() -> (state: LoggedInState)
        ensures
            state == LoggedInState::NotLoggedIn,
    {
        LoggedInState::NotLoggedIn
    }
}

/// The screen of the main menu that is open.
#[derive(Clone, Copy, Debug, PartialEq, Eq, Hash, Structural)]
pub enum MainMenuState {
    MainMenu,
    PlayNow,
    JoinGame,
    /// No screen of the menu is open: a duel is on.
    Closed,
}

impl Default for MainMenuState {
    fn default() -> (state: MainMenuState)
        ensures
            state == MainMenuState::MainMenu,
    {
        MainMenuState::MainMenu
    }
}

/// The screens of a client, beside the phase of the game that its mirror
/// holds.
#[derive(Clone, Copy, Debug, PartialEq, Eq, Structural)]
pub struct Screens {
    pub main_menu_state: MainMenuState,
    pub logged_in_state: LoggedInState,
    pub connection_state: ConnectionState,
}

impl Default for Screens {
    fn default() -> (screens: Screens)
        ensures
            screens == (Screens {
                main_menu_state: MainMenuState::MainMenu,
                logged_in_state: LoggedInState::NotLoggedIn,
                connection_state: ConnectionState::Idle,
            }),
    {
        Screens {
            main_menu_state: MainMenuState::MainMenu,
            logged_in_state: LoggedInState::NotLoggedIn,
            connection_state: ConnectionState::Idle,
        }
    }
}

/// The buttons of all screens.
#[derive(Clone, Copy, Debug, PartialEq, Eq, Structural)]
pub enum MenuButton {
    Login,
    PlayNow,
    Join,
    Quit,
    CopyMatchId,
    Back,
    BackToMainMenu,
}

/// What is to be done outside the client's state after a press.
#[derive(Clone, Debug)]
pub enum MenuAction {
    /// Nothing.
    Stay,
    /// The login page is to be opened in a browser.
    OpenLoginPage,
    /// The program is to end.
    Exit,
    /// The text is to be put on the clipboard.
    Copy(String),
    /// The message is to be sent on the lobby channel.
    Send(ClientMessage),
}

/// An action with its text as a sequence of characters.
pub enum MenuActionView {
    Stay,
    OpenLoginPage,
    Exit,
    Copy { text: Seq<char> },
    Send { message: ClientMessageView },
}

impl View for MenuAction {
    type V = MenuActionView;

    open spec fn view(&self) -> MenuActionView {
        match *self {
            MenuAction::Stay => MenuActionView::Stay,
            MenuAction::OpenLoginPage => MenuActionView::OpenLoginPage,
            MenuAction::Exit => MenuActionView::Exit,
            MenuAction::Copy(text) => MenuActionView::Copy { text: text@ },
            MenuAction::Send(message) => MenuActionView::Send { message: message@ },
        }
    }
}

/// The text on a button.
pub open spec fn button_text(button: MenuButton) -> Seq<char> {
    match button {
        MenuButton::Login => "Login"@,
        MenuButton::PlayNow => "Play Now"@,
        MenuButton::Join => "Join"@,
        MenuButton::Quit => "Quit"@,
        MenuButton::CopyMatchId => "Copy Match ID"@,
        MenuButton::Back => "Back"@,
        MenuButton::BackToMainMenu => "Back to Main Menu"@,
    }
}

/// The button that carries the text `name`.
pub open spec fn button_named(name: Seq<char>) -> Option<MenuButton> {
    if name == "Login"@ {
        Some(MenuButton::Login)
    } else if name == "Play Now"@ {
        Some(MenuButton::PlayNow)
    } else if name == "Join"@ {
        Some(MenuButton::Join)
    } else if name == "Quit"@ {
        Some(MenuButton::Quit)
    } else if name == "Copy Match ID"@ {
        Some(MenuButton::CopyMatchId)
    } else if name == "Back"@ {
        Some(MenuButton::Back)
    } else if name == "Back to Main Menu"@ {
        Some(MenuButton::BackToMainMenu)
    } else {
        None
    }
}

impl MenuButton {
    /// The text on the button.
    pub fn name(&self) -> (text: String)
        ensures
            text@ == button_text(*self),
    {
        match self {
            MenuButton::Login => "Login".to_string(),
            MenuButton::PlayNow => "Play Now".to_string(),
            MenuButton::Join => "Join".to_string(),
            MenuButton::Quit => "Quit".to_string(),
            MenuButton::CopyMatchId => "Copy Match ID".to_string(),
            MenuButton::Back => "Back".to_string(),
            MenuButton::BackToMainMenu => "Back to Main Menu".to_string(),
        }
    }

    /// The button with the given text on it.
    pub fn from_name(name: &str) -> (button: Option<MenuButton>)
        ensures
            button == button_named(name@),
    {
        let name = name.to_owned();
        if name == MenuButton::Login.name() {
            Some(MenuButton::Login)
        } else if name == MenuButton::PlayNow.name() {
            Some(MenuButton::PlayNow)
        } else if name == MenuButton::Join.name() {
            Some(MenuButton::Join)
        } else if name == MenuButton::Quit.name() {
            Some(MenuButton::Quit)
        } else if name == MenuButton::CopyMatchId.name() {
            Some(MenuButton::CopyMatchId)
        } else if name == MenuButton::Back.name() {
            Some(MenuButton::Back)
        } else if name == MenuButton::BackToMainMenu.name() {
            Some(MenuButton::BackToMainMenu)
        } else {
            None
        }
    }
}

impl Screens {
    /// The screens of a client that has gone back to its main menu, logged
    /// in and without a connection.
    pub open spec fn back_in_main_menu() -> Screens {
        Screens {
            main_menu_state: MainMenuState::MainMenu,
            logged_in_state: LoggedInState::LoggedIn,
            connection_state: ConnectionState::Idle,
        }
    }

    /// The screens after a press in the main menu.
    pub open spec fn after_main_menu_press(self, button: MenuButton) -> Screens {
        match button {
            MenuButton::PlayNow => Screens {
                main_menu_state: MainMenuState::PlayNow,
                logged_in_state: LoggedInState::InGame,
                ..self
            },
            MenuButton::Join => Screens { main_menu_state: MainMenuState::JoinGame, ..self },
            MenuButton::Quit => Screens { connection_state: ConnectionState::Idle, ..self },
            _ => self,
        }
    }

    fn go_back(&mut self)
        ensures
            *final(self) == Self::back_in_main_menu(),
    {
        self.connection_state = ConnectionState::Idle;
        self.main_menu_state = MainMenuState::MainMenu;
        self.logged_in_state = LoggedInState::LoggedIn;
    }

    /// The player has logged in.
    pub fn logged_in(&mut self)
        ensures
            *final(self) == (Screens { logged_in_state: LoggedInState::LoggedIn, ..*old(self) }),
    {
        self.logged_in_state = LoggedInState::LoggedIn;
    }

    /// The connection to the server is open.
    pub fn connected(&mut self)
        ensures
            *final(self) == (Screens {
                connection_state: ConnectionState::Connected,
                ..*old(self)
            }),
    {
        self.connection_state = ConnectionState::Connected;
    }

    /// The countdown has run out and the duel is on: no screen of the menu
    /// stays open.
    pub fn game_started(&mut self)
        ensures
            *final(self) == (Screens { main_menu_state: MainMenuState::Closed, ..*old(self) }),
    {
        self.main_menu_state = MainMenuState::Closed;
    }
}

/// A press in the main menu.
///
/// "Login" asks for the login page. "Play Now" makes the client a host and
/// opens the waiting room. "Join" makes it a guest, empties the identifier
/// input and opens the join screen. "Quit" drops the connection and ends the
/// program. Buttons of other screens do nothing.
pub fn main_menu_button_pressed_handler(
    screens: &mut Screens,
    is_host: &mut IsHost,
    match_id_input: &mut MatchIdInput,
    button: MenuButton,
) -> (action: MenuAction)
    ensures
        *final(screens) == old(screens).after_main_menu_press(button),
        final(is_host).0 == match button {
            MenuButton::PlayNow => true,
            MenuButton::Join => false,
            _ => old(is_host).0,
        },
        final(match_id_input).0@ == if button == MenuButton::Join {
            Seq::<char>::empty()
        } else {
            old(match_id_input).0@
        },
        action@ == match button {
            MenuButton::Login => MenuActionView::OpenLoginPage,
            MenuButton::Quit => MenuActionView::Exit,
            _ => MenuActionView::Stay,
        },
{
    match button {
        MenuButton::Login => MenuAction::OpenLoginPage,
        MenuButton::PlayNow => {
            is_host.0 = true;
            screens.main_menu_state = MainMenuState::PlayNow;
            screens.logged_in_state = LoggedInState::InGame;
            MenuAction::Stay
        },
        MenuButton::Join => {
            is_host.0 = false;
            match_id_input.clear();
            screens.main_menu_state = MainMenuState::JoinGame;
            MenuAction::Stay
        },
        MenuButton::Quit => {
            screens.connection_state = ConnectionState::Idle;
            MenuAction::Exit
        },
        _ => MenuAction::Stay,
    }
}

/// A press in the waiting room.
///
/// "Copy Match ID" asks for the canonical text of the client's identifier
/// to be put on the clipboard. "Back" drops the connection, brings the
/// mirror back to its defaults, with a fresh identifier and no slot, and
/// goes back to the main menu. Buttons of other screens do nothing.
pub fn play_now_button_pressed_handler(
    screens: &mut Screens,
    mirror: &mut ClientMirror,
    button: MenuButton,
) -> (action: MenuAction)
    ensures
        action@ == if button == MenuButton::CopyMatchId {
            MenuActionView::Copy { text: canonical_text(old(mirror).player_selection.1.0) }
        } else {
            MenuActionView::Stay
        },
        button == MenuButton::Back ==> {
            &&& *final(screens) == Screens::back_in_main_menu()
            &&& final(mirror).is_initial()
            &&& final(mirror).game_start_timer.timer.duration == old(
                mirror,
            ).game_start_timer.timer.duration
        },
        button != MenuButton::Back ==> *final(screens) == *old(screens) && *final(mirror) == *old(
            mirror,
        ),
{
    match button {
        MenuButton::CopyMatchId => MenuAction::Copy(mirror.player_selection.1.to_string()),
        MenuButton::Back => {
            screens.go_back();
            mirror.reset();
            MenuAction::Stay
        },
        _ => MenuAction::Stay,
    }
}

/// A press in the join screen.
///
/// Nothing happens while the input holds no identifier. With one, "Join"
/// binds the client to that duel, asks for the request to join it to be
/// sent, and opens the waiting room; "Back" drops the connection, brings
/// the mirror back to its defaults, with a fresh identifier and no slot,
/// empties the input and goes back to the main menu. Buttons of other
/// screens do nothing.
pub fn join_game_button_pressed_handler(
    screens: &mut Screens,
    mirror: &mut ClientMirror,
    match_id_input: &mut MatchIdInput,
    button: MenuButton,
) -> (action: MenuAction)
    ensures
        match parse_outcome(old(match_id_input).0@) {
            Ok(match_id) => match button {
                MenuButton::Join => {
                    &&& action@ == (MenuActionView::Send { message: join_request(match_id) })
                    &&& *final(mirror) == (ClientMirror {
                        player_selection: PlayerSelection(
                            old(mirror).player_selection.0,
                            match_id,
                        ),
                        ..*old(mirror)
                    })
                    &&& *final(screens) == (Screens {
                        main_menu_state: MainMenuState::PlayNow,
                        logged_in_state: LoggedInState::InGame,
                        ..*old(screens)
                    })
                    &&& final(match_id_input).0@ == old(match_id_input).0@
                },
                MenuButton::Back => {
                    &&& action@ == MenuActionView::Stay
                    &&& *final(screens) == Screens::back_in_main_menu()
                    &&& final(match_id_input).0@ == Seq::<char>::empty()
                    &&& final(mirror).is_initial()
                    &&& final(mirror).game_start_timer.timer.duration == old(
                        mirror,
                    ).game_start_timer.timer.duration
                },
                _ => unchanged(
                    action@,
                    *old(screens),
                    *final(screens),
                    *old(mirror),
                    *final(mirror),
                    old(match_id_input).0@,
                    final(match_id_input).0@,
                ),
            },
            Err(_) => unchanged(
                action@,
                *old(screens),
                *final(screens),
                *old(mirror),
                *final(mirror),
                old(match_id_input).0@,
                final(match_id_input).0@,
            ),
        },
{
    let match_id = match MatchIdentifier::parse_str(match_id_input.0.as_str()) {
        Ok(match_id) => match_id,
        Err(_) => {
            return MenuAction::Stay;
        },
    };
    match button {
        MenuButton::Join => {
            mirror.player_selection.1 = match_id;
            screens.main_menu_state = MainMenuState::PlayNow;
            screens.logged_in_state = LoggedInState::InGame;
            MenuAction::Send(
                ClientMessage::JoinMatchRequest { match_id, player_wallet: String::new() },
            )
        },
        MenuButton::Back => {
            screens.go_back();
            mirror.reset();
            match_id_input.clear();
            MenuAction::Stay
        },
        _ => MenuAction::Stay,
    }
}

/// A press changed nothing and asks for nothing.
pub open spec fn unchanged(
    action: MenuActionView,
    screens_before: Screens,
    screens_after: Screens,
    mirror_before: ClientMirror,
    mirror_after: ClientMirror,
    input_before: Seq<char>,
    input_after: Seq<char>,
) -> bool {
    &&& action == MenuActionView::Stay
    &&& screens_after == screens_before
    &&& mirror_after == mirror_before
    &&& input_after == input_before
}

/// A press in the end screen.
///
/// "Back to Main Menu" drops the connection, brings the mirror, the key
/// sequence and the shooting lock back to their defaults, and goes back to
/// the main menu. Buttons of other screens do nothing.
pub fn game_over_button_pressed_handler(
    screens: &mut Screens,
    mirror: &mut ClientMirror,
    shooting_states: &mut ShootingStates,
    shooting_lock: &mut ShootingLock,
    button: MenuButton,
)
    ensures
        button == MenuButton::BackToMainMenu ==> {
            &&& *final(screens) == Screens::back_in_main_menu()
            &&& final(mirror).is_initial()
            &&& final(mirror).game_start_timer.timer.duration == old(
                mirror,
            ).game_start_timer.timer.duration
            &&& final(shooting_states).none_pressed()
            &&& final(shooting_states).current_key_index == 0
            &&& final(shooting_states).wrong_count == 0
            &&& !final(shooting_lock).0
        },
        button != MenuButton::BackToMainMenu ==> {
            &&& *final(screens) == *old(screens)
            &&& *final(mirror) == *old(mirror)
            &&& *final(shooting_states) == *old(shooting_states)
            &&& *final(shooting_lock) == *old(shooting_lock)
        },
{
    match button {
        MenuButton::BackToMainMenu => {
            screens.go_back();
            crate::connection::return_to_main_menu(mirror, shooting_states, shooting_lock);
        },
        _ => {},
    }
}

} // verus!
