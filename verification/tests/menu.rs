use proof_of_duel::connection::{ClientMirror, ConnectionState};
use proof_of_duel::lobby::{IsHost, MatchIdInput};
use proof_of_duel::match_id::MatchIdentifier;
use proof_of_duel::menu::{
    game_over_button_pressed_handler, join_game_button_pressed_handler,
    main_menu_button_pressed_handler, play_now_button_pressed_handler, GameState, LoggedInState,
    MainMenuState, MenuAction, MenuButton, Screens,
};
use proof_of_duel::player::ShootingLock;
use proof_of_duel::protocol::ClientMessage;
use proof_of_duel::registry::{ConnectionPhase, Matches};
use proof_of_duel::shooting::ShootingStates;

const ALL: [MenuButton; 7] = [
    MenuButton::Login,
    MenuButton::PlayNow,
    MenuButton::Join,
    MenuButton::Quit,
    MenuButton::CopyMatchId,
    MenuButton::Back,
    MenuButton::BackToMainMenu,
];

fn back_home() -> Screens {
    Screens {
        main_menu_state: MainMenuState::MainMenu,
        logged_in_state: LoggedInState::LoggedIn,
        connection_state: ConnectionState::Idle,
    }
}

fn in_waiting_room() -> Screens {
    Screens {
        main_menu_state: MainMenuState::PlayNow,
        logged_in_state: LoggedInState::InGame,
        connection_state: ConnectionState::Connected,
    }
}

#[test]
fn buttons_by_name() {
    let names = ["Login", "Play Now", "Join", "Quit", "Copy Match ID", "Back", "Back to Main Menu"];
    for (button, name) in ALL.iter().zip(names) {
        assert_eq!(button.name(), name);
        assert_eq!(MenuButton::from_name(name), Some(*button));
    }
    assert_eq!(MenuButton::from_name(""), None);
    assert_eq!(MenuButton::from_name("login"), None);
    assert_eq!(MenuButton::from_name("Back "), None);
    assert_eq!(MenuButton::from_name("Back to"), None);
}

#[test]
fn the_main_menu() {
    let mut screens = Screens::default();
    assert_eq!(screens.logged_in_state, LoggedInState::NotLoggedIn);
    screens.logged_in();
    assert_eq!(screens, back_home());
    let mut host = IsHost(false);
    let mut input = MatchIdInput("abc".to_string());

    let action = main_menu_button_pressed_handler(&mut screens, &mut host, &mut input, MenuButton::Login);
    assert!(matches!(action, MenuAction::OpenLoginPage));
    assert_eq!(screens, back_home());

    let action = main_menu_button_pressed_handler(&mut screens, &mut host, &mut input, MenuButton::PlayNow);
    assert!(matches!(action, MenuAction::Stay));
    assert!(host.0);
    assert_eq!(input.0, "abc");
    assert_eq!(screens.main_menu_state, MainMenuState::PlayNow);
    assert_eq!(screens.logged_in_state, LoggedInState::InGame);

    let mut screens = back_home();
    let action = main_menu_button_pressed_handler(&mut screens, &mut host, &mut input, MenuButton::Join);
    assert!(matches!(action, MenuAction::Stay));
    assert!(!host.0);
    assert_eq!(input.0, "");
    assert_eq!(screens.main_menu_state, MainMenuState::JoinGame);
    assert_eq!(screens.logged_in_state, LoggedInState::LoggedIn);

    let mut screens = in_waiting_room();
    let action = main_menu_button_pressed_handler(&mut screens, &mut host, &mut input, MenuButton::Quit);
    assert!(matches!(action, MenuAction::Exit));
    assert_eq!(screens.connection_state, ConnectionState::Idle);

    for button in [MenuButton::CopyMatchId, MenuButton::Back, MenuButton::BackToMainMenu] {
        let mut screens = in_waiting_room();
        let action = main_menu_button_pressed_handler(&mut screens, &mut host, &mut input, button);
        assert!(matches!(action, MenuAction::Stay));
        assert_eq!(screens, in_waiting_room());
    }
}

#[test]
fn the_waiting_room() {
    let mut screens = in_waiting_room();
    let mut mirror = ClientMirror::new();
    mirror.player_selection.0 = 1;
    mirror.player_selection.1 = MatchIdentifier::from_u128(0xabc);
    mirror.players_counting.0 = 1;
    mirror.player_hearts_status.player_1_hearts = 2;
    mirror.who_is_winner.player_number = 2;
    mirror.game_start_timer.active = true;
    match play_now_button_pressed_handler(&mut screens, &mut mirror, MenuButton::CopyMatchId) {
        MenuAction::Copy(text) => assert_eq!(text, "00000000-0000-0000-0000-000000000abc"),
        _ => panic!("nothing to copy"),
    }
    assert_eq!(screens, in_waiting_room());
    assert_eq!(mirror.player_selection.0, 1);

    let action = play_now_button_pressed_handler(&mut screens, &mut mirror, MenuButton::Join);
    assert!(matches!(action, MenuAction::Stay));
    assert_eq!(screens, in_waiting_room());

    let action = play_now_button_pressed_handler(&mut screens, &mut mirror, MenuButton::Back);
    assert!(matches!(action, MenuAction::Stay));
    assert_eq!(screens, back_home());
    assert_eq!(mirror.player_selection.0, 0);
    assert_ne!(mirror.player_selection.1, MatchIdentifier::from_u128(0xabc));
    assert_eq!(mirror.players_counting.0, 0);
    assert_eq!(mirror.player_hearts_status.player_1_hearts, 5);
    assert_eq!(mirror.player_hearts_status.player_2_hearts, 5);
    assert_eq!(mirror.who_is_winner.player_number, 0);
    assert!(!mirror.game_start_timer.active);
    assert_eq!(mirror.game_state, GameState::MainMenu);
}

#[test]
fn the_join_screen() {
    let typed = "936da01f-9abd-4d9d-80c7-02af85c822a8";
    let wanted = MatchIdentifier::from_u128(0x936d_a01f_9abd_4d9d_80c7_02af_85c8_22a8);
    let start = Screens {
        main_menu_state: MainMenuState::JoinGame,
        logged_in_state: LoggedInState::LoggedIn,
        connection_state: ConnectionState::Connected,
    };

    let mut screens = start;
    let mut mirror = ClientMirror::new();
    let own = mirror.player_selection.1;
    let mut input = MatchIdInput("936da01f".to_string());
    for button in ALL {
        let action = join_game_button_pressed_handler(&mut screens, &mut mirror, &mut input, button);
        assert!(matches!(action, MenuAction::Stay));
        assert_eq!(screens, start);
        assert_eq!(mirror.player_selection.1, own);
        assert_eq!(input.0, "936da01f");
    }

    let mut input = MatchIdInput(typed.to_string());
    match join_game_button_pressed_handler(&mut screens, &mut mirror, &mut input, MenuButton::Join) {
        MenuAction::Send(ClientMessage::JoinMatchRequest { match_id, player_wallet }) => {
            assert_eq!(match_id, wanted);
            assert_eq!(player_wallet, "");
        }
        _ => panic!("nothing to send"),
    }
    assert_eq!(mirror.player_selection.1, wanted);
    assert_eq!(input.0, typed);
    assert_eq!(screens.main_menu_state, MainMenuState::PlayNow);
    assert_eq!(screens.logged_in_state, LoggedInState::InGame);
    assert_eq!(screens.connection_state, ConnectionState::Connected);

    mirror.players_counting.0 = 2;
    mirror.player_hearts_status.player_2_hearts = 1;
    mirror.who_is_winner.player_number = 1;
    let action = join_game_button_pressed_handler(&mut screens, &mut mirror, &mut input, MenuButton::Back);
    assert!(matches!(action, MenuAction::Stay));
    assert_eq!(screens, back_home());
    assert_eq!(input.0, "");
    assert_eq!(mirror.player_selection.0, 0);
    assert_ne!(mirror.player_selection.1, wanted);
    assert_eq!(mirror.players_counting.0, 0);
    assert_eq!(mirror.player_hearts_status.player_2_hearts, 5);
    assert_eq!(mirror.who_is_winner.player_number, 0);
}

#[test]
fn the_end_screen() {
    let after_duel = Screens {
        main_menu_state: MainMenuState::Closed,
        logged_in_state: LoggedInState::InGame,
        connection_state: ConnectionState::Connected,
    };
    let mut screens = after_duel;
    let mut mirror = ClientMirror::new();
    mirror.player_selection.0 = 2;
    mirror.players_counting.0 = 2;
    mirror.player_hearts_status.player_1_hearts = 0;
    mirror.who_is_winner.player_number = 2;
    mirror.game_state = GameState::GameOver;
    let mut keys = ShootingStates::default();
    keys.press(true);
    keys.press(false);
    let mut lock = ShootingLock(true);

    game_over_button_pressed_handler(&mut screens, &mut mirror, &mut keys, &mut lock, MenuButton::Back);
    assert_eq!(screens, after_duel);
    assert_eq!(mirror.game_state, GameState::GameOver);
    assert_eq!(keys.wrong_count, 1);
    assert!(lock.0);

    game_over_button_pressed_handler(
        &mut screens,
        &mut mirror,
        &mut keys,
        &mut lock,
        MenuButton::BackToMainMenu,
    );
    assert_eq!(screens, back_home());
    assert_eq!(mirror.game_state, GameState::MainMenu);
    assert_eq!(mirror.player_selection.0, 0);
    assert_eq!(mirror.players_counting.0, 0);
    assert_eq!(mirror.player_hearts_status.player_1_hearts, 5);
    assert_eq!(mirror.who_is_winner.player_number, 0);
    assert_eq!((keys.current_key_index, keys.wrong_count), (0, 0));
    assert!(keys.data.iter().all(|d| !d.is_pressed_correct));
    assert!(!lock.0);
}

#[test]
fn screens_follow_the_connection_and_the_start() {
    let mut screens = back_home();
    screens.connected();
    assert_eq!(screens.connection_state, ConnectionState::Connected);
    screens.game_started();
    assert_eq!(screens.main_menu_state, MainMenuState::Closed);
    assert_eq!(screens.logged_in_state, LoggedInState::LoggedIn);
}

#[test]
fn a_connection_is_bound_by_create_and_join() {
    let id = MatchIdentifier::from_u128(21);
    let mut matches = Matches::new();
    assert_eq!(matches.phase_of(1), ConnectionPhase::Connected);
    matches.create(id, 1, String::new());
    assert_eq!(matches.phase_of(1), ConnectionPhase::Bound { match_id: id, player_number: 1 });
    assert_eq!(matches.phase_of(2), ConnectionPhase::Connected);
    assert!(matches.join(id, 2, String::new()).is_ok());
    assert_eq!(matches.phase_of(2), ConnectionPhase::Bound { match_id: id, player_number: 2 });
    matches.remove_participant(1);
    assert_eq!(matches.phase_of(1), ConnectionPhase::Connected);
    assert_eq!(matches.phase_of(2), ConnectionPhase::Connected);
}
