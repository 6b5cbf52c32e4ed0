use proof_of_duel::connection::{
    disconnect, handle_server_messages, open_connection, reset_game_started_timer,
    to_connection_state, ClientEvent, ClientMirror, ConnectionState, IsConnected, Received,
};
use proof_of_duel::lobby::CountdownStep;
use proof_of_duel::match_id::{MatchIdentifier, RANDOM_FIXED_BITS, RANDOM_FIXED_MASK};
use proof_of_duel::menu::{GameState, LoggedInState, MainMenuState};
use proof_of_duel::protocol::ServerMessage;

fn own_id() -> MatchIdentifier {
    MatchIdentifier::from_u128(77)
}

fn stale() -> MatchIdentifier {
    MatchIdentifier::from_u128(78)
}

fn on(channel_id: u8, message: ServerMessage) -> Received {
    Received { channel_id, message }
}

fn show_events(events: &[ClientEvent]) -> Vec<String> {
    events.iter().map(|e| format!("{:?}", e)).collect()
}

fn bound(player_number: usize) -> ClientMirror {
    let mut mirror = ClientMirror::new();
    let events = mirror.handle_server_message(&on(
        0,
        ServerMessage::JoinedMatch { match_id: own_id(), player_number },
    ));
    assert!(events.is_empty());
    mirror
}

#[test]
fn a_new_mirror_has_the_defaults() {
    let mirror = ClientMirror::new();
    assert_eq!(mirror.player_selection.0, 0);
    assert_eq!(mirror.player_selection.1.as_u128() & RANDOM_FIXED_MASK, RANDOM_FIXED_BITS);
    assert_eq!(mirror.players_counting.0, 0);
    assert_eq!(mirror.player_hearts_status.player_1_hearts, 5);
    assert_eq!(mirror.player_hearts_status.player_2_hearts, 5);
    assert_eq!(mirror.who_is_winner.player_number, 0);
    assert!(!mirror.game_start_timer.active);
    assert_eq!(mirror.game_start_timer.timer.duration, 3_000_000_000);
    assert_eq!(mirror.game_state, GameState::MainMenu);
    assert_eq!(GameState::default(), GameState::MainMenu);
    assert_eq!(LoggedInState::default(), LoggedInState::NotLoggedIn);
    assert_eq!(MainMenuState::default(), MainMenuState::MainMenu);
    assert_eq!(ConnectionState::default(), ConnectionState::Idle);
}

#[test]
fn slot_assignments_bind_the_client() {
    let mut mirror = ClientMirror::new();
    mirror.handle_server_message(&on(0, ServerMessage::MatchCreated { match_id: own_id(), player_number: 1 }));
    assert_eq!((mirror.player_selection.0, mirror.player_selection.1), (1, own_id()));
    mirror.handle_server_message(&on(2, ServerMessage::JoinedMatch { match_id: stale(), player_number: 2 }));
    assert_eq!((mirror.player_selection.0, mirror.player_selection.1), (1, own_id()));
    mirror.handle_server_message(&on(0, ServerMessage::JoinedMatch { match_id: stale(), player_number: 2 }));
    assert_eq!((mirror.player_selection.0, mirror.player_selection.1), (2, stale()));
}

#[test]
fn count_updates_of_other_duels_are_discarded() {
    let mut mirror = bound(1);
    let batch = vec![
        on(0, ServerMessage::PlayerCountingUpdate { match_id: own_id() }),
        on(0, ServerMessage::PlayerCountingUpdate { match_id: stale() }),
        on(1, ServerMessage::PlayerCountingUpdate { match_id: own_id() }),
        on(0, ServerMessage::PlayerCountingUpdate { match_id: own_id() }),
    ];
    let events = handle_server_messages(&mut mirror, &batch);
    assert!(events.is_empty());
    assert_eq!(mirror.players_counting.0, 2);
}

#[test]
fn the_ready_notice_arms_the_countdown_once() {
    let mut mirror = bound(2);
    let ready = |match_id, is_ready| on(0, ServerMessage::IsGameReadyToStart { match_id, is_ready });
    assert!(mirror.handle_server_message(&ready(stale(), true)).is_empty());
    assert!(mirror.handle_server_message(&ready(own_id(), false)).is_empty());
    assert!(!mirror.game_start_timer.active);
    let events = mirror.handle_server_message(&ready(own_id(), true));
    assert_eq!(show_events(&events), vec!["CountdownArmed"]);
    assert!(mirror.game_start_timer.active);
    assert!(mirror.handle_server_message(&ready(own_id(), true)).is_empty());
    assert!(mirror.game_start_timer.active);
}

#[test]
fn the_countdown_takes_the_client_into_the_game() {
    let mut mirror = bound(1);
    assert_eq!(mirror.advance_countdown(1_000_000_000), CountdownStep::Idle);
    assert_eq!(mirror.game_start_timer.timer.elapsed, 0);
    mirror.handle_server_message(&on(0, ServerMessage::IsGameReadyToStart { match_id: own_id(), is_ready: true }));
    assert_eq!(mirror.advance_countdown(1), CountdownStep::Counting { seconds_left: 3 });
    assert_eq!(mirror.advance_countdown(999_999_999), CountdownStep::Counting { seconds_left: 2 });
    assert_eq!(mirror.advance_countdown(1_500_000_000), CountdownStep::Counting { seconds_left: 1 });
    assert_eq!(mirror.game_state, GameState::MainMenu);
    assert_eq!(mirror.advance_countdown(500_000_000), CountdownStep::Started);
    assert_eq!(mirror.game_state, GameState::InGame);
    assert!(!mirror.game_start_timer.active);
    assert_eq!(mirror.advance_countdown(1), CountdownStep::Idle);
}

#[test]
fn a_shot_is_shown_with_its_hit() {
    let mut mirror = bound(1);
    let theirs = mirror.handle_server_message(&on(
        1,
        ServerMessage::ShootingCommand { match_id: own_id(), player_number: 2 },
    ));
    assert_eq!(show_events(&theirs), vec!["Shooting(ShootingEvent { player: 2 })", "Hit(PlayerHit(1))"]);
    let ours = mirror.handle_server_message(&on(
        1,
        ServerMessage::ShootingCommand { match_id: own_id(), player_number: 1 },
    ));
    assert_eq!(
        show_events(&ours),
        vec!["Shooting(ShootingEvent { player: 1 })", "Hit(PlayerHit(2))", "ResetKeys(ResetKeysEvent)"]
    );
    assert!(mirror
        .handle_server_message(&on(1, ServerMessage::ShootingCommand { match_id: stale(), player_number: 1 }))
        .is_empty());
    assert!(mirror
        .handle_server_message(&on(0, ServerMessage::ShootingCommand { match_id: own_id(), player_number: 1 }))
        .is_empty());
    assert_eq!(mirror.player_hearts_status.player_1_hearts, 5);
    assert_eq!(mirror.player_hearts_status.player_2_hearts, 5);
}

#[test]
fn hearts_are_taken_from_the_server() {
    let mut mirror = bound(2);
    let hearts = |match_id, p1, p2| ServerMessage::UpdateHeartsStatus {
        match_id,
        who_is_hit: 1,
        player_1_hearts: p1,
        player_2_hearts: p2,
    };
    assert!(mirror.handle_server_message(&on(2, hearts(own_id(), 3, 4))).is_empty());
    assert_eq!(mirror.player_hearts_status.player_1_hearts, 3);
    assert_eq!(mirror.player_hearts_status.player_2_hearts, 4);
    mirror.handle_server_message(&on(2, hearts(stale(), 0, 0)));
    mirror.handle_server_message(&on(1, hearts(own_id(), 0, 0)));
    assert_eq!(mirror.player_hearts_status.player_1_hearts, 3);
    assert_eq!(mirror.player_hearts_status.player_2_hearts, 4);
}

#[test]
fn a_refused_join_is_passed_on() {
    let mut mirror = ClientMirror::new();
    let refused = ServerMessage::MatchJoinError { error_message: "Match is full".to_string() };
    let events = mirror.handle_server_message(&on(0, refused.clone()));
    assert_eq!(show_events(&events), vec!["JoinFailed(MatchNotFoundError(\"Match is full\"))"]);
    assert!(mirror.handle_server_message(&on(1, refused)).is_empty());
}

#[test]
fn game_over_is_taken_once() {
    let mut mirror = bound(1);
    let batch = vec![
        on(3, ServerMessage::GameOver { match_id: stale(), winner: 1 }),
        on(0, ServerMessage::GameOver { match_id: own_id(), winner: 1 }),
        on(3, ServerMessage::GameOver { match_id: own_id(), winner: 2 }),
        on(3, ServerMessage::GameOver { match_id: own_id(), winner: 1 }),
    ];
    let events = handle_server_messages(&mut mirror, &batch);
    assert_eq!(show_events(&events), vec!["GameOver { winner: 2 }"]);
    assert_eq!(mirror.who_is_winner.player_number, 2);
    assert_eq!(mirror.game_state, GameState::GameOver);
}

#[test]
fn back_in_the_main_menu_the_mirror_is_fresh() {
    let mut mirror = bound(2);
    let old_id = mirror.player_selection.1;
    let batch = vec![
        on(0, ServerMessage::PlayerCountingUpdate { match_id: own_id() }),
        on(0, ServerMessage::IsGameReadyToStart { match_id: own_id(), is_ready: true }),
        on(2, ServerMessage::UpdateHeartsStatus { match_id: own_id(), who_is_hit: 2, player_1_hearts: 5, player_2_hearts: 0 }),
        on(3, ServerMessage::GameOver { match_id: own_id(), winner: 1 }),
    ];
    handle_server_messages(&mut mirror, &batch);
    mirror.advance_countdown(10);
    mirror.reset();
    assert_eq!(mirror.player_selection.0, 0);
    assert_ne!(mirror.player_selection.1, old_id);
    assert_eq!(mirror.players_counting.0, 0);
    assert_eq!(mirror.player_hearts_status.player_1_hearts, 5);
    assert_eq!(mirror.player_hearts_status.player_2_hearts, 5);
    assert_eq!(mirror.who_is_winner.player_number, 0);
    assert!(!mirror.game_start_timer.active);
    assert_eq!(mirror.game_start_timer.timer.elapsed, 0);
    assert_eq!(mirror.game_start_timer.timer.duration, 3_000_000_000);
    assert_eq!(mirror.game_state, GameState::MainMenu);
    let late = mirror.handle_server_message(&on(3, ServerMessage::GameOver { match_id: own_id(), winner: 1 }));
    assert!(late.is_empty());
}

#[test]
fn a_connection_is_opened_once() {
    let mut connected = IsConnected::default();
    assert!(open_connection(&mut connected));
    assert!(connected.0);
    assert!(!open_connection(&mut connected));
    disconnect(&mut connected);
    assert!(!connected.0);
    assert!(open_connection(&mut connected));
    connected.reset();
    assert!(!connected.0);
    assert_eq!(to_connection_state(), ConnectionState::Connected);
}

#[test]
fn the_start_timer_is_wound_back() {
    let mut mirror = bound(1);
    mirror.handle_server_message(&on(0, ServerMessage::IsGameReadyToStart { match_id: own_id(), is_ready: true }));
    mirror.advance_countdown(2_000_000_000);
    reset_game_started_timer(&mut mirror.game_start_timer);
    assert!(!mirror.game_start_timer.active);
    assert_eq!(mirror.game_start_timer.timer.elapsed, 0);
    assert_eq!(mirror.game_start_timer.timer.duration, 3_000_000_000);
}
