use proof_of_duel::lobby::{
    create_room, join_room, update_game_start_countdown, update_match_id_input, Countdown,
    CountdownStep, GameStartTimer, IsHost, MatchIdInput, MatchNotFoundError, GAME_START_DELAY,
    MAX_INPUT_LENGTH,
};
use proof_of_duel::match_id::{MatchIdError, MatchIdentifier};
use proof_of_duel::outcome::{duel_result, record_call, DuelResult, RecordCall, WhoIsWinner};
use proof_of_duel::player::PlayerSelection;
use proof_of_duel::profile::{
    poll_auth_state, poll_stats_state, ProfileData, StatsData, StatsPayload,
};
use proof_of_duel::protocol::ClientMessage;
use proof_of_duel::states::Player;

#[test]
fn seconds_left_count_a_started_second() {
    let mut timer = Countdown::new(3_000_000_000);
    assert_eq!(timer.remaining_secs(), 3);
    assert!(!timer.tick(1));
    assert_eq!(timer.remaining_secs(), 3);
    assert!(!timer.tick(999_999_999));
    assert_eq!(timer.remaining_secs(), 2);
    assert!(!timer.tick(1_999_999_999));
    assert_eq!(timer.elapsed, 2_999_999_999);
    assert_eq!(timer.remaining_secs(), 1);
    assert!(timer.tick(1));
    assert_eq!(timer.remaining_secs(), 0);
    assert!(timer.finished());
    assert!(timer.tick(u64::MAX));
    assert_eq!(timer.elapsed, 3_000_000_000);
    timer.reset();
    assert_eq!(timer, Countdown { duration: 3_000_000_000, elapsed: 0 });
}

#[test]
fn a_tick_beyond_the_end_stops_at_the_end() {
    let mut timer = Countdown::new(10);
    assert!(timer.tick(u64::MAX));
    assert_eq!(timer.elapsed, 10);
    let mut none = Countdown::new(0);
    assert!(none.finished());
    assert!(none.tick(0));
    let mut odd = Countdown { duration: 5, elapsed: 9 };
    assert!(odd.tick(0));
    assert_eq!(odd.elapsed, 5);
}

#[test]
fn the_start_countdown_runs_while_armed() {
    let mut countdown = GameStartTimer::new(GAME_START_DELAY);
    assert_eq!(update_game_start_countdown(&mut countdown, 5_000_000_000), CountdownStep::Idle);
    assert_eq!(countdown.timer.elapsed, 0);
    assert!(countdown.arm());
    assert!(!countdown.arm());
    assert_eq!(
        update_game_start_countdown(&mut countdown, 16_000_000),
        CountdownStep::Counting { seconds_left: 3 }
    );
    assert_eq!(
        update_game_start_countdown(&mut countdown, 2_000_000_000),
        CountdownStep::Counting { seconds_left: 1 }
    );
    assert_eq!(update_game_start_countdown(&mut countdown, 984_000_000), CountdownStep::Started);
    assert!(!countdown.active);
    assert_eq!(update_game_start_countdown(&mut countdown, 1), CountdownStep::Idle);
    countdown.reset();
    assert_eq!(countdown, GameStartTimer::new(GAME_START_DELAY));
}

#[test]
fn the_input_takes_identifier_characters_only() {
    let mut input = MatchIdInput::default();
    input.push_text("ab-C_9!? \u{e9}z{}:");
    assert_eq!(input.0, "ab-C_9z");
    input.backspace();
    assert_eq!(input.0, "ab-C_9");
    input.push_text("");
    assert_eq!(input.0, "ab-C_9");
    input.clear();
    input.backspace();
    assert_eq!(input.0, "");
}

#[test]
fn the_input_is_cut_to_36_characters() {
    assert_eq!(MAX_INPUT_LENGTH, 36);
    let mut input = MatchIdInput("936da01f-9abd-4d9d-80c7-02af85c822".to_string());
    update_match_id_input(&mut input, false, "a8ZZ", "more");
    assert_eq!(input.0, "936da01f-9abd-4d9d-80c7-02af85c822a8");
    input.clamp();
    assert_eq!(input.0.len(), 36);
    update_match_id_input(&mut input, true, "", "");
    assert_eq!(input.0, "936da01f-9abd-4d9d-80c7-02af85c822a");
    update_match_id_input(&mut input, true, "{x}", "y z");
    assert_eq!(input.0, "936da01f-9abd-4d9d-80c7-02af85c822xy");
}

#[test]
fn only_the_host_opens_a_room() {
    let selection = PlayerSelection(0, MatchIdentifier::from_u128(3));
    assert!(create_room(&selection, &IsHost(false)).is_none());
    match create_room(&selection, &IsHost(true)) {
        Some(ClientMessage::CreateMatchRequest { match_id, player_wallet }) => {
            assert_eq!(match_id, MatchIdentifier::from_u128(3));
            assert_eq!(player_wallet, "");
        }
        _ => panic!("no request"),
    }
    let mut host = IsHost(true);
    host.reset();
    assert_eq!(host, IsHost::default());
}

#[test]
fn joining_binds_the_client_to_the_typed_duel() {
    let mut selection = PlayerSelection(0, MatchIdentifier::from_u128(3));
    let typed = MatchIdInput("936da01f-9abd-4d9d-80c7-02af85c822a8".to_string());
    let wanted = MatchIdentifier::from_u128(0x936d_a01f_9abd_4d9d_80c7_02af_85c8_22a8);
    match join_room(&mut selection, &typed) {
        Ok(ClientMessage::JoinMatchRequest { match_id, player_wallet }) => {
            assert_eq!(match_id, wanted);
            assert_eq!(player_wallet, "");
        }
        _ => panic!("no request"),
    }
    assert_eq!((selection.0, selection.1), (0, wanted));
    let bad = MatchIdInput("936da01f".to_string());
    assert!(matches!(join_room(&mut selection, &bad), Err(MatchIdError::Malformed)));
    assert_eq!(selection.1, wanted);
    assert_eq!(MatchNotFoundError::new("gone".to_string()).0, "gone");
}

#[test]
fn results_by_winner_and_slot() {
    let result = |winner, local| {
        duel_result(
            &WhoIsWinner { player_number: winner },
            &PlayerSelection(local, MatchIdentifier::from_u128(1)),
        )
    };
    assert_eq!(result(1, 1), DuelResult::Win);
    assert_eq!(result(2, 2), DuelResult::Win);
    assert_eq!(result(1, 2), DuelResult::Loss);
    assert_eq!(result(2, 1), DuelResult::Loss);
    assert_eq!(result(0, 1), DuelResult::Draw);
    assert_eq!(result(0, 2), DuelResult::Draw);
    assert_eq!(result(1, 0), DuelResult::Draw);
    assert_eq!(result(3, 1), DuelResult::Draw);
    assert_eq!(DuelResult::Win.banner(), "You Win!");
    assert_eq!(DuelResult::Loss.banner(), "You Lose!");
    assert_eq!(DuelResult::Draw.banner(), "It's a Draw!");
    let mut who = WhoIsWinner { player_number: 2 };
    who.reset();
    assert_eq!(who, WhoIsWinner::default());
}

#[test]
fn wins_and_losses_are_reported_draws_are_not() {
    let profile =
        ProfileData { logged_in: true, public_key: "key".to_string(), username: "u".to_string() };
    match record_call(DuelResult::Win, &profile) {
        Some(RecordCall::Win(payload)) => assert_eq!(payload.public_key, "key"),
        _ => panic!("no win"),
    }
    match record_call(DuelResult::Loss, &profile) {
        Some(RecordCall::Loss(payload)) => assert_eq!(payload.public_key, "key"),
        _ => panic!("no loss"),
    }
    assert!(record_call(DuelResult::Draw, &profile).is_none());
}

#[test]
fn a_login_needs_key_and_name() {
    let mut profile = ProfileData::default();
    assert!(!poll_auth_state(&mut profile, "key", ""));
    assert!(!poll_auth_state(&mut profile, "", "name"));
    assert!(!profile.logged_in);
    assert_eq!((profile.public_key.as_str(), profile.username.as_str()), ("", ""));
    assert!(poll_auth_state(&mut profile, "key", "name"));
    assert!(profile.logged_in);
    assert_eq!((profile.public_key.as_str(), profile.username.as_str()), ("key", "name"));
    assert!(!poll_auth_state(&mut profile, "other", "one"));
    assert!(!poll_auth_state(&mut profile, "", ""));
    assert_eq!((profile.public_key.as_str(), profile.username.as_str()), ("key", "name"));
}

#[test]
fn counts_follow_the_report_when_logged_in() {
    let mut stats = StatsData::default();
    let mut profile = ProfileData::default();
    assert!(!poll_stats_state(&mut stats, &profile, StatsPayload { win: 2, loss: 1 }));
    assert_eq!(stats, StatsData { win: 0, loss: 0 });
    profile.logged_in = true;
    assert!(poll_stats_state(&mut stats, &profile, StatsPayload { win: 2, loss: 1 }));
    assert_eq!(stats, StatsData { win: 2, loss: 1 });
    assert!(!poll_stats_state(&mut stats, &profile, StatsPayload { win: 2, loss: 1 }));
    assert!(poll_stats_state(&mut stats, &profile, StatsPayload { win: 2, loss: 2 }));
    assert_eq!(stats, StatsData { win: 2, loss: 2 });
}

#[test]
fn the_record_counts_wins_and_losses() {
    let mut record = Player { win: 7, loss: 9 };
    record.initialize();
    assert_eq!(record, Player { win: 0, loss: 0 });
    record.win_increment();
    record.win_increment();
    record.loss_increment();
    assert_eq!(record, Player { win: 2, loss: 1 });
}
