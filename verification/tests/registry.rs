use proof_of_duel::match_id::MatchIdentifier;
use proof_of_duel::registry::{JoinError, Matches};
use proof_of_duel::session::{winner_at, MatchSession, ShotOutcome};

const HOST: u64 = 1;
const GUEST: u64 = 2;
const STRANGER: u64 = 3;

fn m1() -> MatchIdentifier {
    MatchIdentifier::from_u128(0x936d_a01f_9abd_4d9d_80c7_02af_85c8_22a8)
}

fn m2() -> MatchIdentifier {
    MatchIdentifier::from_u128(0x0000_0000_0000_4000_8000_0000_0000_0002)
}

fn full_duel() -> Matches {
    let mut matches = Matches::new();
    assert_eq!(matches.create(m1(), HOST, String::new()), 1);
    assert_eq!(matches.join(m1(), GUEST, String::new()), Ok(2));
    matches
}

fn duel_at(player_1_hearts: usize, player_2_hearts: usize) -> Matches {
    let mut matches = full_duel();
    for _ in player_1_hearts..5 {
        assert!(matches.resolve_shoot(m1(), GUEST, 2).is_some());
    }
    for _ in player_2_hearts..5 {
        assert!(matches.resolve_shoot(m1(), HOST, 1).is_some());
    }
    assert_eq!(matches.hearts(m1()), Some((player_1_hearts, player_2_hearts)));
    matches
}

#[test]
fn create_then_join_fills_the_duel() {
    let mut matches = Matches::new();
    assert_eq!(matches.len(), 0);
    assert_eq!(matches.create(m1(), HOST, String::new()), 1);
    assert!(matches.contains(m1()));
    assert_eq!(matches.len(), 1);
    assert_eq!(matches.hearts(m1()), Some((5, 5)));
    assert_eq!(matches.is_full(m1()), Some(false));
    assert_eq!(matches.player_number(m1(), HOST), Some(1));

    assert_eq!(matches.join(m1(), GUEST, String::new()), Ok(2));
    assert_eq!(matches.is_full(m1()), Some(true));
    assert_eq!(matches.player_number(m1(), GUEST), Some(2));
    assert_eq!(matches.player_number(m1(), HOST), Some(1));
    assert_eq!(matches.hearts(m1()), Some((5, 5)));
}

#[test]
fn five_shots_by_player_one_end_the_duel() {
    let mut matches = full_duel();
    let mut seen = Vec::new();
    for _ in 0..4 {
        let outcome = matches.resolve_shoot(m1(), HOST, 1).unwrap();
        assert_eq!(outcome.who_is_hit, 2);
        assert_eq!(outcome.player_1_hearts, 5);
        assert_eq!(outcome.game_over, None);
        seen.push(outcome.player_2_hearts);
    }
    assert_eq!(seen, vec![4, 3, 2, 1]);
    let last = matches.resolve_shoot(m1(), HOST, 1).unwrap();
    assert_eq!(
        last,
        ShotOutcome { who_is_hit: 2, player_1_hearts: 5, player_2_hearts: 0, game_over: Some(1) }
    );
    assert_eq!(matches.winner(m1()), Some(1));
}

#[test]
fn join_of_an_unknown_duel_is_not_found() {
    let mut matches = Matches::new();
    assert_eq!(matches.join(m2(), GUEST, String::new()), Err(JoinError::NotFound));
    assert_eq!(matches.len(), 0);
    matches.create(m1(), HOST, String::new());
    assert_eq!(matches.join(m2(), GUEST, String::new()), Err(JoinError::NotFound));
    assert!(!matches.contains(m2()));
    assert_eq!(matches.is_full(m1()), Some(false));
}

#[test]
fn join_of_a_full_duel_is_refused() {
    let mut matches = full_duel();
    assert_eq!(matches.join(m1(), STRANGER, String::new()), Err(JoinError::Full));
    assert_eq!(matches.player_number(m1(), STRANGER), None);
    let mut who = matches.participants(m1());
    who.sort();
    assert_eq!(who, vec![HOST, GUEST]);
}

#[test]
fn join_error_messages() {
    assert_eq!(JoinError::NotFound.message(), "Match not found");
    assert_eq!(JoinError::Full.message(), "Match is full");
}

#[test]
fn a_disconnect_deletes_a_full_duel() {
    let mut matches = full_duel();
    assert_eq!(matches.remove_participant(GUEST), Some((m1(), 1)));
    assert!(!matches.contains(m1()));
    assert_eq!(matches.len(), 0);
}

#[test]
fn a_disconnect_of_the_lone_host_deletes_the_duel() {
    let mut matches = Matches::new();
    matches.create(m1(), HOST, String::new());
    assert_eq!(matches.remove_participant(HOST), Some((m1(), 0)));
    assert!(!matches.contains(m1()));
}

#[test]
fn removing_twice_does_nothing_the_second_time() {
    let mut matches = full_duel();
    matches.create(m2(), STRANGER, String::new());
    assert_eq!(matches.remove_participant(HOST), Some((m1(), 1)));
    assert_eq!(matches.remove_participant(HOST), None);
    assert_eq!(matches.len(), 1);
    assert!(matches.contains(m2()));
    assert_eq!(matches.player_number(m2(), STRANGER), Some(1));
    assert_eq!(matches.remove_participant(HOST), None);
}

#[test]
fn removing_a_stranger_changes_nothing() {
    let mut matches = full_duel();
    assert_eq!(matches.remove_participant(STRANGER), None);
    assert_eq!(matches.is_full(m1()), Some(true));
    assert_eq!(matches.session_of(STRANGER), None);
    assert_eq!(matches.session_of(HOST), Some(m1()));
}

#[test]
fn a_client_in_two_duels_leaves_one_at_a_time() {
    let mut matches = Matches::new();
    matches.create(m1(), HOST, String::new());
    matches.create(m2(), HOST, String::new());
    let first = matches.remove_participant(HOST).unwrap();
    assert_eq!(first.1, 0);
    assert_eq!(matches.len(), 1);
    let second = matches.remove_participant(HOST).unwrap();
    assert_ne!(first.0, second.0);
    assert_eq!(matches.len(), 0);
    assert_eq!(matches.remove_participant(HOST), None);
}

#[test]
fn shots_from_outside_are_dropped() {
    let mut matches = full_duel();
    assert_eq!(matches.resolve_shoot(m2(), HOST, 1), None);
    assert_eq!(matches.resolve_shoot(m1(), STRANGER, 1), None);
    assert_eq!(matches.resolve_shoot(m1(), HOST, 0), None);
    assert_eq!(matches.resolve_shoot(m1(), HOST, 3), None);
    assert_eq!(matches.hearts(m1()), Some((5, 5)));
}

#[test]
fn a_shot_takes_one_heart_from_the_opponent_only() {
    let mut matches = full_duel();
    let mut before = (5usize, 5usize);
    let shooters = [(HOST, 1usize), (GUEST, 2), (GUEST, 2), (HOST, 1), (GUEST, 2), (GUEST, 2), (GUEST, 2), (GUEST, 2)];
    for (client, number) in shooters {
        let outcome = matches.resolve_shoot(m1(), client, number).unwrap();
        let after = (outcome.player_1_hearts, outcome.player_2_hearts);
        assert!(after.0 <= before.0 && after.1 <= before.1);
        assert!((before.0 - after.0) + (before.1 - after.1) <= 1);
        if number == 1 {
            assert_eq!(after.0, before.0);
            assert_eq!(outcome.who_is_hit, 2);
        } else {
            assert_eq!(after.1, before.1);
            assert_eq!(outcome.who_is_hit, 1);
        }
        before = after;
    }
    assert_eq!(before, (0, 3));
}

#[test]
fn hearts_stop_at_zero() {
    let mut matches = duel_at(5, 0);
    let outcome = matches.resolve_shoot(m1(), HOST, 1).unwrap();
    assert_eq!(outcome.player_2_hearts, 0);
    assert_eq!(outcome.player_1_hearts, 5);
    assert_eq!(outcome.game_over, None);
}

#[test]
fn game_over_comes_with_the_first_zero_and_never_again() {
    let mut matches = duel_at(2, 1);
    assert_eq!(matches.winner(m1()), None);
    let last = matches.resolve_shoot(m1(), HOST, 1).unwrap();
    assert_eq!(last.game_over, Some(1));
    assert_eq!(matches.winner(m1()), Some(1));
    for _ in 0..3 {
        let later = matches.resolve_shoot(m1(), GUEST, 2).unwrap();
        assert_eq!(later.game_over, None);
    }
    assert_eq!(matches.hearts(m1()), Some((0, 0)));
    let again = matches.resolve_shoot(m1(), HOST, 1).unwrap();
    assert_eq!(again.game_over, None);
    assert_eq!(matches.winner(m1()), Some(0));
}

#[test]
fn player_two_wins_when_player_one_runs_out() {
    let mut matches = duel_at(1, 4);
    let last = matches.resolve_shoot(m1(), GUEST, 2).unwrap();
    assert_eq!(last.who_is_hit, 1);
    assert_eq!(last.game_over, Some(2));
    assert_eq!(matches.winner(m1()), Some(2));
}

#[test]
fn last_shots_of_both_players_leave_a_draw_standing() {
    let mut matches = duel_at(1, 1);
    let first = matches.resolve_shoot(m1(), HOST, 1).unwrap();
    let second = matches.resolve_shoot(m1(), GUEST, 2).unwrap();
    assert_eq!((first.player_1_hearts, first.player_2_hearts), (1, 0));
    assert_eq!((second.player_1_hearts, second.player_2_hearts), (0, 0));
    assert_eq!(first.game_over, Some(1));
    assert_eq!(second.game_over, None);
    assert_eq!(matches.winner(m1()), Some(0));
}

#[test]
fn nobody_has_won_while_both_have_hearts() {
    let mut matches = duel_at(1, 1);
    assert_eq!(matches.winner(m1()), None);
    assert_eq!(matches.winner(m2()), None);
    let deciding = matches.resolve_shoot(m1(), HOST, 1).unwrap();
    assert_eq!(deciding.game_over, Some(1));
}

#[test]
fn creating_under_a_used_identifier_replaces_the_duel() {
    let mut matches = duel_at(3, 2);
    assert_eq!(matches.create(m1(), STRANGER, "wallet".to_string()), 1);
    assert_eq!(matches.len(), 1);
    assert_eq!(matches.hearts(m1()), Some((5, 5)));
    assert_eq!(matches.participants(m1()), vec![STRANGER]);
    assert_eq!(matches.is_full(m1()), Some(false));
}

#[test]
fn a_host_who_joins_its_own_duel_becomes_player_two() {
    let mut matches = Matches::new();
    matches.create(m1(), HOST, "first".to_string());
    assert_eq!(matches.join(m1(), HOST, "second".to_string()), Ok(2));
    assert_eq!(matches.is_full(m1()), Some(false));
    assert_eq!(matches.player_number(m1(), HOST), Some(2));
    assert_eq!(matches.participants(m1()), vec![HOST]);
    assert_eq!(matches.sessions[&m1().as_u128()].players[&HOST].wallet, "second");
    assert_eq!(matches.join(m1(), GUEST, String::new()), Ok(2));
    assert_eq!(matches.is_full(m1()), Some(true));
    assert_eq!(matches.player_number(m1(), HOST), Some(2));
    assert_eq!(matches.player_number(m1(), GUEST), Some(2));
    assert_eq!(matches.join(m1(), HOST, String::new()), Err(JoinError::Full));
    assert_eq!(matches.join(m1(), GUEST, String::new()), Err(JoinError::Full));
}

#[test]
fn no_duel_ever_holds_more_than_two() {
    let mut matches = Matches::new();
    matches.create(m1(), HOST, String::new());
    for client in [HOST, 10, HOST, 10, 11, 12, HOST, 13] {
        let _ = matches.join(m1(), client, String::new());
        assert!(matches.participants(m1()).len() <= 2);
    }
    let mut who = matches.participants(m1());
    who.sort();
    assert_eq!(who, vec![HOST, 10]);
}

#[test]
fn joins_of_new_clients_keep_the_numbers_apart() {
    let mut matches = Matches::new();
    matches.create(m1(), HOST, String::new());
    for client in 10..20u64 {
        let _ = matches.join(m1(), client, String::new());
        let who = matches.participants(m1());
        assert!(who.len() <= 2);
        let mut numbers: Vec<usize> =
            who.iter().map(|c| matches.player_number(m1(), *c).unwrap()).collect();
        numbers.sort();
        numbers.dedup();
        assert_eq!(numbers.len(), who.len());
    }
    assert_eq!(matches.player_number(m1(), HOST), Some(1));
    assert_eq!(matches.player_number(m1(), 10), Some(2));
    assert_eq!(matches.player_number(m1(), 11), None);
}

#[test]
fn participants_of_an_unknown_duel_are_none() {
    let matches = full_duel();
    assert!(matches.participants(m2()).is_empty());
    assert_eq!(matches.hearts(m2()), None);
    assert_eq!(matches.is_full(m2()), None);
    assert_eq!(matches.player_number(m2(), HOST), None);
}

#[test]
fn a_session_on_its_own() {
    let mut session = MatchSession::new(m1(), HOST, "w".to_string());
    assert_eq!(session.id, m1());
    assert_eq!(session.player_count(), 1);
    assert!(!session.is_full());
    assert!(session.has_participant(HOST));
    assert!(!session.has_participant(GUEST));
    session.add_guest(GUEST, String::new());
    assert!(session.is_full());
    assert_eq!(session.players[&HOST].wallet, "w");
    assert_eq!(session.players[&GUEST].player_number, 2);
    let outcome = session.resolve_shot(2);
    assert_eq!((outcome.who_is_hit, outcome.player_1_hearts, outcome.player_2_hearts), (1, 4, 5));
    assert_eq!(session.winner(), None);
    assert!(session.remove_player(GUEST));
    assert!(!session.remove_player(GUEST));
    assert_eq!(session.player_count(), 1);
}

#[test]
fn winners_by_hearts() {
    assert_eq!(winner_at(0, 0), Some(0));
    assert_eq!(winner_at(0, 3), Some(2));
    assert_eq!(winner_at(4, 0), Some(1));
    assert_eq!(winner_at(1, 1), None);
    assert_eq!(winner_at(5, 5), None);
}
