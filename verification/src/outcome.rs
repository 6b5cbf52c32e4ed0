//! The end of a duel as one client sees it: who won, what to show, and what
//! to report to the keeper of the players' records.

use crate::player::PlayerSelection;
use crate::profile::ProfileData;
use vstd::prelude::*;

verus! {

/// The winner of the duel that has ended: a player number, or 0 for a draw.
#[derive(Clone, Copy, Debug, PartialEq, Eq, Structural)]
pub struct WhoIsWinner {
    pub player_number: usize,
}

impl Default for WhoIsWinner {
    fn default() -> (who: WhoIsWinner)
        ensures
            who.player_number == 0,
    {
        WhoIsWinner { player_number: 0 }
    }
}

impl WhoIsWinner {
    pub fn reset(&mut self)
        ensures
            final(self).player_number == 0,
    {
        self.player_number = 0;
    }
}

/// The report of a win: the winner's key.
#[derive(Clone, Debug)]
pub struct DuelWinPayload {
    pub public_key: String,
}

/// The report of a loss: the loser's key.
#[derive(Clone, Debug)]
pub struct DuelLossPayload {
    pub public_key: String,
}

/// How a duel ended for one client.
#[derive(Clone, Copy, Debug, PartialEq, Eq, Structural)]
pub enum DuelResult {
    Win,
    Loss,
    Draw,
}

/// What a client reports when its duel has ended.
#[derive(Clone, Debug)]
pub enum RecordCall {
    Win(DuelWinPayload),
    Loss(DuelLossPayload),
}

/// A report with its key as a sequence of characters.
pub enum RecordCallView {
    Win { public_key: Seq<char> },
    Loss { public_key: Seq<char> },
}

impl View for RecordCall {
    type V = RecordCallView;

    open spec fn view(&self) -> RecordCallView {
        match *self {
            RecordCall::Win(payload) => RecordCallView::Win { public_key: payload.public_key@ },
            RecordCall::Loss(payload) => RecordCallView::Loss { public_key: payload.public_key@ },
        }
    }
}

/// How the duel ended for the player with number `local` when `winner` has
/// won: a win for player 1 or 2 if it is the winner, a loss if the other of
/// the two is, and a draw in every other case.
pub open spec fn result_for(winner: usize, local: usize) -> DuelResult {
    if (winner == 1 && local == 1) || (winner == 2 && local == 2) {
        DuelResult::Win
    } else if (winner == 1 && local == 2) || (winner == 2 && local == 1) {
        DuelResult::Loss
    } else {
        DuelResult::Draw
    }
}

/// The line that tells the player how the duel ended.
pub open spec fn banner_text(result: DuelResult) -> Seq<char> {
    match result {
        DuelResult::Win => "You Win!"@,
        DuelResult::Loss => "You Lose!"@,
        DuelResult::Draw => "It's a Draw!"@,
    }
}

/// The report that goes with a result: the player's key as a win or as a
/// loss, and none for a draw.
pub open spec fn report_for(result: DuelResult, public_key: Seq<char>) -> Option<RecordCallView> {
    match result {
        DuelResult::Win => Some(RecordCallView::Win { public_key }),
        DuelResult::Loss => Some(RecordCallView::Loss { public_key }),
        DuelResult::Draw => None,
    }
}

impl DuelResult {
    /// The line to show.
    pub fn banner(&self) -> (text: String)
        ensures
            text@ == banner_text(*self),
    {
        match self {
            DuelResult::Win => "You Win!".to_string(),
            DuelResult::Loss => "You Lose!".to_string(),
            DuelResult::Draw => "It's a Draw!".to_string(),
        }
    }
}

/// How the duel ended for this client.
pub fn duel_result(who_is_winner: &WhoIsWinner, selection: &PlayerSelection) -> (result: DuelResult)
    ensures
        result == result_for(who_is_winner.player_number, selection.0),
{
    let winner = who_is_winner.player_number;
    let local = selection.0;
    if (winner == 1 && local == 1) || (winner == 2 && local == 2) {
        DuelResult::Win
    } else if (winner == 1 && local == 2) || (winner == 2 && local == 1) {
        DuelResult::Loss
    } else {
        DuelResult::Draw
    }
}

/// What this client reports at the end of its duel: its win or its loss,
/// once, under the player's key; nothing after a draw.
pub fn record_call(result: DuelResult, profile: &ProfileData) -> (call: Option<RecordCall>)
    ensures
        match report_for(result, profile.public_key@) {
            Some(report) => call matches Some(made) && made@ == report,
            None => call is None,
        },
{
    match result {
        DuelResult::Win => Some(
            RecordCall::Win(DuelWinPayload { public_key: profile.public_key.clone() }),
        ),
        DuelResult::Loss => Some(
            RecordCall::Loss(DuelLossPayload { public_key: profile.public_key.clone() }),
        ),
        DuelResult::Draw => None,
    }
}

} // verus!
