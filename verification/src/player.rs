//! Player slots and the small pieces of state that a client keeps about the
//! players of its match.

use crate::match_id::MatchIdentifier;
use vstd::prelude::*;

verus! {

/// Hearts every player holds when a duel begins.
pub const STARTING_HEARTS: usize = 5;

/// The player number that stands for "none yet" and, as a winner, for a draw.
pub const NO_PLAYER: usize = 0;

/// `n` is one of the two player numbers of a match.
pub open spec fn is_player_number(n: usize) -> bool {
    n == 1 || n == 2
}

/// The number of the player that `shooter` shoots at: 2 for player 1, and 1
/// for anyone else.
pub open spec fn opponent_of(shooter: usize) -> usize {
    if shooter == 1 {
        2
    } else {
        1
    }
}

/// The opponent's number.
pub fn opponent(shooter: usize) -> (target: usize)
    ensures
        target == opponent_of(shooter),
        is_player_number(target),
        is_player_number(shooter) ==> target != shooter && opponent_of(target) == shooter,
{
    if shooter == 1 {
        2
    } else {
        1
    }
}

/// A participant of a match: the slot that the server gave, and the identity
/// string that the client supplied.
#[derive(Clone, Debug)]
pub struct Player {
    pub player_number: usize,
    pub wallet: String,
}

/// A participant, with the wallet as a sequence of characters.
pub struct PlayerSlot {
    pub player_number: usize,
    pub wallet: Seq<char>,
}

impl View for Player {
    type V = PlayerSlot;

    open spec fn view(&self) -> PlayerSlot {
        PlayerSlot { player_number: self.player_number, wallet: self.wallet@ }
    }
}

impl Player {
    pub fn new(player_number: usize, wallet: String) -> (player: Player)
        ensures
            player@ == (PlayerSlot { player_number, wallet: wallet@ }),
    {
        Player { player_number, wallet }
    }
}

/// The slot that this client holds and the match it is bound to. Number 0
/// means that no slot was assigned yet.
#[derive(Clone, Copy, Debug)]
pub struct PlayerSelection(pub usize, pub MatchIdentifier);

impl Default for PlayerSelection {
    fn default() -> (selection: PlayerSelection)
        ensures
            selection.0 == NO_PLAYER,
            selection.1.is_random(),
    {
        PlayerSelection::unassigned(MatchIdentifier::new_v4())
    }
}

/// The name under which the player with number `number` is shown to the
/// client that holds slot `local`: itself as "You", the others by number.
pub open spec fn label_text(local: usize, number: usize) -> Seq<char> {
    if local == number {
        "You"@
    } else if number == 1 {
        "Player 1"@
    } else {
        "Player 2"@
    }
}

impl PlayerSelection {
    /// No slot yet, and `match_id` as the match to host or join.
    pub fn unassigned(match_id: MatchIdentifier) -> (selection: PlayerSelection)
        ensures
            selection == PlayerSelection(NO_PLAYER, match_id),
    {
        PlayerSelection(NO_PLAYER, match_id)
    }

    /// Forgets the slot and binds to a fresh random identifier, under which a
    /// next match can be hosted.
    pub fn reset(&mut self)
        ensures
            final(self).0 == NO_PLAYER,
            final(self).1.is_random(),
    {
        *self = PlayerSelection::unassigned(MatchIdentifier::new_v4());
    }

    /// Whether this client holds the slot with the given number.
    pub fn is_local(&self, number: usize) -> (local: bool)
        ensures
            local == (self.0 == number),
    {
        self.0 == number
    }

    /// The name to show for the player with the given number.
    pub fn label_for(&self, number: usize) -> (text: String)
        requires
            is_player_number(number),
        ensures
            text@ == label_text(self.0, number),
    {
        if self.0 == number {
            "You".to_string()
        } else if number == 1 {
            "Player 1".to_string()
        } else {
            "Player 2".to_string()
        }
    }
}

/// How many players the client has counted in its match.
#[derive(Clone, Copy, Debug, PartialEq, Eq, Structural)]
pub struct PlayersCounting(pub usize);

impl Default for PlayersCounting {
    fn default() -> (counting: PlayersCounting)
        ensures
            counting.0 == 0,
    {
        PlayersCounting(0)
    }
}

impl PlayersCounting {
    pub fn reset(&mut self)
        ensures
            final(self).0 == 0,
    {
        self.0 = 0;
    }
}

/// The client's mirror of both players' hearts.
#[derive(Clone, Copy, Debug, PartialEq, Eq, Structural)]
pub struct PlayerHertsStatus {
    pub player_1_hearts: usize,
    pub player_2_hearts: usize,
}

impl Default for PlayerHertsStatus {
    fn default() -> (status: PlayerHertsStatus)
        ensures
            status.player_1_hearts == STARTING_HEARTS,
            status.player_2_hearts == STARTING_HEARTS,
    {
        PlayerHertsStatus { player_1_hearts: STARTING_HEARTS, player_2_hearts: STARTING_HEARTS }
    }
}

impl PlayerHertsStatus {
    pub fn reset(&mut self)
        ensures
            final(self).player_1_hearts == STARTING_HEARTS,
            final(self).player_2_hearts == STARTING_HEARTS,
    {
        self.player_1_hearts = STARTING_HEARTS;
        self.player_2_hearts = STARTING_HEARTS;
    }

    /// The hearts of the player with the given number; none for a number that
    /// is no player's.
    pub open spec fn hearts_of(self, player_number: usize) -> usize {
        if player_number == 1 {
            self.player_1_hearts
        } else if player_number == 2 {
            self.player_2_hearts
        } else {
            0
        }
    }
}

/// One heart on screen: the player it belongs to and its place in that
/// player's row, counted from 1.
#[derive(Clone, Copy, Debug, PartialEq, Eq, Structural)]
pub struct PlayterHeart(pub usize, pub usize);

impl PlayterHeart {
    /// The heart is lost: it belongs to one of the two players and its place
    /// lies beyond the hearts that this player has left.
    pub open spec fn lost(self, status: PlayerHertsStatus) -> bool {
        is_player_number(self.0) && self.1 > status.hearts_of(self.0)
    }

    /// Whether the heart is to be shown empty.
    pub fn is_empty(&self, status: &PlayerHertsStatus) -> (empty: bool)
        ensures
            empty == self.lost(*status),
    {
        (self.0 == 1 && self.1 > status.player_1_hearts) || (self.0 == 2 && self.1
            > status.player_2_hearts)
    }
}

/// A player was hit: the number of the player.
#[derive(Clone, Copy, Debug, PartialEq, Eq, Structural)]
pub struct PlayerHit(pub usize);

/// Holds while a shot is being sent, so that no second one goes out.
#[derive(Clone, Copy, Debug, PartialEq, Eq, Structural)]
pub struct ShootingLock(pub bool);

impl Default for ShootingLock {
    fn default() -> (lock: ShootingLock)
        ensures
            !lock.0,
    {
        ShootingLock(false)
    }
}

impl ShootingLock {
    pub fn lock(&mut self)
        ensures
            final(self).0,
    {
        self.0 = true;
    }

    pub fn unlock(&mut self)
        ensures
            !final(self).0,
    {
        self.0 = false;
    }

    pub fn is_locked(&self) -> (locked: bool)
        ensures
            locked == self.0,
    {
        self.0
    }

    pub fn reset(&mut self)
        ensures
            !final(self).0,
    {
        self.0 = false;
    }
}

} // verus!
