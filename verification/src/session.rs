//! One duel: its participants and their hearts.

use crate::match_id::MatchIdentifier;
use crate::player::{is_player_number, opponent_of, Player, PlayerSlot, STARTING_HEARTS};
use std::collections::HashMap;
use vstd::prelude::*;
use vstd::std_specs::hash::*;

verus! {

/// Most participants that a match holds.
pub const MAX_PLAYERS: usize = 2;

/// Winner number that stands for a draw.
pub const DRAW: usize = 0;

/// The state of one duel.
#[derive(Debug)]
pub struct MatchSession {
    pub id: MatchIdentifier,
    pub players: HashMap<u64, Player>,
    pub player_1_hearts: usize,
    pub player_2_hearts: usize,
}

/// What a resolved shot did.
#[derive(Clone, Copy, Debug, PartialEq, Eq)]
pub struct ShotOutcome {
    /// Number of the player that was hit.
    pub who_is_hit: usize,
    pub player_1_hearts: usize,
    pub player_2_hearts: usize,
    /// The winner, if this shot has decided the duel: both players had
    /// hearts before it, and the player that was hit has none after it.
    pub game_over: Option<usize>,
}

/// The mathematical model of a duel.
pub struct SessionView {
    pub id: MatchIdentifier,
    pub players: Map<u64, PlayerSlot>,
    pub player_1_hearts: nat,
    pub player_2_hearts: nat,
}

/// The participants of a players table, each by its view.
pub open spec fn slots(players: Map<u64, Player>) -> Map<u64, PlayerSlot> {
    players.map_values(|p: Player| p@)
}

/// Who has won when the hearts stand at `p1` and `p2`: nobody yet while both
/// have hearts, a draw when neither has, else the player who has.
pub open spec fn verdict(p1: nat, p2: nat) -> Option<usize> {
    if p1 == 0 && p2 == 0 {
        Some(DRAW)
    } else if p1 == 0 {
        Some(2)
    } else if p2 == 0 {
        Some(1)
    } else {
        None
    }
}

/// A heart count after one hit: one less, and never below zero.
pub open spec fn after_hit(hearts: nat) -> nat {
    if hearts == 0 {
        0
    } else {
        (hearts - 1) as nat
    }
}

impl SessionView {
    /// A duel that `host` has just opened: the host alone, as player 1, and
    /// full hearts on both sides.
    pub open spec fn fresh(id: MatchIdentifier, host: u64, wallet: Seq<char>) -> SessionView {
        SessionView {
            id,
            players: Map::empty().insert(host, PlayerSlot { player_number: 1, wallet }),
            player_1_hearts: STARTING_HEARTS as nat,
            player_2_hearts: STARTING_HEARTS as nat,
        }
    }

    /// At most two participants, each with one of the two player numbers, and
    /// no more hearts than a duel starts with.
    pub open spec fn well_formed(self) -> bool {
        &&& self.players.dom().finite()
        &&& self.players.len() <= MAX_PLAYERS
        &&& forall|c: u64| #[trigger]
            self.players.contains_key(c) ==> is_player_number(self.players[c].player_number)
        &&& self.player_1_hearts <= STARTING_HEARTS
        &&& self.player_2_hearts <= STARTING_HEARTS
    }

    /// No two participants hold the same player number.
    pub open spec fn slots_distinct(self) -> bool {
        forall|a: u64, b: u64|
            #![trigger self.players[a], self.players[b]]
            self.players.contains_key(a) && self.players.contains_key(b) && a != b
                ==> self.players[a].player_number != self.players[b].player_number
    }

    /// The duel is as every sequence of requests to open and to join leaves
    /// it: the host alone as player 1, or two participants with the two
    /// numbers.
    pub open spec fn seated(self) -> bool {
        &&& self.well_formed()
        &&& self.slots_distinct()
        &&& self.players.len() >= 1
        &&& self.players.len() == 1 ==> forall|c: u64| #[trigger]
            self.players.contains_key(c) ==> self.players[c].player_number == 1
    }

    pub open spec fn is_full(self) -> bool {
        self.players.len() == MAX_PLAYERS
    }

    /// The duel with `guest` entered as player 2.
    pub open spec fn with_guest(self, guest: u64, wallet: Seq<char>) -> SessionView {
        SessionView {
            players: self.players.insert(guest, PlayerSlot { player_number: 2, wallet }),
            ..self
        }
    }

    /// The duel without the participant `identity`.
    pub open spec fn without(self, identity: u64) -> SessionView {
        SessionView { players: self.players.remove(identity), ..self }
    }

    /// The duel after a shot by the player with number `shooter`: the
    /// opponent has lost a heart, if any was left.
    pub open spec fn shot(self, shooter: usize) -> SessionView {
        if opponent_of(shooter) == 2 {
            SessionView { player_2_hearts: after_hit(self.player_2_hearts), ..self }
        } else {
            SessionView { player_1_hearts: after_hit(self.player_1_hearts), ..self }
        }
    }

    /// The hearts of the player with the given number.
    pub open spec fn hearts_of(self, player_number: usize) -> nat {
        if player_number == 2 {
            self.player_2_hearts
        } else {
            self.player_1_hearts
        }
    }

    /// The duel is decided: a heart count stands at zero. Hearts never rise,
    /// so a decided duel stays decided.
    pub open spec fn decided(self) -> bool {
        self.player_1_hearts == 0 || self.player_2_hearts == 0
    }

    /// The winner as the hearts stand: nobody while the duel is not decided.
    pub open spec fn winner(self) -> Option<usize> {
        verdict(self.player_1_hearts, self.player_2_hearts)
    }

    /// The game over that a shot by `shooter` yields: the winner, if the shot
    /// decides the duel, that is if both players had hearts before it and it
    /// takes the opponent's last one. No shot at a decided duel yields one.
    pub open spec fn game_over_of_shot(self, shooter: usize) -> Option<usize> {
        if !self.decided() && self.shot(shooter).decided() {
            self.shot(shooter).winner()
        } else {
            None
        }
    }
}

impl View for MatchSession {
    type V = SessionView;

    open spec fn view(&self) -> SessionView {
        SessionView {
            id: self.id,
            players: slots(self.players@),
            player_1_hearts: self.player_1_hearts as nat,
            player_2_hearts: self.player_2_hearts as nat,
        }
    }
}

/// The views of a players table have the table's keys.
pub proof fn lemma_slots_dom(players: Map<u64, Player>)
    ensures
        slots(players).dom() == players.dom(),
        forall|c: u64| #[trigger] players.contains_key(c) ==> slots(players)[c] == players[c]@,
{
    assert(slots(players).dom() =~= players.dom());
}

/// Viewing commutes with insertion.
pub proof fn lemma_slots_insert(players: Map<u64, Player>, c: u64, p: Player)
    ensures
        slots(players.insert(c, p)) == slots(players).insert(c, p@),
{
    assert(slots(players.insert(c, p)) =~= slots(players).insert(c, p@));
}

/// Viewing commutes with removal.
pub proof fn lemma_slots_remove(players: Map<u64, Player>, c: u64)
    ensures
        slots(players.remove(c)) == slots(players).remove(c),
{
    assert(slots(players.remove(c)) =~= slots(players).remove(c));
}

impl MatchSession {
    /// Opens a duel with `host` as player 1 and five hearts on both sides.
    pub fn new(id: MatchIdentifier, host: u64, wallet: String) -> (session: MatchSession)
        ensures
            session@ == SessionView::fresh(id, host, wallet@),
            session@.seated(),
    {
        broadcast use group_hash_axioms;

        let mut players: HashMap<u64, Player> = HashMap::new();
        let player = Player::new(1, wallet);
        players.insert(host, player);
        proof {
            lemma_slots_insert(Map::empty(), host, player);
            assert(slots(Map::<u64, Player>::empty()) =~= Map::<u64, PlayerSlot>::empty());
        }
        let session = MatchSession {
            id,
            players,
            player_1_hearts: STARTING_HEARTS,
            player_2_hearts: STARTING_HEARTS,
        };
        proof {
            lemma_fresh_is_seated(id, host, wallet@);
        }
        session
    }

    pub fn is_full(&self) -> (full: bool)
        ensures
            full == self@.is_full(),
    {
        broadcast use group_hash_axioms;

        proof {
            lemma_slots_dom(self.players@);
        }
        self.players.len() == MAX_PLAYERS
    }

    /// How many participants the duel has.
    pub fn player_count(&self) -> (count: usize)
        ensures
            count == self@.players.len(),
    {
        broadcast use group_hash_axioms;

        proof {
            lemma_slots_dom(self.players@);
        }
        self.players.len()
    }

    /// Whether `identity` takes part in the duel.
    pub fn has_participant(&self, identity: u64) -> (present: bool)
        ensures
            present == self@.players.contains_key(identity),
    {
        broadcast use group_hash_axioms;

        proof {
            lemma_slots_dom(self.players@);
        }
        self.players.contains_key(&identity)
    }

    /// Enters `guest` as player 2, in place of an entry that `guest` had.
    pub fn add_guest(&mut self, guest: u64, wallet: String)
        ensures
            final(self)@ == old(self)@.with_guest(guest, wallet@),
    {
        broadcast use group_hash_axioms;

        let player = Player::new(2, wallet);
        proof {
            lemma_slots_insert(self.players@, guest, player);
        }
        self.players.insert(guest, player);
    }

    /// Takes `identity` out of the duel and says whether it was in it.
    pub fn remove_player(&mut self, identity: u64) -> (removed: bool)
        ensures
            removed == old(self)@.players.contains_key(identity),
            final(self)@ == old(self)@.without(identity),
    {
        broadcast use group_hash_axioms;

        proof {
            lemma_slots_dom(self.players@);
            lemma_slots_remove(self.players@, identity);
        }
        self.players.remove(&identity).is_some()
    }

    /// Resolves a shot by the player with number `shooter`, 1 or 2: the
    /// opponent loses a heart, if any is left.
    pub fn resolve_shot(&mut self, shooter: usize) -> (outcome: ShotOutcome)
        requires
            is_player_number(shooter),
        ensures
            final(self)@ == old(self)@.shot(shooter),
            outcome.who_is_hit == opponent_of(shooter),
            outcome.player_1_hearts == final(self)@.player_1_hearts,
            outcome.player_2_hearts == final(self)@.player_2_hearts,
            outcome.game_over == old(self)@.game_over_of_shot(shooter),
    {
        let who_is_hit: usize = if shooter == 1 {
            2
        } else {
            1
        };
        let undecided = self.player_1_hearts > 0 && self.player_2_hearts > 0;
        let before: usize = if who_is_hit == 2 {
            self.player_2_hearts
        } else {
            self.player_1_hearts
        };
        let after: usize = if before == 0 {
            0
        } else {
            before - 1
        };
        if who_is_hit == 2 {
            self.player_2_hearts = after;
        } else {
            self.player_1_hearts = after;
        }
        let game_over = if undecided && after == 0 {
            winner_at(self.player_1_hearts, self.player_2_hearts)
        } else {
            None
        };
        ShotOutcome {
            who_is_hit,
            player_1_hearts: self.player_1_hearts,
            player_2_hearts: self.player_2_hearts,
            game_over,
        }
    }

    /// The winner as the hearts stand: nobody while both players have hearts,
    /// 0, a draw, when neither has.
    pub fn winner(&self) -> (winner: Option<usize>)
        ensures
            winner == self@.winner(),
    {
        winner_at(self.player_1_hearts, self.player_2_hearts)
    }
}

/// Who has won when the hearts stand so: nobody while both players have
/// hearts, else the player who has, and 0, a draw, when neither has.
pub fn winner_at(player_1_hearts: usize, player_2_hearts: usize) -> (winner: Option<usize>)
    ensures
        winner == verdict(player_1_hearts as nat, player_2_hearts as nat),
{
    if player_1_hearts == 0 && player_2_hearts == 0 {
        Some(DRAW)
    } else if player_1_hearts == 0 {
        Some(2)
    } else if player_2_hearts == 0 {
        Some(1)
    } else {
        None
    }
}

// ---------------------------------------------------------------------------
// What holds of every duel
// ---------------------------------------------------------------------------

/// A freshly opened duel is seated: the host alone, as player 1.
pub proof fn lemma_fresh_is_seated(id: MatchIdentifier, host: u64, wallet: Seq<char>)
    ensures
        SessionView::fresh(id, host, wallet).seated(),
        SessionView::fresh(id, host, wallet).players.len() == 1,
        !SessionView::fresh(id, host, wallet).is_full(),
{
    let s = SessionView::fresh(id, host, wallet);
    assert(s.players.dom() =~= Set::<u64>::empty().insert(host));
}

/// Entering a guest into a duel that is not full keeps it within two
/// participants, whoever the guest is.
pub proof fn lemma_join_keeps_well_formed(s: SessionView, guest: u64, wallet: Seq<char>)
    requires
        s.well_formed(),
        !s.is_full(),
    ensures
        s.with_guest(guest, wallet).well_formed(),
        s.with_guest(guest, wallet).players.len() <= MAX_PLAYERS,
{
    let t = s.with_guest(guest, wallet);
    assert(t.players.dom() =~= s.players.dom().insert(guest));
    assert forall|c: u64| #[trigger] t.players.contains_key(c) implies is_player_number(
        t.players[c].player_number,
    ) by {
        if c != guest {
            assert(s.players.contains_key(c));
        }
    }
}

/// Entering a guest who is not yet a participant into a seated duel that is
/// not full leaves it seated and full: two participants, player 1 and
/// player 2.
pub proof fn lemma_join_keeps_seated(s: SessionView, guest: u64, wallet: Seq<char>)
    requires
        s.seated(),
        !s.is_full(),
        !s.players.contains_key(guest),
    ensures
        s.with_guest(guest, wallet).seated(),
        s.with_guest(guest, wallet).is_full(),
{
    let t = s.with_guest(guest, wallet);
    lemma_join_keeps_well_formed(s, guest, wallet);
    assert(t.players.dom() =~= s.players.dom().insert(guest));
    assert(s.players.len() == 1);
    assert forall|a: u64, b: u64|
        #![trigger t.players[a], t.players[b]]
        t.players.contains_key(a) && t.players.contains_key(b) && a != b implies t.players[a].player_number
        != t.players[b].player_number by {
        if a == guest {
            assert(s.players.contains_key(b));
        } else if b == guest {
            assert(s.players.contains_key(a));
        } else {
            assert(s.players.contains_key(a));
            assert(s.players.contains_key(b));
        }
    }
}

/// A shot never raises a heart count, lowers exactly one side's count, by at
/// most one, and never below zero; the participants stay as they are.
pub proof fn lemma_shot_is_monotonic(s: SessionView, shooter: usize)
    ensures
        s.shot(shooter).player_1_hearts <= s.player_1_hearts,
        s.shot(shooter).player_2_hearts <= s.player_2_hearts,
        s.shot(shooter).hearts_of(shooter) == s.hearts_of(shooter) || !is_player_number(shooter),
        s.shot(shooter).hearts_of(opponent_of(shooter)) + 1 >= s.hearts_of(opponent_of(shooter)),
        s.shot(shooter).player_1_hearts == s.player_1_hearts || s.shot(shooter).player_2_hearts
            == s.player_2_hearts,
        s.shot(shooter).players == s.players,
        s.decided() ==> s.shot(shooter).decided(),
        s.well_formed() ==> s.shot(shooter).well_formed(),
{
}

/// A shot yields a game over exactly when it decides the duel: both players
/// had hearts before it and the one that was hit has none after it. The
/// winner is then the shooter, and the duel is decided from there on.
pub proof fn lemma_game_over_at_first_zero(s: SessionView, shooter: usize)
    ensures
        s.game_over_of_shot(shooter) is Some <==> s.player_1_hearts > 0 && s.player_2_hearts > 0
            && s.hearts_of(opponent_of(shooter)) == 1,
        s.game_over_of_shot(shooter) is Some ==> {
            &&& s.shot(shooter).decided()
            &&& s.game_over_of_shot(shooter) == s.shot(shooter).winner()
            &&& s.game_over_of_shot(shooter) == Some(opponent_of(opponent_of(shooter)))
        },
{
}

/// No shot at a decided duel yields a game over, and the duel stays decided.
pub proof fn lemma_decided_is_final(s: SessionView, shooter: usize)
    requires
        s.decided(),
    ensures
        s.game_over_of_shot(shooter) is None,
        s.shot(shooter).decided(),
{
}

} // verus!
