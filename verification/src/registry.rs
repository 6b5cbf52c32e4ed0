//! The session registry: every duel that the server knows, by its
//! identifier, and the operations that open, fill, advance and close them.

use crate::match_id::MatchIdentifier;
use crate::player::is_player_number;
use crate::player::opponent_of;
use crate::session::{
    lemma_fresh_is_seated, lemma_join_keeps_seated, lemma_join_keeps_well_formed, MatchSession,
    SessionView, ShotOutcome, MAX_PLAYERS,
};
use std::collections::HashMap;
use vstd::prelude::*;
use vstd::std_specs::hash::*;

verus! {

/// Why a join was refused.
#[derive(Clone, Copy, Debug, PartialEq, Eq, Structural)]
pub enum JoinError {
    /// No duel has that identifier.
    NotFound,
    /// The duel has two participants already.
    Full,
}

/// The text that tells a client why its join was refused.
pub open spec fn join_error_text(error: JoinError) -> Seq<char> {
    match error {
        JoinError::NotFound => "Match not found"@,
        JoinError::Full => "Match is full"@,
    }
}

impl JoinError {
    pub fn message(&self) -> (text: String)
        ensures
            text@ == join_error_text(*self),
    {
        match self {
            JoinError::NotFound => "Match not found".to_string(),
            JoinError::Full => "Match is full".to_string(),
        }
    }
}

/// Where a connection stands with the registry. A connection that is lost
/// is taken out of its duel and stands nowhere.
#[derive(Clone, Copy, Debug, PartialEq, Eq, Structural)]
pub enum ConnectionPhase {
    /// Connected, and in no duel.
    Connected,
    /// Bound to a duel by an accepted request to open or join it.
    Bound { match_id: MatchIdentifier, player_number: usize },
}

/// All duels, each under the value of its identifier.
#[derive(Debug)]
pub struct Matches {
    pub sessions: HashMap<u128, MatchSession>,
}

/// The mathematical model of the registry.
pub type RegistryView = Map<u128, SessionView>;

/// The duels of a sessions table, each by its view.
pub open spec fn session_views(sessions: Map<u128, MatchSession>) -> RegistryView {
    sessions.map_values(|s: MatchSession| s@)
}

impl View for Matches {
    type V = RegistryView;

    open spec fn view(&self) -> RegistryView {
        session_views(self.sessions@)
    }
}

// ---------------------------------------------------------------------------
// The operations, on the model
// ---------------------------------------------------------------------------

/// Every duel is well formed and stands under its own identifier.
pub open spec fn registry_well_formed(reg: RegistryView) -> bool {
    &&& reg.dom().finite()
    &&& forall|k: u128| #[trigger]
        reg.contains_key(k) ==> reg[k].well_formed() && reg[k].id == MatchIdentifier(k)
}

/// Every duel is seated: well formed, with no player number held twice, and a
/// lone participant being player 1.
pub open spec fn registry_seated(reg: RegistryView) -> bool {
    &&& reg.dom().finite()
    &&& forall|k: u128| #[trigger]
        reg.contains_key(k) ==> reg[k].seated() && reg[k].id == MatchIdentifier(k)
}

/// `identity` takes part in the duel under `key`.
pub open spec fn participates(reg: RegistryView, identity: u64, key: u128) -> bool {
    reg.contains_key(key) && reg[key].players.contains_key(identity)
}

/// `identity` takes part in some duel.
pub open spec fn participates_anywhere(reg: RegistryView, identity: u64) -> bool {
    exists|k: u128| participates(reg, identity, k)
}

/// The duel under `key` is the only one in which `identity` takes part.
pub open spec fn only_duel(reg: RegistryView, identity: u64, key: u128) -> bool {
    participates(reg, identity, key) && forall|k: u128|
        k != key ==> !#[trigger] participates(reg, identity, k)
}

/// The registry after `host` has opened the duel `id`. A duel that stood
/// under `id` before is replaced.
pub open spec fn created(
    reg: RegistryView,
    id: MatchIdentifier,
    host: u64,
    wallet: Seq<char>,
) -> RegistryView {
    reg.insert(id.0, SessionView::fresh(id, host, wallet))
}

/// What a join into the duel `id` answers: a duel that is unknown is not
/// found, a duel of two is full, and every other join is accepted, with
/// player number 2.
pub open spec fn join_result(reg: RegistryView, id: MatchIdentifier) -> Result<usize, JoinError> {
    if !reg.contains_key(id.0) {
        Err(JoinError::NotFound)
    } else if reg[id.0].is_full() {
        Err(JoinError::Full)
    } else {
        Ok(2)
    }
}

/// The registry after a join into the duel `id`: where the join is accepted
/// the requester is entered as player 2, in place of an entry that it had in
/// the duel, and nothing changes where the join is refused.
pub open spec fn joined(
    reg: RegistryView,
    id: MatchIdentifier,
    guest: u64,
    wallet: Seq<char>,
) -> RegistryView {
    if join_result(reg, id) is Ok {
        reg.insert(id.0, reg[id.0].with_guest(guest, wallet))
    } else {
        reg
    }
}

/// A shot is accepted when the duel exists, the shooter takes part in it and
/// names one of the two player numbers.
pub open spec fn shot_accepted(
    reg: RegistryView,
    id: MatchIdentifier,
    shooter: u64,
    shooter_number: usize,
) -> bool {
    participates(reg, shooter, id.0) && is_player_number(shooter_number)
}

/// The registry after a shot: the duel has advanced where the shot is
/// accepted, and nothing changes where it is not.
pub open spec fn shot_applied(
    reg: RegistryView,
    id: MatchIdentifier,
    shooter: u64,
    shooter_number: usize,
) -> RegistryView {
    if shot_accepted(reg, id, shooter, shooter_number) {
        reg.insert(id.0, reg[id.0].shot(shooter_number))
    } else {
        reg
    }
}

/// The winner of the duel `id` as its hearts stand: nobody while both
/// players have hearts, and nobody where there is no such duel.
pub open spec fn standing_winner(reg: RegistryView, id: MatchIdentifier) -> Option<usize> {
    if reg.contains_key(id.0) {
        reg[id.0].winner()
    } else {
        None
    }
}

/// How many participants the duel under `key` has without `identity`.
pub open spec fn remaining_without(reg: RegistryView, identity: u64, key: u128) -> nat {
    reg[key].without(identity).players.len()
}

/// The registry after `identity` has left the duel under `key`: the duel is
/// deleted if fewer than two participants remain, else it stays without the
/// one who left.
pub open spec fn departed(reg: RegistryView, identity: u64, key: u128) -> RegistryView {
    if remaining_without(reg, identity, key) < MAX_PLAYERS {
        reg.remove(key)
    } else {
        reg.insert(key, reg[key].without(identity))
    }
}

// ---------------------------------------------------------------------------
// Views and tables
// ---------------------------------------------------------------------------

/// The views of a sessions table have the table's keys.
pub proof fn lemma_views_dom(sessions: Map<u128, MatchSession>)
    ensures
        session_views(sessions).dom() == sessions.dom(),
        forall|k: u128| #[trigger]
            sessions.contains_key(k) ==> session_views(sessions)[k] == sessions[k]@,
{
    assert(session_views(sessions).dom() =~= sessions.dom());
}

/// Viewing commutes with insertion.
pub proof fn lemma_views_insert(sessions: Map<u128, MatchSession>, k: u128, s: MatchSession)
    ensures
        session_views(sessions.insert(k, s)) == session_views(sessions).insert(k, s@),
{
    assert(session_views(sessions.insert(k, s)) =~= session_views(sessions).insert(k, s@));
}

/// Viewing commutes with removal.
pub proof fn lemma_views_remove(sessions: Map<u128, MatchSession>, k: u128)
    ensures
        session_views(sessions.remove(k)) == session_views(sessions).remove(k),
{
    assert(session_views(sessions.remove(k)) =~= session_views(sessions).remove(k));
}

// ---------------------------------------------------------------------------
// The registry
// ---------------------------------------------------------------------------

impl Default for Matches {
    fn default() -> (matches: Matches)
        ensures
            matches@ == Map::<u128, SessionView>::empty(),
            registry_seated(matches@),
    {
        let matches = Matches { sessions: HashMap::new() };
        proof {
            assert(session_views(Map::<u128, MatchSession>::empty()) =~= Map::<
                u128,
                SessionView,
            >::empty());
        }
        matches
    }
}

impl Matches {
    /// A registry without duels.
    pub fn new() -> (matches: Matches)
        ensures
            matches@ == Map::<u128, SessionView>::empty(),
            registry_seated(matches@),
    {
        Matches::default()
    }

    /// How many duels the registry holds.
    pub fn len(&self) -> (count: usize)
        ensures
            count == self@.len(),
    {
        broadcast use group_hash_axioms;

        proof {
            lemma_views_dom(self.sessions@);
        }
        self.sessions.len()
    }

    /// Whether a duel stands under `match_id`.
    pub fn contains(&self, match_id: MatchIdentifier) -> (present: bool)
        ensures
            present == self@.contains_key(match_id.0),
    {
        broadcast use group_hash_axioms;

        proof {
            lemma_views_dom(self.sessions@);
        }
        self.sessions.contains_key(&match_id.0)
    }

    /// Whether the duel `match_id` has its two participants; `None` if there
    /// is no such duel.
    pub fn is_full(&self, match_id: MatchIdentifier) -> (full: Option<bool>)
        ensures
            full == if self@.contains_key(match_id.0) {
                Some(self@[match_id.0].is_full())
            } else {
                None
            },
    {
        broadcast use group_hash_axioms;

        proof {
            lemma_views_dom(self.sessions@);
        }
        match self.sessions.get(&match_id.0) {
            Some(session) => Some(session.is_full()),
            None => None,
        }
    }

    /// The hearts of player 1 and of player 2 in the duel `match_id`; `None`
    /// if there is no such duel.
    pub fn hearts(&self, match_id: MatchIdentifier) -> (hearts: Option<(usize, usize)>)
        ensures
            hearts is Some <==> self@.contains_key(match_id.0),
            hearts matches Some((first, second)) ==> first == self@[match_id.0].player_1_hearts
                && second == self@[match_id.0].player_2_hearts,
    {
        broadcast use group_hash_axioms;

        proof {
            lemma_views_dom(self.sessions@);
        }
        match self.sessions.get(&match_id.0) {
            Some(session) => Some((session.player_1_hearts, session.player_2_hearts)),
            None => None,
        }
    }

    /// The player number that `identity` holds in the duel `match_id`; `None`
    /// if there is no such duel or `identity` takes no part in it.
    pub fn player_number(&self, match_id: MatchIdentifier, identity: u64) -> (number: Option<usize>)
        ensures
            number == if participates(self@, identity, match_id.0) {
                Some(self@[match_id.0].players[identity].player_number)
            } else {
                None
            },
    {
        broadcast use group_hash_axioms;

        proof {
            lemma_views_dom(self.sessions@);
        }
        match self.sessions.get(&match_id.0) {
            Some(session) => {
                proof {
                    crate::session::lemma_slots_dom(session.players@);
                }
                match session.players.get(&identity) {
                    Some(player) => Some(player.player_number),
                    None => None,
                }
            },
            None => None,
        }
    }

    /// Opens the duel `match_id` with the requester as player 1 and five
    /// hearts on both sides, and returns the requester's player number. A
    /// duel that stood under `match_id` before is replaced.
    pub fn create(&mut self, match_id: MatchIdentifier, requester: u64, wallet: String) -> (player_number: usize)
        ensures
            player_number == 1,
            final(self)@ == created(old(self)@, match_id, requester, wallet@),
            registry_well_formed(old(self)@) ==> registry_well_formed(final(self)@),
            registry_seated(old(self)@) ==> registry_seated(final(self)@),
    {
        broadcast use group_hash_axioms;

        let session = MatchSession::new(match_id, requester, wallet);
        proof {
            lemma_views_insert(self.sessions@, match_id.0, session);
            lemma_create_keeps_invariants(self@, match_id, requester, wallet@);
        }
        self.sessions.insert(match_id.0, session);
        1
    }

    /// Enters the requester into the duel `match_id` as player 2.
    ///
    /// Refused, and nothing changes, with `NotFound` if there is no such
    /// duel and with `Full` if it has two participants. Every other join is
    /// accepted. A requester that takes part in the duel already, as the
    /// host of a duel of one does, is entered anew as player 2: its entry is
    /// replaced, and the duel has no player 1 from then on. So a join keeps
    /// the player numbers of a duel distinct where the requester is new to
    /// the duel.
    pub fn join(&mut self, match_id: MatchIdentifier, requester: u64, wallet: String) -> (res: Result<usize, JoinError>)
        ensures
            res == join_result(old(self)@, match_id),
            final(self)@ == joined(old(self)@, match_id, requester, wallet@),
            registry_well_formed(old(self)@) ==> registry_well_formed(final(self)@),
            registry_seated(old(self)@) && !participates(old(self)@, requester, match_id.0)
                ==> registry_seated(final(self)@),
    {
        broadcast use group_hash_axioms;

        proof {
            lemma_views_dom(self.sessions@);
            lemma_join_keeps_invariants(self@, match_id, requester, wallet@);
        }
        let full = match self.sessions.get(&match_id.0) {
            Some(session) => session.is_full(),
            None => {
                return Err(JoinError::NotFound);
            },
        };
        if full {
            return Err(JoinError::Full);
        }
        let mut session = self.sessions.remove(&match_id.0).unwrap();
        session.add_guest(requester, wallet);
        proof {
            lemma_views_remove(old(self).sessions@, match_id.0);
            lemma_views_insert(self.sessions@, match_id.0, session);
        }
        self.sessions.insert(match_id.0, session);
        assert(self@ =~= joined(old(self)@, match_id, requester, wallet@));
        Ok(2)
    }

    /// Resolves a shot in the duel `match_id` by the client `shooter`, who
    /// names `shooter_player_number` as its own.
    ///
    /// `None`, and nothing changes, if there is no such duel, if the shooter
    /// takes no part in it, or if the number is neither 1 nor 2. Otherwise the
    /// opponent loses a heart, if any is left.
    pub fn resolve_shoot(
        &mut self,
        match_id: MatchIdentifier,
        shooter: u64,
        shooter_player_number: usize,
    ) -> (res: Option<ShotOutcome>)
        ensures
            res is Some <==> shot_accepted(old(self)@, match_id, shooter, shooter_player_number),
            final(self)@ == shot_applied(old(self)@, match_id, shooter, shooter_player_number),
            res matches Some(outcome) ==> {
                &&& outcome.who_is_hit == opponent_of(shooter_player_number)
                &&& outcome.player_1_hearts == final(self)@[match_id.0].player_1_hearts
                &&& outcome.player_2_hearts == final(self)@[match_id.0].player_2_hearts
                &&& outcome.game_over == old(self)@[match_id.0].game_over_of_shot(
                    shooter_player_number,
                )
            },
            registry_well_formed(old(self)@) ==> registry_well_formed(final(self)@),
            registry_seated(old(self)@) ==> registry_seated(final(self)@),
    {
        broadcast use group_hash_axioms;

        proof {
            lemma_views_dom(self.sessions@);
        }
        let takes_part = match self.sessions.get(&match_id.0) {
            Some(session) => session.has_participant(shooter),
            None => false,
        };
        if !takes_part || !(shooter_player_number == 1 || shooter_player_number == 2) {
            return None;
        }
        let mut session = self.sessions.remove(&match_id.0).unwrap();
        let outcome = session.resolve_shot(shooter_player_number);
        proof {
            lemma_views_remove(old(self).sessions@, match_id.0);
            lemma_views_insert(self.sessions@, match_id.0, session);
            lemma_shot_keeps_invariants(old(self)@, match_id, shooter, shooter_player_number);
        }
        self.sessions.insert(match_id.0, session);
        assert(self@ =~= shot_applied(old(self)@, match_id, shooter, shooter_player_number));
        Some(outcome)
    }

    /// The winner of the duel `match_id` as its hearts stand: the player who
    /// has hearts left when the other has none, and 0, a draw, when neither
    /// has. `None` while both have hearts, and if there is no such duel.
    pub fn winner(&self, match_id: MatchIdentifier) -> (winner: Option<usize>)
        ensures
            winner == standing_winner(self@, match_id),
    {
        broadcast use group_hash_axioms;

        proof {
            lemma_views_dom(self.sessions@);
        }
        match self.sessions.get(&match_id.0) {
            Some(session) => session.winner(),
            None => None,
        }
    }

    /// A duel in which `identity` takes part, if there is one.
    pub fn session_of(&self, identity: u64) -> (found: Option<MatchIdentifier>)
        ensures
            found is Some <==> participates_anywhere(self@, identity),
            found matches Some(id) ==> participates(self@, identity, id.0),
    {
        broadcast use group_hash_axioms;

        proof {
            lemma_views_dom(self.sessions@);
        }
        let mut found: Option<MatchIdentifier> = None;
        for key in iter: self.sessions.keys()
            invariant
                forall|k: u128| #[trigger]
                    self.sessions@.contains_key(k) ==> self@.contains_key(k) && self@[k]
                        == self.sessions@[k]@,
                self@.dom() == self.sessions@.dom(),
                match found {
                    Some(id) => participates(self@, identity, id.0),
                    None => forall|i: int|
                        0 <= i < iter.index() ==> !participates(self@, identity, *iter.seq()[i]),
                },
        {
            if found.is_none() {
                let session = self.sessions.get(key).unwrap();
                if session.has_participant(identity) {
                    found = Some(MatchIdentifier(*key));
                }
            }
        }
        proof {
            if found is None {
                assert forall|k: u128| !participates(self@, identity, k) by {
                    if self@.contains_key(k) {
                        assert(self.sessions@.dom().contains(k));
                    }
                }
            }
        }
        found
    }

    /// Where the connection `identity` stands: bound to a duel in which it
    /// takes part, with its slot there, or connected and in no duel.
    pub fn phase_of(&self, identity: u64) -> (phase: ConnectionPhase)
        ensures
            phase is Connected <==> !participates_anywhere(self@, identity),
            phase matches ConnectionPhase::Bound { match_id, player_number } ==> {
                &&& participates(self@, identity, match_id.0)
                &&& player_number == self@[match_id.0].players[identity].player_number
            },
    {
        match self.session_of(identity) {
            Some(match_id) => match self.player_number(match_id, identity) {
                Some(player_number) => ConnectionPhase::Bound { match_id, player_number },
                None => ConnectionPhase::Connected,
            },
            None => ConnectionPhase::Connected,
        }
    }

    /// Takes `identity` out of a duel in which it takes part.
    ///
    /// `None`, and nothing changes, if it takes part in none. Otherwise the
    /// duel's identifier and the number of participants that remain in it; a
    /// duel in which fewer than two remain is deleted. Where the client takes
    /// part in one duel only, that duel is the one; where it takes part in
    /// several, it is taken out of one of them.
    pub fn remove_participant(&mut self, identity: u64) -> (res: Option<(MatchIdentifier, usize)>)
        ensures
            res is Some <==> participates_anywhere(old(self)@, identity),
            res is None ==> final(self)@ == old(self)@,
            res matches Some((id, remaining)) ==> {
                &&& participates(old(self)@, identity, id.0)
                &&& remaining == remaining_without(old(self)@, identity, id.0)
                &&& final(self)@ == departed(old(self)@, identity, id.0)
            },
            forall|key: u128| #[trigger]
                only_duel(old(self)@, identity, key) ==> (res matches Some((id, remaining))
                && id == MatchIdentifier(key)),
            registry_well_formed(old(self)@) ==> registry_well_formed(final(self)@),
            registry_seated(old(self)@) ==> registry_seated(final(self)@),
            res matches Some((id, remaining)) ==> (registry_well_formed(old(self)@)
                ==> !final(self)@.contains_key(id.0)),
    {
        broadcast use group_hash_axioms;

        proof {
            lemma_views_dom(self.sessions@);
        }
        let id = match self.session_of(identity) {
            Some(id) => id,
            None => {
                return None;
            },
        };
        let mut session = self.sessions.remove(&id.0).unwrap();
        session.remove_player(identity);
        let remaining = session.player_count();
        proof {
            lemma_views_remove(old(self).sessions@, id.0);
            lemma_departure_keeps_well_formed(old(self)@, identity, id.0);
        }
        if remaining < MAX_PLAYERS {
            assert(self@ =~= departed(old(self)@, identity, id.0));
        } else {
            proof {
                lemma_views_insert(self.sessions@, id.0, session);
            }
            self.sessions.insert(id.0, session);
            assert(self@ =~= departed(old(self)@, identity, id.0));
        }
        Some((id, remaining))
    }

    /// The participants of the duel `match_id`, in no particular order; none
    /// if there is no such duel.
    pub fn participants(&self, match_id: MatchIdentifier) -> (clients: Vec<u64>)
        ensures
            clients@.no_duplicates(),
            forall|c: u64| clients@.contains(c) <==> participates(self@, c, match_id.0),
    {
        broadcast use group_hash_axioms;

        proof {
            lemma_views_dom(self.sessions@);
        }
        let mut clients: Vec<u64> = Vec::new();
        match self.sessions.get(&match_id.0) {
            Some(session) => {
                proof {
                    crate::session::lemma_slots_dom(session.players@);
                }
                for client in iter: session.players.keys()
                    invariant
                        clients@.len() == iter.index(),
                        forall|i: int| 0 <= i < clients@.len() ==> clients@[i] == *iter.seq()[i],
                        forall|i: int|
                            0 <= i < clients@.len() ==> session.players@.contains_key(
                                #[trigger] clients@[i],
                            ),
                {
                    assert(session.players@.contains_key(*client));
                    clients.push(*client);
                }
                proof {
                    assert forall|c: u64| clients@.contains(c) <==> participates(
                        self@,
                        c,
                        match_id.0,
                    ) by {
                        if clients@.contains(c) {
                            let i = choose|i: int| 0 <= i < clients@.len() && clients@[i] == c;
                            assert(session.players@.dom().contains(c));
                        }
                        if participates(self@, c, match_id.0) {
                            assert(session.players@.dom().contains(c));
                        }
                    }
                }
            },
            None => {},
        }
        clients
    }
}

// ---------------------------------------------------------------------------
// What holds of every registry
// ---------------------------------------------------------------------------

/// Opening a duel keeps every duel well formed, and seated.
pub proof fn lemma_create_keeps_invariants(
    reg: RegistryView,
    id: MatchIdentifier,
    host: u64,
    wallet: Seq<char>,
)
    ensures
        registry_well_formed(reg) ==> registry_well_formed(created(reg, id, host, wallet)),
        registry_seated(reg) ==> registry_seated(created(reg, id, host, wallet)),
        created(reg, id, host, wallet)[id.0].players.len() == 1,
{
    lemma_fresh_is_seated(id, host, wallet);
}

/// A join, accepted or refused, keeps every duel within two participants; and
/// a join by a client that is new to the duel keeps every duel seated, so
/// that no player number is held twice.
pub proof fn lemma_join_keeps_invariants(
    reg: RegistryView,
    id: MatchIdentifier,
    guest: u64,
    wallet: Seq<char>,
)
    ensures
        registry_well_formed(reg) ==> registry_well_formed(joined(reg, id, guest, wallet)),
        registry_seated(reg) && !participates(reg, guest, id.0) ==> registry_seated(
            joined(reg, id, guest, wallet),
        ),
{
    if join_result(reg, id) is Ok {
        assert(reg.contains_key(id.0));
        if registry_well_formed(reg) {
            lemma_join_keeps_well_formed(reg[id.0], guest, wallet);
        }
        if registry_seated(reg) && !participates(reg, guest, id.0) {
            lemma_join_keeps_seated(reg[id.0], guest, wallet);
        }
    }
}

/// A shot, accepted or not, keeps every duel well formed, and seated.
pub proof fn lemma_shot_keeps_invariants(
    reg: RegistryView,
    id: MatchIdentifier,
    shooter: u64,
    shooter_number: usize,
)
    ensures
        registry_well_formed(reg) ==> registry_well_formed(
            shot_applied(reg, id, shooter, shooter_number),
        ),
        registry_seated(reg) ==> registry_seated(shot_applied(reg, id, shooter, shooter_number)),
{
    if shot_accepted(reg, id, shooter, shooter_number) {
        assert(reg.contains_key(id.0));
    }
}

/// Where every duel is well formed, a departure deletes the duel that was
/// left, and the rest stays well formed. In particular a duel of two is
/// deleted when one of them leaves.
pub proof fn lemma_departure_keeps_well_formed(reg: RegistryView, identity: u64, key: u128)
    requires
        participates(reg, identity, key),
    ensures
        registry_well_formed(reg) ==> remaining_without(reg, identity, key) < MAX_PLAYERS,
        registry_well_formed(reg) ==> departed(reg, identity, key) == reg.remove(key),
        registry_well_formed(reg) ==> registry_well_formed(departed(reg, identity, key)),
        registry_seated(reg) ==> registry_seated(departed(reg, identity, key)),
{
    if registry_seated(reg) {
        assert(reg[key].seated());
    }
    if registry_well_formed(reg) || registry_seated(reg) {
        assert(reg[key].well_formed());
        assert(reg[key].without(identity).players.dom() =~= reg[key].players.dom().remove(
            identity,
        ));
    }
}

/// A shot never raises a heart count in any duel. It leaves every duel but
/// the one shot at as it is, and in that one it lowers one side's count, by
/// at most one and not below zero, and leaves the other side's count.
pub proof fn lemma_shot_applied_is_monotonic(
    reg: RegistryView,
    id: MatchIdentifier,
    shooter: u64,
    shooter_number: usize,
)
    ensures
        shot_applied(reg, id, shooter, shooter_number).dom() == reg.dom(),
        forall|k: u128|
            #![trigger shot_applied(reg, id, shooter, shooter_number)[k]]
            reg.contains_key(k) && k != id.0 ==> shot_applied(reg, id, shooter, shooter_number)[k]
                == reg[k],
        reg.contains_key(id.0) ==> {
            let before = reg[id.0];
            let after = shot_applied(reg, id, shooter, shooter_number)[id.0];
            &&& after.player_1_hearts <= before.player_1_hearts
            &&& after.player_2_hearts <= before.player_2_hearts
            &&& before.player_1_hearts + before.player_2_hearts <= after.player_1_hearts
                + after.player_2_hearts + 1
            &&& after.player_1_hearts == before.player_1_hearts || after.player_2_hearts
                == before.player_2_hearts
            &&& after.players == before.players
        },
{
    if shot_accepted(reg, id, shooter, shooter_number) {
        assert(reg.contains_key(id.0));
        assert(reg.insert(id.0, reg[id.0].shot(shooter_number)).dom() =~= reg.dom());
    }
}

/// Taking a client out twice in a row does nothing the second time: a client
/// that took part in one duel only takes part in none after it has left.
pub proof fn lemma_departure_is_idempotent(reg: RegistryView, identity: u64, key: u128)
    requires
        registry_well_formed(reg),
        only_duel(reg, identity, key),
    ensures
        !departed(reg, identity, key).contains_key(key),
        !participates_anywhere(departed(reg, identity, key), identity),
{
    lemma_departure_keeps_well_formed(reg, identity, key);
    let after = departed(reg, identity, key);
    assert forall|k: u128| !participates(after, identity, k) by {
        if k != key {
            assert(!participates(reg, identity, k));
        }
    }
}

} // verus!
