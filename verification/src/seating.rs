//! At most two participants, and no player number twice.
//!
//! The proofs follow the registry through any sequence of client messages
//! and ticks, starting from any seated registry and so from the empty one.
//! That no duel holds more than two participants holds without condition.
//! That no two participants of a duel hold the same player number holds as
//! long as no client joins a duel in which it takes part already: such a
//! join is accepted and enters the client anew as player 2, whichever slot
//! it held, so that a host who joins its own duel and a guest who joins
//! after it are both player 2.

use crate::match_id::MatchIdentifier;
use crate::protocol::ClientMessageView;
use crate::registry::{
    departed, lemma_create_keeps_invariants, lemma_departure_keeps_well_formed,
    lemma_join_keeps_invariants, lemma_shot_keeps_invariants, participates, registry_seated,
    registry_well_formed, RegistryView,
};
use crate::server::{
    after_tick, handled, joins_again, nobody_joins_again, processed, InboundView,
};
use crate::session::{SessionView, MAX_PLAYERS};
use vstd::prelude::*;

verus! {

/// Every duel of a well-formed registry holds at most two participants, and
/// every duel of a seated one holds no player number twice.
pub proof fn lemma_what_the_invariants_say(reg: RegistryView, id: MatchIdentifier)
    requires
        reg.contains_key(id.0),
    ensures
        registry_well_formed(reg) ==> reg[id.0].players.len() <= MAX_PLAYERS,
        registry_seated(reg) ==> reg[id.0].players.len() <= MAX_PLAYERS && forall|a: u64, b: u64|
            #![trigger reg[id.0].players[a], reg[id.0].players[b]]
            reg[id.0].players.contains_key(a) && reg[id.0].players.contains_key(b) && a != b
                ==> reg[id.0].players[a].player_number != reg[id.0].players[b].player_number,
{
}

/// The empty registry is seated.
pub proof fn lemma_empty_is_seated()
    ensures
        registry_seated(Map::<u128, SessionView>::empty()),
        registry_well_formed(Map::<u128, SessionView>::empty()),
{
}

/// One client message, whatever it is, keeps every duel within two
/// participants; and it keeps every duel seated unless it is a join by a
/// client that takes part in the duel already.
pub proof fn lemma_handled_keeps_seating(reg: RegistryView, inbound: InboundView)
    ensures
        registry_well_formed(reg) ==> registry_well_formed(handled(reg, inbound)),
        registry_seated(reg) && !joins_again(reg, inbound) ==> registry_seated(
            handled(reg, inbound),
        ),
{
    match inbound.message {
        ClientMessageView::CreateMatchRequest { match_id, player_wallet } => {
            lemma_create_keeps_invariants(reg, match_id, inbound.client_id, player_wallet);
        },
        ClientMessageView::JoinMatchRequest { match_id, player_wallet } => {
            lemma_join_keeps_invariants(reg, match_id, inbound.client_id, player_wallet);
        },
        ClientMessageView::ShootingCommand { match_id, player_number } => {
            lemma_shot_keeps_invariants(reg, match_id, inbound.client_id, player_number);
        },
    }
}

/// Any sequence of client messages keeps every duel within two participants;
/// and it keeps every duel seated if nobody joins a duel again.
pub proof fn lemma_processed_keeps_seating(reg: RegistryView, inbound: Seq<InboundView>)
    ensures
        registry_well_formed(reg) ==> registry_well_formed(processed(reg, inbound)),
        registry_seated(reg) && nobody_joins_again(reg, inbound) ==> registry_seated(
            processed(reg, inbound),
        ),
    decreases inbound.len(),
{
    if inbound.len() > 0 {
        let head = inbound.drop_last();
        let last = inbound.len() - 1;
        lemma_processed_keeps_seating(reg, head);
        lemma_handled_keeps_seating(processed(reg, head), inbound.last());
        if registry_seated(reg) && nobody_joins_again(reg, inbound) {
            assert forall|i: int| 0 <= i < head.len() implies !joins_again(
                processed(reg, head.take(i)),
                #[trigger] head[i],
            ) by {
                assert(head.take(i) =~= inbound.take(i));
                assert(head[i] == inbound[i]);
            }
            assert(inbound.take(last) =~= head);
            assert(!joins_again(processed(reg, inbound.take(last)), inbound[last]));
        }
    }
}

/// Every tick, whatever the clients send, keeps every duel within two
/// participants; and it keeps every duel seated if nobody joins a duel
/// again.
pub proof fn lemma_tick_keeps_seating(reg: RegistryView, inbound: Seq<InboundView>)
    ensures
        registry_well_formed(reg) ==> registry_well_formed(after_tick(reg, inbound)),
        registry_well_formed(after_tick(Map::<u128, SessionView>::empty(), inbound)),
        registry_seated(reg) && nobody_joins_again(reg, inbound) ==> registry_seated(
            after_tick(reg, inbound),
        ),
{
    lemma_processed_keeps_seating(reg, inbound);
    lemma_processed_keeps_seating(Map::<u128, SessionView>::empty(), inbound);
}

/// A departure keeps every duel within two participants and keeps every
/// duel seated.
pub proof fn lemma_departure_keeps_seating(reg: RegistryView, identity: u64, key: u128)
    requires
        participates(reg, identity, key),
    ensures
        registry_well_formed(reg) ==> registry_well_formed(departed(reg, identity, key)),
        registry_seated(reg) ==> registry_seated(departed(reg, identity, key)),
{
    lemma_departure_keeps_well_formed(reg, identity, key);
}

} // verus!
