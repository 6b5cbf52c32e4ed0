//! A duel's game over goes out once.
//!
//! A duel is decided when a heart count stands at zero, and hearts never
//! rise. So one shot decides a duel, and none after it. The proofs follow
//! the server through its ticks: within one tick at most one game over names
//! a duel; the tick that sends it leaves the duel decided; and while a duel
//! is decided, or gone, no tick sends a game over for it, unless a client
//! opens a new duel under the same identifier.

use crate::match_id::MatchIdentifier;
use crate::protocol::{ClientMessageView, ServerMessageView};
use crate::registry::{departed, participates, shot_accepted, RegistryView};
use crate::server::{
    after_tick, all_replies, announcement, announcements, decides, duels_decided, handled,
    processed, replies, sent_in_tick, InboundView, OutboundView,
};
use crate::session::SessionView;
use vstd::prelude::*;

verus! {

/// The message is the game over of the duel `id`.
pub open spec fn is_game_over_of(out: OutboundView, id: MatchIdentifier) -> bool {
    out.message matches ServerMessageView::GameOver { match_id, winner } && match_id == id
}

/// How many game overs of the duel `id` the list holds.
pub open spec fn game_overs_of(list: Seq<OutboundView>, id: MatchIdentifier) -> nat
    decreases list.len(),
{
    if list.len() == 0 {
        0
    } else {
        game_overs_of(list.drop_last(), id) + if is_game_over_of(list.last(), id) {
            1nat
        } else {
            0nat
        }
    }
}

/// No game over is due for the duel `id`: it is decided, or there is no such
/// duel.
pub open spec fn closed(reg: RegistryView, id: MatchIdentifier) -> bool {
    reg.contains_key(id.0) ==> reg[id.0].decided()
}

/// The message opens a duel under `id`.
pub open spec fn opens(inbound: InboundView, id: MatchIdentifier) -> bool {
    &&& inbound.channel_id == 0
    &&& inbound.message matches ClientMessageView::CreateMatchRequest { match_id, player_wallet }
    &&& match_id == id
}

/// No message of the list opens a duel under `id`.
pub open spec fn none_opens(inbound: Seq<InboundView>, id: MatchIdentifier) -> bool {
    forall|i: int| 0 <= i < inbound.len() ==> !opens(#[trigger] inbound[i], id)
}

/// Counting over two lists, one after the other, adds up.
pub proof fn lemma_game_overs_add(a: Seq<OutboundView>, b: Seq<OutboundView>, id: MatchIdentifier)
    ensures
        game_overs_of(a + b, id) == game_overs_of(a, id) + game_overs_of(b, id),
    decreases b.len(),
{
    if b.len() == 0 {
        assert(a + b =~= a);
    } else {
        assert((a + b).drop_last() =~= a + b.drop_last());
        assert((a + b).last() == b.last());
        lemma_game_overs_add(a, b.drop_last(), id);
    }
}

/// A list without a game over of `id` counts none.
pub proof fn lemma_none_counts_zero(list: Seq<OutboundView>, id: MatchIdentifier)
    requires
        forall|i: int| 0 <= i < list.len() ==> !is_game_over_of(#[trigger] list[i], id),
    ensures
        game_overs_of(list, id) == 0,
    decreases list.len(),
{
    if list.len() > 0 {
        let head = list.drop_last();
        assert forall|i: int| 0 <= i < head.len() implies !is_game_over_of(
            #[trigger] head[i],
            id,
        ) by {
            assert(head[i] == list[i]);
        }
        lemma_none_counts_zero(head, id);
    }
}

/// The answers to a client message hold no game over.
pub proof fn lemma_replies_hold_no_game_over(
    reg: RegistryView,
    inbound: InboundView,
    id: MatchIdentifier,
)
    ensures
        game_overs_of(replies(reg, inbound), id) == 0,
{
    let list = replies(reg, inbound);
    assert forall|i: int| 0 <= i < list.len() implies !is_game_over_of(#[trigger] list[i], id) by {}
    lemma_none_counts_zero(list, id);
}

/// The answers to all messages of a tick hold no game over.
pub proof fn lemma_all_replies_hold_no_game_over(
    reg: RegistryView,
    inbound: Seq<InboundView>,
    id: MatchIdentifier,
)
    ensures
        game_overs_of(all_replies(reg, inbound), id) == 0,
    decreases inbound.len(),
{
    if inbound.len() > 0 {
        lemma_all_replies_hold_no_game_over(reg, inbound.drop_last(), id);
        lemma_replies_hold_no_game_over(processed(reg, inbound.drop_last()), inbound.last(), id);
        lemma_game_overs_add(
            all_replies(reg, inbound.drop_last()),
            replies(processed(reg, inbound.drop_last()), inbound.last()),
            id,
        );
    }
}

/// A message that decides a duel leaves it decided; and a closed duel stays
/// closed, and is not decided again, under every client message that does
/// not open a duel under its identifier.
pub proof fn lemma_handled_keeps_closed(reg: RegistryView, inbound: InboundView, id: MatchIdentifier)
    ensures
        decides(reg, inbound) == Some(id) ==> handled(reg, inbound).contains_key(id.0) && handled(
            reg,
            inbound,
        )[id.0].decided() && !closed(reg, id),
        closed(reg, id) && !opens(inbound, id) ==> closed(handled(reg, inbound), id),
{
}

/// A closed duel stays closed through the messages of a tick, none of which
/// opens a duel under its identifier, and none of them decides it.
pub proof fn lemma_processed_keeps_closed(
    reg: RegistryView,
    inbound: Seq<InboundView>,
    id: MatchIdentifier,
)
    requires
        closed(reg, id),
        none_opens(inbound, id),
    ensures
        closed(processed(reg, inbound), id),
        !duels_decided(reg, inbound).contains(id),
    decreases inbound.len(),
{
    if inbound.len() > 0 {
        let head = inbound.drop_last();
        assert forall|i: int| 0 <= i < head.len() implies !opens(#[trigger] head[i], id) by {
            assert(head[i] == inbound[i]);
        }
        lemma_processed_keeps_closed(reg, head, id);
        assert(inbound.last() == inbound[inbound.len() - 1]);
        lemma_handled_keeps_closed(processed(reg, head), inbound.last(), id);
        let before = duels_decided(reg, head);
        match decides(processed(reg, head), inbound.last()) {
            Some(other) => {
                assert(other != id);
                if !before.contains(other) {
                    assert forall|i: int| 0 <= i < before.push(other).len() implies before.push(
                        other,
                    )[i] != id by {
                        if i < before.len() {
                            assert(before.contains(before[i]));
                        }
                    }
                }
            },
            None => {},
        }
    }
}

/// The list of the duels that a tick decides names no duel twice.
pub proof fn lemma_each_duel_is_decided_once(reg: RegistryView, inbound: Seq<InboundView>)
    ensures
        duels_decided(reg, inbound).no_duplicates(),
    decreases inbound.len(),
{
    if inbound.len() > 0 {
        lemma_each_duel_is_decided_once(reg, inbound.drop_last());
    }
}

/// A game over that goes out names a duel that is decided.
pub proof fn lemma_announcement_counts(reg: RegistryView, other: MatchIdentifier, id: MatchIdentifier)
    ensures
        game_overs_of(announcement(reg, other), id) <= 1,
        other != id ==> game_overs_of(announcement(reg, other), id) == 0,
        game_overs_of(announcement(reg, other), id) == 1 ==> reg.contains_key(id.0)
            && reg[id.0].decided(),
{
    let list = announcement(reg, other);
    if list.len() > 0 {
        assert(list.len() == 1);
        assert(list.drop_last() =~= Seq::<OutboundView>::empty());
        assert(game_overs_of(list.drop_last(), id) == 0);
    }
}

/// The game overs of a list of duels that names no duel twice: at most one
/// for the duel `id`, none if the list does not name it, and if one, the
/// duel is decided.
pub proof fn lemma_announcements_count(
    reg: RegistryView,
    ids: Seq<MatchIdentifier>,
    id: MatchIdentifier,
)
    requires
        ids.no_duplicates(),
    ensures
        game_overs_of(announcements(reg, ids), id) <= 1,
        !ids.contains(id) ==> game_overs_of(announcements(reg, ids), id) == 0,
        game_overs_of(announcements(reg, ids), id) == 1 ==> reg.contains_key(id.0)
            && reg[id.0].decided(),
    decreases ids.len(),
{
    if ids.len() > 0 {
        let head = ids.drop_last();
        assert forall|i: int, j: int| 0 <= i < head.len() && 0 <= j < head.len() && i
            != j implies head[i] != head[j] by {
            assert(head[i] == ids[i] && head[j] == ids[j]);
        }
        lemma_announcements_count(reg, head, id);
        lemma_announcement_counts(reg, ids.last(), id);
        lemma_game_overs_add(announcements(reg, head), announcement(reg, ids.last()), id);
        if ids.last() == id {
            if head.contains(id) {
                let i = choose|i: int| 0 <= i < head.len() && head[i] == id;
                assert(ids[i] == ids[ids.len() - 1]);
            }
        } else if !ids.contains(id) {
            if head.contains(id) {
                let i = choose|i: int| 0 <= i < head.len() && head[i] == id;
                assert(ids[i] == id);
            }
        }
    }
}

/// In one tick at most one game over goes out for a duel, and a tick that
/// sends one leaves the duel decided.
pub proof fn lemma_one_game_over_in_a_tick(
    reg: RegistryView,
    inbound: Seq<InboundView>,
    id: MatchIdentifier,
)
    ensures
        game_overs_of(sent_in_tick(reg, inbound), id) <= 1,
        game_overs_of(sent_in_tick(reg, inbound), id) == 1 ==> after_tick(
            reg,
            inbound,
        ).contains_key(id.0) && after_tick(reg, inbound)[id.0].decided(),
{
    let applied = processed(reg, inbound);
    let ids = duels_decided(reg, inbound);
    lemma_each_duel_is_decided_once(reg, inbound);
    lemma_all_replies_hold_no_game_over(reg, inbound, id);
    lemma_announcements_count(applied, ids, id);
    lemma_game_overs_add(all_replies(reg, inbound), announcements(applied, ids), id);
}

/// While a duel is decided, or gone, a tick sends no game over for it and
/// leaves it so, unless one of the tick's messages opens a duel under the
/// same identifier.
pub proof fn lemma_no_game_over_after_the_first(
    reg: RegistryView,
    inbound: Seq<InboundView>,
    id: MatchIdentifier,
)
    requires
        closed(reg, id),
        none_opens(inbound, id),
    ensures
        game_overs_of(sent_in_tick(reg, inbound), id) == 0,
        closed(after_tick(reg, inbound), id),
{
    let applied = processed(reg, inbound);
    let ids = duels_decided(reg, inbound);
    lemma_processed_keeps_closed(reg, inbound, id);
    lemma_each_duel_is_decided_once(reg, inbound);
    lemma_all_replies_hold_no_game_over(reg, inbound, id);
    lemma_announcements_count(applied, ids, id);
    lemma_game_overs_add(all_replies(reg, inbound), announcements(applied, ids), id);
}

/// A tick of one accepted shot at the duel `id` sends the duel's game over
/// exactly if the shot decides the duel: both players had hearts before it,
/// and one has none after it.
pub proof fn lemma_the_deciding_shot_sends_the_game_over(
    reg: RegistryView,
    shot: InboundView,
    id: MatchIdentifier,
    shooter_number: usize,
)
    requires
        shot.channel_id == 1,
        shot.message == (ClientMessageView::ShootingCommand {
            match_id: id,
            player_number: shooter_number,
        }),
        shot_accepted(reg, id, shot.client_id, shooter_number),
    ensures
        after_tick(reg, seq![shot])[id.0] == reg[id.0].shot(shooter_number),
        game_overs_of(sent_in_tick(reg, seq![shot]), id) == if !reg[id.0].decided()
            && reg[id.0].shot(shooter_number).decided() {
            1nat
        } else {
            0nat
        },
{
    let tick = seq![shot];
    assert(tick.drop_last() =~= Seq::<InboundView>::empty());
    assert(tick.last() == shot);
    let applied = processed(reg, tick);
    assert(processed(reg, tick.drop_last()) == reg);
    assert(applied == handled(reg, shot));
    let ids = duels_decided(reg, tick);
    assert(duels_decided(reg, tick.drop_last()) =~= Seq::<MatchIdentifier>::empty());
    lemma_all_replies_hold_no_game_over(reg, tick, id);
    lemma_game_overs_add(all_replies(reg, tick), announcements(applied, ids), id);
    if decides(reg, shot) is Some {
        assert(ids =~= seq![id]);
        assert(ids.drop_last() =~= Seq::<MatchIdentifier>::empty());
        assert(announcements(applied, ids.drop_last()) =~= Seq::<OutboundView>::empty());
        let list = announcement(applied, id);
        assert(announcements(applied, ids) =~= list);
        assert(list.len() == 1);
        assert(list.drop_last() =~= Seq::<OutboundView>::empty());
        assert(game_overs_of(list.drop_last(), id) == 0);
    } else {
        assert(ids =~= Seq::<MatchIdentifier>::empty());
    }
}

/// The duel after the shots of `shooters`, one after the other.
pub open spec fn played(s: SessionView, shooters: Seq<usize>) -> SessionView
    decreases shooters.len(),
{
    if shooters.len() == 0 {
        s
    } else {
        played(s, shooters.drop_last()).shot(shooters.last())
    }
}

/// How many of the shots of `shooters`, one after the other, yield a game
/// over.
pub open spec fn game_overs_yielded(s: SessionView, shooters: Seq<usize>) -> nat
    decreases shooters.len(),
{
    if shooters.len() == 0 {
        0
    } else {
        game_overs_yielded(s, shooters.drop_last()) + if played(
            s,
            shooters.drop_last(),
        ).game_over_of_shot(shooters.last()) is Some {
            1nat
        } else {
            0nat
        }
    }
}

/// Of any shots at a duel, at most one yields a game over: the first that
/// takes a heart count to zero. The duel is decided from there on, and no
/// later shot yields one. No shot at a duel that is decided yields one.
pub proof fn lemma_one_shot_yields_the_game_over(s: SessionView, shooters: Seq<usize>)
    ensures
        game_overs_yielded(s, shooters) <= 1,
        game_overs_yielded(s, shooters) == 1 ==> played(s, shooters).decided(),
        s.decided() ==> game_overs_yielded(s, shooters) == 0 && played(s, shooters).decided(),
        !played(s, shooters).decided() ==> game_overs_yielded(s, shooters) == 0,
        !s.decided() && played(s, shooters).decided() ==> game_overs_yielded(s, shooters) == 1,
    decreases shooters.len(),
{
    if shooters.len() > 0 {
        lemma_one_shot_yields_the_game_over(s, shooters.drop_last());
    }
}

/// A departure leaves a closed duel closed.
pub proof fn lemma_departure_keeps_closed(
    reg: RegistryView,
    identity: u64,
    key: u128,
    id: MatchIdentifier,
)
    requires
        closed(reg, id),
        participates(reg, identity, key),
    ensures
        closed(departed(reg, identity, key), id),
{
}

} // verus!
