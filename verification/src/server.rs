//! The server's decisions: what one client message does to the registry and
//! which messages go out in answer, for one message and for all messages of
//! one tick.
//!
//! The transport is not here. A caller drains its connections into a list of
//! [`Inbound`] values, hands the list over once per tick, and sends what
//! comes back.
//!
//! A duel is decided by the shot that takes a heart count to zero while both
//! players still had hearts. Its game over goes out at the end of the tick
//! of that shot, with the winner as the hearts stand then: where later shots
//! of the same tick have taken the other count to zero too, it is a draw.

use crate::match_id::MatchIdentifier;
use crate::player::opponent_of;
use crate::protocol::{ChannelId, ClientMessage, ClientMessageView, ServerChannel, ServerMessage,
    ServerMessageView};
use crate::registry::{
    created, departed, join_error_text, join_result, joined, only_duel, participates,
    participates_anywhere, registry_seated, registry_well_formed, remaining_without,
    shot_accepted, shot_applied, standing_winner, Matches, RegistryView,
};
use vstd::prelude::*;

verus! {

/// Who is to receive a message.
#[derive(Clone, Copy, Debug, PartialEq, Eq, Structural)]
pub enum Recipient {
    /// One client.
    Client(u64),
    /// Every participant of a duel.
    Participants(MatchIdentifier),
}

/// A message from a client, with the channel on which it came.
#[derive(Clone, Debug)]
pub struct Inbound {
    pub client_id: u64,
    pub channel_id: ChannelId,
    pub message: ClientMessage,
}

/// A message to send, with its recipient and channel.
#[derive(Clone, Debug)]
pub struct Outbound {
    pub recipient: Recipient,
    pub channel: ServerChannel,
    pub message: ServerMessage,
}

pub struct InboundView {
    pub client_id: u64,
    pub channel_id: ChannelId,
    pub message: ClientMessageView,
}

pub struct OutboundView {
    pub recipient: Recipient,
    pub channel: ServerChannel,
    pub message: ServerMessageView,
}

impl View for Inbound {
    type V = InboundView;

    open spec fn view(&self) -> InboundView {
        InboundView {
            client_id: self.client_id,
            channel_id: self.channel_id,
            message: self.message@,
        }
    }
}

impl View for Outbound {
    type V = OutboundView;

    open spec fn view(&self) -> OutboundView {
        OutboundView { recipient: self.recipient, channel: self.channel, message: self.message@ }
    }
}

/// The messages of a list, each by its view.
pub open spec fn inbound_views(list: Seq<Inbound>) -> Seq<InboundView> {
    list.map_values(|m: Inbound| m@)
}

/// The messages of a list, each by its view.
pub open spec fn outbound_views(list: Seq<Outbound>) -> Seq<OutboundView> {
    list.map_values(|m: Outbound| m@)
}

// ---------------------------------------------------------------------------
// One message, on the model
// ---------------------------------------------------------------------------

/// `message`, on its own channel, to one client.
pub open spec fn to_client(client: u64, message: ServerMessageView) -> OutboundView {
    OutboundView { recipient: Recipient::Client(client), channel: message.channel(), message }
}

/// `message`, on its own channel, to every participant of the duel `id`.
pub open spec fn to_participants(id: MatchIdentifier, message: ServerMessageView) -> OutboundView {
    OutboundView { recipient: Recipient::Participants(id), channel: message.channel(), message }
}

/// The registry after one client message. A message on a channel other than
/// its own changes nothing.
pub open spec fn handled(reg: RegistryView, inbound: InboundView) -> RegistryView {
    match inbound.message {
        ClientMessageView::CreateMatchRequest { match_id, player_wallet } => {
            if inbound.channel_id == 0 {
                created(reg, match_id, inbound.client_id, player_wallet)
            } else {
                reg
            }
        },
        ClientMessageView::JoinMatchRequest { match_id, player_wallet } => {
            if inbound.channel_id == 0 {
                joined(reg, match_id, inbound.client_id, player_wallet)
            } else {
                reg
            }
        },
        ClientMessageView::ShootingCommand { match_id, player_number } => {
            if inbound.channel_id == 1 {
                shot_applied(reg, match_id, inbound.client_id, player_number)
            } else {
                reg
            }
        },
    }
}

/// The answers to a request to open a duel: the slot, then the count update,
/// both to the requester.
pub open spec fn create_replies(client: u64, match_id: MatchIdentifier) -> Seq<OutboundView> {
    seq![
        to_client(client, ServerMessageView::MatchCreated { match_id, player_number: 1 }),
        to_client(client, ServerMessageView::PlayerCountingUpdate { match_id }),
    ]
}

/// The answers to a request to join: the reason, where the join is refused;
/// else the slot and the count update to the requester and, where the duel
/// is full now, the ready notice to its participants.
pub open spec fn join_replies(reg: RegistryView, client: u64, match_id: MatchIdentifier, wallet: Seq<char>) -> Seq<
    OutboundView,
> {
    match join_result(reg, match_id) {
        Err(error) => seq![
            to_client(
                client,
                ServerMessageView::MatchJoinError { error_message: join_error_text(error) },
            ),
        ],
        Ok(player_number) => {
            let accepted = seq![
                to_client(client, ServerMessageView::JoinedMatch { match_id, player_number }),
                to_client(client, ServerMessageView::PlayerCountingUpdate { match_id }),
            ];
            if joined(reg, match_id, client, wallet)[match_id.0].is_full() {
                accepted.push(
                    to_participants(
                        match_id,
                        ServerMessageView::IsGameReadyToStart { match_id, is_ready: true },
                    ),
                )
            } else {
                accepted
            }
        },
    }
}

/// The answers to a shot: the new hearts, then the shot itself, both to the
/// participants; nothing where the shot is not accepted.
pub open spec fn shot_replies(
    reg: RegistryView,
    client: u64,
    match_id: MatchIdentifier,
    player_number: usize,
) -> Seq<OutboundView> {
    if shot_accepted(reg, match_id, client, player_number) {
        let after = reg[match_id.0].shot(player_number);
        seq![
            to_participants(
                match_id,
                ServerMessageView::UpdateHeartsStatus {
                    match_id,
                    who_is_hit: opponent_of(player_number),
                    player_1_hearts: after.player_1_hearts as usize,
                    player_2_hearts: after.player_2_hearts as usize,
                },
            ),
            to_participants(match_id, ServerMessageView::ShootingCommand { match_id, player_number }),
        ]
    } else {
        Seq::empty()
    }
}

/// The answers to one client message. A message on a channel other than its
/// own gets none.
pub open spec fn replies(reg: RegistryView, inbound: InboundView) -> Seq<OutboundView> {
    match inbound.message {
        ClientMessageView::CreateMatchRequest { match_id, player_wallet } => {
            if inbound.channel_id == 0 {
                create_replies(inbound.client_id, match_id)
            } else {
                Seq::empty()
            }
        },
        ClientMessageView::JoinMatchRequest { match_id, player_wallet } => {
            if inbound.channel_id == 0 {
                join_replies(reg, inbound.client_id, match_id, player_wallet)
            } else {
                Seq::empty()
            }
        },
        ClientMessageView::ShootingCommand { match_id, player_number } => {
            if inbound.channel_id == 1 {
                shot_replies(reg, inbound.client_id, match_id, player_number)
            } else {
                Seq::empty()
            }
        },
    }
}

/// The message is a join, on the lobby channel, by a client that takes part
/// in the duel already.
pub open spec fn joins_again(reg: RegistryView, inbound: InboundView) -> bool {
    &&& inbound.channel_id == 0
    &&& inbound.message matches ClientMessageView::JoinMatchRequest { match_id, player_wallet }
    &&& participates(reg, inbound.client_id, match_id.0)
}

/// The duel that a message decides: the one named by a shooting command
/// that is accepted and takes a heart count to zero while both players had
/// hearts.
pub open spec fn decides(reg: RegistryView, inbound: InboundView) -> Option<MatchIdentifier> {
    match inbound.message {
        ClientMessageView::ShootingCommand { match_id, player_number } => {
            if inbound.channel_id == 1 && shot_accepted(
                reg,
                match_id,
                inbound.client_id,
                player_number,
            ) && reg[match_id.0].game_over_of_shot(player_number) is Some {
                Some(match_id)
            } else {
                None
            }
        },
        _ => None,
    }
}

// ---------------------------------------------------------------------------
// One tick, on the model
// ---------------------------------------------------------------------------

/// The registry after the messages of `inbound`, one after the other.
pub open spec fn processed(reg: RegistryView, inbound: Seq<InboundView>) -> RegistryView
    decreases inbound.len(),
{
    if inbound.len() == 0 {
        reg
    } else {
        handled(processed(reg, inbound.drop_last()), inbound.last())
    }
}

/// The answers to the messages of `inbound`, in their order.
pub open spec fn all_replies(reg: RegistryView, inbound: Seq<InboundView>) -> Seq<OutboundView>
    decreases inbound.len(),
{
    if inbound.len() == 0 {
        Seq::empty()
    } else {
        all_replies(reg, inbound.drop_last()) + replies(
            processed(reg, inbound.drop_last()),
            inbound.last(),
        )
    }
}

/// No message of the list is a join by a client that takes part in the duel
/// already, as the registry stands when the message is handled.
pub open spec fn nobody_joins_again(reg: RegistryView, inbound: Seq<InboundView>) -> bool {
    forall|i: int|
        0 <= i < inbound.len() ==> !joins_again(
            processed(reg, inbound.take(i)),
            #[trigger] inbound[i],
        )
}

/// The duels that the messages of `inbound` decide, in the order in which
/// they are decided, each once.
pub open spec fn duels_decided(reg: RegistryView, inbound: Seq<InboundView>) -> Seq<
    MatchIdentifier,
>
    decreases inbound.len(),
{
    if inbound.len() == 0 {
        Seq::empty()
    } else {
        let before = duels_decided(reg, inbound.drop_last());
        match decides(processed(reg, inbound.drop_last()), inbound.last()) {
            Some(id) => if before.contains(id) {
                before
            } else {
                before.push(id)
            },
            None => before,
        }
    }
}

/// The game over to the participants of the duel `id`, with the winner as
/// the hearts stand; nothing while both players have hearts, or where there
/// is no such duel.
pub open spec fn announcement(reg: RegistryView, id: MatchIdentifier) -> Seq<OutboundView> {
    match standing_winner(reg, id) {
        Some(winner) => seq![
            to_participants(id, ServerMessageView::GameOver { match_id: id, winner }),
        ],
        None => Seq::empty(),
    }
}

/// The game overs of the duels of `ids`, in their order.
pub open spec fn announcements(reg: RegistryView, ids: Seq<MatchIdentifier>) -> Seq<OutboundView>
    decreases ids.len(),
{
    if ids.len() == 0 {
        Seq::empty()
    } else {
        announcements(reg, ids.drop_last()) + announcement(reg, ids.last())
    }
}

/// The registry after one tick: the messages applied in their order.
pub open spec fn after_tick(reg: RegistryView, inbound: Seq<InboundView>) -> RegistryView {
    processed(reg, inbound)
}

/// What goes out in one tick: the answers to the messages in their order,
/// then the game over of every duel that was decided in the tick, with the
/// winner as the hearts stand at its end.
pub open spec fn sent_in_tick(reg: RegistryView, inbound: Seq<InboundView>) -> Seq<OutboundView> {
    all_replies(reg, inbound) + announcements(
        processed(reg, inbound),
        duels_decided(reg, inbound),
    )
}

// ---------------------------------------------------------------------------
// The handlers
// ---------------------------------------------------------------------------

/// `message` to one client, on the message's own channel.
fn send_to(client: u64, message: ServerMessage) -> (out: Outbound)
    ensures
        out@ == to_client(client, message@),
{
    let channel = message.channel();
    Outbound { recipient: Recipient::Client(client), channel, message }
}

/// `message` to the participants of a duel, on the message's own channel.
fn broadcast_to(id: MatchIdentifier, message: ServerMessage) -> (out: Outbound)
    ensures
        out@ == to_participants(id, message@),
{
    let channel = message.channel();
    Outbound { recipient: Recipient::Participants(id), channel, message }
}

/// What handling one message gave.
#[derive(Debug)]
pub struct Handled {
    /// The answers to the message.
    pub replies: Vec<Outbound>,
    /// The duel that the message has decided, if it has decided one.
    pub decided: Option<MatchIdentifier>,
}

/// Applies one client message to the registry and returns the answers to it,
/// and the duel that it has decided.
///
/// A request to open or join a duel counts on the lobby channel only, a
/// shooting command on the shooting channel only; a shooting command for a
/// duel that does not exist, or from a client that takes no part in it, is
/// dropped. No game over is among the answers: see [`announce_game_over`].
pub fn handle_message(matches: &mut Matches, inbound: &Inbound) -> (handled_now: Handled)
    ensures
        final(matches)@ == handled(old(matches)@, inbound@),
        outbound_views(handled_now.replies@) == replies(old(matches)@, inbound@),
        handled_now.decided == decides(old(matches)@, inbound@),
        registry_well_formed(old(matches)@) ==> registry_well_formed(final(matches)@),
        registry_seated(old(matches)@) && !joins_again(old(matches)@, inbound@)
            ==> registry_seated(final(matches)@),
{
    let mut out: Vec<Outbound> = Vec::new();
    let mut decided: Option<MatchIdentifier> = None;
    let client = inbound.client_id;
    match &inbound.message {
        ClientMessage::CreateMatchRequest { match_id, player_wallet } => {
            if inbound.channel_id == 0 {
                let player_number = matches.create(*match_id, client, player_wallet.clone());
                out.push(
                    send_to(
                        client,
                        ServerMessage::MatchCreated { match_id: *match_id, player_number },
                    ),
                );
                out.push(
                    send_to(client, ServerMessage::PlayerCountingUpdate { match_id: *match_id }),
                );
            }
        },
        ClientMessage::JoinMatchRequest { match_id, player_wallet } => {
            if inbound.channel_id == 0 {
                match matches.join(*match_id, client, player_wallet.clone()) {
                    Ok(player_number) => {
                        out.push(
                            send_to(
                                client,
                                ServerMessage::JoinedMatch { match_id: *match_id, player_number },
                            ),
                        );
                        out.push(
                            send_to(
                                client,
                                ServerMessage::PlayerCountingUpdate { match_id: *match_id },
                            ),
                        );
                        let full = matches.is_full(*match_id);
                        if full == Some(true) {
                            out.push(
                                broadcast_to(
                                    *match_id,
                                    ServerMessage::IsGameReadyToStart {
                                        match_id: *match_id,
                                        is_ready: true,
                                    },
                                ),
                            );
                        }
                    },
                    Err(error) => {
                        out.push(
                            send_to(
                                client,
                                ServerMessage::MatchJoinError { error_message: error.message() },
                            ),
                        );
                    },
                }
            }
        },
        ClientMessage::ShootingCommand { match_id, player_number } => {
            if inbound.channel_id == 1 {
                match matches.resolve_shoot(*match_id, client, *player_number) {
                    Some(outcome) => {
                        out.push(
                            broadcast_to(
                                *match_id,
                                ServerMessage::UpdateHeartsStatus {
                                    match_id: *match_id,
                                    who_is_hit: outcome.who_is_hit,
                                    player_1_hearts: outcome.player_1_hearts,
                                    player_2_hearts: outcome.player_2_hearts,
                                },
                            ),
                        );
                        out.push(
                            broadcast_to(
                                *match_id,
                                ServerMessage::ShootingCommand {
                                    match_id: *match_id,
                                    player_number: *player_number,
                                },
                            ),
                        );
                        if outcome.game_over.is_some() {
                            decided = Some(*match_id);
                        }
                    },
                    None => {},
                }
            }
        },
    }
    assert(outbound_views(out@) =~= replies(old(matches)@, inbound@));
    Handled { replies: out, decided }
}

/// The game over of the duel `match_id` for its participants, with the
/// winner as the hearts stand: the player who has hearts left, or 0, a draw,
/// when neither has. Nothing while both have hearts, or if there is no such
/// duel.
pub fn announce_game_over(matches: &Matches, match_id: MatchIdentifier) -> (out: Vec<Outbound>)
    ensures
        outbound_views(out@) == announcement(matches@, match_id),
{
    let mut out: Vec<Outbound> = Vec::new();
    match matches.winner(match_id) {
        Some(winner) => {
            out.push(broadcast_to(match_id, ServerMessage::GameOver { match_id, winner }));
        },
        None => {},
    }
    assert(outbound_views(out@) =~= announcement(matches@, match_id));
    out
}

/// Whether `id` is in the list.
fn holds(list: &Vec<MatchIdentifier>, id: MatchIdentifier) -> (found: bool)
    ensures
        found == list@.contains(id),
{
    let mut i: usize = 0;
    while i < list.len()
        invariant
            i <= list.len(),
            forall|j: int| 0 <= j < i ==> list@[j] != id,
        decreases list.len() - i,
    {
        if list[i] == id {
            return true;
        }
        i += 1;
    }
    false
}

/// Handles the messages of one tick.
///
/// The messages are applied to the registry in their order and answered as
/// [`handle_message`] says. When all are applied, the game over goes out of
/// every duel that was decided in this tick, with the winner as the hearts
/// stand then: last shots of both players in one tick make a draw. A duel is
/// decided once, so its game over goes out once; a message that is dropped
/// decides nothing.
pub fn handle_client_messages(matches: &mut Matches, inbound: &Vec<Inbound>) -> (out: Vec<Outbound>)
    ensures
        final(matches)@ == after_tick(old(matches)@, inbound_views(inbound@)),
        outbound_views(out@) == sent_in_tick(old(matches)@, inbound_views(inbound@)),
        registry_well_formed(old(matches)@) ==> registry_well_formed(final(matches)@),
        registry_seated(old(matches)@) && nobody_joins_again(
            old(matches)@,
            inbound_views(inbound@),
        ) ==> registry_seated(final(matches)@),
{
    let ghost start = matches@;
    let ghost messages = inbound_views(inbound@);
    let mut out: Vec<Outbound> = Vec::new();
    let mut decided: Vec<MatchIdentifier> = Vec::new();
    let mut i: usize = 0;
    assert(messages.take(0) =~= Seq::<InboundView>::empty());
    assert(outbound_views(out@) =~= Seq::<OutboundView>::empty());
    while i < inbound.len()
        invariant
            i <= inbound.len(),
            messages == inbound_views(inbound@),
            matches@ == processed(start, messages.take(i as int)),
            outbound_views(out@) == all_replies(start, messages.take(i as int)),
            decided@ == duels_decided(start, messages.take(i as int)),
            registry_well_formed(start) ==> registry_well_formed(matches@),
            registry_seated(start) && nobody_joins_again(start, messages) ==> registry_seated(
                matches@,
            ),
        decreases inbound.len() - i,
    {
        let message = &inbound[i];
        let ghost before = matches@;
        let ghost sent = out@;
        assert(messages[i as int] == message@);
        let handled_now = handle_message(matches, message);
        let mut answers = handled_now.replies;
        match handled_now.decided {
            Some(match_id) => {
                if !holds(&decided, match_id) {
                    decided.push(match_id);
                }
            },
            None => {},
        }
        out.append(&mut answers);
        proof {
            let prefix = messages.take(i as int + 1);
            assert(prefix.drop_last() =~= messages.take(i as int));
            assert(prefix.last() == message@);
            assert(outbound_views(out@) =~= outbound_views(sent) + replies(before, message@));
        }
        i += 1;
    }
    assert(messages.take(i as int) =~= messages);
    let ghost answered = out@;
    let mut j: usize = 0;
    assert(decided@.take(0) =~= Seq::<MatchIdentifier>::empty());
    while j < decided.len()
        invariant
            j <= decided.len(),
            outbound_views(out@) == outbound_views(answered) + announcements(
                matches@,
                decided@.take(j as int),
            ),
        decreases decided.len() - j,
    {
        let ghost sent = out@;
        let mut game_over = announce_game_over(matches, decided[j]);
        out.append(&mut game_over);
        proof {
            let prefix = decided@.take(j as int + 1);
            assert(prefix.drop_last() =~= decided@.take(j as int));
            assert(prefix.last() == decided@[j as int]);
            assert(outbound_views(out@) =~= outbound_views(sent) + announcement(
                matches@,
                decided@[j as int],
            ));
        }
        j += 1;
    }
    assert(decided@.take(j as int) =~= decided@);
    out
}

/// Handles the loss of the connection to `client`: takes the client out of a
/// duel in which it takes part and reports that duel's identifier and the
/// number of participants that remain in it. A duel in which fewer than two
/// remain is deleted. Nothing is reported, and nothing changes, for a client
/// that takes part in no duel. Nothing is sent to the participant who stays
/// behind.
pub fn handle_disconnection(matches: &mut Matches, client: u64) -> (left: Option<
    (MatchIdentifier, usize),
>)
    ensures
        left is Some <==> participates_anywhere(old(matches)@, client),
        left is None ==> final(matches)@ == old(matches)@,
        left matches Some((id, remaining)) ==> {
            &&& participates(old(matches)@, client, id.0)
            &&& remaining == remaining_without(old(matches)@, client, id.0)
            &&& final(matches)@ == departed(old(matches)@, client, id.0)
            &&& remaining < 2 <==> !final(matches)@.contains_key(id.0)
            &&& registry_well_formed(old(matches)@) ==> remaining < 2
                && remaining + 1 == old(matches)@[id.0].players.len()
        },
        forall|key: u128| #[trigger]
            only_duel(old(matches)@, client, key) ==> (left matches Some((id, remaining))
                && id == MatchIdentifier(key)),
        registry_well_formed(old(matches)@) ==> registry_well_formed(final(matches)@),
        registry_seated(old(matches)@) ==> registry_seated(final(matches)@),
{
    let left = matches.remove_participant(client);
    proof {
        match left {
            Some((id, remaining)) => {
                crate::registry::lemma_departure_keeps_well_formed(old(matches)@, client, id.0);
            },
            None => {},
        }
    }
    left
}

// ---------------------------------------------------------------------------
// What holds of every tick
// ---------------------------------------------------------------------------

/// Two shots in one tick, one by each player of a duel in which both have
/// one heart left, end the duel in a draw, and one game over goes out.
pub proof fn lemma_simultaneous_last_shots_draw(
    reg: RegistryView,
    id: MatchIdentifier,
    first: u64,
    second: u64,
)
    requires
        participates_both(reg, id, first, second),
        reg[id.0].player_1_hearts == 1,
        reg[id.0].player_2_hearts == 1,
    ensures
        announcements(
            processed(reg, two_shots(id, first, second)),
            duels_decided(reg, two_shots(id, first, second)),
        ) == seq![to_participants(id, ServerMessageView::GameOver { match_id: id, winner: 0 })],
{
    let shots = two_shots(id, first, second);
    let one = shots.drop_last();
    assert(one.drop_last() =~= Seq::<InboundView>::empty());
    assert(one.last() == shots[0]);
    assert(shots.last() == shots[1]);
    let r0 = processed(reg, one.drop_last());
    assert(r0 == reg);
    let r1 = processed(reg, one);
    assert(r1 == handled(reg, shots[0]));
    let r2 = processed(reg, shots);
    assert(r2 == handled(r1, shots[1]));
    assert(r1[id.0].player_2_hearts == 0 && r1[id.0].player_1_hearts == 1);
    assert(r2[id.0].player_1_hearts == 0 && r2[id.0].player_2_hearts == 0);
    assert(duels_decided(reg, one.drop_last()) =~= Seq::<MatchIdentifier>::empty());
    assert(decides(r0, one.last()) == Some(id));
    assert(duels_decided(reg, one) =~= seq![id]);
    assert(decides(r1, shots.last()) is None);
    let ids = duels_decided(reg, shots);
    assert(ids =~= seq![id]);
    assert(ids.drop_last() =~= Seq::<MatchIdentifier>::empty());
    assert(announcements(r2, ids.drop_last()) =~= Seq::<OutboundView>::empty());
    assert(standing_winner(r2, id) == Some(0usize));
    assert(announcements(r2, ids) =~= seq![
        to_participants(id, ServerMessageView::GameOver { match_id: id, winner: 0 }),
    ]);
}

/// Both clients take part in the duel `id`.
pub open spec fn participates_both(
    reg: RegistryView,
    id: MatchIdentifier,
    first: u64,
    second: u64,
) -> bool {
    participates(reg, first, id.0) && participates(reg, second, id.0)
}

/// A shot by `first` as player 1, then one by `second` as player 2, both on
/// the shooting channel.
pub open spec fn two_shots(id: MatchIdentifier, first: u64, second: u64) -> Seq<InboundView> {
    seq![
        InboundView {
            client_id: first,
            channel_id: 1,
            message: ClientMessageView::ShootingCommand { match_id: id, player_number: 1 },
        },
        InboundView {
            client_id: second,
            channel_id: 1,
            message: ClientMessageView::ShootingCommand { match_id: id, player_number: 2 },
        },
    ]
}

} // verus!
