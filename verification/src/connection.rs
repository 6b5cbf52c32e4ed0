//! The client's protocol driver: what a message from the server does to the
//! client's mirror of its duel, and which local events follow from it.

use crate::lobby::{CountdownStep, GameStartTimer, MatchNotFoundError, GAME_START_DELAY};
use crate::match_id::MatchIdentifier;
use crate::menu::GameState;
use crate::outcome::WhoIsWinner;
use crate::player::{
    opponent, opponent_of, PlayerHertsStatus, PlayerHit, PlayerSelection, PlayersCounting,
    ShootingLock, NO_PLAYER, STARTING_HEARTS,
};
use crate::protocol::{ChannelId, ServerMessage, ServerMessageView};
use crate::shooting::{ResetKeysEvent, ShootingEvent, ShootingStates};
use vstd::prelude::*;

verus! {

/// Whether the client has a connection to the server.
#[derive(Clone, Copy, Debug, PartialEq, Eq, Hash, Structural)]
pub enum ConnectionState {
    Idle,
    Connected,
}

impl Default for ConnectionState {
    fn default() -> (state: ConnectionState)
        ensures
            state == ConnectionState::Idle,
    {
        ConnectionState::Idle
    }
}

/// Whether a connection was opened already.
#[derive(Clone, Copy, Debug, PartialEq, Eq, Structural)]
pub struct IsConnected(pub bool);

impl Default for IsConnected {
    fn default() -> (connected: IsConnected)
        ensures
            !connected.0,
    {
        IsConnected(false)
    }
}

impl IsConnected {
    pub fn reset(&mut self)
        ensures
            !final(self).0,
    {
        self.0 = false;
    }
}

/// Forgets the connection.
pub fn disconnect(is_connected: &mut IsConnected)
    ensures
        !final(is_connected).0,
{
    is_connected.reset();
}

/// Says whether a connection is to be opened now, and notes that one is
/// open: a client opens its connection once.
pub fn open_connection(is_connected: &mut IsConnected) -> (open_now: bool)
    ensures
        open_now == !old(is_connected).0,
        final(is_connected).0,
{
    if is_connected.0 {
        return false;
    }
    is_connected.0 = true;
    true
}

/// The state of a client that is connected.
pub fn to_connection_state() -> (state: ConnectionState)
    ensures
        state == ConnectionState::Connected,
{
    ConnectionState::Connected
}

/// Disarms the countdown to the start and winds it back.
pub fn reset_game_started_timer(game_start_timer: &mut GameStartTimer)
    ensures
        !final(game_start_timer).active,
        final(game_start_timer).timer.elapsed == 0,
        final(game_start_timer).timer.duration == old(game_start_timer).timer.duration,
{
    game_start_timer.reset();
}

/// A message from the server, with the channel on which it came.
#[derive(Clone, Debug)]
pub struct Received {
    pub channel_id: ChannelId,
    pub message: ServerMessage,
}

pub struct ReceivedView {
    pub channel_id: ChannelId,
    pub message: ServerMessageView,
}

impl View for Received {
    type V = ReceivedView;

    open spec fn view(&self) -> ReceivedView {
        ReceivedView { channel_id: self.channel_id, message: self.message@ }
    }
}

/// What follows on the client from a message of the server.
#[derive(Clone, Debug)]
pub enum ClientEvent {
    /// A player has shot.
    Shooting(ShootingEvent),
    /// A player was hit.
    Hit(PlayerHit),
    /// The client's own shot has come back: a new key sequence is due.
    ResetKeys(ResetKeysEvent),
    /// The server refused the join.
    JoinFailed(MatchNotFoundError),
    /// The countdown to the start was armed.
    CountdownArmed,
    /// The duel has ended; the client shows its end screen.
    GameOver { winner: usize },
}

/// A client event with its text as a sequence of characters.
pub enum ClientEventView {
    Shooting { player: usize },
    Hit { player: usize },
    ResetKeys,
    JoinFailed { message: Seq<char> },
    CountdownArmed,
    GameOver { winner: usize },
}

impl View for ClientEvent {
    type V = ClientEventView;

    open spec fn view(&self) -> ClientEventView {
        match *self {
            ClientEvent::Shooting(event) => ClientEventView::Shooting { player: event.player },
            ClientEvent::Hit(hit) => ClientEventView::Hit { player: hit.0 },
            ClientEvent::ResetKeys(_) => ClientEventView::ResetKeys,
            ClientEvent::JoinFailed(error) => ClientEventView::JoinFailed { message: error.0@ },
            ClientEvent::CountdownArmed => ClientEventView::CountdownArmed,
            ClientEvent::GameOver { winner } => ClientEventView::GameOver { winner },
        }
    }
}

/// The events of a list, each by its view.
pub open spec fn event_views(list: Seq<ClientEvent>) -> Seq<ClientEventView> {
    list.map_values(|e: ClientEvent| e@)
}

/// The messages of a list, each by its view.
pub open spec fn received_views(list: Seq<Received>) -> Seq<ReceivedView> {
    list.map_values(|m: Received| m@)
}

/// The client's mirror of its duel. It is rebuilt from the server's messages
/// alone; the client computes no hearts and no winner of its own.
#[derive(Clone, Debug)]
pub struct ClientMirror {
    /// The client's slot and the duel it is bound to.
    pub player_selection: PlayerSelection,
    /// The count updates that were taken for this duel.
    pub players_counting: PlayersCounting,
    /// Both players' hearts as the server told them last.
    pub player_hearts_status: PlayerHertsStatus,
    /// The winner, once the server has told it.
    pub who_is_winner: WhoIsWinner,
    /// The countdown to the start.
    pub game_start_timer: GameStartTimer,
    /// The phase of the game.
    pub game_state: GameState,
}

impl ClientMirror {
    /// The message is on `channel` and, where it names a duel, names the one
    /// that the client is bound to.
    pub open spec fn concerns(self, received: ReceivedView, channel: ChannelId, id: MatchIdentifier) -> bool {
        received.channel_id == channel && id == self.player_selection.1
    }

    /// The mirror after a message from the server.
    ///
    /// A slot assignment binds the client to the duel and slot it names. A
    /// count update for the client's duel counts one more player. A ready
    /// notice for the client's duel arms the countdown, unless it runs. New
    /// hearts for the client's duel replace the mirrored ones. A game over
    /// for the client's duel records the winner and ends the game, once.
    /// Every other message, every message on a channel that is not its own,
    /// and every message for another duel leaves the mirror as it is.
    pub open spec fn after_message(self, received: ReceivedView) -> ClientMirror {
        match received.message {
            ServerMessageView::MatchCreated { match_id, player_number } => {
                if received.channel_id == 0 {
                    ClientMirror { player_selection: PlayerSelection(player_number, match_id), ..self }
                } else {
                    self
                }
            },
            ServerMessageView::JoinedMatch { match_id, player_number } => {
                if received.channel_id == 0 {
                    ClientMirror { player_selection: PlayerSelection(player_number, match_id), ..self }
                } else {
                    self
                }
            },
            ServerMessageView::PlayerCountingUpdate { match_id } => {
                if self.concerns(received, 0, match_id) {
                    ClientMirror {
                        players_counting: PlayersCounting((self.players_counting.0 + 1) as usize),
                        ..self
                    }
                } else {
                    self
                }
            },
            ServerMessageView::MatchJoinError { error_message } => self,
            ServerMessageView::IsGameReadyToStart { match_id, is_ready } => {
                if is_ready && self.concerns(received, 0, match_id) {
                    ClientMirror {
                        game_start_timer: GameStartTimer { active: true, ..self.game_start_timer },
                        ..self
                    }
                } else {
                    self
                }
            },
            ServerMessageView::ShootingCommand { match_id, player_number } => self,
            ServerMessageView::UpdateHeartsStatus {
                match_id,
                who_is_hit,
                player_1_hearts,
                player_2_hearts,
            } => {
                if self.concerns(received, 2, match_id) {
                    ClientMirror {
                        player_hearts_status: PlayerHertsStatus { player_1_hearts, player_2_hearts },
                        ..self
                    }
                } else {
                    self
                }
            },
            ServerMessageView::GameOver { match_id, winner } => {
                if self.concerns(received, 3, match_id) && self.game_state != GameState::GameOver {
                    ClientMirror {
                        who_is_winner: WhoIsWinner { player_number: winner },
                        game_state: GameState::GameOver,
                        ..self
                    }
                } else {
                    self
                }
            },
        }
    }

    /// The local events that follow from a message of the server.
    ///
    /// A refused join is passed on with its message. A ready notice that
    /// arms the countdown says so. A shot in the client's duel yields the
    /// shot, then the hit on the shooter's opponent, then, if the client
    /// itself has shot, the call for a new key sequence. The game over that
    /// ends the game is passed on with the winner. Nothing else yields an
    /// event.
    pub open spec fn events_of(self, received: ReceivedView) -> Seq<ClientEventView> {
        match received.message {
            ServerMessageView::MatchJoinError { error_message } => {
                if received.channel_id == 0 {
                    seq![ClientEventView::JoinFailed { message: error_message }]
                } else {
                    Seq::empty()
                }
            },
            ServerMessageView::IsGameReadyToStart { match_id, is_ready } => {
                if is_ready && !self.game_start_timer.active && self.concerns(received, 0, match_id) {
                    seq![ClientEventView::CountdownArmed]
                } else {
                    Seq::empty()
                }
            },
            ServerMessageView::ShootingCommand { match_id, player_number } => {
                if self.concerns(received, 1, match_id) {
                    let shot = seq![
                        ClientEventView::Shooting { player: player_number },
                        ClientEventView::Hit { player: opponent_of(player_number) },
                    ];
                    if player_number == self.player_selection.0 {
                        shot.push(ClientEventView::ResetKeys)
                    } else {
                        shot
                    }
                } else {
                    Seq::empty()
                }
            },
            ServerMessageView::GameOver { match_id, winner } => {
                if self.concerns(received, 3, match_id) && self.game_state != GameState::GameOver {
                    seq![ClientEventView::GameOver { winner }]
                } else {
                    Seq::empty()
                }
            },
            _ => Seq::empty(),
        }
    }

    /// The message is a count update that the mirror takes.
    pub open spec fn counts(self, received: ReceivedView) -> bool {
        received.message matches ServerMessageView::PlayerCountingUpdate { match_id }
            && self.concerns(received, 0, match_id)
    }

    /// The mirror after the messages of `received`, one after the other.
    pub open spec fn after_messages(self, received: Seq<ReceivedView>) -> ClientMirror
        decreases received.len(),
    {
        if received.len() == 0 {
            self
        } else {
            self.after_messages(received.drop_last()).after_message(received.last())
        }
    }

    /// The events that follow from the messages of `received`, in their
    /// order.
    pub open spec fn events_of_all(self, received: Seq<ReceivedView>) -> Seq<ClientEventView>
        decreases received.len(),
    {
        if received.len() == 0 {
            Seq::empty()
        } else {
            self.events_of_all(received.drop_last()) + self.after_messages(
                received.drop_last(),
            ).events_of(received.last())
        }
    }

    /// The mirror of a client in its main menu: no slot, a fresh random
    /// identifier to host under, no player counted, full hearts, no winner,
    /// and the countdown not armed.
    pub open spec fn is_initial(self) -> bool {
        &&& self.player_selection.0 == NO_PLAYER
        &&& self.player_selection.1.is_random()
        &&& self.players_counting.0 == 0
        &&& self.player_hearts_status.player_1_hearts == STARTING_HEARTS
        &&& self.player_hearts_status.player_2_hearts == STARTING_HEARTS
        &&& self.who_is_winner.player_number == NO_PLAYER
        &&& !self.game_start_timer.active
        &&& self.game_start_timer.timer.elapsed == 0
        &&& self.game_state == GameState::MainMenu
    }

    /// The mirror of a client that has just started, with a countdown of
    /// three seconds.
    pub fn new() -> (mirror: ClientMirror)
        ensures
            mirror.is_initial(),
            mirror.game_start_timer.timer.duration == GAME_START_DELAY,
    {
        ClientMirror {
            player_selection: PlayerSelection::default(),
            players_counting: PlayersCounting::default(),
            player_hearts_status: PlayerHertsStatus::default(),
            who_is_winner: WhoIsWinner::default(),
            game_start_timer: GameStartTimer::new(GAME_START_DELAY),
            game_state: GameState::MainMenu,
        }
    }

    /// Brings the mirror back to its defaults, as the client returns to its
    /// main menu.
    pub fn reset(&mut self)
        ensures
            final(self).is_initial(),
            final(self).game_start_timer.timer.duration == old(
                self,
            ).game_start_timer.timer.duration,
    {
        self.player_selection.reset();
        self.player_hearts_status.reset();
        self.players_counting.reset();
        self.game_start_timer.reset();
        self.who_is_winner.reset();
        self.game_state = GameState::MainMenu;
    }

    /// Lets `delta` nanoseconds pass on the countdown to the start; the tick
    /// with which it runs out takes the client into the game.
    pub fn advance_countdown(&mut self, delta: u64) -> (step: CountdownStep)
        ensures
            step == old(self).game_start_timer.step(delta),
            *final(self) == (ClientMirror {
                game_start_timer: old(self).game_start_timer.after(delta),
                game_state: if step == CountdownStep::Started {
                    GameState::InGame
                } else {
                    old(self).game_state
                },
                ..*old(self)
            }),
    {
        let step = crate::lobby::update_game_start_countdown(&mut self.game_start_timer, delta);
        match step {
            CountdownStep::Started => {
                self.game_state = GameState::InGame;
            },
            _ => {},
        }
        step
    }

    /// Takes one message from the server.
    pub fn handle_server_message(&mut self, received: &Received) -> (events: Vec<ClientEvent>)
        requires
            old(self).players_counting.0 < usize::MAX,
        ensures
            *final(self) == old(self).after_message(received@),
            event_views(events@) == old(self).events_of(received@),
            final(self).players_counting.0 == old(self).players_counting.0 + if old(self).counts(
                received@,
            ) {
                1int
            } else {
                0int
            },
    {
        let mut events: Vec<ClientEvent> = Vec::new();
        let channel = received.channel_id;
        match &received.message {
            ServerMessage::MatchCreated { player_number, match_id } => {
                if channel == 0 {
                    self.player_selection.0 = *player_number;
                    self.player_selection.1 = *match_id;
                }
            },
            ServerMessage::JoinedMatch { player_number, match_id } => {
                if channel == 0 {
                    self.player_selection.0 = *player_number;
                    self.player_selection.1 = *match_id;
                }
            },
            ServerMessage::PlayerCountingUpdate { match_id } => {
                if channel == 0 && *match_id == self.player_selection.1 {
                    self.players_counting.0 = self.players_counting.0 + 1;
                }
            },
            ServerMessage::MatchJoinError { error_message } => {
                if channel == 0 {
                    events.push(
                        ClientEvent::JoinFailed(MatchNotFoundError::new(error_message.clone())),
                    );
                }
            },
            ServerMessage::IsGameReadyToStart { match_id, is_ready } => {
                if *is_ready && !self.game_start_timer.active && channel == 0 && *match_id
                    == self.player_selection.1 {
                    self.game_start_timer.active = true;
                    events.push(ClientEvent::CountdownArmed);
                }
            },
            ServerMessage::ShootingCommand { match_id, player_number } => {
                if channel == 1 && *match_id == self.player_selection.1 {
                    events.push(ClientEvent::Shooting(ShootingEvent { player: *player_number }));
                    events.push(ClientEvent::Hit(PlayerHit(opponent(*player_number))));
                    if *player_number == self.player_selection.0 {
                        events.push(ClientEvent::ResetKeys(ResetKeysEvent));
                    }
                }
            },
            ServerMessage::UpdateHeartsStatus {
                match_id,
                who_is_hit,
                player_1_hearts,
                player_2_hearts,
            } => {
                if channel == 2 && *match_id == self.player_selection.1 {
                    self.player_hearts_status.player_1_hearts = *player_1_hearts;
                    self.player_hearts_status.player_2_hearts = *player_2_hearts;
                }
            },
            ServerMessage::GameOver { match_id, winner } => {
                if channel == 3 && *match_id == self.player_selection.1 {
                    match self.game_state {
                        GameState::GameOver => {},
                        _ => {
                            self.who_is_winner.player_number = *winner;
                            self.game_state = GameState::GameOver;
                            events.push(ClientEvent::GameOver { winner: *winner });
                        },
                    }
                }
            },
        }
        assert(event_views(events@) =~= old(self).events_of(received@));
        events
    }
}

/// Brings the client back to its main menu: the mirror at its defaults, a
/// new key sequence with the first key due and no wrong key counted, and the
/// shooting lock free.
pub fn return_to_main_menu(
    mirror: &mut ClientMirror,
    shooting_states: &mut ShootingStates,
    shooting_lock: &mut ShootingLock,
)
    ensures
        final(mirror).is_initial(),
        final(mirror).game_start_timer.timer.duration == old(
            mirror,
        ).game_start_timer.timer.duration,
        final(shooting_states).none_pressed(),
        final(shooting_states).current_key_index == 0,
        final(shooting_states).wrong_count == 0,
        !final(shooting_lock).0,
{
    mirror.reset();
    shooting_states.reset();
    shooting_lock.reset();
}

/// Takes the messages that have come from the server, in their order, and
/// returns the local events that follow from them.
pub fn handle_server_messages(mirror: &mut ClientMirror, received: &Vec<Received>) -> (events: Vec<
    ClientEvent,
>)
    requires
        old(mirror).players_counting.0 + received@.len() <= usize::MAX,
    ensures
        *final(mirror) == old(mirror).after_messages(received_views(received@)),
        event_views(events@) == old(mirror).events_of_all(received_views(received@)),
{
    let ghost start = *mirror;
    let ghost messages = received_views(received@);
    let mut events: Vec<ClientEvent> = Vec::new();
    let mut i: usize = 0;
    assert(messages.take(0) =~= Seq::<ReceivedView>::empty());
    assert(event_views(events@) =~= Seq::<ClientEventView>::empty());
    while i < received.len()
        invariant
            i <= received.len(),
            messages == received_views(received@),
            start.players_counting.0 + received@.len() <= usize::MAX,
            mirror.players_counting.0 <= start.players_counting.0 + i,
            *mirror == start.after_messages(messages.take(i as int)),
            event_views(events@) == start.events_of_all(messages.take(i as int)),
        decreases received.len() - i,
    {
        let ghost before = *mirror;
        let ghost seen = events@;
        let mut more = mirror.handle_server_message(&received[i]);
        events.append(&mut more);
        proof {
            let prefix = messages.take(i as int + 1);
            assert(prefix.drop_last() =~= messages.take(i as int));
            assert(prefix.last() == received@[i as int]@);
            assert(event_views(events@) =~= event_views(seen) + before.events_of(
                received@[i as int]@,
            ));
        }
        i += 1;
    }
    assert(messages.take(i as int) =~= messages);
    events
}

} // verus!
