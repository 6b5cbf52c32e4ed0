//! The wire vocabulary: channels, their delivery discipline, and the messages
//! that travel on them in each direction.

use crate::match_id::MatchIdentifier;
use vstd::prelude::*;

verus! {

/// Number by which the transport knows a channel.
pub type ChannelId = u8;

/// Largest payload, in bytes, that a reliable channel carries by default.
pub const DEFAULT_MAX_RELIABLE_FRAME_LEN: usize = 8 * 1_024 * 1_024;

/// Port on which the server listens.
pub const SERVER_PORT: u16 = 6000;

/// Delivery discipline of a channel.
#[derive(Clone, Copy, Debug, PartialEq, Eq, Structural)]
pub enum ChannelKind {
    /// Every message arrives, in the order in which it was sent.
    OrderedReliable { max_frame_size: usize },
    /// Every message arrives, in any order.
    UnorderedReliable { max_frame_size: usize },
    /// Messages may be lost or arrive in any order.
    Unreliable,
}

/// Channels from the server to a client.
#[derive(Clone, Copy, Debug, PartialEq, Eq, Structural)]
pub enum ServerChannel {
    Lobby,
    Shooting,
    UpdateHeartsStatus,
    GameOver,
}

/// Channels from a client to the server.
#[derive(Clone, Copy, Debug, PartialEq, Eq, Structural)]
pub enum ClientChannel {
    Lobby,
    Shooting,
}

impl ServerChannel {
    /// Position of the channel in the server's configuration.
    pub open spec fn id(self) -> ChannelId {
        match self {
            ServerChannel::Lobby => 0,
            ServerChannel::Shooting => 1,
            ServerChannel::UpdateHeartsStatus => 2,
            ServerChannel::GameOver => 3,
        }
    }

    /// The channels that a server endpoint opens, in the order of their
    /// numbers: four, all ordered and reliable.
    pub open spec fn configuration() -> Seq<ChannelKind> {
        Seq::new(
            4,
            |i: int| ChannelKind::OrderedReliable { max_frame_size: DEFAULT_MAX_RELIABLE_FRAME_LEN },
        )
    }

    pub fn channels_configuration() -> (kinds: Vec<ChannelKind>)
        ensures
            kinds@ == Self::configuration(),
            forall|c: ServerChannel| (#[trigger] c.id() as int) < kinds@.len(),
    {
        let kind = ChannelKind::OrderedReliable { max_frame_size: DEFAULT_MAX_RELIABLE_FRAME_LEN };
        let mut kinds: Vec<ChannelKind> = Vec::new();
        kinds.push(kind);
        kinds.push(kind);
        kinds.push(kind);
        kinds.push(kind);
        assert(kinds@ =~= Self::configuration());
        kinds
    }
}

impl From<ServerChannel> for ChannelId {
    fn from(channel: ServerChannel) -> (id: ChannelId) {
        match channel {
            ServerChannel::Lobby => 0,
            ServerChannel::Shooting => 1,
            ServerChannel::UpdateHeartsStatus => 2,
            ServerChannel::GameOver => 3,
        }
    }
}

impl vstd::std_specs::convert::FromSpecImpl<ServerChannel> for ChannelId {
    open spec fn obeys_from_spec() -> bool {
        true
    }

    open spec fn from_spec(channel: ServerChannel) -> ChannelId {
        channel.id()
    }
}

impl ClientChannel {
    /// Position of the channel in a client's configuration.
    pub open spec fn id(self) -> ChannelId {
        match self {
            ClientChannel::Lobby => 0,
            ClientChannel::Shooting => 1,
        }
    }

    /// The channels that a client opens, in the order of their numbers: two,
    /// both ordered and reliable.
    pub open spec fn configuration() -> Seq<ChannelKind> {
        Seq::new(
            2,
            |i: int| ChannelKind::OrderedReliable { max_frame_size: DEFAULT_MAX_RELIABLE_FRAME_LEN },
        )
    }

    pub fn channels_configuration() -> (kinds: Vec<ChannelKind>)
        ensures
            kinds@ == Self::configuration(),
            forall|c: ClientChannel| (#[trigger] c.id() as int) < kinds@.len(),
    {
        let kind = ChannelKind::OrderedReliable { max_frame_size: DEFAULT_MAX_RELIABLE_FRAME_LEN };
        let mut kinds: Vec<ChannelKind> = Vec::new();
        kinds.push(kind);
        kinds.push(kind);
        assert(kinds@ =~= Self::configuration());
        kinds
    }
}

impl From<ClientChannel> for ChannelId {
    fn from(channel: ClientChannel) -> (id: ChannelId) {
        match channel {
            ClientChannel::Lobby => 0,
            ClientChannel::Shooting => 1,
        }
    }
}

impl vstd::std_specs::convert::FromSpecImpl<ClientChannel> for ChannelId {
    open spec fn obeys_from_spec() -> bool {
        true
    }

    open spec fn from_spec(channel: ClientChannel) -> ChannelId {
        channel.id()
    }
}

/// One key of a client's timed sequence, as reported to a peer.
#[derive(Clone, Debug)]
pub struct ShootingStatesMesasge {
    pub key: String,
    pub is_pressed_correct: bool,
}

/// What the server sends.
#[derive(Clone, Debug)]
pub enum ServerMessage {
    MatchCreated { match_id: MatchIdentifier, player_number: usize },
    JoinedMatch { match_id: MatchIdentifier, player_number: usize },
    PlayerCountingUpdate { match_id: MatchIdentifier },
    MatchJoinError { error_message: String },
    IsGameReadyToStart { match_id: MatchIdentifier, is_ready: bool },
    ShootingCommand { match_id: MatchIdentifier, player_number: usize },
    UpdateHeartsStatus {
        match_id: MatchIdentifier,
        who_is_hit: usize,
        player_1_hearts: usize,
        player_2_hearts: usize,
    },
    GameOver { match_id: MatchIdentifier, winner: usize },
}

/// A server message with its text as a sequence of characters.
pub enum ServerMessageView {
    MatchCreated { match_id: MatchIdentifier, player_number: usize },
    JoinedMatch { match_id: MatchIdentifier, player_number: usize },
    PlayerCountingUpdate { match_id: MatchIdentifier },
    MatchJoinError { error_message: Seq<char> },
    IsGameReadyToStart { match_id: MatchIdentifier, is_ready: bool },
    ShootingCommand { match_id: MatchIdentifier, player_number: usize },
    UpdateHeartsStatus {
        match_id: MatchIdentifier,
        who_is_hit: usize,
        player_1_hearts: usize,
        player_2_hearts: usize,
    },
    GameOver { match_id: MatchIdentifier, winner: usize },
}

impl ServerMessageView {
    /// The channel on which a message of this kind travels.
    pub open spec fn channel(self) -> ServerChannel {
        match self {
            ServerMessageView::MatchCreated { .. } => ServerChannel::Lobby,
            ServerMessageView::JoinedMatch { .. } => ServerChannel::Lobby,
            ServerMessageView::PlayerCountingUpdate { .. } => ServerChannel::Lobby,
            ServerMessageView::MatchJoinError { .. } => ServerChannel::Lobby,
            ServerMessageView::IsGameReadyToStart { .. } => ServerChannel::Lobby,
            ServerMessageView::ShootingCommand { .. } => ServerChannel::Shooting,
            ServerMessageView::UpdateHeartsStatus { .. } => ServerChannel::UpdateHeartsStatus,
            ServerMessageView::GameOver { .. } => ServerChannel::GameOver,
        }
    }
}

impl View for ServerMessage {
    type V = ServerMessageView;

    open spec fn view(&self) -> ServerMessageView {
        match *self {
            ServerMessage::MatchCreated { match_id, player_number } => {
                ServerMessageView::MatchCreated { match_id, player_number }
            },
            ServerMessage::JoinedMatch { match_id, player_number } => {
                ServerMessageView::JoinedMatch { match_id, player_number }
            },
            ServerMessage::PlayerCountingUpdate { match_id } => {
                ServerMessageView::PlayerCountingUpdate { match_id }
            },
            ServerMessage::MatchJoinError { error_message } => {
                ServerMessageView::MatchJoinError { error_message: error_message@ }
            },
            ServerMessage::IsGameReadyToStart { match_id, is_ready } => {
                ServerMessageView::IsGameReadyToStart { match_id, is_ready }
            },
            ServerMessage::ShootingCommand { match_id, player_number } => {
                ServerMessageView::ShootingCommand { match_id, player_number }
            },
            ServerMessage::UpdateHeartsStatus {
                match_id,
                who_is_hit,
                player_1_hearts,
                player_2_hearts,
            } => ServerMessageView::UpdateHeartsStatus {
                match_id,
                who_is_hit,
                player_1_hearts,
                player_2_hearts,
            },
            ServerMessage::GameOver { match_id, winner } => {
                ServerMessageView::GameOver { match_id, winner }
            },
        }
    }
}

impl ServerMessage {
    /// The channel on which this message travels.
    pub fn channel(&self) -> (channel: ServerChannel)
        ensures
            channel == self@.channel(),
    {
        match self {
            ServerMessage::MatchCreated { .. } => ServerChannel::Lobby,
            ServerMessage::JoinedMatch { .. } => ServerChannel::Lobby,
            ServerMessage::PlayerCountingUpdate { .. } => ServerChannel::Lobby,
            ServerMessage::MatchJoinError { .. } => ServerChannel::Lobby,
            ServerMessage::IsGameReadyToStart { .. } => ServerChannel::Lobby,
            ServerMessage::ShootingCommand { .. } => ServerChannel::Shooting,
            ServerMessage::UpdateHeartsStatus { .. } => ServerChannel::UpdateHeartsStatus,
            ServerMessage::GameOver { .. } => ServerChannel::GameOver,
        }
    }
}

/// What a client sends.
#[derive(Clone, Debug)]
pub enum ClientMessage {
    CreateMatchRequest { match_id: MatchIdentifier, player_wallet: String },
    JoinMatchRequest { match_id: MatchIdentifier, player_wallet: String },
    ShootingCommand { match_id: MatchIdentifier, player_number: usize },
}

/// A client message with its text as a sequence of characters.
pub enum ClientMessageView {
    CreateMatchRequest { match_id: MatchIdentifier, player_wallet: Seq<char> },
    JoinMatchRequest { match_id: MatchIdentifier, player_wallet: Seq<char> },
    ShootingCommand { match_id: MatchIdentifier, player_number: usize },
}

impl ClientMessageView {
    /// The channel on which a message of this kind travels.
    pub open spec fn channel(self) -> ClientChannel {
        match self {
            ClientMessageView::CreateMatchRequest { .. } => ClientChannel::Lobby,
            ClientMessageView::JoinMatchRequest { .. } => ClientChannel::Lobby,
            ClientMessageView::ShootingCommand { .. } => ClientChannel::Shooting,
        }
    }
}

impl View for ClientMessage {
    type V = ClientMessageView;

    open spec fn view(&self) -> ClientMessageView {
        match *self {
            ClientMessage::CreateMatchRequest { match_id, player_wallet } => {
                ClientMessageView::CreateMatchRequest { match_id, player_wallet: player_wallet@ }
            },
            ClientMessage::JoinMatchRequest { match_id, player_wallet } => {
                ClientMessageView::JoinMatchRequest { match_id, player_wallet: player_wallet@ }
            },
            ClientMessage::ShootingCommand { match_id, player_number } => {
                ClientMessageView::ShootingCommand { match_id, player_number }
            },
        }
    }
}

impl ClientMessage {
    /// The channel on which this message travels.
    pub fn channel(&self) -> (channel: ClientChannel)
        ensures
            channel == self@.channel(),
    {
        match self {
            ClientMessage::CreateMatchRequest { .. } => ClientChannel::Lobby,
            ClientMessage::JoinMatchRequest { .. } => ClientChannel::Lobby,
            ClientMessage::ShootingCommand { .. } => ClientChannel::Shooting,
        }
    }
}

} // verus!
