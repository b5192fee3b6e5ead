use vstd::prelude::*;
use crate::quality::StreamQuality;
use crate::signal::{route_sync_message, sync_route, SignalMessage, SyncMessage, UserRoute};

verus! {

/// What a participant is told; `C` is its client connection, `A` and `V`
/// are subscription requests for an audio stream and a video layer.
pub enum UserMessage<C, A, V> {
    Reconnect(C),
    SignalMessage(SignalMessage),
    SwitchQualityLayer { quality: StreamQuality },
    SyncMessage(SyncMessage),
    ConnectAudio(A),
    ConnectVideo(V),
    Unsubscribe { user_id: u128 },
    RoomClosed,
}

/// What a participant does in answer to a message.
#[derive(Debug, PartialEq, Eq)]
pub enum UserAction<C, A, V> {
    /// Talk to the client through this connection from now on.
    ReplaceClient(C),
    /// Send the message to the client; a failure is ignored.
    SendToClient(SignalMessage),
    /// Tell the subscriber to switch to `quality`, then send `notice` to the
    /// client; a failure of either stops the participant.
    SwitchQuality { quality: StreamQuality, notice: SignalMessage },
    /// Act on what came from the client.
    Route(UserRoute),
    /// Pass the request to the subscriber; a failure stops the participant.
    ConnectAudio(A),
    ConnectVideo(V),
    /// Tell the subscriber to drop `peer_id`, then send `notice` to the
    /// client; a failure to send stops the participant.
    Unsubscribe { peer_id: u128, notice: SignalMessage },
    /// Stop the participant.
    Stop,
}

/// The first message a participant's client receives: its id.
pub fn welcome(peer_id: u128) -> (m: SignalMessage)
    ensures
        m == (SignalMessage::Welcome { peer_id }),
{
    SignalMessage::Welcome { peer_id }
}

/// Handles one message of a participant. A change of connection quality is
/// passed to the subscriber and reported to the client; a participant that
/// left is dropped by the subscriber and reported to the client; when the
/// room closes the participant stops.
pub fn user_step<C, A, V>(msg: UserMessage<C, A, V>) -> (action: UserAction<C, A, V>)
    ensures
        match msg {
            UserMessage::Reconnect(c) => action == UserAction::<C, A, V>::ReplaceClient(c),
            UserMessage::SignalMessage(m) => action == UserAction::<C, A, V>::SendToClient(m),
            UserMessage::SwitchQualityLayer { quality } => action == UserAction::<C, A, V>::SwitchQuality {
                quality,
                notice: SignalMessage::ConnectionQuality { quality },
            },
            UserMessage::SyncMessage(m) => action == UserAction::<C, A, V>::Route(sync_route(m)),
            UserMessage::ConnectAudio(a) => action == UserAction::<C, A, V>::ConnectAudio(a),
            UserMessage::ConnectVideo(v) => action == UserAction::<C, A, V>::ConnectVideo(v),
            UserMessage::Unsubscribe { user_id } => action == UserAction::<C, A, V>::Unsubscribe {
                peer_id: user_id,
                notice: SignalMessage::PeerLeft { peer_id: user_id },
            },
            UserMessage::RoomClosed => action is Stop,
        },
{
    match msg {
        UserMessage::Reconnect(c) => UserAction::ReplaceClient(c),
        UserMessage::SignalMessage(m) => UserAction::SendToClient(m),
        UserMessage::SwitchQualityLayer { quality } => UserAction::SwitchQuality {
            quality,
            notice: SignalMessage::ConnectionQuality { quality },
        },
        UserMessage::SyncMessage(m) => UserAction::Route(route_sync_message(m)),
        UserMessage::ConnectAudio(a) => UserAction::ConnectAudio(a),
        UserMessage::ConnectVideo(v) => UserAction::ConnectVideo(v),
        UserMessage::Unsubscribe { user_id } => UserAction::Unsubscribe {
            peer_id: user_id,
            notice: SignalMessage::PeerLeft { peer_id: user_id },
        },
        UserMessage::RoomClosed => UserAction::Stop,
    }
}

} // verus!
