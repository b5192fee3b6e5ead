use vstd::prelude::*;
use crate::quality::{Error, StreamQuality};

verus! {

/// Which of a participant's two peer connections a signaling message is for.
#[derive(Debug, PartialEq, Eq, Clone, Copy, Structural)]
pub enum Target {
    Publisher,
    Subscriber,
}

/// An ICE candidate as the client sends it.
#[derive(Debug, PartialEq, Eq)]
pub struct IceCandidate {
    pub candidate: String,
    pub sdp_mid: Option<String>,
    pub sdp_mline_index: Option<u16>,
}

/// A WebRTC negotiation message.
#[derive(Debug, PartialEq, Eq)]
pub enum MessageType {
    Offer { sdp: String },
    Answer { sdp: String },
    Candidate { candidate: IceCandidate },
    IceRestart { sdp: String },
}

/// A message between the server and a client.
#[derive(Debug, PartialEq, Eq)]
pub enum SignalMessage {
    Rtc { target: Target, message_type: MessageType },
    RoomInfo { name: String },
    ConnectionQuality { quality: StreamQuality },
    Welcome { peer_id: u128 },
    PeerLeft { peer_id: u128 },
}

/// What arrives from a client's connection: a message, the end of the
/// connection, or a failure described by a text.
#[derive(Debug, PartialEq, Eq)]
pub enum SyncMessage {
    Message(SignalMessage),
    Close,
    Error(String),
}

/// Whether a subscription is to an audio stream or to a video layer.
#[derive(Clone, Copy, Debug)]
pub enum ConnectionRequestKind {
    Audio,
    Video { stream_quality: StreamQuality },
}

/// Where a participant sends what came from its client.
#[derive(Debug, PartialEq, Eq)]
pub enum UserRoute {
    /// The client left: stop the participant.
    Stop,
    /// The connection failed.
    Fail(Error),
    ToPublisher(MessageType),
    ToSubscriber(MessageType),
    /// A message the server does not act on.
    Ignore,
}

/// Where what came from a client goes: negotiation messages to the peer
/// connection they target; the end of the connection stops the participant;
/// a failure is reported with its text; anything else is ignored.
pub open spec fn sync_route(message: SyncMessage) -> UserRoute {
    match message {
        SyncMessage::Close => UserRoute::Stop,
        SyncMessage::Error(e) => UserRoute::Fail(Error::SystemError { message: e }),
        SyncMessage::Message(SignalMessage::Rtc { target: Target::Publisher, message_type }) =>
            UserRoute::ToPublisher(message_type),
        SyncMessage::Message(SignalMessage::Rtc { target: Target::Subscriber, message_type }) =>
            UserRoute::ToSubscriber(message_type),
        SyncMessage::Message(_) => UserRoute::Ignore,
    }
}

/// Routes what came from a client.
pub fn route_sync_message(message: SyncMessage) -> (route: UserRoute)
    ensures
        route == sync_route(message),
{
    match message {
        SyncMessage::Close => UserRoute::Stop,
        SyncMessage::Error(e) => UserRoute::Fail(Error::SystemError { message: e }),
        SyncMessage::Message(message) => match message {
            SignalMessage::Rtc { target, message_type } => match target {
                Target::Publisher => UserRoute::ToPublisher(message_type),
                Target::Subscriber => UserRoute::ToSubscriber(message_type),
            },
            _ => UserRoute::Ignore,
        },
    }
}

/// What a peer connection does with a negotiation message.
#[derive(Debug, PartialEq, Eq)]
pub enum NegotiationStep {
    /// Take `sdp` as the remote offer, answer it, and send the answer to the
    /// client; then, when `subscribe_to_peers`, ask the room for the streams
    /// of the other participants.
    AnswerOffer { sdp: String, subscribe_to_peers: bool },
    /// Take `sdp` as the remote answer.
    SetRemoteAnswer { sdp: String },
    /// Add a remote ICE candidate.
    AddCandidate(IceCandidate),
    /// The message is not handled by this peer connection; it is logged.
    Unsupported(MessageType),
}

/// How the publishing connection handles a negotiation message: an offer is
/// answered, after which the participant receives the others' streams; an
/// ICE restart offer is answered only.
pub fn publisher_step(message: MessageType) -> (step: NegotiationStep)
    ensures
        match message {
            MessageType::IceRestart { sdp } => step == NegotiationStep::AnswerOffer { sdp, subscribe_to_peers: false },
            MessageType::Offer { sdp } => step == NegotiationStep::AnswerOffer { sdp, subscribe_to_peers: true },
            MessageType::Candidate { candidate } => step == NegotiationStep::AddCandidate(candidate),
            MessageType::Answer { sdp } => step == NegotiationStep::SetRemoteAnswer { sdp },
        },
{
    match message {
        MessageType::IceRestart { sdp } => NegotiationStep::AnswerOffer { sdp, subscribe_to_peers: false },
        MessageType::Offer { sdp } => NegotiationStep::AnswerOffer { sdp, subscribe_to_peers: true },
        MessageType::Candidate { candidate } => NegotiationStep::AddCandidate(candidate),
        MessageType::Answer { sdp } => NegotiationStep::SetRemoteAnswer { sdp },
    }
}

/// How the subscribing connection handles a negotiation message: the server
/// makes the offers there, so a client offer is not handled.
pub fn subscriber_step(message: MessageType) -> (step: NegotiationStep)
    ensures
        match message {
            MessageType::IceRestart { sdp } => step == NegotiationStep::AnswerOffer { sdp, subscribe_to_peers: false },
            MessageType::Answer { sdp } => step == NegotiationStep::SetRemoteAnswer { sdp },
            MessageType::Candidate { candidate } => step == NegotiationStep::AddCandidate(candidate),
            MessageType::Offer { sdp } => step == NegotiationStep::Unsupported(MessageType::Offer { sdp }),
        },
{
    match message {
        MessageType::IceRestart { sdp } => NegotiationStep::AnswerOffer { sdp, subscribe_to_peers: false },
        MessageType::Answer { sdp } => NegotiationStep::SetRemoteAnswer { sdp },
        MessageType::Candidate { candidate } => NegotiationStep::AddCandidate(candidate),
        other => NegotiationStep::Unsupported(other),
    }
}

/// The message that carries a local ICE candidate of a connection to the client.
pub fn candidate_message(target: Target, candidate: IceCandidate) -> (m: SignalMessage)
    ensures
        m == (SignalMessage::Rtc { target, message_type: MessageType::Candidate { candidate } }),
{
    SignalMessage::Rtc { target, message_type: MessageType::Candidate { candidate } }
}

/// The message that carries a local description of a connection to the
/// client: an answer, or an offer, or an ICE restart offer.
pub fn description_message(target: Target, kind: DescriptionKind, sdp: String) -> (m: SignalMessage)
    ensures
        m == (SignalMessage::Rtc {
            target,
            message_type: match kind {
                DescriptionKind::Offer => MessageType::Offer { sdp },
                DescriptionKind::Answer => MessageType::Answer { sdp },
                DescriptionKind::IceRestart => MessageType::IceRestart { sdp },
            },
        }),
{
    let message_type = match kind {
        DescriptionKind::Offer => MessageType::Offer { sdp },
        DescriptionKind::Answer => MessageType::Answer { sdp },
        DescriptionKind::IceRestart => MessageType::IceRestart { sdp },
    };
    SignalMessage::Rtc { target, message_type }
}

/// The kind of a local session description sent to the client.
#[derive(Debug, PartialEq, Eq, Clone, Copy, Structural)]
pub enum DescriptionKind {
    Offer,
    Answer,
    IceRestart,
}

} // verus!
