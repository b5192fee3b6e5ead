use vstd::prelude::*;
use crate::quality::StreamQuality;
use crate::signal::{candidate_message, subscriber_step, IceCandidate, MessageType, NegotiationStep, SignalMessage, Target};
use std::collections::HashMap;
use crate::table::{handles, lists_handles};

verus! {

broadcast use vstd::std_specs::hash::group_hash_axioms;

/// The signaling state of a peer connection.
#[derive(Debug, PartialEq, Eq, Clone, Copy, Structural)]
pub enum SignalingState {
    Unspecified,
    Stable,
    HaveLocalOffer,
    HaveRemoteOffer,
    HaveLocalPranswer,
    HaveRemotePranswer,
    Closed,
}

/// Decides when the subscribing connection may make an offer: only while no
/// negotiation is under way. An offer that had to wait is remembered and made
/// once the connection is stable again.
pub struct OfferGate {
    pub signaling_state: Option<SignalingState>,
    pub should_send_offer: bool,
}

/// Whether an offer may be made in the signaling state `s`.
pub open spec fn may_offer(s: Option<SignalingState>) -> bool {
    !(s is Some && s != Some(SignalingState::Stable))
}

impl OfferGate {
    pub fn new() -> (g: OfferGate)
        ensures
            g.signaling_state is None,
            !g.should_send_offer,
    {
        OfferGate { signaling_state: None, should_send_offer: false }
    }

    /// Renegotiation is needed: answers whether to make an offer now; if
    /// not, the offer is remembered.
    pub fn send_offer(&mut self) -> (offer_now: bool)
        ensures
            offer_now == may_offer(old(self).signaling_state),
            final(self).signaling_state == old(self).signaling_state,
            final(self).should_send_offer == (old(self).should_send_offer || !offer_now),
    {
        if self.signaling_state.is_some() && self.signaling_state != Some(SignalingState::Stable) {
            self.should_send_offer = true;
            return false;
        }
        true
    }

    /// The signaling state changed to `state`: a remembered offer is tried
    /// when the new state is stable, against the state known before this
    /// change; then the new state is recorded. Answers whether to make an
    /// offer now.
    pub fn on_signaling_state(&mut self, state: SignalingState) -> (offer_now: bool)
        ensures
            offer_now == (old(self).should_send_offer && state == SignalingState::Stable && may_offer(
                old(self).signaling_state,
            )),
            final(self).signaling_state == Some(state),
            final(self).should_send_offer == old(self).should_send_offer,
    {
        let mut offer_now = false;
        if self.should_send_offer && state == SignalingState::Stable {
            offer_now = self.send_offer();
        }
        self.signaling_state = Some(state);
        offer_now
    }
}

/// How a subscription to a speaker's video layer is made.
#[derive(Debug, PartialEq, Eq)]
pub enum VideoConnect {
    /// Add the layer to the existing layer manager `manager`.
    AddLayer { manager: u64 },
    /// Make a new layer manager, starting at the connection quality.
    NewManager { connection_quality: StreamQuality },
}

/// The subscriptions of a participant: one audio forwarder and one video
/// layer manager per speaker, and the quality its connection allows.
pub struct Subscriptions {
    pub audio_subscriptions: HashMap<u128, u64>,
    pub video_subscriptions: HashMap<u128, u64>,
    pub current_quality: StreamQuality,
}

impl Subscriptions {
    /// No subscriptions yet; the connection is taken to allow the high layer.
    pub fn new() -> (s: Subscriptions)
        ensures
            s.audio_subscriptions@ == Map::<u128, u64>::empty(),
            s.video_subscriptions@ == Map::<u128, u64>::empty(),
            s.current_quality == StreamQuality::High,
    {
        Subscriptions {
            audio_subscriptions: HashMap::new(),
            video_subscriptions: HashMap::new(),
            current_quality: StreamQuality::High,
        }
    }

    /// The connection quality changed: it is recorded and every video layer
    /// manager is told; answers the managers to tell, in order.
    pub fn switch_quality_layer(&mut self, quality: StreamQuality) -> (managers: Vec<u64>)
        ensures
            final(self).current_quality == quality,
            final(self).audio_subscriptions == old(self).audio_subscriptions,
            final(self).video_subscriptions == old(self).video_subscriptions,
            lists_handles(old(self).video_subscriptions@, managers@),
    {
        self.current_quality = quality;
        handles(&self.video_subscriptions)
    }

    /// Records the audio forwarder `forwarder` for `speaker`; answers the
    /// forwarder it replaces, if any.
    pub fn connect_audio(&mut self, speaker: u128, forwarder: u64) -> (replaced: Option<u64>)
        ensures
            final(self).audio_subscriptions@ == old(self).audio_subscriptions@.insert(speaker, forwarder),
            final(self).video_subscriptions == old(self).video_subscriptions,
            final(self).current_quality == old(self).current_quality,
            replaced == (if old(self).audio_subscriptions@.contains_key(speaker) {
                Some(old(self).audio_subscriptions@[speaker])
            } else {
                None::<u64>
            }),
    {
        self.audio_subscriptions.insert(speaker, forwarder)
    }

    /// How a video layer of `speaker` is subscribed to: through the layer
    /// manager already made for the speaker, or through a new one.
    pub fn plan_video(&self, speaker: u128) -> (plan: VideoConnect)
        ensures
            plan == (if self.video_subscriptions@.contains_key(speaker) {
                VideoConnect::AddLayer { manager: self.video_subscriptions@[speaker] }
            } else {
                VideoConnect::NewManager { connection_quality: self.current_quality }
            }),
    {
        match self.video_subscriptions.get(&speaker) {
            Some(manager) => VideoConnect::AddLayer { manager: *manager },
            None => VideoConnect::NewManager { connection_quality: self.current_quality },
        }
    }

    /// Records the new layer manager `manager` for `speaker`.
    pub fn register_video(&mut self, speaker: u128, manager: u64)
        ensures
            final(self).video_subscriptions@ == old(self).video_subscriptions@.insert(speaker, manager),
            final(self).audio_subscriptions == old(self).audio_subscriptions,
            final(self).current_quality == old(self).current_quality,
    {
        let _ = self.video_subscriptions.insert(speaker, manager);
    }

    /// Forgets the audio subscription to `speaker`; answers the audio
    /// forwarder to terminate, if any. The video subscription stays until the
    /// forwarder is terminated.
    pub fn disconnect_audio(&mut self, speaker: u128) -> (removed: Option<u64>)
        ensures
            final(self).audio_subscriptions@ == old(self).audio_subscriptions@.remove(speaker),
            final(self).video_subscriptions == old(self).video_subscriptions,
            final(self).current_quality == old(self).current_quality,
            removed == (if old(self).audio_subscriptions@.contains_key(speaker) {
                Some(old(self).audio_subscriptions@[speaker])
            } else {
                None::<u64>
            }),
    {
        self.audio_subscriptions.remove(&speaker)
    }

    /// Forgets the video subscription to `speaker`; answers the layer manager
    /// to terminate, if any.
    pub fn disconnect_video(&mut self, speaker: u128) -> (removed: Option<u64>)
        ensures
            final(self).video_subscriptions@ == old(self).video_subscriptions@.remove(speaker),
            final(self).audio_subscriptions == old(self).audio_subscriptions,
            final(self).current_quality == old(self).current_quality,
            removed == (if old(self).video_subscriptions@.contains_key(speaker) {
                Some(old(self).video_subscriptions@[speaker])
            } else {
                None::<u64>
            }),
    {
        self.video_subscriptions.remove(&speaker)
    }

    /// Everything to terminate when the participant stops: the audio
    /// forwarders, then the layer managers.
    pub fn stopping(&self) -> (all: (Vec<u64>, Vec<u64>))
        ensures
            lists_handles(self.audio_subscriptions@, all.0@),
            lists_handles(self.video_subscriptions@, all.1@),
    {
        (handles(&self.audio_subscriptions), handles(&self.video_subscriptions))
    }
}

/// What the subscribing connection of a participant is told.
pub enum SubscriberEvent {
    /// The connection quality changed.
    SwitchQualityLayer { quality: StreamQuality },
    /// A local ICE candidate was gathered.
    IceCandidate { candidate: IceCandidate },
    /// The signaling state of the peer connection changed.
    SignalingStateChanged(SignalingState),
    /// A negotiation message from the client.
    Websocket(MessageType),
    /// An audio forwarder for `speaker` was set up on the connection.
    ConnectAudio { speaker: u128, forwarder: u64 },
    /// A video layer of `speaker` is to be subscribed to.
    ConnectVideo { speaker: u128 },
    /// The participant `peer_id` left.
    Unsubscribe { peer_id: u128 },
    /// The audio forwarder of `speaker` that an `Unsubscribe` handed out was
    /// terminated, or there was none.
    AudioTerminated { speaker: u128 },
    /// The peer connection needs a new negotiation.
    OnNegotiationNeeded,
}

/// What the subscribing connection does in answer to an event.
#[derive(Debug, PartialEq, Eq)]
pub enum SubscriberAction {
    /// Tell each of these layer managers, in order, to switch to `quality`.
    SwitchLayers { managers: Vec<u64>, quality: StreamQuality },
    /// Send the message to the client through the participant.
    SendToUser(SignalMessage),
    /// Make an offer and send it to the client.
    MakeOffer,
    /// Carry out the negotiation step on the peer connection.
    Negotiate(NegotiationStep),
    /// The audio forwarder was recorded; `replaced` is the one it replaces.
    AudioConnected { replaced: Option<u64> },
    /// Subscribe to the video layer in this way.
    ConnectVideo(VideoConnect),
    /// Terminate the audio forwarder of `speaker`, if any, and report it with
    /// `AudioTerminated`; if that fails, stop.
    TerminateAudio { speaker: u128, audio: Option<u64> },
    /// Terminate the layer manager, if any; if that fails, stop.
    TerminateVideo { video: Option<u64> },
    /// Nothing to do.
    Nothing,
}

/// The subscribing connection of a participant: its subscriptions and its
/// offer gate.
pub struct SubscriberState {
    pub subscriptions: Subscriptions,
    pub offers: OfferGate,
}

impl SubscriberState {
    pub fn new() -> (s: SubscriberState)
        ensures
            s.subscriptions.audio_subscriptions@ == Map::<u128, u64>::empty(),
            s.subscriptions.video_subscriptions@ == Map::<u128, u64>::empty(),
            s.subscriptions.current_quality == StreamQuality::High,
            s.offers.signaling_state is None,
            !s.offers.should_send_offer,
    {
        SubscriberState { subscriptions: Subscriptions::new(), offers: OfferGate::new() }
    }

    /// Handles one event.
    pub fn handle(&mut self, event: SubscriberEvent) -> (action: SubscriberAction)
        ensures
            match event {
                SubscriberEvent::SwitchQualityLayer { quality } => {
                    &&& final(self).subscriptions.current_quality == quality
                    &&& final(self).subscriptions.audio_subscriptions == old(self).subscriptions.audio_subscriptions
                    &&& final(self).subscriptions.video_subscriptions == old(self).subscriptions.video_subscriptions
                    &&& final(self).offers == old(self).offers
                    &&& action matches SubscriberAction::SwitchLayers { managers, quality: q }
                    &&& q == quality
                    &&& lists_handles(old(self).subscriptions.video_subscriptions@, managers@)
                },
                SubscriberEvent::IceCandidate { candidate } => {
                    &&& *final(self) == *old(self)
                    &&& action == SubscriberAction::SendToUser(
                        SignalMessage::Rtc { target: Target::Subscriber, message_type: MessageType::Candidate { candidate } },
                    )
                },
                SubscriberEvent::SignalingStateChanged(state) => {
                    &&& final(self).subscriptions == old(self).subscriptions
                    &&& final(self).offers.signaling_state == Some(state)
                    &&& final(self).offers.should_send_offer == old(self).offers.should_send_offer
                    &&& action == if old(self).offers.should_send_offer && state == SignalingState::Stable
                        && may_offer(old(self).offers.signaling_state) {
                        SubscriberAction::MakeOffer
                    } else {
                        SubscriberAction::Nothing
                    }
                },
                SubscriberEvent::Websocket(m) => {
                    &&& *final(self) == *old(self)
                    &&& action matches SubscriberAction::Negotiate(step)
                    &&& step == match m {
                        MessageType::IceRestart { sdp } => NegotiationStep::AnswerOffer { sdp, subscribe_to_peers: false },
                        MessageType::Answer { sdp } => NegotiationStep::SetRemoteAnswer { sdp },
                        MessageType::Candidate { candidate } => NegotiationStep::AddCandidate(candidate),
                        MessageType::Offer { sdp } => NegotiationStep::Unsupported(MessageType::Offer { sdp }),
                    }
                },
                SubscriberEvent::ConnectAudio { speaker, forwarder } => {
                    &&& final(self).subscriptions.audio_subscriptions@
                        == old(self).subscriptions.audio_subscriptions@.insert(speaker, forwarder)
                    &&& final(self).subscriptions.video_subscriptions == old(self).subscriptions.video_subscriptions
                    &&& final(self).subscriptions.current_quality == old(self).subscriptions.current_quality
                    &&& final(self).offers == old(self).offers
                    &&& action == SubscriberAction::AudioConnected {
                        replaced: if old(self).subscriptions.audio_subscriptions@.contains_key(speaker) {
                            Some(old(self).subscriptions.audio_subscriptions@[speaker])
                        } else {
                            None::<u64>
                        },
                    }
                },
                SubscriberEvent::ConnectVideo { speaker } => {
                    &&& *final(self) == *old(self)
                    &&& action == SubscriberAction::ConnectVideo(
                        if old(self).subscriptions.video_subscriptions@.contains_key(speaker) {
                            VideoConnect::AddLayer { manager: old(self).subscriptions.video_subscriptions@[speaker] }
                        } else {
                            VideoConnect::NewManager { connection_quality: old(self).subscriptions.current_quality }
                        },
                    )
                },
                SubscriberEvent::Unsubscribe { peer_id } => {
                    &&& final(self).subscriptions.audio_subscriptions@
                        == old(self).subscriptions.audio_subscriptions@.remove(peer_id)
                    &&& final(self).subscriptions.video_subscriptions == old(self).subscriptions.video_subscriptions
                    &&& final(self).subscriptions.current_quality == old(self).subscriptions.current_quality
                    &&& final(self).offers == old(self).offers
                    &&& action == SubscriberAction::TerminateAudio {
                        speaker: peer_id,
                        audio: if old(self).subscriptions.audio_subscriptions@.contains_key(peer_id) {
                            Some(old(self).subscriptions.audio_subscriptions@[peer_id])
                        } else {
                            None::<u64>
                        },
                    }
                },
                SubscriberEvent::AudioTerminated { speaker } => {
                    &&& final(self).subscriptions.video_subscriptions@
                        == old(self).subscriptions.video_subscriptions@.remove(speaker)
                    &&& final(self).subscriptions.audio_subscriptions == old(self).subscriptions.audio_subscriptions
                    &&& final(self).subscriptions.current_quality == old(self).subscriptions.current_quality
                    &&& final(self).offers == old(self).offers
                    &&& action == SubscriberAction::TerminateVideo {
                        video: if old(self).subscriptions.video_subscriptions@.contains_key(speaker) {
                            Some(old(self).subscriptions.video_subscriptions@[speaker])
                        } else {
                            None::<u64>
                        },
                    }
                },
                SubscriberEvent::OnNegotiationNeeded => {
                    &&& final(self).subscriptions == old(self).subscriptions
                    &&& final(self).offers.signaling_state == old(self).offers.signaling_state
                    &&& final(self).offers.should_send_offer == (old(self).offers.should_send_offer || !may_offer(
                        old(self).offers.signaling_state,
                    ))
                    &&& action == if may_offer(old(self).offers.signaling_state) {
                        SubscriberAction::MakeOffer
                    } else {
                        SubscriberAction::Nothing
                    }
                },
            },
    {
        match event {
            SubscriberEvent::SwitchQualityLayer { quality } => {
                let managers = self.subscriptions.switch_quality_layer(quality);
                SubscriberAction::SwitchLayers { managers, quality }
            },
            SubscriberEvent::IceCandidate { candidate } => SubscriberAction::SendToUser(
                candidate_message(Target::Subscriber, candidate),
            ),
            SubscriberEvent::SignalingStateChanged(state) => {
                if self.offers.on_signaling_state(state) {
                    SubscriberAction::MakeOffer
                } else {
                    SubscriberAction::Nothing
                }
            },
            SubscriberEvent::Websocket(m) => SubscriberAction::Negotiate(subscriber_step(m)),
            SubscriberEvent::ConnectAudio { speaker, forwarder } => {
                let replaced = self.subscriptions.connect_audio(speaker, forwarder);
                SubscriberAction::AudioConnected { replaced }
            },
            SubscriberEvent::ConnectVideo { speaker } => SubscriberAction::ConnectVideo(
                self.subscriptions.plan_video(speaker),
            ),
            SubscriberEvent::Unsubscribe { peer_id } => {
                let audio = self.subscriptions.disconnect_audio(peer_id);
                SubscriberAction::TerminateAudio { speaker: peer_id, audio }
            },
            SubscriberEvent::AudioTerminated { speaker } => {
                let video = self.subscriptions.disconnect_video(speaker);
                SubscriberAction::TerminateVideo { video }
            },
            SubscriberEvent::OnNegotiationNeeded => {
                if self.offers.send_offer() {
                    SubscriberAction::MakeOffer
                } else {
                    SubscriberAction::Nothing
                }
            },
        }
    }
}

} // verus!
