use sfu::ice::{IceAction, IceConnectionState, IceRecovery, MAX_RETRY_ATTEMPTS};
use sfu::keyframe_request::{KeyframeInterceptor, Ping, PliSender, RequestKeyframe};
use sfu::packet::KeyframeRtcp;
use sfu::quality::{Error, StreamQuality};
use sfu::signal::{
    candidate_message, description_message, publisher_step, route_sync_message, subscriber_step, DescriptionKind,
    IceCandidate, MessageType, NegotiationStep, SignalMessage, SyncMessage, Target, UserRoute,
};

fn candidate() -> IceCandidate {
    IceCandidate { candidate: "candidate:1 1 UDP 1 10.0.0.1 5000 typ host".to_string(), sdp_mid: Some("0".to_string()), sdp_mline_index: Some(0) }
}

#[test]
fn interceptor_always_sends_fir() {
    let mut k = KeyframeInterceptor::new(77);
    assert_eq!(k.send_request(RequestKeyframe::Fir, 10_000_000_000), Some(KeyframeRtcp::Fir { ssrc: 77, sequence_number: 0 }));
    assert_eq!(k.send_request(RequestKeyframe::Fir, 0), Some(KeyframeRtcp::Fir { ssrc: 77, sequence_number: 1 }));
}

#[test]
fn interceptor_sends_pli_only_within_two_seconds() {
    let mut k = KeyframeInterceptor::new(77);
    assert_eq!(k.send_request(RequestKeyframe::Pli, 1_999_999_999), Some(KeyframeRtcp::Pli { ssrc: 77 }));
    assert_eq!(k.sequence_number, 1);
    assert_eq!(k.send_request(RequestKeyframe::Pli, 2_000_000_000), None);
    assert_eq!(k.sequence_number, 1);
}

#[test]
fn interceptor_sequence_wraps() {
    let mut k = KeyframeInterceptor::new(1);
    k.sequence_number = 255;
    assert_eq!(k.send_request(RequestKeyframe::Fir, 0), Some(KeyframeRtcp::Fir { ssrc: 1, sequence_number: 255 }));
    assert_eq!(k.sequence_number, 0);
}

#[test]
fn pli_sender_waits_five_seconds() {
    let mut p = PliSender::new(5);
    // a new sender asks at once
    assert_eq!(p.handle(Ping, 1_000), Some(5));
    assert_eq!(p.last_sent, Some(1_000));
    assert_eq!(p.handle(Ping, 1_000 + 4_999_999_999), None);
    assert_eq!(p.last_sent, Some(1_000));
    assert_eq!(p.handle(Ping, 1_000 + 5_000_000_000), Some(5));
    assert_eq!(p.last_sent, Some(5_000_001_000));
}

#[test]
fn pli_sender_sends_are_five_seconds_apart() {
    let mut p = PliSender::new(9);
    let mut sent = Vec::new();
    for now in (0..30u128).map(|s| s * 700_000_000) {
        if p.handle(Ping, now).is_some() {
            sent.push(now);
        }
    }
    assert_eq!(sent, vec![0, 5_600_000_000, 11_200_000_000, 16_800_000_000]);
    // a clock reading earlier than the last sending counts as no time
    assert_eq!(p.handle(Ping, 0), None);
}

#[test]
fn sync_messages_are_routed_by_target() {
    let offer = MessageType::Offer { sdp: "v=0".to_string() };
    assert_eq!(
        route_sync_message(SyncMessage::Message(SignalMessage::Rtc { target: Target::Publisher, message_type: offer })),
        UserRoute::ToPublisher(MessageType::Offer { sdp: "v=0".to_string() })
    );
    assert_eq!(
        route_sync_message(SyncMessage::Message(SignalMessage::Rtc { target: Target::Subscriber, message_type: MessageType::Answer { sdp: "a".to_string() } })),
        UserRoute::ToSubscriber(MessageType::Answer { sdp: "a".to_string() })
    );
    assert_eq!(route_sync_message(SyncMessage::Close), UserRoute::Stop);
    assert_eq!(
        route_sync_message(SyncMessage::Error("boom".to_string())),
        UserRoute::Fail(Error::SystemError { message: "boom".to_string() })
    );
    assert_eq!(route_sync_message(SyncMessage::Message(SignalMessage::Welcome { peer_id: 3 })), UserRoute::Ignore);
    assert_eq!(route_sync_message(SyncMessage::Message(SignalMessage::ConnectionQuality { quality: StreamQuality::Low })), UserRoute::Ignore);
}

#[test]
fn publisher_negotiation_steps() {
    assert_eq!(publisher_step(MessageType::Offer { sdp: "o".to_string() }), NegotiationStep::AnswerOffer { sdp: "o".to_string(), subscribe_to_peers: true });
    assert_eq!(publisher_step(MessageType::IceRestart { sdp: "r".to_string() }), NegotiationStep::AnswerOffer { sdp: "r".to_string(), subscribe_to_peers: false });
    assert_eq!(publisher_step(MessageType::Answer { sdp: "a".to_string() }), NegotiationStep::SetRemoteAnswer { sdp: "a".to_string() });
    assert_eq!(publisher_step(MessageType::Candidate { candidate: candidate() }), NegotiationStep::AddCandidate(candidate()));
}

#[test]
fn subscriber_negotiation_steps() {
    assert_eq!(subscriber_step(MessageType::Offer { sdp: "o".to_string() }), NegotiationStep::Unsupported(MessageType::Offer { sdp: "o".to_string() }));
    assert_eq!(subscriber_step(MessageType::IceRestart { sdp: "r".to_string() }), NegotiationStep::AnswerOffer { sdp: "r".to_string(), subscribe_to_peers: false });
    assert_eq!(subscriber_step(MessageType::Answer { sdp: "a".to_string() }), NegotiationStep::SetRemoteAnswer { sdp: "a".to_string() });
    assert_eq!(subscriber_step(MessageType::Candidate { candidate: candidate() }), NegotiationStep::AddCandidate(candidate()));
}

#[test]
fn outgoing_signal_messages() {
    assert_eq!(
        candidate_message(Target::Subscriber, candidate()),
        SignalMessage::Rtc { target: Target::Subscriber, message_type: MessageType::Candidate { candidate: candidate() } }
    );
    assert_eq!(
        description_message(Target::Publisher, DescriptionKind::Answer, "s".to_string()),
        SignalMessage::Rtc { target: Target::Publisher, message_type: MessageType::Answer { sdp: "s".to_string() } }
    );
    assert_eq!(
        description_message(Target::Subscriber, DescriptionKind::Offer, "s".to_string()),
        SignalMessage::Rtc { target: Target::Subscriber, message_type: MessageType::Offer { sdp: "s".to_string() } }
    );
    assert_eq!(
        description_message(Target::Subscriber, DescriptionKind::IceRestart, "s".to_string()),
        SignalMessage::Rtc { target: Target::Subscriber, message_type: MessageType::IceRestart { sdp: "s".to_string() } }
    );
}

#[test]
fn ice_recovery_restarts_and_reconnects() {
    let mut r = IceRecovery::new();
    assert_eq!(r.on_state_change(IceConnectionState::Connected), IceAction::Nothing);
    assert_eq!(r.on_state_change(IceConnectionState::Disconnected), IceAction::RestartIce);
    r.record_restart();
    assert_eq!(r.retry_connect_attempts, 1);
    assert_eq!(r.on_state_change(IceConnectionState::Checking), IceAction::Nothing);
    assert_eq!(r.on_state_change(IceConnectionState::Connected), IceAction::Reconnected);
    assert_eq!(r.retry_connect_attempts, 0);
    assert!(!r.disconnected);
    assert_eq!(r.on_state_change(IceConnectionState::Failed), IceAction::RestartIce);
}

#[test]
fn ice_recovery_gives_up_after_max_attempts() {
    assert_eq!(MAX_RETRY_ATTEMPTS, 3);
    let mut r = IceRecovery::new();
    r.on_state_change(IceConnectionState::Failed);
    for _ in 0..3 {
        assert_eq!(r.check(IceConnectionState::Failed), IceAction::RecheckLater);
        r.record_restart();
    }
    assert_eq!(r.check(IceConnectionState::Failed), IceAction::Stop);
    assert_eq!(r.check(IceConnectionState::Disconnected), IceAction::Stop);
    assert_eq!(r.check(IceConnectionState::Connected), IceAction::Nothing);
}
