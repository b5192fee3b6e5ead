use sfu::publisher::{published_layer, CodecKind, PublisherAction, PublisherEvent, PublisherState, TrackRoute};
use sfu::quality::{Codec, StreamQuality};
use sfu::room::{PeerStream, VideoRouterStream};
use sfu::signal::{IceCandidate, MessageType, NegotiationStep, SignalMessage, Target};
use sfu::subscriber::{SignalingState, SubscriberAction, SubscriberEvent, SubscriberState, VideoConnect};

fn candidate() -> IceCandidate {
    IceCandidate { candidate: "c".to_string(), sdp_mid: None, sdp_mline_index: Some(1) }
}

fn stream(n: u64) -> VideoRouterStream {
    VideoRouterStream { router: n, codec: Codec::VP8, keyframe_interceptor: n + 1, wake_tx: n + 2 }
}

#[test]
fn published_layers_by_rid() {
    assert_eq!(published_layer(CodecKind::Audio, "low"), StreamQuality::Audio);
    assert_eq!(published_layer(CodecKind::Unspecified, ""), StreamQuality::Audio);
    assert_eq!(published_layer(CodecKind::Video, "low"), StreamQuality::Low);
    assert_eq!(published_layer(CodecKind::Video, "mid"), StreamQuality::Mid);
    assert_eq!(published_layer(CodecKind::Video, ""), StreamQuality::High);
    assert_eq!(published_layer(CodecKind::Video, "x"), StreamQuality::High);
}

#[test]
fn peer_stream_codec() {
    let s = PeerStream { packet_subscription: 3u8, mime_type: "video/VP9".to_string() };
    assert_eq!(s.codec(), Codec::VP9);
    let s = PeerStream { packet_subscription: 3u8, mime_type: "audio/opus".to_string() };
    assert_eq!(s.codec(), Codec::Audio("audio/opus".to_string()));
}

#[test]
fn publisher_dispatch() {
    let mut p = PublisherState::new();
    assert_eq!(
        p.handle(PublisherEvent::Websocket(MessageType::Offer { sdp: "o".to_string() })),
        PublisherAction::Negotiate(NegotiationStep::AnswerOffer { sdp: "o".to_string(), subscribe_to_peers: true })
    );
    assert_eq!(
        p.handle(PublisherEvent::IceCandidate { candidate: candidate() }),
        PublisherAction::SendToUser(SignalMessage::Rtc { target: Target::Publisher, message_type: MessageType::Candidate { candidate: candidate() } })
    );
    assert_eq!(
        p.handle(PublisherEvent::NewVideoTrack { quality: StreamQuality::Low, video_router_stream: stream(10) }),
        PublisherAction::AnnounceVideo { quality: StreamQuality::Low, video_router_stream: stream(10) }
    );
    p.handle(PublisherEvent::NewVideoTrack { quality: StreamQuality::High, video_router_stream: stream(20) });
    assert_eq!(p.keyframe_interceptors, vec![11, 21]);
    assert_eq!(p.handle(PublisherEvent::OnTrack { kind: CodecKind::Video, mime_type: "video/VP8".to_string() }), PublisherAction::RouteTrack(TrackRoute::Video));
    assert_eq!(
        p.handle(PublisherEvent::OnTrack { kind: CodecKind::Audio, mime_type: "audio/opus".to_string() }),
        PublisherAction::RouteTrack(TrackRoute::Audio { codec: Codec::Audio("audio/opus".to_string()) })
    );
}

#[test]
fn subscriber_dispatch() {
    let mut s = SubscriberState::new();
    assert_eq!(s.handle(SubscriberEvent::OnNegotiationNeeded), SubscriberAction::MakeOffer);
    assert_eq!(s.handle(SubscriberEvent::SignalingStateChanged(SignalingState::HaveLocalOffer)), SubscriberAction::Nothing);
    assert_eq!(s.handle(SubscriberEvent::OnNegotiationNeeded), SubscriberAction::Nothing);
    assert_eq!(s.handle(SubscriberEvent::SignalingStateChanged(SignalingState::Stable)), SubscriberAction::Nothing);
    assert_eq!(s.handle(SubscriberEvent::SignalingStateChanged(SignalingState::Stable)), SubscriberAction::MakeOffer);
    assert_eq!(s.handle(SubscriberEvent::ConnectAudio { speaker: 1, forwarder: 5 }), SubscriberAction::AudioConnected { replaced: None });
    assert_eq!(s.handle(SubscriberEvent::ConnectVideo { speaker: 1 }), SubscriberAction::ConnectVideo(VideoConnect::NewManager { connection_quality: StreamQuality::High }));
    s.subscriptions.register_video(1, 9);
    assert_eq!(s.handle(SubscriberEvent::ConnectVideo { speaker: 1 }), SubscriberAction::ConnectVideo(VideoConnect::AddLayer { manager: 9 }));
    assert_eq!(
        s.handle(SubscriberEvent::SwitchQualityLayer { quality: StreamQuality::Mid }),
        SubscriberAction::SwitchLayers { managers: vec![9], quality: StreamQuality::Mid }
    );
    assert_eq!(
        s.handle(SubscriberEvent::Websocket(MessageType::Answer { sdp: "a".to_string() })),
        SubscriberAction::Negotiate(NegotiationStep::SetRemoteAnswer { sdp: "a".to_string() })
    );
    assert_eq!(
        s.handle(SubscriberEvent::IceCandidate { candidate: candidate() }),
        SubscriberAction::SendToUser(SignalMessage::Rtc { target: Target::Subscriber, message_type: MessageType::Candidate { candidate: candidate() } })
    );
    assert_eq!(s.handle(SubscriberEvent::Unsubscribe { peer_id: 1 }), SubscriberAction::TerminateAudio { speaker: 1, audio: Some(5) });
    // the video subscription stays until the audio forwarder is terminated
    assert_eq!(s.subscriptions.plan_video(1), VideoConnect::AddLayer { manager: 9 });
    assert_eq!(s.handle(SubscriberEvent::AudioTerminated { speaker: 1 }), SubscriberAction::TerminateVideo { video: Some(9) });
    assert_eq!(s.handle(SubscriberEvent::Unsubscribe { peer_id: 1 }), SubscriberAction::TerminateAudio { speaker: 1, audio: None });
    assert_eq!(s.handle(SubscriberEvent::AudioTerminated { speaker: 1 }), SubscriberAction::TerminateVideo { video: None });
}
