use sfu::actor::{pump_step, Mailbox, PumpDecision, StreamItem};
use sfu::gateway::{CreateRoomRequest, FileConfiguration};
use sfu::network::{interface_allowed, starts_with};
use sfu::publisher::{on_track, AudioTrack, CodecKind, PublishedTracks, TrackRoute, VideoTrack};
use sfu::quality::{Codec, StreamQuality};
use sfu::signal::{SignalMessage, SyncMessage, UserRoute};
use sfu::simulcast::{layer_quality, PumpStep, Received, SimulcastLayers, TimeoutGate};
use sfu::subscriber::{OfferGate, SignalingState, Subscriptions, VideoConnect};
use sfu::tracks::{audio_track_plan, audio_track_plan_with, prefixed, prefixed_id, video_track_plan, video_track_plan_with};
use sfu::user::{user_step, welcome, UserAction, UserMessage};

#[test]
fn offer_gate_defers_offers_during_negotiation() {
    let mut g = OfferGate::new();
    assert!(g.send_offer());
    assert!(!g.should_send_offer);
    assert!(!g.on_signaling_state(SignalingState::HaveLocalOffer));
    assert!(!g.send_offer());
    assert!(g.should_send_offer);
    // the remembered offer is tried against the state known before the change
    assert!(!g.on_signaling_state(SignalingState::Stable));
    assert!(g.on_signaling_state(SignalingState::Stable));
    assert_eq!(g.signaling_state, Some(SignalingState::Stable));
}

#[test]
fn subscriptions_track_speakers() {
    let mut s = Subscriptions::new();
    assert_eq!(s.current_quality, StreamQuality::High);
    assert_eq!(s.connect_audio(1, 10), None);
    assert_eq!(s.connect_audio(1, 11), Some(10));
    assert_eq!(s.plan_video(1), VideoConnect::NewManager { connection_quality: StreamQuality::High });
    s.register_video(1, 20);
    s.register_video(2, 21);
    assert_eq!(s.plan_video(1), VideoConnect::AddLayer { manager: 20 });
    let mut managers = s.switch_quality_layer(StreamQuality::Low);
    managers.sort();
    assert_eq!(managers, vec![20, 21]);
    assert_eq!(s.plan_video(3), VideoConnect::NewManager { connection_quality: StreamQuality::Low });
    let (audio, mut video) = s.stopping();
    video.sort();
    assert_eq!(audio, vec![11]);
    assert_eq!(video, vec![20, 21]);
    assert_eq!(s.disconnect_audio(1), Some(11));
    assert_eq!(s.plan_video(1), VideoConnect::AddLayer { manager: 20 });
    assert_eq!(s.disconnect_audio(1), None);
    assert_eq!(s.disconnect_video(1), Some(20));
    assert_eq!(s.disconnect_video(1), None);
    assert_eq!(s.plan_video(2), VideoConnect::AddLayer { manager: 21 });
}

#[test]
fn tracks_are_routed_by_kind() {
    assert_eq!(on_track(CodecKind::Video, "video/VP8"), TrackRoute::Video);
    assert_eq!(on_track(CodecKind::Audio, "audio/opus"), TrackRoute::Audio { codec: Codec::Audio("audio/opus".to_string()) });
    assert_eq!(on_track(CodecKind::Unspecified, "video/H264"), TrackRoute::Audio { codec: Codec::H264 });
}

#[test]
fn published_tracks_record_layers() {
    let mut t = PublishedTracks::new();
    assert!(!t.has_video(StreamQuality::Low));
    let announce = t.new_audio_track(AudioTrack { codec: Codec::Audio("audio/opus".to_string()), forwarder: 1 });
    assert_eq!(announce, (Codec::Audio("audio/opus".to_string()), 1));
    assert_eq!(t.new_video_track(StreamQuality::High, VideoTrack { codec: Codec::VP8, pli_sender: 30, forwarder: 3 }), (Codec::VP8, 3, 30));
    assert_eq!(t.new_video_track(StreamQuality::Low, VideoTrack { codec: Codec::VP8, pli_sender: 10, forwarder: 1 }), (Codec::VP8, 1, 10));
    assert!(t.has_video(StreamQuality::Low));
    assert!(!t.has_video(StreamQuality::Mid));
    let mut senders = t.pli_senders();
    senders.sort();
    assert_eq!(senders, vec![10, 30]);
}

#[test]
fn simulcast_layer_names() {
    assert_eq!(layer_quality(Some("low")), Ok(StreamQuality::Low));
    assert_eq!(layer_quality(Some("mid")), Ok(StreamQuality::Mid));
    assert_eq!(layer_quality(None), Ok(StreamQuality::High));
    assert!(layer_quality(Some("q")).is_err());
}

#[test]
fn simulcast_layers_route_by_ssrc() {
    let mut l = SimulcastLayers::new();
    assert_eq!(l.route(5), None);
    l.add_layer(5, 50);
    l.add_layer(6, 60);
    assert_eq!(l.route(5), Some(50));
    assert_eq!(l.route(6), Some(60));
    l.add_layer(5, 51);
    assert_eq!(l.route(5), Some(51));
}

#[test]
fn timeout_gate_reports_once() {
    let mut g = TimeoutGate::new();
    assert_eq!(g.on_receive(Received::TimedOut), PumpStep::Timeout);
    assert_eq!(g.on_receive(Received::TimedOut), PumpStep::Continue);
    assert_eq!(g.on_receive(Received::Packet), PumpStep::Forward);
    assert_eq!(g.on_receive(Received::TimedOut), PumpStep::Timeout);
    assert_eq!(g.on_receive(Received::Closed), PumpStep::Stop);
}

#[test]
fn track_plans_name_streams_by_peer() {
    let peer: u128 = 0x67e5_5044_10b1_426f_9247_bb68_0e5f_e0c8;
    let text = "67e55044-10b1-426f-9247-bb680e5fe0c8";
    assert_eq!(prefixed_id("video_", peer), format!("video_{}", text));
    let p = video_track_plan_with(peer, &Codec::VP9, 99, 1);
    assert_eq!(p.stream_id, format!("video_{}", text));
    assert_eq!(p.track_id, "00000000-0000-0000-0000-000000000001");
    assert_eq!(p.label, "Webcam");
    assert_eq!(p.kind, CodecKind::Video);
    assert_eq!(p.ssrc, 99);
    assert_eq!(p.mime_type, "video/VP9");
    assert_eq!(p.payload_type, 100);
    let a = audio_track_plan_with(peer, &Codec::Audio("audio/opus".to_string()), 7);
    assert_eq!(a.stream_id, format!("audio_{}", text));
    assert_eq!(a.track_id, a.stream_id);
    assert_eq!(a.label, "Microphone");
    assert_eq!(a.kind, CodecKind::Audio);
    assert_eq!(a.mime_type, "audio/opus");
    assert_eq!(a.payload_type, 0);
}

#[test]
fn random_track_plans_have_uuid_ids() {
    let p = video_track_plan(1, &Codec::H264);
    assert_eq!(p.stream_id.len(), 6 + 36);
    assert_eq!(p.track_id.len(), 36);
    assert_eq!(&p.track_id[14..15], "4");
    assert_eq!(p.payload_type, 102);
    let a = audio_track_plan(1, &Codec::Audio("audio/opus".to_string()));
    assert_eq!(a.stream_id, "audio_00000000-0000-0000-0000-000000000001");
}

#[test]
fn file_configuration_paths() {
    let c = FileConfiguration::with_file_id("/tmp/stats", 0xff);
    assert_eq!(c.path, "/tmp/stats/00000000-0000-0000-0000-0000000000ff.txt");
    let c = FileConfiguration::in_dir("out");
    assert!(c.path.starts_with("out/"));
    assert!(c.path.ends_with(".txt"));
    assert_eq!(c.path.len(), 4 + 36 + 4);
    let r = CreateRoomRequest { name: "room".to_string() };
    assert_eq!(r.name, "room");
}

#[test]
fn network_interface_filter() {
    assert!(starts_with("docker0", "docker"));
    assert!(!starts_with("dock", "docker"));
    assert!(interface_allowed("eth0"));
    assert!(interface_allowed("wlan0"));
    assert!(!interface_allowed("docker0"));
    assert!(!interface_allowed("br-1234"));
    assert!(!interface_allowed("veth99"));
    assert!(interface_allowed("abr-1"));
}

#[test]
fn actor_pump_and_mailbox() {
    assert_eq!(pump_step(StreamItem::Next(5)), PumpDecision::Send(5));
    assert_eq!(pump_step::<u8>(StreamItem::Skip), PumpDecision::Skip);
    assert_eq!(pump_step::<u8>(StreamItem::Close), PumpDecision::Stop);
    let mut m = Mailbox::new();
    assert!(m.keep_running());
    m.stop();
    assert!(!m.keep_running());
}

#[test]
fn user_steps() {
    assert_eq!(welcome(5), SignalMessage::Welcome { peer_id: 5 });
    let a: UserAction<u8, u8, u8> = user_step(UserMessage::SwitchQualityLayer { quality: StreamQuality::Mid });
    assert_eq!(a, UserAction::SwitchQuality { quality: StreamQuality::Mid, notice: SignalMessage::ConnectionQuality { quality: StreamQuality::Mid } });
    let a: UserAction<u8, u8, u8> = user_step(UserMessage::Unsubscribe { user_id: 4 });
    assert_eq!(a, UserAction::Unsubscribe { peer_id: 4, notice: SignalMessage::PeerLeft { peer_id: 4 } });
    let a: UserAction<u8, u8, u8> = user_step(UserMessage::RoomClosed);
    assert_eq!(a, UserAction::Stop);
    let a: UserAction<u8, u8, u8> = user_step(UserMessage::SyncMessage(SyncMessage::Close));
    assert_eq!(a, UserAction::Route(UserRoute::Stop));
    let a: UserAction<u8, u8, u8> = user_step(UserMessage::Reconnect(3));
    assert_eq!(a, UserAction::ReplaceClient(3));
    let a: UserAction<u8, u8, u8> = user_step(UserMessage::ConnectAudio(1));
    assert_eq!(a, UserAction::ConnectAudio(1));
    let a: UserAction<u8, u8, u8> = user_step(UserMessage::ConnectVideo(2));
    assert_eq!(a, UserAction::ConnectVideo(2));
    let a: UserAction<u8, u8, u8> = user_step(UserMessage::SignalMessage(SignalMessage::RoomInfo { name: "r".to_string() }));
    assert_eq!(a, UserAction::SendToClient(SignalMessage::RoomInfo { name: "r".to_string() }));
}

#[test]
fn names_are_joined_in_order() {
    assert_eq!(prefixed("video_", "abc"), "video_abc");
    assert_eq!(prefixed("", ""), "");
    assert_eq!(FileConfiguration::with_file_name("/data", "stats").path, "/data/stats.txt");
}
