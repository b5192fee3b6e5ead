use sfu::audio::{unsubscribes_on, AudioPacketForwarder, Close, RtpPacketMessage};
use sfu::forwarder::{from_router, VideoPacketForwarder, VideoPacketForwarderAction, VideoPacketForwarderMessage};
use sfu::packet::{RtpHeader, RtpPacket};
use sfu::quality::StreamQuality;

fn packet(seq: u16, ts: u32, marker: bool, payload: Vec<u8>) -> RtpPacket {
    RtpPacket {
        header: RtpHeader { marker, payload_type: 120, sequence_number: seq, timestamp: ts, ssrc: 999 },
        payload,
    }
}

fn written(action: VideoPacketForwarderAction<u32>) -> (Option<u32>, Option<RtpPacket>) {
    match action {
        VideoPacketForwarderAction::Write { cancelled, packet } => (cancelled, packet),
        other => panic!("unexpected action {:?}", other),
    }
}

fn rtp(p: RtpPacket, quality: StreamQuality, elapsed_micros: u64) -> VideoPacketForwarderMessage<u32> {
    VideoPacketForwarderMessage::RtpPacket { packet: p, quality, elapsed_micros }
}

#[test]
fn forwarder_rewrites_headers() {
    let mut f: VideoPacketForwarder<u32> = VideoPacketForwarder::new(42, 96);
    assert_eq!(f.handle(VideoPacketForwarderMessage::Start { quality: StreamQuality::High, router: 1 }), VideoPacketForwarderAction::SubscribeCurrent);
    let (cancelled, out) = written(f.handle(rtp(packet(500, 7, false, vec![1, 2]), StreamQuality::High, 1_000_000)));
    assert_eq!(cancelled, None);
    let out = out.unwrap();
    assert_eq!(out.header, RtpHeader { marker: false, payload_type: 96, sequence_number: 1, timestamp: 0, ssrc: 42 });
    assert_eq!(out.payload, vec![1, 2]);
}

#[test]
fn forwarder_marker_moves_the_clock() {
    let mut f: VideoPacketForwarder<u32> = VideoPacketForwarder::new(42, 96);
    f.handle(VideoPacketForwarderMessage::Start { quality: StreamQuality::High, router: 1 });
    let (_, out) = written(f.handle(rtp(packet(1, 0, true, vec![]), StreamQuality::High, 1_000_000)));
    assert_eq!(out.unwrap().header.timestamp, 0);
    assert_eq!(f.current_generated_ts, 90_000);
    let (_, out) = written(f.handle(rtp(packet(2, 0, false, vec![]), StreamQuality::High, 2_000_000)));
    let out = out.unwrap();
    assert_eq!(out.header.timestamp, 90_000);
    assert_eq!(out.header.sequence_number, 2);
}

#[test]
fn forwarder_drops_other_layers() {
    let mut f: VideoPacketForwarder<u32> = VideoPacketForwarder::new(42, 96);
    f.handle(VideoPacketForwarderMessage::Start { quality: StreamQuality::High, router: 1 });
    let (cancelled, out) = written(f.handle(rtp(packet(1, 0, false, vec![]), StreamQuality::Low, 0)));
    assert_eq!(cancelled, None);
    assert_eq!(out, None);
    assert_eq!(f.last_sequence_number, 0);
}

#[test]
fn forwarder_layer_switch_completes_on_new_layer() {
    let mut f: VideoPacketForwarder<u32> = VideoPacketForwarder::new(42, 96);
    f.handle(VideoPacketForwarderMessage::Start { quality: StreamQuality::High, router: 1 });
    assert_eq!(f.handle(VideoPacketForwarderMessage::LayerSwitched { quality: StreamQuality::Low, router: 2 }), VideoPacketForwarderAction::SubscribePending);
    assert!(f.is_layer_switching);
    // a second switch while one is pending does nothing
    assert_eq!(f.handle(VideoPacketForwarderMessage::LayerSwitched { quality: StreamQuality::Mid, router: 3 }), VideoPacketForwarderAction::Nothing);
    // packets of the old layer still flow
    let (cancelled, out) = written(f.handle(rtp(packet(1, 0, false, vec![]), StreamQuality::High, 0)));
    assert_eq!(cancelled, None);
    assert_eq!(out.unwrap().header.sequence_number, 1);
    // the first packet of the new layer completes the switch
    let (cancelled, out) = written(f.handle(rtp(packet(9, 0, false, vec![]), StreamQuality::Low, 0)));
    assert_eq!(cancelled, Some(1));
    assert_eq!(out.unwrap().header.sequence_number, 2);
    assert!(!f.is_layer_switching);
    assert_eq!(f.current_channel, Some(2));
    assert_eq!(f.current_quality, Some(StreamQuality::Low));
}

#[test]
fn forwarder_switch_to_same_layer_is_ignored() {
    let mut f: VideoPacketForwarder<u32> = VideoPacketForwarder::new(42, 96);
    f.handle(VideoPacketForwarderMessage::Start { quality: StreamQuality::Mid, router: 1 });
    assert_eq!(f.handle(VideoPacketForwarderMessage::LayerSwitched { quality: StreamQuality::Mid, router: 2 }), VideoPacketForwarderAction::Nothing);
    assert!(!f.is_layer_switching);
}

#[test]
fn forwarder_reset_and_timeout() {
    let mut f: VideoPacketForwarder<u32> = VideoPacketForwarder::new(42, 96);
    assert_eq!(f.handle(VideoPacketForwarderMessage::Reset), VideoPacketForwarderAction::Nothing);
    f.handle(VideoPacketForwarderMessage::Start { quality: StreamQuality::Mid, router: 1 });
    assert_eq!(f.handle(VideoPacketForwarderMessage::Reset), VideoPacketForwarderAction::ResubscribeCurrent);
    f.handle(VideoPacketForwarderMessage::LayerSwitched { quality: StreamQuality::Low, router: 2 });
    assert_eq!(f.handle(VideoPacketForwarderMessage::Reset), VideoPacketForwarderAction::Nothing);
    assert_eq!(f.handle(VideoPacketForwarderMessage::Timeout), VideoPacketForwarderAction::NotifyTimeout);
    assert_eq!(f.handle(VideoPacketForwarderMessage::MissedPackets(vec![1, 2])), VideoPacketForwarderAction::Nothing);
    assert_eq!(f.into_channels(), (Some(1), Some(2)));
}

#[test]
fn forwarder_sequence_number_wraps() {
    let mut f: VideoPacketForwarder<u32> = VideoPacketForwarder::new(42, 96);
    f.last_sequence_number = u16::MAX;
    f.handle(VideoPacketForwarderMessage::Start { quality: StreamQuality::High, router: 1 });
    let (_, out) = written(f.handle(rtp(packet(1, 0, false, vec![]), StreamQuality::High, 0)));
    assert_eq!(out.unwrap().header.sequence_number, 0);
}

#[test]
fn forwarder_from_router_messages() {
    let m: VideoPacketForwarderMessage<u32> = from_router(RtpPacketMessage::Timeout, 5);
    assert_eq!(m, VideoPacketForwarderMessage::Timeout);
    let p = packet(3, 4, true, vec![9]);
    let m: VideoPacketForwarderMessage<u32> = from_router(RtpPacketMessage::Packet(StreamQuality::Mid, p), 5);
    assert_eq!(m, VideoPacketForwarderMessage::RtpPacket { packet: packet(3, 4, true, vec![9]), quality: StreamQuality::Mid, elapsed_micros: 5 });
}

#[test]
fn audio_forwarder_sets_its_ssrc() {
    let f = AudioPacketForwarder::new(5);
    let out = f.on_router_message(RtpPacketMessage::Packet(StreamQuality::Audio, packet(3, 4, true, vec![1]))).unwrap();
    assert_eq!(out.header, RtpHeader { marker: true, payload_type: 120, sequence_number: 3, timestamp: 4, ssrc: 5 });
    assert_eq!(out.payload, vec![1]);
    assert_eq!(f.on_router_message(RtpPacketMessage::Timeout), None);
}

#[test]
fn audio_close_reasons() {
    assert!(unsubscribes_on(Close::StreamForwardFail));
    assert!(!unsubscribes_on(Close::UserDisconnect));
}
