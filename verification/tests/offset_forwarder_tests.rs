use sfu::offset_forwarder::{OffsetForwarderAction, OffsetForwarderMessage, VideoPacketForwarder};
use sfu::packet::{RtpHeader, RtpPacket};
use sfu::quality::{Codec, StreamQuality};

fn packet(seq: u16, ts: u32, payload: Vec<u8>) -> RtpPacket {
    RtpPacket {
        header: RtpHeader { marker: false, payload_type: 96, sequence_number: seq, timestamp: ts, ssrc: 11 },
        payload,
    }
}

fn write(f: &mut VideoPacketForwarder<u32>, quality: StreamQuality, p: RtpPacket) -> (Option<u32>, Option<RtpPacket>) {
    assert!(f.can_forward(quality, &p));
    match f.handle(OffsetForwarderMessage::RtpPacket { packet: p, quality }) {
        OffsetForwarderAction::Write { cancelled, packet } => (cancelled, packet),
        other => panic!("unexpected action {:?}", other),
    }
}

const KEY: [u8; 2] = [0x10, 0x00];
const DELTA: [u8; 2] = [0x10, 0x01];

#[test]
fn offset_forwarder_passes_current_layer_unchanged() {
    let mut f: VideoPacketForwarder<u32> = VideoPacketForwarder::new(Codec::VP8);
    assert_eq!(f.handle(OffsetForwarderMessage::Start { quality: StreamQuality::High, forwarder: 1 }), OffsetForwarderAction::SubscribeCurrent);
    let (cancelled, out) = write(&mut f, StreamQuality::High, packet(100, 1000, DELTA.to_vec()));
    assert_eq!(cancelled, None);
    assert_eq!(out, Some(packet(100, 1000, DELTA.to_vec())));
    assert_eq!(f.last_sequence_number, 100);
    assert_eq!(f.last_timestamp, 1000);
}

#[test]
fn offset_forwarder_drops_unrelated_layers() {
    let mut f: VideoPacketForwarder<u32> = VideoPacketForwarder::new(Codec::VP8);
    f.handle(OffsetForwarderMessage::Start { quality: StreamQuality::High, forwarder: 1 });
    let (cancelled, out) = write(&mut f, StreamQuality::Mid, packet(5, 5, KEY.to_vec()));
    assert_eq!((cancelled, out), (None, None));
}

#[test]
fn offset_forwarder_switches_only_at_key_frame() {
    let mut f: VideoPacketForwarder<u32> = VideoPacketForwarder::new(Codec::VP8);
    f.handle(OffsetForwarderMessage::Start { quality: StreamQuality::High, forwarder: 1 });
    write(&mut f, StreamQuality::High, packet(100, 1000, DELTA.to_vec()));
    assert_eq!(f.handle(OffsetForwarderMessage::LayerSwitched { quality: StreamQuality::Low, forwarder: 2 }), OffsetForwarderAction::SubscribePending);
    assert_eq!(f.handle(OffsetForwarderMessage::LayerSwitched { quality: StreamQuality::Mid, forwarder: 3 }), OffsetForwarderAction::Nothing);
    // a delta frame of the new layer is dropped
    let (cancelled, out) = write(&mut f, StreamQuality::Low, packet(7, 50, DELTA.to_vec()));
    assert_eq!((cancelled, out), (None, None));
    assert!(f.is_layer_switching);
    // the key frame completes the switch and continues the outgoing stream
    let (cancelled, out) = write(&mut f, StreamQuality::Low, packet(7, 50, KEY.to_vec()));
    assert_eq!(cancelled, Some(1));
    let out = out.unwrap();
    assert_eq!(out.header.sequence_number, 101);
    assert_eq!(out.header.timestamp, 1000);
    assert_eq!(f.sequence_number_offset, 94);
    assert_eq!(f.timestamp_offset, 950);
    assert_eq!(f.current_channel, Some(2));
    assert!(!f.is_layer_switching);
    // later packets of the new layer keep the offsets
    let (_, out) = write(&mut f, StreamQuality::Low, packet(8, 3050, DELTA.to_vec()));
    let out = out.unwrap();
    assert_eq!(out.header.sequence_number, 102);
    assert_eq!(out.header.timestamp, 4000);
}

#[test]
fn offset_forwarder_offsets_wrap_around() {
    let mut f: VideoPacketForwarder<u32> = VideoPacketForwarder::new(Codec::VP8);
    f.handle(OffsetForwarderMessage::Start { quality: StreamQuality::High, forwarder: 1 });
    write(&mut f, StreamQuality::High, packet(65535, 10, DELTA.to_vec()));
    f.handle(OffsetForwarderMessage::LayerSwitched { quality: StreamQuality::Low, forwarder: 2 });
    let (_, out) = write(&mut f, StreamQuality::Low, packet(300, 20, KEY.to_vec()));
    let out = out.unwrap();
    assert_eq!(out.header.sequence_number, 0);
    assert_eq!(out.header.timestamp, 10);
}

#[test]
fn offset_forwarder_key_frames_by_codec() {
    let vp9: VideoPacketForwarder<u32> = VideoPacketForwarder::new(Codec::VP9);
    assert!(vp9.is_key_frame(&packet(1, 1, vec![0x00, 0x02, 0x00])));
    let h264: VideoPacketForwarder<u32> = VideoPacketForwarder::new(Codec::H264);
    assert!(h264.is_key_frame(&packet(1, 1, vec![0x65])));
    let av1: VideoPacketForwarder<u32> = VideoPacketForwarder::new(Codec::AV1);
    assert!(!av1.is_key_frame(&packet(1, 1, vec![0x65])));
}

#[test]
fn offset_forwarder_refuses_switch_without_key_frame_parser() {
    let mut f: VideoPacketForwarder<u32> = VideoPacketForwarder::new(Codec::AV1);
    f.handle(OffsetForwarderMessage::Start { quality: StreamQuality::High, forwarder: 1 });
    f.handle(OffsetForwarderMessage::LayerSwitched { quality: StreamQuality::Low, forwarder: 2 });
    assert!(!f.can_forward(StreamQuality::Low, &packet(1, 1, vec![0x65])));
    assert!(f.can_forward(StreamQuality::High, &packet(1, 1, vec![0x65])));
}

#[test]
fn offset_forwarder_timestamps_wrap_modulo_2_32() {
    let mut f: VideoPacketForwarder<u32> = VideoPacketForwarder::new(Codec::VP8);
    f.handle(OffsetForwarderMessage::Start { quality: StreamQuality::High, forwarder: 1 });
    write(&mut f, StreamQuality::High, packet(40, 10, DELTA.to_vec()));
    f.handle(OffsetForwarderMessage::LayerSwitched { quality: StreamQuality::Low, forwarder: 2 });
    let (_, out) = write(&mut f, StreamQuality::Low, packet(1000, 0x9000_0000, KEY.to_vec()));
    let out = out.unwrap();
    assert_eq!(out.header.sequence_number, 41);
    assert_eq!(out.header.timestamp, 10);
    assert_eq!(f.timestamp_offset, 0x7000_000A);
    assert_eq!(f.sequence_number_offset, -959);
    // a later packet keeps its spacing from the switching one
    let (_, out) = write(&mut f, StreamQuality::Low, packet(1003, 0x9000_0100, DELTA.to_vec()));
    let out = out.unwrap();
    assert_eq!(out.header.sequence_number, 44);
    assert_eq!(out.header.timestamp, 266);
}

#[test]
fn offset_forwarder_negative_timestamp_offset() {
    let mut f: VideoPacketForwarder<u32> = VideoPacketForwarder::new(Codec::VP8);
    f.handle(OffsetForwarderMessage::Start { quality: StreamQuality::High, forwarder: 1 });
    write(&mut f, StreamQuality::High, packet(7, 0xF000_0000, DELTA.to_vec()));
    f.handle(OffsetForwarderMessage::LayerSwitched { quality: StreamQuality::Mid, forwarder: 2 });
    let (_, out) = write(&mut f, StreamQuality::Mid, packet(9, 0x1000_0000, KEY.to_vec()));
    assert_eq!(out.unwrap().header.timestamp, 0xF000_0000);
    assert_eq!(f.timestamp_offset, -0x2000_0000);
    let (_, out) = write(&mut f, StreamQuality::Mid, packet(10, 0x1000_0005, DELTA.to_vec()));
    let out = out.unwrap();
    assert_eq!(out.header.sequence_number, 9);
    assert_eq!(out.header.timestamp, 0xF000_0005);
}
