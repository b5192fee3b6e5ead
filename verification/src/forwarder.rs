use vstd::prelude::*;
use crate::packet::{RtpHeader, RtpPacket};
use crate::audio::RtpPacketMessage;
use crate::quality::StreamQuality;

verus! {

/// The RTP timestamp, at the 90 kHz video clock, of the moment
/// `elapsed_micros` microseconds after the forwarder started, kept to 32 bits.
pub open spec fn video_clock(elapsed_micros: u64) -> u32 {
    (elapsed_micros.wrapping_mul(9) / 100) as u32
}

/// What a video packet forwarder is told; `R` is the handle of a gateway
/// router.
#[derive(Debug, PartialEq, Eq)]
pub enum VideoPacketForwarderMessage<R> {
    /// A packet of layer `quality` arrived, `elapsed_micros` after the
    /// forwarder started.
    RtpPacket { packet: RtpPacket, quality: StreamQuality, elapsed_micros: u64 },
    /// The router of the current layer timed out.
    Timeout,
    /// Subscribe again to the current layer.
    Reset,
    /// Start forwarding layer `quality`, routed by `router`.
    Start { quality: StreamQuality, router: R },
    /// Switch to layer `quality`, routed by `router`.
    LayerSwitched { quality: StreamQuality, router: R },
    /// The receiver reported packets as missing.
    MissedPackets(Vec<u16>),
}

/// The forwarder's message for what a router delivered, `elapsed_micros`
/// after the forwarder started.
pub fn from_router<R>(message: RtpPacketMessage, elapsed_micros: u64) -> (m: VideoPacketForwarderMessage<R>)
    ensures
        match message {
            RtpPacketMessage::Packet(quality, packet) => m == (VideoPacketForwarderMessage::<R>::RtpPacket {
                packet,
                quality,
                elapsed_micros,
            }),
            RtpPacketMessage::Timeout => m is Timeout,
        },
{
    match message {
        RtpPacketMessage::Packet(quality, packet) => VideoPacketForwarderMessage::RtpPacket {
            packet,
            quality,
            elapsed_micros,
        },
        RtpPacketMessage::Timeout => VideoPacketForwarderMessage::Timeout,
    }
}

/// What a video packet forwarder does in answer to a message.
#[derive(Debug, PartialEq, Eq)]
pub enum VideoPacketForwarderAction<R> {
    /// Unsubscribe from `cancelled`, if any, then write `packet`, if any, to
    /// the outgoing track.
    Write { cancelled: Option<R>, packet: Option<RtpPacket> },
    /// Report the timeout to the layer manager.
    NotifyTimeout,
    /// Unsubscribe from the current router and subscribe to it again.
    ResubscribeCurrent,
    /// Subscribe to the current router.
    SubscribeCurrent,
    /// Subscribe to the pending router.
    SubscribePending,
    /// Nothing to do.
    Nothing,
}

/// Writes one simulcast layer of a remote video track to a local track,
/// switching layers on request. Outgoing packets carry the forwarder's own
/// SSRC and payload type, a sequence number of its own that grows by one with
/// each written packet, and a timestamp of its own that moves on with each
/// frame.
pub struct VideoPacketForwarder<R> {
    pub current_quality: Option<StreamQuality>,
    pub current_channel: Option<R>,
    pub pending_channel: Option<R>,
    pub ssrc: u32,
    pub payload_type: u8,
    pub current_generated_ts: u32,
    pub last_sequence_number: u16,
    pub is_layer_switching: bool,
}

impl<R> VideoPacketForwarder<R> {
    /// A forwarder switches layers exactly while it holds a pending router.
    pub open spec fn wf(&self) -> bool {
        self.pending_channel.is_some() == self.is_layer_switching
    }

    /// The header that the forwarder gives to the next packet it writes.
    pub open spec fn rewritten(self, h: RtpHeader) -> RtpHeader {
        RtpHeader {
            marker: h.marker,
            payload_type: self.payload_type,
            sequence_number: self.last_sequence_number.wrapping_add(1),
            timestamp: self.current_generated_ts,
            ssrc: self.ssrc,
        }
    }

    /// How a packet of layer `quality` changes the forwarder from `self` to
    /// `next`, with `cancelled` the router to unsubscribe from and `out` the
    /// packet to write.
    pub open spec fn forwarded(
        self,
        next: Self,
        quality: StreamQuality,
        packet: RtpPacket,
        elapsed_micros: u64,
        cancelled: Option<R>,
        out: Option<RtpPacket>,
    ) -> bool {
        let switched = self.is_layer_switching && self.current_quality != Some(quality);
        &&& next.ssrc == self.ssrc
        &&& next.payload_type == self.payload_type
        &&& switched ==> {
            &&& next.current_quality == Some(quality)
            &&& !next.is_layer_switching
            &&& next.current_channel == self.pending_channel
            &&& next.pending_channel is None
            &&& cancelled == self.current_channel
        }
        &&& !switched ==> {
            &&& next.current_quality == self.current_quality
            &&& next.is_layer_switching == self.is_layer_switching
            &&& next.current_channel == self.current_channel
            &&& next.pending_channel == self.pending_channel
            &&& cancelled is None
        }
        &&& next.current_quality == Some(quality) ==> {
            &&& out matches Some(p)
            &&& p.header == self.rewritten(packet.header)
            &&& p.payload == packet.payload
            &&& next.last_sequence_number == self.last_sequence_number.wrapping_add(1)
            &&& next.current_generated_ts == (if packet.header.marker {
                video_clock(elapsed_micros)
            } else {
                self.current_generated_ts
            })
        }
        &&& next.current_quality != Some(quality) ==> {
            &&& out is None
            &&& next.last_sequence_number == self.last_sequence_number
            &&& next.current_generated_ts == self.current_generated_ts
        }
    }

    /// A forwarder of nothing yet, whose packets will carry `ssrc` and
    /// `payload_type`.
    pub fn new(ssrc: u32, payload_type: u8) -> (f: Self)
        ensures
            f.wf(),
            f.current_quality is None,
            f.current_channel is None,
            f.pending_channel is None,
            f.ssrc == ssrc,
            f.payload_type == payload_type,
            f.current_generated_ts == 0,
            f.last_sequence_number == 0,
            !f.is_layer_switching,
    {
        VideoPacketForwarder {
            current_quality: None,
            current_channel: None,
            pending_channel: None,
            ssrc,
            payload_type,
            current_generated_ts: 0,
            last_sequence_number: 0,
            is_layer_switching: false,
        }
    }

    /// Gives the packet the forwarder's own header values; a packet that ends
    /// a frame moves the generated timestamp to the clock time.
    pub fn modify_header(&mut self, packet: &mut RtpPacket, elapsed_micros: u64)
        ensures
            final(packet).header == old(self).rewritten(old(packet).header),
            final(packet).header.marker == old(packet).header.marker,
            final(packet).header.payload_type == old(self).payload_type,
            final(packet).header.ssrc == old(self).ssrc,
            final(packet).header.sequence_number == old(self).last_sequence_number.wrapping_add(1),
            final(packet).header.timestamp == old(self).current_generated_ts,
            final(packet).payload == old(packet).payload,
            final(self).last_sequence_number == old(self).last_sequence_number.wrapping_add(1),
            final(self).current_generated_ts == (if old(packet).header.marker {
                video_clock(elapsed_micros)
            } else {
                old(self).current_generated_ts
            }),
            final(self).current_quality == old(self).current_quality,
            final(self).current_channel == old(self).current_channel,
            final(self).pending_channel == old(self).pending_channel,
            final(self).ssrc == old(self).ssrc,
            final(self).payload_type == old(self).payload_type,
            final(self).is_layer_switching == old(self).is_layer_switching,
    {
        self.last_sequence_number = self.last_sequence_number.wrapping_add(1);
        packet.header.payload_type = self.payload_type;
        packet.header.ssrc = self.ssrc;
        packet.header.sequence_number = self.last_sequence_number;
        packet.header.timestamp = self.current_generated_ts;
        if packet.header.marker {
            let target_timestamp = elapsed_micros.wrapping_mul(9) / 100;
            self.current_generated_ts = target_timestamp as u32;
        }
    }

    /// A packet of layer `quality` arrived. The first packet of a new layer
    /// during a switch completes the switch: the pending router becomes the
    /// current one and the previous current router is handed back to be
    /// unsubscribed from. Packets of the current layer are written; packets of
    /// other layers are dropped.
    pub fn forward(&mut self, quality: StreamQuality, packet: RtpPacket, elapsed_micros: u64)
        -> (r: (Option<R>, Option<RtpPacket>))
        requires
            old(self).wf(),
        ensures
            final(self).wf(),
            final(self).ssrc == old(self).ssrc,
            final(self).payload_type == old(self).payload_type,
            old(self).forwarded(*final(self), quality, packet, elapsed_micros, r.0, r.1),
            r.1 matches Some(p) ==> p.header.marker == packet.header.marker && p.payload == packet.payload,
    {
        let mut cancelled: Option<R> = None;
        if self.is_layer_switching && self.current_quality != Some(quality) {
            self.current_quality = Some(quality);
            self.is_layer_switching = false;
            if let Some(pending_channel) = self.pending_channel.take() {
                cancelled = self.current_channel.take();
                self.current_channel = Some(pending_channel);
            }
        }
        if self.current_quality == Some(quality) {
            let mut packet = packet;
            self.modify_header(&mut packet, elapsed_micros);
            (cancelled, Some(packet))
        } else {
            (cancelled, None)
        }
    }

    /// Handles one message.
    pub fn handle(&mut self, msg: VideoPacketForwarderMessage<R>) -> (action: VideoPacketForwarderAction<R>)
        requires
            old(self).wf(),
        ensures
            final(self).wf(),
            final(self).ssrc == old(self).ssrc,
            final(self).payload_type == old(self).payload_type,
            match msg {
                VideoPacketForwarderMessage::RtpPacket { packet, quality, elapsed_micros } =>
                    action matches VideoPacketForwarderAction::Write { cancelled, packet: out }
                    && old(self).forwarded(*final(self), quality, packet, elapsed_micros, cancelled, out),
                VideoPacketForwarderMessage::Timeout => action is NotifyTimeout && *final(self) == *old(self),
                VideoPacketForwarderMessage::Reset => *final(self) == *old(self) && (if !old(self).is_layer_switching
                    && old(self).current_channel is Some {
                    action is ResubscribeCurrent
                } else {
                    action is Nothing
                }),
                VideoPacketForwarderMessage::Start { quality, router } => {
                    &&& action is SubscribeCurrent
                    &&& final(self).current_quality == Some(quality)
                    &&& final(self).current_channel == Some(router)
                    &&& final(self).pending_channel == old(self).pending_channel
                    &&& final(self).is_layer_switching == old(self).is_layer_switching
                    &&& final(self).last_sequence_number == old(self).last_sequence_number
                    &&& final(self).current_generated_ts == old(self).current_generated_ts
                },
                VideoPacketForwarderMessage::LayerSwitched { quality, router } => if !old(self).is_layer_switching
                    && old(self).current_quality != Some(quality) {
                    &&& action is SubscribePending
                    &&& final(self).is_layer_switching
                    &&& final(self).pending_channel == Some(router)
                    &&& final(self).current_quality == old(self).current_quality
                    &&& final(self).current_channel == old(self).current_channel
                    &&& final(self).last_sequence_number == old(self).last_sequence_number
                    &&& final(self).current_generated_ts == old(self).current_generated_ts
                } else {
                    action is Nothing && *final(self) == *old(self)
                },
                VideoPacketForwarderMessage::MissedPackets(_) => action is Nothing && *final(self) == *old(self),
            },
    {
        match msg {
            VideoPacketForwarderMessage::Reset => {
                if self.is_layer_switching {
                    return VideoPacketForwarderAction::Nothing;
                }
                if self.current_channel.is_some() {
                    VideoPacketForwarderAction::ResubscribeCurrent
                } else {
                    VideoPacketForwarderAction::Nothing
                }
            },
            VideoPacketForwarderMessage::LayerSwitched { quality, router } => {
                if !self.is_layer_switching && self.current_quality != Some(quality) {
                    self.is_layer_switching = true;
                    self.pending_channel = Some(router);
                    VideoPacketForwarderAction::SubscribePending
                } else {
                    VideoPacketForwarderAction::Nothing
                }
            },
            VideoPacketForwarderMessage::Start { quality, router } => {
                self.current_quality = Some(quality);
                self.current_channel = Some(router);
                VideoPacketForwarderAction::SubscribeCurrent
            },
            VideoPacketForwarderMessage::RtpPacket { packet, quality, elapsed_micros } => {
                let (cancelled, packet) = self.forward(quality, packet, elapsed_micros);
                VideoPacketForwarderAction::Write { cancelled, packet }
            },
            VideoPacketForwarderMessage::Timeout => VideoPacketForwarderAction::NotifyTimeout,
            VideoPacketForwarderMessage::MissedPackets(_) => VideoPacketForwarderAction::Nothing,
        }
    }

    /// The routers to unsubscribe from when the forwarder stops: the current
    /// one, then the pending one.
    pub fn into_channels(self) -> (r: (Option<R>, Option<R>))
        ensures
            r == (self.current_channel, self.pending_channel),
    {
        (self.current_channel, self.pending_channel)
    }
}

/// The packets that a forwarder writes carry consecutive sequence numbers,
/// modulo 2^16, whatever layers they come from: of two packets written one
/// after the other, the second is numbered one more than the first.
pub proof fn law_consecutive_sequence_numbers<R>(
    f0: VideoPacketForwarder<R>,
    f1: VideoPacketForwarder<R>,
    f2: VideoPacketForwarder<R>,
    q1: StreamQuality,
    p1: RtpPacket,
    e1: u64,
    c1: Option<R>,
    o1: RtpPacket,
    q2: StreamQuality,
    p2: RtpPacket,
    e2: u64,
    c2: Option<R>,
    o2: RtpPacket,
)
    requires
        f0.forwarded(f1, q1, p1, e1, c1, Some(o1)),
        f1.forwarded(f2, q2, p2, e2, c2, Some(o2)),
    ensures
        o2.header.sequence_number == o1.header.sequence_number.wrapping_add(1),
        o2.header.ssrc == o1.header.ssrc,
        o2.header.payload_type == o1.header.payload_type,
{
}

/// A forwarder keeps the frame structure of what it forwards: the packet it
/// writes carries the marker bit and the payload of the packet it received,
/// with the forwarder's own SSRC and payload type, the next sequence number
/// and the timestamp of the frame being written.
pub proof fn law_forward_keeps_marker<R>(
    f: VideoPacketForwarder<R>,
    next: VideoPacketForwarder<R>,
    quality: StreamQuality,
    packet: RtpPacket,
    elapsed_micros: u64,
    cancelled: Option<R>,
    out: RtpPacket,
)
    requires
        f.forwarded(next, quality, packet, elapsed_micros, cancelled, Some(out)),
    ensures
        out.header.marker == packet.header.marker,
        out.payload == packet.payload,
        out.header.ssrc == f.ssrc,
        out.header.payload_type == f.payload_type,
        out.header.sequence_number == f.last_sequence_number.wrapping_add(1),
        out.header.timestamp == f.current_generated_ts,
{
}

/// Written packets carry the 90 kHz timestamp of their frame: a packet
/// written after one that did not end a frame keeps that packet's
/// timestamp, and a packet written after one that ended a frame, at
/// `e1` microseconds, carries the clock time `e1 * 90_000 / 1_000_000` (kept to
/// 32 bits), whatever layers the packets came from.
pub proof fn law_frame_timestamps<R>(
    f0: VideoPacketForwarder<R>,
    f1: VideoPacketForwarder<R>,
    f2: VideoPacketForwarder<R>,
    q1: StreamQuality,
    p1: RtpPacket,
    e1: u64,
    c1: Option<R>,
    o1: RtpPacket,
    q2: StreamQuality,
    p2: RtpPacket,
    e2: u64,
    c2: Option<R>,
    o2: RtpPacket,
)
    requires
        f0.forwarded(f1, q1, p1, e1, c1, Some(o1)),
        f1.forwarded(f2, q2, p2, e2, c2, Some(o2)),
    ensures
        !p1.header.marker ==> o2.header.timestamp == o1.header.timestamp,
        p1.header.marker && (e1 as int) * 9 < 0x1_0000_0000_0000_0000 ==> o2.header.timestamp as int == ((e1 as int)
            * 90_000 / 1_000_000) % 0x1_0000_0000,
{
    if p1.header.marker && (e1 as int) * 9 < 0x1_0000_0000_0000_0000 {
        assert(e1.wrapping_mul(9) as int == (e1 as int) * 9);
        assert((e1 as int) * 90_000 / 1_000_000 == (e1 as int) * 9 / 100) by (nonlinear_arith);
        let v: u64 = e1.wrapping_mul(9) / 100;
        assert(v as u32 == (v % 0x1_0000_0000) as u32) by (bit_vector);
        assert(video_clock(e1) == v as u32);
    }
}

/// A switch of layers completes on the first packet of the new layer: while
/// a switch is pending, a packet of another layer than the current one makes
/// it the current layer, is written, and hands back the router to leave.
pub proof fn law_switch_on_first_packet<R>(
    f: VideoPacketForwarder<R>,
    next: VideoPacketForwarder<R>,
    quality: StreamQuality,
    packet: RtpPacket,
    elapsed_micros: u64,
    cancelled: Option<R>,
    out: Option<RtpPacket>,
)
    requires
        f.is_layer_switching,
        f.current_quality != Some(quality),
        f.forwarded(next, quality, packet, elapsed_micros, cancelled, out),
    ensures
        next.current_quality == Some(quality),
        !next.is_layer_switching,
        next.current_channel == f.pending_channel,
        cancelled == f.current_channel,
        out is Some,
{
}

} // verus!
