use vstd::prelude::*;
use crate::keyframe::{
    h264_starts_key_frame, is_h264_key_frame, is_vp8_key_frame, is_vp9_key_frame,
    vp8_starts_key_frame, vp9_starts_key_frame,
};
use crate::packet::{RtpHeader, RtpPacket};
use crate::quality::{Codec, CodecView, StreamQuality};

verus! {

/// The value of `v` in an `i32` that wraps around: `v` modulo 2^32, taken
/// between `i32::MIN` and `i32::MAX`.
pub open spec fn wrap_i32(v: int) -> int {
    let m = v % 0x1_0000_0000;
    if m > i32::MAX {
        m - 0x1_0000_0000
    } else {
        m
    }
}

/// Adding an offset wrapped into an `i32` moves a 32-bit value as adding the
/// offset itself does, modulo 2^32.
pub proof fn lemma_wrap_i32_mod(a: int, v: int)
    ensures
        (a + wrap_i32(v)) % 0x1_0000_0000 == (a + v) % 0x1_0000_0000,
        i32::MIN <= wrap_i32(v) <= i32::MAX,
{
    let m: int = 0x1_0000_0000;
    vstd::arithmetic::div_mod::lemma_add_mod_noop(a, v, m);
    vstd::arithmetic::div_mod::lemma_mod_bound(v, m);
    if v % m > i32::MAX {
        vstd::arithmetic::div_mod::lemma_add_mod_noop(a, v % m - m, m);
        vstd::arithmetic::div_mod::lemma_mod_bound(v % m - m, m);
        vstd::arithmetic::div_mod::lemma_mod_sub_multiples_vanish(v % m, m);
        vstd::arithmetic::div_mod::lemma_mod_twice(v, m);
    } else {
        vstd::arithmetic::div_mod::lemma_mod_twice(v, m);
        vstd::arithmetic::div_mod::lemma_add_mod_noop(a, v % m, m);
    }
}

/// Whether a payload of the codec starts a key frame.
pub open spec fn starts_key_frame(codec: CodecView, payload: Seq<u8>) -> bool {
    match codec {
        CodecView::H264 => h264_starts_key_frame(payload),
        CodecView::VP8 => vp8_starts_key_frame(payload),
        CodecView::VP9 => vp9_starts_key_frame(payload),
        _ => false,
    }
}

/// What the offset forwarder is told; `R` is the handle of a packet forwarder
/// of a published layer.
pub enum OffsetForwarderMessage<R> {
    RtpPacket { packet: RtpPacket, quality: StreamQuality },
    Start { quality: StreamQuality, forwarder: R },
    LayerSwitched { quality: StreamQuality, forwarder: R },
}

/// What the offset forwarder does in answer to a message.
#[derive(Debug, PartialEq, Eq)]
pub enum OffsetForwarderAction<R> {
    /// Unsubscribe from `cancelled`, if any, then write `packet`, if any.
    Write { cancelled: Option<R>, packet: Option<RtpPacket> },
    /// Subscribe to the current forwarder.
    SubscribeCurrent,
    /// Subscribe to the pending forwarder.
    SubscribePending,
    /// Nothing to do; a router handed over is dropped.
    Nothing,
}

/// Writes one layer of a remote video track to a local track, switching
/// layers only at a key frame. Outgoing sequence numbers and timestamps are
/// those of the incoming layer moved by offsets; at each switch the offsets
/// are chosen so that the outgoing stream continues where it left off.
pub struct VideoPacketForwarder<R> {
    pub codec: Codec,
    pub current_quality: Option<StreamQuality>,
    pub current_channel: Option<R>,
    pub pending_channel: Option<R>,
    pub last_sequence_number: u16,
    pub last_timestamp: u32,
    pub sequence_number_offset: i32,
    pub timestamp_offset: i32,
    pub is_layer_switching: bool,
}

impl<R> VideoPacketForwarder<R> {
    /// The forwarder switches exactly while it holds a pending forwarder, and
    /// its sequence number offset is the difference of two 16-bit numbers.
    pub open spec fn wf(&self) -> bool {
        &&& self.pending_channel.is_some() == self.is_layer_switching
        &&& -65535 <= self.sequence_number_offset <= 65535
    }

    /// Whether a packet of layer `quality` completes a pending switch.
    pub open spec fn switches_on(&self, quality: StreamQuality, packet: RtpPacket) -> bool {
        &&& self.is_layer_switching
        &&& self.current_quality != Some(quality)
        &&& starts_key_frame(self.codec@, packet.payload@)
    }

    /// Whether a packet of layer `quality` is written without a switch.
    pub open spec fn writes_in_place(&self, quality: StreamQuality) -> bool {
        self.current_quality == Some(quality)
    }

    /// The packets the forwarder can handle: a packet that arrives during a
    /// switch has a codec whose key frames can be recognised.
    pub open spec fn accepts(&self, quality: StreamQuality, packet: RtpPacket) -> bool {
        (self.is_layer_switching && self.current_quality != Some(quality)) ==> self.codec@.has_keyframe_parser()
    }

    /// The header of a packet moved by the current offsets, sequence numbers
    /// modulo 2^16 and timestamps modulo 2^32.
    pub open spec fn shifted(self, h: RtpHeader) -> RtpHeader {
        RtpHeader {
            sequence_number: ((h.sequence_number + self.sequence_number_offset) % 0x1_0000) as u16,
            timestamp: ((h.timestamp + self.timestamp_offset) % 0x1_0000_0000) as u32,
            ..h
        }
    }

    /// How a packet of layer `quality` changes the forwarder from `self` to
    /// `next`, with `cancelled` the forwarder to unsubscribe from and `out`
    /// the packet to write.
    pub open spec fn forwarded(
        self,
        next: Self,
        quality: StreamQuality,
        packet: RtpPacket,
        cancelled: Option<R>,
        out: Option<RtpPacket>,
    ) -> bool {
        &&& next.codec == self.codec
        &&& self.switches_on(quality, packet) ==> {
            &&& next.current_quality == Some(quality)
            &&& !next.is_layer_switching
            &&& next.current_channel == self.pending_channel
            &&& cancelled == self.current_channel
            &&& out matches Some(p) && p.payload == packet.payload
                && p.header.sequence_number == self.last_sequence_number.wrapping_add(1)
                && p.header.timestamp == self.last_timestamp
                && p.header.marker == packet.header.marker
                && p.header.ssrc == packet.header.ssrc
                && p.header.payload_type == packet.header.payload_type
            &&& next.last_sequence_number == self.last_sequence_number.wrapping_add(1)
            &&& next.last_timestamp == self.last_timestamp
            &&& next.sequence_number_offset == self.last_sequence_number.wrapping_add(1) as int
                - packet.header.sequence_number as int
            &&& next.timestamp_offset == wrap_i32(self.last_timestamp - packet.header.timestamp)
        }
        &&& (self.is_layer_switching && self.current_quality != Some(quality)
            && !self.switches_on(quality, packet)) ==> {
            &&& next == self
            &&& cancelled is None
            &&& out is None
        }
        &&& !(self.is_layer_switching && self.current_quality != Some(quality)) ==> {
            &&& cancelled is None
            &&& next.current_quality == self.current_quality
            &&& next.current_channel == self.current_channel
            &&& next.pending_channel == self.pending_channel
            &&& next.is_layer_switching == self.is_layer_switching
            &&& next.sequence_number_offset == self.sequence_number_offset
            &&& next.timestamp_offset == self.timestamp_offset
            &&& self.writes_in_place(quality) ==> {
                &&& out matches Some(p) && p.payload == packet.payload
                    && p.header == self.shifted(packet.header)
                    && next.last_sequence_number == p.header.sequence_number
                    && next.last_timestamp == p.header.timestamp
            }
            &&& !self.writes_in_place(quality) ==> out is None && next == self
        }
    }

    /// A forwarder of nothing yet for a track of `codec`.
    pub fn new(codec: Codec) -> (f: Self)
        ensures
            f.wf(),
            f.codec == codec,
            f.current_quality is None,
            f.current_channel is None,
            f.pending_channel is None,
            f.last_sequence_number == 0,
            f.last_timestamp == 0,
            f.sequence_number_offset == 0,
            f.timestamp_offset == 0,
            !f.is_layer_switching,
    {
        VideoPacketForwarder {
            codec,
            current_quality: None,
            current_channel: None,
            pending_channel: None,
            last_sequence_number: 0,
            last_timestamp: 0,
            sequence_number_offset: 0,
            timestamp_offset: 0,
            is_layer_switching: false,
        }
    }

    /// Whether a packet of layer `quality` can be handled; a caller stops on
    /// a packet that cannot.
    pub fn can_forward(&self, quality: StreamQuality, packet: &RtpPacket) -> (r: bool)
        requires
            self.wf(),
        ensures
            r == self.accepts(quality, *packet),
            r == (!(self.is_layer_switching && self.current_quality != Some(quality)) || self.codec@ is H264
                || self.codec@ is VP8 || self.codec@ is VP9),
    {
        let switching = self.is_layer_switching && self.current_quality != Some(quality);
        !switching || self.codec.has_keyframe_parser()
    }

    /// Whether the packet starts a key frame of the forwarder's codec.
    pub fn is_key_frame(&self, packet: &RtpPacket) -> (r: bool)
        ensures
            r == starts_key_frame(self.codec@, packet.payload@),
    {
        match self.codec {
            Codec::H264 => is_h264_key_frame(packet.payload.as_slice()),
            Codec::VP8 => is_vp8_key_frame(packet),
            Codec::VP9 => is_vp9_key_frame(packet.payload.as_slice()),
            _ => false,
        }
    }

    /// Chooses the offsets that make the switching packet `h` follow the last
    /// written one.
    pub fn update_offsets_on_layer_switch(&mut self, h: &RtpHeader)
        requires
            old(self).wf(),
        ensures
            final(self).wf(),
            final(self).sequence_number_offset == old(self).last_sequence_number.wrapping_add(1) as int
                - h.sequence_number as int,
            final(self).timestamp_offset == wrap_i32(old(self).last_timestamp - h.timestamp),
            final(self).codec == old(self).codec,
            final(self).current_quality == old(self).current_quality,
            final(self).current_channel == old(self).current_channel,
            final(self).pending_channel == old(self).pending_channel,
            final(self).last_sequence_number == old(self).last_sequence_number,
            final(self).last_timestamp == old(self).last_timestamp,
            final(self).is_layer_switching == old(self).is_layer_switching,
    {
        let new_sequence_number = h.sequence_number;
        let new_timestamp = h.timestamp;
        self.sequence_number_offset = (self.last_sequence_number.wrapping_add(1) as i32) - (
        new_sequence_number as i32);
        let d: i64 = self.last_timestamp as i64 - new_timestamp as i64;
        let m: i64 = if d < 0 {
            d + 0x1_0000_0000
        } else {
            d
        };
        proof {
            let dd = d as int;
            if dd < 0 {
                vstd::arithmetic::div_mod::lemma_mod_add_multiples_vanish(dd, 0x1_0000_0000);
                vstd::arithmetic::div_mod::lemma_small_mod((dd + 0x1_0000_0000) as nat, 0x1_0000_0000);
            } else {
                vstd::arithmetic::div_mod::lemma_small_mod(dd as nat, 0x1_0000_0000);
            }
            assert(m as int == dd % 0x1_0000_0000);
        }
        self.timestamp_offset = if m > 2147483647 {
            (m - 0x1_0000_0000) as i32
        } else {
            m as i32
        };
    }

    /// Moves the packet by the offsets and records it as the last written one.
    pub fn apply_offsets(&mut self, packet: &mut RtpPacket)
        requires
            old(self).wf(),
        ensures
            final(self).wf(),
            final(packet).header == old(self).shifted(old(packet).header),
            final(packet).payload == old(packet).payload,
            final(self).last_sequence_number == final(packet).header.sequence_number,
            final(self).last_timestamp == final(packet).header.timestamp,
            final(self).codec == old(self).codec,
            final(self).current_quality == old(self).current_quality,
            final(self).current_channel == old(self).current_channel,
            final(self).pending_channel == old(self).pending_channel,
            final(self).sequence_number_offset == old(self).sequence_number_offset,
            final(self).timestamp_offset == old(self).timestamp_offset,
            final(self).is_layer_switching == old(self).is_layer_switching,
    {
        let incoming_seq = packet.header.sequence_number;
        let incoming_ts = packet.header.timestamp;
        let v: i32 = incoming_seq as i32 + self.sequence_number_offset;
        let s: i32 = if v < 0 {
            v + 0x1_0000
        } else if v >= 0x1_0000 {
            v - 0x1_0000
        } else {
            v
        };
        let w: i64 = incoming_ts as i64 + self.timestamp_offset as i64;
        let t: i64 = if w < 0 {
            w + 0x1_0000_0000
        } else if w >= 0x1_0000_0000 {
            w - 0x1_0000_0000
        } else {
            w
        };
        proof {
            let vv = v as int;
            let ww = w as int;
            if vv < 0 {
                vstd::arithmetic::div_mod::lemma_mod_add_multiples_vanish(vv, 0x1_0000);
                vstd::arithmetic::div_mod::lemma_small_mod((vv + 0x1_0000) as nat, 0x1_0000);
            } else if vv >= 0x1_0000 {
                vstd::arithmetic::div_mod::lemma_mod_sub_multiples_vanish(vv, 0x1_0000);
                vstd::arithmetic::div_mod::lemma_small_mod((vv - 0x1_0000) as nat, 0x1_0000);
            } else {
                vstd::arithmetic::div_mod::lemma_small_mod(vv as nat, 0x1_0000);
            }
            if ww < 0 {
                vstd::arithmetic::div_mod::lemma_mod_add_multiples_vanish(ww, 0x1_0000_0000);
                vstd::arithmetic::div_mod::lemma_small_mod((ww + 0x1_0000_0000) as nat, 0x1_0000_0000);
            } else if ww >= 0x1_0000_0000 {
                vstd::arithmetic::div_mod::lemma_mod_sub_multiples_vanish(ww, 0x1_0000_0000);
                vstd::arithmetic::div_mod::lemma_small_mod((ww - 0x1_0000_0000) as nat, 0x1_0000_0000);
            } else {
                vstd::arithmetic::div_mod::lemma_small_mod(ww as nat, 0x1_0000_0000);
            }
            assert(s as int == vv % 0x1_0000);
            assert(t as int == ww % 0x1_0000_0000);
        }
        let new_seq = s as u16;
        let new_ts = t as u32;
        packet.header.sequence_number = new_seq;
        packet.header.timestamp = new_ts;
        self.last_sequence_number = new_seq;
        self.last_timestamp = new_ts;
    }

    /// A packet of layer `quality` arrived. During a switch, a key frame of
    /// the new layer completes the switch and is written; other packets of
    /// the new layer are dropped. Packets of the current layer are written;
    /// packets of other layers are dropped.
    pub fn forward(&mut self, quality: StreamQuality, packet: RtpPacket) -> (r: (Option<R>, Option<RtpPacket>))
        requires
            old(self).wf(),
            old(self).accepts(quality, packet),
        ensures
            final(self).wf(),
            final(self).codec == old(self).codec,
            old(self).forwarded(*final(self), quality, packet, r.0, r.1),
            old(self).current_quality == Some(quality) ==> r.0 is None && r.1 == Some(
                RtpPacket { header: old(self).shifted(packet.header), payload: packet.payload },
            ),
    {
        if self.is_layer_switching && self.current_quality != Some(quality) {
            let mut packet = packet;
            if self.is_key_frame(&packet) {
                let ghost last_ts = self.last_timestamp;
                self.update_offsets_on_layer_switch(&packet.header);
                self.current_quality = Some(quality);
                self.is_layer_switching = false;
                let mut cancelled: Option<R> = None;
                if let Some(pending_channel) = self.pending_channel.take() {
                    cancelled = self.current_channel.take();
                    self.current_channel = Some(pending_channel);
                }
                proof {
                    lemma_wrap_i32_mod(packet.header.timestamp as int, last_ts - packet.header.timestamp);
                    vstd::arithmetic::div_mod::lemma_small_mod(last_ts as nat, 0x1_0000_0000);
                }
                self.apply_offsets(&mut packet);
                return (cancelled, Some(packet));
            }
            return (None, None);
        }
        if self.current_quality == Some(quality) {
            let mut packet = packet;
            self.apply_offsets(&mut packet);
            (None, Some(packet))
        } else {
            (None, None)
        }
    }

    /// Handles one message. A packet of a layer that is neither current nor
    /// being switched to is dropped.
    pub fn handle(&mut self, msg: OffsetForwarderMessage<R>) -> (action: OffsetForwarderAction<R>)
        requires
            old(self).wf(),
            msg matches OffsetForwarderMessage::RtpPacket { packet, quality } ==> old(self).accepts(
                quality,
                packet,
            ),
        ensures
            final(self).wf(),
            final(self).codec == old(self).codec,
            match msg {
                OffsetForwarderMessage::RtpPacket { packet, quality } =>
                    action matches OffsetForwarderAction::Write { cancelled, packet: out } && if old(self).current_quality
                        != Some(quality) && !old(self).is_layer_switching {
                        cancelled is None && out is None && *final(self) == *old(self)
                    } else {
                        old(self).forwarded(*final(self), quality, packet, cancelled, out)
                    },
                OffsetForwarderMessage::Start { quality, forwarder } => {
                    &&& action is SubscribeCurrent
                    &&& final(self).current_quality == Some(quality)
                    &&& final(self).current_channel == Some(forwarder)
                    &&& final(self).pending_channel == old(self).pending_channel
                    &&& final(self).is_layer_switching == old(self).is_layer_switching
                },
                OffsetForwarderMessage::LayerSwitched { quality, forwarder } => if !old(self).is_layer_switching {
                    &&& action is SubscribePending
                    &&& final(self).is_layer_switching
                    &&& final(self).pending_channel == Some(forwarder)
                    &&& final(self).current_quality == old(self).current_quality
                    &&& final(self).current_channel == old(self).current_channel
                } else {
                    action is Nothing && *final(self) == *old(self)
                },
            },
    {
        match msg {
            OffsetForwarderMessage::LayerSwitched { quality, forwarder } => {
                if !self.is_layer_switching {
                    self.is_layer_switching = true;
                    self.pending_channel = Some(forwarder);
                    OffsetForwarderAction::SubscribePending
                } else {
                    OffsetForwarderAction::Nothing
                }
            },
            OffsetForwarderMessage::Start { quality, forwarder } => {
                self.current_quality = Some(quality);
                self.current_channel = Some(forwarder);
                OffsetForwarderAction::SubscribeCurrent
            },
            OffsetForwarderMessage::RtpPacket { packet, quality } => {
                if self.current_quality != Some(quality) && !self.is_layer_switching {
                    return OffsetForwarderAction::Write { cancelled: None, packet: None };
                }
                let (cancelled, packet) = self.forward(quality, packet);
                OffsetForwarderAction::Write { cancelled, packet }
            },
        }
    }
}

/// A layer switch does not break the outgoing stream: the key frame that
/// completes a switch is written with the sequence number that follows the
/// last written packet and with its timestamp, and the packets of the new
/// layer that follow it move by the same offsets.
pub proof fn law_switch_continues_stream<R>(
    f0: VideoPacketForwarder<R>,
    f1: VideoPacketForwarder<R>,
    f2: VideoPacketForwarder<R>,
    q0: StreamQuality,
    p0: RtpPacket,
    c0: Option<R>,
    o0: RtpPacket,
    q1: StreamQuality,
    p1: RtpPacket,
    c1: Option<R>,
    o1: RtpPacket,
)
    requires
        f0.forwarded(f1, q0, p0, c0, Some(o0)),
        f1.switches_on(q1, p1),
        f1.forwarded(f2, q1, p1, c1, Some(o1)),
    ensures
        o1.header.sequence_number == o0.header.sequence_number.wrapping_add(1),
        o1.header.timestamp == o0.header.timestamp,
        f2.current_quality == Some(q1),
        !f2.is_layer_switching,
{
}

/// After a switch, the packets of the new layer keep their spacing: while
/// the forwarder stays on that layer with the offsets the switch chose (no
/// later switch), each packet of the layer is written as far, modulo 2^16 in
/// sequence numbers and modulo 2^32 in timestamps, from the key frame that
/// completed the switch as it arrived from it, so the outgoing stream has no
/// gap that the incoming layer did not have.
pub proof fn law_switch_keeps_spacing<R>(
    f1: VideoPacketForwarder<R>,
    f2: VideoPacketForwarder<R>,
    later: VideoPacketForwarder<R>,
    next: VideoPacketForwarder<R>,
    q: StreamQuality,
    p1: RtpPacket,
    c1: Option<R>,
    o1: RtpPacket,
    p2: RtpPacket,
    c2: Option<R>,
    o2: RtpPacket,
)
    requires
        f1.switches_on(q, p1),
        f1.forwarded(f2, q, p1, c1, Some(o1)),
        later.current_quality == Some(q),
        later.sequence_number_offset == f2.sequence_number_offset,
        later.timestamp_offset == f2.timestamp_offset,
        later.forwarded(next, q, p2, c2, Some(o2)),
    ensures
        o2.header.sequence_number as int == (o1.header.sequence_number + p2.header.sequence_number
            - p1.header.sequence_number) % 0x1_0000,
        o2.header.timestamp as int == (o1.header.timestamp + p2.header.timestamp - p1.header.timestamp)
            % 0x1_0000_0000,
{
    lemma_wrap_i32_mod(p2.header.timestamp as int, f1.last_timestamp - p1.header.timestamp);
    vstd::arithmetic::div_mod::lemma_mod_bound(
        o1.header.sequence_number + p2.header.sequence_number - p1.header.sequence_number,
        0x1_0000,
    );
    vstd::arithmetic::div_mod::lemma_mod_bound(
        o1.header.timestamp + p2.header.timestamp - p1.header.timestamp,
        0x1_0000_0000,
    );
}

/// A switch that waits for a key frame does not interrupt the layer being
/// written: a packet of the current layer is written, moved by the current
/// offsets, whether or not a switch is pending, and it changes neither the
/// layers, the forwarders nor the offsets.
pub proof fn law_current_layer_flows_during_switch<R>(
    f: VideoPacketForwarder<R>,
    next: VideoPacketForwarder<R>,
    q: StreamQuality,
    packet: RtpPacket,
    cancelled: Option<R>,
    out: Option<RtpPacket>,
)
    requires
        f.current_quality == Some(q),
        f.forwarded(next, q, packet, cancelled, out),
    ensures
        out matches Some(p) && p.payload == packet.payload && p.header.marker == packet.header.marker
            && p.header.ssrc == packet.header.ssrc && p.header.payload_type == packet.header.payload_type
            && p.header.sequence_number as int == (packet.header.sequence_number + f.sequence_number_offset)
            % 0x1_0000 && p.header.timestamp as int == (packet.header.timestamp + f.timestamp_offset)
            % 0x1_0000_0000,
        cancelled is None,
        next.current_quality == Some(q),
        next.is_layer_switching == f.is_layer_switching,
        next.current_channel == f.current_channel,
        next.pending_channel == f.pending_channel,
        next.sequence_number_offset == f.sequence_number_offset,
        next.timestamp_offset == f.timestamp_offset,
{
}

/// The packets a forwarder can handle: every packet outside a switch, and
/// during a switch a packet of another layer exactly when the codec's key
/// frames can be recognised, which they can for H.264, VP8 and VP9.
pub proof fn law_accepted_packets<R>(f: VideoPacketForwarder<R>, q: StreamQuality, packet: RtpPacket)
    ensures
        !f.is_layer_switching ==> f.accepts(q, packet),
        f.current_quality == Some(q) ==> f.accepts(q, packet),
        f.codec@ is H264 ==> f.accepts(q, packet),
        f.codec@ is VP8 ==> f.accepts(q, packet),
        f.codec@ is VP9 ==> f.accepts(q, packet),
        (f.is_layer_switching && f.current_quality != Some(q) && !(f.codec@ is H264) && !(f.codec@ is VP8)
            && !(f.codec@ is VP9)) ==> !f.accepts(q, packet),
{
}

/// Layers are switched only at a key frame: while a switch is pending, a
/// packet of another layer than the current one that does not start a key
/// frame is dropped and changes nothing, and one that starts a key frame
/// completes the switch, is written, and hands back the forwarder to leave.
pub proof fn law_switch_only_at_key_frame<R>(
    f: VideoPacketForwarder<R>,
    next: VideoPacketForwarder<R>,
    q: StreamQuality,
    packet: RtpPacket,
    cancelled: Option<R>,
    out: Option<RtpPacket>,
)
    requires
        f.is_layer_switching,
        f.current_quality != Some(q),
        f.forwarded(next, q, packet, cancelled, out),
    ensures
        !starts_key_frame(f.codec@, packet.payload@) ==> out is None && cancelled is None && next == f,
        starts_key_frame(f.codec@, packet.payload@) ==> {
            &&& out is Some
            &&& next.current_quality == Some(q)
            &&& !next.is_layer_switching
            &&& next.current_channel == f.pending_channel
            &&& cancelled == f.current_channel
        },
{
}

/// Outside a switch, packets of a layer other than the current one are
/// dropped and change nothing.
pub proof fn law_other_layers_dropped<R>(
    f: VideoPacketForwarder<R>,
    next: VideoPacketForwarder<R>,
    q: StreamQuality,
    packet: RtpPacket,
    cancelled: Option<R>,
    out: Option<RtpPacket>,
)
    requires
        !f.is_layer_switching,
        f.current_quality != Some(q),
        f.forwarded(next, q, packet, cancelled, out),
    ensures
        out is None,
        cancelled is None,
        next == f,
{
}

} // verus!
