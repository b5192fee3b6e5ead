use vstd::prelude::*;
use crate::packet::{RtpHeader, RtpPacket};
use crate::quality::StreamQuality;

verus! {

/// What a gateway router hands to its subscribers.
#[derive(Debug, PartialEq, Eq)]
pub enum RtpPacketMessage {
    Packet(StreamQuality, RtpPacket),
    Timeout,
}

/// Writes the packets of one published audio stream to a local track under
/// the forwarder's own SSRC.
pub struct AudioPacketForwarder {
    pub ssrc: u32,
}

impl AudioPacketForwarder {
    pub fn new(ssrc: u32) -> (f: AudioPacketForwarder)
        ensures
            f.ssrc == ssrc,
    {
        AudioPacketForwarder { ssrc }
    }

    /// The packet to write for what the router delivered: a packet, with the
    /// forwarder's SSRC; nothing for a timeout.
    pub fn on_router_message(&self, message: RtpPacketMessage) -> (out: Option<RtpPacket>)
        ensures
            match message {
                RtpPacketMessage::Packet(_, p) => out matches Some(o) && o.payload == p.payload && o.header
                    == (RtpHeader { ssrc: self.ssrc, ..p.header }),
                RtpPacketMessage::Timeout => out is None,
            },
    {
        match message {
            RtpPacketMessage::Packet(_, mut packet) => {
                packet.header.ssrc = self.ssrc;
                Some(packet)
            },
            RtpPacketMessage::Timeout => None,
        }
    }
}

/// Why an audio subscription is closed.
#[derive(Debug, PartialEq, Eq, Clone, Copy, Structural)]
pub enum Close {
    UserDisconnect,
    StreamForwardFail,
}

/// Whether closing an audio subscription for `reason` makes the subscriber
/// drop the speaker: only a failed stream does.
pub fn unsubscribes_on(reason: Close) -> (r: bool)
    ensures
        r == (reason == Close::StreamForwardFail),
{
    match reason {
        Close::StreamForwardFail => true,
        Close::UserDisconnect => false,
    }
}

} // verus!
