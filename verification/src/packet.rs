use vstd::prelude::*;

verus! {

/// The fields of an RTP header that forwarding reads or rewrites.
#[derive(Debug, PartialEq, Eq, Clone, Copy, Structural)]
pub struct RtpHeader {
    pub marker: bool,
    pub payload_type: u8,
    pub sequence_number: u16,
    pub timestamp: u32,
    pub ssrc: u32,
}

/// An RTP packet: its header and its payload bytes.
#[derive(Debug, PartialEq, Eq)]
pub struct RtpPacket {
    pub header: RtpHeader,
    pub payload: Vec<u8>,
}

/// A full intra request for the media source `ssrc`.
#[derive(Debug, PartialEq, Eq, Clone, Copy, Structural)]
pub struct FirRequest {
    pub ssrc: u32,
    pub sequence_number: u8,
}

/// An RTCP key frame request: a full intra request or a picture loss
/// indication, both addressed to the media source `ssrc`.
#[derive(Debug, PartialEq, Eq, Clone, Copy, Structural)]
pub enum KeyframeRtcp {
    Fir { ssrc: u32, sequence_number: u8 },
    Pli { ssrc: u32 },
}

} // verus!
