use vstd::prelude::*;

verus! {

/// The sequence numbers after `id` that the bitmask `mask` marks lost, from
/// bit `i` on: bit `k` marks `id + k + 1`, modulo 2^16, lowest bit first.
pub open spec fn nack_followers(id: u16, mask: u16, i: nat) -> Seq<u16>
    decreases 16 - i,
{
    if i >= 16 {
        Seq::empty()
    } else {
        let rest = nack_followers(id, mask, i + 1);
        if mask & (1u16 << (i as u16)) != 0 {
            seq![id.wrapping_add((i + 1) as u16)] + rest
        } else {
            rest
        }
    }
}

/// The sequence numbers that a NACK pair reports lost: its packet id, then
/// those that its bitmask marks.
pub open spec fn nack_sequence(id: u16, mask: u16) -> Seq<u16> {
    seq![id] + nack_followers(id, mask, 0)
}

/// Calls `NackPair::packet_list` of the `rtc` crate (its `rtcp` part) on the
/// pair `(packet_id, lost_packets)`. As that source shows, the list is the
/// packet id, then `packet_id + k + 1` (wrapping) for every bit `k` set in
/// the bitmask, lowest bit first; the contract says exactly that.
#[verifier::external_body]
fn nack_packet_list(packet_id: u16, lost_packets: u16) -> (list: Vec<u16>)
    ensures
        list@ == nack_sequence(packet_id, lost_packets),
{
    rtc::rtcp::transport_feedbacks::transport_layer_nack::NackPair { packet_id, lost_packets }.packet_list()
}

/// The sequence numbers that the layer manager passes on for the NACK pairs
/// of a report: for each pair, its packet id, then its whole packet list
/// (which names the packet id again).
pub open spec fn missed_of(pairs: Seq<(u16, u16)>) -> Seq<u16>
    decreases pairs.len(),
{
    if pairs.len() == 0 {
        Seq::empty()
    } else {
        let p = pairs.last();
        missed_of(pairs.drop_last()) + seq![p.0] + nack_sequence(p.0, p.1)
    }
}

/// The missing sequence numbers of a transport layer NACK, whose pairs are
/// given as `(packet_id, lost_packets)`.
pub fn missing_sequences(pairs: &[(u16, u16)]) -> (missing: Vec<u16>)
    ensures
        missing@ == missed_of(pairs@),
{
    let mut missing: Vec<u16> = Vec::new();
    let mut i: usize = 0;
    while i < pairs.len()
        invariant
            i <= pairs@.len(),
            missing@ == missed_of(pairs@.take(i as int)),
        decreases pairs@.len() - i,
    {
        let (packet_id, lost_packets) = pairs[i];
        missing.push(packet_id);
        let mut list = nack_packet_list(packet_id, lost_packets);
        missing.append(&mut list);
        assert(pairs@.take(i as int + 1).drop_last() == pairs@.take(i as int));
        i += 1;
    }
    assert(pairs@.take(pairs@.len() as int) == pairs@);
    missing
}

/// An RTCP packet that a subscriber sent back about an outgoing video track,
/// as far as the layer manager reads it; NACK pairs are given as
/// `(packet_id, lost_packets)`.
pub enum RtcpFeedback {
    PictureLoss,
    Nack(Vec<(u16, u16)>),
    Other,
}

/// What the layer manager does with a feedback packet.
#[derive(Debug, PartialEq, Eq)]
pub enum FeedbackAction {
    /// Ask the source of the active layer for a key frame.
    ForcePli,
    /// Tell the forwarder which packets the subscriber misses.
    MissedPackets(Vec<u16>),
    /// Nothing to do.
    Ignore,
}

/// Handles one feedback packet of an outgoing video track.
pub fn feedback_step(feedback: RtcpFeedback) -> (action: FeedbackAction)
    ensures
        match feedback {
            RtcpFeedback::PictureLoss => action is ForcePli,
            RtcpFeedback::Nack(pairs) => action matches FeedbackAction::MissedPackets(m) && m@ == missed_of(
                pairs@,
            ),
            RtcpFeedback::Other => action is Ignore,
        },
{
    match feedback {
        RtcpFeedback::PictureLoss => FeedbackAction::ForcePli,
        RtcpFeedback::Nack(pairs) => FeedbackAction::MissedPackets(missing_sequences(pairs.as_slice())),
        RtcpFeedback::Other => FeedbackAction::Ignore,
    }
}

} // verus!
