use vstd::prelude::*;
use crate::packet::RtpPacket;

verus! {

/// Where the VP8 payload header starts, after the VP8 payload descriptor
/// (RFC 7741): one byte, or, when the X bit is set, the extension byte and
/// the optional PictureID, TL0PICIDX and TID/KEYIDX bytes that it announces.
pub open spec fn vp8_descriptor_len(p: Seq<u8>) -> int {
    if p[0] & 0x80u8 == 0 {
        1
    } else {
        let x = p[1];
        2 + (if x & 0x80u8 != 0 {
            if 3 < p.len() && p[2] & 0x80u8 != 0 { 2int } else { 1int }
        } else {
            0int
        }) + (if x & 0x40u8 != 0 { 1int } else { 0int }) + (if x & 0x20u8 != 0 || x & 0x10u8 != 0 {
            1int
        } else {
            0int
        })
    }
}

/// A VP8 payload starts a key frame when its payload header, after the
/// descriptor, has the inverse key frame bit (bit 0) clear.
pub open spec fn vp8_starts_key_frame(p: Seq<u8>) -> bool {
    &&& p.len() > 0
    &&& p[0] & 0x80u8 != 0 ==> p.len() > 1
    &&& vp8_descriptor_len(p) < p.len()
    &&& p[vp8_descriptor_len(p)] & 0x01u8 == 0
}

/// Whether a STAP-A aggregation packet, read from `offset` on, holds an IDR
/// slice: each aggregated unit is a 16-bit big-endian size followed by the NAL
/// unit; reading stops at the first unit that does not fit in the packet.
pub open spec fn stap_a_has_idr(p: Seq<u8>, offset: int) -> bool
    decreases p.len() - offset,
{
    if 0 <= offset && offset + 2 < p.len() {
        let size = p[offset] as int * 256 + p[offset + 1] as int;
        let start = offset + 2;
        if start + size > p.len() {
            false
        } else if p[start] & 0x1Fu8 == 5 {
            true
        } else {
            stap_a_has_idr(p, start + size)
        }
    } else {
        false
    }
}

/// Where a VP8 key frame bit is read (RFC 7741): after the first descriptor
/// byte, when its X bit is set, come the extension byte and then, in order,
/// the PictureID (one byte, or two when its M bit is set) if I is set, one
/// TL0PICIDX byte if L is set, and one TID/KEYIDX byte if T or K is set; the
/// payload header follows, and its bit 0 is clear on a key frame.
pub proof fn law_vp8_key_frame_bit(p: Seq<u8>)
    ensures
        p.len() == 0 ==> !vp8_starts_key_frame(p),
        p.len() > 0 && p[0] & 0x80u8 == 0 ==> (vp8_starts_key_frame(p) == (p.len() > 1 && p[1] & 0x01u8 == 0)),
        p.len() == 1 && p[0] & 0x80u8 != 0 ==> !vp8_starts_key_frame(p),
        p.len() > 1 ==> ({
            let x = p[1];
            let i = x & 0x80u8 != 0;
            let l = x & 0x40u8 != 0;
            let tk = x & 0x20u8 != 0 || x & 0x10u8 != 0;
            let long_id = p.len() > 3 && p[2] & 0x80u8 != 0;
            p[0] & 0x80u8 != 0 ==> {
                &&& (!i && !l && !tk) ==> vp8_starts_key_frame(p) == (p.len() > 2 && p[2] & 0x01u8 == 0)
                &&& (!i && l && !tk) ==> vp8_starts_key_frame(p) == (p.len() > 3 && p[3] & 0x01u8 == 0)
                &&& (!i && !l && tk) ==> vp8_starts_key_frame(p) == (p.len() > 3 && p[3] & 0x01u8 == 0)
                &&& (!i && l && tk) ==> vp8_starts_key_frame(p) == (p.len() > 4 && p[4] & 0x01u8 == 0)
                &&& (i && !long_id && !l && !tk) ==> vp8_starts_key_frame(p) == (p.len() > 3 && p[3] & 0x01u8
                    == 0)
                &&& (i && !long_id && l && !tk) ==> vp8_starts_key_frame(p) == (p.len() > 4 && p[4] & 0x01u8
                    == 0)
                &&& (i && !long_id && !l && tk) ==> vp8_starts_key_frame(p) == (p.len() > 4 && p[4] & 0x01u8
                    == 0)
                &&& (i && !long_id && l && tk) ==> vp8_starts_key_frame(p) == (p.len() > 5 && p[5] & 0x01u8
                    == 0)
                &&& (i && long_id && !l && !tk) ==> vp8_starts_key_frame(p) == (p.len() > 4 && p[4] & 0x01u8 == 0)
                &&& (i && long_id && l && !tk) ==> vp8_starts_key_frame(p) == (p.len() > 5 && p[5] & 0x01u8 == 0)
                &&& (i && long_id && !l && tk) ==> vp8_starts_key_frame(p) == (p.len() > 5 && p[5] & 0x01u8 == 0)
                &&& (i && long_id && l && tk) ==> vp8_starts_key_frame(p) == (p.len() > 6 && p[6] & 0x01u8 == 0)
            }
        }),
{
}

/// The size that the aggregated unit at `offset` of a STAP-A packet
/// announces: its first two bytes, big-endian.
pub open spec fn stap_a_unit_size(p: Seq<u8>, offset: int) -> int {
    p[offset] as int * 256 + p[offset + 1] as int
}

/// Whether the aggregated unit at `offset` lies within the packet: its size
/// field and its first NAL byte are there, and so is the whole unit.
pub open spec fn stap_a_unit_fits(p: Seq<u8>, offset: int) -> bool {
    &&& 0 <= offset
    &&& offset + 2 < p.len()
    &&& offset + 2 + stap_a_unit_size(p, offset) <= p.len()
}

/// Where the `k`-th aggregated unit starts when the first one starts at
/// `offset`: each unit is followed directly by the next.
pub open spec fn stap_a_unit_offset(p: Seq<u8>, offset: int, k: nat) -> int
    decreases k,
{
    if k == 0 {
        offset
    } else {
        stap_a_unit_offset(p, offset + 2 + stap_a_unit_size(p, offset), (k - 1) as nat)
    }
}

/// Whether the first `k + 1` aggregated units, from `offset` on, all lie
/// within the packet.
pub open spec fn stap_a_units_fit(p: Seq<u8>, offset: int, k: nat) -> bool {
    forall|j: nat| j <= k ==> stap_a_unit_fits(p, #[trigger] stap_a_unit_offset(p, offset, j))
}

/// A STAP-A packet holds an IDR slice exactly when some aggregated unit is an
/// IDR NAL unit and it and every unit before it lie within the packet.
pub proof fn law_stap_a_has_idr(p: Seq<u8>)
    ensures
        stap_a_has_idr(p, 1) == exists|k: nat|
            stap_a_units_fit(p, 1, k) && p[#[trigger] stap_a_unit_offset(p, 1, k) + 2] & 0x1Fu8 == 5,
{
    lemma_stap_a_units(p, 1);
}

proof fn lemma_stap_a_units(p: Seq<u8>, offset: int)
    requires
        0 <= offset,
    ensures
        stap_a_has_idr(p, offset) == exists|k: nat|
            stap_a_units_fit(p, offset, k) && p[#[trigger] stap_a_unit_offset(p, offset, k) + 2] & 0x1Fu8 == 5,
    decreases p.len() - offset,
{
    assert(stap_a_unit_offset(p, offset, 0) == offset);
    if !stap_a_unit_fits(p, offset) {
        assert forall|k: nat| !(stap_a_units_fit(p, offset, k) && #[trigger] p[stap_a_unit_offset(p, offset, k) + 2]
            & 0x1Fu8 == 5) by {
            if stap_a_units_fit(p, offset, k) {
                assert(stap_a_unit_fits(p, stap_a_unit_offset(p, offset, 0)));
            }
        }
    } else if p[offset + 2] & 0x1Fu8 == 5 {
        assert(stap_a_units_fit(p, offset, 0)) by {
            assert forall|j: nat| j <= 0 implies stap_a_unit_fits(p, #[trigger] stap_a_unit_offset(p, offset, j)) by {
            }
        }
        assert(stap_a_units_fit(p, offset, 0) && p[stap_a_unit_offset(p, offset, 0) + 2] & 0x1Fu8 == 5);
    } else {
        let next = offset + 2 + stap_a_unit_size(p, offset);
        lemma_stap_a_units(p, next);
        assert forall|k: nat| #[trigger] stap_a_unit_offset(p, offset, k + 1) == stap_a_unit_offset(p, next, k) by {
        }
        assert forall|k: nat| stap_a_units_fit(p, offset, k + 1) == stap_a_units_fit(p, next, k) by {
            if stap_a_units_fit(p, offset, k + 1) {
                assert forall|j: nat| j <= k implies stap_a_unit_fits(p, #[trigger] stap_a_unit_offset(p, next, j)) by {
                    assert(stap_a_unit_offset(p, offset, j + 1) == stap_a_unit_offset(p, next, j));
                }
            }
            if stap_a_units_fit(p, next, k) {
                assert forall|j: nat| j <= k + 1 implies stap_a_unit_fits(p, #[trigger] stap_a_unit_offset(p, offset, j)) by {
                    if j > 0 {
                        let i = (j - 1) as nat;
                        assert(stap_a_unit_offset(p, offset, i + 1) == stap_a_unit_offset(p, next, i));
                    }
                }
            }
        }
        if stap_a_has_idr(p, next) {
            let k = choose|k: nat|
                stap_a_units_fit(p, next, k) && p[#[trigger] stap_a_unit_offset(p, next, k) + 2] & 0x1Fu8 == 5;
            assert(stap_a_unit_offset(p, offset, k + 1) == stap_a_unit_offset(p, next, k));
            assert(stap_a_units_fit(p, offset, k + 1));
            assert(p[stap_a_unit_offset(p, offset, k + 1) + 2] & 0x1Fu8 == 5);
        } else {
            assert forall|k: nat| !(stap_a_units_fit(p, offset, k) && #[trigger] p[stap_a_unit_offset(p, offset, k)
                + 2] & 0x1Fu8 == 5) by {
                if k > 0 {
                    let i = (k - 1) as nat;
                    assert(stap_a_unit_offset(p, offset, i + 1) == stap_a_unit_offset(p, next, i));
                    if stap_a_units_fit(p, offset, k) && p[stap_a_unit_offset(p, offset, k) + 2] & 0x1Fu8 == 5 {
                        assert(stap_a_units_fit(p, next, i));
                    }
                }
            }
        }
    }
}

/// An H.264 RTP payload (RFC 6184) starts a key frame when it is a single IDR
/// NAL unit, the first fragment (FU-A or FU-B) of an IDR NAL unit, or a STAP-A
/// packet that aggregates an IDR NAL unit.
pub open spec fn h264_starts_key_frame(p: Seq<u8>) -> bool {
    p.len() > 0 && {
        let t = p[0] & 0x1Fu8;
        if 1 <= t && t <= 23 {
            t == 5
        } else if t == 28 || t == 29 {
            p.len() >= 2 && p[1] & 0x1Fu8 == 5 && p[1] & 0x80u8 != 0
        } else if t == 24 {
            stap_a_has_idr(p, 1)
        } else {
            false
        }
    }
}

/// Where the VP9 frame header starts: after one descriptor byte, or two when
/// the descriptor's first bit is set.
pub open spec fn vp9_header_offset(p: Seq<u8>) -> int {
    if p[0] & 0x80u8 != 0 { 2 } else { 1 }
}

/// A VP9 payload starts a key frame when the frame header after the
/// descriptor carries the frame marker `0b10` in its low two bits and the
/// next byte has its frame type bit (bit 6) clear.
pub open spec fn vp9_starts_key_frame(p: Seq<u8>) -> bool {
    &&& p.len() > 0
    &&& vp9_header_offset(p) + 1 < p.len()
    &&& p[vp9_header_offset(p)] & 0x03u8 == 0x02
    &&& (p[vp9_header_offset(p) + 1] >> 6u8) & 0x01u8 == 0
}

/// Where the VP9 key frame is read: the frame header follows one descriptor
/// byte, or two when the descriptor's first bit is set; a key frame has the
/// frame marker `0b10` in the header's low two bits and the frame type bit
/// 0x40 of the next byte clear.
pub proof fn law_vp9_key_frame_bits(p: Seq<u8>)
    ensures
        p.len() == 0 ==> !vp9_starts_key_frame(p),
        p.len() > 0 && p[0] & 0x80u8 == 0 ==> vp9_starts_key_frame(p) == (p.len() > 2 && p[1] & 0x03u8 == 0x02
            && p[2] & 0x40u8 == 0),
        p.len() > 0 && p[0] & 0x80u8 != 0 ==> vp9_starts_key_frame(p) == (p.len() > 3 && p[2] & 0x03u8 == 0x02
            && p[3] & 0x40u8 == 0),
{
    assert forall|b: u8| ((b >> 6u8) & 0x01u8 == 0) == (b & 0x40u8 == 0) by {
        assert(((b >> 6u8) & 0x01u8 == 0) == (b & 0x40u8 == 0)) by (bit_vector);
    }
}

/// Which H.264 payloads start a key frame: a single NAL unit exactly when it
/// is an IDR slice (type 5), a fragment (FU-A, FU-B) exactly when it is the
/// first fragment (start bit 0x80) of an IDR slice, a STAP-A packet as its
/// aggregated units say, and nothing else.
pub proof fn law_h264_key_frame_kinds(p: Seq<u8>)
    ensures
        p.len() == 0 ==> !h264_starts_key_frame(p),
        p.len() > 0 && p[0] & 0x1Fu8 == 5 ==> h264_starts_key_frame(p),
        p.len() > 0 && 1 <= p[0] & 0x1Fu8 <= 23 && p[0] & 0x1Fu8 != 5 ==> !h264_starts_key_frame(p),
        p.len() > 0 && (p[0] & 0x1Fu8 == 28 || p[0] & 0x1Fu8 == 29) ==> h264_starts_key_frame(p) == (p.len() > 1
            && p[1] & 0x80u8 != 0 && p[1] & 0x1Fu8 == 5),
        p.len() > 0 && p[0] & 0x1Fu8 == 24 ==> h264_starts_key_frame(p) == stap_a_has_idr(p, 1),
        p.len() > 0 && (p[0] & 0x1Fu8 == 0 || (25 <= p[0] & 0x1Fu8 <= 27) || p[0] & 0x1Fu8 >= 30)
            ==> !h264_starts_key_frame(p),
{
}

/// Whether a VP8 RTP packet starts a key frame.
pub fn is_vp8_key_frame(packet: &RtpPacket) -> (r: bool)
    ensures
        r == vp8_starts_key_frame(packet.payload@),
{
    let payload = packet.payload.as_slice();
    if payload.len() == 0 {
        return false;
    }
    let mut header_index: usize = 0;
    if payload[0] & 0x80 != 0 {
        header_index += 1;
        if header_index >= payload.len() {
            return false;
        }
        let has_i = payload[header_index] & 0x80 != 0;
        let has_l = payload[header_index] & 0x40 != 0;
        let has_t = payload[header_index] & 0x20 != 0;
        let has_k = payload[header_index] & 0x10 != 0;
        header_index += 1;
        if has_i {
            header_index += 1;
            if header_index < payload.len() && payload[header_index - 1] & 0x80 != 0 {
                header_index += 1;
            }
        }
        if has_l {
            header_index += 1;
        }
        if has_t || has_k {
            header_index += 1;
        }
    } else {
        header_index += 1;
    }
    if header_index >= payload.len() {
        return false;
    }
    let vp8_payload_header = payload[header_index];
    (vp8_payload_header & 0x01) == 0
}

/// Whether an H.264 RTP payload starts a key frame.
pub fn is_h264_key_frame(payload: &[u8]) -> (r: bool)
    ensures
        r == h264_starts_key_frame(payload@),
{
    if payload.len() == 0 {
        return false;
    }
    let nal_header = payload[0];
    let nal_type = nal_header & 0x1F;
    if nal_type >= 1 && nal_type <= 23 {
        return nal_type == 5;
    }
    if nal_type == 28 || nal_type == 29 {
        if payload.len() < 2 {
            return false;
        }
        let fu_header = payload[1];
        let start_bit = (fu_header & 0x80) != 0;
        let fu_type = fu_header & 0x1F;
        return fu_type == 5 && start_bit;
    }
    if nal_type == 24 {
        let mut offset: usize = 1;
        while payload.len() - offset > 2
            invariant
                1 <= offset <= payload.len(),
                payload.len() > 0,
                h264_starts_key_frame(payload@) == stap_a_has_idr(payload@, 1),
                stap_a_has_idr(payload@, 1) == stap_a_has_idr(payload@, offset as int),
            decreases payload.len() - offset,
        {
            let hi = payload[offset];
            let lo = payload[offset + 1];
            let nal_size = ((hi as usize) << 8) | (lo as usize);
            assert(((hi as usize) << 8usize) | (lo as usize) == (hi as usize) * 256 + (lo as usize))
                by (bit_vector);
            offset += 2;
            if nal_size > payload.len() - offset {
                return false;
            }
            let inner_nal_type = payload[offset] & 0x1F;
            if inner_nal_type == 5 {
                return true;
            }
            offset += nal_size;
        }
        return false;
    }
    false
}

/// Whether a VP9 RTP payload starts a key frame.
pub fn is_vp9_key_frame(payload: &[u8]) -> (r: bool)
    ensures
        r == vp9_starts_key_frame(payload@),
{
    if payload.len() == 0 {
        return false;
    }
    let mut offset: usize = 0;
    let byte = payload[offset];
    offset += 1;
    if (byte & 0x80) != 0 {
        if offset >= payload.len() {
            return false;
        }
        offset += 1;
    }
    if offset >= payload.len() {
        return false;
    }
    let frame_marker = payload[offset] & 0x03;
    if frame_marker != 0x02 {
        return false;
    }
    if offset + 1 >= payload.len() {
        return false;
    }
    let frame_type = (payload[offset + 1] >> 6) & 0x01;
    frame_type == 0
}

} // verus!
