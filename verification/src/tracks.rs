use vstd::prelude::*;
use vstd::string::StringExecFns;
use crate::ids::{new_uuid, random_ssrc, uuid_hyphenated, uuid_text};
use crate::publisher::CodecKind;
use crate::quality::Codec;

verus! {

/// How an outgoing track for one speaker is set up on a subscriber's
/// connection: its stream and track ids, its label, its kind, the SSRC of its
/// single encoding and its codec.
#[derive(Debug, PartialEq, Eq)]
pub struct TrackPlan {
    pub stream_id: String,
    pub track_id: String,
    pub label: String,
    pub kind: CodecKind,
    pub ssrc: u32,
    pub mime_type: String,
    pub payload_type: u8,
}

/// `prefix` followed by `text`.
pub fn prefixed(prefix: &str, text: &str) -> (s: String)
    ensures
        s@ == prefix@ + text@,
{
    let mut s = prefix.to_owned();
    s.append(text);
    s
}

/// `prefix` followed by the text of the UUID `id`.
pub fn prefixed_id(prefix: &str, id: u128) -> (s: String)
    ensures
        s@ == prefix@ + uuid_hyphenated(id),
{
    let text = uuid_text(id);
    prefixed(prefix, text.as_str())
}

/// The outgoing video track for `peer_id`: stream `video_<peer>`, a track id
/// of its own, labelled `Webcam`, with the SSRC `ssrc`.
pub fn video_track_plan_with(peer_id: u128, codec: &Codec, ssrc: u32, track_uuid: u128) -> (p: TrackPlan)
    ensures
        p.stream_id@ == "video_"@ + uuid_hyphenated(peer_id),
        p.track_id@ == uuid_hyphenated(track_uuid),
        p.label@ == "Webcam"@,
        p.kind == CodecKind::Video,
        p.ssrc == ssrc,
        p.mime_type@ == codec@.mime(),
        p.payload_type == codec@.payload_type(),
{
    TrackPlan {
        stream_id: prefixed_id("video_", peer_id),
        track_id: uuid_text(track_uuid),
        label: "Webcam".to_owned(),
        kind: CodecKind::Video,
        ssrc,
        mime_type: codec.to_string(),
        payload_type: codec.payload_type(),
    }
}

/// The outgoing video track for `peer_id`, with a random SSRC and a random
/// track id.
pub fn video_track_plan(peer_id: u128, codec: &Codec) -> (p: TrackPlan)
    ensures
        p.stream_id@ == "video_"@ + uuid_hyphenated(peer_id),
        exists|id: u128| p.track_id@ == uuid_hyphenated(id),
        p.label@ == "Webcam"@,
        p.kind == CodecKind::Video,
        p.mime_type@ == codec@.mime(),
        p.payload_type == codec@.payload_type(),
{
    let ssrc = random_ssrc();
    let track_uuid = new_uuid();
    video_track_plan_with(peer_id, codec, ssrc, track_uuid)
}

/// The outgoing audio track for `peer_id`: stream and track `audio_<peer>`,
/// labelled `Microphone`, with the SSRC `ssrc`.
pub fn audio_track_plan_with(peer_id: u128, codec: &Codec, ssrc: u32) -> (p: TrackPlan)
    ensures
        p.stream_id@ == "audio_"@ + uuid_hyphenated(peer_id),
        p.track_id@ == p.stream_id@,
        p.label@ == "Microphone"@,
        p.kind == CodecKind::Audio,
        p.ssrc == ssrc,
        p.mime_type@ == codec@.mime(),
        p.payload_type == codec@.payload_type(),
{
    let stream_id = prefixed_id("audio_", peer_id);
    let track_id = stream_id.clone();
    TrackPlan {
        stream_id,
        track_id,
        label: "Microphone".to_owned(),
        kind: CodecKind::Audio,
        ssrc,
        mime_type: codec.to_string(),
        payload_type: codec.payload_type(),
    }
}

/// The outgoing audio track for `peer_id`, with a random SSRC.
pub fn audio_track_plan(peer_id: u128, codec: &Codec) -> (p: TrackPlan)
    ensures
        p.stream_id@ == "audio_"@ + uuid_hyphenated(peer_id),
        p.track_id@ == p.stream_id@,
        p.label@ == "Microphone"@,
        p.kind == CodecKind::Audio,
        p.mime_type@ == codec@.mime(),
        p.payload_type == codec@.payload_type(),
{
    let ssrc = random_ssrc();
    audio_track_plan_with(peer_id, codec, ssrc)
}

} // verus!
