use vstd::prelude::*;
use std::collections::HashMap;
use vstd::std_specs::iter::IteratorSpec;
use crate::layer_manager::{keys_are_slots, layer_in, lemma_layer_in_insert, slot_of};
use crate::quality::{codec_of_mime, quality_of_rid, Codec, StreamQuality};
use crate::room::VideoRouterStream;
use crate::signal::{candidate_message, publisher_step, IceCandidate, MessageType, NegotiationStep, SignalMessage, Target};

verus! {

broadcast use vstd::std_specs::hash::group_hash_axioms;

/// The media kind of a remote track.
#[derive(Debug, PartialEq, Eq, Clone, Copy, Structural)]
pub enum CodecKind {
    Unspecified,
    Audio,
    Video,
}

/// How a newly published track is routed.
#[derive(Debug, PartialEq, Eq)]
pub enum TrackRoute {
    /// An audio track: one gateway router for the codec.
    Audio { codec: Codec },
    /// A video track: its simulcast layers are sorted out as they appear.
    Video,
}

/// Routes a newly published track by its kind; a track of unknown kind is
/// taken as audio, with the codec its MIME type names.
pub fn on_track(kind: CodecKind, mime_type: &str) -> (route: TrackRoute)
    ensures
        kind == CodecKind::Video ==> route is Video,
        kind != CodecKind::Video ==> (route matches TrackRoute::Audio { codec } && codec@ == codec_of_mime(
            mime_type@,
        )),
{
    match kind {
        CodecKind::Audio | CodecKind::Unspecified => {
            let codec = match Codec::from_str(mime_type) {
                Ok(c) => c,
                Err(_) => Codec::default(),
            };
            TrackRoute::Audio { codec }
        },
        CodecKind::Video => TrackRoute::Video,
    }
}

/// A published audio track: its codec and the handle of its forwarder.
#[derive(Debug, PartialEq, Eq)]
pub struct AudioTrack {
    pub codec: Codec,
    pub forwarder: u64,
}

/// A published video layer: its codec and the handles of its picture loss
/// sender and of its forwarder.
#[derive(Debug, PartialEq, Eq)]
pub struct VideoTrack {
    pub codec: Codec,
    pub pli_sender: u64,
    pub forwarder: u64,
}

/// The tracks a participant publishes: at most one audio track and one video
/// track per layer.
pub struct PublishedTracks {
    pub audio_track: Option<AudioTrack>,
    pub video_tracks: HashMap<u8, VideoTrack>,
}

impl PublishedTracks {
    /// Only layers' keys are keys of the map of video tracks.
    pub open spec fn wf(&self) -> bool {
        keys_are_slots(self.video_tracks@)
    }

    /// The video track of layer `q`, if it is published.
    pub open spec fn video(&self, q: StreamQuality) -> Option<VideoTrack> {
        layer_in(self.video_tracks@, q)
    }

    pub fn new() -> (t: PublishedTracks)
        ensures
            t.wf(),
            t.audio_track is None,
            forall|q: StreamQuality| t.video(q) is None,
    {
        PublishedTracks { audio_track: None, video_tracks: HashMap::new() }
    }

    /// Whether the layer `q` is published.
    pub fn has_video(&self, q: StreamQuality) -> (r: bool)
        requires
            self.wf(),
        ensures
            r == self.video(q) is Some,
    {
        self.video_tracks.contains_key(&slot_of(q))
    }

    /// Records the first audio track; answers the codec and the forwarder to
    /// announce to the room. A second audio track is not supported.
    pub fn new_audio_track(&mut self, track: AudioTrack) -> (announce: (Codec, u64))
        requires
            old(self).audio_track is None,
        ensures
            final(self).audio_track == Some(track),
            final(self).video_tracks == old(self).video_tracks,
            announce.0 == track.codec,
            announce.1 == track.forwarder,
    {
        let announce = (track.codec.duplicate(), track.forwarder);
        self.audio_track = Some(track);
        announce
    }

    /// Records the video track of layer `quality`; answers what to announce
    /// to the room: the codec, the forwarder and the picture loss sender. A
    /// second track for a layer is not supported.
    pub fn new_video_track(&mut self, quality: StreamQuality, track: VideoTrack) -> (announce: (Codec, u64, u64))
        requires
            old(self).wf(),
            old(self).video(quality) is None,
        ensures
            final(self).wf(),
            final(self).audio_track == old(self).audio_track,
            forall|q: StreamQuality| final(self).video(q) == (if q == quality { Some(track) } else { old(self).video(q) }),
            announce == (track.codec, track.forwarder, track.pli_sender),
    {
        let announce = (track.codec.duplicate(), track.forwarder, track.pli_sender);
        proof {
            lemma_layer_in_insert(self.video_tracks@, quality, track);
        }
        self.video_tracks.insert(slot_of(quality), track);
        announce
    }

    /// The picture loss senders of the published layers, one for each layer,
    /// which are asked for key frames when the connection comes back.
    pub fn pli_senders(&self) -> (senders: Vec<u64>)
        ensures
            lists_senders(self.video_tracks@, senders@),
    {
        let mut senders: Vec<u64> = Vec::new();
        let iter = self.video_tracks.iter();
        let ghost entries: Seq<(u8, VideoTrack)> = iter.remaining().unref();
        let ghost keys: Seq<u8> = entries.map_values(|e: (u8, VideoTrack)| e.0);
        proof {
            assert forall|i: int, j: int| 0 <= i < j < keys.len() implies keys[i] != keys[j] by {
                let v = iter.remaining();
                if keys[i] == keys[j] {
                    assert(self.video_tracks@.contains_key(*v[i].0) && self.video_tracks@.contains_key(*v[j].0));
                    assert(*v[i].1 == *v[j].1);
                    assert(v[i] == v[j]);
                    assert(v.no_duplicates());
                }
            }
            assert forall|k: u8| #[trigger] keys.to_set().contains(k) == self.video_tracks@.dom().contains(k) by {
                if self.video_tracks@.contains_key(k) {
                    assert(iter.remaining().contains((&k, &self.video_tracks@[k])));
                    let i = choose|i: int|
                        0 <= i < entries.len() && iter.remaining()[i] == (&k, &self.video_tracks@[k]);
                    assert(keys[i] == k);
                }
                if keys.to_set().contains(k) {
                    let i = choose|i: int| 0 <= i < keys.len() && keys[i] == k;
                    assert(self.video_tracks@.contains_key(*iter.remaining()[i].0));
                }
            }
            assert(keys.to_set() =~= self.video_tracks@.dom());
        }
        for e in it: iter
            invariant
                it.seq().unref() == entries,
                keys == entries.map_values(|e: (u8, VideoTrack)| e.0),
                forall|i: int|
                    0 <= i < entries.len() ==> self.video_tracks@.contains_key(entries[i].0)
                        && self.video_tracks@[entries[i].0] == entries[i].1,
                senders@.len() == it.index(),
                forall|i: int| 0 <= i < it.index() ==> #[trigger] senders@[i] == entries[i].1.pli_sender,
        {
            senders.push(e.1.pli_sender);
        }
        proof {
            assert(keys.no_duplicates());
            assert forall|i: int| 0 <= i < keys.len() implies #[trigger] senders@[i]
                == self.video_tracks@[keys[i]].pli_sender by {
                assert(self.video_tracks@[entries[i].0] == entries[i].1);
            }
        }
        senders
    }
}

/// `senders` holds the picture loss sender of each track of `tracks` once: it
/// is the senders of some listing of the layers in which each appears
/// exactly once.
pub open spec fn lists_senders(tracks: Map<u8, VideoTrack>, senders: Seq<u64>) -> bool {
    exists|keys: Seq<u8>|
        {
            &&& keys.no_duplicates()
            &&& keys.to_set() == tracks.dom()
            &&& keys.len() == senders.len()
            &&& forall|i: int| 0 <= i < keys.len() ==> #[trigger] senders[i] == tracks[keys[i]].pli_sender
        }
}

/// The layer of a remote track on a single-room server: audio for an
/// audio track or one of unknown kind; for a video track, the layer its RID
/// names, or the high layer when the RID names none.
pub fn published_layer(kind: CodecKind, rid: &str) -> (q: StreamQuality)
    ensures
        kind != CodecKind::Video ==> q == StreamQuality::Audio,
        kind == CodecKind::Video ==> q == (match quality_of_rid(rid@) {
            Some(r) => r,
            None => StreamQuality::High,
        }),
{
    match kind {
        CodecKind::Audio | CodecKind::Unspecified => StreamQuality::Audio,
        CodecKind::Video => match StreamQuality::from_str(rid) {
            Ok(q) => q,
            Err(_) => StreamQuality::High,
        },
    }
}

/// What the publishing connection of a participant is told.
pub enum PublisherEvent {
    /// A negotiation message from the client.
    Websocket(MessageType),
    /// A local ICE candidate was gathered.
    IceCandidate { candidate: IceCandidate },
    /// A simulcast layer of a published video track is ready.
    NewVideoTrack { quality: StreamQuality, video_router_stream: VideoRouterStream },
    /// A remote track arrived, of kind `kind` and codec `mime_type`.
    OnTrack { kind: CodecKind, mime_type: String },
}

/// What the publishing connection does in answer to an event.
#[derive(Debug, PartialEq, Eq)]
pub enum PublisherAction {
    /// Carry out the negotiation step on the peer connection.
    Negotiate(NegotiationStep),
    /// Send the message to the client through the participant.
    SendToUser(SignalMessage),
    /// Announce the layer to the room.
    AnnounceVideo { quality: StreamQuality, video_router_stream: VideoRouterStream },
    /// Set up the routing of the remote track.
    RouteTrack(TrackRoute),
}

/// The publishing connection of a participant: the key frame interceptors of
/// the layers it announced, in order.
pub struct PublisherState {
    pub keyframe_interceptors: Vec<u64>,
}

impl PublisherState {
    pub fn new() -> (p: PublisherState)
        ensures
            p.keyframe_interceptors@ == Seq::<u64>::empty(),
    {
        PublisherState { keyframe_interceptors: Vec::new() }
    }

    /// Handles one event. Only a new layer changes the state: its key frame
    /// interceptor is kept.
    pub fn handle(&mut self, event: PublisherEvent) -> (action: PublisherAction)
        ensures
            match event {
                PublisherEvent::Websocket(m) => action matches PublisherAction::Negotiate(step)
                    && step == match m {
                        MessageType::IceRestart { sdp } => NegotiationStep::AnswerOffer { sdp, subscribe_to_peers: false },
                        MessageType::Offer { sdp } => NegotiationStep::AnswerOffer { sdp, subscribe_to_peers: true },
                        MessageType::Candidate { candidate } => NegotiationStep::AddCandidate(candidate),
                        MessageType::Answer { sdp } => NegotiationStep::SetRemoteAnswer { sdp },
                    },
                PublisherEvent::IceCandidate { candidate } => action == PublisherAction::SendToUser(
                    SignalMessage::Rtc { target: Target::Publisher, message_type: MessageType::Candidate { candidate } },
                ),
                PublisherEvent::NewVideoTrack { quality, video_router_stream } => action
                    == PublisherAction::AnnounceVideo { quality, video_router_stream }
                    && final(self).keyframe_interceptors@ == old(self).keyframe_interceptors@.push(
                    video_router_stream.keyframe_interceptor,
                ),
                PublisherEvent::OnTrack { kind, mime_type } => action matches PublisherAction::RouteTrack(route)
                    && (kind == CodecKind::Video ==> route is Video)
                    && (kind != CodecKind::Video ==> (route matches TrackRoute::Audio { codec } && codec@
                    == codec_of_mime(mime_type@))),
            },
            !(event is NewVideoTrack) ==> final(self).keyframe_interceptors@ == old(self).keyframe_interceptors@,
    {
        match event {
            PublisherEvent::Websocket(m) => PublisherAction::Negotiate(publisher_step(m)),
            PublisherEvent::IceCandidate { candidate } => PublisherAction::SendToUser(
                candidate_message(Target::Publisher, candidate),
            ),
            PublisherEvent::NewVideoTrack { quality, video_router_stream } => {
                self.keyframe_interceptors.push(video_router_stream.keyframe_interceptor);
                PublisherAction::AnnounceVideo { quality, video_router_stream }
            },
            PublisherEvent::OnTrack { kind, mime_type } => PublisherAction::RouteTrack(
                on_track(kind, mime_type.as_str()),
            ),
        }
    }
}

} // verus!
