use vstd::prelude::*;
use std::collections::HashMap;
use vstd::std_specs::iter::IteratorSpec;
use crate::ids::new_uuid;
use crate::layer_manager::{keys_are_slots, layer_in, slot, slot_of};
use crate::quality::{codec_of_mime, Codec, StreamQuality};

verus! {

broadcast use vstd::std_specs::hash::group_hash_axioms;

/// A published audio stream: the handle of its gateway router and its codec.
#[derive(Debug, PartialEq, Eq)]
pub struct AudioRouterStream {
    pub router: u64,
    pub codec: Codec,
}

impl AudioRouterStream {
    /// A copy of the stream.
    pub fn duplicate(&self) -> (r: AudioRouterStream)
        ensures
            r == *self,
    {
        AudioRouterStream { router: self.router, codec: self.codec.duplicate() }
    }
}

/// A published video layer: the handles of its gateway router, of the key
/// frame interceptor of its source and of the notifier that tells when the
/// layer wakes up, and its codec.
#[derive(Debug, PartialEq, Eq)]
pub struct VideoRouterStream {
    pub router: u64,
    pub codec: Codec,
    pub keyframe_interceptor: u64,
    pub wake_tx: u64,
}

impl VideoRouterStream {
    /// A copy of the stream.
    pub fn duplicate(&self) -> (r: VideoRouterStream)
        ensures
            r == *self,
    {
        VideoRouterStream {
            router: self.router,
            codec: self.codec.duplicate(),
            keyframe_interceptor: self.keyframe_interceptor,
            wake_tx: self.wake_tx,
        }
    }
}

/// A published stream as a single-room server keeps it: the subscription to
/// its packets and the MIME type of its codec.
pub struct PeerStream<T> {
    pub packet_subscription: T,
    pub mime_type: String,
}

impl<T> PeerStream<T> {
    /// The codec that the stream's MIME type names.
    pub fn codec(&self) -> (c: Codec)
        ensures
            c@ == codec_of_mime(self.mime_type@),
    {
        match Codec::from_str(self.mime_type.as_str()) {
            Ok(c) => c,
            Err(_) => Codec::default(),
        }
    }
}

/// What a participant of a room publishes: at most one audio stream and at
/// most one video stream per layer.
#[derive(Debug, PartialEq, Eq)]
pub struct Peer {
    pub video_streams: HashMap<u8, VideoRouterStream>,
    pub audio_stream: Option<AudioRouterStream>,
}

/// The mathematical value of what a participant publishes.
pub struct PeerView {
    pub videos: Map<u8, VideoRouterStream>,
    pub audio: Option<AudioRouterStream>,
}

impl View for Peer {
    type V = PeerView;

    open spec fn view(&self) -> PeerView {
        PeerView { videos: self.video_streams@, audio: self.audio_stream }
    }
}

/// What a participant is told by the room.
#[derive(Debug, PartialEq, Eq)]
pub enum UserNotice {
    /// Subscribe to the audio stream of `speaker`.
    ConnectAudio { speaker: u128, stream: AudioRouterStream },
    /// Subscribe to layer `quality` of the video of `speaker`.
    ConnectVideo { speaker: u128, quality: StreamQuality, stream: VideoRouterStream },
    /// The participant `user_id` left.
    Unsubscribe { user_id: u128 },
    /// The room closed.
    RoomClosed,
}

/// A notice for the participant `to`.
#[derive(Debug, PartialEq, Eq)]
pub struct Delivery {
    pub to: u128,
    pub notice: UserNotice,
}

/// `ids` lists each participant of `s` exactly once.
pub open spec fn lists_ids(s: Set<u128>, ids: Seq<u128>) -> bool {
    ids.no_duplicates() && ids.to_set() == s
}

/// `notice` for each of `ids`, in that order.
pub open spec fn notices_for(ids: Seq<u128>, notice: UserNotice) -> Seq<Delivery> {
    ids.map_values(|id: u128| Delivery { to: id, notice })
}

/// `out` tells `notice` to each participant of `s` exactly once, and to no
/// one else.
pub open spec fn delivered_once(s: Set<u128>, notice: UserNotice, out: Seq<Delivery>) -> bool {
    exists|ids: Seq<u128>| lists_ids(s, ids) && out == notices_for(ids, notice)
}

/// The layers in the order in which they are offered: audio, low, mid, high.
pub open spec fn layer_order() -> Seq<StreamQuality> {
    seq![StreamQuality::Audio, StreamQuality::Low, StreamQuality::Mid, StreamQuality::High]
}

/// The published video layers of `speaker` among the first `n` layers of
/// `layer_order()`, offered to `to`, in that order.
pub open spec fn video_offers_upto(to: u128, speaker: u128, videos: Map<u8, VideoRouterStream>, n: nat) -> Seq<
    Delivery,
>
    decreases n,
{
    if n == 0 {
        Seq::empty()
    } else {
        let rest = video_offers_upto(to, speaker, videos, (n - 1) as nat);
        let q = layer_order()[n - 1];
        match layer_in(videos, q) {
            Some(stream) => rest.push(Delivery { to, notice: UserNotice::ConnectVideo { speaker, quality: q, stream } }),
            None => rest,
        }
    }
}

/// The video layers of `speaker`, from `videos`, offered to `to`, from the
/// lowest layer up.
pub open spec fn video_offers(to: u128, speaker: u128, videos: Map<u8, VideoRouterStream>) -> Seq<Delivery> {
    video_offers_upto(to, speaker, videos, 4)
}

/// What `speaker` publishes (`p`), offered to `to`: its audio stream, if any,
/// then its video layers.
pub open spec fn offers_of(to: u128, speaker: u128, p: PeerView) -> Seq<Delivery> {
    let audio = match p.audio {
        Some(a) => seq![Delivery { to, notice: UserNotice::ConnectAudio { speaker, stream: a } }],
        None => Seq::empty(),
    };
    audio + video_offers(to, speaker, p.videos)
}

/// What each of the participants `ids` of `members` publishes, offered to
/// `to`, one participant after the other.
pub open spec fn offers_from(members: Map<u128, PeerView>, ids: Seq<u128>, to: u128) -> Seq<Delivery> {
    ids.map_values(|id: u128| offers_of(to, id, members[id])).flatten()
}

/// `out` offers to `to` what every other participant of `members` publishes,
/// each participant's offers together and each participant once.
pub open spec fn offered_once(members: Map<u128, PeerView>, to: u128, out: Seq<Delivery>) -> bool {
    exists|ids: Seq<u128>| lists_ids(members.dom().remove(to), ids) && out == offers_from(members, ids, to)
}

/// The video layers after `s` is published as layer `q`: it replaces the
/// stream of that layer, if any.
pub open spec fn with_layer(videos: Map<u8, VideoRouterStream>, q: StreamQuality, s: VideoRouterStream) -> Map<
    u8,
    VideoRouterStream,
> {
    videos.insert(slot(q), s)
}

/// What a room is told; the participants' addresses stay with the caller.
pub enum RoomMessage {
    SubscribeToPeers { peer_id: u128 },
    GetUser { peer_id: u128 },
    Join { peer_id: u128 },
    AddAudioTrack { peer_id: u128, router: AudioRouterStream },
    AddVideoTrack { peer_id: u128, quality: StreamQuality, video_router_stream: VideoRouterStream },
    Leave { peer_id: u128 },
}

/// What a room does in answer to a message.
#[derive(Debug, PartialEq, Eq)]
pub enum RoomAction {
    /// Whether the joining participant was admitted; a participant that is
    /// already in the room keeps its first address.
    Joined(bool),
    /// Whether the asked-for participant is in the room.
    Found(bool),
    /// Send these notices, in order.
    Deliver(Vec<Delivery>),
}

/// A room: its participants, by id, and what each publishes.
pub struct Room {
    pub id: u128,
    pub peers: HashMap<u128, Peer>,
}

impl Room {
    /// The participants, by id, and what each publishes.
    pub open spec fn members(&self) -> Map<u128, PeerView> {
        self.peers@.map_values(|p: Peer| p@)
    }

    /// Whether `peer_id` is in the room.
    pub open spec fn has(&self, peer_id: u128) -> bool {
        self.peers@.contains_key(peer_id)
    }

    /// Each participant's video layers are keyed by the layers' keys.
    pub open spec fn wf(&self) -> bool {
        forall|k: u128| #[trigger] self.peers@.contains_key(k) ==> keys_are_slots(self.peers@[k].video_streams@)
    }

    /// The participants are the keys of the room's map.
    pub proof fn lemma_members_dom(&self)
        ensures
            self.members().dom() == self.peers@.dom(),
            forall|k: u128| #[trigger] self.members().contains_key(k) == self.has(k),
    {
        assert(self.members().dom() =~= self.peers@.dom());
    }

    /// An empty room with the given id.
    pub fn with_id(id: u128) -> (r: Room)
        ensures
            r.wf(),
            r.id == id,
            r.members() == Map::<u128, PeerView>::empty(),
    {
        let r = Room { id, peers: HashMap::new() };
        assert(r.members() =~= Map::<u128, PeerView>::empty());
        r
    }

    /// An empty room with a fresh random id (a version 4 UUID).
    pub fn new() -> (r: Room)
        ensures
            r.wf(),
            r.members() == Map::<u128, PeerView>::empty(),
            (r.id >> 76u128) & 0xfu128 == 4,
    {
        let id = new_uuid();
        Room::with_id(id)
    }

    /// The ids of the participants, each once, in the map's iteration order.
    pub fn peer_ids(&self) -> (ids: Vec<u128>)
        ensures
            lists_ids(self.peers@.dom(), ids@),
    {
        let mut ids: Vec<u128> = Vec::new();
        let ghost all: Seq<u128> = self.peers.keys().remaining().unref();
        proof {
            assert forall|i: int, j: int| 0 <= i < j < all.len() implies all[i] != all[j] by {
                assert(self.peers.keys().remaining()[i] != self.peers.keys().remaining()[j]);
            }
        }
        for k in it: self.peers.keys()
            invariant
                it.seq().unref() == all,
                ids@ == all.take(it.index() as int),
        {
            proof {
                assert(all.take(it.index() as int + 1) == all.take(it.index() as int).push(*k));
            }
            ids.push(*k);
        }
        proof {
            assert(all.take(all.len() as int) == all);
        }
        ids
    }

    /// Admits `peer_id`, unless it is already in the room; answers whether it
    /// was admitted. A newcomer publishes nothing yet.
    pub fn add_peer(&mut self, peer_id: u128) -> (added: bool)
        requires
            old(self).wf(),
        ensures
            final(self).wf(),
            final(self).id == old(self).id,
            added == !old(self).has(peer_id),
            final(self).has(peer_id),
            added ==> final(self).members() == old(self).members().insert(
                peer_id,
                PeerView { videos: Map::empty(), audio: None },
            ),
            !added ==> final(self).members() == old(self).members(),
    {
        if self.peers.contains_key(&peer_id) {
            return false;
        }
        self.peers.insert(peer_id, Peer { video_streams: HashMap::new(), audio_stream: None });
        proof {
            assert(self.members() =~= old(self).members().insert(
                peer_id,
                PeerView { videos: Map::empty(), audio: None },
            ));
            assert forall|k: u128| #[trigger] self.peers@.contains_key(k) implies keys_are_slots(
                self.peers@[k].video_streams@,
            ) by {
                if k != peer_id {
                    assert(old(self).peers@.contains_key(k));
                }
            }
        }
        true
    }

    /// Whether `peer_id` is in the room.
    pub fn get_user(&self, peer_id: u128) -> (found: bool)
        ensures
            found == self.has(peer_id),
    {
        self.peers.contains_key(&peer_id)
    }

    /// `notice` for every participant other than `peer_id`, each once.
    pub fn notify_others(&self, peer_id: u128, notice: &UserNotice) -> (out: Vec<Delivery>)
        ensures
            delivered_once(self.members().dom().remove(peer_id), *notice, out@),
    {
        let ids = self.peer_ids();
        let mut out: Vec<Delivery> = Vec::new();
        let ghost mut told: Seq<u128> = Seq::empty();
        let mut i: usize = 0;
        while i < ids.len()
            invariant
                i <= ids@.len(),
                lists_ids(self.peers@.dom(), ids@),
                told.no_duplicates(),
                told.to_set() == ids@.take(i as int).to_set().remove(peer_id),
                out@ == notices_for(told, *notice),
            decreases ids@.len() - i,
        {
            let to = ids[i];
            proof {
                lemma_take_push_to_set(ids@, i as int);
            }
            if to != peer_id {
                proof {
                    lemma_not_listed_before(ids@, i as int, told, peer_id);
                }
                out.push(Delivery { to, notice: notice.duplicate() });
                proof {
                    assert(notices_for(told.push(to), *notice) =~= notices_for(told, *notice).push(
                        Delivery { to, notice: *notice },
                    ));
                    told.lemma_push_to_set_commute(to);
                    told = told.push(to);
                    assert(told.to_set() =~= ids@.take(i as int + 1).to_set().remove(peer_id));
                }
            } else {
                proof {
                    assert(told.to_set() =~= ids@.take(i as int + 1).to_set().remove(peer_id));
                }
            }
            i += 1;
        }
        proof {
            assert(ids@.take(ids@.len() as int) == ids@);
            self.lemma_members_dom();
            assert(lists_ids(self.members().dom().remove(peer_id), told));
        }
        out
    }

    /// Offers the new audio stream of `peer_id` to everyone else, then
    /// records it as the participant's audio stream.
    pub fn add_audio_track(&mut self, peer_id: u128, stream: AudioRouterStream) -> (out: Vec<Delivery>)
        requires
            old(self).wf(),
            old(self).has(peer_id),
        ensures
            final(self).wf(),
            final(self).id == old(self).id,
            delivered_once(
                old(self).members().dom().remove(peer_id),
                UserNotice::ConnectAudio { speaker: peer_id, stream },
                out@,
            ),
            final(self).members() == old(self).members().insert(
                peer_id,
                PeerView { audio: Some(stream), ..old(self).members()[peer_id] },
            ),
    {
        let notice = UserNotice::ConnectAudio { speaker: peer_id, stream: stream.duplicate() };
        let out = self.notify_others(peer_id, &notice);
        let mut peer = self.peers.remove(&peer_id).unwrap();
        peer.audio_stream = Some(stream);
        self.peers.insert(peer_id, peer);
        proof {
            assert(self.members() =~= old(self).members().insert(
                peer_id,
                PeerView { audio: Some(stream), ..old(self).members()[peer_id] },
            ));
            assert forall|k: u128| #[trigger] self.peers@.contains_key(k) implies keys_are_slots(
                self.peers@[k].video_streams@,
            ) by {
                assert(old(self).peers@.contains_key(k));
            }
        }
        out
    }

    /// Offers the new video layer of `peer_id` to everyone else, then records
    /// it among the participant's layers.
    pub fn add_video_track(&mut self, peer_id: u128, quality: StreamQuality, stream: VideoRouterStream) -> (out:
        Vec<Delivery>)
        requires
            old(self).wf(),
            old(self).has(peer_id),
        ensures
            final(self).wf(),
            final(self).id == old(self).id,
            delivered_once(
                old(self).members().dom().remove(peer_id),
                UserNotice::ConnectVideo { speaker: peer_id, quality, stream },
                out@,
            ),
            final(self).members() == old(self).members().insert(
                peer_id,
                PeerView {
                    videos: with_layer(old(self).members()[peer_id].videos, quality, stream),
                    ..old(self).members()[peer_id]
                },
            ),
    {
        let notice = UserNotice::ConnectVideo { speaker: peer_id, quality, stream: stream.duplicate() };
        let out = self.notify_others(peer_id, &notice);
        let mut peer = self.peers.remove(&peer_id).unwrap();
        proof {
            assert(old(self).peers@.contains_key(peer_id));
        }
        peer.video_streams.insert(slot_of(quality), stream);
        self.peers.insert(peer_id, peer);
        proof {
            assert(self.members() =~= old(self).members().insert(
                peer_id,
                PeerView {
                    videos: with_layer(old(self).members()[peer_id].videos, quality, stream),
                    ..old(self).members()[peer_id]
                },
            ));
            assert forall|k: u128| #[trigger] self.peers@.contains_key(k) implies keys_are_slots(
                self.peers@[k].video_streams@,
            ) by {
                assert(old(self).peers@.contains_key(k));
            }
        }
        out
    }

    /// Offers everything the other participants publish to `peer_id`; nothing
    /// when `peer_id` is not in the room.
    pub fn connect_old_streams(&self, peer_id: u128) -> (out: Vec<Delivery>)
        ensures
            self.has(peer_id) ==> offered_once(self.members(), peer_id, out@),
            !self.has(peer_id) ==> out@.len() == 0,
    {
        let mut out: Vec<Delivery> = Vec::new();
        if !self.peers.contains_key(&peer_id) {
            return out;
        }
        let ids = self.peer_ids();
        let ghost mut told: Seq<u128> = Seq::empty();
        proof {
            assert(offers_from(self.members(), told, peer_id) =~= Seq::<Delivery>::empty());
        }
        let mut i: usize = 0;
        while i < ids.len()
            invariant
                i <= ids@.len(),
                lists_ids(self.peers@.dom(), ids@),
                told.no_duplicates(),
                told.to_set() == ids@.take(i as int).to_set().remove(peer_id),
                out@ == offers_from(self.members(), told, peer_id),
            decreases ids@.len() - i,
        {
            let id = ids[i];
            proof {
                lemma_take_push_to_set(ids@, i as int);
                assert(ids@.to_set().contains(ids@[i as int]));
            }
            if id != peer_id {
                proof {
                    lemma_not_listed_before(ids@, i as int, told, peer_id);
                }
                let peer = self.peers.get(&id).unwrap();
                let ghost before = out@;
                if let Some(audio_stream) = &peer.audio_stream {
                    out.push(
                        Delivery {
                            to: peer_id,
                            notice: UserNotice::ConnectAudio { speaker: id, stream: audio_stream.duplicate() },
                        },
                    );
                }
                let ghost with_audio = out@;
                let order = [StreamQuality::Audio, StreamQuality::Low, StreamQuality::Mid, StreamQuality::High];
                let mut j: usize = 0;
                while j < 4
                    invariant
                        j <= 4,
                        order@ == layer_order(),
                        out@ == with_audio + video_offers_upto(peer_id, id, peer.video_streams@, j as nat),
                    decreases 4 - j,
                {
                    let q = order[j];
                    if let Some(stream) = peer.video_streams.get(&slot_of(q)) {
                        out.push(
                            Delivery {
                                to: peer_id,
                                notice: UserNotice::ConnectVideo { speaker: id, quality: q, stream: stream.duplicate() },
                            },
                        );
                    }
                    proof {
                        assert(out@ =~= with_audio + video_offers_upto(peer_id, id, peer.video_streams@, j as nat + 1));
                    }
                    j += 1;
                }
                proof {
                    assert(self.members()[id] == peer@);
                    assert(out@ =~= before + offers_of(peer_id, id, peer@));
                    lemma_offers_from_push(self.members(), told, id, peer_id);
                    told.lemma_push_to_set_commute(id);
                    told = told.push(id);
                    assert(told.to_set() =~= ids@.take(i as int + 1).to_set().remove(peer_id));
                }
            } else {
                proof {
                    assert(told.to_set() =~= ids@.take(i as int + 1).to_set().remove(peer_id));
                }
            }
            i += 1;
        }
        proof {
            assert(ids@.take(ids@.len() as int) == ids@);
            self.lemma_members_dom();
            assert(lists_ids(self.members().dom().remove(peer_id), told));
        }
        out
    }

    /// Removes `peer_id` and tells everyone who remains that it left.
    pub fn leave(&mut self, peer_id: u128) -> (out: Vec<Delivery>)
        requires
            old(self).wf(),
        ensures
            final(self).wf(),
            final(self).id == old(self).id,
            !final(self).has(peer_id),
            final(self).members() == old(self).members().remove(peer_id),
            delivered_once(final(self).members().dom(), UserNotice::Unsubscribe { user_id: peer_id }, out@),
    {
        let _ = self.peers.remove(&peer_id);
        proof {
            assert(self.members() =~= old(self).members().remove(peer_id));
            assert forall|k: u128| #[trigger] self.peers@.contains_key(k) implies keys_are_slots(
                self.peers@[k].video_streams@,
            ) by {
                assert(old(self).peers@.contains_key(k));
            }
            self.lemma_members_dom();
            assert(self.members().dom().remove(peer_id) =~= self.members().dom());
        }
        self.notify_others(peer_id, &UserNotice::Unsubscribe { user_id: peer_id })
    }

    /// Tells every participant that the room closed.
    pub fn close(&self) -> (out: Vec<Delivery>)
        ensures
            delivered_once(self.members().dom(), UserNotice::RoomClosed, out@),
    {
        let ids = self.peer_ids();
        let mut out: Vec<Delivery> = Vec::new();
        let mut i: usize = 0;
        while i < ids.len()
            invariant
                i <= ids@.len(),
                out@ == notices_for(ids@.take(i as int), UserNotice::RoomClosed),
            decreases ids@.len() - i,
        {
            out.push(Delivery { to: ids[i], notice: UserNotice::RoomClosed });
            proof {
                assert(ids@.take(i as int + 1) =~= ids@.take(i as int).push(ids@[i as int]));
                assert(notices_for(ids@.take(i as int + 1), UserNotice::RoomClosed) =~= notices_for(
                    ids@.take(i as int),
                    UserNotice::RoomClosed,
                ).push(Delivery { to: ids@[i as int], notice: UserNotice::RoomClosed }));
            }
            i += 1;
        }
        proof {
            assert(ids@.take(ids@.len() as int) == ids@);
            self.lemma_members_dom();
            assert(lists_ids(self.members().dom(), ids@));
        }
        out
    }

    /// Handles one message. A track announced by a participant that is not
    /// in the room is a caller error, which the caller rules out.
    pub fn handle(&mut self, msg: RoomMessage) -> (action: RoomAction)
        requires
            old(self).wf(),
            msg matches RoomMessage::AddAudioTrack { peer_id, .. } ==> old(self).has(peer_id),
            msg matches RoomMessage::AddVideoTrack { peer_id, .. } ==> old(self).has(peer_id),
        ensures
            final(self).wf(),
            final(self).id == old(self).id,
            match msg {
                RoomMessage::Join { peer_id } => action == RoomAction::Joined(!old(self).has(peer_id))
                    && final(self).has(peer_id) && (!old(self).has(peer_id) ==> final(self).members()
                    == old(self).members().insert(peer_id, PeerView { videos: Map::empty(), audio: None }))
                    && (old(self).has(peer_id) ==> final(self).members() == old(self).members()),
                RoomMessage::GetUser { peer_id } => action == RoomAction::Found(old(self).has(peer_id))
                    && final(self).members() == old(self).members(),
                RoomMessage::SubscribeToPeers { peer_id } => (action matches RoomAction::Deliver(out)
                    && (old(self).has(peer_id) ==> offered_once(old(self).members(), peer_id, out@))
                    && (!old(self).has(peer_id) ==> out@.len() == 0))
                    && final(self).members() == old(self).members(),
                RoomMessage::AddAudioTrack { peer_id, router } => (action matches RoomAction::Deliver(out)
                    && delivered_once(
                    old(self).members().dom().remove(peer_id),
                    UserNotice::ConnectAudio { speaker: peer_id, stream: router },
                    out@,
                )) && final(self).members() == old(self).members().insert(
                    peer_id,
                    PeerView { audio: Some(router), ..old(self).members()[peer_id] },
                ),
                RoomMessage::AddVideoTrack { peer_id, quality, video_router_stream } =>
                    (action matches RoomAction::Deliver(out) && delivered_once(
                    old(self).members().dom().remove(peer_id),
                    UserNotice::ConnectVideo { speaker: peer_id, quality, stream: video_router_stream },
                    out@,
                )) && final(self).members() == old(self).members().insert(
                    peer_id,
                    PeerView {
                        videos: with_layer(old(self).members()[peer_id].videos, quality, video_router_stream),
                        ..old(self).members()[peer_id]
                    },
                ),
                RoomMessage::Leave { peer_id } => (action matches RoomAction::Deliver(out) && delivered_once(
                    final(self).members().dom(),
                    UserNotice::Unsubscribe { user_id: peer_id },
                    out@,
                )) && !final(self).has(peer_id) && final(self).members() == old(self).members().remove(peer_id),
            },
    {
        match msg {
            RoomMessage::Join { peer_id } => {
                let added = self.add_peer(peer_id);
                RoomAction::Joined(added)
            },
            RoomMessage::GetUser { peer_id } => RoomAction::Found(self.get_user(peer_id)),
            RoomMessage::SubscribeToPeers { peer_id } => RoomAction::Deliver(self.connect_old_streams(peer_id)),
            RoomMessage::AddAudioTrack { peer_id, router } => RoomAction::Deliver(
                self.add_audio_track(peer_id, router),
            ),
            RoomMessage::AddVideoTrack { peer_id, quality, video_router_stream } => RoomAction::Deliver(
                self.add_video_track(peer_id, quality, video_router_stream),
            ),
            RoomMessage::Leave { peer_id } => RoomAction::Deliver(self.leave(peer_id)),
        }
    }
}

impl UserNotice {
    /// A copy of the notice.
    pub fn duplicate(&self) -> (r: UserNotice)
        ensures
            r == *self,
    {
        match self {
            UserNotice::ConnectAudio { speaker, stream } => UserNotice::ConnectAudio {
                speaker: *speaker,
                stream: stream.duplicate(),
            },
            UserNotice::ConnectVideo { speaker, quality, stream } => UserNotice::ConnectVideo {
                speaker: *speaker,
                quality: *quality,
                stream: stream.duplicate(),
            },
            UserNotice::Unsubscribe { user_id } => UserNotice::Unsubscribe { user_id: *user_id },
            UserNotice::RoomClosed => UserNotice::RoomClosed,
        }
    }
}

/// Taking one more element of a sequence adds that element to the set taken.
proof fn lemma_take_push_to_set(ids: Seq<u128>, i: int)
    requires
        0 <= i < ids.len(),
    ensures
        ids.take(i + 1) == ids.take(i).push(ids[i]),
        ids.take(i + 1).to_set() == ids.take(i).to_set().insert(ids[i]),
{
    assert(ids.take(i + 1) =~= ids.take(i).push(ids[i]));
    ids.take(i).lemma_push_to_set_commute(ids[i]);
}

/// In a listing without repetitions, the element at `i` is not among those
/// collected from before `i`.
proof fn lemma_not_listed_before(ids: Seq<u128>, i: int, told: Seq<u128>, except: u128)
    requires
        ids.no_duplicates(),
        0 <= i < ids.len(),
        told.no_duplicates(),
        told.to_set() == ids.take(i).to_set().remove(except),
    ensures
        !told.contains(ids[i]),
        told.push(ids[i]).no_duplicates(),
{
    if told.contains(ids[i]) {
        assert(told.to_set().contains(ids[i]));
        assert(ids.take(i).contains(ids[i]));
        let j = choose|j: int| 0 <= j < i && ids.take(i)[j] == ids[i];
        assert(ids[j] == ids[i]);
    }
    let pushed = told.push(ids[i]);
    assert forall|a: int, b: int| 0 <= a < b < pushed.len() implies pushed[a] != pushed[b] by {
        if b == told.len() {
            assert(told.contains(told[a]));
        } else {
            assert(told[a] != told[b]);
        }
    }
}

/// Offering what one more participant publishes appends its offers.
proof fn lemma_offers_from_push(members: Map<u128, PeerView>, ids: Seq<u128>, id: u128, to: u128)
    ensures
        offers_from(members, ids.push(id), to) == offers_from(members, ids, to) + offers_of(to, id, members[id]),
{
    let f = |k: u128| offers_of(to, k, members[k]);
    assert(ids.push(id).map_values(f) =~= ids.map_values(f).push(f(id)));
    ids.map_values(f).lemma_flatten_push(f(id));
}

/// A room notice reaches each participant it is for exactly once and no one
/// else: one delivery per participant, each with the notice, no participant
/// twice, and every participant among them.
pub proof fn law_delivered_once(s: Set<u128>, notice: UserNotice, out: Seq<Delivery>)
    requires
        s.finite(),
        delivered_once(s, notice, out),
    ensures
        out.len() == s.len(),
        forall|i: int| 0 <= i < out.len() ==> (#[trigger] out[i]).notice == notice && s.contains(out[i].to),
        forall|i: int, j: int| 0 <= i < j < out.len() ==> (#[trigger] out[i]).to != (#[trigger] out[j]).to,
        forall|x: u128| #[trigger] s.contains(x) ==> exists|i: int| 0 <= i < out.len() && out[i].to == x,
{
    let ids = choose|ids: Seq<u128>| lists_ids(s, ids) && out == notices_for(ids, notice);
    ids.unique_seq_to_set();
    assert forall|i: int| 0 <= i < out.len() implies (#[trigger] out[i]).notice == notice && s.contains(out[i].to) by {
        assert(out[i].to == ids[i]);
        assert(ids.to_set().contains(ids[i]));
    }
    assert forall|i: int, j: int| 0 <= i < j < out.len() implies (#[trigger] out[i]).to != (#[trigger] out[j]).to by {
        assert(out[i].to == ids[i] && out[j].to == ids[j]);
    }
    assert forall|x: u128| #[trigger] s.contains(x) implies exists|i: int| 0 <= i < out.len() && out[i].to == x by {
        assert(ids.to_set().contains(x));
        let i = choose|i: int| 0 <= i < ids.len() && ids[i] == x;
        assert(out[i].to == x);
    }
}

/// Every offer in what `members` publishes for `to`, from the participants
/// `ids`, is addressed to `to` and comes from one of `ids`.
proof fn lemma_offers_from(members: Map<u128, PeerView>, ids: Seq<u128>, to: u128)
    ensures
        forall|i: int|
            0 <= i < offers_from(members, ids, to).len() ==> {
                let d = #[trigger] offers_from(members, ids, to)[i];
                &&& d.to == to
                &&& match d.notice {
                    UserNotice::ConnectAudio { speaker, .. } => ids.contains(speaker),
                    UserNotice::ConnectVideo { speaker, .. } => ids.contains(speaker),
                    _ => false,
                }
            },
    decreases ids.len(),
{
    if ids.len() == 0 {
        assert(offers_from(members, ids, to) =~= Seq::<Delivery>::empty());
    } else {
        let init = ids.drop_last();
        let id = ids.last();
        lemma_offers_from(members, init, to);
        assert(init.push(id) == ids);
        lemma_offers_from_push(members, init, id, to);
        let o = offers_from(members, ids, to);
        let r = offers_from(members, init, to);
        let p = members[id];
        let audio = match p.audio {
            Some(a) => seq![Delivery { to, notice: UserNotice::ConnectAudio { speaker: id, stream: a } }],
            None => Seq::<Delivery>::empty(),
        };
        let v = video_offers(to, id, p.videos);
        lemma_video_offers(to, id, p.videos, 4);
        assert(o == r + (audio + v));
        assert forall|i: int| 0 <= i < o.len() implies {
            let d = #[trigger] o[i];
            &&& d.to == to
            &&& match d.notice {
                UserNotice::ConnectAudio { speaker, .. } => ids.contains(speaker),
                UserNotice::ConnectVideo { speaker, .. } => ids.contains(speaker),
                _ => false,
            }
        } by {
            assert(ids[ids.len() - 1] == id);
            if i < r.len() {
                assert(o[i] == r[i]);
                match r[i].notice {
                    UserNotice::ConnectAudio { speaker, .. } => {
                        let k = choose|k: int| 0 <= k < init.len() && init[k] == speaker;
                        assert(ids[k] == speaker);
                    },
                    UserNotice::ConnectVideo { speaker, .. } => {
                        let k = choose|k: int| 0 <= k < init.len() && init[k] == speaker;
                        assert(ids[k] == speaker);
                    },
                    _ => {},
                }
            } else if i < r.len() + audio.len() {
                assert(o[i] == audio[i - r.len()]);
            } else {
                assert(o[i] == v[i - r.len() - audio.len()]);
            }
        }
    }
}

/// Every offer of a speaker's video layers is addressed to `to` and names
/// that speaker.
proof fn lemma_video_offers(to: u128, speaker: u128, videos: Map<u8, VideoRouterStream>, n: nat)
    ensures
        forall|i: int|
            0 <= i < video_offers_upto(to, speaker, videos, n).len() ==> {
                let d = #[trigger] video_offers_upto(to, speaker, videos, n)[i];
                &&& d.to == to
                &&& d.notice matches UserNotice::ConnectVideo { speaker: s, .. } && s == speaker
            },
    decreases n,
{
    if n > 0 {
        lemma_video_offers(to, speaker, videos, (n - 1) as nat);
    }
}

/// A newcomer is offered only what the others publish: every offer is
/// addressed to the newcomer and comes from another participant of the room.
pub proof fn law_offers_come_from_others(members: Map<u128, PeerView>, to: u128, out: Seq<Delivery>)
    requires
        offered_once(members, to, out),
    ensures
        forall|i: int|
            0 <= i < out.len() ==> {
                let d = #[trigger] out[i];
                &&& d.to == to
                &&& match d.notice {
                    UserNotice::ConnectAudio { speaker, .. } => speaker != to && members.contains_key(speaker),
                    UserNotice::ConnectVideo { speaker, .. } => speaker != to && members.contains_key(speaker),
                    _ => false,
                }
            },
{
    let ids = choose|ids: Seq<u128>| lists_ids(members.dom().remove(to), ids) && out == offers_from(members, ids, to);
    lemma_offers_from(members, ids, to);
    assert forall|i: int| 0 <= i < out.len() implies {
        let d = #[trigger] out[i];
        &&& d.to == to
        &&& match d.notice {
            UserNotice::ConnectAudio { speaker, .. } => speaker != to && members.contains_key(speaker),
            UserNotice::ConnectVideo { speaker, .. } => speaker != to && members.contains_key(speaker),
            _ => false,
        }
    } by {
        let d = out[i];
        assert(d == offers_from(members, ids, to)[i]);
        match d.notice {
            UserNotice::ConnectAudio { speaker, .. } => {
                assert(ids.to_set().contains(speaker));
            },
            UserNotice::ConnectVideo { speaker, .. } => {
                assert(ids.to_set().contains(speaker));
            },
            _ => {},
        }
    }
}

/// A participant that joins a room and leaves it again leaves the room as it
/// was.
pub proof fn law_join_then_leave(members: Map<u128, PeerView>, peer_id: u128)
    requires
        !members.contains_key(peer_id),
    ensures
        members.insert(peer_id, PeerView { videos: Map::empty(), audio: None }).remove(peer_id) == members,
{
    assert(members.insert(peer_id, PeerView { videos: Map::empty(), audio: None }).remove(peer_id) =~= members);
}

} // verus!
