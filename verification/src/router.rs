use vstd::prelude::*;
use crate::packet::FirRequest;
use crate::quality::StreamQuality;
use std::collections::HashSet;
use crate::subscribers::{lists_members, take_members};

verus! {

broadcast use vstd::std_specs::hash::group_hash_axioms;

/// What a gateway router knows of the stream that it routes: its layer,
/// whether it has gone to sleep, and how to ask its source for a key frame.
pub trait RouterContext: Sized {
    /// The layer of the routed stream.
    spec fn quality_of(&self) -> StreamQuality;

    /// Whether the stream has stopped sending packets.
    spec fn sleeping(&self) -> bool;

    /// Whether a timeout of the stream puts it to sleep.
    spec fn sleeps_on_timeout(&self) -> bool;

    /// The key frame request that the context makes next, if it makes any.
    spec fn fir_request(&self) -> Option<FirRequest>;

    /// The context after it made its key frame request.
    spec fn after_fir(&self) -> Self;

    /// Asks the source for a key frame; answers the request to send, if any.
    fn send_fir(&mut self) -> (fir: Option<FirRequest>)
        ensures
            fir == old(self).fir_request(),
            *final(self) == old(self).after_fir(),
            final(self).quality_of() == old(self).quality_of(),
            final(self).sleeping() == old(self).sleeping(),
            final(self).sleeps_on_timeout() == old(self).sleeps_on_timeout(),
    ;

    /// Wakes the stream up; answers whether it was asleep, in which case the
    /// subscribers waiting for it are to be notified.
    fn try_awake(&mut self) -> (woke: bool)
        ensures
            woke == old(self).sleeping(),
            !final(self).sleeping(),
            final(self).quality_of() == old(self).quality_of(),
            final(self).sleeps_on_timeout() == old(self).sleeps_on_timeout(),
    ;

    /// Marks the stream as stopped.
    fn set_sleeping(&mut self)
        ensures
            final(self).sleeping() == (old(self).sleeping() || old(self).sleeps_on_timeout()),
            final(self).quality_of() == old(self).quality_of(),
            final(self).sleeps_on_timeout() == old(self).sleeps_on_timeout(),
    ;

    /// The layer of the routed stream.
    fn stream_quality(&self) -> (q: StreamQuality)
        ensures
            q == self.quality_of(),
    ;
}

/// The routing context of one simulcast video layer.
pub struct VideoRouterContext {
    pub stream_quality: StreamQuality,
    pub ssrc: u32,
    pub fir_sequence: u8,
    pub is_sleeping: bool,
}

impl VideoRouterContext {
    /// A context for the layer `stream_quality` of the source `ssrc`, awake,
    /// whose first full intra request carries sequence number 0.
    pub fn new(stream_quality: StreamQuality, ssrc: u32) -> (c: VideoRouterContext)
        ensures
            c == (VideoRouterContext { stream_quality, ssrc, fir_sequence: 0, is_sleeping: false }),
    {
        VideoRouterContext { stream_quality, ssrc, fir_sequence: 0, is_sleeping: false }
    }
}

impl RouterContext for VideoRouterContext {
    open spec fn quality_of(&self) -> StreamQuality {
        self.stream_quality
    }

    open spec fn sleeping(&self) -> bool {
        self.is_sleeping
    }

    open spec fn sleeps_on_timeout(&self) -> bool {
        true
    }

    /// A full intra request for the layer's source, with the context's next
    /// sequence number.
    open spec fn fir_request(&self) -> Option<FirRequest> {
        Some(FirRequest { ssrc: self.ssrc, sequence_number: self.fir_sequence })
    }

    /// Each request takes the next sequence number, modulo 256.
    open spec fn after_fir(&self) -> Self {
        VideoRouterContext { fir_sequence: self.fir_sequence.wrapping_add(1), ..*self }
    }

    /// A full intra request for the layer's source, numbered by the context;
    /// each request takes the next number, modulo 256.
    fn send_fir(&mut self) -> (fir: Option<FirRequest>)
        ensures
            fir == Some(FirRequest { ssrc: old(self).ssrc, sequence_number: old(self).fir_sequence }),
            final(self).fir_sequence == old(self).fir_sequence.wrapping_add(1),
            final(self).ssrc == old(self).ssrc,
            final(self).stream_quality == old(self).stream_quality,
            final(self).is_sleeping == old(self).is_sleeping,
    {
        let fir = FirRequest { ssrc: self.ssrc, sequence_number: self.fir_sequence };
        self.fir_sequence = self.fir_sequence.wrapping_add(1);
        Some(fir)
    }

    fn try_awake(&mut self) -> (woke: bool)
        ensures
            final(self).fir_sequence == old(self).fir_sequence,
            final(self).ssrc == old(self).ssrc,
    {
        if self.is_sleeping {
            self.is_sleeping = false;
            true
        } else {
            false
        }
    }

    fn set_sleeping(&mut self)
        ensures
            final(self).fir_sequence == old(self).fir_sequence,
            final(self).ssrc == old(self).ssrc,
    {
        self.is_sleeping = true;
    }

    fn stream_quality(&self) -> (q: StreamQuality) {
        self.stream_quality
    }
}

/// The routing context of an audio stream: it never sleeps and has no key
/// frames to ask for.
#[derive(Clone, Copy)]
pub struct AudioRouterContext {}

impl RouterContext for AudioRouterContext {
    open spec fn quality_of(&self) -> StreamQuality {
        StreamQuality::Audio
    }

    open spec fn sleeping(&self) -> bool {
        false
    }

    open spec fn sleeps_on_timeout(&self) -> bool {
        false
    }

    /// An audio stream has no key frames to ask for.
    open spec fn fir_request(&self) -> Option<FirRequest> {
        None
    }

    open spec fn after_fir(&self) -> Self {
        *self
    }

    fn send_fir(&mut self) -> (fir: Option<FirRequest>)
        ensures
            fir is None,
    {
        None
    }

    fn try_awake(&mut self) -> (woke: bool) {
        false
    }

    fn set_sleeping(&mut self) {
    }

    fn stream_quality(&self) -> (q: StreamQuality) {
        StreamQuality::Audio
    }
}

/// What a gateway router is told.
pub enum GatewayRouterMessage {
    /// A packet of the routed stream arrived.
    RtpPacket,
    /// No packet arrived for a while.
    Timeout,
    Subscribe(u64),
    Unsubscribe(u64),
}

/// What a gateway router does in answer to a message.
#[derive(Debug, PartialEq, Eq)]
pub enum GatewayRouterAction {
    /// Deliver the packet, tagged with `quality`, to every subscriber; when
    /// `woke`, notify those waiting that the stream is back.
    DeliverPacket { quality: StreamQuality, woke: bool },
    /// Tell `recipients` that the stream timed out; they are no longer
    /// subscribed.
    DeliverTimeout { recipients: Vec<u64> },
    /// A subscriber was added (`is_new`) or was already there; send `fir` to
    /// the source, if any.
    Subscribed { is_new: bool, fir: Option<FirRequest> },
    /// A subscriber was removed, or was not there.
    Unsubscribed { was_member: bool },
}

/// Routes the packets of one published stream to the forwarders that
/// subscribe to it.
pub struct RtpPacketGatewayRouter<C: RouterContext> {
    pub subscriptions: HashSet<u64>,
    pub context: C,
}

impl<C: RouterContext> RtpPacketGatewayRouter<C> {
    /// A router with no subscribers.
    pub fn new(context: C) -> (r: Self)
        ensures
            r.subscriptions@ == Set::<u64>::empty(),
            r.context == context,
    {
        RtpPacketGatewayRouter { subscriptions: HashSet::new(), context }
    }

    /// A packet arrived: it goes to every subscriber, and the stream is awake.
    pub fn on_rtp_packet(&mut self) -> (r: (StreamQuality, bool))
        ensures
            final(self).subscriptions == old(self).subscriptions,
            r.0 == old(self).context.quality_of(),
            r.1 == old(self).context.sleeping(),
            !final(self).context.sleeping(),
            final(self).context.quality_of() == old(self).context.quality_of(),
            final(self).context.sleeps_on_timeout() == old(self).context.sleeps_on_timeout(),
    {
        let quality = self.context.stream_quality();
        let woke = self.context.try_awake();
        (quality, woke)
    }

    /// The stream timed out: every subscriber is told and dropped, and the
    /// stream goes to sleep.
    pub fn on_timeout(&mut self) -> (recipients: Vec<u64>)
        ensures
            lists_members(old(self).subscriptions@, recipients@),
            final(self).subscriptions@ == Set::<u64>::empty(),
            final(self).context.sleeping() == (old(self).context.sleeping()
                || old(self).context.sleeps_on_timeout()),
            final(self).context.quality_of() == old(self).context.quality_of(),
            final(self).context.sleeps_on_timeout() == old(self).context.sleeps_on_timeout(),
    {
        self.context.set_sleeping();
        take_members(&mut self.subscriptions)
    }

    /// Adds a subscriber and asks the source for a key frame, so that the
    /// new subscriber can start decoding.
    pub fn subscribe(&mut self, id: u64) -> (r: (bool, Option<FirRequest>))
        ensures
            r.0 == !old(self).subscriptions@.contains(id),
            final(self).subscriptions@ == old(self).subscriptions@.insert(id),
            r.1 == old(self).context.fir_request(),
            final(self).context == old(self).context.after_fir(),
            final(self).context.sleeping() == old(self).context.sleeping(),
            final(self).context.quality_of() == old(self).context.quality_of(),
            final(self).context.sleeps_on_timeout() == old(self).context.sleeps_on_timeout(),
    {
        let is_new = self.subscriptions.insert(id);
        let fir = self.context.send_fir();
        (is_new, fir)
    }

    /// Removes a subscriber.
    pub fn unsubscribe(&mut self, id: u64) -> (was_member: bool)
        ensures
            was_member == old(self).subscriptions@.contains(id),
            final(self).subscriptions@ == old(self).subscriptions@.remove(id),
            final(self).context == old(self).context,
    {
        self.subscriptions.remove(&id)
    }

    /// Handles one message.
    pub fn handle(&mut self, msg: GatewayRouterMessage) -> (action: GatewayRouterAction)
        ensures
            match msg {
                GatewayRouterMessage::RtpPacket => action == (GatewayRouterAction::DeliverPacket {
                    quality: old(self).context.quality_of(),
                    woke: old(self).context.sleeping(),
                }) && final(self).subscriptions == old(self).subscriptions
                    && !final(self).context.sleeping(),
                GatewayRouterMessage::Timeout => (action matches GatewayRouterAction::DeliverTimeout { recipients }
                    && lists_members(old(self).subscriptions@, recipients@))
                    && final(self).subscriptions@ == Set::<u64>::empty()
                    && final(self).context.sleeping() == (old(self).context.sleeping()
                    || old(self).context.sleeps_on_timeout())
                    && final(self).context.quality_of() == old(self).context.quality_of(),
                GatewayRouterMessage::Subscribe(id) => (action matches GatewayRouterAction::Subscribed { is_new, fir }
                    && is_new == !old(self).subscriptions@.contains(id) && fir == old(self).context.fir_request())
                    && final(self).context == old(self).context.after_fir()
                    && final(self).subscriptions@ == old(self).subscriptions@.insert(id),
                GatewayRouterMessage::Unsubscribe(id) => action == (GatewayRouterAction::Unsubscribed {
                    was_member: old(self).subscriptions@.contains(id),
                }) && final(self).subscriptions@ == old(self).subscriptions@.remove(id)
                    && final(self).context == old(self).context,
            },
    {
        match msg {
            GatewayRouterMessage::RtpPacket => {
                let (quality, woke) = self.on_rtp_packet();
                GatewayRouterAction::DeliverPacket { quality, woke }
            },
            GatewayRouterMessage::Timeout => {
                let recipients = self.on_timeout();
                GatewayRouterAction::DeliverTimeout { recipients }
            },
            GatewayRouterMessage::Subscribe(id) => {
                let (is_new, fir) = self.subscribe(id);
                GatewayRouterAction::Subscribed { is_new, fir }
            },
            GatewayRouterMessage::Unsubscribe(id) => {
                let was_member = self.unsubscribe(id);
                GatewayRouterAction::Unsubscribed { was_member }
            },
        }
    }
}

/// What a packet forwarder of a published track is told.
pub enum RtpPacketForwarderMessage {
    RtpPacket,
    Subscribe(u64),
    Unsubscribe(u64),
    ForcePli,
}

/// What a packet forwarder does in answer to a message.
#[derive(Debug, PartialEq, Eq)]
pub enum RtpPacketForwarderAction {
    /// Deliver the packet, tagged with `quality`, to every subscriber.
    DeliverPacket { quality: StreamQuality },
    /// Ask the picture loss sender `pli_sender`, if any, for a key frame.
    Ping { pli_sender: Option<u64> },
    Unsubscribed { was_member: bool },
}

/// Forwards the packets of one published track to its subscribers; a video
/// track also has a picture loss sender that asks the publisher for key frames.
pub struct RtpPacketForwarder {
    pub subscriptions: HashSet<u64>,
    pub stream_quality: StreamQuality,
    pub pli_sender: Option<u64>,
}

impl RtpPacketForwarder {
    /// A forwarder with no subscribers.
    pub fn new(stream_quality: StreamQuality, pli_sender: Option<u64>) -> (r: Self)
        ensures
            r.subscriptions@ == Set::<u64>::empty(),
            r.stream_quality == stream_quality,
            r.pli_sender == pli_sender,
    {
        RtpPacketForwarder { subscriptions: HashSet::new(), stream_quality, pli_sender }
    }

    /// Handles one message. A new subscriber, like an explicit request,
    /// makes the forwarder ask for a key frame.
    pub fn handle(&mut self, msg: RtpPacketForwarderMessage) -> (action: RtpPacketForwarderAction)
        ensures
            final(self).stream_quality == old(self).stream_quality,
            final(self).pli_sender == old(self).pli_sender,
            match msg {
                RtpPacketForwarderMessage::RtpPacket => action == (RtpPacketForwarderAction::DeliverPacket {
                    quality: old(self).stream_quality,
                }) && final(self).subscriptions == old(self).subscriptions,
                RtpPacketForwarderMessage::ForcePli => action == (RtpPacketForwarderAction::Ping {
                    pli_sender: old(self).pli_sender,
                }) && final(self).subscriptions == old(self).subscriptions,
                RtpPacketForwarderMessage::Subscribe(id) => action == (RtpPacketForwarderAction::Ping {
                    pli_sender: old(self).pli_sender,
                }) && final(self).subscriptions@ == old(self).subscriptions@.insert(id),
                RtpPacketForwarderMessage::Unsubscribe(id) => action == (RtpPacketForwarderAction::Unsubscribed {
                    was_member: old(self).subscriptions@.contains(id),
                }) && final(self).subscriptions@ == old(self).subscriptions@.remove(id),
            },
    {
        match msg {
            RtpPacketForwarderMessage::ForcePli => RtpPacketForwarderAction::Ping { pli_sender: self.pli_sender },
            RtpPacketForwarderMessage::Subscribe(id) => {
                let _ = self.subscriptions.insert(id);
                RtpPacketForwarderAction::Ping { pli_sender: self.pli_sender }
            },
            RtpPacketForwarderMessage::RtpPacket => {
                RtpPacketForwarderAction::DeliverPacket { quality: self.stream_quality }
            },
            RtpPacketForwarderMessage::Unsubscribe(id) => {
                let was_member = self.subscriptions.remove(&id);
                RtpPacketForwarderAction::Unsubscribed { was_member }
            },
        }
    }
}

/// Subscribing a forwarder and then unsubscribing it leaves a router with
/// the subscribers it had, provided the forwarder was not subscribed before;
/// unsubscribing one that was never subscribed changes nothing.
pub proof fn law_subscribe_then_unsubscribe(before: Set<u64>, id: u64)
    requires
        !before.contains(id),
    ensures
        before.insert(id).remove(id) == before,
        before.remove(id) == before,
{
    assert(before.insert(id).remove(id) =~= before);
    assert(before.remove(id) =~= before);
}

} // verus!
