use vstd::prelude::*;
use std::collections::HashMap;
use crate::quality::StreamQuality;

verus! {

broadcast use vstd::std_specs::hash::group_hash_axioms;

/// One published layer as a subscriber sees it: the handles of its gateway
/// router, of the key frame interceptor of its source, and of the notifier
/// that tells when the layer wakes up.
#[derive(Debug, PartialEq, Eq, Clone, Copy, Structural)]
pub struct QualityLayer {
    pub gateway_router: u64,
    pub keyframe_interceptor: u64,
    pub router_waker: u64,
}

/// A command for the video packet forwarder of a subscription.
#[derive(Debug, PartialEq, Eq, Clone, Copy, Structural)]
pub enum ForwarderCommand {
    Start { quality: StreamQuality, gateway_router: u64 },
    LayerSwitched { quality: StreamQuality, gateway_router: u64 },
    Reset,
}

/// What a video layer manager is told.
pub enum VideoLayerManagerMessage {
    AddLayer { quality: StreamQuality, layer: QualityLayer },
    ForcePli,
    SwitchQualityLayer { to: StreamQuality },
    FallbackToLowQuality,
    LayerAwake { quality: StreamQuality },
    ResumeStreaming,
    Drop,
}

/// What a video layer manager does: each part is optional.
#[derive(Debug, Clone, Copy)]
pub struct LayerManagerAction {
    /// Watch the waker `.1` of layer `.0` and report when it wakes.
    pub watch: Option<(StreamQuality, u64)>,
    /// Send this command to the forwarder.
    pub forwarder: Option<ForwarderCommand>,
    /// Ask this key frame interceptor for a picture loss indication.
    pub pli: Option<u64>,
    /// Stop the manager.
    pub stop: bool,
}

/// The key of a layer in a map of layers: its rank.
pub open spec fn slot(q: StreamQuality) -> u8 {
    q.rank() as u8
}

/// The key of layer `q` in a map of layers.
pub fn slot_of(q: StreamQuality) -> (k: u8)
    ensures
        k == slot(q),
{
    q.as_u8()
}

/// The layer held under the key of `q` in `layers`, if any.
pub open spec fn layer_in<T>(layers: Map<u8, T>, q: StreamQuality) -> Option<T> {
    if layers.contains_key(slot(q)) {
        Some(layers[slot(q)])
    } else {
        None
    }
}

/// Whether every key of `layers` is the key of some layer.
pub open spec fn keys_are_slots<T>(layers: Map<u8, T>) -> bool {
    forall|k: u8| #[trigger] layers.contains_key(k) ==> k < 4
}

/// The map of layers after `value` is stored under the key of `q`: `q` now
/// holds `value` and every other layer holds what it held.
pub proof fn lemma_layer_in_insert<T>(layers: Map<u8, T>, q: StreamQuality, value: T)
    ensures
        forall|p: StreamQuality|
            #[trigger] layer_in(layers.insert(slot(q), value), p) == (if p == q {
                Some(value)
            } else {
                layer_in(layers, p)
            }),
{
    assert forall|p: StreamQuality| #[trigger] layer_in(layers.insert(slot(q), value), p) == (if p == q {
        Some(value)
    } else {
        layer_in(layers, p)
    }) by {
        assert(p != q ==> slot(p) != slot(q));
    }
}

/// The action that does nothing.
pub open spec fn no_action() -> LayerManagerAction {
    LayerManagerAction { watch: None, forwarder: None, pli: None, stop: false }
}

/// Chooses which published layer of one speaker a subscriber receives. The
/// subscriber's connection quality says which layer it should get; the
/// active quality is the layer it gets now.
pub struct VideoLayerManager {
    pub layers: HashMap<u8, QualityLayer>,
    pub connection_quality: StreamQuality,
    pub active_quality: Option<StreamQuality>,
}

impl VideoLayerManager {
    /// Only layers' keys are keys of the map of layers.
    pub open spec fn wf(&self) -> bool {
        keys_are_slots(self.layers@)
    }

    /// The layer of quality `q`, if it is published.
    pub open spec fn layer(&self, q: StreamQuality) -> Option<QualityLayer> {
        layer_in(self.layers@, q)
    }

    /// A manager that knows one layer and has not started forwarding.
    pub fn new(connection_quality: StreamQuality, quality: StreamQuality, layer: QualityLayer) -> (m: Self)
        ensures
            m.wf(),
            m.connection_quality == connection_quality,
            m.active_quality is None,
            forall|q: StreamQuality| m.layer(q) == (if q == quality { Some(layer) } else { None }),
    {
        let mut layers: HashMap<u8, QualityLayer> = HashMap::new();
        layers.insert(slot_of(quality), layer);
        proof {
            lemma_layer_in_insert(Map::<u8, QualityLayer>::empty(), quality, layer);
            assert(layers@ == Map::<u8, QualityLayer>::empty().insert(slot(quality), layer));
        }
        VideoLayerManager { layers, connection_quality, active_quality: None }
    }

    /// The layer of quality `q`, if it is published.
    pub fn get(&self, q: StreamQuality) -> (r: Option<QualityLayer>)
        requires
            self.wf(),
        ensures
            r == self.layer(q),
    {
        match self.layers.get(&slot_of(q)) {
            Some(l) => Some(*l),
            None => None,
        }
    }

    /// Starts forwarding the first known layer, in the order Audio, Low,
    /// Mid, High; a manager made by `new` knows exactly one.
    pub fn starting(&mut self) -> (action: LayerManagerAction)
        requires
            old(self).wf(),
        ensures
            final(self).wf(),
            final(self).layers == old(self).layers,
            final(self).connection_quality == old(self).connection_quality,
            (forall|q: StreamQuality| old(self).layer(q) is None) ==> action == no_action()
                && final(self).active_quality == old(self).active_quality,
            forall|q: StreamQuality|
                old(self).layer(q) is Some && (forall|p: StreamQuality| #[trigger] p.rank() < q.rank()
                    ==> old(self).layer(p) is None) ==> {
                    &&& final(self).active_quality == Some(q)
                    &&& action == LayerManagerAction {
                        watch: Some((q, old(self).layer(q).unwrap().router_waker)),
                        forwarder: Some(ForwarderCommand::Start {
                            quality: q,
                            gateway_router: old(self).layer(q).unwrap().gateway_router,
                        }),
                        pli: None,
                        stop: false,
                    }
                },
    {
        let order = [StreamQuality::Audio, StreamQuality::Low, StreamQuality::Mid, StreamQuality::High];
        let mut k: usize = 0;
        while k < 4
            invariant
                self.wf(),
                *self == *old(self),
                order@ == seq![StreamQuality::Audio, StreamQuality::Low, StreamQuality::Mid, StreamQuality::High],
                k <= 4,
                forall|p: StreamQuality| p.rank() < k ==> self.layer(p) is None,
            decreases 4 - k,
        {
            let q = order[k];
            if let Some(l) = self.get(q) {
                self.active_quality = Some(q);
                return LayerManagerAction {
                    watch: Some((q, l.router_waker)),
                    forwarder: Some(ForwarderCommand::Start { quality: q, gateway_router: l.gateway_router }),
                    pli: None,
                    stop: false,
                };
            }
            k += 1;
        }
        LayerManagerAction { watch: None, forwarder: None, pli: None, stop: false }
    }

    /// Handles one message.
    pub fn handle(&mut self, msg: VideoLayerManagerMessage) -> (action: LayerManagerAction)
        requires
            old(self).wf(),
        ensures
            final(self).wf(),
            match msg {
                VideoLayerManagerMessage::ForcePli => {
                    &&& *final(self) == *old(self)
                    &&& action == LayerManagerAction {
                        pli: match old(self).layer(
                            match old(self).active_quality {
                                Some(q) => q,
                                None => old(self).connection_quality,
                            },
                        ) {
                            Some(l) => Some(l.keyframe_interceptor),
                            None => None,
                        },
                        ..no_action()
                    }
                },
                VideoLayerManagerMessage::AddLayer { quality, layer } => {
                    &&& forall|q: StreamQuality| final(self).layer(q) == (if q == quality {
                        Some(layer)
                    } else {
                        old(self).layer(q)
                    })
                    &&& final(self).connection_quality == old(self).connection_quality
                    &&& action.watch == Some((quality, layer.router_waker))
                    &&& action.pli is None && !action.stop
                    &&& if quality == old(self).connection_quality {
                        &&& final(self).active_quality == Some(quality)
                        &&& action.forwarder == Some(
                            ForwarderCommand::LayerSwitched { quality, gateway_router: layer.gateway_router },
                        )
                    } else {
                        &&& final(self).active_quality == old(self).active_quality
                        &&& action.forwarder is None
                    }
                },
                VideoLayerManagerMessage::ResumeStreaming => *final(self) == *old(self) && action
                    == LayerManagerAction { forwarder: Some(ForwarderCommand::Reset), ..no_action() },
                VideoLayerManagerMessage::SwitchQualityLayer { to } => {
                    &&& final(self).layers == old(self).layers
                    &&& if old(self).active_quality == Some(to) {
                        final(self).connection_quality == to && final(self).active_quality == Some(to)
                            && action == no_action()
                    } else if old(self).layer(to) is None {
                        *final(self) == *old(self) && action == no_action()
                    } else {
                        &&& final(self).connection_quality == to
                        &&& final(self).active_quality == Some(to)
                        &&& action == LayerManagerAction {
                            forwarder: Some(ForwarderCommand::LayerSwitched {
                                quality: to,
                                gateway_router: old(self).layer(to).unwrap().gateway_router,
                            }),
                            ..no_action()
                        }
                    }
                },
                VideoLayerManagerMessage::FallbackToLowQuality => {
                    &&& final(self).layers == old(self).layers
                    &&& final(self).connection_quality == old(self).connection_quality
                    &&& if old(self).active_quality != Some(StreamQuality::Low) && old(self).layer(
                        StreamQuality::Low,
                    ) is Some {
                        &&& final(self).active_quality == Some(StreamQuality::Low)
                        &&& action == LayerManagerAction {
                            forwarder: Some(ForwarderCommand::LayerSwitched {
                                quality: StreamQuality::Low,
                                gateway_router: old(self).layer(StreamQuality::Low).unwrap().gateway_router,
                            }),
                            ..no_action()
                        }
                    } else {
                        *final(self) == *old(self) && action == no_action()
                    }
                },
                VideoLayerManagerMessage::LayerAwake { quality } => {
                    &&& final(self).layers == old(self).layers
                    &&& final(self).connection_quality == old(self).connection_quality
                    &&& if old(self).connection_quality == quality && old(self).active_quality != Some(quality)
                        && old(self).layer(quality) is Some {
                        &&& final(self).active_quality == Some(quality)
                        &&& action == LayerManagerAction {
                            forwarder: Some(ForwarderCommand::LayerSwitched {
                                quality,
                                gateway_router: old(self).layer(quality).unwrap().gateway_router,
                            }),
                            ..no_action()
                        }
                    } else {
                        *final(self) == *old(self) && action == no_action()
                    }
                },
                VideoLayerManagerMessage::Drop => *final(self) == *old(self) && action == LayerManagerAction {
                    stop: true,
                    ..no_action()
                },
            },
    {
        let nothing = LayerManagerAction { watch: None, forwarder: None, pli: None, stop: false };
        match msg {
            VideoLayerManagerMessage::ForcePli => {
                let q = match self.active_quality {
                    Some(q) => q,
                    None => self.connection_quality,
                };
                match self.get(q) {
                    Some(layer) => LayerManagerAction { pli: Some(layer.keyframe_interceptor), ..nothing },
                    None => nothing,
                }
            },
            VideoLayerManagerMessage::AddLayer { quality, layer } => {
                proof {
                    lemma_layer_in_insert(self.layers@, quality, layer);
                }
                self.layers.insert(slot_of(quality), layer);
                let watch = Some((quality, layer.router_waker));
                if quality == self.connection_quality {
                    self.active_quality = Some(quality);
                    LayerManagerAction {
                        watch,
                        forwarder: Some(
                            ForwarderCommand::LayerSwitched { quality, gateway_router: layer.gateway_router },
                        ),
                        ..nothing
                    }
                } else {
                    LayerManagerAction { watch, ..nothing }
                }
            },
            VideoLayerManagerMessage::ResumeStreaming => LayerManagerAction {
                forwarder: Some(ForwarderCommand::Reset),
                ..nothing
            },
            VideoLayerManagerMessage::SwitchQualityLayer { to } => {
                if Some(to) == self.active_quality {
                    self.connection_quality = to;
                    return nothing;
                }
                let layer = match self.get(to) {
                    Some(layer) => layer,
                    None => {
                        return nothing;
                    },
                };
                self.active_quality = Some(to);
                self.connection_quality = to;
                LayerManagerAction {
                    forwarder: Some(ForwarderCommand::LayerSwitched { quality: to, gateway_router: layer.gateway_router }),
                    ..nothing
                }
            },
            VideoLayerManagerMessage::FallbackToLowQuality => {
                if self.active_quality != Some(StreamQuality::Low) {
                    if let Some(layer) = self.get(StreamQuality::Low) {
                        self.active_quality = Some(StreamQuality::Low);
                        return LayerManagerAction {
                            forwarder: Some(ForwarderCommand::LayerSwitched {
                                quality: StreamQuality::Low,
                                gateway_router: layer.gateway_router,
                            }),
                            ..nothing
                        };
                    }
                }
                nothing
            },
            VideoLayerManagerMessage::LayerAwake { quality } => {
                if self.connection_quality == quality && self.active_quality != Some(quality) {
                    if let Some(layer) = self.get(quality) {
                        self.active_quality = Some(quality);
                        return LayerManagerAction {
                            forwarder: Some(
                                ForwarderCommand::LayerSwitched { quality, gateway_router: layer.gateway_router },
                            ),
                            ..nothing
                        };
                    }
                }
                nothing
            },
            VideoLayerManagerMessage::Drop => LayerManagerAction { stop: true, ..nothing },
        }
    }
}

/// What a waiting video subscription is told.
pub enum VideoSubscriptionMessage {
    AddSubsription { quality: StreamQuality, layer: QualityLayer },
    SwitchQualityLayer { to: StreamQuality },
    StartLowQuality,
    Drop,
    ForcePli,
}

/// What a waiting video subscription does.
#[derive(Debug, PartialEq, Eq, Clone, Copy, Structural)]
pub enum VideoSubscriptionAction {
    Forward(ForwarderCommand),
    Pli(u64),
    /// Send `StartLowQuality` to itself after a short delay.
    ScheduleStartLowQuality,
    Stop,
    Nothing,
}

/// A video subscription that waits for the high layer when it started on a
/// lower one, and falls back to the layer it knows after a delay.
pub struct VideoSubscription {
    pub layers: HashMap<u8, QualityLayer>,
    pub active_quality: StreamQuality,
    pub waiting_high_quality: bool,
}

impl VideoSubscription {
    /// Only layers' keys are keys of the map of layers.
    pub open spec fn wf(&self) -> bool {
        keys_are_slots(self.layers@)
    }

    pub open spec fn layer(&self, q: StreamQuality) -> Option<QualityLayer> {
        layer_in(self.layers@, q)
    }

    /// A subscription to layer `quality`; it waits for the high layer unless
    /// it starts on it.
    pub fn new(quality: StreamQuality, layer: QualityLayer) -> (s: Self)
        ensures
            s.wf(),
            s.active_quality == quality,
            s.waiting_high_quality == (quality != StreamQuality::High),
            forall|q: StreamQuality| s.layer(q) == (if q == quality { Some(layer) } else { None }),
    {
        let mut layers: HashMap<u8, QualityLayer> = HashMap::new();
        layers.insert(slot_of(quality), layer);
        proof {
            lemma_layer_in_insert(Map::<u8, QualityLayer>::empty(), quality, layer);
            assert(layers@ == Map::<u8, QualityLayer>::empty().insert(slot(quality), layer));
        }
        VideoSubscription { layers, active_quality: quality, waiting_high_quality: quality != StreamQuality::High }
    }

    fn get(&self, q: StreamQuality) -> (r: Option<QualityLayer>)
        requires
            self.wf(),
        ensures
            r == self.layer(q),
    {
        match self.layers.get(&slot_of(q)) {
            Some(l) => Some(*l),
            None => None,
        }
    }

    /// Starts the high layer at once, or schedules the fall back to the
    /// layer it knows.
    pub fn starting(&self) -> (action: VideoSubscriptionAction)
        requires
            self.wf(),
        ensures
            action == (if self.active_quality == StreamQuality::High {
                match self.layer(StreamQuality::High) {
                    Some(l) => VideoSubscriptionAction::Forward(
                        ForwarderCommand::Start { quality: StreamQuality::High, gateway_router: l.gateway_router },
                    ),
                    None => VideoSubscriptionAction::Nothing,
                }
            } else {
                VideoSubscriptionAction::ScheduleStartLowQuality
            }),
    {
        match self.active_quality {
            StreamQuality::High => match self.get(StreamQuality::High) {
                Some(l) => VideoSubscriptionAction::Forward(
                    ForwarderCommand::Start { quality: StreamQuality::High, gateway_router: l.gateway_router },
                ),
                None => VideoSubscriptionAction::Nothing,
            },
            _ => VideoSubscriptionAction::ScheduleStartLowQuality,
        }
    }

    /// Handles one message. `StartLowQuality` starts the first known layer in
    /// the order Audio, Low, Mid, High.
    pub fn handle(&mut self, msg: VideoSubscriptionMessage) -> (action: VideoSubscriptionAction)
        requires
            old(self).wf(),
        ensures
            final(self).wf(),
            match msg {
                VideoSubscriptionMessage::AddSubsription { quality, layer } => {
                    &&& forall|q: StreamQuality| final(self).layer(q) == (if q == quality {
                        Some(layer)
                    } else {
                        old(self).layer(q)
                    })
                    &&& if old(self).waiting_high_quality && quality == StreamQuality::High {
                        &&& !final(self).waiting_high_quality
                        &&& final(self).active_quality == StreamQuality::High
                        &&& action == VideoSubscriptionAction::Forward(
                            ForwarderCommand::Start { quality, gateway_router: layer.gateway_router },
                        )
                    } else {
                        &&& final(self).waiting_high_quality == old(self).waiting_high_quality
                        &&& final(self).active_quality == old(self).active_quality
                        &&& action == VideoSubscriptionAction::Nothing
                    }
                },
                VideoSubscriptionMessage::ForcePli => *final(self) == *old(self) && action == match old(self).layer(
                    old(self).active_quality,
                ) {
                    Some(l) => VideoSubscriptionAction::Pli(l.keyframe_interceptor),
                    None => VideoSubscriptionAction::Nothing,
                },
                VideoSubscriptionMessage::SwitchQualityLayer { to } => final(self).layers == old(self).layers
                    && final(self).waiting_high_quality == old(self).waiting_high_quality && match old(self).layer(to) {
                    Some(l) => final(self).active_quality == to && action == VideoSubscriptionAction::Forward(
                        ForwarderCommand::LayerSwitched { quality: to, gateway_router: l.gateway_router },
                    ),
                    None => *final(self) == *old(self) && action == VideoSubscriptionAction::Nothing,
                },
                VideoSubscriptionMessage::StartLowQuality => {
                    &&& final(self).layers == old(self).layers
                    &&& final(self).active_quality == old(self).active_quality
                    &&& (forall|q: StreamQuality| old(self).layer(q) is None) ==> *final(self) == *old(self)
                        && action == VideoSubscriptionAction::Nothing
                    &&& forall|q: StreamQuality|
                        old(self).layer(q) is Some && (forall|p: StreamQuality| #[trigger] p.rank() < q.rank()
                            ==> old(self).layer(p) is None) ==> {
                            &&& !final(self).waiting_high_quality
                            &&& action == VideoSubscriptionAction::Forward(
                                ForwarderCommand::Start {
                                    quality: q,
                                    gateway_router: old(self).layer(q).unwrap().gateway_router,
                                },
                            )
                        }
                },
                VideoSubscriptionMessage::Drop => *final(self) == *old(self) && action
                    == VideoSubscriptionAction::Stop,
            },
    {
        match msg {
            VideoSubscriptionMessage::StartLowQuality => {
                let order = [StreamQuality::Audio, StreamQuality::Low, StreamQuality::Mid, StreamQuality::High];
                let mut k: usize = 0;
                while k < 4
                    invariant
                        self.wf(),
                        *self == *old(self),
                        order@ == seq![StreamQuality::Audio, StreamQuality::Low, StreamQuality::Mid, StreamQuality::High],
                        k <= 4,
                        msg is StartLowQuality,
                        forall|p: StreamQuality| p.rank() < k ==> self.layer(p) is None,
                    decreases 4 - k,
                {
                    let q = order[k];
                    if let Some(l) = self.get(q) {
                        self.waiting_high_quality = false;
                        return VideoSubscriptionAction::Forward(
                            ForwarderCommand::Start { quality: q, gateway_router: l.gateway_router },
                        );
                    }
                    k += 1;
                }
                VideoSubscriptionAction::Nothing
            },
            VideoSubscriptionMessage::AddSubsription { quality, layer } => {
                proof {
                    lemma_layer_in_insert(self.layers@, quality, layer);
                }
                self.layers.insert(slot_of(quality), layer);
                assert forall|q: StreamQuality| self.layer(q) == (if q == quality {
                    Some(layer)
                } else {
                    old(self).layer(q)
                }) by {
                    if q != quality {
                        assert(slot(q) != slot(quality));
                    }
                }
                if self.waiting_high_quality && quality == StreamQuality::High {
                    self.waiting_high_quality = false;
                    self.active_quality = quality;
                    VideoSubscriptionAction::Forward(
                        ForwarderCommand::Start { quality, gateway_router: layer.gateway_router },
                    )
                } else {
                    VideoSubscriptionAction::Nothing
                }
            },
            VideoSubscriptionMessage::ForcePli => match self.get(self.active_quality) {
                Some(l) => VideoSubscriptionAction::Pli(l.keyframe_interceptor),
                None => VideoSubscriptionAction::Nothing,
            },
            VideoSubscriptionMessage::SwitchQualityLayer { to } => match self.get(to) {
                Some(l) => {
                    self.active_quality = to;
                    VideoSubscriptionAction::Forward(
                        ForwarderCommand::LayerSwitched { quality: to, gateway_router: l.gateway_router },
                    )
                },
                None => VideoSubscriptionAction::Nothing,
            },
            VideoSubscriptionMessage::Drop => VideoSubscriptionAction::Stop,
        }
    }
}

} // verus!
