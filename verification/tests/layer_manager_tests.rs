use sfu::layer_manager::{
    slot_of, ForwarderCommand, LayerManagerAction, QualityLayer, VideoLayerManager, VideoLayerManagerMessage,
    VideoSubscription, VideoSubscriptionAction, VideoSubscriptionMessage,
};
use sfu::quality::StreamQuality;

fn layer(n: u64) -> QualityLayer {
    QualityLayer { gateway_router: n, keyframe_interceptor: n + 10, router_waker: n + 20 }
}

fn is_nothing(a: &LayerManagerAction) -> bool {
    a.watch.is_none() && a.forwarder.is_none() && a.pli.is_none() && !a.stop
}

#[test]
fn layer_slots_follow_rank() {
    assert_eq!(slot_of(StreamQuality::Audio), 0);
    assert_eq!(slot_of(StreamQuality::Low), 1);
    assert_eq!(slot_of(StreamQuality::Mid), 2);
    assert_eq!(slot_of(StreamQuality::High), 3);
}

#[test]
fn layer_manager_starts_on_lowest_known_layer() {
    let mut m = VideoLayerManager::new(StreamQuality::High, StreamQuality::Mid, layer(2));
    m.handle(VideoLayerManagerMessage::AddLayer { quality: StreamQuality::Low, layer: layer(1) });
    let a = m.starting();
    assert_eq!(a.watch, Some((StreamQuality::Low, 21)));
    assert_eq!(a.forwarder, Some(ForwarderCommand::Start { quality: StreamQuality::Low, gateway_router: 1 }));
    assert_eq!(m.active_quality, Some(StreamQuality::Low));
}

#[test]
fn layer_manager_switches_when_wanted_layer_arrives() {
    let mut m = VideoLayerManager::new(StreamQuality::High, StreamQuality::Low, layer(1));
    m.starting();
    let a = m.handle(VideoLayerManagerMessage::AddLayer { quality: StreamQuality::High, layer: layer(3) });
    assert_eq!(a.watch, Some((StreamQuality::High, 23)));
    assert_eq!(a.forwarder, Some(ForwarderCommand::LayerSwitched { quality: StreamQuality::High, gateway_router: 3 }));
    assert_eq!(m.active_quality, Some(StreamQuality::High));
    let a = m.handle(VideoLayerManagerMessage::AddLayer { quality: StreamQuality::Mid, layer: layer(2) });
    assert_eq!(a.forwarder, None);
    assert_eq!(m.get(StreamQuality::Mid), Some(layer(2)));
}

#[test]
fn layer_manager_switch_quality_layer() {
    let mut m = VideoLayerManager::new(StreamQuality::High, StreamQuality::Low, layer(1));
    m.handle(VideoLayerManagerMessage::AddLayer { quality: StreamQuality::Mid, layer: layer(2) });
    m.starting();
    let a = m.handle(VideoLayerManagerMessage::SwitchQualityLayer { to: StreamQuality::Mid });
    assert_eq!(a.forwarder, Some(ForwarderCommand::LayerSwitched { quality: StreamQuality::Mid, gateway_router: 2 }));
    assert_eq!(m.connection_quality, StreamQuality::Mid);
    // switching to the active layer changes nothing but the wanted layer
    let a = m.handle(VideoLayerManagerMessage::SwitchQualityLayer { to: StreamQuality::Mid });
    assert!(is_nothing(&a));
    // an unknown layer is ignored
    let a = m.handle(VideoLayerManagerMessage::SwitchQualityLayer { to: StreamQuality::High });
    assert!(is_nothing(&a));
    assert_eq!(m.connection_quality, StreamQuality::Mid);
}

#[test]
fn layer_manager_fallback_and_awake() {
    let mut m = VideoLayerManager::new(StreamQuality::High, StreamQuality::High, layer(3));
    m.starting();
    assert_eq!(m.active_quality, Some(StreamQuality::High));
    let a = m.handle(VideoLayerManagerMessage::AddLayer { quality: StreamQuality::Low, layer: layer(1) });
    assert_eq!(a.forwarder, None);
    let a = m.handle(VideoLayerManagerMessage::FallbackToLowQuality);
    assert_eq!(a.forwarder, Some(ForwarderCommand::LayerSwitched { quality: StreamQuality::Low, gateway_router: 1 }));
    assert!(is_nothing(&m.handle(VideoLayerManagerMessage::FallbackToLowQuality)));
    let a = m.handle(VideoLayerManagerMessage::LayerAwake { quality: StreamQuality::High });
    assert_eq!(a.forwarder, Some(ForwarderCommand::LayerSwitched { quality: StreamQuality::High, gateway_router: 3 }));
    assert!(is_nothing(&m.handle(VideoLayerManagerMessage::LayerAwake { quality: StreamQuality::Low })));
}

#[test]
fn layer_manager_pli_resume_and_drop() {
    let mut m = VideoLayerManager::new(StreamQuality::Low, StreamQuality::Low, layer(1));
    let a = m.handle(VideoLayerManagerMessage::ForcePli);
    assert_eq!(a.pli, Some(11));
    let a = m.handle(VideoLayerManagerMessage::ResumeStreaming);
    assert_eq!(a.forwarder, Some(ForwarderCommand::Reset));
    let a = m.handle(VideoLayerManagerMessage::Drop);
    assert!(a.stop);
    let mut empty = VideoLayerManager::new(StreamQuality::High, StreamQuality::Low, layer(1));
    assert_eq!(empty.handle(VideoLayerManagerMessage::ForcePli).pli, None);
}

#[test]
fn video_subscription_waits_for_high_layer() {
    let mut s = VideoSubscription::new(StreamQuality::Low, layer(1));
    assert!(s.waiting_high_quality);
    assert_eq!(s.starting(), VideoSubscriptionAction::ScheduleStartLowQuality);
    let a = s.handle(VideoSubscriptionMessage::AddSubsription { quality: StreamQuality::High, layer: layer(3) });
    assert_eq!(a, VideoSubscriptionAction::Forward(ForwarderCommand::Start { quality: StreamQuality::High, gateway_router: 3 }));
    assert!(!s.waiting_high_quality);
    assert_eq!(s.active_quality, StreamQuality::High);
}

#[test]
fn video_subscription_falls_back_to_lowest_layer() {
    let mut s = VideoSubscription::new(StreamQuality::Mid, layer(2));
    s.handle(VideoSubscriptionMessage::AddSubsription { quality: StreamQuality::Low, layer: layer(1) });
    let a = s.handle(VideoSubscriptionMessage::StartLowQuality);
    assert_eq!(a, VideoSubscriptionAction::Forward(ForwarderCommand::Start { quality: StreamQuality::Low, gateway_router: 1 }));
    assert!(!s.waiting_high_quality);
}

#[test]
fn video_subscription_starts_high_at_once() {
    let mut s = VideoSubscription::new(StreamQuality::High, layer(3));
    assert!(!s.waiting_high_quality);
    assert_eq!(s.starting(), VideoSubscriptionAction::Forward(ForwarderCommand::Start { quality: StreamQuality::High, gateway_router: 3 }));
    assert_eq!(s.handle(VideoSubscriptionMessage::ForcePli), VideoSubscriptionAction::Pli(13));
    assert_eq!(s.handle(VideoSubscriptionMessage::SwitchQualityLayer { to: StreamQuality::Low }), VideoSubscriptionAction::Nothing);
    s.handle(VideoSubscriptionMessage::AddSubsription { quality: StreamQuality::Low, layer: layer(1) });
    assert_eq!(
        s.handle(VideoSubscriptionMessage::SwitchQualityLayer { to: StreamQuality::Low }),
        VideoSubscriptionAction::Forward(ForwarderCommand::LayerSwitched { quality: StreamQuality::Low, gateway_router: 1 })
    );
    assert_eq!(s.handle(VideoSubscriptionMessage::Drop), VideoSubscriptionAction::Stop);
}
