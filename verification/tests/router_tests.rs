use sfu::packet::FirRequest;
use sfu::quality::StreamQuality;
use sfu::router::{
    AudioRouterContext, GatewayRouterAction, GatewayRouterMessage, RtpPacketForwarder,
    RtpPacketForwarderAction, RtpPacketForwarderMessage, RtpPacketGatewayRouter, VideoRouterContext,
};
use std::collections::HashSet;
use sfu::subscribers::{members, take_members};

#[test]
fn members_lists_each_subscriber_once() {
    let mut set: HashSet<u64> = HashSet::new();
    set.insert(3);
    set.insert(5);
    set.insert(3);
    let mut listed = members(&set);
    listed.sort();
    assert_eq!(listed, vec![3, 5]);
    set.remove(&3);
    assert_eq!(take_members(&mut set), vec![5]);
    assert!(set.is_empty());
}

#[test]
fn video_context_numbers_fir_requests() {
    let mut router = RtpPacketGatewayRouter::new(VideoRouterContext::new(StreamQuality::Mid, 1234));
    let (is_new, fir) = router.subscribe(1);
    assert!(is_new);
    assert_eq!(fir, Some(FirRequest { ssrc: 1234, sequence_number: 0 }));
    let (is_new, fir) = router.subscribe(1);
    assert!(!is_new);
    assert_eq!(fir, Some(FirRequest { ssrc: 1234, sequence_number: 1 }));
}

#[test]
fn video_context_fir_sequence_wraps() {
    let mut context = VideoRouterContext::new(StreamQuality::High, 9);
    context.fir_sequence = 255;
    let mut router = RtpPacketGatewayRouter::new(context);
    assert_eq!(router.subscribe(1).1, Some(FirRequest { ssrc: 9, sequence_number: 255 }));
    assert_eq!(router.subscribe(2).1, Some(FirRequest { ssrc: 9, sequence_number: 0 }));
}

#[test]
fn audio_context_sends_no_fir() {
    let mut router = RtpPacketGatewayRouter::new(AudioRouterContext {});
    assert_eq!(router.subscribe(4), (true, None));
}

#[test]
fn timeout_notifies_and_drops_all_subscribers() {
    let mut router = RtpPacketGatewayRouter::new(VideoRouterContext::new(StreamQuality::Low, 1));
    router.subscribe(10);
    router.subscribe(11);
    let action = router.handle(GatewayRouterMessage::Timeout);
    let GatewayRouterAction::DeliverTimeout { mut recipients } = action else { panic!("expected a timeout delivery") };
    recipients.sort();
    assert_eq!(recipients, vec![10, 11]);
    assert_eq!(router.subscriptions.len(), 0);
    assert!(router.context.is_sleeping);
}

#[test]
fn packet_after_timeout_wakes_the_stream() {
    let mut router = RtpPacketGatewayRouter::new(VideoRouterContext::new(StreamQuality::Low, 1));
    router.handle(GatewayRouterMessage::Timeout);
    let action = router.handle(GatewayRouterMessage::RtpPacket);
    assert_eq!(action, GatewayRouterAction::DeliverPacket { quality: StreamQuality::Low, woke: true });
    let action = router.handle(GatewayRouterMessage::RtpPacket);
    assert_eq!(action, GatewayRouterAction::DeliverPacket { quality: StreamQuality::Low, woke: false });
}

#[test]
fn audio_router_never_sleeps() {
    let mut router = RtpPacketGatewayRouter::new(AudioRouterContext {});
    router.handle(GatewayRouterMessage::Timeout);
    let action = router.handle(GatewayRouterMessage::RtpPacket);
    assert_eq!(action, GatewayRouterAction::DeliverPacket { quality: StreamQuality::Audio, woke: false });
}

#[test]
fn gateway_unsubscribe() {
    let mut router = RtpPacketGatewayRouter::new(AudioRouterContext {});
    router.handle(GatewayRouterMessage::Subscribe(1));
    assert_eq!(router.handle(GatewayRouterMessage::Unsubscribe(1)), GatewayRouterAction::Unsubscribed { was_member: true });
    assert_eq!(router.handle(GatewayRouterMessage::Unsubscribe(1)), GatewayRouterAction::Unsubscribed { was_member: false });
}

#[test]
fn subscribe_then_unsubscribe_restores_subscribers() {
    let mut router = RtpPacketGatewayRouter::new(AudioRouterContext {});
    router.subscribe(1);
    router.subscribe(2);
    let before = router.subscriptions.clone();
    router.subscribe(3);
    router.unsubscribe(3);
    assert_eq!(router.subscriptions, before);
}

#[test]
fn packet_forwarder_pings_on_subscribe() {
    let mut forwarder = RtpPacketForwarder::new(StreamQuality::High, Some(77));
    let action = forwarder.handle(RtpPacketForwarderMessage::Subscribe(5));
    assert_eq!(action, RtpPacketForwarderAction::Ping { pli_sender: Some(77) });
    assert!(forwarder.subscriptions.contains(&5));
    let action = forwarder.handle(RtpPacketForwarderMessage::ForcePli);
    assert_eq!(action, RtpPacketForwarderAction::Ping { pli_sender: Some(77) });
    let action = forwarder.handle(RtpPacketForwarderMessage::RtpPacket);
    assert_eq!(action, RtpPacketForwarderAction::DeliverPacket { quality: StreamQuality::High });
    let action = forwarder.handle(RtpPacketForwarderMessage::Unsubscribe(5));
    assert_eq!(action, RtpPacketForwarderAction::Unsubscribed { was_member: true });
}

#[test]
fn audio_packet_forwarder_has_no_pli_sender() {
    let mut forwarder = RtpPacketForwarder::new(StreamQuality::Audio, None);
    let action = forwarder.handle(RtpPacketForwarderMessage::ForcePli);
    assert_eq!(action, RtpPacketForwarderAction::Ping { pli_sender: None });
}

#[test]
fn subscribe_message_requests_a_key_frame() {
    let mut router = RtpPacketGatewayRouter::new(VideoRouterContext::new(StreamQuality::High, 42));
    let action = router.handle(GatewayRouterMessage::Subscribe(7));
    assert_eq!(action, GatewayRouterAction::Subscribed { is_new: true, fir: Some(FirRequest { ssrc: 42, sequence_number: 0 }) });
    let action = router.handle(GatewayRouterMessage::Subscribe(7));
    assert_eq!(action, GatewayRouterAction::Subscribed { is_new: false, fir: Some(FirRequest { ssrc: 42, sequence_number: 1 }) });
    assert_eq!(router.context.fir_sequence, 2);
}
