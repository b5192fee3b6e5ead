use sfu::quality::StreamQuality;
use sfu::quality_monitor::{
    collect_counts, counts_fit, CountTotals, InboundCounts, LossSample, PingGate, QualityGate, ReceiveCounters, ReceiveSample,
    REQUIRED_STABLE_SIGNALS,
};

#[test]
fn gate_takes_first_reading() {
    let mut g = QualityGate::new();
    assert_eq!(g.update_status(None), None);
    assert_eq!(g.update_status(Some(StreamQuality::Mid)), Some(StreamQuality::Mid));
    assert_eq!(g.update_status(Some(StreamQuality::Mid)), None);
}

#[test]
fn gate_downgrade_is_immediate() {
    let mut g = QualityGate::new();
    g.update_status(Some(StreamQuality::High));
    assert_eq!(g.update_status(Some(StreamQuality::Low)), Some(StreamQuality::Low));
    assert_eq!(g.current_quality, Some(StreamQuality::Low));
    assert_eq!(g.consecutive_high_signals, 0);
}

#[test]
fn gate_upgrade_needs_five_readings() {
    assert_eq!(REQUIRED_STABLE_SIGNALS, 3);
    let mut g = QualityGate::new();
    g.update_status(Some(StreamQuality::Low));
    for _ in 0..4 {
        assert_eq!(g.update_status(Some(StreamQuality::High)), None);
    }
    assert_eq!(g.update_status(Some(StreamQuality::High)), Some(StreamQuality::High));
    assert_eq!(g.consecutive_high_signals, 0);
}

#[test]
fn gate_equal_readings_keep_the_count() {
    let mut g = QualityGate::new();
    g.update_status(Some(StreamQuality::Low));
    g.update_status(Some(StreamQuality::Mid));
    g.update_status(Some(StreamQuality::Low));
    assert_eq!(g.consecutive_high_signals, 1);
}

#[test]
fn ping_gate_starts_high_and_resets_on_equal() {
    let mut g = PingGate::new();
    assert_eq!(g.current_quality, StreamQuality::High);
    assert_eq!(g.on_ping(Some(StreamQuality::Mid)), Some(StreamQuality::Mid));
    assert_eq!(g.on_ping(Some(StreamQuality::High)), None);
    assert_eq!(g.on_ping(Some(StreamQuality::High)), None);
    assert_eq!(g.on_ping(Some(StreamQuality::Mid)), None);
    assert_eq!(g.consecutive_high_signals, 0);
    for _ in 0..4 {
        assert_eq!(g.on_ping(Some(StreamQuality::High)), None);
    }
    assert_eq!(g.on_ping(Some(StreamQuality::High)), Some(StreamQuality::High));
    assert_eq!(g.on_ping(None), None);
}

#[test]
fn counts_add_up() {
    let a = InboundCounts { packets_received: 10, packets_lost: 2, frames_decoded: 5, frames_dropped: 1, qp_sum: 100, freeze_count: 0, concealment_events: 3 };
    let b = InboundCounts { packets_received: 20, packets_lost: -5, frames_decoded: 7, frames_dropped: 0, qp_sum: 50, freeze_count: 2, concealment_events: 1 };
    let t = collect_counts(&[a, b]);
    assert_eq!(
        t,
        CountTotals { packets_received: 30, packets_lost: 0, frames_decoded: 12, frames_dropped: 1, qp_sum: 150, freeze_count: 2, concealment_events: 4, stream_count: 2 }
    );
    let t = collect_counts(&[a]);
    assert_eq!(t.packets_lost, 2);
    assert_eq!(collect_counts(&[]).stream_count, 0);
}

#[test]
fn receive_counters_sample() {
    let mut c = ReceiveCounters::new();
    assert_eq!(c.sample(1000, 10, 0, true), ReceiveSample { bytes_diff: None, loss: LossSample::Keep });
    assert_eq!(c.sample(3000, 30, 4, true), ReceiveSample { bytes_diff: Some(2000), loss: LossSample::Ratio { nacks: 4, packets: 20 } });
    assert_eq!(c.sample(3000, 30, 4, true), ReceiveSample { bytes_diff: None, loss: LossSample::Total });
    assert_eq!(c.sample(4000, 40, 2, false), ReceiveSample { bytes_diff: None, loss: LossSample::Ratio { nacks: 0, packets: 10 } });
    assert_eq!(c.last_nack_count, 2);
}

#[test]
fn counts_fit_detects_overflow() {
    let big = InboundCounts { packets_received: u64::MAX, packets_lost: 0, frames_decoded: 0, frames_dropped: 0, qp_sum: 0, freeze_count: 0, concealment_events: 0 };
    let one = InboundCounts { packets_received: 1, packets_lost: -1, frames_decoded: 1, frames_dropped: 0, qp_sum: 0, freeze_count: 0, concealment_events: 0 };
    assert!(counts_fit(&[big]));
    assert!(!counts_fit(&[big, one]));
    assert!(counts_fit(&[one, one]));
    let lossy = InboundCounts { packets_lost: i64::MIN, ..one };
    assert!(!counts_fit(&[lossy, one]));
    assert!(counts_fit(&[]));
}
