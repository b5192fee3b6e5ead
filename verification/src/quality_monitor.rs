use vstd::prelude::*;
use crate::quality::StreamQuality;

verus! {

/// How many better readings in a row are tolerated before the quality goes up.
pub const REQUIRED_STABLE_SIGNALS: usize = 3;

/// What a quality monitor is told.
#[derive(Clone, Copy)]
pub enum QualityMonitorMessage {
    Ping,
    Close,
}

/// The direction in which the measured quality of a connection moves.
pub enum Trend {
    Improving,
    Stable,
    Worsening,
    Unknown,
}

/// The switching state of a quality monitor: the layer the subscriber was
/// last told to receive, and how many better readings came in a row.
#[derive(Debug, PartialEq, Eq, Clone, Copy, Structural)]
pub struct QualityGate {
    pub current_quality: Option<StreamQuality>,
    pub consecutive_high_signals: usize,
}

/// The switching state after the measurement `observed`, and the layer to
/// switch the subscriber to, if any. The first reading is taken at
/// once; a worse reading is taken at once; a better one is taken only when
/// more than `REQUIRED_STABLE_SIGNALS` better ones came since the last
/// switch (readings equal to the current layer do not clear the count).
pub open spec fn gate_step(g: QualityGate, observed: Option<StreamQuality>) -> (QualityGate, Option<StreamQuality>) {
    match observed {
        None => (g, None),
        Some(q) => match g.current_quality {
            None => (QualityGate { current_quality: Some(q), ..g }, Some(q)),
            Some(cur) => if q.rank() == cur.rank() {
                (g, None)
            } else if q.rank() > cur.rank() {
                if g.consecutive_high_signals > REQUIRED_STABLE_SIGNALS {
                    (QualityGate { current_quality: Some(q), consecutive_high_signals: 0 }, Some(q))
                } else {
                    (QualityGate { consecutive_high_signals: (g.consecutive_high_signals + 1) as usize, ..g }, None)
                }
            } else {
                (QualityGate { current_quality: Some(q), consecutive_high_signals: 0 }, Some(q))
            },
        },
    }
}

impl QualityGate {
    /// The counter never exceeds one more than the tolerance.
    pub open spec fn wf(&self) -> bool {
        self.consecutive_high_signals <= REQUIRED_STABLE_SIGNALS + 1
    }

    /// A gate that has told the subscriber nothing yet.
    pub fn new() -> (g: QualityGate)
        ensures
            g.wf(),
            g.current_quality is None,
            g.consecutive_high_signals == 0,
    {
        QualityGate { current_quality: None, consecutive_high_signals: 0 }
    }

    /// Takes the reading `observed`; answers the layer to switch the
    /// subscriber to, if any.
    pub fn update_status(&mut self, observed: Option<StreamQuality>) -> (switch: Option<StreamQuality>)
        requires
            old(self).wf(),
        ensures
            final(self).wf(),
            (*final(self), switch) == gate_step(*old(self), observed),
            observed is None ==> *final(self) == *old(self) && switch is None,
    {
        if let Some(quality) = observed {
            let current_quality = match self.current_quality {
                Some(current_quality) => current_quality,
                None => {
                    self.current_quality = Some(quality);
                    return Some(quality);
                },
            };
            let q = quality.as_u8();
            let c = current_quality.as_u8();
            let should_switch = if q == c {
                false
            } else if q > c {
                if self.consecutive_high_signals > REQUIRED_STABLE_SIGNALS {
                    self.consecutive_high_signals = 0;
                    true
                } else {
                    self.consecutive_high_signals += 1;
                    false
                }
            } else {
                self.consecutive_high_signals = 0;
                true
            };
            if should_switch {
                self.current_quality = Some(quality);
                return Some(quality);
            }
        }
        None
    }
}

/// The state of the first quality monitor: the layer the subscriber was
/// last told to receive, starting from the high one, and how many better
/// readings came in a row.
#[derive(Debug, PartialEq, Eq, Clone, Copy, Structural)]
pub struct PingGate {
    pub current_quality: StreamQuality,
    pub consecutive_high_signals: usize,
}

/// One step of the first monitor on a reading: a reading equal to the
/// current layer clears the count; a worse one is taken at once; a better one
/// only when more than three better ones came before it in a row.
pub open spec fn ping_step(g: PingGate, observed: Option<StreamQuality>) -> (PingGate, Option<StreamQuality>) {
    match observed {
        None => (g, None),
        Some(q) => if q.rank() == g.current_quality.rank() {
            (PingGate { consecutive_high_signals: 0, ..g }, None)
        } else if q.rank() > g.current_quality.rank() {
            if g.consecutive_high_signals > 3 {
                (PingGate { current_quality: q, consecutive_high_signals: 0 }, Some(q))
            } else {
                (PingGate { consecutive_high_signals: (g.consecutive_high_signals + 1) as usize, ..g }, None)
            }
        } else {
            (PingGate { current_quality: q, consecutive_high_signals: 0 }, Some(q))
        },
    }
}

impl PingGate {
    pub open spec fn wf(&self) -> bool {
        self.consecutive_high_signals <= 4
    }

    /// A gate that starts on the high layer.
    pub fn new() -> (g: PingGate)
        ensures
            g.wf(),
            g.current_quality == StreamQuality::High,
            g.consecutive_high_signals == 0,
    {
        PingGate { current_quality: StreamQuality::High, consecutive_high_signals: 0 }
    }

    /// Takes the reading `observed`; answers the layer to switch the
    /// subscriber to, if any.
    pub fn on_ping(&mut self, observed: Option<StreamQuality>) -> (switch: Option<StreamQuality>)
        requires
            old(self).wf(),
        ensures
            final(self).wf(),
            (*final(self), switch) == ping_step(*old(self), observed),
            observed is None ==> *final(self) == *old(self) && switch is None,
    {
        if let Some(quality) = observed {
            let q = quality.as_u8();
            let c = self.current_quality.as_u8();
            let should_switch = if q == c {
                self.consecutive_high_signals = 0;
                false
            } else if q > c {
                if self.consecutive_high_signals > 3 {
                    self.consecutive_high_signals = 0;
                    true
                } else {
                    self.consecutive_high_signals += 1;
                    false
                }
            } else {
                self.consecutive_high_signals = 0;
                true
            };
            if should_switch {
                self.current_quality = quality;
                return Some(quality);
            }
        }
        None
    }
}

/// The counters of one inbound RTP stream that the monitor adds up.
#[derive(Debug, PartialEq, Eq, Clone, Copy, Structural)]
pub struct InboundCounts {
    pub packets_received: u64,
    pub packets_lost: i64,
    pub frames_decoded: u32,
    pub frames_dropped: u32,
    pub qp_sum: u64,
    pub freeze_count: u32,
    pub concealment_events: u64,
}

/// The counters of all inbound streams together; losses that add up to less
/// than nothing count as none.
#[derive(Debug, PartialEq, Eq, Clone, Copy, Structural)]
pub struct CountTotals {
    pub packets_received: u64,
    pub packets_lost: u64,
    pub frames_decoded: u32,
    pub frames_dropped: u32,
    pub qp_sum: u64,
    pub freeze_count: u32,
    pub concealment_events: u64,
    pub stream_count: i32,
}

/// One of the counters of an inbound stream.
pub enum Counter {
    Received,
    Lost,
    Decoded,
    Dropped,
    Qp,
    Freezes,
    Concealments,
}

/// The value of counter `which` of a stream.
pub open spec fn counter(c: InboundCounts, which: Counter) -> int {
    match which {
        Counter::Received => c.packets_received as int,
        Counter::Lost => c.packets_lost as int,
        Counter::Decoded => c.frames_decoded as int,
        Counter::Dropped => c.frames_dropped as int,
        Counter::Qp => c.qp_sum as int,
        Counter::Freezes => c.freeze_count as int,
        Counter::Concealments => c.concealment_events as int,
    }
}

/// The sum of counter `which` over the streams.
pub open spec fn sum_of(s: Seq<InboundCounts>, which: Counter) -> int
    decreases s.len(),
{
    if s.len() == 0 {
        0
    } else {
        sum_of(s.drop_last(), which) + counter(s.last(), which)
    }
}

/// Every running total stays within the type it is added up in; past it,
/// the addition would overflow.
pub open spec fn totals_fit(s: Seq<InboundCounts>) -> bool {
    &&& s.len() <= i32::MAX
    &&& forall|k: int| 0 <= k <= s.len() ==> #[trigger] sum_of(s.take(k), Counter::Received) <= u64::MAX
    &&& forall|k: int| 0 <= k <= s.len() ==> i64::MIN <= #[trigger] sum_of(s.take(k), Counter::Lost) <= i64::MAX
    &&& forall|k: int| 0 <= k <= s.len() ==> #[trigger] sum_of(s.take(k), Counter::Decoded) <= u32::MAX
    &&& forall|k: int| 0 <= k <= s.len() ==> #[trigger] sum_of(s.take(k), Counter::Dropped) <= u32::MAX
    &&& forall|k: int| 0 <= k <= s.len() ==> #[trigger] sum_of(s.take(k), Counter::Qp) <= u64::MAX
    &&& forall|k: int| 0 <= k <= s.len() ==> #[trigger] sum_of(s.take(k), Counter::Freezes) <= u32::MAX
    &&& forall|k: int| 0 <= k <= s.len() ==> #[trigger] sum_of(s.take(k), Counter::Concealments) <= u64::MAX
}

/// Whether every running total of the streams' counters stays within the
/// type it is added up in; where one does not, the addition would overflow,
/// so a caller tests this before `collect_counts`.
pub fn counts_fit(streams: &[InboundCounts]) -> (r: bool)
    ensures
        r == totals_fit(streams@),
{
    if streams.len() > 2147483647 {
        return false;
    }
    let mut received: u128 = 0;
    let mut lost: i128 = 0;
    let mut decoded: u128 = 0;
    let mut dropped: u128 = 0;
    let mut qp: u128 = 0;
    let mut freezes: u128 = 0;
    let mut concealments: u128 = 0;
    let mut i: usize = 0;
    proof {
        assert(streams@.take(0) =~= Seq::<InboundCounts>::empty());
    }
    while i < streams.len()
        invariant
            i <= streams@.len() <= i32::MAX,
            received == sum_of(streams@.take(i as int), Counter::Received),
            lost == sum_of(streams@.take(i as int), Counter::Lost),
            decoded == sum_of(streams@.take(i as int), Counter::Decoded),
            dropped == sum_of(streams@.take(i as int), Counter::Dropped),
            qp == sum_of(streams@.take(i as int), Counter::Qp),
            freezes == sum_of(streams@.take(i as int), Counter::Freezes),
            concealments == sum_of(streams@.take(i as int), Counter::Concealments),
            forall|k: int| 0 <= k <= i ==> #[trigger] sum_of(streams@.take(k), Counter::Received) <= u64::MAX,
            forall|k: int| 0 <= k <= i ==> i64::MIN <= #[trigger] sum_of(streams@.take(k), Counter::Lost) <= i64::MAX,
            forall|k: int| 0 <= k <= i ==> #[trigger] sum_of(streams@.take(k), Counter::Decoded) <= u32::MAX,
            forall|k: int| 0 <= k <= i ==> #[trigger] sum_of(streams@.take(k), Counter::Dropped) <= u32::MAX,
            forall|k: int| 0 <= k <= i ==> #[trigger] sum_of(streams@.take(k), Counter::Qp) <= u64::MAX,
            forall|k: int| 0 <= k <= i ==> #[trigger] sum_of(streams@.take(k), Counter::Freezes) <= u32::MAX,
            forall|k: int| 0 <= k <= i ==> #[trigger] sum_of(streams@.take(k), Counter::Concealments) <= u64::MAX,
        decreases streams@.len() - i,
    {
        let c = streams[i];
        let ghost next = streams@.take(i as int + 1);
        proof {
            assert(next.drop_last() =~= streams@.take(i as int));
            assert(next.last() == c);
        }
        received = received + c.packets_received as u128;
        lost = lost + c.packets_lost as i128;
        decoded = decoded + c.frames_decoded as u128;
        dropped = dropped + c.frames_dropped as u128;
        qp = qp + c.qp_sum as u128;
        freezes = freezes + c.freeze_count as u128;
        concealments = concealments + c.concealment_events as u128;
        if received > 18446744073709551615u128 || lost < -9223372036854775808i128 || lost > 9223372036854775807i128
            || decoded > 4294967295u128 || dropped > 4294967295u128 || qp > 18446744073709551615u128
            || freezes > 4294967295u128 || concealments > 18446744073709551615u128 {
            proof {
                let k = i as int + 1;
                assert(streams@.take(k) == next);
                assert(sum_of(streams@.take(k), Counter::Received) == received);
                assert(sum_of(streams@.take(k), Counter::Lost) == lost);
                assert(sum_of(streams@.take(k), Counter::Decoded) == decoded);
                assert(sum_of(streams@.take(k), Counter::Dropped) == dropped);
                assert(sum_of(streams@.take(k), Counter::Qp) == qp);
                assert(sum_of(streams@.take(k), Counter::Freezes) == freezes);
                assert(sum_of(streams@.take(k), Counter::Concealments) == concealments);
            }
            return false;
        }
        i += 1;
    }
    proof {
        assert(streams@.take(streams@.len() as int) =~= streams@);
    }
    true
}

/// Adds up the counters of the inbound video streams of a statistics report.
pub fn collect_counts(streams: &[InboundCounts]) -> (t: CountTotals)
    requires
        totals_fit(streams@),
    ensures
        t.packets_received == sum_of(streams@, Counter::Received),
        t.packets_lost == (if sum_of(streams@, Counter::Lost) > 0 { sum_of(streams@, Counter::Lost) } else { 0 }),
        t.frames_decoded == sum_of(streams@, Counter::Decoded),
        t.frames_dropped == sum_of(streams@, Counter::Dropped),
        t.qp_sum == sum_of(streams@, Counter::Qp),
        t.freeze_count == sum_of(streams@, Counter::Freezes),
        t.concealment_events == sum_of(streams@, Counter::Concealments),
        t.stream_count == streams@.len(),
{
    let mut total_packets_received: u64 = 0;
    let mut total_packets_lost: i64 = 0;
    let mut total_frames_decoded: u32 = 0;
    let mut total_frames_dropped: u32 = 0;
    let mut total_qp: u64 = 0;
    let mut total_freeze_count: u32 = 0;
    let mut total_concealment: u64 = 0;
    let mut stream_count: i32 = 0;
    let mut i: usize = 0;
    while i < streams.len()
        invariant
            i <= streams@.len(),
            totals_fit(streams@),
            stream_count == i,
            total_packets_received == sum_of(streams@.take(i as int), Counter::Received),
            total_packets_lost == sum_of(streams@.take(i as int), Counter::Lost),
            total_frames_decoded == sum_of(streams@.take(i as int), Counter::Decoded),
            total_frames_dropped == sum_of(streams@.take(i as int), Counter::Dropped),
            total_qp == sum_of(streams@.take(i as int), Counter::Qp),
            total_freeze_count == sum_of(streams@.take(i as int), Counter::Freezes),
            total_concealment == sum_of(streams@.take(i as int), Counter::Concealments),
        decreases streams@.len() - i,
    {
        let c = streams[i];
        proof {
            let next = streams@.take(i as int + 1);
            assert(next.drop_last() =~= streams@.take(i as int));
            assert(next.last() == c);
            assert(sum_of(next, Counter::Received) <= u64::MAX);
            assert(i64::MIN <= sum_of(next, Counter::Lost) <= i64::MAX);
            assert(sum_of(next, Counter::Decoded) <= u32::MAX);
            assert(sum_of(next, Counter::Dropped) <= u32::MAX);
            assert(sum_of(next, Counter::Qp) <= u64::MAX);
            assert(sum_of(next, Counter::Freezes) <= u32::MAX);
            assert(sum_of(next, Counter::Concealments) <= u64::MAX);
        }
        total_packets_received += c.packets_received;
        total_packets_lost += c.packets_lost;
        total_frames_decoded += c.frames_decoded;
        total_frames_dropped += c.frames_dropped;
        total_qp += c.qp_sum;
        total_freeze_count += c.freeze_count;
        total_concealment += c.concealment_events;
        stream_count += 1;
        i += 1;
    }
    proof {
        assert(streams@.take(streams@.len() as int) =~= streams@);
    }
    let packets_lost: u64 = if total_packets_lost > 0 { total_packets_lost as u64 } else { 0 };
    CountTotals {
        packets_received: total_packets_received,
        packets_lost,
        frames_decoded: total_frames_decoded,
        frames_dropped: total_frames_dropped,
        qp_sum: total_qp,
        freeze_count: total_freeze_count,
        concealment_events: total_concealment,
        stream_count,
    }
}

/// How the packet loss estimate changes with a new sample.
#[derive(Debug, PartialEq, Eq, Clone, Copy, Structural)]
pub enum LossSample {
    /// The loss is half the share of `nacks` in `packets` (at most one).
    Ratio { nacks: u64, packets: u64 },
    /// Packets stopped arriving: the loss is total.
    Total,
    /// The estimate stays.
    Keep,
}

/// What a new sample of the receive counters says: the bytes received since
/// the last sample, when the bitrate is to be measured again, and how the
/// loss estimate changes.
#[derive(Debug, PartialEq, Eq, Clone, Copy, Structural)]
pub struct ReceiveSample {
    pub bytes_diff: Option<u64>,
    pub loss: LossSample,
}

/// The video receive counters of the first quality monitor at its last sample.
pub struct ReceiveCounters {
    pub last_packets_received: u64,
    pub last_bytes_received: u64,
    pub last_nack_count: u64,
}

impl ReceiveCounters {
    pub fn new() -> (c: ReceiveCounters)
        ensures
            c.last_packets_received == 0,
            c.last_bytes_received == 0,
            c.last_nack_count == 0,
    {
        ReceiveCounters { last_packets_received: 0, last_bytes_received: 0, last_nack_count: 0 }
    }

    /// Takes a sample of the totals; `time_passed` says whether any time
    /// passed since the previous sample. The bitrate is measured only when
    /// bytes came in since a previous sample that had some; the loss only
    /// when packets came in since a previous sample that had some, and it is
    /// total when none came in.
    pub fn sample(&mut self, total_bytes: u64, total_packets: u64, total_nacks: u64, time_passed: bool) -> (s:
        ReceiveSample)
        ensures
            s.bytes_diff == (if old(self).last_bytes_received > 0 && total_bytes > old(self).last_bytes_received
                && time_passed {
                Some((total_bytes - old(self).last_bytes_received) as u64)
            } else {
                None::<u64>
            }),
            s.loss == (if old(self).last_packets_received > 0 && total_packets > old(self).last_packets_received {
                LossSample::Ratio {
                    nacks: if total_nacks > old(self).last_nack_count {
                        (total_nacks - old(self).last_nack_count) as u64
                    } else {
                        0
                    },
                    packets: (total_packets - old(self).last_packets_received) as u64,
                }
            } else if total_packets == old(self).last_packets_received && old(self).last_packets_received > 0 {
                LossSample::Total
            } else {
                LossSample::Keep
            }),
            final(self).last_bytes_received == total_bytes,
            final(self).last_packets_received == total_packets,
            final(self).last_nack_count == total_nacks,
    {
        let mut bytes_diff: Option<u64> = None;
        if self.last_bytes_received > 0 && total_bytes > self.last_bytes_received && time_passed {
            bytes_diff = Some(total_bytes.saturating_sub(self.last_bytes_received));
        }
        let loss = if self.last_packets_received > 0 && total_packets > self.last_packets_received {
            let packets_diff = total_packets.saturating_sub(self.last_packets_received);
            let nack_diff = total_nacks.saturating_sub(self.last_nack_count);
            LossSample::Ratio { nacks: nack_diff, packets: packets_diff }
        } else if total_packets == self.last_packets_received && self.last_packets_received > 0 {
            LossSample::Total
        } else {
            LossSample::Keep
        };
        self.last_bytes_received = total_bytes;
        self.last_packets_received = total_packets;
        self.last_nack_count = total_nacks;
        ReceiveSample { bytes_diff, loss }
    }
}

/// A worse reading switches the subscriber down at once.
pub proof fn law_downgrade_is_immediate(g: QualityGate, cur: StreamQuality, q: StreamQuality)
    requires
        g.current_quality == Some(cur),
        q.rank() < cur.rank(),
    ensures
        gate_step(g, Some(q)).1 == Some(q),
        gate_step(g, Some(q)).0.current_quality == Some(q),
        gate_step(g, Some(q)).0.consecutive_high_signals == 0,
{
}

/// Going up takes five better readings: from a cleared count, the
/// first four leave the subscriber where it is and the fifth switches it.
pub proof fn law_upgrade_needs_five_readings(g: QualityGate, cur: StreamQuality, better: Seq<StreamQuality>)
    requires
        g.current_quality == Some(cur),
        g.consecutive_high_signals == 0,
        better.len() == 5,
        forall|i: int| 0 <= i < 5 ==> (#[trigger] better[i]).rank() > cur.rank(),
    ensures
        ({
            let s1 = gate_step(g, Some(better[0]));
            let s2 = gate_step(s1.0, Some(better[1]));
            let s3 = gate_step(s2.0, Some(better[2]));
            let s4 = gate_step(s3.0, Some(better[3]));
            let s5 = gate_step(s4.0, Some(better[4]));
            &&& s1.1 is None && s2.1 is None && s3.1 is None && s4.1 is None
            &&& s5.1 == Some(better[4])
            &&& s5.0.current_quality == Some(better[4])
        }),
{
    assert(better[0].rank() > cur.rank());
    assert(better[1].rank() > cur.rank());
    assert(better[2].rank() > cur.rank());
    assert(better[3].rank() > cur.rank());
    assert(better[4].rank() > cur.rank());
}

/// The first monitor switches down at once on a worse reading, and a
/// reading equal to the current layer clears the count of better ones.
pub proof fn law_ping_downgrade_and_reset(g: PingGate, q: StreamQuality)
    ensures
        q.rank() < g.current_quality.rank() ==> ping_step(g, Some(q)) == (
        PingGate { current_quality: q, consecutive_high_signals: 0 },
        Some(q),
    ),
        q.rank() == g.current_quality.rank() ==> ping_step(g, Some(q)).1 is None && ping_step(
            g,
            Some(q),
        ).0.consecutive_high_signals == 0,
{
}

/// The first monitor also goes up only after five better readings in a row
/// from a cleared count: the first four leave the subscriber where it is and
/// the fifth switches it.
pub proof fn law_ping_upgrade_needs_five_readings(g: PingGate, better: Seq<StreamQuality>)
    requires
        g.consecutive_high_signals == 0,
        better.len() == 5,
        forall|i: int| 0 <= i < 5 ==> (#[trigger] better[i]).rank() > g.current_quality.rank(),
    ensures
        ({
            let s1 = ping_step(g, Some(better[0]));
            let s2 = ping_step(s1.0, Some(better[1]));
            let s3 = ping_step(s2.0, Some(better[2]));
            let s4 = ping_step(s3.0, Some(better[3]));
            let s5 = ping_step(s4.0, Some(better[4]));
            &&& s1.1 is None && s2.1 is None && s3.1 is None && s4.1 is None
            &&& s5.1 == Some(better[4])
            &&& s5.0.current_quality == better[4]
        }),
{
    assert(better[0].rank() > g.current_quality.rank());
    assert(better[1].rank() > g.current_quality.rank());
    assert(better[2].rank() > g.current_quality.rank());
    assert(better[3].rank() > g.current_quality.rank());
    assert(better[4].rank() > g.current_quality.rank());
}

/// A reading without an estimate changes nothing: the monitor stays as it was
/// and the subscriber is not switched, for either monitor.
pub proof fn law_no_estimate_changes_nothing(g: QualityGate, p: PingGate)
    ensures
        gate_step(g, None) == (g, None::<StreamQuality>),
        ping_step(p, None) == (p, None::<StreamQuality>),
{
}

/// The first reading is taken at once, and a reading equal to the layer the
/// monitor told leaves the monitor as it was: it neither switches nor clears the
/// count of better readings.
pub proof fn law_first_and_equal_readings(g: QualityGate, q: StreamQuality)
    ensures
        g.current_quality is None ==> gate_step(g, Some(q)).1 == Some(q) && gate_step(g, Some(q)).0.current_quality
            == Some(q),
        (g.current_quality matches Some(cur) && cur.rank() == q.rank()) ==> gate_step(g, Some(q)) == (
            g,
            None::<StreamQuality>,
        ),
{
}

/// The monitor after the readings `readings`, taken in order from `g`.
pub open spec fn gate_after(g: QualityGate, readings: Seq<Option<StreamQuality>>) -> QualityGate
    decreases readings.len(),
{
    if readings.len() == 0 {
        g
    } else {
        gate_step(gate_after(g, readings.drop_last()), readings.last()).0
    }
}

/// The switch announced on the reading `readings[j]`, after those before it.
pub open spec fn gate_switch_at(g: QualityGate, readings: Seq<Option<StreamQuality>>, j: int) -> Option<
    StreamQuality,
> {
    gate_step(gate_after(g, readings.take(j)), readings[j]).1
}

/// How many of `readings` name a layer above `cur`.
pub open spec fn better_count(cur: StreamQuality, readings: Seq<Option<StreamQuality>>) -> nat
    decreases readings.len(),
{
    if readings.len() == 0 {
        0
    } else {
        better_count(cur, readings.drop_last()) + match readings.last() {
            Some(q) => if q.rank() > cur.rank() {
                1nat
            } else {
                0nat
            },
            None => 0nat,
        }
    }
}

/// While no switch is announced, the monitor keeps the layer it told and counts
/// the better readings, whatever readings without an estimate come between.
proof fn lemma_gate_quiet_run(g: QualityGate, cur: StreamQuality, readings: Seq<Option<StreamQuality>>, k: int)
    requires
        g.current_quality == Some(cur),
        0 <= k <= readings.len(),
        forall|i: int| 0 <= i < k ==> #[trigger] gate_switch_at(g, readings, i) is None,
    ensures
        gate_after(g, readings.take(k)).current_quality == Some(cur),
        gate_after(g, readings.take(k)).consecutive_high_signals == g.consecutive_high_signals + better_count(
            cur,
            readings.take(k),
        ),
    decreases k,
{
    if k == 0 {
        assert(readings.take(0) =~= Seq::<Option<StreamQuality>>::empty());
    } else {
        lemma_gate_quiet_run(g, cur, readings, k - 1);
        let prefix = readings.take(k);
        assert(prefix.drop_last() =~= readings.take(k - 1));
        assert(prefix.last() == readings[k - 1]);
        assert(gate_switch_at(g, readings, k - 1) is None);
    }
}

/// Going up takes five better readings since the last switch: when the monitor
/// has told the subscriber `cur` and then announces a better layer, with no
/// switch announced in between, five better readings have been counted, the
/// one that switches included, however many readings without an estimate or
/// equal to `cur` came between them.
pub proof fn law_upgrade_counts_five_better_readings(
    g: QualityGate,
    cur: StreamQuality,
    readings: Seq<Option<StreamQuality>>,
    j: int,
    q: StreamQuality,
)
    requires
        g.current_quality == Some(cur),
        0 <= j < readings.len(),
        forall|i: int| 0 <= i < j ==> #[trigger] gate_switch_at(g, readings, i) is None,
        gate_switch_at(g, readings, j) == Some(q),
        q.rank() > cur.rank(),
    ensures
        g.consecutive_high_signals + better_count(cur, readings.take(j + 1)) >= 5,
        readings[j] == Some(q),
{
    lemma_gate_quiet_run(g, cur, readings, j);
    let prefix = readings.take(j + 1);
    assert(prefix.drop_last() =~= readings.take(j));
    assert(prefix.last() == readings[j]);
}

/// The first monitor after the readings `readings`, taken in order from `g`.
pub open spec fn ping_after(g: PingGate, readings: Seq<Option<StreamQuality>>) -> PingGate
    decreases readings.len(),
{
    if readings.len() == 0 {
        g
    } else {
        ping_step(ping_after(g, readings.drop_last()), readings.last()).0
    }
}

/// The switch the first monitor announces on `readings[j]`, after those before it.
pub open spec fn ping_switch_at(g: PingGate, readings: Seq<Option<StreamQuality>>, j: int) -> Option<
    StreamQuality,
> {
    ping_step(ping_after(g, readings.take(j)), readings[j]).1
}

/// How many readings above `cur` end `readings` in a row, readings without
/// an estimate skipped.
pub open spec fn better_streak(cur: StreamQuality, readings: Seq<Option<StreamQuality>>) -> nat
    decreases readings.len(),
{
    if readings.len() == 0 {
        0
    } else {
        match readings.last() {
            None => better_streak(cur, readings.drop_last()),
            Some(q) => if q.rank() > cur.rank() {
                better_streak(cur, readings.drop_last()) + 1
            } else {
                0
            },
        }
    }
}

proof fn lemma_ping_quiet_run(g: PingGate, readings: Seq<Option<StreamQuality>>, k: int)
    requires
        g.consecutive_high_signals == 0,
        0 <= k <= readings.len(),
        forall|i: int| 0 <= i < k ==> #[trigger] ping_switch_at(g, readings, i) is None,
    ensures
        ping_after(g, readings.take(k)).current_quality == g.current_quality,
        ping_after(g, readings.take(k)).consecutive_high_signals == better_streak(g.current_quality, readings.take(k)),
    decreases k,
{
    if k == 0 {
        assert(readings.take(0) =~= Seq::<Option<StreamQuality>>::empty());
    } else {
        lemma_ping_quiet_run(g, readings, k - 1);
        let prefix = readings.take(k);
        assert(prefix.drop_last() =~= readings.take(k - 1));
        assert(prefix.last() == readings[k - 1]);
        assert(ping_switch_at(g, readings, k - 1) is None);
    }
}

/// The first monitor goes up only after five better readings in a row: when,
/// from a cleared count, it announces a layer above the current one with no
/// switch in between, the last five readings with an estimate, the switching
/// one included, were all better, however many readings without an estimate
/// came between them.
pub proof fn law_ping_upgrade_after_five_in_a_row(
    g: PingGate,
    readings: Seq<Option<StreamQuality>>,
    j: int,
    q: StreamQuality,
)
    requires
        g.consecutive_high_signals == 0,
        0 <= j < readings.len(),
        forall|i: int| 0 <= i < j ==> #[trigger] ping_switch_at(g, readings, i) is None,
        ping_switch_at(g, readings, j) == Some(q),
        q.rank() > g.current_quality.rank(),
    ensures
        better_streak(g.current_quality, readings.take(j + 1)) >= 5,
        readings[j] == Some(q),
{
    lemma_ping_quiet_run(g, readings, j);
    let prefix = readings.take(j + 1);
    assert(prefix.drop_last() =~= readings.take(j));
    assert(prefix.last() == readings[j]);
}

} // verus!
