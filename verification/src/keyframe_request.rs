use vstd::prelude::*;
use crate::packet::KeyframeRtcp;

verus! {

/// Two seconds, in nanoseconds.
pub const PLI_WINDOW_NANOS: u128 = 2_000_000_000;

/// Five seconds, in nanoseconds.
pub const PLI_INTERVAL_NANOS: u128 = 5_000_000_000;

/// A request for a key frame from the source of a published layer.
#[derive(Debug, PartialEq, Eq, Clone, Copy, Structural)]
pub enum RequestKeyframe {
    Pli,
    Fir,
}

/// Sends key frame requests to the source `ssrc` of a published layer. A
/// full intra request is always sent; a picture loss indication only within
/// two seconds of the previous request that was sent. Every request sent
/// takes the next sequence number, modulo 256.
pub struct KeyframeInterceptor {
    pub ssrc: u32,
    pub sequence_number: u8,
}

impl KeyframeInterceptor {
    /// An interceptor whose first full intra request carries number 0. Its
    /// clock starts six seconds in the past, so that no earlier request
    /// counts as recent.
    pub fn new(ssrc: u32) -> (k: KeyframeInterceptor)
        ensures
            k.ssrc == ssrc,
            k.sequence_number == 0,
    {
        KeyframeInterceptor { ssrc, sequence_number: 0 }
    }

    /// Decides on `request`, `elapsed_nanos` after the previous request was
    /// sent; answers the RTCP packet to send, if any, after which the caller
    /// restarts its clock.
    pub fn send_request(&mut self, request: RequestKeyframe, elapsed_nanos: u128) -> (rtcp: Option<KeyframeRtcp>)
        ensures
            final(self).ssrc == old(self).ssrc,
            rtcp == (match request {
                RequestKeyframe::Fir => Some(
                    KeyframeRtcp::Fir { ssrc: old(self).ssrc, sequence_number: old(self).sequence_number },
                ),
                RequestKeyframe::Pli => if elapsed_nanos < PLI_WINDOW_NANOS {
                    Some(KeyframeRtcp::Pli { ssrc: old(self).ssrc })
                } else {
                    None
                },
            }),
            rtcp is Some ==> final(self).sequence_number == old(self).sequence_number.wrapping_add(1),
            rtcp is None ==> final(self).sequence_number == old(self).sequence_number,
    {
        let rtcp = match request {
            RequestKeyframe::Fir => KeyframeRtcp::Fir { ssrc: self.ssrc, sequence_number: self.sequence_number },
            RequestKeyframe::Pli => {
                if elapsed_nanos < PLI_WINDOW_NANOS {
                    KeyframeRtcp::Pli { ssrc: self.ssrc }
                } else {
                    return None;
                }
            },
        };
        self.sequence_number = self.sequence_number.wrapping_add(1);
        Some(rtcp)
    }
}

/// The periodic nudge that a picture loss sender answers.
pub struct Ping;

/// The time from `since` to `now` on a monotonic clock, in nanoseconds; a
/// reading earlier than `since` counts as no time at all.
pub open spec fn elapsed_since(since: u128, now: u128) -> u128 {
    if now >= since { (now - since) as u128 } else { 0 }
}

/// Whether a picture loss sender that last sent at `last_sent` (never, when
/// `None`) sends on a ping at `now`.
pub open spec fn pli_due(last_sent: Option<u128>, now: u128) -> bool {
    match last_sent {
        None => true,
        Some(t) => elapsed_since(t, now) >= PLI_INTERVAL_NANOS,
    }
}

/// Asks the source `ssrc` of a published video track for a key frame at
/// most once every five seconds. `last_sent` is the clock reading, in
/// nanoseconds, at which it last asked; a new sender counts as having asked
/// long ago, so that its first ping asks.
pub struct PliSender {
    pub ssrc: u32,
    pub last_sent: Option<u128>,
}

impl PliSender {
    pub fn new(ssrc: u32) -> (p: PliSender)
        ensures
            p.ssrc == ssrc,
            p.last_sent is None,
    {
        PliSender { ssrc, last_sent: None }
    }

    /// A ping at `now_nanos` on a monotonic clock: answers the source to send
    /// a picture loss indication to, if five seconds have passed since the
    /// last one, and then records `now_nanos` as the time of sending.
    pub fn handle(&mut self, _ping: Ping, now_nanos: u128) -> (target: Option<u32>)
        ensures
            final(self).ssrc == old(self).ssrc,
            target == (if pli_due(old(self).last_sent, now_nanos) { Some(old(self).ssrc) } else { None }),
            final(self).last_sent == (if pli_due(old(self).last_sent, now_nanos) {
                Some(now_nanos)
            } else {
                old(self).last_sent
            }),
    {
        if let Some(t) = self.last_sent {
            let elapsed = if now_nanos >= t { now_nanos - t } else { 0 };
            if elapsed < PLI_INTERVAL_NANOS {
                return None;
            }
        }
        self.last_sent = Some(now_nanos);
        Some(self.ssrc)
    }
}

/// When a picture loss sender that started with `last` has answered pings at
/// the clock readings `times`, in order, through `PliSender::handle`: the
/// reading at which it last sent.
pub open spec fn pli_last_after(last: Option<u128>, times: Seq<u128>) -> Option<u128>
    decreases times.len(),
{
    if times.len() == 0 {
        last
    } else {
        let before = pli_last_after(last, times.drop_last());
        if pli_due(before, times.last()) {
            Some(times.last())
        } else {
            before
        }
    }
}

/// Whether the ping at `times[i]` sends, after the pings before it.
pub open spec fn pli_sends_at(last: Option<u128>, times: Seq<u128>, i: int) -> bool {
    pli_due(pli_last_after(last, times.take(i)), times[i])
}

/// Two picture loss indications are at least five seconds apart: of any run
/// of pings that `PliSender::handle` answers on a monotonic clock, two that
/// send are five seconds apart or more.
pub proof fn law_pli_interval(last: Option<u128>, times: Seq<u128>, i: int, j: int)
    requires
        forall|a: int, b: int| 0 <= a <= b < times.len() ==> times[a] <= times[b],
        0 <= i < j < times.len(),
        pli_sends_at(last, times, i),
        pli_sends_at(last, times, j),
    ensures
        times[j] >= times[i] + PLI_INTERVAL_NANOS,
{
    lemma_pli_last_after_send(last, times, i, j);
}

/// After a sending at `times[i]`, the sender's last sending is one at a
/// reading no earlier than `times[i]` and no later than the latest ping.
proof fn lemma_pli_last_after_send(last: Option<u128>, times: Seq<u128>, i: int, k: int)
    requires
        forall|a: int, b: int| 0 <= a <= b < times.len() ==> times[a] <= times[b],
        0 <= i < k <= times.len(),
        pli_sends_at(last, times, i),
    ensures
        pli_last_after(last, times.take(k)) matches Some(t) && times[i] <= t <= times[k - 1],
    decreases k,
{
    let prefix = times.take(k);
    assert(prefix.drop_last() == times.take(k - 1));
    assert(prefix.last() == times[k - 1]);
    if k == i + 1 {
    } else {
        lemma_pli_last_after_send(last, times, i, k - 1);
    }
}

/// A ping five seconds or more after the last indication always sends one.
pub proof fn law_pli_resumes(sent: u128, now: u128)
    requires
        sent + PLI_INTERVAL_NANOS <= now,
    ensures
        pli_due(Some(sent), now),
{
}

} // verus!
