use vstd::prelude::*;
use crate::quality::{quality_of_rid, unknown_quality_message, Error, StreamQuality};
use std::collections::HashMap;

verus! {

broadcast use vstd::std_specs::hash::group_hash_axioms;

/// The layer of a simulcast encoding, named by its RID; an encoding without
/// a RID is the high layer.
pub fn layer_quality(rid: Option<&str>) -> (r: Result<StreamQuality, Error>)
    ensures
        ({
            let name = match rid {
                Some(s) => s@,
                None => "high"@,
            };
            &&& quality_of_rid(name) matches Some(q) ==> r == Ok::<StreamQuality, Error>(q)
            &&& quality_of_rid(name) is None ==> (r matches Err(Error::SystemError { message })
                && message@ == unknown_quality_message())
        }),
{
    let name = match rid {
        Some(s) => s,
        None => "high",
    };
    StreamQuality::from_str(name)
}

/// The layers of a simulcast video track, by the SSRC of their encoding.
pub struct SimulcastLayers {
    pub layers: HashMap<u32, u64>,
}

impl SimulcastLayers {
    pub fn new() -> (s: SimulcastLayers)
        ensures
            s.layers@ == Map::<u32, u64>::empty(),
    {
        SimulcastLayers { layers: HashMap::new() }
    }

    /// Records the packet channel `channel` of the encoding `ssrc`.
    pub fn add_layer(&mut self, ssrc: u32, channel: u64)
        ensures
            final(self).layers@ == old(self).layers@.insert(ssrc, channel),
    {
        let _ = self.layers.insert(ssrc, channel);
    }

    /// The channel a packet of the encoding `ssrc` goes to; packets of
    /// encodings not seen yet are dropped.
    pub fn route(&self, ssrc: u32) -> (channel: Option<u64>)
        ensures
            channel == (if self.layers@.contains_key(ssrc) {
                Some(self.layers@[ssrc])
            } else {
                None::<u64>
            }),
    {
        match self.layers.get(&ssrc) {
            Some(c) => Some(*c),
            None => None,
        }
    }
}

/// What the layer pump received while waiting for a packet.
#[derive(Debug, PartialEq, Eq, Clone, Copy, Structural)]
pub enum Received {
    Packet,
    /// The packet channel closed.
    Closed,
    /// Nothing came within the timeout.
    TimedOut,
}

/// What the layer pump does next.
#[derive(Debug, PartialEq, Eq, Clone, Copy, Structural)]
pub enum PumpStep {
    /// Pass the packet to the router.
    Forward,
    /// Tell the router that the layer timed out.
    Timeout,
    /// Wait again.
    Continue,
    /// Stop pumping.
    Stop,
}

/// One step of the timeout gate: the state after `received` (whether the
/// layer is already reported silent) and what to do.
pub open spec fn timeout_step(in_timeout: bool, received: Received) -> (bool, PumpStep) {
    match received {
        Received::Packet => (false, PumpStep::Forward),
        Received::Closed => (in_timeout, PumpStep::Stop),
        Received::TimedOut => if in_timeout {
            (true, PumpStep::Continue)
        } else {
            (true, PumpStep::Timeout)
        },
    }
}

/// Reports a silent layer once: a timeout is passed on only after a packet,
/// or at the start; further timeouts are ignored until packets flow again.
pub struct TimeoutGate {
    pub is_already_in_timeout: bool,
}

impl TimeoutGate {
    pub fn new() -> (g: TimeoutGate)
        ensures
            !g.is_already_in_timeout,
    {
        TimeoutGate { is_already_in_timeout: false }
    }

    pub fn on_receive(&mut self, received: Received) -> (step: PumpStep)
        ensures
            (final(self).is_already_in_timeout, step) == timeout_step(old(self).is_already_in_timeout, received),
    {
        match received {
            Received::Packet => {
                self.is_already_in_timeout = false;
                PumpStep::Forward
            },
            Received::Closed => PumpStep::Stop,
            Received::TimedOut => {
                if self.is_already_in_timeout {
                    PumpStep::Continue
                } else {
                    self.is_already_in_timeout = true;
                    PumpStep::Timeout
                }
            },
        }
    }
}

/// However long a layer stays silent, the router hears of it at most once:
/// of two timeouts in a row the second is never reported, and after a packet
/// the first one is.
pub proof fn law_one_timeout_report(in_timeout: bool)
    ensures
        timeout_step(timeout_step(in_timeout, Received::TimedOut).0, Received::TimedOut).1 == PumpStep::Continue,
        timeout_step(timeout_step(in_timeout, Received::Packet).0, Received::TimedOut).1 == PumpStep::Timeout,
{
}

} // verus!
