use vstd::prelude::*;

verus! {

/// What the mapper of an input stream makes of one item: a message for the
/// actor, nothing, or the end of the stream.
#[derive(Debug, PartialEq, Eq)]
pub enum StreamItem<T> {
    Next(T),
    Skip,
    Close,
}

/// What the pump of an input stream does with a mapped item.
#[derive(Debug, PartialEq, Eq)]
pub enum PumpDecision<T> {
    /// Send the message to the actor; stop pumping if the actor is gone.
    Send(T),
    /// Take the next item.
    Skip,
    /// Stop pumping.
    Stop,
}

/// Feeds a mapped stream item to the actor's mailbox.
pub fn pump_step<T>(item: StreamItem<T>) -> (d: PumpDecision<T>)
    ensures
        match item {
            StreamItem::Next(m) => d == PumpDecision::Send(m),
            StreamItem::Skip => d is Skip,
            StreamItem::Close => d is Stop,
        },
{
    match item {
        StreamItem::Next(m) => PumpDecision::Send(m),
        StreamItem::Skip => PumpDecision::Skip,
        StreamItem::Close => PumpDecision::Stop,
    }
}

/// The stop flag of an actor's mailbox: once an actor asks to stop, it
/// handles no further message.
pub struct Mailbox {
    pub should_stop: bool,
}

impl Mailbox {
    pub fn new() -> (m: Mailbox)
        ensures
            !m.should_stop,
    {
        Mailbox { should_stop: false }
    }

    /// The actor asks to stop.
    pub fn stop(&mut self)
        ensures
            final(self).should_stop,
    {
        self.should_stop = true;
    }

    /// Whether the next message is handled, after the previous one was.
    pub fn keep_running(&self) -> (r: bool)
        ensures
            r == !self.should_stop,
    {
        !self.should_stop
    }
}

} // verus!
