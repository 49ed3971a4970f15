//! Outbound delivery through the bounded queue, and routing of host reports.
use vstd::prelude::*;
use crate::negicon_event::{event_bytes, event_of, EventError, NegiconEvent, NegiconEventType};
use crate::ringbuf::{RingBuffer, BUFFER_SIZE};

verus! {

/// What a sink reports for one send.
#[derive(PartialEq, Eq, Structural, Clone, Copy, Debug)]
pub enum SinkError {
    /// The sink cannot take the item now; it may later.
    WouldBlock,
    /// The send failed for good.
    Failed,
}

#[derive(PartialEq, Eq, Structural, Clone, Copy, Debug)]
pub enum UpstreamError {
    /// The queue was full: its oldest event was dropped to make room.
    Overflow,
    /// The sink would block; the event stays at the head of the queue.
    WouldBlock,
    /// The sink failed; the event was dropped.
    SinkFailure,
}

/// The outbound queue of serialized events and its dispatch toward a sink.
pub struct Upstream {
    buffer: RingBuffer<[u8; 8]>,
    dropped: u32,
}

impl Upstream {
    /// Events evicted by overflow so far, saturating.
    pub closed spec fn dropped_spec(&self) -> u32 {
        self.dropped
    }

    /// The serialized events waiting, oldest first.
    pub closed spec fn view(&self) -> Seq<Seq<u8>> {
        self.buffer@.map_values(|b: [u8; 8]| b@)
    }

    pub closed spec fn wf(&self) -> bool {
        self.buffer.wf()
    }

    pub fn new() -> (r: Self)
        ensures
            r.wf(),
            r@ == Seq::<Seq<u8>>::empty(),
            r.dropped_spec() == 0,
    {
        let r = Self { buffer: RingBuffer::new(), dropped: 0 };
        assert(r@ =~= Seq::<Seq<u8>>::empty());
        r
    }

    /// Queues the wire form of an event. A full queue evicts its oldest event
    /// to make room, counts it, and reports the overflow.
    pub fn enqueue(&mut self, event: NegiconEvent) -> (r: Result<(), UpstreamError>)
        requires
            old(self).wf(),
        ensures
            final(self).wf(),
            old(self)@.len() < 100 ==> r is Ok && final(self)@ == old(self)@.push(event_bytes(event))
                && final(self).dropped_spec() == old(self).dropped_spec(),
            old(self)@.len() >= 100 ==> r == Err::<(), UpstreamError>(UpstreamError::Overflow)
                && final(self)@ == old(self)@.drop_first().push(event_bytes(event))
                && final(self).dropped_spec() == (if old(self).dropped_spec() == u32::MAX {
                    u32::MAX
                } else {
                    (old(self).dropped_spec() + 1) as u32
                }),
    {
        let bytes = event.serialize();
        let overflow = self.buffer.len() >= BUFFER_SIZE;
        if overflow {
            self.buffer.discard();
            self.dropped = self.dropped.saturating_add(1);
        }
        let ghost mid = self.buffer@;
        let res = self.buffer.push(bytes);
        assert(self.buffer@ == mid.push(bytes));
        assert(self@ =~= mid.map_values(|b: [u8; 8]| b@).push(event_bytes(event)));
        if overflow {
            assert(mid.map_values(|b: [u8; 8]| b@) =~= old(self)@.drop_first());
            Err(UpstreamError::Overflow)
        } else {
            assert(mid.map_values(|b: [u8; 8]| b@) =~= old(self)@);
            Ok(())
        }
    }

    /// How many events overflow has evicted, saturating at `u32::MAX`.
    pub fn dropped(&self) -> (r: u32)
        ensures
            r == self.dropped_spec(),
    {
        self.dropped
    }

    /// The event to hand to the sink in this tick: the oldest one.
    pub fn outgoing(&self) -> (r: Option<[u8; 8]>)
        requires
            self.wf(),
        ensures
            self@.len() > 0 ==> r is Some && r->Some_0@ == self@[0],
            self@.len() == 0 ==> r is None,
    {
        self.buffer.peek()
    }

    /// Settles the head of the queue with what the sink reported for it: sent
    /// or failed drops it, would-block keeps it for the next tick.
    pub fn send(&mut self, outcome: Result<(), SinkError>) -> (r: Result<(), UpstreamError>)
        requires
            old(self).wf(),
        ensures
            final(self).wf(),
            old(self)@.len() == 0 ==> r is Ok && final(self)@ == old(self)@,
            old(self)@.len() > 0 ==> match outcome {
                Ok(()) => r is Ok && final(self)@ == old(self)@.drop_first(),
                Err(SinkError::WouldBlock) => r == Err::<(), UpstreamError>(UpstreamError::WouldBlock)
                    && final(self)@ == old(self)@,
                Err(SinkError::Failed) => r == Err::<(), UpstreamError>(UpstreamError::SinkFailure)
                    && final(self)@ == old(self)@.drop_first(),
            },
    {
        if self.buffer.len() == 0 {
            return Ok(());
        }
        match outcome {
            Ok(()) => {
                self.buffer.discard();
                assert(self@ =~= old(self)@.drop_first());
                Ok(())
            },
            Err(SinkError::WouldBlock) => Err(UpstreamError::WouldBlock),
            Err(SinkError::Failed) => {
                self.buffer.discard();
                assert(self@ =~= old(self)@.drop_first());
                Err(UpstreamError::SinkFailure)
            },
        }
    }

    pub fn len(&self) -> (r: usize)
        requires
            self.wf(),
        ensures
            r == self@.len(),
    {
        self.buffer.len()
    }
}

/// What a host report asks of the device.
#[derive(PartialEq, Eq, Structural, Clone, Copy, Debug)]
pub enum Command {
    /// A memory write on the port numbered by the event's id.
    MemWrite(NegiconEvent),
    Reboot,
}

#[derive(PartialEq, Eq, Structural, Clone, Copy, Debug)]
pub enum RouteError {
    Malformed(EventError),
    /// Input and output events from the host are not supported.
    Unsupported(NegiconEventType),
}

/// The command that a report carries.
pub open spec fn route_of(d: Seq<u8>) -> Result<Command, RouteError> {
    if d[0] >= 4 {
        Err(RouteError::Malformed(EventError::UnknownEventType(d[0])))
    } else {
        let e = event_of(d);
        match e.event_type {
            NegiconEventType::MemWrite => Ok(Command::MemWrite(e)),
            NegiconEventType::Reboot => Ok(Command::Reboot),
            t => Err(RouteError::Unsupported(t)),
        }
    }
}

/// Decodes a host report and routes it.
pub fn route_report(report: [u8; 8]) -> (r: Result<Command, RouteError>)
    ensures
        r == route_of(report@),
{
    match NegiconEvent::deserialize(report) {
        Ok(event) => match event.event_type {
            NegiconEventType::MemWrite => Ok(Command::MemWrite(event)),
            NegiconEventType::Reboot => Ok(Command::Reboot),
            t => Err(RouteError::Unsupported(t)),
        },
        Err(e) => Err(RouteError::Malformed(e)),
    }
}

} // verus!
