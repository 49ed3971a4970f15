//! One port: detection of the device behind a chip-select line, and recovery
//! by re-detection after any driver error.
use vstd::prelude::*;
use crate::mlx90363::{Mlx90363, MlxError, MlxReply, MlxWriteSequence, NOP_CHALLENGE};
use crate::mlx_downstream::{driver_step, fresh_driver, request_of, MlxDownstream};
use crate::negicon_event::NegiconEvent;
use crate::spi_protocol::{
    exchange_result, is_nop_reply_opcode, nop_confirms, nop_of, nop_request_bytes, stamped,
    verified_receive, NopMessage, NOP_REPLY_OPCODE_MLX,
};

verus! {

/// Why a port poll failed.
#[derive(PartialEq, Eq, Structural, Clone, Copy, Debug)]
pub enum DownstreamError {
    /// The device answered detection with an unknown class opcode.
    UnknownDevice(u8),
    MlxError(MlxError),
    UnexpectedReply(MlxReply),
    /// A memory write was addressed to a port with no detected device.
    NotReady,
}

/// What stands behind a port.
#[derive(PartialEq, Eq, Structural, Clone, Copy, Debug)]
pub enum DownstreamState {
    Uninitialized,
    Initialized(MlxDownstream),
}

/// One port. Its chip-select line is held by the caller, which performs the
/// exchange of `request` and hands the outcome to `poll`.
#[derive(PartialEq, Eq, Structural, Clone, Copy, Debug)]
pub struct SpiDownstream {
    pub device: DownstreamState,
}

/// The detection challenge frame.
pub open spec fn detect_request() -> Seq<u8> {
    stamped(nop_request_bytes(NopMessage { challenge: NOP_CHALLENGE, opcode: 0xD0, inv: !NOP_CHALLENGE }))
}

/// Detection from one NOP exchange: no answer or a wrong echo leaves the port
/// empty without error; an unknown class opcode is an error; an MLX90363 gets a
/// fresh driver; the other known classes are accepted without one.
pub open spec fn detect_step(received: Result<[u8; 8], ()>) -> (DownstreamState, Result<
    Option<NegiconEvent>,
    DownstreamError,
>) {
    match exchange_result(received) {
        Err(_) => (DownstreamState::Uninitialized, Ok(None)),
        Ok(buf) => {
            let op = buf@[6];
            if !is_nop_reply_opcode(op) {
                (DownstreamState::Uninitialized, Err(DownstreamError::UnknownDevice(op)))
            } else if !nop_confirms(nop_of(buf@), NOP_CHALLENGE) {
                (DownstreamState::Uninitialized, Ok(None))
            } else if op == NOP_REPLY_OPCODE_MLX {
                (DownstreamState::Initialized(fresh_driver()), Ok(None))
            } else {
                (DownstreamState::Uninitialized, Ok(None))
            }
        },
    }
}

/// One poll of a port: detection while empty; otherwise the driver's poll, where
/// any driver error discards the driver and reports no event.
pub open spec fn port_step(s: DownstreamState, received: Result<[u8; 8], ()>) -> (DownstreamState, Result<
    Option<NegiconEvent>,
    DownstreamError,
>) {
    match s {
        DownstreamState::Uninitialized => detect_step(received),
        DownstreamState::Initialized(d) => {
            let (d2, r) = driver_step(d, received);
            match r {
                Ok(ev) => (DownstreamState::Initialized(d2), Ok(ev)),
                Err(_) => (DownstreamState::Uninitialized, Ok(None)),
            }
        },
    }
}

/// The frame that a port's next poll exchanges.
pub open spec fn port_request(s: DownstreamState) -> Seq<u8> {
    match s {
        DownstreamState::Uninitialized => detect_request(),
        DownstreamState::Initialized(d) => request_of(d),
    }
}

impl SpiDownstream {
    pub open spec fn wf(self) -> bool {
        match self.device {
            DownstreamState::Initialized(d) => d.wf(),
            DownstreamState::Uninitialized => true,
        }
    }

    pub fn new() -> (r: Self)
        ensures
            r.device == DownstreamState::Uninitialized,
            r.wf(),
    {
        Self { device: DownstreamState::Uninitialized }
    }

    /// The frame to exchange on this port's line in the coming poll.
    pub fn request(&self) -> (r: [u8; 8])
        ensures
            r@ == port_request(self.device),
    {
        match &self.device {
            DownstreamState::Uninitialized => Mlx90363::nop(NOP_CHALLENGE),
            DownstreamState::Initialized(dev) => dev.next_request(),
        }
    }

    /// One poll, given the outcome of exchanging `request`.
    pub fn poll(&mut self, received: Result<[u8; 8], ()>) -> (r: Result<Option<NegiconEvent>, DownstreamError>)
        requires
            old(self).wf(),
        ensures
            (final(self).device, r) == port_step(old(self).device, received),
            final(self).wf(),
    {
        match self.device {
            DownstreamState::Uninitialized => self.detect(received),
            DownstreamState::Initialized(dev) => {
                let mut d = dev;
                match d.poll(received) {
                    Ok(event) => {
                        self.device = DownstreamState::Initialized(d);
                        Ok(event)
                    },
                    Err(_) => {
                        self.device = DownstreamState::Uninitialized;
                        Ok(None)
                    },
                }
            },
        }
    }

    /// Starts a memory write on this port's device: the event's sequence byte is
    /// the address, its value the data. A port with no device refuses.
    pub fn write_memory(&self, write_event: &NegiconEvent) -> (r: Result<MlxWriteSequence, DownstreamError>)
        ensures
            self.device is Uninitialized ==> r == Err::<MlxWriteSequence, DownstreamError>(DownstreamError::NotReady),
            self.device is Initialized ==> r == Ok::<MlxWriteSequence, DownstreamError>(
                MlxWriteSequence::new_spec(write_event.sequence, write_event.value),
            ),
    {
        match &self.device {
            DownstreamState::Uninitialized => Err(DownstreamError::NotReady),
            DownstreamState::Initialized(_) => Ok(MlxWriteSequence::new(write_event.sequence, write_event.value)),
        }
    }

    fn detect(&mut self, received: Result<[u8; 8], ()>) -> (r: Result<Option<NegiconEvent>, DownstreamError>)
        requires
            old(self).device is Uninitialized,
        ensures
            (final(self).device, r) == detect_step(received),
            final(self).wf(),
    {
        let buf = match verified_receive(received) {
            Ok(buf) => buf,
            Err(_) => return Ok(None),
        };
        let nop = match NopMessage::deserialize(&buf) {
            Ok(nop) => nop,
            Err(_) => return Err(DownstreamError::UnknownDevice(buf[6])),
        };
        match nop.verify(NOP_CHALLENGE) {
            Ok(()) => {},
            Err(_) => return Ok(None),
        }
        if nop.opcode == NOP_REPLY_OPCODE_MLX {
            self.device = DownstreamState::Initialized(MlxDownstream::new());
        }
        Ok(None)
    }
}

/// A transport failure while a driver runs sends the port back to detection
/// with no event; and no poll of an empty port yields an event or a driver
/// other than a fresh one, which only a confirmed MLX90363 answer gives.
pub proof fn lemma_port_recovery(d: MlxDownstream, failed: Result<[u8; 8], ()>, next: Result<[u8; 8], ()>)
    requires
        d.wf(),
        exchange_result(failed) is Err,
    ensures
        port_step(DownstreamState::Initialized(d), failed) == (DownstreamState::Uninitialized, Ok::<
            Option<NegiconEvent>,
            DownstreamError,
        >(None)),
        !(port_step(DownstreamState::Uninitialized, next).1 matches Ok(Some(_))),
        port_step(DownstreamState::Uninitialized, next).0 is Initialized ==> {
            &&& exchange_result(next) is Ok
            &&& exchange_result(next)->Ok_0@[6] == NOP_REPLY_OPCODE_MLX
            &&& nop_confirms(nop_of(exchange_result(next)->Ok_0@), NOP_CHALLENGE)
            &&& port_step(DownstreamState::Uninitialized, next).0 == DownstreamState::Initialized(fresh_driver())
        },
{
}

} // verus!
