//! Controller events and their fixed 8-byte wire form.
use vstd::prelude::*;
use crate::util::{bits_of_i16, hi_byte, high_byte, i16_bits, i16_of, lo_byte, low_byte, make_i16, make_u16, u16_of};

verus! {

#[derive(PartialEq, Eq, Structural, Clone, Copy, Debug)]
pub enum NegiconEventType {
    Input,
    Output,
    MemWrite,
    Reboot,
}

/// The wire code of an event type.
pub open spec fn event_type_code(t: NegiconEventType) -> u8 {
    match t {
        NegiconEventType::Input => 0,
        NegiconEventType::Output => 1,
        NegiconEventType::MemWrite => 2,
        NegiconEventType::Reboot => 3,
    }
}

pub open spec fn event_type_of(n: u8) -> NegiconEventType {
    if n == 0 {
        NegiconEventType::Input
    } else if n == 1 {
        NegiconEventType::Output
    } else if n == 2 {
        NegiconEventType::MemWrite
    } else {
        NegiconEventType::Reboot
    }
}

impl NegiconEventType {
    pub fn code(&self) -> (r: u8)
        ensures
            r == event_type_code(*self),
    {
        match self {
            Self::Input => 0,
            Self::Output => 1,
            Self::MemWrite => 2,
            Self::Reboot => 3,
        }
    }
}

/// Why a received report is not an event.
#[derive(PartialEq, Eq, Structural, Clone, Copy, Debug)]
pub enum EventError {
    /// Byte 0 names no event type.
    UnknownEventType(u8),
}

/// An event: type, target id, signed value, controller id, sequence number.
#[derive(PartialEq, Eq, Structural, Clone, Copy, Debug)]
pub struct NegiconEvent {
    pub event_type: NegiconEventType,
    pub id: u16,
    pub value: i16,
    pub controller_id: u8,
    pub sequence: u8,
}

/// The wire form: type, id and value big-endian, controller id, sequence, zero.
pub open spec fn event_bytes(e: NegiconEvent) -> Seq<u8> {
    seq![
        event_type_code(e.event_type),
        hi_byte(e.id),
        lo_byte(e.id),
        hi_byte(bits_of_i16(e.value)),
        lo_byte(bits_of_i16(e.value)),
        e.controller_id,
        e.sequence,
        0u8,
    ]
}

/// The event that a report holds, when byte 0 names an event type.
pub open spec fn event_of(d: Seq<u8>) -> NegiconEvent {
    NegiconEvent {
        event_type: event_type_of(d[0]),
        id: u16_of(d[1], d[2]),
        value: i16_of(d[3], d[4]),
        controller_id: d[5],
        sequence: d[6],
    }
}

impl NegiconEvent {
    pub fn new(event_type: NegiconEventType, id: u16, value: i16, controller_id: u8, sequence: u8) -> (r: Self)
        ensures
            r == (NegiconEvent { event_type, id, value, controller_id, sequence }),
    {
        NegiconEvent { event_type, id, value, controller_id, sequence }
    }

    pub fn serialize(&self) -> (r: [u8; 8])
        ensures
            r@ == event_bytes(*self),
    {
        let bits = i16_bits(self.value);
        let r = [
            self.event_type.code(),
            high_byte(self.id),
            low_byte(self.id),
            high_byte(bits),
            low_byte(bits),
            self.controller_id,
            self.sequence,
            0u8,
        ];
        assert(r@ =~= event_bytes(*self));
        r
    }

    /// Reads a report; a type code above 3 is refused.
    pub fn deserialize(data: [u8; 8]) -> (r: Result<Self, EventError>)
        ensures
            data@[0] < 4 ==> r == Ok::<NegiconEvent, EventError>(event_of(data@)),
            data@[0] >= 4 ==> r == Err::<NegiconEvent, EventError>(EventError::UnknownEventType(data@[0])),
    {
        let event_type = match data[0] {
            0 => NegiconEventType::Input,
            1 => NegiconEventType::Output,
            2 => NegiconEventType::MemWrite,
            3 => NegiconEventType::Reboot,
            _ => return Err(EventError::UnknownEventType(data[0])),
        };
        Ok(NegiconEvent {
            event_type,
            id: make_u16(data[1], data[2]),
            value: make_i16(data[3], data[4]),
            controller_id: data[5],
            sequence: data[6],
        })
    }
}

/// Reading back the wire form of an event gives the same event.
pub proof fn lemma_event_round_trip(e: NegiconEvent)
    ensures
        event_bytes(e)[0] < 4,
        event_of(event_bytes(e)) == e,
{
    let b = bits_of_i16(e.value);
    assert(u16_of(hi_byte(e.id), lo_byte(e.id)) == e.id);
    assert(hi_byte(b) as int * 256 + lo_byte(b) as int == b as int);
}

} // verus!
