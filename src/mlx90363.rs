//! Request encoders and reply decoder of the MLX90363 rotary-position sensor,
//! and the authenticated memory-write sequence.
use vstd::prelude::*;
use crate::spi_protocol::{
    exchange_result, stamped, nop_request_bytes, nop_of, stamp, verified_receive, NopError, NopMessage,
    SpiError,
};
use crate::util::{hi_byte, lo_byte, u16_of, high_byte, low_byte, make_u16, i16_bits, bits_of_i16};

verus! {

/// Status code reported at the end of a memory write.
#[derive(PartialEq, Eq, Structural, Clone, Copy, Debug)]
pub enum MlxMemWriteStatus {
    Success,
    EraseWriteFail,
    EepromCrcEraseWriteFail,
    KeyInvalid,
    ChallengeFail,
    OddAddress,
}

/// The codes that name a memory-write status.
pub open spec fn is_write_status_code(n: u8) -> bool {
    n == 1 || n == 2 || n == 4 || n == 6 || n == 7 || n == 8
}

/// The status that a valid code names.
pub open spec fn write_status_of(n: u8) -> MlxMemWriteStatus {
    if n == 1 {
        MlxMemWriteStatus::Success
    } else if n == 2 {
        MlxMemWriteStatus::EraseWriteFail
    } else if n == 4 {
        MlxMemWriteStatus::EepromCrcEraseWriteFail
    } else if n == 6 {
        MlxMemWriteStatus::KeyInvalid
    } else if n == 7 {
        MlxMemWriteStatus::ChallengeFail
    } else {
        MlxMemWriteStatus::OddAddress
    }
}

impl MlxMemWriteStatus {
    pub fn from_number(number: u8) -> (r: Self)
        requires
            is_write_status_code(number),
        ensures
            r == write_status_of(number),
    {
        match number {
            1 => Self::Success,
            2 => Self::EraseWriteFail,
            4 => Self::EepromCrcEraseWriteFail,
            6 => Self::KeyInvalid,
            7 => Self::ChallengeFail,
            _ => Self::OddAddress,
        }
    }
}

/// The 6-bit opcodes of the sensor protocol.
#[derive(PartialEq, Eq, Structural, Clone, Copy, Debug)]
pub enum MlxOpcode {
    GET1,
    GET2,
    GET3,
    Get3Ready,
    MemoryRead,
    MemoryReadAnswer,
    EEWrite,
    EEWriteChallenge,
    EEChallengeAns,
    EEReadAnswer,
    EEReadChallenge,
    EEWriteStatus,
    NOPChallenge,
    ChallengeNOPMISOPacket,
    DiagnosticDetails,
    DiagnosticsAnswer,
    OscCounterStart,
    OscCounterStartAcknowledge,
    OscCounterStop,
    OscCounterStopAckCounterValue,
    Reboot,
    Standby,
    StandbyAck,
    ErrorFrame,
    NothingToTransmit,
    ReadyMessage,
    NotAnOpcode,
}

/// The wire code of each opcode.
pub open spec fn opcode_code(op: MlxOpcode) -> u8 {
    match op {
        MlxOpcode::GET1 => 0x13,
        MlxOpcode::GET2 => 0x14,
        MlxOpcode::GET3 => 0x15,
        MlxOpcode::Get3Ready => 0x2D,
        MlxOpcode::MemoryRead => 0x01,
        MlxOpcode::MemoryReadAnswer => 0x02,
        MlxOpcode::EEWrite => 0x03,
        MlxOpcode::EEWriteChallenge => 0x04,
        MlxOpcode::EEChallengeAns => 0x05,
        MlxOpcode::EEReadAnswer => 0x28,
        MlxOpcode::EEReadChallenge => 0x0F,
        MlxOpcode::EEWriteStatus => 0x0E,
        MlxOpcode::NOPChallenge => 0x10,
        MlxOpcode::ChallengeNOPMISOPacket => 0x11,
        MlxOpcode::DiagnosticDetails => 0x16,
        MlxOpcode::DiagnosticsAnswer => 0x17,
        MlxOpcode::OscCounterStart => 0x18,
        MlxOpcode::OscCounterStartAcknowledge => 0x19,
        MlxOpcode::OscCounterStop => 0x1A,
        MlxOpcode::OscCounterStopAckCounterValue => 0x1B,
        MlxOpcode::Reboot => 0x2F,
        MlxOpcode::Standby => 0x31,
        MlxOpcode::StandbyAck => 0x32,
        MlxOpcode::ErrorFrame => 0x3D,
        MlxOpcode::NothingToTransmit => 0x3E,
        MlxOpcode::ReadyMessage => 0x2C,
        MlxOpcode::NotAnOpcode => 0xFF,
    }
}

/// The opcode a code names; a code that names none reads as `NotAnOpcode`.
pub open spec fn opcode_of(n: u8) -> MlxOpcode {
    if n == 0x13 {
        MlxOpcode::GET1
    } else if n == 0x14 {
        MlxOpcode::GET2
    } else if n == 0x15 {
        MlxOpcode::GET3
    } else if n == 0x2D {
        MlxOpcode::Get3Ready
    } else if n == 0x01 {
        MlxOpcode::MemoryRead
    } else if n == 0x02 {
        MlxOpcode::MemoryReadAnswer
    } else if n == 0x03 {
        MlxOpcode::EEWrite
    } else if n == 0x04 {
        MlxOpcode::EEWriteChallenge
    } else if n == 0x05 {
        MlxOpcode::EEChallengeAns
    } else if n == 0x28 {
        MlxOpcode::EEReadAnswer
    } else if n == 0x0F {
        MlxOpcode::EEReadChallenge
    } else if n == 0x0E {
        MlxOpcode::EEWriteStatus
    } else if n == 0x10 {
        MlxOpcode::NOPChallenge
    } else if n == 0x11 {
        MlxOpcode::ChallengeNOPMISOPacket
    } else if n == 0x16 {
        MlxOpcode::DiagnosticDetails
    } else if n == 0x17 {
        MlxOpcode::DiagnosticsAnswer
    } else if n == 0x18 {
        MlxOpcode::OscCounterStart
    } else if n == 0x19 {
        MlxOpcode::OscCounterStartAcknowledge
    } else if n == 0x1A {
        MlxOpcode::OscCounterStop
    } else if n == 0x1B {
        MlxOpcode::OscCounterStopAckCounterValue
    } else if n == 0x2F {
        MlxOpcode::Reboot
    } else if n == 0x31 {
        MlxOpcode::Standby
    } else if n == 0x32 {
        MlxOpcode::StandbyAck
    } else if n == 0x3D {
        MlxOpcode::ErrorFrame
    } else if n == 0x3E {
        MlxOpcode::NothingToTransmit
    } else if n == 0x2C {
        MlxOpcode::ReadyMessage
    } else {
        MlxOpcode::NotAnOpcode
    }
}

impl MlxOpcode {
    pub fn from_number(number: u8) -> (r: Self)
        ensures
            r == opcode_of(number),
    {
        match number {
            0x13u8 => Self::GET1,
            0x14u8 => Self::GET2,
            0x15u8 => Self::GET3,
            0x2Du8 => Self::Get3Ready,
            0x01u8 => Self::MemoryRead,
            0x02u8 => Self::MemoryReadAnswer,
            0x03u8 => Self::EEWrite,
            0x04u8 => Self::EEWriteChallenge,
            0x05u8 => Self::EEChallengeAns,
            0x28u8 => Self::EEReadAnswer,
            0x0Fu8 => Self::EEReadChallenge,
            0x0Eu8 => Self::EEWriteStatus,
            0x10u8 => Self::NOPChallenge,
            0x11u8 => Self::ChallengeNOPMISOPacket,
            0x16u8 => Self::DiagnosticDetails,
            0x17u8 => Self::DiagnosticsAnswer,
            0x18u8 => Self::OscCounterStart,
            0x19u8 => Self::OscCounterStartAcknowledge,
            0x1Au8 => Self::OscCounterStop,
            0x1Bu8 => Self::OscCounterStopAckCounterValue,
            0x2Fu8 => Self::Reboot,
            0x31u8 => Self::Standby,
            0x32u8 => Self::StandbyAck,
            0x3Du8 => Self::ErrorFrame,
            0x3Eu8 => Self::NothingToTransmit,
            0x2Cu8 => Self::ReadyMessage,
            _ => Self::NotAnOpcode,
        }
    }

    /// The wire code of this opcode.
    pub fn code(&self) -> (r: u8)
        ensures
            r == opcode_code(*self),
    {
        match self {
            Self::GET1 => 0x13,
            Self::GET2 => 0x14,
            Self::GET3 => 0x15,
            Self::Get3Ready => 0x2D,
            Self::MemoryRead => 0x01,
            Self::MemoryReadAnswer => 0x02,
            Self::EEWrite => 0x03,
            Self::EEWriteChallenge => 0x04,
            Self::EEChallengeAns => 0x05,
            Self::EEReadAnswer => 0x28,
            Self::EEReadChallenge => 0x0F,
            Self::EEWriteStatus => 0x0E,
            Self::NOPChallenge => 0x10,
            Self::ChallengeNOPMISOPacket => 0x11,
            Self::DiagnosticDetails => 0x16,
            Self::DiagnosticsAnswer => 0x17,
            Self::OscCounterStart => 0x18,
            Self::OscCounterStartAcknowledge => 0x19,
            Self::OscCounterStop => 0x1A,
            Self::OscCounterStopAckCounterValue => 0x1B,
            Self::Reboot => 0x2F,
            Self::Standby => 0x31,
            Self::StandbyAck => 0x32,
            Self::ErrorFrame => 0x3D,
            Self::NothingToTransmit => 0x3E,
            Self::ReadyMessage => 0x2C,
            Self::NotAnOpcode => 0xFF,
        }
    }
}

/// Diagnostic status carried in the top two bits of byte 1 of an angle reply.
#[derive(PartialEq, Eq, Structural, Clone, Copy, Debug)]
pub enum MlxDiagnosticStatus {
    Pending,
    Fail,
    Pass,
    NewCycle,
}

pub open spec fn diagnostic_of(n: u8) -> MlxDiagnosticStatus {
    if n == 0 {
        MlxDiagnosticStatus::Pending
    } else if n == 1 {
        MlxDiagnosticStatus::Fail
    } else if n == 2 {
        MlxDiagnosticStatus::Pass
    } else {
        MlxDiagnosticStatus::NewCycle
    }
}

impl MlxDiagnosticStatus {
    pub fn from_number(number: u8) -> (r: Self)
        requires
            number < 4,
        ensures
            r == diagnostic_of(number),
    {
        match number {
            0 => Self::Pending,
            1 => Self::Fail,
            2 => Self::Pass,
            _ => Self::NewCycle,
        }
    }
}

/// The 2-bit marker of byte 6: the shape of a reply's payload.
#[derive(PartialEq, Eq, Structural, Clone, Copy, Debug)]
pub enum MlxMarker {
    Alpha,
    AlphaBeta,
    XYZ,
    Irregular,
}

pub open spec fn marker_of(n: u8) -> MlxMarker {
    if n == 0 {
        MlxMarker::Alpha
    } else if n == 1 {
        MlxMarker::AlphaBeta
    } else if n == 2 {
        MlxMarker::XYZ
    } else {
        MlxMarker::Irregular
    }
}

/// The marker's 2-bit value.
pub open spec fn marker_value(m: MlxMarker) -> u8 {
    match m {
        MlxMarker::Alpha => 0,
        MlxMarker::AlphaBeta => 1,
        MlxMarker::XYZ => 2,
        MlxMarker::Irregular => 3,
    }
}

impl MlxMarker {
    pub fn from_number(number: u8) -> (r: Self)
        requires
            number < 4,
        ensures
            r == marker_of(number),
            marker_value(r) == number,
    {
        match number {
            0 => Self::Alpha,
            1 => Self::AlphaBeta,
            2 => Self::XYZ,
            _ => Self::Irregular,
        }
    }

    /// The marker placed in the top two bits of byte 6.
    pub fn to_number(&self) -> (r: u8)
        ensures
            r == marker_value(*self) * 64,
    {
        match self {
            Self::Alpha => 0,
            Self::AlphaBeta => 64,
            Self::XYZ => 128,
            Self::Irregular => 192,
        }
    }
}

/// Error codes that the sensor reports in an error frame.
#[derive(PartialEq, Eq, Structural, Clone, Copy, Debug)]
pub enum DeviceError {
    IncorrectBitCount,
    IncorrectCrc,
    AnswerTimeoutOrNotReady,
    InvalidRequestOpcode,
    Unknown,
}

pub open spec fn device_error_of(n: u8) -> DeviceError {
    if n == 1 {
        DeviceError::IncorrectBitCount
    } else if n == 2 {
        DeviceError::IncorrectCrc
    } else if n == 3 {
        DeviceError::AnswerTimeoutOrNotReady
    } else if n == 4 {
        DeviceError::InvalidRequestOpcode
    } else {
        DeviceError::Unknown
    }
}

impl DeviceError {
    pub fn from_number(number: u8) -> (r: Self)
        ensures
            r == device_error_of(number),
    {
        match number {
            1 => Self::IncorrectBitCount,
            2 => Self::IncorrectCrc,
            3 => Self::AnswerTimeoutOrNotReady,
            4 => Self::InvalidRequestOpcode,
            _ => Self::Unknown,
        }
    }
}

/// Why an exchange with the sensor produced no usable reply.
#[derive(PartialEq, Eq, Structural, Clone, Copy, Debug)]
pub enum MlxError {
    /// The sensor answered with an error frame.
    DeviceError(DeviceError),
    /// The exchange failed on the bus or its checksum did not hold.
    SpiError(SpiError),
    /// The marker/opcode pair, or a code in the payload, is not recognized.
    FormatError,
    NopError(NopError),
}

/// An angle sample: 14-bit angle, diagnostic status, gain byte, frame counter.
#[derive(PartialEq, Eq, Structural, Clone, Copy, Debug)]
pub struct MlxAlpha {
    pub data: u16,
    pub diag: MlxDiagnosticStatus,
    pub vg: u8,
    pub counter: u8,
}

/// The sample carried by an angle reply.
pub open spec fn alpha_of(d: Seq<u8>) -> MlxAlpha {
    MlxAlpha {
        data: (d[0] as int + (d[1] % 64) as int * 256) as u16,
        diag: diagnostic_of(d[1] / 64),
        vg: d[4],
        counter: d[6] % 64,
    }
}

impl MlxAlpha {
    /// Reads an angle reply; any marker but the plain-angle one is refused.
    pub fn from_message(message: &[u8; 8]) -> (r: Result<Self, MlxError>)
        ensures
            message@[6] < 64 ==> r == Ok::<MlxAlpha, MlxError>(alpha_of(message@)),
            message@[6] >= 64 ==> r == Err::<MlxAlpha, MlxError>(MlxError::FormatError),
            r is Ok ==> r->Ok_0.data < 16384 && r->Ok_0.counter < 64,
    {
        if message[6] >= 64 {
            return Err(MlxError::FormatError);
        }
        Ok(Self {
            data: message[0] as u16 + (message[1] % 64) as u16 * 256,
            diag: MlxDiagnosticStatus::from_number(message[1] / 64),
            vg: message[4],
            counter: message[6] % 64,
        })
    }
}

/// Marker and opcode of a frame, read from byte 6.
#[derive(PartialEq, Eq, Structural, Clone, Copy, Debug)]
pub struct MlxFrame {
    pub marker: MlxMarker,
    pub opcode: MlxOpcode,
}

pub open spec fn frame_of(d: Seq<u8>) -> MlxFrame {
    MlxFrame { marker: marker_of(d[6] / 64), opcode: opcode_of(d[6] % 64) }
}

impl MlxFrame {
    pub fn from_message(message: &[u8; 8]) -> (r: Self)
        ensures
            r == frame_of(message@),
    {
        Self {
            marker: MlxMarker::from_number(message[6] / 64),
            opcode: MlxOpcode::from_number(message[6] % 64),
        }
    }
}

/// Firmware and hardware versions from a ready message.
#[derive(PartialEq, Eq, Structural, Clone, Copy, Debug)]
pub struct MlxStatus {
    pub fw_version: u8,
    pub hw_version: u8,
}

/// Byte 6 of a ready message: irregular marker, ready opcode.
pub const READY_MESSAGE_BYTE: u8 = 0xEC;

impl MlxStatus {
    pub fn from_message(message: &[u8; 8]) -> (r: Result<Self, MlxError>)
        ensures
            message@[6] == READY_MESSAGE_BYTE ==> r == Ok::<MlxStatus, MlxError>(
                MlxStatus { fw_version: message@[1], hw_version: message@[0] },
            ),
            message@[6] != READY_MESSAGE_BYTE ==> r == Err::<MlxStatus, MlxError>(MlxError::FormatError),
    {
        let magic = MlxMarker::Irregular.to_number() + MlxOpcode::ReadyMessage.code();
        if message[6] != magic {
            Err(MlxError::FormatError)
        } else {
            Ok(Self { fw_version: message[1], hw_version: message[0] })
        }
    }
}

/// Byte 6 of a request: marker in the top two bits, opcode in the low six.
pub open spec fn control_byte(m: MlxMarker, op: MlxOpcode) -> u8 {
    (marker_value(m) * 64 + opcode_code(op)) as u8
}

/// Angle query: reset flag, 16-bit timeout, marker.
#[derive(PartialEq, Eq, Structural, Clone, Copy, Debug)]
pub struct MlxGET1 {
    pub reset_counter: bool,
    pub timeout: u16,
    pub marker: MlxMarker,
}

impl MlxGET1 {
    /// The unstamped frame of this query.
    pub fn encode(&self) -> (r: [u8; 8])
        ensures
            r@ == seq![
                0u8,
                if self.reset_counter { 1u8 } else { 0u8 },
                lo_byte(self.timeout),
                hi_byte(self.timeout),
                0u8,
                0u8,
                control_byte(self.marker, MlxOpcode::GET1),
                0u8,
            ],
    {
        let data: [u8; 8] = [
            0,
            if self.reset_counter { 1 } else { 0 },
            low_byte(self.timeout),
            high_byte(self.timeout),
            0,
            0,
            self.marker.to_number() + MlxOpcode::GET1.code(),
            0,
        ];
        assert(data@ =~= seq![
            0u8,
            if self.reset_counter { 1u8 } else { 0u8 },
            lo_byte(self.timeout),
            hi_byte(self.timeout),
            0u8,
            0u8,
            control_byte(self.marker, MlxOpcode::GET1),
            0u8,
        ]);
        data
    }
}

/// Memory read of two 16-bit addresses.
#[derive(PartialEq, Eq, Structural, Clone, Copy, Debug)]
pub struct MlxMemReadRequest {
    pub addr0: u16,
    pub addr1: u16,
}

pub open spec fn mem_read_bytes(addr0: u16, addr1: u16) -> Seq<u8> {
    seq![
        lo_byte(addr0),
        hi_byte(addr0),
        lo_byte(addr1),
        hi_byte(addr1),
        0u8,
        0u8,
        control_byte(MlxMarker::Irregular, MlxOpcode::MemoryRead),
        0u8,
    ]
}

impl MlxMemReadRequest {
    pub fn new(addr0: u16, addr1: u16) -> (r: Self)
        ensures
            r == (MlxMemReadRequest { addr0, addr1 }),
    {
        Self { addr0, addr1 }
    }

    /// The unstamped frame of this request.
    pub fn serialize(&self) -> (r: [u8; 8])
        ensures
            r@ == mem_read_bytes(self.addr0, self.addr1),
    {
        let data = [
            low_byte(self.addr0),
            high_byte(self.addr0),
            low_byte(self.addr1),
            high_byte(self.addr1),
            0,
            0,
            MlxMarker::Irregular.to_number() + MlxOpcode::MemoryRead.code(),
            0,
        ];
        assert(data@ =~= mem_read_bytes(self.addr0, self.addr1));
        data
    }
}

/// The per-address write authorization keys.
pub open spec fn mem_write_keys() -> Seq<u16> {
    seq![
        17485u16, 31053, 57190, 57724, 7899, 53543, 26763, 12528, 38105, 51302, 16209, 24847,
        13134, 52339, 14530, 18350, 55636, 64477, 40905, 45498, 24411, 36677, 4213, 48843, 6368,
        5907, 31384, 63325, 3562, 19816, 6995, 3147,
    ]
}

/// The key slot of an address: bits 1 to 5.
pub open spec fn key_index(addr: u8) -> int {
    ((addr % 64) / 2) as int
}

/// The authorization key of a memory address.
pub fn mem_write_key(addr: u8) -> (r: u16)
    ensures
        r == mem_write_keys()[key_index(addr)],
{
    let keys: [u16; 32] = [
        17485, 31053, 57190, 57724, 7899, 53543, 26763, 12528, 38105, 51302, 16209, 24847, 13134,
        52339, 14530, 18350, 55636, 64477, 40905, 45498, 24411, 36677, 4213, 48843, 6368, 5907,
        31384, 63325, 3562, 19816, 6995, 3147,
    ];
    assert(keys@ =~= mem_write_keys());
    keys[((addr % 64) / 2) as usize]
}

/// Memory write: address, data word and the address's key.
#[derive(PartialEq, Eq, Structural, Clone, Copy, Debug)]
pub struct MlxMemWriteRequest {
    pub addr: u8,
    pub data: u16,
}

pub open spec fn mem_write_bytes(addr: u8, data: u16) -> Seq<u8> {
    let key = mem_write_keys()[key_index(addr)];
    seq![
        0u8,
        addr,
        lo_byte(key),
        hi_byte(key),
        lo_byte(data),
        hi_byte(data),
        control_byte(MlxMarker::Irregular, MlxOpcode::EEWrite),
        0u8,
    ]
}

impl MlxMemWriteRequest {
    /// The unstamped frame of this request.
    pub fn serialize(&self) -> (r: [u8; 8])
        ensures
            r@ == mem_write_bytes(self.addr, self.data),
    {
        let key = mem_write_key(self.addr);
        let data = [
            0,
            self.addr,
            low_byte(key),
            high_byte(key),
            low_byte(self.data),
            high_byte(self.data),
            MlxMarker::Irregular.to_number() + MlxOpcode::EEWrite.code(),
            0,
        ];
        assert(data@ =~= mem_write_bytes(self.addr, self.data));
        data
    }
}

/// Request for the write-authorization challenge.
#[derive(PartialEq, Eq, Structural, Clone, Copy, Debug)]
pub struct MlxMemWriteChallengeRequest {}

pub open spec fn challenge_request_bytes() -> Seq<u8> {
    seq![0u8, 0u8, 0u8, 0u8, 0u8, 0u8, control_byte(MlxMarker::Irregular, MlxOpcode::EEReadChallenge), 0u8]
}

impl MlxMemWriteChallengeRequest {
    pub fn serialize(&self) -> (r: [u8; 8])
        ensures
            r@ == challenge_request_bytes(),
    {
        let data = [0, 0, 0, 0, 0, 0, MlxMarker::Irregular.to_number() + MlxOpcode::EEReadChallenge.code(), 0];
        assert(data@ =~= challenge_request_bytes());
        data
    }
}

/// Answer to a write-authorization challenge.
#[derive(PartialEq, Eq, Structural, Clone, Copy, Debug)]
pub struct MlxMemWriteChallengeSolutionRequest {
    pub value: u16,
}

/// The solution bytes: low byte XOR 0x34, high byte XOR 0x12, then the
/// complement of each.
pub open spec fn solution_bytes(value: u16) -> Seq<u8> {
    let lo = lo_byte(value) ^ 0x34u8;
    let hi = hi_byte(value) ^ 0x12u8;
    seq![0u8, 0u8, lo, hi, !lo, !hi, control_byte(MlxMarker::Irregular, MlxOpcode::EEChallengeAns), 0u8]
}

impl MlxMemWriteChallengeSolutionRequest {
    pub fn serialize(&self) -> (r: [u8; 8])
        ensures
            r@ == solution_bytes(self.value),
    {
        let lo = low_byte(self.value) ^ 0x34;
        let hi = high_byte(self.value) ^ 0x12;
        let data = [0, 0, lo, hi, !lo, !hi, MlxMarker::Irregular.to_number() + MlxOpcode::EEChallengeAns.code(), 0];
        assert(data@ =~= solution_bytes(self.value));
        data
    }
}

/// The two words returned by a memory read.
#[derive(PartialEq, Eq, Structural, Clone, Copy, Debug)]
pub struct MlxMemReadResponse {
    pub data0: u16,
    pub data1: u16,
}

pub open spec fn mem_read_response_of(d: Seq<u8>) -> MlxMemReadResponse {
    MlxMemReadResponse { data0: u16_of(d[1], d[0]), data1: u16_of(d[3], d[2]) }
}

impl MlxMemReadResponse {
    pub fn deserialize(data: &[u8; 8]) -> (r: Self)
        ensures
            r == mem_read_response_of(data@),
    {
        Self { data0: make_u16(data[1], data[0]), data1: make_u16(data[3], data[2]) }
    }
}

/// A decoded reply of the sensor.
#[derive(PartialEq, Eq, Structural, Clone, Copy, Debug)]
pub enum MlxReply {
    Nop(NopMessage),
    MlxAlpha(MlxAlpha),
    MlxMemReadResponse(MlxMemReadResponse),
    MlxMemWriteChallengeReply(u16),
    MlxMemWriteReadAnswerReply,
    MlxMemWriteStatusReply(MlxMemWriteStatus),
    /// A ready or nothing-to-transmit message.
    XReply,
}

/// What a frame decodes to, dispatching first on marker, then on opcode.
pub open spec fn reply_of(d: Seq<u8>) -> Result<MlxReply, MlxError> {
    let f = frame_of(d);
    match f.marker {
        MlxMarker::Alpha => Ok(MlxReply::MlxAlpha(alpha_of(d))),
        MlxMarker::Irregular => match f.opcode {
            MlxOpcode::ReadyMessage => Ok(MlxReply::XReply),
            MlxOpcode::NothingToTransmit => Ok(MlxReply::XReply),
            MlxOpcode::ErrorFrame => Err(MlxError::DeviceError(device_error_of(d[0]))),
            MlxOpcode::ChallengeNOPMISOPacket => Ok(MlxReply::Nop(nop_of(d))),
            MlxOpcode::MemoryReadAnswer => Ok(MlxReply::MlxMemReadResponse(mem_read_response_of(d))),
            MlxOpcode::EEWriteChallenge => Ok(MlxReply::MlxMemWriteChallengeReply(u16_of(d[3], d[2]))),
            MlxOpcode::EEReadAnswer => Ok(MlxReply::MlxMemWriteReadAnswerReply),
            MlxOpcode::EEChallengeAns | MlxOpcode::EEWriteStatus => if is_write_status_code(d[0]) {
                Ok(MlxReply::MlxMemWriteStatusReply(write_status_of(d[0])))
            } else {
                Err(MlxError::FormatError)
            },
            _ => Err(MlxError::FormatError),
        },
        _ => Err(MlxError::FormatError),
    }
}

impl MlxReply {
    pub fn deserialize(data: [u8; 8]) -> (r: Result<Self, MlxError>)
        ensures
            r == reply_of(data@),
    {
        let frame = MlxFrame::from_message(&data);
        let opcode = frame.opcode;
        match frame.marker {
            MlxMarker::Alpha => match MlxAlpha::from_message(&data) {
                Ok(a) => Ok(MlxReply::MlxAlpha(a)),
                Err(e) => Err(e),
            },
            MlxMarker::Irregular => match opcode {
                MlxOpcode::ReadyMessage => Ok(MlxReply::XReply),
                MlxOpcode::ErrorFrame => Err(MlxError::DeviceError(DeviceError::from_number(data[0]))),
                MlxOpcode::NothingToTransmit => Ok(MlxReply::XReply),
                MlxOpcode::ChallengeNOPMISOPacket => match NopMessage::deserialize(&data) {
                    Ok(nop) => Ok(MlxReply::Nop(nop)),
                    Err(e) => Err(MlxError::NopError(e)),
                },
                MlxOpcode::MemoryReadAnswer => Ok(
                    MlxReply::MlxMemReadResponse(MlxMemReadResponse::deserialize(&data)),
                ),
                MlxOpcode::EEWriteChallenge => Ok(
                    MlxReply::MlxMemWriteChallengeReply(make_u16(data[3], data[2])),
                ),
                MlxOpcode::EEReadAnswer => Ok(MlxReply::MlxMemWriteReadAnswerReply),
                MlxOpcode::EEChallengeAns | MlxOpcode::EEWriteStatus => {
                    let code = data[0];
                    if code == 1 || code == 2 || code == 4 || code == 6 || code == 7 || code == 8 {
                        Ok(MlxReply::MlxMemWriteStatusReply(MlxMemWriteStatus::from_number(code)))
                    } else {
                        Err(MlxError::FormatError)
                    }
                },
                _ => Err(MlxError::FormatError),
            },
            _ => Err(MlxError::FormatError),
        }
    }
}

/// A bare liveness challenge: the key alone, no complement.
#[derive(PartialEq, Eq, Structural, Clone, Copy, Debug)]
pub struct MlxNopChallenge {
    pub key: u16,
}

impl MlxNopChallenge {
    /// The unstamped frame of this challenge.
    pub fn encode(&self) -> (r: [u8; 8])
        ensures
            r@ == seq![
                0u8,
                0u8,
                lo_byte(self.key),
                hi_byte(self.key),
                0u8,
                0u8,
                control_byte(MlxMarker::Irregular, MlxOpcode::NOPChallenge),
                0u8,
            ],
    {
        let data: [u8; 8] = [
            0,
            0,
            low_byte(self.key),
            high_byte(self.key),
            0,
            0,
            MlxMarker::Irregular.to_number() + MlxOpcode::NOPChallenge.code(),
            0,
        ];
        assert(data@ =~= seq![
            0u8,
            0u8,
            lo_byte(self.key),
            hi_byte(self.key),
            0u8,
            0u8,
            control_byte(MlxMarker::Irregular, MlxOpcode::NOPChallenge),
            0u8,
        ]);
        data
    }
}

/// Checks of a raw NOP answer frame.
pub struct MlxNopResponse {}

/// The verdict on a raw NOP answer: the opcode must be the NOP answer, the echo
/// the challenge, and bytes 4-5 its complement.
pub open spec fn nop_response_check(d: Seq<u8>, challenge: u16) -> Result<(), NopError> {
    if opcode_of(d[6] % 64) != MlxOpcode::ChallengeNOPMISOPacket {
        Err(NopError::InvalidOpcode)
    } else if u16_of(d[3], d[2]) != challenge {
        Err(NopError::InvalidChallenge)
    } else if u16_of(d[5], d[4]) != !challenge {
        Err(NopError::InvalidInverse)
    } else {
        Ok(())
    }
}

impl MlxNopResponse {
    pub fn verify(data: &[u8; 8], challenge: u16) -> (r: Result<(), NopError>)
        ensures
            r == nop_response_check(data@, challenge),
    {
        let frame = MlxFrame::from_message(data);
        let key = make_u16(data[3], data[2]);
        let inverted_key = make_u16(data[5], data[4]);
        match frame.opcode {
            MlxOpcode::ChallengeNOPMISOPacket => {},
            _ => return Err(NopError::InvalidOpcode),
        }
        if key != challenge {
            return Err(NopError::InvalidChallenge);
        }
        if inverted_key != !challenge {
            return Err(NopError::InvalidInverse);
        }
        Ok(())
    }
}

/// What one request/reply exchange yields: the transport's verdict, then the
/// decoded reply.
pub open spec fn transfer_result(received: Result<[u8; 8], ()>) -> Result<MlxReply, MlxError> {
    match exchange_result(received) {
        Ok(buf) => reply_of(buf@),
        Err(e) => Err(MlxError::SpiError(e)),
    }
}

/// Whether a reply frame is acceptable as a status answer.
pub open spec fn message_check_of(d: Seq<u8>) -> Result<(), MlxError> {
    let f = frame_of(d);
    match f.marker {
        MlxMarker::Alpha => Ok(()),
        MlxMarker::Irregular => match f.opcode {
            MlxOpcode::ReadyMessage => Ok(()),
            MlxOpcode::NothingToTransmit => Ok(()),
            MlxOpcode::ChallengeNOPMISOPacket => Ok(()),
            MlxOpcode::ErrorFrame => Err(MlxError::DeviceError(device_error_of(d[0]))),
            _ => Err(MlxError::FormatError),
        },
        _ => Err(MlxError::FormatError),
    }
}

/// The liveness challenge used by detection and by the memory-write sequence.
pub const NOP_CHALLENGE: u16 = 0x3939;

/// The sensor's requests, each as the stamped frame that goes on the bus, and
/// the decoding of what comes back.
pub struct Mlx90363 {}

impl Mlx90363 {
    pub fn new() -> (r: Self) {
        Mlx90363 {}
    }

    /// A liveness challenge frame.
    pub fn nop(challenge: u16) -> (r: [u8; 8])
        ensures
            r@ == stamped(nop_request_bytes(NopMessage { challenge, opcode: 0xD0, inv: !challenge })),
    {
        NopMessage::new(challenge).serialize()
    }

    /// A memory-read frame for two addresses.
    pub fn read_memory(addr0: u16, addr1: u16) -> (r: [u8; 8])
        ensures
            r@ == stamped(mem_read_bytes(addr0, addr1)),
    {
        stamp(MlxMemReadRequest::new(addr0, addr1).serialize())
    }

    /// An angle query frame: no counter reset, longest timeout, plain-angle marker.
    pub fn get_alpha() -> (r: [u8; 8])
        ensures
            r@ == stamped(seq![0u8, 0u8, 0xFFu8, 0xFFu8, 0u8, 0u8, 0x13u8, 0u8]),
    {
        let req = MlxGET1 { reset_counter: false, timeout: 0xffff, marker: MlxMarker::Alpha };
        stamp(req.encode())
    }

    /// Judges and decodes what one exchange brought back.
    pub fn transfer(received: Result<[u8; 8], ()>) -> (r: Result<MlxReply, MlxError>)
        ensures
            r == transfer_result(received),
    {
        match verified_receive(received) {
            Ok(buf) => MlxReply::deserialize(buf),
            Err(e) => Err(MlxError::SpiError(e)),
        }
    }

    /// Accepts angle, ready, idle and NOP frames; reports error frames.
    pub fn check_message(data: &[u8; 8]) -> (r: Result<(), MlxError>)
        ensures
            r == message_check_of(data@),
    {
        let frame = MlxFrame::from_message(data);
        match frame.marker {
            MlxMarker::Alpha => Ok(()),
            MlxMarker::Irregular => match frame.opcode {
                MlxOpcode::ReadyMessage => Ok(()),
                MlxOpcode::ErrorFrame => Err(MlxError::DeviceError(DeviceError::from_number(data[0]))),
                MlxOpcode::NothingToTransmit => Ok(()),
                MlxOpcode::ChallengeNOPMISOPacket => Ok(()),
                _ => Err(MlxError::FormatError),
            },
            _ => Err(MlxError::FormatError),
        }
    }
}

/// Pause before each step of a memory write, in microseconds.
pub const WRITE_STEP_DELAY_US: u32 = 150;
/// Settling time after an acknowledged challenge answer, in microseconds.
pub const WRITE_SETTLE_DELAY_US: u32 = 33000;

/// Why a memory write stopped before its status was read.
#[derive(PartialEq, Eq, Structural, Clone, Copy, Debug)]
pub enum WriteError {
    /// An exchange failed or its reply could not be decoded.
    Transfer(MlxError),
    /// A reply decoded, but was not the one the step expects.
    UnexpectedReply(MlxReply),
}

/// Where a memory write stands.
#[derive(PartialEq, Eq, Structural, Clone, Copy, Debug)]
pub enum WriteStep {
    /// Liveness ping before the write.
    Ping,
    /// The write request with address, data and key.
    Request,
    /// The request for the write challenge.
    Challenge,
    /// The answer to the received challenge.
    Solution(u16),
    /// The final ping that brings back the write status.
    Status,
    Done(MlxMemWriteStatus),
    Aborted(WriteError),
}

/// One exchange to perform: wait `delay_us`, then exchange `frame`.
#[derive(Clone, Copy, Debug)]
pub struct WriteAction {
    pub delay_us: u32,
    pub frame: [u8; 8],
}

/// An authenticated memory write, one exchange per step, single attempt.
#[derive(PartialEq, Eq, Structural, Clone, Copy, Debug)]
pub struct MlxWriteSequence {
    pub addr: u8,
    pub value: i16,
    pub step: WriteStep,
}

pub open spec fn is_finished(step: WriteStep) -> bool {
    step is Done || step is Aborted
}

/// The unstamped frame sent at each unfinished step.
pub open spec fn step_frame(addr: u8, value: i16, step: WriteStep) -> Seq<u8> {
    match step {
        WriteStep::Request => mem_write_bytes(addr, bits_of_i16(value)),
        WriteStep::Challenge => challenge_request_bytes(),
        WriteStep::Solution(c) => solution_bytes(c),
        _ => nop_request_bytes(NopMessage { challenge: NOP_CHALLENGE, opcode: 0xD0, inv: !NOP_CHALLENGE }),
    }
}

/// The pause before each unfinished step.
pub open spec fn step_delay(step: WriteStep) -> u32 {
    match step {
        WriteStep::Status => WRITE_SETTLE_DELAY_US,
        _ => WRITE_STEP_DELAY_US,
    }
}

/// The step that follows `step` given the outcome of its exchange: any failed
/// exchange or unexpected reply aborts.
pub open spec fn next_step(step: WriteStep, result: Result<MlxReply, MlxError>) -> WriteStep {
    match result {
        Err(e) => WriteStep::Aborted(WriteError::Transfer(e)),
        Ok(reply) => match step {
            WriteStep::Ping => WriteStep::Request,
            WriteStep::Request => WriteStep::Challenge,
            WriteStep::Challenge => match reply {
                MlxReply::MlxMemWriteChallengeReply(c) => WriteStep::Solution(c),
                _ => WriteStep::Aborted(WriteError::UnexpectedReply(reply)),
            },
            WriteStep::Solution(_) => match reply {
                MlxReply::MlxMemWriteReadAnswerReply => WriteStep::Status,
                _ => WriteStep::Aborted(WriteError::UnexpectedReply(reply)),
            },
            WriteStep::Status => match reply {
                MlxReply::MlxMemWriteStatusReply(st) => WriteStep::Done(st),
                _ => WriteStep::Aborted(WriteError::UnexpectedReply(reply)),
            },
            _ => step,
        },
    }
}

impl MlxWriteSequence {
    pub open spec fn new_spec(addr: u8, value: i16) -> Self {
        MlxWriteSequence { addr, value, step: WriteStep::Ping }
    }

    /// A write of `value` at `addr`, starting with the liveness ping.
    pub fn new(addr: u8, value: i16) -> (r: Self)
        ensures
            r == Self::new_spec(addr, value),
    {
        Self { addr, value, step: WriteStep::Ping }
    }

    /// The exchange the current step asks for; none once finished.
    pub fn next_action(&self) -> (r: Option<WriteAction>)
        ensures
            is_finished(self.step) ==> r is None,
            !is_finished(self.step) ==> r is Some && r->Some_0.delay_us == step_delay(self.step)
                && r->Some_0.frame@ == stamped(step_frame(self.addr, self.value, self.step)),
    {
        match self.step {
            WriteStep::Ping => Some(WriteAction { delay_us: WRITE_STEP_DELAY_US, frame: Mlx90363::nop(NOP_CHALLENGE) }),
            WriteStep::Request => {
                let req = MlxMemWriteRequest { addr: self.addr, data: i16_bits(self.value) };
                Some(WriteAction { delay_us: WRITE_STEP_DELAY_US, frame: stamp(req.serialize()) })
            },
            WriteStep::Challenge => {
                let req = MlxMemWriteChallengeRequest {};
                Some(WriteAction { delay_us: WRITE_STEP_DELAY_US, frame: stamp(req.serialize()) })
            },
            WriteStep::Solution(c) => {
                let req = MlxMemWriteChallengeSolutionRequest { value: c };
                Some(WriteAction { delay_us: WRITE_STEP_DELAY_US, frame: stamp(req.serialize()) })
            },
            WriteStep::Status => Some(WriteAction { delay_us: WRITE_SETTLE_DELAY_US, frame: Mlx90363::nop(NOP_CHALLENGE) }),
            _ => None,
        }
    }

    /// Takes the outcome of the current step's exchange and moves on.
    pub fn advance(&mut self, received: Result<[u8; 8], ()>)
        requires
            !is_finished(old(self).step),
        ensures
            final(self).addr == old(self).addr,
            final(self).value == old(self).value,
            final(self).step == next_step(old(self).step, transfer_result(received)),
    {
        let result = Mlx90363::transfer(received);
        let next = match result {
            Err(e) => WriteStep::Aborted(WriteError::Transfer(e)),
            Ok(reply) => match self.step {
                WriteStep::Ping => WriteStep::Request,
                WriteStep::Request => WriteStep::Challenge,
                WriteStep::Challenge => match reply {
                    MlxReply::MlxMemWriteChallengeReply(c) => WriteStep::Solution(c),
                    _ => WriteStep::Aborted(WriteError::UnexpectedReply(reply)),
                },
                WriteStep::Solution(_) => match reply {
                    MlxReply::MlxMemWriteReadAnswerReply => WriteStep::Status,
                    _ => WriteStep::Aborted(WriteError::UnexpectedReply(reply)),
                },
                WriteStep::Status => match reply {
                    MlxReply::MlxMemWriteStatusReply(st) => WriteStep::Done(st),
                    _ => WriteStep::Aborted(WriteError::UnexpectedReply(reply)),
                },
                _ => self.step,
            },
        };
        self.step = next;
    }
}

} // verus!
