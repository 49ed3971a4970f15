//! Frame transport: the CRC-8 checksum carried in byte 7 of every frame, the
//! liveness (NOP) challenge message, and the checks applied to an exchange.
use vstd::prelude::*;
use crate::util::{hi_byte, lo_byte, make_u16, u16_of, high_byte, low_byte};

verus! {

/// One step of the CRC-8 shift register (polynomial 0x2F) on one bit.
pub open spec fn crc_shift(x: u8) -> u8 {
    if x & 0x80u8 == 0x80u8 {
        (x << 1u8) ^ 0x2Fu8
    } else {
        x << 1u8
    }
}

/// Entry `x` of the checksum's 256-entry substitution table.
pub open spec fn crc_table(x: u8) -> u8 {
    let x1 = crc_shift(x);
    let x2 = crc_shift(x1);
    let x3 = crc_shift(x2);
    let x4 = crc_shift(x3);
    let x5 = crc_shift(x4);
    let x6 = crc_shift(x5);
    let x7 = crc_shift(x6);
    crc_shift(x7)
}

/// Register value after the first `n` bytes of `d` have been fed in.
pub open spec fn crc_state(d: Seq<u8>, n: nat) -> u8
    decreases n,
{
    if n == 0 {
        0xFFu8
    } else {
        crc_table(crc_state(d, (n - 1) as nat) ^ d[n - 1])
    }
}

/// The checksum of a frame: the inverted register after bytes 0 to 6.
pub open spec fn crc_of(d: Seq<u8>) -> u8 {
    !crc_state(d, 7)
}

/// A frame whose byte 7 matches the checksum of bytes 0 to 6.
pub open spec fn crc_ok(d: Seq<u8>) -> bool {
    d[7] == crc_of(d)
}

fn shift(x: u8) -> (r: u8)
    ensures
        r == crc_shift(x),
{
    if x & 0x80 == 0x80 {
        (x << 1u8) ^ 0x2F
    } else {
        x << 1u8
    }
}

/// Entry `x` of the substitution table, computed from the polynomial rather
/// than stored.
fn table_entry(x: u8) -> (r: u8)
    ensures
        r == crc_table(x),
{
    shift(shift(shift(shift(shift(shift(shift(shift(x))))))))
}

/// Errors of a single frame exchange.
#[derive(PartialEq, Eq, Structural, Clone, Copy, Debug)]
pub enum SpiError {
    /// The received checksum did not match the received bytes.
    CrcError,
    /// The full-duplex exchange itself failed.
    TxError,
}

/// Computes the checksum of bytes 0 to 6 of a frame.
pub fn crc(data: &[u8; 8]) -> (r: u8)
    ensures
        r == crc_of(data@),
{
    let mut c: u8 = 0xFF;
    let mut i: usize = 0;
    while i < 7
        invariant
            i <= 7,
            c == crc_state(data@, i as nat),
        decreases 7 - i,
    {
        c = table_entry(c ^ data[i]);
        i = i + 1;
    }
    !c
}

/// Stamps the checksum of bytes 0 to 6 into byte 7.
pub fn set_crc(data: &mut [u8; 8])
    ensures
        final(data)@ == old(data)@.update(7, crc_of(old(data)@)),
        crc_ok(final(data)@),
{
    let c = crc(data);
    data[7] = c;
    proof {
        lemma_crc_ignores_last(old(data)@, final(data)@);
    }
}

/// Checks the checksum carried in byte 7.
pub fn verify_crc(data: &[u8; 8]) -> (r: Result<(), SpiError>)
    ensures
        r is Ok <==> crc_ok(data@),
        r is Err ==> r == Err::<(), SpiError>(SpiError::CrcError),
{
    let checksum = crc(data);
    if data[7] == checksum {
        Ok(())
    } else {
        Err(SpiError::CrcError)
    }
}

/// The frame as received when the exchange succeeded and its checksum holds.
pub open spec fn exchange_result(received: Result<[u8; 8], ()>) -> Result<[u8; 8], SpiError> {
    match received {
        Ok(buf) => if crc_ok(buf@) {
            Ok(buf)
        } else {
            Err(SpiError::CrcError)
        },
        Err(_) => Err(SpiError::TxError),
    }
}

/// A frame with its checksum stamped into byte 7.
pub open spec fn stamped(frame: Seq<u8>) -> Seq<u8> {
    frame.update(7, crc_of(frame))
}

/// Stamps a frame before it goes out on the bus.
pub fn stamp(frame: [u8; 8]) -> (r: [u8; 8])
    ensures
        r@ == stamped(frame@),
        crc_ok(r@),
{
    let mut buf = frame;
    set_crc(&mut buf);
    buf
}

/// Judges the outcome of one full-duplex exchange: a link failure, a frame with
/// a bad checksum, or a verified frame.
pub fn verified_receive(received: Result<[u8; 8], ()>) -> (r: Result<[u8; 8], SpiError>)
    ensures
        r == exchange_result(received),
{
    match received {
        Ok(buf) => match verify_crc(&buf) {
            Ok(()) => Ok(buf),
            Err(e) => Err(e),
        },
        Err(()) => Err(SpiError::TxError),
    }
}

proof fn lemma_crc_state_prefix(a: Seq<u8>, b: Seq<u8>, n: nat)
    requires
        n <= a.len(),
        n <= b.len(),
        forall|i: int| 0 <= i < n ==> a[i] == b[i],
    ensures
        crc_state(a, n) == crc_state(b, n),
    decreases n,
{
    if n > 0 {
        lemma_crc_state_prefix(a, b, (n - 1) as nat);
    }
}

proof fn lemma_crc_ignores_last(a: Seq<u8>, b: Seq<u8>)
    requires
        a.len() == 8,
        b == a.update(7, crc_of(a)),
    ensures
        crc_of(b) == crc_of(a),
{
    lemma_crc_state_prefix(a, b, 7);
}

proof fn lemma_table_injective(x: u8, y: u8)
    requires
        crc_table(x) == crc_table(y),
    ensures
        x == y,
{
    assert(crc_table(x) == crc_table(y) ==> x == y) by (bit_vector);
}

proof fn lemma_crc_state_diverges(a: Seq<u8>, b: Seq<u8>, k: nat, n: nat)
    requires
        a.len() == 8,
        b.len() == 8,
        k < n <= 7,
        forall|i: int| 0 <= i < 8 && i != k ==> a[i] == b[i],
        a[k as int] != b[k as int],
    ensures
        crc_state(a, n) != crc_state(b, n),
    decreases n,
{
    let m = (n - 1) as nat;
    let sa = crc_state(a, m);
    let sb = crc_state(b, m);
    let xa = a[m as int];
    let xb = b[m as int];
    if m == k {
        lemma_crc_state_prefix(a, b, m);
        assert(sa ^ xa != sb ^ xb) by (bit_vector)
            requires
                sa == sb,
                xa != xb,
        ;
    } else {
        lemma_crc_state_diverges(a, b, k, m);
        assert(sa ^ xa != sb ^ xb) by (bit_vector)
            requires
                sa != sb,
                xa == xb,
        ;
    }
    if crc_state(a, n) == crc_state(b, n) {
        lemma_table_injective(sa ^ xa, sb ^ xb);
    }
}

/// A frame with one bit of bytes 0 to 6 flipped.
pub open spec fn flip_bit(d: Seq<u8>, k: int, bit: u8) -> Seq<u8> {
    d.update(k, d[k] ^ (1u8 << bit))
}

/// Stamping a frame makes its checksum verify, and flipping any single bit of
/// bytes 0 to 6 of the stamped frame makes verification fail.
pub proof fn lemma_crc_round_trip(d: Seq<u8>, k: int, bit: u8)
    requires
        d.len() == 8,
        0 <= k < 7,
        bit < 8,
    ensures
        crc_ok(d.update(7, crc_of(d))),
        !crc_ok(flip_bit(d.update(7, crc_of(d)), k, bit)),
{
    let s = d.update(7, crc_of(d));
    lemma_crc_ignores_last(d, s);
    let f = flip_bit(s, k, bit);
    let old_byte = s[k];
    assert(old_byte ^ (1u8 << bit) != old_byte) by (bit_vector)
        requires
            bit < 8,
    ;
    lemma_crc_state_diverges(s, f, k as nat, 7);
    let x = crc_state(s, 7);
    let y = crc_state(f, 7);
    assert(x != y ==> !x != !y) by (bit_vector);
}

/// Opcode byte of an outgoing liveness (NOP) challenge.
pub const NOP_COMMAND_OPCODE: u8 = 0b11010000u8;
/// Opcode byte of a NOP answer from an MLX90363 sensor.
pub const NOP_REPLY_OPCODE_MLX: u8 = 0b11010001;
/// Opcode byte of a NOP answer from an STM32 responder.
pub const NOP_REPLY_OPCODE_STM: u8 = 0b11110011;
/// Opcode byte of a NOP answer from an RP2040 responder.
pub const NOP_REPLY_OPCODE_RP: u8 = 0b11000010;

/// Why a NOP answer was refused.
#[derive(PartialEq, Eq, Structural, Clone, Copy, Debug)]
pub enum NopError {
    /// Byte 6 is not the answer opcode of a known responder class.
    InvalidOpcode,
    /// The echoed challenge differs from the one sent.
    InvalidChallenge,
    /// The echoed complement differs from the complement of the challenge.
    InvalidInverse,
}

/// A liveness challenge or its answer: a 16-bit value and its complement.
#[derive(PartialEq, Eq, Structural, Clone, Copy, Debug)]
pub struct NopMessage {
    pub challenge: u16,
    pub opcode: u8,
    pub inv: u16,
}

/// The opcode bytes by which a responder class answers a NOP.
pub open spec fn is_nop_reply_opcode(op: u8) -> bool {
    op == NOP_REPLY_OPCODE_MLX || op == NOP_REPLY_OPCODE_STM || op == NOP_REPLY_OPCODE_RP
}

/// What a received NOP answer holds: echo in bytes 2-3, complement in bytes
/// 4-5 (both little-endian), opcode in byte 6.
pub open spec fn nop_of(d: Seq<u8>) -> NopMessage {
    NopMessage { challenge: u16_of(d[3], d[2]), opcode: d[6], inv: u16_of(d[5], d[4]) }
}

/// The answer `m` confirms challenge `c`: the exact value and its exact complement.
pub open spec fn nop_confirms(m: NopMessage, c: u16) -> bool {
    m.challenge == c && m.inv == !c
}

/// The unstamped bytes of an outgoing NOP challenge.
pub open spec fn nop_request_bytes(m: NopMessage) -> Seq<u8> {
    seq![0u8, 0u8, lo_byte(m.challenge), hi_byte(m.challenge), lo_byte(m.inv), hi_byte(m.inv), m.opcode, 0u8]
}

/// The bytes a responder sends back for a NOP: echo, complement, opcode.
pub open spec fn nop_answer_bytes(echo: u16, inv: u16, opcode: u8) -> Seq<u8> {
    seq![0u8, 0u8, lo_byte(echo), hi_byte(echo), lo_byte(inv), hi_byte(inv), opcode, 0u8]
}

impl NopMessage {
    /// A NOP challenge carrying `challenge` and its complement.
    pub fn new(challenge: u16) -> (r: Self)
        ensures
            r == (NopMessage { challenge, opcode: NOP_COMMAND_OPCODE, inv: !challenge }),
    {
        Self { challenge: challenge, opcode: NOP_COMMAND_OPCODE, inv: !challenge }
    }

    /// The frame of this challenge, checksum stamped.
    pub fn serialize(&self) -> (r: [u8; 8])
        ensures
            r@ == nop_request_bytes(*self).update(7, crc_of(nop_request_bytes(*self))),
            crc_ok(r@),
    {
        let buf = [
            0u8,
            0u8,
            low_byte(self.challenge),
            high_byte(self.challenge),
            low_byte(self.inv),
            high_byte(self.inv),
            self.opcode,
            0u8,
        ];
        assert(buf@ =~= nop_request_bytes(*self));
        stamp(buf)
    }

    /// Reads a NOP answer; only the answer opcodes of the known responder
    /// classes are accepted.
    pub fn deserialize(data: &[u8; 8]) -> (r: Result<NopMessage, NopError>)
        ensures
            is_nop_reply_opcode(data@[6]) ==> r == Ok::<NopMessage, NopError>(nop_of(data@)),
            !is_nop_reply_opcode(data@[6]) ==> r == Err::<NopMessage, NopError>(NopError::InvalidOpcode),
    {
        let echo = make_u16(data[3], data[2]);
        let inv = make_u16(data[5], data[4]);
        let op = data[6];
        if op == NOP_REPLY_OPCODE_MLX || op == NOP_REPLY_OPCODE_STM || op == NOP_REPLY_OPCODE_RP {
            Ok(NopMessage { challenge: echo, opcode: op, inv: inv })
        } else {
            Err(NopError::InvalidOpcode)
        }
    }

    /// Checks that this answer echoes `challenge` and its complement.
    pub fn verify(&self, challenge: u16) -> (r: Result<(), NopError>)
        ensures
            r is Ok <==> nop_confirms(*self, challenge),
            self.challenge != challenge ==> r == Err::<(), NopError>(NopError::InvalidChallenge),
            self.challenge == challenge && self.inv != !challenge ==> r == Err::<(), NopError>(
                NopError::InvalidInverse,
            ),
    {
        if self.challenge != challenge {
            return Err(NopError::InvalidChallenge);
        }
        if self.inv != !challenge {
            return Err(NopError::InvalidInverse);
        }
        Ok(())
    }
}

proof fn lemma_word_bytes(w: u16)
    ensures
        u16_of(hi_byte(w), lo_byte(w)) == w,
{
}

/// For every challenge `c`, an answer that echoes `c` and `!c` under a known
/// responder opcode is read back and verifies; one that echoes `c + 1` does not.
pub proof fn lemma_challenge_round_trip(c: u16, opcode: u8)
    requires
        is_nop_reply_opcode(opcode),
    ensures
        nop_of(nop_answer_bytes(c, !c, opcode)) == (NopMessage { challenge: c, opcode, inv: !c }),
        nop_confirms(nop_of(nop_answer_bytes(c, !c, opcode)), c),
        !nop_confirms(nop_of(nop_answer_bytes((c + 1) as u16, !c, opcode)), c),
{
    lemma_word_bytes(c);
    lemma_word_bytes(!c);
    lemma_word_bytes((c + 1) as u16);
    assert((c + 1) as u16 != c) by (bit_vector);
}

} // verus!
