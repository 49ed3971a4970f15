//! Byte and word helpers shared by the codecs.
use vstd::prelude::*;

verus! {

/// The unsigned 16-bit word whose high byte is `upper` and low byte is `lower`.
pub open spec fn u16_of(upper: u8, lower: u8) -> u16 {
    (upper as int * 256 + lower as int) as u16
}

/// The signed 16-bit value whose two's-complement bytes are `upper`, `lower`.
pub open spec fn i16_of(upper: u8, lower: u8) -> i16 {
    let u = upper as int * 256 + lower as int;
    if u >= 0x8000 {
        (u - 0x10000) as i16
    } else {
        u as i16
    }
}

/// The low byte of a 16-bit word.
pub open spec fn lo_byte(w: u16) -> u8 {
    (w % 256) as u8
}

/// The high byte of a 16-bit word.
pub open spec fn hi_byte(w: u16) -> u8 {
    (w / 256) as u8
}

/// The 16-bit two's-complement encoding of a signed value.
pub open spec fn bits_of_i16(v: i16) -> u16 {
    if v < 0 {
        (v as int + 0x10000) as u16
    } else {
        v as u16
    }
}

/// Builds a word from its high and low bytes.
pub fn make_u16(upper: u8, lower: u8) -> (r: u16)
    ensures
        r == u16_of(upper, lower),
        r as int == upper as int * 256 + lower as int,
{
    upper as u16 * 256 + lower as u16
}

/// Builds a signed word from its high and low two's-complement bytes.
pub fn make_i16(upper: u8, lower: u8) -> (r: i16)
    ensures
        r == i16_of(upper, lower),
{
    let u = make_u16(upper, lower);
    if u >= 0x8000 {
        (u as i32 - 0x10000) as i16
    } else {
        u as i16
    }
}

/// Low byte of a word.
pub fn low_byte(w: u16) -> (r: u8)
    ensures
        r == lo_byte(w),
{
    (w % 256) as u8
}

/// High byte of a word.
pub fn high_byte(w: u16) -> (r: u8)
    ensures
        r == hi_byte(w),
{
    (w / 256) as u8
}

/// The two's-complement bits of a signed word.
pub fn i16_bits(v: i16) -> (r: u16)
    ensures
        r == bits_of_i16(v),
{
    if v < 0 {
        (v as i32 + 0x10000) as u16
    } else {
        v as u16
    }
}

/// Reads an 8-byte buffer as four big-endian words.
pub fn to_u16_big_endian(data: [u8; 8]) -> (r: [u16; 4])
    ensures
        forall|i: int| 0 <= i < 4 ==> r@[i] == u16_of(#[trigger] data@[2 * i], data@[2 * i + 1]),
{
    let r = [
        make_u16(data[0], data[1]),
        make_u16(data[2], data[3]),
        make_u16(data[4], data[5]),
        make_u16(data[6], data[7]),
    ];
    r
}

/// Reads an 8-byte buffer as four little-endian words.
pub fn to_u16_little_endian(data: [u8; 8]) -> (r: [u16; 4])
    ensures
        forall|i: int| 0 <= i < 4 ==> r@[i] == u16_of(#[trigger] data@[2 * i + 1], data@[2 * i]),
{
    let r = [
        make_u16(data[1], data[0]),
        make_u16(data[3], data[2]),
        make_u16(data[5], data[4]),
        make_u16(data[7], data[6]),
    ];
    r
}

} // verus!
