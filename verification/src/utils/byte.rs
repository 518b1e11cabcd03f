//! Little-endian packing and unpacking of multi-byte GATT fields.

use vstd::prelude::*;

verus! {

/// The value of two bytes read as an unsigned little-endian 16-bit field.
pub open spec fn le_u16(first: u8, second: u8) -> int {
    first as int + 256 * (second as int)
}

/// The value of three bytes read as an unsigned little-endian 24-bit field.
pub open spec fn le_u24(first: u8, second: u8, third: u8) -> int {
    first as int + 256 * (second as int) + 65536 * (third as int)
}

/// The value of two bytes read as an unsigned 16-bit field with the high
/// byte first.
pub open spec fn be_u16(first: u8, second: u8) -> int {
    256 * (first as int) + second as int
}

/// The two bytes of a 16-bit value, low byte first.
pub open spec fn le_bytes_u16(value: int) -> Seq<u8> {
    seq![(value % 256) as u8, (value / 256) as u8]
}

/// The three bytes of a 24-bit value, low byte first.
pub open spec fn le_bytes_u24(value: int) -> Seq<u8> {
    seq![(value % 256) as u8, ((value / 256) % 256) as u8, (value / 65536) as u8]
}

/// Reading back the two bytes of a 16-bit value gives the value.
pub proof fn lemma_le_bytes_u16(value: int)
    requires
        0 <= value <= u16::MAX,
    ensures
        le_bytes_u16(value).len() == 2,
        le_u16(le_bytes_u16(value)[0], le_bytes_u16(value)[1]) == value,
{
}

/// Reading back the three bytes of a 24-bit value gives the value.
pub proof fn lemma_le_bytes_u24(value: int)
    requires
        0 <= value <= 0xFF_FFFF,
    ensures
        le_bytes_u24(value).len() == 3,
        le_u24(le_bytes_u24(value)[0], le_bytes_u24(value)[1], le_bytes_u24(value)[2]) == value,
{
}

/// The unsigned 16-bit number that has the same bit pattern as `num` in
/// two's complement.
pub open spec fn twos_complement_u16(num: i16) -> int {
    if num >= 0 {
        num as int
    } else {
        num as int + 65536
    }
}

/// The signed 16-bit number whose two's complement bit pattern is `raw`.
pub open spec fn signed_of_u16(raw: u16) -> int {
    if raw < 32768 {
        raw as int
    } else {
        raw as int - 65536
    }
}

/// Whether `weight` is the value of one of the sixteen bits of a flags field.
pub open spec fn is_bit_weight(weight: int) -> bool {
    weight == 0x0001 || weight == 0x0002 || weight == 0x0004 || weight == 0x0008 || weight
        == 0x0010 || weight == 0x0020 || weight == 0x0040 || weight == 0x0080 || weight == 0x0100
        || weight == 0x0200 || weight == 0x0400 || weight == 0x0800 || weight == 0x1000 || weight
        == 0x2000 || weight == 0x4000 || weight == 0x8000
}

/// Whether the bit of value `weight` is set in `flags`.
#[verifier::opaque]
pub open spec fn has_flag(flags: int, weight: int) -> bool {
    (flags / weight) % 2 == 1
}

/// A number that is put together from a bit of value `weight`, from what
/// lies below that bit and from what lies above it, has that bit set exactly
/// if the bit is one.
pub proof fn lemma_flag_of_sum(low: int, bit: int, high: int, weight: int)
    requires
        0 <= low < weight,
        0 <= bit <= 1,
        0 <= high,
    ensures
        has_flag(low + weight * bit + 2 * weight * high, weight) <==> bit == 1,
{
    reveal(has_flag);
    let flags = low + weight * bit + 2 * weight * high;
    let quotient = bit + 2 * high;
    assert(flags == quotient * weight + low) by (nonlinear_arith)
        requires
            flags == low + weight * bit + 2 * weight * high,
            quotient == bit + 2 * high,
    ;
    vstd::arithmetic::div_mod::lemma_fundamental_div_mod_converse(flags, weight, quotient, low);
}

/// Tests one bit of a flags field.
pub fn flag_is_set(flags: u16, weight: u16) -> (set: bool)
    requires
        is_bit_weight(weight as int),
    ensures
        set == has_flag(flags as int, weight as int),
{
    reveal(has_flag);
    assert((flags & weight == weight) == ((flags / weight) % 2 == 1)) by (bit_vector)
        requires
            weight == 0x0001 || weight == 0x0002 || weight == 0x0004 || weight == 0x0008 || weight
                == 0x0010 || weight == 0x0020 || weight == 0x0040 || weight == 0x0080 || weight
                == 0x0100 || weight == 0x0200 || weight == 0x0400 || weight == 0x0800 || weight
                == 0x1000 || weight == 0x2000 || weight == 0x4000 || weight == 0x8000,
    ;
    flags & weight == weight
}

/// Joins two bytes into a 16-bit value, `first` being the low byte.
pub fn combine_u8_to_u16(first: u8, second: u8) -> (value: u16)
    ensures
        value as int == le_u16(first, second),
{
    let low: u16 = first as u16;
    let high: u16 = second as u16;
    assert((low | (high << 8)) == low + 256 * high) by (bit_vector)
        requires
            low < 256,
            high < 256,
    ;
    low | (high << 8)
}

/// Joins three bytes into a 24-bit value held in a `u32`, `first` being the
/// low byte.
pub fn combine_u8_to_u32(first: u8, second: u8, third: u8) -> (value: u32)
    ensures
        value as int == le_u24(first, second, third),
{
    let low: u32 = first as u32;
    let mid: u32 = second as u32;
    let high: u32 = third as u32;
    assert((low | (mid << 8) | (high << 16)) == low + 256 * mid + 65536 * high) by (bit_vector)
        requires
            low < 256,
            mid < 256,
            high < 256,
    ;
    low | (mid << 8) | (high << 16)
}

/// Splits a signed 16-bit value into its two's complement bytes, low byte
/// first.
pub fn convert_i16_to_u8(num: i16) -> (bytes: [u8; 2])
    ensures
        le_u16(bytes[0], bytes[1]) == twos_complement_u16(num),
{
    let low: i16 = num & 0xFF;
    let high: i16 = (num >> 8) & 0xFF;
    assert(0 <= low < 256 && 0 <= high < 256 && low + 256 * high == (if num >= 0 {
        num as int
    } else {
        num + 65536
    })) by (bit_vector)
        requires
            low == num & 0xFF,
            high == (num >> 8) & 0xFF,
    ;
    [low as u8, high as u8]
}

/// Reads a 16-bit pattern as a signed value in two's complement.
pub fn u16_to_i16(raw: u16) -> (value: i16)
    ensures
        value as int == signed_of_u16(raw),
{
    if raw < 32768 {
        raw as i16
    } else {
        let magnitude: u16 = 65535 - raw;
        -(magnitude as i16) - 1
    }
}

} // verus!
