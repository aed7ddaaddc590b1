//! Little-endian fields at fixed offsets of a byte buffer.
//!
//! Every multi-byte field of a controller message is little-endian: the byte
//! at the lowest offset carries the least significant eight bits. The spec
//! functions here give a field's value in positional notation; the executable
//! readers compute the same value from a slice.

use vstd::prelude::*;

verus! {

/// The unsigned 16-bit value whose little-endian encoding starts at `at`.
pub open spec fn le_u16(bytes: Seq<u8>, at: int) -> u16
    recommends
        0 <= at,
        at + 2 <= bytes.len(),
{
    (bytes[at] + 256 * bytes[at + 1]) as u16
}

/// The unsigned 32-bit value whose little-endian encoding starts at `at`.
pub open spec fn le_u32(bytes: Seq<u8>, at: int) -> u32
    recommends
        0 <= at,
        at + 4 <= bytes.len(),
{
    (bytes[at] + 256 * bytes[at + 1] + 65536 * bytes[at + 2] + 16777216 * bytes[at + 3]) as u32
}

/// The signed 16-bit value whose little-endian two's-complement encoding
/// starts at `at`: the unsigned reading, less 65536 once its top bit is set.
pub open spec fn le_i16(bytes: Seq<u8>, at: int) -> i16
    recommends
        0 <= at,
        at + 2 <= bytes.len(),
{
    if le_u16(bytes, at) < 32768 {
        le_u16(bytes, at) as i16
    } else {
        (le_u16(bytes, at) - 65536) as i16
    }
}

/// Reads the unsigned 16-bit field at `at`.
pub fn read_u16(buffer: &[u8], at: usize) -> (value: u16)
    requires
        at + 2 <= buffer@.len(),
    ensures
        value == le_u16(buffer@, at as int),
{
    let low: u16 = buffer[at] as u16;
    let high: u16 = buffer[at + 1] as u16;
    low + 256 * high
}

/// Reads the unsigned 32-bit field at `at`.
pub fn read_u32(buffer: &[u8], at: usize) -> (value: u32)
    requires
        at + 4 <= buffer@.len(),
    ensures
        value == le_u32(buffer@, at as int),
{
    let b0: u32 = buffer[at] as u32;
    let b1: u32 = buffer[at + 1] as u32;
    let b2: u32 = buffer[at + 2] as u32;
    let b3: u32 = buffer[at + 3] as u32;
    b0 + 256 * b1 + 65536 * b2 + 16777216 * b3
}

/// Reads the signed 16-bit field at `at`.
pub fn read_i16(buffer: &[u8], at: usize) -> (value: i16)
    requires
        at + 2 <= buffer@.len(),
    ensures
        value == le_i16(buffer@, at as int),
{
    let unsigned: u16 = read_u16(buffer, at);
    if unsigned < 32768 {
        unsigned as i16
    } else {
        let wide: i32 = unsigned as i32 - 65536;
        wide as i16
    }
}

} // verus!
