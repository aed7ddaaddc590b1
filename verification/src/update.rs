//! The analog and button state snapshot.

use vstd::prelude::*;
use crate::error::{truncated, DecodeError};
use crate::wire::{le_i16, le_u16, read_i16, read_u16};

verus! {

/// The least length of a state snapshot message.
pub const UPDATE_MIN_LEN: usize = 26;

/// The full analog and digital state of one controller.
#[derive(Clone, Copy, Debug, PartialEq, Eq)]
pub struct GamepadUpdate {
    /// The controller slot.
    pub index: u16,
    /// One bit per slot that currently holds a controller.
    pub active_gamepad_mask: u16,
    /// One bit per button, assembled from two halves of the message.
    pub button_flags: u32,
    /// Left trigger, 0 (released) to 255 (fully pressed).
    pub left_trigger: u8,
    /// Right trigger, 0 (released) to 255 (fully pressed).
    pub right_trigger: u8,
    /// Left stick as (x, y), each over the full signed range.
    pub left_stick: (i16, i16),
    /// Right stick as (x, y), each over the full signed range.
    pub right_stick: (i16, i16),
}

/// The 32-bit button mask with `low` as its bits 0 to 15 and `high` as its
/// bits 16 to 31.
pub open spec fn button_mask(low: u16, high: u16) -> u32 {
    (low + 65536 * high) as u32
}

/// `button_mask` in bitwise terms: it is `low | high << 16`, its low half
/// reads back as `low` and its high half as `high`.
pub proof fn lemma_button_mask_bits(low: u16, high: u16)
    ensures
        button_mask(low, high) == (low as u32) | ((high as u32) << 16),
        button_mask(low, high) & 0xFFFF == low,
        button_mask(low, high) >> 16 == high,
{
    let l: u32 = low as u32;
    let h: u32 = high as u32;
    assert(l | (h << 16) == l + 65536 * h) by (bit_vector)
        requires
            l < 65536,
            h < 65536,
    ;
    assert((l | (h << 16)) & 0xFFFF == l) by (bit_vector)
        requires
            l < 65536,
            h < 65536,
    ;
    assert((l | (h << 16)) >> 16 == h) by (bit_vector)
        requires
            l < 65536,
            h < 65536,
    ;
}

impl GamepadUpdate {
    /// The snapshot that the first 26 bytes of `bytes` encode.
    ///
    /// Bytes 0 to 1, 6 to 7, 20 to 21 and 24 to 25 are reserved. The button
    /// mask is not one 32-bit field: its low half stands at bytes 8 to 9 and
    /// its high half at bytes 22 to 23, behind the sticks.
    pub open spec fn layout(bytes: Seq<u8>) -> GamepadUpdate
        recommends
            bytes.len() >= UPDATE_MIN_LEN,
    {
        GamepadUpdate {
            index: le_u16(bytes, 2),
            active_gamepad_mask: le_u16(bytes, 4),
            button_flags: button_mask(le_u16(bytes, 8), le_u16(bytes, 22)),
            left_trigger: bytes[10],
            right_trigger: bytes[11],
            left_stick: (le_i16(bytes, 12), le_i16(bytes, 14)),
            right_stick: (le_i16(bytes, 16), le_i16(bytes, 18)),
        }
    }

    /// What decoding `bytes` gives: a rejection when they are too few, else
    /// the snapshot that they encode.
    pub open spec fn decode(bytes: Seq<u8>) -> Result<GamepadUpdate, DecodeError> {
        if bytes.len() < UPDATE_MIN_LEN {
            Err(truncated(UPDATE_MIN_LEN, bytes.len()))
        } else {
            Ok(Self::layout(bytes))
        }
    }

    /// Decodes a state snapshot.
    pub fn from_bytes(buffer: &[u8]) -> (r: Result<Self, DecodeError>)
        ensures
            r == Self::decode(buffer@),
            buffer@.len() < UPDATE_MIN_LEN ==> r == Err::<Self, DecodeError>(
                truncated(UPDATE_MIN_LEN, buffer@.len()),
            ),
            buffer@.len() >= UPDATE_MIN_LEN ==> r == Ok::<Self, DecodeError>(
                Self::layout(buffer@),
            ),
    {
        if buffer.len() < UPDATE_MIN_LEN {
            return Err(DecodeError::Truncated { expected: UPDATE_MIN_LEN, actual: buffer.len() });
        }
        let low: u16 = read_u16(buffer, 8);
        let high: u16 = read_u16(buffer, 22);
        proof {
            lemma_button_mask_bits(low, high);
        }
        Ok(
            GamepadUpdate {
                index: read_u16(buffer, 2),
                active_gamepad_mask: read_u16(buffer, 4),
                button_flags: low as u32 | (high as u32) << 16,
                left_trigger: buffer[10],
                right_trigger: buffer[11],
                left_stick: (read_i16(buffer, 12), read_i16(buffer, 14)),
                right_stick: (read_i16(buffer, 16), read_i16(buffer, 18)),
            },
        )
    }
}

} // verus!
