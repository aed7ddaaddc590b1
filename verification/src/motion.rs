//! The inertial sensor sample.

use vstd::prelude::*;
use crate::binary32::Binary32;
use crate::error::{truncated, DecodeError};
use crate::wire::{le_u32, read_u32};

verus! {

/// The least length of a motion message.
pub const MOTION_MIN_LEN: usize = 16;

/// One sample of a controller's gyroscope or accelerometer.
#[derive(Clone, Copy, Debug, PartialEq, Eq, Structural)]
pub struct GamepadMotion {
    /// The controller slot.
    pub index: u8,
    /// Which sensor the sample is from, as the client coded it.
    pub motion_type: u8,
    /// The sample along the x axis, as sent.
    pub x: Binary32,
    /// The sample along the y axis, as sent.
    pub y: Binary32,
    /// The sample along the z axis, as sent.
    pub z: Binary32,
}

impl GamepadMotion {
    /// The sample that the first 16 bytes of `bytes` encode. Bytes 2 to 3 are
    /// reserved. The axes are physical measurements without bounds: their
    /// bits are carried as they came.
    pub open spec fn layout(bytes: Seq<u8>) -> GamepadMotion
        recommends
            bytes.len() >= MOTION_MIN_LEN,
    {
        GamepadMotion {
            index: bytes[0],
            motion_type: bytes[1],
            x: Binary32 { bits: le_u32(bytes, 4) },
            y: Binary32 { bits: le_u32(bytes, 8) },
            z: Binary32 { bits: le_u32(bytes, 12) },
        }
    }

    /// What decoding `bytes` gives: a rejection when they are too few, else
    /// the sample that they encode.
    pub open spec fn decode(bytes: Seq<u8>) -> Result<GamepadMotion, DecodeError> {
        if bytes.len() < MOTION_MIN_LEN {
            Err(truncated(MOTION_MIN_LEN, bytes.len()))
        } else {
            Ok(Self::layout(bytes))
        }
    }

    /// Decodes a motion sample.
    pub fn from_bytes(buffer: &[u8]) -> (r: Result<Self, DecodeError>)
        ensures
            r == Self::decode(buffer@),
            buffer@.len() < MOTION_MIN_LEN ==> r == Err::<Self, DecodeError>(
                truncated(MOTION_MIN_LEN, buffer@.len()),
            ),
            buffer@.len() >= MOTION_MIN_LEN ==> r == Ok::<Self, DecodeError>(
                Self::layout(buffer@),
            ),
    {
        if buffer.len() < MOTION_MIN_LEN {
            return Err(DecodeError::Truncated { expected: MOTION_MIN_LEN, actual: buffer.len() });
        }
        Ok(
            GamepadMotion {
                index: buffer[0],
                motion_type: buffer[1],
                x: Binary32 { bits: read_u32(buffer, 4) },
                y: Binary32 { bits: read_u32(buffer, 8) },
                z: Binary32 { bits: read_u32(buffer, 12) },
            },
        )
    }
}

} // verus!
