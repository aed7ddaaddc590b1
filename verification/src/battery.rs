//! The battery report.

use vstd::prelude::*;
use crate::error::{truncated, DecodeError};

verus! {

/// The least length of a battery message.
pub const BATTERY_MIN_LEN: usize = 4;

/// What a controller reports of its battery.
#[derive(Clone, Copy, Debug, PartialEq, Eq, Structural)]
pub struct GamepadBattery {
    /// The controller slot.
    pub index: u8,
    /// Charging, discharging and the like, as the client coded it.
    pub battery_state: u8,
    /// The charge as sent. Nothing holds it to 100: what a larger value means
    /// is for the receiver to say.
    pub battery_percentage: u8,
}

impl GamepadBattery {
    /// The report that the first 4 bytes of `bytes` encode. Byte 3 is
    /// reserved.
    pub open spec fn layout(bytes: Seq<u8>) -> GamepadBattery
        recommends
            bytes.len() >= BATTERY_MIN_LEN,
    {
        GamepadBattery { index: bytes[0], battery_state: bytes[1], battery_percentage: bytes[2] }
    }

    /// What decoding `bytes` gives: a rejection when they are too few, else
    /// the report that they encode.
    pub open spec fn decode(bytes: Seq<u8>) -> Result<GamepadBattery, DecodeError> {
        if bytes.len() < BATTERY_MIN_LEN {
            Err(truncated(BATTERY_MIN_LEN, bytes.len()))
        } else {
            Ok(Self::layout(bytes))
        }
    }

    /// Decodes a battery report.
    pub fn from_bytes(buffer: &[u8]) -> (r: Result<Self, DecodeError>)
        ensures
            r == Self::decode(buffer@),
            buffer@.len() < BATTERY_MIN_LEN ==> r == Err::<Self, DecodeError>(
                truncated(BATTERY_MIN_LEN, buffer@.len()),
            ),
            buffer@.len() >= BATTERY_MIN_LEN ==> r == Ok::<Self, DecodeError>(
                Self::layout(buffer@),
            ),
    {
        if buffer.len() < BATTERY_MIN_LEN {
            return Err(
                DecodeError::Truncated { expected: BATTERY_MIN_LEN, actual: buffer.len() },
            );
        }
        Ok(
            GamepadBattery {
                index: buffer[0],
                battery_state: buffer[1],
                battery_percentage: buffer[2],
            },
        )
    }
}

} // verus!
