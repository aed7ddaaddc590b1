//! The touch-surface contact event.

use vstd::prelude::*;
use crate::binary32::Binary32;
use crate::error::{truncated, DecodeError};
use crate::wire::{le_u32, read_u32};

verus! {

/// The least length of a touch message.
pub const TOUCH_MIN_LEN: usize = 20;

/// One contact on a controller's touch surface.
#[derive(Clone, Copy, Debug, PartialEq, Eq, Structural)]
pub struct GamepadTouch {
    /// The controller slot.
    pub index: u8,
    /// What happened to the contact, as the client coded it.
    pub event_type: u8,
    /// Tells apart the fingers that are down at once.
    pub pointer_id: u32,
    /// Horizontal position, saturated into the unit interval.
    pub x: Binary32,
    /// Vertical position, saturated into the unit interval.
    pub y: Binary32,
    /// Contact pressure, saturated into the unit interval.
    pub pressure: Binary32,
}

impl GamepadTouch {
    /// The touch event that the first 20 bytes of `bytes` encode. Bytes 2 to
    /// 3 are reserved. The three single-precision fields are saturated into
    /// the unit interval, whatever the message carried.
    pub open spec fn layout(bytes: Seq<u8>) -> GamepadTouch
        recommends
            bytes.len() >= TOUCH_MIN_LEN,
    {
        GamepadTouch {
            index: bytes[0],
            event_type: bytes[1],
            pointer_id: le_u32(bytes, 4),
            x: (Binary32 { bits: le_u32(bytes, 8) }).clamped_to_unit(),
            y: (Binary32 { bits: le_u32(bytes, 12) }).clamped_to_unit(),
            pressure: (Binary32 { bits: le_u32(bytes, 16) }).clamped_to_unit(),
        }
    }

    /// What decoding `bytes` gives: a rejection when they are too few, else
    /// the event that they encode.
    pub open spec fn decode(bytes: Seq<u8>) -> Result<GamepadTouch, DecodeError> {
        if bytes.len() < TOUCH_MIN_LEN {
            Err(truncated(TOUCH_MIN_LEN, bytes.len()))
        } else {
            Ok(Self::layout(bytes))
        }
    }

    /// Whether position and pressure are each a number of the unit interval
    /// or a NaN. Every decoded event is.
    pub open spec fn saturated(self) -> bool {
        &&& self.x.is_nan() || self.x.in_unit_interval()
        &&& self.y.is_nan() || self.y.in_unit_interval()
        &&& self.pressure.is_nan() || self.pressure.in_unit_interval()
    }

    /// Decodes a touch event. Position or pressure out of range is no reason
    /// to reject: it is saturated.
    pub fn from_bytes(buffer: &[u8]) -> (r: Result<Self, DecodeError>)
        ensures
            r == Self::decode(buffer@),
            buffer@.len() < TOUCH_MIN_LEN ==> r == Err::<Self, DecodeError>(
                truncated(TOUCH_MIN_LEN, buffer@.len()),
            ),
            buffer@.len() >= TOUCH_MIN_LEN ==> r == Ok::<Self, DecodeError>(Self::layout(buffer@)),
            r matches Ok(touch) ==> touch.saturated(),
    {
        if buffer.len() < TOUCH_MIN_LEN {
            return Err(DecodeError::Truncated { expected: TOUCH_MIN_LEN, actual: buffer.len() });
        }
        let x = Binary32 { bits: read_u32(buffer, 8) };
        let y = Binary32 { bits: read_u32(buffer, 12) };
        let pressure = Binary32 { bits: read_u32(buffer, 16) };
        Ok(
            GamepadTouch {
                index: buffer[0],
                event_type: buffer[1],
                pointer_id: read_u32(buffer, 4),
                x: x.clamp_unit(),
                y: y.clamp_unit(),
                pressure: pressure.clamp_unit(),
            },
        )
    }
}

} // verus!
