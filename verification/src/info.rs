//! The capability announcement.

use vstd::prelude::*;
use crate::error::{truncated, DecodeError};
use crate::kind::GamepadKind;
use crate::wire::{le_u16, le_u32, read_u16, read_u32};

verus! {

/// The least length of a capability announcement.
pub const INFO_MIN_LEN: usize = 8;

/// What a client announces of the controller in one slot.
#[derive(Clone, Copy, Debug, PartialEq, Eq, Structural)]
pub struct GamepadInfo {
    /// The controller slot.
    pub index: u8,
    /// The controller's vendor family.
    pub kind: GamepadKind,
    /// One bit per optional input the controller has.
    pub capabilities: u16,
    /// One bit per button the controller has.
    pub supported_buttons: u32,
}

impl GamepadInfo {
    /// The announcement of a controller of `kind` that the first 8 bytes of
    /// `bytes` encode. Byte 1 is the kind's code and has no other part in it.
    pub open spec fn layout(bytes: Seq<u8>, kind: GamepadKind) -> GamepadInfo
        recommends
            bytes.len() >= INFO_MIN_LEN,
            GamepadKind::of_code(bytes[1]) == Some(kind),
    {
        GamepadInfo {
            index: bytes[0],
            kind,
            capabilities: le_u16(bytes, 2),
            supported_buttons: le_u32(bytes, 4),
        }
    }

    /// What decoding `bytes` gives. Length is judged first: a short buffer is
    /// truncated whatever its kind byte holds.
    pub open spec fn decode(bytes: Seq<u8>) -> Result<GamepadInfo, DecodeError> {
        if bytes.len() < INFO_MIN_LEN {
            Err(truncated(INFO_MIN_LEN, bytes.len()))
        } else {
            match GamepadKind::of_code(bytes[1]) {
                Some(kind) => Ok(Self::layout(bytes, kind)),
                None => Err(DecodeError::UnrecognizedKind { code: bytes[1] }),
            }
        }
    }

    /// Decodes a capability announcement.
    pub fn from_bytes(buffer: &[u8]) -> (r: Result<Self, DecodeError>)
        ensures
            r == Self::decode(buffer@),
            r is Ok <==> buffer@.len() >= INFO_MIN_LEN && buffer@[1] <= 3,
            r matches Ok(info) ==> info.kind.code() == buffer@[1] && info == Self::layout(
                buffer@,
                info.kind,
            ),
            buffer@.len() < INFO_MIN_LEN ==> r == Err::<Self, DecodeError>(
                truncated(INFO_MIN_LEN, buffer@.len()),
            ),
            buffer@.len() >= INFO_MIN_LEN && buffer@[1] > 3 ==> r == Err::<Self, DecodeError>(
                DecodeError::UnrecognizedKind { code: buffer@[1] },
            ),
    {
        if buffer.len() < INFO_MIN_LEN {
            return Err(DecodeError::Truncated { expected: INFO_MIN_LEN, actual: buffer.len() });
        }
        match GamepadKind::resolve(buffer[1]) {
            Ok(kind) => Ok(
                GamepadInfo {
                    index: buffer[0],
                    kind,
                    capabilities: read_u16(buffer, 2),
                    supported_buttons: read_u32(buffer, 4),
                },
            ),
            Err(unrecognized) => Err(unrecognized),
        }
    }
}

} // verus!
