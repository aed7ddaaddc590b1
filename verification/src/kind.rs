//! The closed set of controller kinds and their one-byte codes.

use vstd::prelude::*;
use crate::error::DecodeError;

verus! {

/// The vendor family of a controller.
#[derive(Clone, Copy, Debug, PartialEq, Eq, Structural)]
pub enum GamepadKind {
    /// A controller of no known family. This is a kind the client announces
    /// with a code of its own; it is not what an unknown code decodes to.
    Unknown,
    /// An Xbox controller.
    Xbox,
    /// A PlayStation controller.
    PlayStation,
    /// A Nintendo controller.
    Nintendo,
}

impl GamepadKind {
    /// The byte that stands for the kind on the wire.
    pub open spec fn code(self) -> u8 {
        match self {
            GamepadKind::Unknown => 0,
            GamepadKind::Xbox => 1,
            GamepadKind::PlayStation => 2,
            GamepadKind::Nintendo => 3,
        }
    }

    /// The kind that `code` stands for, if it stands for one.
    pub open spec fn of_code(code: u8) -> Option<GamepadKind> {
        if code == 0 {
            Some(GamepadKind::Unknown)
        } else if code == 1 {
            Some(GamepadKind::Xbox)
        } else if code == 2 {
            Some(GamepadKind::PlayStation)
        } else if code == 3 {
            Some(GamepadKind::Nintendo)
        } else {
            None
        }
    }

    /// What resolving `code` gives: the kind it stands for, or the rejection
    /// that names it.
    pub open spec fn resolved(code: u8) -> Result<GamepadKind, DecodeError> {
        match Self::of_code(code) {
            Some(kind) => Ok(kind),
            None => Err(DecodeError::UnrecognizedKind { code }),
        }
    }

    /// The byte that stands for the kind on the wire.
    pub fn repr(self) -> (code: u8)
        ensures
            code == self.code(),
            code <= 3,
            Self::of_code(code) == Some(self),
    {
        match self {
            GamepadKind::Unknown => 0,
            GamepadKind::Xbox => 1,
            GamepadKind::PlayStation => 2,
            GamepadKind::Nintendo => 3,
        }
    }

    /// The kind that `discriminant` stands for; `None` for every byte above 3.
    pub fn from_repr(discriminant: u8) -> (kind: Option<Self>)
        ensures
            kind == Self::of_code(discriminant),
            kind is Some <==> discriminant <= 3,
            kind matches Some(k) ==> k.code() == discriminant,
    {
        match discriminant {
            0 => Some(GamepadKind::Unknown),
            1 => Some(GamepadKind::Xbox),
            2 => Some(GamepadKind::PlayStation),
            3 => Some(GamepadKind::Nintendo),
            _ => None,
        }
    }

    /// Resolves a kind byte, rejecting every byte that stands for no kind. An
    /// unrecognized byte is never taken for `Unknown`.
    pub fn resolve(code: u8) -> (r: Result<Self, DecodeError>)
        ensures
            r == Self::resolved(code),
            r is Ok <==> code <= 3,
            r matches Ok(kind) ==> kind.code() == code,
            code > 3 ==> r == Err::<Self, DecodeError>(DecodeError::UnrecognizedKind { code }),
    {
        match Self::from_repr(code) {
            Some(kind) => Ok(kind),
            None => Err(DecodeError::UnrecognizedKind { code }),
        }
    }

    /// Codes and kinds correspond one to one: a kind's code resolves to that
    /// kind, a code resolves to a kind only if it is that kind's code, and the
    /// codes that resolve are 0 to 3.
    pub proof fn lemma_code_round_trip(kind: GamepadKind, code: u8)
        ensures
            Self::of_code(kind.code()) == Some(kind),
            Self::of_code(code) == Some(kind) <==> kind.code() == code,
            Self::of_code(code) is Some <==> code <= 3,
            kind.code() <= 3,
    {
    }
}

} // verus!
