//! Decoders for the binary game-controller messages of a streaming session's
//! control channel.
//!
//! Each of the five message kinds has a fixed layout of little-endian fields.
//! A decoder takes one buffer and returns either the event that its leading
//! bytes encode or the reason the buffer was rejected; nothing is ever decoded
//! in part.
//!
//! | Message | Least length | Fields, by byte offset |
//! |---|---|---|
//! | [`GamepadInfo`] | 8 | 0 index, 1 kind, 2-3 capabilities, 4-7 supported buttons |
//! | [`GamepadTouch`] | 20 | 0 index, 1 event type, 4-7 pointer id, 8-11 x, 12-15 y, 16-19 pressure |
//! | [`GamepadUpdate`] | 26 | 2-3 index, 4-5 active mask, 8-9 buttons (low half), 10 left trigger, 11 right trigger, 12-19 sticks, 22-23 buttons (high half) |
//! | [`GamepadMotion`] | 16 | 0 index, 1 motion type, 4-7 x, 8-11 y, 12-15 z |
//! | [`GamepadBattery`] | 4 | 0 index, 1 state, 2 percentage |
//!
//! Bytes that the table does not name are reserved and never read. A buffer
//! may be longer than its message needs; what follows is not read either.
//! Single-precision fields are carried as bit patterns, see [`Binary32`].

pub mod battery;
pub mod binary32;
pub mod error;
pub mod gamepad;
pub mod info;
pub mod kind;
pub mod laws;
pub mod motion;
pub mod touch;
pub mod update;
pub mod wire;

pub use battery::GamepadBattery;
pub use binary32::Binary32;
pub use error::{DecodeError, GamepadError};
pub use gamepad::Gamepad;
pub use info::GamepadInfo;
pub use kind::GamepadKind;
pub use motion::GamepadMotion;
pub use touch::GamepadTouch;
pub use update::GamepadUpdate;
