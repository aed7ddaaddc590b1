//! The controller handle: what applies decoded events to a controller device.
//!
//! No controller backend is present, and the handle says so in its own
//! terms: asking for one always answers `Unavailable`, and the operations
//! that would drive a device accept every event and change nothing.

use vstd::prelude::*;
use crate::battery::GamepadBattery;
use crate::error::GamepadError;
use crate::info::GamepadInfo;
use crate::motion::GamepadMotion;
use crate::touch::GamepadTouch;
use crate::update::GamepadUpdate;

verus! {

/// `tokio::sync::mpsc::Sender`, the sending half of a bounded channel: the
/// sink for the commands a controller sends back to its client. The type is
/// opaque here and nothing is claimed of it; a handle only takes it over.
#[verifier::external_type_specification]
#[verifier::external_body]
#[verifier::reject_recursive_types(T)]
pub struct ExSender<T>(tokio::sync::mpsc::Sender<T>);

/// A live controller.
pub struct Gamepad {
    #[allow(dead_code)]
    _index: u8,
}

impl Gamepad {
    /// Asks for a controller as `info` announces it, with `_feedback_tx` as
    /// the sink for its feedback commands, whatever type `C` the session
    /// gives them. Without a backend there is no controller to give: the
    /// answer is `Unavailable` for every announcement, and the sink is
    /// dropped unused.
    #[allow(unused_variables)]
    pub fn new<C>(info: &GamepadInfo, _feedback_tx: tokio::sync::mpsc::Sender<C>) -> (r: Result<
        Self,
        GamepadError,
    >)
        ensures
            r == Err::<Self, GamepadError>(GamepadError::Unavailable),
    {
        Err(GamepadError::Unavailable)
    }

    /// Applies a state snapshot. Accepted, and without effect on the handle.
    pub fn update(&mut self, _update: &GamepadUpdate)
        ensures
            *final(self) == *old(self),
    {
    }

    /// Applies a touch event. Accepted, and without effect on the handle.
    pub fn touch(&mut self, _touch: &GamepadTouch)
        ensures
            *final(self) == *old(self),
    {
    }

    /// Applies a motion sample. Accepted, and without effect.
    pub fn set_motion(&self, _motion: &GamepadMotion) {
    }

    /// Applies a battery report. Accepted, and without effect.
    pub fn set_battery(&self, _gamepad_battery: &GamepadBattery) {
    }
}

} // verus!
