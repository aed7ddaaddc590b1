//! What holds of the five decoders together.
//!
//! Each decoder's contract equates its result with the `decode` function of
//! its message kind, so what is proved here of `decode` holds of every call.

use vstd::prelude::*;
use crate::battery::{GamepadBattery, BATTERY_MIN_LEN};
use crate::error::{truncated, DecodeError};
use crate::info::{GamepadInfo, INFO_MIN_LEN};
use crate::motion::{GamepadMotion, MOTION_MIN_LEN};
use crate::touch::{GamepadTouch, TOUCH_MIN_LEN};
use crate::update::{GamepadUpdate, UPDATE_MIN_LEN};

verus! {

/// Whether `first` and `second` hold the same bytes.
pub open spec fn same_bytes(first: Seq<u8>, second: Seq<u8>) -> bool {
    &&& first.len() == second.len()
    &&& forall|i: int| 0 <= i < first.len() ==> first[i] == second[i]
}

/// Whether `first` and `second` each hold at least `n` bytes and agree on
/// their first `n`.
pub open spec fn same_head(first: Seq<u8>, second: Seq<u8>, n: int) -> bool {
    &&& first.len() >= n
    &&& second.len() >= n
    &&& forall|i: int| 0 <= i < n ==> first[i] == second[i]
}

/// Decoding has no hidden state: buffers that hold the same bytes decode to
/// the same result, be it an event or a rejection, and so does one buffer
/// decoded twice.
pub proof fn lemma_decoding_is_repeatable(first: Seq<u8>, second: Seq<u8>)
    requires
        same_bytes(first, second),
    ensures
        GamepadInfo::decode(first) == GamepadInfo::decode(second),
        GamepadTouch::decode(first) == GamepadTouch::decode(second),
        GamepadUpdate::decode(first) == GamepadUpdate::decode(second),
        GamepadMotion::decode(first) == GamepadMotion::decode(second),
        GamepadBattery::decode(first) == GamepadBattery::decode(second),
{
}

/// A decoder reads the fixed-size head of its message and nothing behind it:
/// buffers that are long enough and agree on that head decode to the same
/// result, whatever follows and however much of it.
pub proof fn lemma_trailing_bytes_are_ignored(first: Seq<u8>, second: Seq<u8>)
    ensures
        same_head(first, second, INFO_MIN_LEN as int) ==> GamepadInfo::decode(first)
            == GamepadInfo::decode(second),
        same_head(first, second, TOUCH_MIN_LEN as int) ==> GamepadTouch::decode(first)
            == GamepadTouch::decode(second),
        same_head(first, second, UPDATE_MIN_LEN as int) ==> GamepadUpdate::decode(first)
            == GamepadUpdate::decode(second),
        same_head(first, second, MOTION_MIN_LEN as int) ==> GamepadMotion::decode(first)
            == GamepadMotion::decode(second),
        same_head(first, second, BATTERY_MIN_LEN as int) ==> GamepadBattery::decode(first)
            == GamepadBattery::decode(second),
{
}

/// A decoder succeeds on exactly the buffers that are long enough, for a
/// capability announcement with a kind byte of 0 to 3. No other field is
/// ever a reason to reject, whatever it holds.
pub proof fn lemma_accepted_buffers(bytes: Seq<u8>)
    ensures
        GamepadInfo::decode(bytes) is Ok <==> bytes.len() >= INFO_MIN_LEN && bytes[1] <= 3,
        GamepadTouch::decode(bytes) is Ok <==> bytes.len() >= TOUCH_MIN_LEN,
        GamepadUpdate::decode(bytes) is Ok <==> bytes.len() >= UPDATE_MIN_LEN,
        GamepadMotion::decode(bytes) is Ok <==> bytes.len() >= MOTION_MIN_LEN,
        GamepadBattery::decode(bytes) is Ok <==> bytes.len() >= BATTERY_MIN_LEN,
{
}

/// A buffer shorter than its message kind needs is truncated and yields no
/// event, whatever its bytes hold; the rejection names both lengths.
pub proof fn lemma_short_buffers_are_truncated(bytes: Seq<u8>)
    ensures
        bytes.len() < INFO_MIN_LEN ==> GamepadInfo::decode(bytes) == Err::<
            GamepadInfo,
            DecodeError,
        >(truncated(INFO_MIN_LEN, bytes.len())),
        bytes.len() < TOUCH_MIN_LEN ==> GamepadTouch::decode(bytes) == Err::<
            GamepadTouch,
            DecodeError,
        >(truncated(TOUCH_MIN_LEN, bytes.len())),
        bytes.len() < UPDATE_MIN_LEN ==> GamepadUpdate::decode(bytes) == Err::<
            GamepadUpdate,
            DecodeError,
        >(truncated(UPDATE_MIN_LEN, bytes.len())),
        bytes.len() < MOTION_MIN_LEN ==> GamepadMotion::decode(bytes) == Err::<
            GamepadMotion,
            DecodeError,
        >(truncated(MOTION_MIN_LEN, bytes.len())),
        bytes.len() < BATTERY_MIN_LEN ==> GamepadBattery::decode(bytes) == Err::<
            GamepadBattery,
            DecodeError,
        >(truncated(BATTERY_MIN_LEN, bytes.len())),
{
}

/// Whether byte `at` of a state snapshot is reserved.
pub open spec fn update_reserves(at: int) -> bool {
    at == 0 || at == 1 || at == 6 || at == 7 || at == 20 || at == 21 || at == 24 || at == 25
}

/// Reserved bytes carry no meaning: whatever one of them holds, the buffer
/// decodes to the same result. The reserved bytes are 2 and 3 of a touch
/// event and of a motion sample, 3 of a battery report, and 0, 1, 6, 7, 20,
/// 21, 24 and 25 of a state snapshot; a capability announcement has none.
pub proof fn lemma_reserved_bytes_are_ignored(bytes: Seq<u8>, at: int, value: u8)
    requires
        0 <= at < bytes.len(),
    ensures
        at == 2 || at == 3 ==> GamepadTouch::decode(bytes.update(at, value))
            == GamepadTouch::decode(bytes),
        update_reserves(at) ==> GamepadUpdate::decode(bytes.update(at, value))
            == GamepadUpdate::decode(bytes),
        at == 2 || at == 3 ==> GamepadMotion::decode(bytes.update(at, value))
            == GamepadMotion::decode(bytes),
        at == 3 ==> GamepadBattery::decode(bytes.update(at, value)) == GamepadBattery::decode(
            bytes,
        ),
{
}

} // verus!
