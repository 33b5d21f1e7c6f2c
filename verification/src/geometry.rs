//! Keeping an explicit offset inside the room that a window has.

use vstd::prelude::*;

verus! {

/// The offset nearest to `candidate` that keeps a window inside `room`, the
/// extent of the surrounding box less the extent of the window: no more than
/// `room`, and never negative, so that a window larger than its surroundings
/// sits at the near edge.
pub open spec fn clamp(candidate: int, room: int) -> int {
    let capped = if candidate < room {
        candidate
    } else {
        room
    };
    if capped < 0 {
        0
    } else {
        capped
    }
}

/// A clamped offset lies in `[0, room]` whenever that interval has a point,
/// is zero when it has none, and is the candidate itself when the candidate
/// already lies inside.
pub proof fn clamp_stays_inside(candidate: int, room: int)
    ensures
        0 <= clamp(candidate, room),
        room >= 0 ==> clamp(candidate, room) <= room,
        room < 0 ==> clamp(candidate, room) == 0,
        0 <= candidate <= room ==> clamp(candidate, room) == candidate,
{
}

/// Clamping twice into the same room changes nothing more.
pub proof fn clamp_is_idempotent(candidate: int, room: int)
    ensures
        clamp(clamp(candidate, room), room) == clamp(candidate, room),
{
}

/// The offset nearest to `candidate` that keeps a window inside `room`.
pub fn clamp_offset(candidate: i64, room: i64) -> (offset: i32)
    requires
        room <= i32::MAX,
    ensures
        offset == clamp(candidate as int, room as int),
{
    let capped = if candidate < room {
        candidate
    } else {
        room
    };
    if capped < 0 {
        0
    } else {
        capped as i32
    }
}

} // verus!
