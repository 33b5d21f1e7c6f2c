//! Stepping through a list of panels one at a time, round and round.

use vstd::prelude::*;

verus! {

/// The place after `current` in a list of `len` items; after the last comes
/// the first.
pub open spec fn following(current: int, len: int) -> int {
    if current == len - 1 {
        0
    } else {
        current + 1
    }
}

/// The place before `current` in a list of `len` items; before the first
/// comes the last.
pub open spec fn preceding(current: int, len: int) -> int {
    if current == 0 {
        len - 1
    } else {
        current - 1
    }
}

/// Stepping on and then back, or back and then on, comes to the same place,
/// and both steps stay inside the list.
pub proof fn steps_undo_each_other(current: int, len: int)
    requires
        0 <= current < len,
    ensures
        0 <= following(current, len) < len,
        0 <= preceding(current, len) < len,
        preceding(following(current, len), len) == current,
        following(preceding(current, len), len) == current,
{
}

/// The place after `current` in a list of `len` items.
pub fn increment(current: usize, len: usize) -> (next: usize)
    requires
        current < len,
    ensures
        next == following(current as int, len as int),
        next < len,
{
    if current == len - 1 {
        0
    } else {
        current + 1
    }
}

/// The place before `current` in a list of `len` items.
pub fn decrement(current: usize, len: usize) -> (previous: usize)
    requires
        current < len,
    ensures
        previous == preceding(current as int, len as int),
        previous < len,
{
    if current == 0 {
        len - 1
    } else {
        current - 1
    }
}

} // verus!
