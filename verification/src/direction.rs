//! The direction of a search along a room's timeline.

use vstd::prelude::*;

verus! {

/// The direction in which to search along a room's timeline.
#[derive(Clone, Copy, Debug, PartialEq, Eq, Structural)]
pub enum Direction {
    /// Towards earlier events.
    Backward,
    /// Towards later events.
    Forward,
}

} // verus!
