//! The units in which lengths are counted, and how far they reach.

use vstd::prelude::*;

verus! {

/// The number of sub-units in one world unit. Lengths, positions and speeds
/// are whole numbers of sub-units.
pub const UNIT: i32 = 1000;

/// How far from the origin, along either axis, a moving thing can be
/// carried, and how far it can travel in one tick. Beyond this the
/// arithmetic of a tick could leave the range of the integers that hold the
/// state.
pub const REACH: i32 = 0x2000_0000;

} // verus!
