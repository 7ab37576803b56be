//! Logical button identifiers: the positions of the latches that the control loop keeps.
use vstd::prelude::*;

verus! {

pub const SQUARE: usize = 0;
pub const CIRCLE: usize = 1;
pub const TRIANGLE: usize = 2;
pub const CROSS: usize = 3;
pub const L1: usize = 4;
pub const L2: usize = 5;
pub const R1: usize = 6;
pub const R2: usize = 7;
pub const D_PAD_UP: usize = 8;
pub const D_PAD_DOWN: usize = 9;
pub const D_PAD_LEFT: usize = 10;
pub const D_PAD_RIGHT: usize = 11;
pub const START: usize = 12;
pub const SELECT: usize = 13;
pub const PS: usize = 14;

/// Number of logical buttons; every identifier is below it.
pub const BUTTON_COUNT: usize = 15;

} // verus!
