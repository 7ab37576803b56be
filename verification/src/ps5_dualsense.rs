//! Positions of the DualSense controller's raw buttons and axes in one input frame.
use vstd::prelude::*;

verus! {

/// Raw button positions.
pub const BUTTON_CROSS: usize = 0;
pub const BUTTON_CIRCLE: usize = 1;
pub const BUTTON_TRIANGLE: usize = 2;
pub const BUTTON_SQUARE: usize = 3;
pub const BUTTON_L1: usize = 4;
pub const BUTTON_R1: usize = 5;
pub const BUTTON_L2: usize = 6;
pub const BUTTON_R2: usize = 7;
pub const BUTTON_SELECT: usize = 8;
pub const BUTTON_START: usize = 9;
pub const BUTTON_PS: usize = 10;

/// Number of raw buttons a frame must carry.
pub const RAW_BUTTON_COUNT: usize = 11;

/// Raw axis positions.
pub const AXIS_STICK_LX: usize = 0;
pub const AXIS_STICK_LY: usize = 1;
pub const AXIS_L2: usize = 2;
pub const AXIS_STICK_RX: usize = 3;
pub const AXIS_STICK_RY: usize = 4;
pub const AXIS_R2: usize = 5;
pub const AXIS_DPAD_X: usize = 6;
pub const AXIS_DPAD_Y: usize = 7;

/// Number of raw axes a frame must carry.
pub const RAW_AXIS_COUNT: usize = 8;

} // verus!
