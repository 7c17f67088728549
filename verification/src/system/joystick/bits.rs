//! Joystick direction and button bits (active-high).

use vstd::prelude::*;

verus! {

/// Up direction bit.
pub const JOY_UP: u8 = 0x01;

/// Down direction bit.
pub const JOY_DOWN: u8 = 0x02;

/// Left direction bit.
pub const JOY_LEFT: u8 = 0x04;

/// Right direction bit.
pub const JOY_RIGHT: u8 = 0x08;

/// Fire button bit.
pub const JOY_FIRE: u8 = 0x10;

} // verus!
