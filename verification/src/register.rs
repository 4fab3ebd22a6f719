//! Opcodes and flag bits of the display controller.

use vstd::prelude::*;

verus! {

/// Sets the brightness; followed by the level.
pub const BRIGHTNESS_SETTING: u8 = 0x80;

/// Stores a new bus address; followed by the address.
pub const I2C_ADDRESS_SETTING: u8 = 0x81;

/// Blanks all four cells.
pub const CLEAR_DISPLAY: u8 = 0x82;

/// Selects how unpositioned bytes enter the display; followed by the mode.
pub const MODE_SETTING: u8 = 0x83;

/// Switches the dots; followed by the flags.
pub const DOTS: u8 = 0x85;

/// Writes one cell; followed by the position and the value.
pub const POSITION_SETTING: u8 = 0x89;

/// Shows the bus address the device listens on.
pub const DISPLAY_ADDRESS: u8 = 0x90;

/// Flag of the dot behind the second cell.
pub const DOT2: u8 = 0b0000_0100;

} // verus!
