//! The commands of the display and their encoding on the wire.

use crate::register::{
    BRIGHTNESS_SETTING, CLEAR_DISPLAY, DISPLAY_ADDRESS, DOTS, I2C_ADDRESS_SETTING, MODE_SETTING,
    POSITION_SETTING,
};
use vstd::prelude::*;

verus! {

/// Two possible display modes
#[derive(Clone, Copy, Debug, PartialEq, Eq)]
pub enum Mode {
    /// Scroll
    Scroll,
    /// Rotate
    Rotate,
}

impl Mode {
    /// The byte that selects this mode on the wire.
    pub open spec fn code(self) -> u8 {
        match self {
            Mode::Rotate => 0,
            Mode::Scroll => 1,
        }
    }
}

/// One command to the display: the payload of a single bus write.
#[derive(Clone, Copy, Debug, PartialEq, Eq)]
pub enum Command {
    /// Blank all four cells.
    ClearDisplay,
    /// Set the brightness to the given level (0 - 255, 127 is 50%).
    SetBrightness(u8),
    /// Store the given bus address in the device.
    SetAddress(u8),
    /// Show the current bus address on the display.
    ShowAddress,
    /// Select the display mode.
    SetMode(Mode),
    /// Write a value (second field) to the cell at a position (first field).
    SetCell(u8, u8),
    /// Switch the dots according to the given flags.
    SetDots(u8),
    /// Feed one byte to the display without naming a position.
    Push(u8),
}

impl Command {
    /// The bytes of this command on the wire.
    pub open spec fn bytes(self) -> Seq<u8> {
        match self {
            Command::ClearDisplay => seq![CLEAR_DISPLAY],
            Command::SetBrightness(level) => seq![BRIGHTNESS_SETTING, level],
            Command::SetAddress(address) => seq![I2C_ADDRESS_SETTING, address],
            Command::ShowAddress => seq![DISPLAY_ADDRESS],
            Command::SetMode(mode) => seq![MODE_SETTING, mode.code()],
            Command::SetCell(position, value) => seq![POSITION_SETTING, position, value],
            Command::SetDots(flags) => seq![DOTS, flags],
            Command::Push(value) => seq![value],
        }
    }

    /// Encodes this command for the bus.
    pub fn encode(&self) -> (out: Vec<u8>)
        ensures
            out@ == self.bytes(),
    {
        let mut out: Vec<u8> = Vec::new();
        match *self {
            Command::ClearDisplay => {
                out.push(CLEAR_DISPLAY);
            },
            Command::SetBrightness(level) => {
                out.push(BRIGHTNESS_SETTING);
                out.push(level);
            },
            Command::SetAddress(address) => {
                out.push(I2C_ADDRESS_SETTING);
                out.push(address);
            },
            Command::ShowAddress => {
                out.push(DISPLAY_ADDRESS);
            },
            Command::SetMode(mode) => {
                out.push(MODE_SETTING);
                match mode {
                    Mode::Rotate => out.push(0),
                    Mode::Scroll => out.push(1),
                }
            },
            Command::SetCell(position, value) => {
                out.push(POSITION_SETTING);
                out.push(position);
                out.push(value);
            },
            Command::SetDots(flags) => {
                out.push(DOTS);
                out.push(flags);
            },
            Command::Push(value) => {
                out.push(value);
            },
        }
        out
    }
}

/// The byte that stands for a character on the wire: the low eight bits of
/// its code point.
pub open spec fn char_code(ch: char) -> u8 {
    (ch as u32 % 256) as u8
}

/// Computes the byte that stands for `ch` on the wire.
pub fn code_of(ch: char) -> (code: u8)
    ensures
        code == char_code(ch),
{
    (ch as u32 % 256) as u8
}

} // verus!
