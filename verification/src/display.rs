//! The display driver: every request is checked and turned into the
//! commands that carry it out.

use crate::command::{char_code, code_of, Command, Mode};
use crate::digits::{decimal_digits, get_digits};
use crate::error::Error;
use crate::format::{
    cells_of, lemma_resolved_thresholds_show_alike, render, resolve_thresholds, Cell, TempUnits,
    HIGHEST, LOWEST,
};
use crate::register::DOT2;
use crate::transfer::Transfer;
use vstd::prelude::*;

verus! {

/// Default I2C address for the device
pub const DEFAULT_ADDRESS: u8 = 0x12;

/// The highest bus address that the device can be told to move to.
pub const HIGHEST_NEW_ADDRESS: u8 = 0x3f;

/// The command that writes `cell` at `position`.
pub open spec fn cell_command(position: int, cell: Cell) -> Command {
    Command::SetCell(
        position as u8,
        match cell {
            Cell::Digit(digit) => digit,
            Cell::Char(ch) => char_code(ch),
        },
    )
}

/// The commands that write `cells` from position 0 on, left to right.
pub open spec fn cell_commands(cells: Seq<Cell>) -> Seq<Command> {
    Seq::new(cells.len(), |i: int| cell_command(i, cells[i]))
}

/// The commands that write the four decimal digits of `number` to the cells
/// 0 to 3: thousands, hundreds, tens, units.
pub open spec fn number_commands(number: int) -> Seq<Command> {
    Seq::new(4, |i: int| Command::SetCell(i as u8, decimal_digits(number)[i] as u8))
}

/// The commands that feed `text` to the display, one character each.
pub open spec fn text_commands(text: Seq<char>) -> Seq<Command> {
    Seq::new(text.len(), |i: int| Command::Push(char_code(text[i])))
}

/// The command that switches the dot between hours and minutes.
pub open spec fn dot_command(dot: bool) -> Command {
    Command::SetDots(
        if dot {
            DOT2
        } else {
            0
        },
    )
}

/// TWIDisplay driver, that holds the I2C bus instance and the I2C address used
#[derive(Debug, Default)]
pub struct TWIDisplay<I2C> {
    /// The concrete I2C device implementation.
    i2c: I2C,
    dev_addr: u8,
}

impl<I2C> TWIDisplay<I2C> {
    /// The bus instance that the driver holds.
    pub closed spec fn held_bus(&self) -> I2C {
        self.i2c
    }

    /// The bus address of the display.
    pub closed spec fn device_address(&self) -> u8 {
        self.dev_addr
    }

    /// `r` is a transfer to this display that holds exactly `commands`.
    pub open spec fn queues<E>(&self, r: Result<Transfer, Error<E>>, commands: Seq<Command>) -> bool {
        r matches Ok(transfer) && transfer.carries(self.device_address(), commands)
    }

    /// Create a new instance of the TWIDisplay driver.
    pub fn new(i2c: I2C, dev_addr: u8) -> (display: Self)
        ensures
            display.held_bus() == i2c,
            display.device_address() == dev_addr,
    {
        TWIDisplay { i2c, dev_addr }
    }

    /// Destroy driver instance, return I2C bus instance.
    pub fn destroy(self) -> (i2c: I2C)
        ensures
            i2c == self.held_bus(),
    {
        self.i2c
    }

    /// The bus address of the display.
    pub fn address(&self) -> (address: u8)
        ensures
            address == self.device_address(),
    {
        self.dev_addr
    }

    /// Lends the bus instance, to write a command to the device.
    pub fn bus(&mut self) -> (bus: &mut I2C)
        ensures
            *bus == old(self).held_bus(),
            final(self).held_bus() == *final(bus),
            final(self).device_address() == old(self).device_address(),
    {
        &mut self.i2c
    }

    /// Clear the display
    pub fn clear_display<E>(&self) -> (r: Result<Transfer, Error<E>>)
        ensures
            self.queues(r, seq![Command::ClearDisplay]),
    {
        let mut transfer = Transfer::new(self.dev_addr);
        transfer.push(Command::ClearDisplay);
        Ok(transfer)
    }

    /// Write digit D at position P
    pub fn display_digit<E>(&self, position: u8, digit: u8) -> (r: Result<Transfer, Error<E>>)
        ensures
            match r {
                Ok(transfer) => {
                    &&& position <= 3
                    &&& digit <= 9
                    &&& transfer.carries(
                        self.device_address(),
                        seq![Command::SetCell(position, digit)],
                    )
                },
                Err(e) => (position > 3 || digit > 9) && e is InvalidInputData,
            },
    {
        if position > 3 || digit > 9 {
            return Err(Error::InvalidInputData);
        }
        let mut transfer = Transfer::new(self.dev_addr);
        transfer.push(Command::SetCell(position, digit));
        Ok(transfer)
    }

    /// Write character C at position P
    pub fn display_char<E>(&self, position: u8, ch: char) -> (r: Result<Transfer, Error<E>>)
        ensures
            match r {
                Ok(transfer) => {
                    &&& position <= 3
                    &&& transfer.carries(
                        self.device_address(),
                        seq![Command::SetCell(position, char_code(ch))],
                    )
                },
                Err(e) => position > 3 && e is InvalidInputData,
            },
    {
        if position > 3 {
            return Err(Error::InvalidInputData);
        }
        let mut transfer = Transfer::new(self.dev_addr);
        transfer.push(Command::SetCell(position, code_of(ch)));
        Ok(transfer)
    }

    /// Display data with units (temperature, humidity) and defined thresholds
    ///
    /// The reading is rendered into four cells, and each cell is written at
    /// its position. Limits below -99 or above 999 are replaced by -99 and
    /// 999. No reading is rejected: one that cannot be shown as a number
    /// shows as `----`, `-LL-` or `-HH-`.
    pub fn display_data<E>(
        &self,
        data: i16,
        unit: char,
        lo_thresh: Option<i16>,
        hi_thresh: Option<i16>,
        min_val: i16,
        max_val: i16,
    ) -> (r: Result<Transfer, Error<E>>)
        ensures
            self.queues(
                r,
                cell_commands(cells_of(data, unit, lo_thresh, hi_thresh, min_val, max_val)),
            ),
    {
        let cells = render(data, unit, lo_thresh, hi_thresh, min_val, max_val);
        let mut transfer = Transfer::new(self.dev_addr);
        let mut position: u8 = 0;
        while position < 4
            invariant
                position <= 4,
                cells@.len() == 4,
                forall|i: int| 0 <= i < 4 ==> (#[trigger] cells@[i]).wf(),
                transfer.carries(
                    self.device_address(),
                    cell_commands(cells@).take(position as int),
                ),
            decreases 4 - position,
        {
            let cell = cells[position as usize];
            let step = match cell {
                Cell::Digit(digit) => self.display_digit::<E>(position, digit),
                Cell::Char(ch) => self.display_char::<E>(position, ch),
            };
            match step {
                Ok(write) => {
                    transfer.append(write);
                },
                Err(e) => {
                    return Err(e);
                },
            }
            assert(cell_commands(cells@).take(position as int + 1) == cell_commands(cells@).take(
                position as int,
            ).push(cell_command(position as int, cell)));
            position = position + 1;
        }
        Ok(transfer)
    }

    /// Display temperature between -99 and 999 with a chosen unit, with lower and upper threshold
    pub fn display_temperature<E>(
        &self,
        temperature: i16,
        unit: TempUnits,
        lo_thresh: Option<i16>,
        hi_thresh: Option<i16>,
    ) -> (r: Result<Transfer, Error<E>>)
        ensures
            self.queues(
                r,
                cell_commands(
                    cells_of(temperature, unit.symbol(), lo_thresh, hi_thresh, LOWEST, HIGHEST),
                ),
            ),
    {
        let temp_unit = unit.unit_char();
        let (lo_th, hi_th) = resolve_thresholds(lo_thresh, hi_thresh, LOWEST, HIGHEST);
        proof {
            lemma_resolved_thresholds_show_alike(
                temperature,
                temp_unit,
                lo_thresh,
                hi_thresh,
                LOWEST,
                HIGHEST,
            );
        }
        self.display_data(temperature, temp_unit, Some(lo_th), Some(hi_th), LOWEST, HIGHEST)
    }

    /// Display humidity in range 0-100, with lower and upper threshold.
    pub fn display_humidity<E>(
        &self,
        humidity: i16,
        lo_thresh: Option<i16>,
        hi_thresh: Option<i16>,
    ) -> (r: Result<Transfer, Error<E>>)
        ensures
            self.queues(r, cell_commands(cells_of(humidity, 'H', lo_thresh, hi_thresh, 0, 100))),
    {
        let (lo_th, hi_th) = resolve_thresholds(lo_thresh, hi_thresh, 0, 100);
        proof {
            lemma_resolved_thresholds_show_alike(humidity, 'H', lo_thresh, hi_thresh, 0, 100);
        }
        self.display_data(humidity, 'H', Some(lo_th), Some(hi_th), 0, 100)
    }

    /// Display time in HH:MM format, with an optional dot between them
    pub fn display_time<E>(&self, hours: u8, minutes: u8, dot: bool) -> (r: Result<
        Transfer,
        Error<E>,
    >)
        ensures
            match r {
                Ok(transfer) => {
                    &&& hours <= 23
                    &&& minutes <= 59
                    &&& transfer.carries(
                        self.device_address(),
                        number_commands(hours * 100 + minutes).push(dot_command(dot)),
                    )
                },
                Err(e) => (hours > 23 || minutes > 59) && e is InvalidInputData,
            },
    {
        if hours > 23 || minutes > 59 {
            return Err(Error::InvalidInputData);
        }
        let time_value: u16 = (hours as u16) * 100 + minutes as u16;
        let mut transfer = match self.display_number::<E>(time_value) {
            Ok(digits) => digits,
            Err(e) => {
                return Err(e);
            },
        };
        if dot {
            transfer.push(Command::SetDots(DOT2));
        } else {
            transfer.push(Command::SetDots(0));
        }
        Ok(transfer)
    }

    /// Display a number using all four digits
    pub fn display_number<E>(&self, number: u16) -> (r: Result<Transfer, Error<E>>)
        ensures
            match r {
                Ok(transfer) => {
                    &&& number <= 9999
                    &&& transfer.carries(self.device_address(), number_commands(number as int))
                },
                Err(e) => number > 9999 && e is InvalidInputData,
            },
    {
        if number > 9999 {
            return Err(Error::InvalidInputData);
        }
        let digits = get_digits(number);
        let mut transfer = Transfer::new(self.dev_addr);
        let mut position: u8 = 0;
        while position < 4
            invariant
                position <= 4,
                number <= 9999,
                digits@.len() == 4,
                forall|i: int| 0 <= i < 4 ==> digits@[i] as int == decimal_digits(number as int)[i],
                transfer.carries(
                    self.device_address(),
                    number_commands(number as int).take(position as int),
                ),
            decreases 4 - position,
        {
            let digit = digits[position as usize];
            match self.display_digit::<E>(position, digit) {
                Ok(write) => {
                    transfer.append(write);
                },
                Err(e) => {
                    return Err(e);
                },
            }
            assert(number_commands(number as int).take(position as int + 1) == number_commands(
                number as int,
            ).take(position as int).push(Command::SetCell(position, digit)));
            position = position + 1;
        }
        Ok(transfer)
    }

    /// Send a digit to the display without specifying the position
    pub fn send_digit<E>(&self, number: u8) -> (r: Result<Transfer, Error<E>>)
        ensures
            match r {
                Ok(transfer) => {
                    &&& number <= 9
                    &&& transfer.carries(self.device_address(), seq![Command::Push(number)])
                },
                Err(e) => number > 9 && e is InvalidInputData,
            },
    {
        if number > 9 {
            return Err(Error::InvalidInputData);
        }
        let mut transfer = Transfer::new(self.dev_addr);
        transfer.push(Command::Push(number));
        Ok(transfer)
    }

    /// Set I2C address, defaults to 0x12
    ///
    /// An address above 0x3f is not passed on: nothing is written then. The
    /// device listens on the new address after it was powered down and up,
    /// so the driver goes on with the address it was made with.
    pub fn set_address<E>(&self, address: u8) -> (r: Result<Transfer, Error<E>>)
        ensures
            self.queues(
                r,
                if address <= HIGHEST_NEW_ADDRESS {
                    seq![Command::SetAddress(address)]
                } else {
                    Seq::empty()
                },
            ),
    {
        let mut transfer = Transfer::new(self.dev_addr);
        if address <= HIGHEST_NEW_ADDRESS {
            transfer.push(Command::SetAddress(address));
        }
        Ok(transfer)
    }

    /// Set the display mode: Scroll or Rotate (see documentation)
    pub fn set_mode<E>(&self, mode: Mode) -> (r: Result<Transfer, Error<E>>)
        ensures
            self.queues(r, seq![Command::SetMode(mode)]),
    {
        let mut transfer = Transfer::new(self.dev_addr);
        transfer.push(Command::SetMode(mode));
        Ok(transfer)
    }

    /// Send text to the display
    pub fn send_text<E>(&self, text: &str) -> (r: Result<Transfer, Error<E>>)
        ensures
            self.queues(r, text_commands(text@)),
    {
        let mut transfer = Transfer::new(self.dev_addr);
        for ch in it: text.chars()
            invariant
                it.seq() == text@,
                transfer.carries(self.device_address(), text_commands(text@).take(it.index())),
        {
            match self.send_char::<E>(ch) {
                Ok(write) => {
                    transfer.append(write);
                },
                Err(e) => {
                    return Err(e);
                },
            }
            assert(text_commands(text@).take(it.index() + 1) == text_commands(text@).take(
                it.index(),
            ).push(Command::Push(char_code(ch))));
        }
        Ok(transfer)
    }

    /// Send a character to the display without specifying the position
    pub fn send_char<E>(&self, ch: char) -> (r: Result<Transfer, Error<E>>)
        ensures
            self.queues(r, seq![Command::Push(char_code(ch))]),
    {
        let mut transfer = Transfer::new(self.dev_addr);
        transfer.push(Command::Push(code_of(ch)));
        Ok(transfer)
    }

    /// Show the current I2C address on the display
    pub fn display_address<E>(&self) -> (r: Result<Transfer, Error<E>>)
        ensures
            self.queues(r, seq![Command::ShowAddress]),
    {
        let mut transfer = Transfer::new(self.dev_addr);
        transfer.push(Command::ShowAddress);
        Ok(transfer)
    }

    /// Set display brightness (0 - 255, 127 is 50%)
    pub fn set_brightness<E>(&self, brightness: u8) -> (r: Result<Transfer, Error<E>>)
        ensures
            self.queues(r, seq![Command::SetBrightness(brightness)]),
    {
        let mut transfer = Transfer::new(self.dev_addr);
        transfer.push(Command::SetBrightness(brightness));
        Ok(transfer)
    }
}

} // verus!
