//! Driver core for the Akafugu TWIDisplay, a 4-digit 7-segment display that
//! is controlled over a two-wire bus.
//!
//! The crate decides which bytes go to the device and in which order. It
//! never touches the bus itself: every request yields a queue of commands,
//! and the caller writes them out one by one.
//!
//! ```text
//! let mut akafugu = TWIDisplay::new(i2c, DEFAULT_ADDRESS);
//! let mut transfer = akafugu.display_temperature(-10, TempUnits::Celsius, Some(-50), Some(199))?;
//! while let Some(command) = transfer.next_command() {
//!     let answer = akafugu.bus().write(transfer.address(), &command.encode());
//!     transfer.complete(answer)?;
//! }
//! ```
//!
//! - [`display`]: the driver and its requests.
//! - [`format`]: how a reading with unit, thresholds and limits becomes four
//!   cells.
//! - [`digits`]: how a number becomes four digits.
//! - [`command`], [`register`]: the commands and their bytes on the wire.
//! - [`transfer`]: the queue of commands and what follows from each answer
//!   of the bus.

pub mod command;
pub mod digits;
pub mod display;
pub mod error;
pub mod format;
pub mod register;
pub mod transfer;

pub use crate::command::{Command, Mode};
pub use crate::display::{TWIDisplay, DEFAULT_ADDRESS};
pub use crate::error::Error;
pub use crate::format::{Cell, RenderMode, TempUnits};
pub use crate::transfer::Transfer;
