//! The errors of this crate.

use vstd::prelude::*;

verus! {

/// All possible errors in this crate
#[derive(Debug)]
pub enum Error<E> {
    /// I2C bus error
    I2C(E),
    /// Invalid input data
    InvalidInputData,
}

} // verus!
