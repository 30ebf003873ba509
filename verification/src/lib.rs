//! Sans-I/O core of the Hestia thermal payload: register-level drivers for the
//! heater controller and its temperature, voltage and current sensors, the
//! sensor catalogue of each board revision, and the controller that turns a
//! list of heating programs into heater commands.
//!
//! Nothing here touches the bus. A function named `read_*` interprets the
//! reply to a register read that the caller performed; a function named
//! `write_*` returns the transfer that the caller is to perform.
//!
//! The library looks outside itself in two places only: `State::next` and
//! `PayloadController::start` read the clock, and `I2cBus::is_present` asks
//! the file system whether the device node of a bus is there.

use vstd::prelude::*;

pub mod board;
pub mod csv;
pub mod device;
pub mod heater;
pub mod host;
pub mod payload;
pub mod programs;
pub mod reading;
pub mod sensors;
pub mod text;

verus! {

/// Why a two-byte bus transfer failed, as the operating system reported it.
#[derive(Debug, Copy, Clone, PartialEq, Eq, Structural)]
pub struct BusFault {
    /// The raw OS error code, or 0 where there was none.
    pub errno: i32,
}

/// Errors reading from the payload. They are per field and usually can be
/// reported and ignored.
#[derive(Debug, Copy, Clone)]
pub enum ReadError {
    /// No error
    NoError,
    /// Value out of acceptable range
    ValueOutOfRange,
    /// The bus transfer failed
    I2CError(BusFault),
    /// Sensor is disabled on this board revision
    Disabled,
}

impl ReadError {
    /// Whether two errors are of the same kind, whatever fault they carry.
    pub open spec fn same_kind(self, other: ReadError) -> bool {
        match (self, other) {
            (ReadError::NoError, ReadError::NoError) => true,
            (ReadError::ValueOutOfRange, ReadError::ValueOutOfRange) => true,
            (ReadError::I2CError(_), ReadError::I2CError(_)) => true,
            (ReadError::Disabled, ReadError::Disabled) => true,
            (_, _) => false,
        }
    }

    /// The text shown for this error.
    pub fn message(&self) -> (s: &'static str)
        ensures
            s@ == match *self {
                ReadError::NoError => "No error"@,
                ReadError::ValueOutOfRange => "Value out of range error"@,
                ReadError::I2CError(_) => "I2C Error"@,
                ReadError::Disabled => "Disabled"@,
            },
    {
        match self {
            ReadError::NoError => "No error",
            ReadError::ValueOutOfRange => "Value out of range error",
            ReadError::I2CError(_) => "I2C Error",
            ReadError::Disabled => "Disabled",
        }
    }
}

impl PartialEq for ReadError {
    /// Equality by kind: two bus errors are equal whatever their faults.
    fn eq(&self, other: &Self) -> (r: bool) {
        match (self, other) {
            (ReadError::NoError, ReadError::NoError) => true,
            (ReadError::ValueOutOfRange, ReadError::ValueOutOfRange) => true,
            (ReadError::I2CError(_), ReadError::I2CError(_)) => true,
            (ReadError::Disabled, ReadError::Disabled) => true,
            (_, _) => false,
        }
    }
}

impl vstd::std_specs::cmp::PartialEqSpecImpl for ReadError {
    open spec fn obeys_eq_spec() -> bool {
        true
    }

    open spec fn eq_spec(&self, other: &Self) -> bool {
        self.same_kind(*other)
    }
}

pub type ReadResult<T> = Result<T, ReadError>;

} // verus!
