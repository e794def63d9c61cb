use vstd::prelude::*;

verus! {

/// INA219 driver error.
#[derive(Debug, Clone, Copy, PartialEq, Eq)]
pub enum Error<E> {
    /// A bus transfer failed.
    Bus(E),
    /// Current or Power was asked for before the driver was calibrated (or
    /// after a reset): the chip reads them back as 0 until Calibration is
    /// programmed, which must not pass for a real reading.
    NotCalibrated,
}

impl<E> From<E> for Error<E> {
    fn from(e: E) -> (r: Self) {
        Error::Bus(e)
    }
}

impl<E> vstd::std_specs::convert::FromSpecImpl<E> for Error<E> {
    open spec fn obeys_from_spec() -> bool {
        true
    }

    open spec fn from_spec(v: E) -> Self {
        Error::Bus(v)
    }
}

} // verus!
