use vstd::prelude::*;

verus! {

/// EMC1403 driver error.
#[derive(Debug, Clone, Copy, PartialEq, Eq)]
pub enum Error<E> {
    Bus(E),
    /// Identification read something other than a Microchip EMC1403/EMC1404
    /// back: a distinct variant, since the bus also carries other devices and
    /// a wrong-address bug should fail loudly.
    UnexpectedDevice { product: u8, manufacturer: u8 },
}

impl<E> From<E> for Error<E> {
    fn from(e: E) -> (r: Self) {
        Error::Bus(e)
    }
}

impl<E> vstd::std_specs::convert::FromSpecImpl<E> for Error<E> {
    open spec fn obeys_from_spec() -> bool {
        true
    }

    open spec fn from_spec(v: E) -> Self {
        Error::Bus(v)
    }
}

} // verus!
