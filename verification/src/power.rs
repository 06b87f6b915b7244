//! Power management values
//!
//! The temperature reading and the power source state. Battery voltage
//! conversion and thermal limiting work in floating point and live in the
//! application.

use vstd::prelude::*;

verus! {

/// Temperature reading
#[derive(Clone, Copy, Debug, PartialEq, Eq, Structural)]
pub struct Temperature {
    /// Temperature in 0.1°C units
    raw_tenths: i16,
}

impl Temperature {
    /// The temperature in tenths of a degree Celsius.
    pub closed spec fn spec_tenths(self) -> i16 {
        self.raw_tenths
    }

    /// Create from raw tenths of a degree
    pub fn from_tenths(tenths: i16) -> (r: Self)
        ensures
            r.spec_tenths() == tenths,
    {
        Self { raw_tenths: tenths }
    }

    /// The temperature in tenths of a degree Celsius
    pub fn tenths(&self) -> (r: i16)
        ensures
            r == self.spec_tenths(),
    {
        self.raw_tenths
    }
}

/// Power state
#[derive(Clone, Copy, Debug, PartialEq, Eq, Structural, Default)]
pub enum PowerState {
    /// Running on battery
    #[default]
    Battery,
    /// USB powered
    UsbPowered,
    /// External DC power
    DcPowered,
    /// Low power / sleep mode
    LowPower,
}

} // verus!
