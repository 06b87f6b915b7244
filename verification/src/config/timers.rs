//! Hardware timer assignments

use vstd::prelude::*;

verus! {

/// Audio sample rate timer (ADC/DAC trigger)
pub const AUDIO_SAMPLE: u8 = 2;

/// IQ sample rate timer (ADC2 trigger)
pub const IQ_SAMPLE: u8 = 3;

/// Encoder timer (quadrature mode)
pub const ENCODER: u8 = 4;

/// PA PWM timer (Class-E drive)
pub const PA_PWM: u8 = 1;

/// General purpose timer for delays
pub const GENERAL: u8 = 6;

} // verus!
