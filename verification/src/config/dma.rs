//! DMA channel assignments for zero-copy transfers

use vstd::prelude::*;

verus! {

/// I2C1 TX DMA channel
pub const I2C1_TX: u8 = 1;

/// I2C1 RX DMA channel
pub const I2C1_RX: u8 = 2;

/// ADC1 DMA channel (audio input)
pub const ADC1: u8 = 3;

/// DAC1 DMA channel (audio output)
pub const DAC1: u8 = 4;

/// ADC2 DMA channel (IQ input)
pub const ADC2: u8 = 5;

} // verus!
