//! System configuration and hardware constants
//!
//! Compile-time constants for the transceiver hardware: clocks, addresses,
//! buffer sizes, timing, pin, DMA and timer assignments.

use vstd::prelude::*;
use crate::types::{Frequency, Mode, TuningStep, freq_in_range};

pub mod pins;
pub mod dma;
pub mod timers;

verus! {

/// System clock frequency (STM32G474 @ 170MHz)
pub const SYSTEM_CLOCK_HZ: u32 = 170_000_000;

/// ADC sample rate for audio (48 kHz)
pub const AUDIO_SAMPLE_RATE: u32 = 48_000;

/// ADC sample rate for IQ data (192 kHz for wideband)
pub const IQ_SAMPLE_RATE: u32 = 192_000;

/// DAC sample rate (matches audio rate)
pub const DAC_SAMPLE_RATE: u32 = 48_000;

/// I2C bus frequency for `Si5351A` and display
pub const I2C_FREQUENCY_HZ: u32 = 400_000;

/// `Si5351A` I2C address
pub const SI5351_I2C_ADDR: u8 = 0x60;

/// SSD1306 OLED I2C address
pub const DISPLAY_I2C_ADDR: u8 = 0x3C;

/// Display width in pixels
pub const DISPLAY_WIDTH: u32 = 128;

/// Display height in pixels
pub const DISPLAY_HEIGHT: u32 = 64;

/// `Si5351A` crystal frequency (25 MHz standard)
pub const SI5351_XTAL_FREQ: u32 = 25_000_000;

/// Number of LPF filter banks
pub const NUM_LPF_BANKS: usize = 5;

/// T/R relay switching delay in microseconds
pub const TR_RELAY_DELAY_US: u32 = 10_000;

/// USB VID (use test VID for development)
pub const USB_VID: u16 = 0x1209;

/// USB PID (get from pid.codes for production)
pub const USB_PID: u16 = 0x0001;

/// Default startup frequency (40m band, FT8 frequency)
pub const DEFAULT_FREQUENCY_HZ: u32 = 7_074_000;

/// Default operating mode
pub const DEFAULT_MODE: Mode = Mode::Usb;

/// Default tuning step
pub const DEFAULT_TUNING_STEP: TuningStep = TuningStep::KHz1;

/// Audio buffer size in samples
pub const AUDIO_BUFFER_SIZE: usize = 256;

/// IQ buffer size in samples (I + Q interleaved)
pub const IQ_BUFFER_SIZE: usize = 512;

/// Number of FIR filter taps for audio processing
pub const FIR_TAPS: usize = 127;

/// AGC attack time constant in milliseconds
pub const AGC_ATTACK_MS: u32 = 10;

/// AGC decay time constant in milliseconds
pub const AGC_DECAY_MS: u32 = 500;

/// Encoder debounce time in milliseconds
pub const ENCODER_DEBOUNCE_MS: u32 = 2;

/// Button debounce time in milliseconds
pub const BUTTON_DEBOUNCE_MS: u32 = 50;

/// CAT command buffer size
pub const CAT_BUFFER_SIZE: usize = 64;

/// USB CDC ACM packet size
pub const USB_CDC_PACKET_SIZE: u16 = 64;

/// Build the default startup frequency
pub fn default_frequency() -> (r: Option<Frequency>)
    ensures
        r is Some,
        r matches Some(f) ==> f@ == DEFAULT_FREQUENCY_HZ,
{
    Frequency::from_hz(DEFAULT_FREQUENCY_HZ)
}

} // verus!
