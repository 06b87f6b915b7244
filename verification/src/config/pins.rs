//! GPIO pin assignments matching the schematic

use vstd::prelude::*;

verus! {

/// Status LED (directly on MCU)
pub const LED_STATUS: &'static str = "PA5";

/// I2C1 SCL (Si5351, Display)
pub const I2C1_SCL: &'static str = "PB6";

/// I2C1 SDA (Si5351, Display)
pub const I2C1_SDA: &'static str = "PB7";

/// Encoder A input
pub const ENCODER_A: &'static str = "PA0";

/// Encoder B input
pub const ENCODER_B: &'static str = "PA1";

/// Encoder push button
pub const ENCODER_SW: &'static str = "PA2";

/// PTT input (active low)
pub const PTT_IN: &'static str = "PA3";

/// T/R relay control
pub const TR_RELAY: &'static str = "PB0";

/// LPF bank select bit 0
pub const LPF_SEL0: &'static str = "PC0";

/// LPF bank select bit 1
pub const LPF_SEL1: &'static str = "PC1";

/// LPF bank select bit 2
pub const LPF_SEL2: &'static str = "PC2";

/// Audio ADC input
pub const AUDIO_ADC: &'static str = "PA4";

/// Audio DAC output
pub const AUDIO_DAC: &'static str = "PA5";

/// Forward power ADC
pub const FWD_POWER: &'static str = "PB1";

/// Reflected power ADC
pub const REF_POWER: &'static str = "PB2";

/// USB D+ (handled by USB peripheral)
pub const USB_DP: &'static str = "PA12";

/// USB D- (handled by USB peripheral)
pub const USB_DM: &'static str = "PA11";

/// USB-C CC1 for UCPD
pub const USB_CC1: &'static str = "PB4";

/// USB-C CC2 for UCPD
pub const USB_CC2: &'static str = "PB5";

/// PA drive PWM output
pub const PA_DRIVE: &'static str = "PA8";

/// Class-E H-bridge A high side
pub const PA_AH: &'static str = "PA9";

/// Class-E H-bridge A low side
pub const PA_AL: &'static str = "PA10";

/// Class-E H-bridge B high side
pub const PA_BH: &'static str = "PB13";

/// Class-E H-bridge B low side
pub const PA_BL: &'static str = "PB14";

} // verus!
