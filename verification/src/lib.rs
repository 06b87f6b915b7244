//! Verified core of an HF software-defined radio transceiver.
//!
//! The crate holds the radio's decision logic: frequency and band rules,
//! the radio state machine, dual VFOs and memories, the CW keyer, the
//! transmit sequencer, CAT command parsing, Si5351 synthesis arithmetic,
//! encoder decoding and the fixed-size buffers used by the I/O layer.
//! Hardware access and floating-point signal processing live outside it.

pub mod types;
pub mod config;
pub mod radio;
pub mod dsp;
pub mod hal;
pub mod drivers;
pub mod usb;
pub mod power;
pub mod ui;
pub mod protocol;
