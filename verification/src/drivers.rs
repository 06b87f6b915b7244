//! Device logic: the rotary encoder, the Si5351 register programming and
//! the display frame buffer.

pub mod encoder;
pub mod si5351;
pub mod display;
