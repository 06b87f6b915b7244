//! Signal-processing support: Si5351 synthesis arithmetic, spectrum and
//! waterfall buffers, filter bandwidth presets, the phase-accumulator
//! oscillator and the fixed-point FIR filter.

pub mod si5351_calc;
pub mod spectrum;
pub mod filter_design;
pub mod oscillator;
pub mod filter;
