//! Radio control logic: the radio state machine, dual VFOs and memories,
//! the CW keyer and the transmit sequencer.

pub mod state;
pub mod vfo;
pub mod keyer;
pub mod transmit;
