//! USB serial port support: the CDC line buffers and descriptor data.

pub mod cdc;
