//! Hardware-facing value types: GPIO state machines, ADC and DAC sample
//! buffers, I2C addresses and register shadows, PWM duty arithmetic and the
//! quadrature position counter. The pins and peripherals themselves are
//! driven by the application; these types decide what to drive.

pub mod gpio;
pub mod adc;
pub mod dac;
pub mod i2c;
pub mod pwm;
pub mod timer;
