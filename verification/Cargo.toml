[package]
name = "sdr_firmware"
version = "0.1.0"
edition = "2021"
publish = false

[dependencies]
heapless = "0.8"
fixed = "1"
micromath = "2"
embedded-graphics = "0.8"
embedded-hal = "1"
embedded-hal-async = "1"
defmt = "0.3"
defmt-rtt = "0.4"
panic-probe = "0.3"
embassy-time = "*"
embassy-executor = "*"
embassy-usb = "*"
embassy-stm32 = { version = "*", features = ["stm32g474re", "time-driver-any", "memory-x"] }
