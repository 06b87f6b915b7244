use sdr_firmware::power::{PowerState, Temperature};

#[test]
fn power_state_default() {
    let state = PowerState::default();
    assert_eq!(state, PowerState::Battery);
}

#[test]
fn power_state_equality() {
    assert_eq!(PowerState::Battery, PowerState::Battery);
    assert_ne!(PowerState::Battery, PowerState::UsbPowered);
}

#[test]
fn temperature_from_tenths_keeps_value() {
    let t = Temperature::from_tenths(755);
    assert_eq!(t.tenths(), 755);
    let cold = Temperature::from_tenths(-123);
    assert_eq!(cold.tenths(), -123);
}
