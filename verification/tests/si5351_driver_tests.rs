use sdr_firmware::drivers::si5351::{status_ready, ClockOutput, CrystalLoad, DriveStrength, RegisterWrite, Si5351};
use sdr_firmware::types::Frequency;

fn w(reg: u8, data: &[u8]) -> RegisterWrite {
    RegisterWrite { reg, data: data.to_vec() }
}

#[test]
fn si5351_init_writes() {
    let si = Si5351::new();
    let writes = si.init(CrystalLoad::Load10pF);
    assert_eq!(
        writes,
        vec![w(3, &[0xFF]), w(183, &[0xC0]), w(16, &[0x80]), w(17, &[0x80]), w(18, &[0x80])]
    );
}

#[test]
fn si5351_params_for_7mhz() {
    let si = Si5351::new();
    let (pll, ms) = si.calculate_params(7_000_000);
    // 900 MHz / 7 MHz = 128; 7 MHz * 128 = 896 MHz = 25 MHz * 35.84
    assert_eq!(ms.a, 128);
    assert_eq!(pll.a, 35);
    assert_eq!(pll.b, 0);
    assert_eq!(pll.c, 1);
}

#[test]
fn si5351_params_clamped() {
    let si = Si5351::new();
    let (_, ms) = si.calculate_params(100_000);
    assert_eq!(ms.a, 1800);
    let (pll, ms) = si.calculate_params(300_000_000);
    assert_eq!(ms.a, 4);
    assert_eq!(pll.a, 48);
}

#[test]
fn si5351_set_frequency_writes() {
    let si = Si5351::new();
    let freq = Frequency::from_hz(7_000_000).unwrap();
    let writes = si.set_frequency(ClockOutput::Clk2, freq);
    assert_eq!(writes.len(), 4);
    // PLL A: a = 35 -> P1 = 128 * 35 - 512 = 3968 = 0x0F80, P2 = 0, P3 = 1
    assert_eq!(writes[0], w(26, &[0x00, 0x01, 0x00, 0x0F, 0x80, 0x00, 0x00, 0x00]));
    // MS2: a = 128 -> P1 = 16384 - 512 = 15872 = 0x3E00
    assert_eq!(writes[1], w(58, &[0x00, 0x01, 0x00, 0x3E, 0x00, 0x00, 0x00, 0x00]));
    assert_eq!(writes[2], w(18, &[0x0F]));
    assert_eq!(writes[3], w(177, &[0x20]));
}

#[test]
fn si5351_quadrature_writes() {
    let si = Si5351::new();
    let freq = Frequency::from_hz(7_000_000).unwrap();
    let writes = si.set_quadrature(freq).unwrap();
    assert_eq!(writes.len(), 8);
    // 28 MHz at four times the LO: even divisor 22 gives VCO 616 MHz
    // exactly, PLL 24 + 16/25: P1 = 3072 + 81 - 512 = 0x0A51, P2 = 23, P3 = 25
    assert_eq!(writes[0], w(26, &[0x00, 0x19, 0x00, 0x0A, 0x51, 0x00, 0x00, 0x17]));
    // MS a = 22 -> P1 = 2816 - 512 = 2304 = 0x0900
    assert_eq!(writes[1], w(42, &[0x00, 0x01, 0x00, 0x09, 0x00, 0x00, 0x00, 0x00]));
    assert_eq!(writes[2], w(50, &[0x00, 0x01, 0x00, 0x09, 0x00, 0x00, 0x00, 0x00]));
    assert_eq!(writes[3], w(166, &[5]));
    assert_eq!(writes[4], w(165, &[0]));
    assert_eq!(writes[5], w(16, &[0x0F]));
    assert_eq!(writes[6], w(17, &[0x0F]));
    assert_eq!(writes[7], w(177, &[0xA0]));
}

#[test]
fn si5351_quadrature_ft8_even_divisor() {
    let si = Si5351::new();
    let freq = Frequency::from_hz(7_074_000).unwrap();
    let writes = si.set_quadrature(freq).unwrap();
    // Both multisynths get the same (even, integer) divisor
    assert_eq!(writes[1].data, writes[2].data);
    assert_eq!(writes[1].data[2], 0x00);
    assert_eq!(writes[1].data[5], 0x00);
}

#[test]
fn si5351_output_enable_mask() {
    let mut si = Si5351::new();
    assert_eq!(si.enable(ClockOutput::Clk1), w(3, &[0xFD]));
    assert_eq!(si.enable(ClockOutput::Clk0), w(3, &[0xFC]));
    assert_eq!(si.disable(ClockOutput::Clk1), w(3, &[0xFE]));
    assert_eq!(si.enable_quadrature(), w(3, &[0xFC]));
}

#[test]
fn si5351_register_helpers() {
    assert_eq!(ClockOutput::Clk1.control_reg(), 17);
    assert_eq!(ClockOutput::Clk2.ms_reg(), 58);
    assert_eq!(ClockOutput::Clk2.enable_bit(), 2);
    assert_eq!(DriveStrength::default().as_reg(), 3);
    assert_eq!(DriveStrength::Drive2mA.as_reg(), 0);
    assert_eq!(CrystalLoad::Load6pF.as_reg(), 0x40);
    assert_eq!(CrystalLoad::Load8pF.as_reg(), 0x80);
}

#[test]
fn status_ready_follows_init_bit() {
    assert!(status_ready(0x00));
    assert!(status_ready(0x7F));
    assert!(!status_ready(0x80));
    assert!(!status_ready(0xFF));
}
