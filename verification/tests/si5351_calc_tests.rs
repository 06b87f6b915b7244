use sdr_firmware::dsp::si5351_calc::{
    calculate_frequency, calculate_quadrature, rational_approximation, MsParams, PllParams,
    DEFAULT_XTAL_HZ, VCO_MAX_HZ, VCO_MIN_HZ,
};

#[test]
fn pll_params_integer() {
    let pll = PllParams::integer(36);
    assert_eq!(pll.a, 36);
    assert_eq!(pll.b, 0);
    assert_eq!(pll.c, 1);
    assert!(pll.is_valid());

    // 25 MHz × 36 = 900 MHz
    let vco = pll.vco_frequency(25_000_000);
    assert_eq!(vco, 900_000_000);
}

#[test]
fn pll_params_fractional() {
    let pll = PllParams::fractional(35, 1, 2);
    assert!(pll.is_valid());

    // 25 MHz × 35.5 = 887.5 MHz
    let vco = pll.vco_frequency(25_000_000);
    assert_eq!(vco, 887_500_000);
}

#[test]
fn pll_params_validation() {
    assert!(!PllParams::integer(14).is_valid()); // Below min
    assert!(!PllParams::integer(91).is_valid()); // Above max
    assert!(PllParams::integer(15).is_valid());
    assert!(PllParams::integer(90).is_valid());
}

#[test]
fn ms_params_integer() {
    let ms = MsParams::integer(100);
    assert_eq!(ms.a, 100);
    assert!(ms.is_valid());

    // 900 MHz / 100 = 9 MHz
    let freq = ms.output_frequency(900_000_000);
    assert_eq!(freq, 9_000_000);
}

#[test]
fn ms_params_with_r_divider() {
    let ms = MsParams::integer_with_r(100, 3); // R = 8

    // 900 MHz / 100 / 8 = 1.125 MHz
    let freq = ms.output_frequency(900_000_000);
    assert_eq!(freq, 1_125_000);
}

#[test]
fn ms_params_validation() {
    assert!(!MsParams::integer(3).is_valid()); // Below min
    assert!(MsParams::integer(4).is_valid()); // Min allowed
    // a=5 is not allowed per datasheet
    assert!(MsParams::integer(6).is_valid());
    assert!(!MsParams::integer(1801).is_valid()); // Above max
}

#[test]
fn ms_params_even_integer() {
    assert!(MsParams::integer(100).is_even_integer());
    assert!(!MsParams::integer(101).is_even_integer());
    assert!(!MsParams::fractional(100, 1, 2).is_even_integer());
    assert!(!MsParams::integer_with_r(100, 1).is_even_integer());
}

#[test]
fn calculate_7mhz() {
    let result = calculate_frequency(DEFAULT_XTAL_HZ, 7_000_000);
    assert!(result.is_some());

    let (pll, ms, _actual, error) = result.unwrap();
    assert!(pll.is_valid());
    assert!(ms.is_valid());
    assert!(error.abs() <= 100); // Within 100 Hz

    let vco = pll.vco_frequency(DEFAULT_XTAL_HZ);
    assert!(vco >= VCO_MIN_HZ && vco <= VCO_MAX_HZ);
}

#[test]
fn calculate_14mhz() {
    let result = calculate_frequency(DEFAULT_XTAL_HZ, 14_000_000);
    assert!(result.is_some());

    let (pll, ms, _actual, error) = result.unwrap();
    assert!(pll.is_valid());
    assert!(ms.is_valid());

    // 14 MHz should be achievable with small error
    assert!(error.abs() <= 100);
}

#[test]
fn calculate_28mhz() {
    let result = calculate_frequency(DEFAULT_XTAL_HZ, 28_000_000);
    assert!(result.is_some());

    let (pll, ms, _actual, _error) = result.unwrap();
    assert!(pll.is_valid());
    assert!(ms.is_valid());
}

#[test]
fn calculate_low_frequency() {
    // 100 kHz should require R divider
    // VCO max = 900 MHz, MS max = 1800
    // 900 MHz / 1800 = 500 kHz, so below 500 kHz needs R divider
    let result = calculate_frequency(DEFAULT_XTAL_HZ, 100_000);
    assert!(result.is_some());

    let (pll, ms, _actual, _error) = result.unwrap();
    assert!(ms.r_div > 0, "Should use R divider for 100 kHz");
    assert!(pll.is_valid());
    assert!(ms.is_valid());
}

#[test]
fn calculate_quadrature_7mhz() {
    let result = calculate_quadrature(DEFAULT_XTAL_HZ, 7_000_000);
    assert!(result.is_some());

    let (pll, ms, _actual, _error, phase) = result.unwrap();
    assert!(pll.is_valid());
    assert!(ms.is_valid());
    assert!(ms.is_even_integer()); // Required for quadrature
    assert!(phase > 0); // Phase offset should be non-zero
}

#[test]
fn calculate_quadrature_14mhz() {
    let result = calculate_quadrature(DEFAULT_XTAL_HZ, 14_074_000);
    assert!(result.is_some());

    let (_pll, ms, _actual, error, _phase) = result.unwrap();
    assert!(ms.is_even_integer());

    // FT8 frequency should have reasonable accuracy
    assert!(error.abs() <= 10); // Within 10 Hz
}

#[test]
fn pll_register_values() {
    // Test register calculation matches datasheet examples
    let pll = PllParams::integer(36);
    let (p1, p2, p3) = pll.to_registers();

    // For a=36, b=0, c=1:
    // P1 = 128×36 + 0 - 512 = 4608 - 512 = 4096
    // P2 = 0
    // P3 = 1
    assert_eq!(p1, 4096);
    assert_eq!(p2, 0);
    assert_eq!(p3, 1);
}

#[test]
fn ms_register_values() {
    let ms = MsParams::integer(100);
    let (p1, p2, p3) = ms.to_registers();

    // For a=100, b=0, c=1:
    // P1 = 128×100 - 512 = 12288
    // P2 = 0
    // P3 = 1
    assert_eq!(p1, 12288);
    assert_eq!(p2, 0);
    assert_eq!(p3, 1);
}

#[test]
fn rational_approximation_half() {
    let (b, c) = rational_approximation(1, 2, 1000);
    assert_eq!(b, 1);
    assert_eq!(c, 2);
}

#[test]
fn rational_approximation_third() {
    let (b, c) = rational_approximation(1, 3, 1000);
    assert_eq!(b, 1);
    assert_eq!(c, 3);
}

#[test]
fn rational_approximation_complex() {
    // π/4 ≈ 0.785398...
    // 355/452 ≈ 0.78539823... is a good approximation
    let num = 785398;
    let den = 1000000;
    let (b, c) = rational_approximation(num, den, 1000);

    let approx = b as f64 / c as f64;
    let actual = num as f64 / den as f64;
    assert!((approx - actual).abs() < 0.001);
}

#[test]
fn vco_range_check() {
    // All generated VCO frequencies should be in valid range
    for freq in [3_500_000, 7_074_000, 14_074_000, 21_074_000] {
        if let Some((pll, _, _, _)) = calculate_frequency(DEFAULT_XTAL_HZ, freq) {
            let vco = pll.vco_frequency(DEFAULT_XTAL_HZ);
            assert!(
                vco >= VCO_MIN_HZ && vco <= VCO_MAX_HZ,
                "VCO {} Hz out of range for {} Hz",
                vco,
                freq
            );
        }
    }
}

#[test]
fn rational_approximation_tries_zero() {
    assert_eq!(rational_approximation(1, 1000, 1), (0, 1));
    assert_eq!(rational_approximation(1, 1000, 1000), (1, 1000));
    assert_eq!(rational_approximation(999, 1000, 2), (1, 1));
    assert_eq!(rational_approximation(0, 7, 50), (0, 1));
}

#[test]
fn rational_approximation_pi_quarter_best() {
    // 785398 / 1000000 with denominators up to 1000: 355/452 is closest
    let (b, c) = rational_approximation(785_398, 1_000_000, 1000);
    assert_eq!((b, c), (355, 452));
}

#[test]
fn calculate_frequency_skips_divisor_five() {
    // 130 MHz: divisors 4..6; 5 is not allowed, 6 (780 MHz) is the highest VCO
    let (pll, ms, actual, error) = calculate_frequency(DEFAULT_XTAL_HZ, 130_000_000).unwrap();
    assert!(ms.is_valid());
    assert_eq!(ms.a, 6);
    assert_eq!((pll.a, pll.b, pll.c), (31, 1, 5));
    assert_eq!(actual, 130_000_000);
    assert_eq!(error, 0);
}

#[test]
fn calculate_frequency_prefers_highest_vco() {
    // 7 MHz is exact at many divisors; 128 gives 896 MHz, the highest
    let (pll, ms, _actual, error) = calculate_frequency(DEFAULT_XTAL_HZ, 7_000_000).unwrap();
    assert_eq!(ms.a, 128);
    assert_eq!((pll.a, pll.b, pll.c), (35, 21, 25));
    assert_eq!(error, 0);
}

#[test]
fn calculate_frequency_ft8_close() {
    let (pll, ms, _actual, error) = calculate_frequency(DEFAULT_XTAL_HZ, 7_074_000).unwrap();
    assert!(pll.is_valid());
    assert!(ms.is_valid());
    assert!(error.abs() <= 1);
}

#[test]
fn calculate_frequency_no_crystal_no_target() {
    assert!(calculate_frequency(0, 0).is_none());
}

#[test]
fn calculate_quadrature_even_lower_bound() {
    // 50 MHz LO: 4 x 50 MHz x 4 = 800 MHz, divisor 4
    let (pll, ms, actual, error, phase) = calculate_quadrature(DEFAULT_XTAL_HZ, 50_000_000).unwrap();
    assert_eq!(ms.a, 4);
    assert_eq!((pll.a, pll.b, pll.c), (32, 0, 1));
    assert_eq!(actual, 50_000_000);
    assert_eq!(error, 0);
    assert_eq!(phase, 1);
}
