use sdr_firmware::dsp::filter::{FirCoefficients, FirFilter};

#[test]
fn fir_single_tap_halves() {
    // One tap of 0.5 (16384 in Q1.15): 0.5 * 0.5 = 0.25
    let coeffs: FirCoefficients<1> = FirCoefficients::from_bits(&[16384]);
    let mut fir = FirFilter::new(coeffs);
    assert_eq!(fir.process(16384), 8192);
}

#[test]
fn fir_product_rounds_down() {
    // -1/32768 * 0.5 = -1/65536, rounded down to -1/32768
    let coeffs: FirCoefficients<1> = FirCoefficients::from_bits(&[16384]);
    let mut fir = FirFilter::new(coeffs);
    assert_eq!(fir.process(-1), -1);
}

#[test]
fn fir_minus_one_squared_saturates() {
    let coeffs: FirCoefficients<1> = FirCoefficients::from_bits(&[i16::MIN]);
    let mut fir = FirFilter::new(coeffs);
    assert_eq!(fir.process(i16::MIN), i16::MAX);
}

#[test]
fn fir_sum_saturates() {
    // Two taps just under 1.0: the second output adds two products near 1.0
    let coeffs: FirCoefficients<2> = FirCoefficients::from_bits(&[32767, 32767]);
    let mut fir = FirFilter::new(coeffs);
    let first = fir.process(32767);
    assert_eq!(first, 32766);
    let second = fir.process(32767);
    assert_eq!(second, i16::MAX);
}

#[test]
fn fir_impulse_walks_through_taps() {
    let coeffs: FirCoefficients<3> = FirCoefficients::from_bits(&[16384, 8192, 4096]);
    let mut fir = FirFilter::new(coeffs);
    // Impulse of 0.5 followed by silence gives each tap times 0.5, in order
    assert_eq!(fir.process(16384), 8192);
    assert_eq!(fir.process(0), 4096);
    assert_eq!(fir.process(0), 2048);
    assert_eq!(fir.process(0), 0);
}

#[test]
fn fir_silence_gives_silence() {
    let coeffs: FirCoefficients<4> = FirCoefficients::from_bits(&[100, -200, 300, -400]);
    let mut fir = FirFilter::new(coeffs);
    for _ in 0..10 {
        assert_eq!(fir.process(0), 0);
    }
}

#[test]
fn fir_reset_clears_history() {
    let coeffs: FirCoefficients<2> = FirCoefficients::from_bits(&[16384, 16384]);
    let mut fir = FirFilter::new(coeffs);
    fir.process(16384);
    fir.reset();
    assert_eq!(fir.process(0), 0);
}

#[test]
fn fir_process_block_matches_single_steps() {
    let coeffs: FirCoefficients<2> = FirCoefficients::from_bits(&[16384, 16384]);
    let mut a = FirFilter::new(coeffs.clone());
    let mut b = FirFilter::new(coeffs);
    let mut block = [16384i16, 0, 8192, -8192];
    a.process_block(&mut block);
    let singles: Vec<i16> = [16384i16, 0, 8192, -8192].iter().map(|&x| b.process(x)).collect();
    assert_eq!(block.to_vec(), singles);
}

#[test]
fn fir_coefficient_get_past_end_is_zero() {
    let coeffs: FirCoefficients<2> = FirCoefficients::from_bits(&[5, 6]);
    assert_eq!(coeffs.get(1), 6);
    assert_eq!(coeffs.get(2), 0);
}
