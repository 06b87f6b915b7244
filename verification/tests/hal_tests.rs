use sdr_firmware::hal::adc::{AdcReading, AudioBuffer, IqBuffer};
use sdr_firmware::hal::dac::{DacSample, DoubleBuffer, OutputBuffer};
use sdr_firmware::hal::gpio::{
    ButtonState, EncoderButton, LedState, LpfPins, LpfSelector, StatusLed, TrRelay,
};
use sdr_firmware::hal::i2c::{I2cAddress, RegisterMap};
use sdr_firmware::hal::pwm::{
    ComplementaryPwm, DeadTime, DutyCycle, HBridgePhase, PaDrive,
};
use sdr_firmware::hal::timer::{EncoderPosition, RateLimiter, SampleClock, Stopwatch, Timeout};

#[test]
fn led_state_toggle_and_default() {
    assert_eq!(LedState::default(), LedState::Off);
    assert_eq!(LedState::Off.toggle(), LedState::On);
    assert_eq!(LedState::On.toggle(), LedState::Off);
}

#[test]
fn status_led_levels() {
    let mut led = StatusLed::new();
    assert_eq!(led.state(), LedState::Off);
    assert!(led.on());
    assert_eq!(led.state(), LedState::On);
    assert!(!led.toggle());
    assert_eq!(led.state(), LedState::Off);
    assert!(led.toggle());
    assert!(!led.off());
}

#[test]
fn tr_relay_levels() {
    let mut relay = TrRelay::new();
    assert!(!relay.is_tx());
    assert!(relay.set_tx());
    assert!(relay.is_tx());
    assert!(!relay.set_rx());
    assert!(!relay.is_tx());
}

#[test]
fn lpf_select_binary_lines() {
    let mut lpf = LpfSelector::new();
    assert_eq!(lpf.current(), 0);
    assert_eq!(lpf.select(3), LpfPins { sel0: true, sel1: true, sel2: false });
    assert_eq!(lpf.current(), 3);
    // Banks above 4 select bank 4
    assert_eq!(lpf.select(9), LpfPins { sel0: false, sel1: false, sel2: true });
    assert_eq!(lpf.current(), 4);
}

#[test]
fn lpf_select_for_frequency_bands() {
    let mut lpf = LpfSelector::new();
    lpf.select_for_frequency(3_573_000);
    assert_eq!(lpf.current(), 0);
    lpf.select_for_frequency(5_000_000);
    assert_eq!(lpf.current(), 0);
    lpf.select_for_frequency(7_074_000);
    assert_eq!(lpf.current(), 1);
    lpf.select_for_frequency(14_074_000);
    assert_eq!(lpf.current(), 2);
    lpf.select_for_frequency(18_100_000);
    assert_eq!(lpf.current(), 3);
    let pins = lpf.select_for_frequency(21_074_000);
    assert_eq!(lpf.current(), 4);
    assert_eq!(pins, LpfPins { sel0: false, sel1: false, sel2: true });
}

#[test]
fn button_debounce_needs_steady_level() {
    let mut button = EncoderButton::new();
    assert_eq!(button.state(), ButtonState::Released);
    // Pressed (line low): three steady reads settle it
    assert!(!button.update(true));
    assert!(!button.update(true));
    assert!(button.update(true));
    assert_eq!(button.state(), ButtonState::Pressed);
    assert!(button.is_pressed());
    // Further reads of the same level report no change
    assert!(!button.update(true));
    // Released: the first read of the new level restarts the count
    assert!(!button.update(false));
    assert!(!button.update(false));
    assert!(!button.update(false));
    assert!(button.update(false));
    assert_eq!(button.state(), ButtonState::Released);
}

#[test]
fn button_glitch_is_ignored() {
    let mut button = EncoderButton::new();
    assert!(!button.update(true));
    assert!(!button.update(false));
    assert!(!button.update(true));
    assert!(!button.update(false));
    assert_eq!(button.state(), ButtonState::Released);
}

#[test]
fn adc_reading_to_audio() {
    assert_eq!(AdcReading::from_raw(2048).as_i16(), 0);
    assert_eq!(AdcReading::from_raw(0).as_i16(), -32768);
    assert_eq!(AdcReading::from_raw(4095).as_i16(), 32752);
    assert_eq!(AdcReading::from_raw(1234).raw(), 1234);
}

#[test]
fn audio_buffer_len_is_capped() {
    let mut buf = AudioBuffer::new();
    assert!(buf.as_slice().is_empty());
    buf.as_mut_slice()[0] = 7;
    buf.set_len(1);
    assert_eq!(buf.as_slice(), &[7]);
    assert!(!buf.is_full());
    buf.set_len(10_000);
    assert!(buf.is_full());
    assert_eq!(buf.as_slice().len(), 256);
}

#[test]
fn iq_buffer_pairs() {
    let mut buf = IqBuffer::new();
    {
        let s = buf.as_mut_slice();
        s[0] = 1;
        s[1] = -1;
        s[2] = 2;
        s[3] = -2;
    }
    buf.set_len(4);
    assert_eq!(buf.num_pairs(), 2);
    assert_eq!(buf.i_sample(1), 2);
    assert_eq!(buf.q_sample(1), -2);
    buf.set_len(5000);
    assert_eq!(buf.num_pairs(), 256);
}

#[test]
fn dac_sample_conversion() {
    assert_eq!(DacSample::from_raw(5000).raw(), 4095);
    assert_eq!(DacSample::from_raw(100).raw(), 100);
    assert_eq!(DacSample::from_i16(0).raw(), 2048);
    assert_eq!(DacSample::from_i16(i16::MIN).raw(), 0);
    assert_eq!(DacSample::from_i16(i16::MAX).raw(), 4095);
    assert_eq!(DacSample::default().raw(), 2048);
}

#[test]
fn output_buffer_fills_and_refuses() {
    let mut out = OutputBuffer::new();
    assert!(out.push(DacSample::from_raw(1)));
    assert_eq!(out.as_slice(), &[1]);
    out.reset();
    assert!(out.as_slice().is_empty());
    let samples = vec![0i16; 300];
    out.fill_from_i16(&samples);
    assert!(out.is_full());
    assert_eq!(out.as_slice().len(), 256);
    assert!(!out.push(DacSample::from_raw(1)));
}

#[test]
fn double_buffer_swaps_halves() {
    let mut db = DoubleBuffer::new();
    db.back_mut().push(DacSample::from_raw(42));
    assert!(db.front().as_slice().is_empty());
    db.swap();
    assert_eq!(db.front().as_slice(), &[42]);
    assert!(db.back_mut().as_slice().is_empty());
}

#[test]
fn i2c_address_masks_to_seven_bits() {
    assert_eq!(I2cAddress::new(0xE0).addr(), 0x60);
    assert_eq!(I2cAddress::si5351().addr(), 0x60);
    assert_eq!(I2cAddress::ssd1306().addr(), 0x3C);
}

#[test]
fn register_map_tracks_dirty() {
    let mut map: RegisterMap<8> = RegisterMap::new();
    assert!(!map.any_dirty());
    map.set(3, 0);
    assert!(!map.any_dirty());
    map.set(3, 9);
    map.set(5, 1);
    map.set(100, 1);
    assert_eq!(map.get(3), 9);
    assert_eq!(map.get(100), 0);
    assert!(map.any_dirty());
    assert_eq!(map.dirty_regs(), vec![(3, 9), (5, 1)]);
    map.mark_clean(3);
    assert_eq!(map.dirty_regs(), vec![(5, 1)]);
    map.mark_all_clean();
    assert!(!map.any_dirty());
    assert_eq!(map.get(5), 1);
}

#[test]
fn duty_cycle_percent_conversions() {
    assert_eq!(DutyCycle::from_percent(100).raw(), 65535);
    assert_eq!(DutyCycle::from_percent(150).raw(), 65535);
    assert_eq!(DutyCycle::from_percent(50).raw(), 32767);
    assert_eq!(DutyCycle::from_percent(50).as_percent(), 49);
    assert_eq!(DutyCycle::full().as_percent(), 100);
    assert_eq!(DutyCycle::half().raw(), 32768);
    assert_eq!(DutyCycle::default().raw(), 0);
    assert_eq!(DutyCycle::full().scale(DutyCycle::half()).raw(), 32768);
}

#[test]
fn pa_drive_is_limited() {
    let mut pa = PaDrive::new();
    assert_eq!(pa.duty().raw(), 0);
    assert_eq!(pa.set(DutyCycle::full()).raw(), 52428);
    assert_eq!(pa.set_percent(50).raw(), 32767);
    pa.stop();
    assert_eq!(pa.duty().raw(), 0);
}

#[test]
fn hbridge_phase_sequence() {
    let mut p = HBridgePhase::default();
    assert_eq!(p, HBridgePhase::Off);
    p = p.next();
    assert_eq!(p, HBridgePhase::AHighBLow);
    p = p.next();
    assert_eq!(p, HBridgePhase::ZeroCrossing);
    p = p.next();
    assert_eq!(p, HBridgePhase::ALowBHigh);
    assert_eq!(p.next(), HBridgePhase::Off);
}

#[test]
fn dead_time_ticks() {
    // 100 ns at 170 MHz is 17 ticks
    assert_eq!(DeadTime::default().as_timer_value(170_000_000), 17);
    assert_eq!(DeadTime::from_ns(10_000).as_timer_value(170_000_000), 255);
    assert_eq!(DeadTime::minimum().as_ns(), 50);
    assert_eq!(DeadTime::zero().as_ns(), 0);
}

#[test]
fn complementary_pwm_square_wave() {
    let mut pwm = ComplementaryPwm::new();
    assert_eq!(pwm.main.raw(), 0);
    pwm.set_square_wave();
    assert_eq!(pwm.main.raw(), 32768);
    assert_eq!(pwm.dead_time.as_ns(), 100);
}

#[test]
fn encoder_position_follows_wraparound() {
    let mut pos = EncoderPosition::new();
    pos.update(10);
    assert_eq!(pos.position(), 10);
    assert_eq!(pos.delta(), 10);
    pos.update(65530);
    assert_eq!(pos.position(), -6);
    assert_eq!(pos.delta(), -16);
    pos.update(4);
    assert_eq!(pos.position(), 4);
    pos.reset();
    assert_eq!(pos.position(), 0);
}

#[test]
fn sample_clock_rate_and_ticks() {
    let mut clock = SampleClock::from_rate(48_000);
    assert_eq!(clock.period(), 20);
    assert_eq!(clock.rate_hz(), 50_000);
    assert_eq!(clock.last_tick(), None);
    clock.tick(1_234);
    assert_eq!(clock.last_tick(), Some(1_234));
    clock.reset();
    assert_eq!(clock.last_tick(), None);
    let exact = SampleClock::from_period_us(125);
    assert_eq!(exact.rate_hz(), 8_000);
}

#[test]
fn stopwatch_measures_from_start() {
    let mut sw = Stopwatch::default();
    assert_eq!(sw.elapsed(5_000), 0);
    sw.start(1_000);
    assert_eq!(sw.elapsed_us(3_500), 2_500);
    assert_eq!(sw.elapsed_ms(3_500), 2);
    assert!(sw.has_elapsed(3_500, 2_500));
    assert!(!sw.has_elapsed(3_500, 2_501));
    assert_eq!(sw.restart(4_000), 3_000);
    assert_eq!(sw.stop(4_100), 100);
    assert_eq!(sw.elapsed(9_000), 0);
}

#[test]
fn timeout_expiry_and_remaining() {
    let t = Timeout::from_ms(1_000, 5);
    assert!(!t.expired(5_999));
    assert_eq!(t.remaining(5_999), 1);
    assert!(t.expired(6_000));
    assert_eq!(t.remaining(6_000), 0);
    assert_eq!(t.remaining(10_000), 0);
    let u = Timeout::from_us(10, 20);
    assert_eq!(u.remaining(10), 20);
    let n = Timeout::new(0, 0);
    assert!(n.expired(0));
}

#[test]
fn rate_limiter_spacing() {
    let mut limiter = RateLimiter::from_hz(10);
    assert_eq!(limiter.time_until_ready(0), 0);
    assert!(limiter.check(1_000));
    assert!(!limiter.check(50_000));
    assert_eq!(limiter.time_until_ready(50_000), 51_000);
    assert!(!limiter.check(100_999));
    assert!(limiter.check(101_000));
    limiter.record(200_000);
    assert_eq!(limiter.time_until_ready(250_000), 50_000);
    assert!(!limiter.check(299_999));
    let mut every = RateLimiter::new(0);
    assert!(every.check(5));
    assert!(every.check(5));
}

#[test]
fn encoder_position_follows_wrap_far_from_zero() {
    let mut p = EncoderPosition::new();
    p.update(65535);
    assert_eq!(p.position(), -1);
    assert_eq!(p.delta(), -1);
    let mut q = EncoderPosition::new();
    for target in [30_000i64, 60_000, 90_000, 120_000] {
        q.update((target % 65536) as u16);
        assert_eq!(q.position() as i64, target);
    }
    q.update(18_928);
    assert_eq!(q.position(), 150_000);
}
