use sdr_firmware::radio::keyer::{Element, Keyer, KeyerMode, MorseEncoder, PaddleState};

#[test]
fn paddle_state_squeeze() {
    let idle = PaddleState::new(false, false);
    assert!(!idle.is_squeeze());
    assert!(idle.is_idle());

    let dit = PaddleState::new(true, false);
    assert!(!dit.is_squeeze());
    assert!(dit.is_pressed());

    let squeeze = PaddleState::new(true, true);
    assert!(squeeze.is_squeeze());
    assert!(squeeze.is_pressed());
}

#[test]
fn element_units() {
    assert_eq!(Element::Dit.units(), 1);
    assert_eq!(Element::Dah.units(), 3);
    assert_eq!(Element::ElementGap.units(), 1);
}

#[test]
fn element_is_tone() {
    assert!(Element::Dit.is_tone());
    assert!(Element::Dah.is_tone());
    assert!(!Element::ElementGap.is_tone());
    assert!(!Element::CharGap.is_tone());
    assert!(!Element::NoElement.is_tone());
}

#[test]
fn keyer_new() {
    let keyer = Keyer::new(48000);
    assert_eq!(keyer.wpm(), Keyer::DEFAULT_WPM);
    assert_eq!(keyer.mode(), KeyerMode::IambicA);
    assert!(!keyer.is_key_down());
    assert!(keyer.is_idle());
}

#[test]
fn keyer_set_wpm() {
    let mut keyer = Keyer::new(48000);

    keyer.set_wpm(25);
    assert_eq!(keyer.wpm(), 25);

    keyer.set_wpm(3); // Below min
    assert_eq!(keyer.wpm(), Keyer::MIN_WPM);

    keyer.set_wpm(100); // Above max
    assert_eq!(keyer.wpm(), Keyer::MAX_WPM);
}

#[test]
fn keyer_set_weight() {
    let mut keyer = Keyer::new(48000);

    keyer.set_weight(60);
    assert_eq!(keyer.weight(), 60);

    keyer.set_weight(10); // Below min
    assert_eq!(keyer.weight(), 25);

    keyer.set_weight(90); // Above max
    assert_eq!(keyer.weight(), 75);
}

#[test]
fn keyer_straight_mode() {
    let mut keyer = Keyer::new(48000);
    keyer.set_mode(KeyerMode::Straight);

    // Key down when dit pressed
    let paddle = PaddleState::new(true, false);
    keyer.process(paddle);
    assert!(keyer.is_key_down());

    // Key up when released
    let paddle = PaddleState::new(false, false);
    keyer.process(paddle);
    assert!(!keyer.is_key_down());
}

#[test]
fn keyer_samples_per_unit() {
    let mut keyer = Keyer::new(48000);
    keyer.set_wpm(20);

    // At 20 WPM: unit = 1200/20 = 60ms
    // samples = 60 * 48000 / 1000 = 2880
    let spu = keyer.samples_per_unit();
    assert_eq!(spu, 2880);
}

#[test]
fn keyer_iambic_dit() {
    let mut keyer = Keyer::new(48000);
    keyer.set_mode(KeyerMode::IambicA);
    keyer.set_wpm(20);

    // Press dit paddle
    let paddle = PaddleState::new(true, false);
    keyer.process(paddle);
    assert!(keyer.is_key_down());

    // Process until dit complete (should be ~2880 samples at 20 WPM)
    let paddle = PaddleState::new(false, false);
    for _ in 0..3000 {
        keyer.process(paddle);
    }

    // Should be key up after dit + gap
    assert!(!keyer.is_key_down());
}

#[test]
fn keyer_reset() {
    let mut keyer = Keyer::new(48000);

    // Start a dit
    let paddle = PaddleState::new(true, false);
    keyer.process(paddle);
    assert!(keyer.is_key_down());

    // Reset
    keyer.reset();
    assert!(!keyer.is_key_down());
    assert!(keyer.is_idle());
}

#[test]
fn morse_encoder_new() {
    let encoder = MorseEncoder::new();
    assert!(encoder.is_idle());
}

#[test]
fn morse_encoder_letter_e() {
    let mut encoder = MorseEncoder::new();
    encoder.load('E');

    let element = encoder.next_element();
    assert_eq!(element, Some(Element::Dit));

    let element = encoder.next_element();
    assert_eq!(element, Some(Element::CharGap));

    assert!(encoder.is_idle());
}

#[test]
fn morse_encoder_letter_t() {
    let mut encoder = MorseEncoder::new();
    encoder.load('T');

    let element = encoder.next_element();
    assert_eq!(element, Some(Element::Dah));

    let element = encoder.next_element();
    assert_eq!(element, Some(Element::CharGap));
}

#[test]
fn morse_encoder_letter_a() {
    let mut encoder = MorseEncoder::new();
    encoder.load('A');

    assert_eq!(encoder.next_element(), Some(Element::Dit));
    assert_eq!(encoder.next_element(), Some(Element::Dah));
    assert_eq!(encoder.next_element(), Some(Element::CharGap));
    assert!(encoder.is_idle());
}

#[test]
fn morse_encoder_numbers() {
    let mut encoder = MorseEncoder::new();

    // '5' is .....
    encoder.load('5');
    for _ in 0..5 {
        assert_eq!(encoder.next_element(), Some(Element::Dit));
    }
    assert_eq!(encoder.next_element(), Some(Element::CharGap));

    // '0' is -----
    encoder.load('0');
    for _ in 0..5 {
        assert_eq!(encoder.next_element(), Some(Element::Dah));
    }
    assert_eq!(encoder.next_element(), Some(Element::CharGap));
}

#[test]
fn morse_encoder_prosigns() {
    let mut encoder = MorseEncoder::new();

    // '?' is ..--..
    encoder.load('?');
    assert_eq!(encoder.next_element(), Some(Element::Dit));
    assert_eq!(encoder.next_element(), Some(Element::Dit));
    assert_eq!(encoder.next_element(), Some(Element::Dah));
    assert_eq!(encoder.next_element(), Some(Element::Dah));
    assert_eq!(encoder.next_element(), Some(Element::Dit));
    assert_eq!(encoder.next_element(), Some(Element::Dit));
    assert_eq!(encoder.next_element(), Some(Element::CharGap));
}

#[test]
fn morse_encoder_case_insensitive() {
    let mut encoder = MorseEncoder::new();

    encoder.load('a');
    assert_eq!(encoder.next_element(), Some(Element::Dit));
    assert_eq!(encoder.next_element(), Some(Element::Dah));

    encoder.load('A');
    assert_eq!(encoder.next_element(), Some(Element::Dit));
    assert_eq!(encoder.next_element(), Some(Element::Dah));
}

#[test]
fn morse_encoder_unknown_char() {
    let mut encoder = MorseEncoder::new();
    encoder.load('@'); // Not in Morse table
    assert!(encoder.is_idle());
}

#[test]
fn keyer_mode_default() {
    assert_eq!(KeyerMode::default(), KeyerMode::IambicA);
}

#[test]
fn keyer_sidetone() {
    let mut keyer = Keyer::new(48000);
    assert_eq!(keyer.sidetone(), Keyer::DEFAULT_SIDETONE_HZ);

    keyer.set_sidetone(600);
    assert_eq!(keyer.sidetone(), 600);

    keyer.set_sidetone(100); // Below min
    assert_eq!(keyer.sidetone(), 300);

    keyer.set_sidetone(2000); // Above max
    assert_eq!(keyer.sidetone(), 1200);
}

#[test]
fn iambic_squeeze_alternates() {
    let mut k = Keyer::new(48000);
    k.set_mode(KeyerMode::IambicA);
    k.set_wpm(20);
    let squeeze = PaddleState::new(true, true);
    let mut runs: Vec<(bool, u32)> = Vec::new();
    for _ in 0..100_000 {
        k.process(squeeze);
        let down = k.is_key_down();
        match runs.last_mut() {
            Some((d, n)) if *d == down => *n += 1,
            _ => runs.push((down, 1)),
        }
    }
    let tones: Vec<u32> = runs.iter().filter(|(d, _)| *d).map(|(_, n)| *n).collect();
    assert!(tones.len() >= 4);
    // dit, dah, dit, dah: a dah lasts about three dits
    assert!(tones[1] > 2 * tones[0]);
    assert!(tones[1] < 4 * tones[0]);
    assert_eq!(tones[2], tones[0]);
    assert_eq!(tones[3], tones[1]);
}

#[test]
fn morse_space_is_word_gap() {
    let mut e = MorseEncoder::new();
    e.load(' ');
    assert!(!e.is_idle());
    assert_eq!(e.next_element(), Some(Element::WordGap));
    assert!(e.is_idle());
    assert_eq!(e.next_element(), None);
}
