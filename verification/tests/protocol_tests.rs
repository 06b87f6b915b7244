use sdr_firmware::protocol::{CatCommand, CatParser, CatResponse};
use sdr_firmware::radio::state::RadioEvent;
use sdr_firmware::types::{Frequency, Mode, PowerLevel};

#[test]
fn test_parser_creation() {
    let _parser = CatParser::new();
}

#[test]
fn test_parser_default() {
    let _parser = CatParser::default();
}

#[test]
fn test_parser_clear() {
    let mut parser = CatParser::new();
    parser.feed(b'F');
    parser.feed(b'A');
    parser.clear();
    // After clear, should need full command again
    assert!(parser.feed(b';').is_none());
}


#[test]
fn test_parse_read_frequency_vfo_a() {
    let mut parser = CatParser::new();
    parser.feed(b'F');
    parser.feed(b'A');
    let cmd = parser.feed(b';');
    assert!(matches!(cmd, Some(CatCommand::ReadFrequency(false))));
}

#[test]
fn test_parse_read_frequency_vfo_b() {
    let mut parser = CatParser::new();
    parser.feed(b'F');
    parser.feed(b'B');
    let cmd = parser.feed(b';');
    assert!(matches!(cmd, Some(CatCommand::ReadFrequency(true))));
}

#[test]
fn test_parse_set_frequency_vfo_a() {
    let mut parser = CatParser::new();
    // FA00007074000; = 7.074 MHz
    for c in b"FA00007074000" {
        parser.feed(*c);
    }
    let cmd = parser.feed(b';');
    match cmd {
        Some(CatCommand::SetFrequency(freq, false)) => {
            assert_eq!(freq.as_hz(), 7_074_000);
        }
        _ => panic!("Expected SetFrequency command"),
    }
}

#[test]
fn test_parse_set_frequency_vfo_b() {
    let mut parser = CatParser::new();
    // FB00014070000; = 14.070 MHz
    for c in b"FB00014070000" {
        parser.feed(*c);
    }
    let cmd = parser.feed(b';');
    match cmd {
        Some(CatCommand::SetFrequency(freq, true)) => {
            assert_eq!(freq.as_hz(), 14_070_000);
        }
        _ => panic!("Expected SetFrequency command for VFO B"),
    }
}

#[test]
fn test_parse_frequency_80m_band() {
    let mut parser = CatParser::new();
    for c in b"FA00003573000" {
        parser.feed(*c);
    }
    let cmd = parser.feed(b';');
    match cmd {
        Some(CatCommand::SetFrequency(freq, _)) => {
            assert_eq!(freq.as_hz(), 3_573_000);
        }
        _ => panic!("Expected SetFrequency command"),
    }
}

#[test]
fn test_parse_frequency_invalid_too_low() {
    let mut parser = CatParser::new();
    // Below minimum (100 kHz)
    for c in b"FA00000050000" {
        parser.feed(*c);
    }
    let cmd = parser.feed(b';');
    // Should return None for invalid frequency
    assert!(cmd.is_none());
}


#[test]
fn test_parse_read_mode() {
    let mut parser = CatParser::new();
    parser.feed(b'M');
    parser.feed(b'D');
    let cmd = parser.feed(b';');
    assert!(matches!(cmd, Some(CatCommand::ReadMode)));
}

#[test]
fn test_parse_set_mode_lsb() {
    let mut parser = CatParser::new();
    for c in b"MD1" {
        parser.feed(*c);
    }
    let cmd = parser.feed(b';');
    assert!(matches!(cmd, Some(CatCommand::SetMode(Mode::Lsb))));
}

#[test]
fn test_parse_set_mode_usb() {
    let mut parser = CatParser::new();
    for c in b"MD2" {
        parser.feed(*c);
    }
    let cmd = parser.feed(b';');
    assert!(matches!(cmd, Some(CatCommand::SetMode(Mode::Usb))));
}

#[test]
fn test_parse_set_mode_cw() {
    let mut parser = CatParser::new();
    for c in b"MD3" {
        parser.feed(*c);
    }
    let cmd = parser.feed(b';');
    assert!(matches!(cmd, Some(CatCommand::SetMode(Mode::Cw))));
}

#[test]
fn test_parse_set_mode_fm() {
    let mut parser = CatParser::new();
    for c in b"MD4" {
        parser.feed(*c);
    }
    let cmd = parser.feed(b';');
    assert!(matches!(cmd, Some(CatCommand::SetMode(Mode::Fm))));
}

#[test]
fn test_parse_set_mode_am() {
    let mut parser = CatParser::new();
    for c in b"MD5" {
        parser.feed(*c);
    }
    let cmd = parser.feed(b';');
    assert!(matches!(cmd, Some(CatCommand::SetMode(Mode::Am))));
}

#[test]
fn test_parse_set_mode_cw_reverse() {
    let mut parser = CatParser::new();
    for c in b"MD7" {
        parser.feed(*c);
    }
    let cmd = parser.feed(b';');
    assert!(matches!(cmd, Some(CatCommand::SetMode(Mode::CwR))));
}


#[test]
fn test_parse_read_status() {
    let mut parser = CatParser::new();
    parser.feed(b'I');
    parser.feed(b'F');
    let cmd = parser.feed(b';');
    assert!(matches!(cmd, Some(CatCommand::ReadStatus)));
}

#[test]
fn test_parse_read_id() {
    let mut parser = CatParser::new();
    parser.feed(b'I');
    parser.feed(b'D');
    let cmd = parser.feed(b';');
    assert!(matches!(cmd, Some(CatCommand::ReadId)));
}


#[test]
fn test_parse_read_power_switch() {
    let mut parser = CatParser::new();
    parser.feed(b'P');
    parser.feed(b'S');
    let cmd = parser.feed(b';');
    assert!(matches!(cmd, Some(CatCommand::ReadPowerSwitch)));
}

#[test]
fn test_parse_set_power_switch_on() {
    let mut parser = CatParser::new();
    for c in b"PS1" {
        parser.feed(*c);
    }
    let cmd = parser.feed(b';');
    assert!(matches!(cmd, Some(CatCommand::SetPowerSwitch(true))));
}

#[test]
fn test_parse_set_power_switch_off() {
    let mut parser = CatParser::new();
    for c in b"PS0" {
        parser.feed(*c);
    }
    let cmd = parser.feed(b';');
    assert!(matches!(cmd, Some(CatCommand::SetPowerSwitch(false))));
}

#[test]
fn test_parse_transmit() {
    let mut parser = CatParser::new();
    parser.feed(b'T');
    parser.feed(b'X');
    let cmd = parser.feed(b';');
    assert!(matches!(cmd, Some(CatCommand::Transmit(true))));
}

#[test]
fn test_parse_receive() {
    let mut parser = CatParser::new();
    parser.feed(b'R');
    parser.feed(b'X');
    let cmd = parser.feed(b';');
    assert!(matches!(cmd, Some(CatCommand::Transmit(false))));
}


#[test]
fn test_parse_read_power() {
    let mut parser = CatParser::new();
    parser.feed(b'P');
    parser.feed(b'C');
    let cmd = parser.feed(b';');
    assert!(matches!(cmd, Some(CatCommand::ReadPower)));
}

#[test]
fn test_parse_set_power_50_percent() {
    let mut parser = CatParser::new();
    for c in b"PC050" {
        parser.feed(*c);
    }
    let cmd = parser.feed(b';');
    match cmd {
        Some(CatCommand::SetPower(pwr)) => {
            assert_eq!(pwr.as_percent(), 50);
        }
        _ => panic!("Expected SetPower command"),
    }
}

#[test]
fn test_parse_set_power_100_percent() {
    let mut parser = CatParser::new();
    for c in b"PC100" {
        parser.feed(*c);
    }
    let cmd = parser.feed(b';');
    match cmd {
        Some(CatCommand::SetPower(pwr)) => {
            assert_eq!(pwr.as_percent(), 100);
        }
        _ => panic!("Expected SetPower command"),
    }
}


#[test]
fn test_parse_tune_up() {
    let mut parser = CatParser::new();
    parser.feed(b'U');
    parser.feed(b'P');
    let cmd = parser.feed(b';');
    assert!(matches!(cmd, Some(CatCommand::TuneUp)));
}

#[test]
fn test_parse_tune_down() {
    let mut parser = CatParser::new();
    parser.feed(b'D');
    parser.feed(b'N');
    let cmd = parser.feed(b';');
    assert!(matches!(cmd, Some(CatCommand::TuneDown)));
}


#[test]
fn test_parse_read_agc() {
    let mut parser = CatParser::new();
    parser.feed(b'G');
    parser.feed(b'T');
    let cmd = parser.feed(b';');
    assert!(matches!(cmd, Some(CatCommand::ReadAgc)));
}

#[test]
fn test_parse_set_agc() {
    let mut parser = CatParser::new();
    for c in b"GT002" {
        parser.feed(*c);
    }
    let cmd = parser.feed(b';');
    assert!(matches!(cmd, Some(CatCommand::SetAgc(2))));
}

#[test]
fn test_parse_read_nb() {
    let mut parser = CatParser::new();
    parser.feed(b'N');
    parser.feed(b'B');
    let cmd = parser.feed(b';');
    assert!(matches!(cmd, Some(CatCommand::ReadNb)));
}

#[test]
fn test_parse_set_nb_on() {
    let mut parser = CatParser::new();
    for c in b"NB1" {
        parser.feed(*c);
    }
    let cmd = parser.feed(b';');
    assert!(matches!(cmd, Some(CatCommand::SetNb(true))));
}


#[test]
fn test_parse_read_preamp() {
    let mut parser = CatParser::new();
    parser.feed(b'P');
    parser.feed(b'A');
    let cmd = parser.feed(b';');
    assert!(matches!(cmd, Some(CatCommand::ReadPreamp)));
}

#[test]
fn test_parse_set_preamp_on() {
    let mut parser = CatParser::new();
    for c in b"PA1" {
        parser.feed(*c);
    }
    let cmd = parser.feed(b';');
    assert!(matches!(cmd, Some(CatCommand::SetPreamp(true))));
}

#[test]
fn test_parse_read_att() {
    let mut parser = CatParser::new();
    parser.feed(b'R');
    parser.feed(b'A');
    let cmd = parser.feed(b';');
    assert!(matches!(cmd, Some(CatCommand::ReadAtt)));
}

#[test]
fn test_parse_set_att_on() {
    let mut parser = CatParser::new();
    for c in b"RA01" {
        parser.feed(*c);
    }
    let cmd = parser.feed(b';');
    assert!(matches!(cmd, Some(CatCommand::SetAtt(true))));
}


#[test]
fn test_parse_unknown_command() {
    let mut parser = CatParser::new();
    parser.feed(b'X');
    parser.feed(b'Y');
    let cmd = parser.feed(b';');
    assert!(matches!(cmd, Some(CatCommand::Unknown(_))));
}


#[test]
fn test_parser_ignores_line_endings() {
    let mut parser = CatParser::new();
    parser.feed(b'F');
    parser.feed(b'\r');
    parser.feed(b'\n');
    parser.feed(b'A');
    let cmd = parser.feed(b';');
    assert!(matches!(cmd, Some(CatCommand::ReadFrequency(false))));
}

#[test]
fn test_parser_buffer_overflow_protection() {
    let mut parser = CatParser::new();
    // Feed more than MAX_CMD_LEN bytes to trigger overflow reset
    for _ in 0..100 {
        parser.feed(b'X');
    }
    // Buffer was cleared at overflow, need to start fresh command
    // The 'X' chars would have been cleared, but we need a semicolon
    // to reset properly
    parser.feed(b';'); // Clear any partial state
    parser.feed(b'I');
    parser.feed(b'D');
    let cmd = parser.feed(b';');
    assert!(matches!(cmd, Some(CatCommand::ReadId)));
}

#[test]
fn test_parser_empty_command() {
    let mut parser = CatParser::new();
    let cmd = parser.feed(b';');
    assert!(cmd.is_none());
}

#[test]
fn test_parser_single_char_command() {
    let mut parser = CatParser::new();
    parser.feed(b'F');
    let cmd = parser.feed(b';');
    assert!(cmd.is_none());
}


#[test]
fn test_response_creation() {
    let _resp = CatResponse::new();
}

#[test]
fn test_response_default() {
    let _resp = CatResponse::default();
}

#[test]
fn test_response_frequency_vfo_a() {
    let mut resp = CatResponse::new();
    let freq = Frequency::from_hz(7_074_000).unwrap();
    resp.frequency(freq, false);
    assert_eq!(resp.as_str(), "FA00007074000;");
}

#[test]
fn test_response_frequency_vfo_b() {
    let mut resp = CatResponse::new();
    let freq = Frequency::from_hz(14_070_000).unwrap();
    resp.frequency(freq, true);
    assert_eq!(resp.as_str(), "FB00014070000;");
}

#[test]
fn test_response_mode_usb() {
    let mut resp = CatResponse::new();
    resp.mode(Mode::Usb);
    assert_eq!(resp.as_str(), "MD2;");
}

#[test]
fn test_response_mode_lsb() {
    let mut resp = CatResponse::new();
    resp.mode(Mode::Lsb);
    assert_eq!(resp.as_str(), "MD1;");
}

#[test]
fn test_response_mode_cw() {
    let mut resp = CatResponse::new();
    resp.mode(Mode::Cw);
    assert_eq!(resp.as_str(), "MD3;");
}

#[test]
fn test_response_id() {
    let mut resp = CatResponse::new();
    resp.id();
    assert_eq!(resp.as_str(), "ID019;");
}

#[test]
fn test_response_power() {
    let mut resp = CatResponse::new();
    let pwr = PowerLevel::from_percent(50);
    resp.power(pwr);
    assert_eq!(resp.as_str(), "PC050;");
}

#[test]
fn test_response_power_full() {
    let mut resp = CatResponse::new();
    let pwr = PowerLevel::from_percent(100);
    resp.power(pwr);
    assert_eq!(resp.as_str(), "PC100;");
}

#[test]
fn test_response_status() {
    let mut resp = CatResponse::new();
    let freq = Frequency::from_hz(7_074_000).unwrap();
    resp.status(freq, Mode::Usb, false);
    let status = resp.as_str();
    assert!(status.starts_with("IF00007074000"));
    assert!(status.ends_with(";"));
}

#[test]
fn test_response_clear() {
    let mut resp = CatResponse::new();
    resp.id();
    assert!(!resp.as_str().is_empty());
    resp.clear();
    assert!(resp.as_str().is_empty());
}

#[test]
fn test_response_as_bytes() {
    let mut resp = CatResponse::new();
    resp.id();
    assert_eq!(resp.as_bytes(), b"ID019;");
}

// Note: to_radio_event tests are only available in embedded mode
// as they require the RadioEvent type from crate::radio::state

fn feed_all(parser: &mut CatParser, bytes: &[u8]) -> Option<CatCommand> {
    let mut last = None;
    for &b in bytes {
        last = parser.feed(b);
    }
    last
}

#[test]
fn cat_frequency_response_parses_back() {
    let mut resp = CatResponse::new();
    resp.frequency(Frequency::from_hz(21_074_000).unwrap(), true);
    let mut parser = CatParser::new();
    match feed_all(&mut parser, resp.as_bytes()) {
        Some(CatCommand::SetFrequency(f, true)) => assert_eq!(f.as_hz(), 21_074_000),
        _ => panic!("round trip failed"),
    }
}

#[test]
fn cat_mode_and_power_responses_parse_back() {
    let mut resp = CatResponse::new();
    let mut parser = CatParser::new();
    resp.mode(Mode::CwR);
    assert!(matches!(feed_all(&mut parser, resp.as_bytes()), Some(CatCommand::SetMode(Mode::CwR))));
    resp.power(PowerLevel::from_percent(7));
    assert_eq!(resp.as_str(), "PC007;");
    match feed_all(&mut parser, resp.as_bytes()) {
        Some(CatCommand::SetPower(p)) => assert_eq!(p.as_percent(), 7),
        _ => panic!("round trip failed"),
    }
}

#[test]
fn cat_status_response_full() {
    let mut resp = CatResponse::new();
    resp.status(Frequency::from_hz(14_074_000).unwrap(), Mode::Usb, true);
    assert_eq!(resp.as_str(), "IF0001407400000000+0000000000200000000001;");
}

#[test]
fn cat_unknown_command_keeps_tag() {
    let mut parser = CatParser::new();
    match feed_all(&mut parser, b"ZZ123;") {
        Some(CatCommand::Unknown(tag)) => assert_eq!(tag.as_str(), "ZZ"),
        _ => panic!("expected unknown"),
    }
    match feed_all(&mut parser, "\u{e9}a;".as_bytes()) {
        Some(CatCommand::Unknown(tag)) => assert_eq!(tag.as_str(), "\u{e9}a"),
        _ => panic!("expected unknown"),
    }
}

#[test]
fn cat_invalid_utf8_gives_nothing() {
    let mut parser = CatParser::new();
    assert!(feed_all(&mut parser, &[0xFF, 0xFE, b';']).is_none());
}

#[test]
fn cat_terminator_safety_check() {
    let mut parser = CatParser::new();
    parser.feed(b'F');
    parser.feed(b'A');
    assert!(parser.terminator_is_safe());
    let mut parser = CatParser::new();
    for &b in "a\u{e9}".as_bytes() {
        parser.feed(b);
    }
    // Cutting after two bytes would split the second character
    assert!(!parser.terminator_is_safe());
}

#[test]
fn cat_line_endings_ignored_and_overflow_dropped() {
    let mut parser = CatParser::new();
    assert!(matches!(feed_all(&mut parser, b"I\r\nD;"), Some(CatCommand::ReadId)));
    for _ in 0..63 {
        parser.feed(b'X');
    }
    // The 64th byte drops the command
    parser.feed(b'X');
    assert!(feed_all(&mut parser, b"ID;").is_some());
}

#[test]
fn cat_number_fields() {
    let mut parser = CatParser::new();
    assert!(matches!(feed_all(&mut parser, b"AG0128;"), Some(CatCommand::SetAfGain(128))));
    assert!(feed_all(&mut parser, b"AG0256;").is_none());
    assert!(matches!(feed_all(&mut parser, b"PC+99;"), Some(CatCommand::SetPower(_))));
    assert!(matches!(feed_all(&mut parser, b"RA00;"), Some(CatCommand::SetAtt(false))));
    assert!(matches!(feed_all(&mut parser, b"GT005;"), Some(CatCommand::SetAgc(5))));
    assert!(feed_all(&mut parser, b"FA0000707400x;").is_none());
}

#[test]
fn cat_command_to_radio_event() {
    assert!(matches!(CatCommand::TuneDown.to_radio_event(), Some(RadioEvent::Tune(-1))));
    assert!(matches!(CatCommand::Transmit(true).to_radio_event(), Some(RadioEvent::StartTx)));
    assert!(CatCommand::SetNb(false).to_radio_event().is_none());
    assert!(matches!(CatCommand::SetAtt(true).to_radio_event(), Some(RadioEvent::ToggleAtt)));
    assert!(CatCommand::ReadId.to_radio_event().is_none());
}
