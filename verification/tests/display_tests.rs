use sdr_firmware::drivers::display::{Display, DisplayBuffer, StatusRenderer};
use sdr_firmware::types::{Band, Frequency, Mode, TuningStep, TxRxState};

#[test]
fn display_buffer_set_and_clear_pixel() {
    let mut buf = DisplayBuffer::new();
    buf.set_pixel(3, 10, true);
    // Page 1, column 3, bit 2
    assert_eq!(buf.as_bytes()[128 + 3], 0b100);
    assert!(buf.pixel(3, 10));
    assert!(!buf.pixel(3, 11));
    buf.set_pixel(3, 11, true);
    buf.set_pixel(3, 10, false);
    assert_eq!(buf.as_bytes()[128 + 3], 0b1000);
    // Off-panel coordinates are ignored
    buf.set_pixel(128, 0, true);
    buf.set_pixel(0, 64, true);
    assert_eq!(buf.as_bytes().iter().filter(|&&b| b != 0).count(), 1);
    buf.clear();
    assert!(buf.as_bytes().iter().all(|&b| b == 0));
    assert_eq!(buf.as_bytes().len(), 1024);
}

#[test]
fn display_init_sequence() {
    let mut display = Display::new();
    display.buffer_mut().set_pixel(0, 0, true);
    let transfers = display.init();
    // 25 init commands, 6 addressing commands, 32 data chunks
    assert_eq!(transfers.len(), 25 + 6 + 32);
    assert_eq!(transfers[0], vec![0x00, 0xAE]);
    assert_eq!(transfers[24], vec![0x00, 0xAF]);
    assert_eq!(transfers[25], vec![0x00, 0x21]);
    assert_eq!(transfers[30], vec![0x00, 0x07]);
    assert_eq!(transfers[31].len(), 33);
    assert_eq!(transfers[31][0], 0x40);
    // The frame was cleared before the refresh
    assert!(transfers[31][1..].iter().all(|&b| b == 0));
}

#[test]
fn display_flush_carries_frame() {
    let mut display = Display::new();
    display.buffer_mut().set_pixel(40, 0, true);
    let transfers = display.flush();
    assert_eq!(transfers.len(), 6 + 32);
    // Byte 40 of the frame is in the second chunk, position 8
    assert_eq!(transfers[6 + 1][1 + 8], 1);
}

#[test]
fn display_contrast_and_invert() {
    let display = Display::new();
    assert_eq!(display.set_contrast(0x7F), vec![vec![0x00, 0x81], vec![0x00, 0x7F]]);
    assert_eq!(display.invert(true), vec![vec![0x00, 0xA7]]);
    assert_eq!(display.invert(false), vec![vec![0x00, 0xA6]]);
}

#[test]
fn status_text() {
    assert_eq!(StatusRenderer::mode_text(Mode::CwR), "CWR");
    assert_eq!(StatusRenderer::band_text(Some(Band::M17)), "17m");
    assert_eq!(StatusRenderer::band_text(None), "---");
    assert_eq!(StatusRenderer::txrx_text(TxRxState::Tx), ("TX", true));
    assert_eq!(StatusRenderer::txrx_text(TxRxState::Switching), ("--", false));
    assert_eq!(StatusRenderer::step_text(TuningStep::KHz100), "100k");
    assert_eq!(StatusRenderer::smeter_bar_width(73), 73);
}

#[test]
fn status_frequency_text() {
    let f = Frequency::from_hz(7_074_000).unwrap();
    assert_eq!(StatusRenderer::frequency_text(f), b" 7.074.000".to_vec());
    let f = Frequency::from_hz(14_074_123).unwrap();
    assert_eq!(StatusRenderer::frequency_text(f), b"14.074.123".to_vec());
}
