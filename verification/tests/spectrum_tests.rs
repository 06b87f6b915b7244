use sdr_firmware::dsp::spectrum::{SpectrumConfig, WaterfallBuffer, WaterfallRow};

#[test]
fn config_default() {
    let config = SpectrumConfig::default();
    assert_eq!(config.fft_size, 256);
    assert_eq!(config.sample_rate, 48000);
}

#[test]
fn waterfall_row_default() {
    let row = WaterfallRow::default();
    assert_eq!(row.timestamp, 0);
}

#[test]
fn waterfall_row_power_at() {
    let row = WaterfallRow::default();
    assert_eq!(row.power_at(0), 0);
    assert_eq!(row.power_at(200), 0); // Out of bounds
}


#[test]
fn waterfall_buffer_creation() {
    let buffer: WaterfallBuffer<64> = WaterfallBuffer::new();
    assert!(buffer.is_empty());
    assert_eq!(buffer.len(), 0);
}

#[test]
fn waterfall_buffer_push_get() {
    let mut buffer: WaterfallBuffer<4> = WaterfallBuffer::new();

    for i in 0..3 {
        buffer.push(WaterfallRow {
            timestamp: i,
            data: [i as i8; 128],
        });
    }

    assert_eq!(buffer.len(), 3);

    // Most recent (index 0) should be timestamp 2
    let row = buffer.get(0).unwrap();
    assert_eq!(row.timestamp, 2);

    // Oldest should be timestamp 0
    let row = buffer.get(2).unwrap();
    assert_eq!(row.timestamp, 0);
}

#[test]
fn waterfall_buffer_overflow() {
    let mut buffer: WaterfallBuffer<4> = WaterfallBuffer::new();

    for i in 0..10 {
        buffer.push(WaterfallRow {
            timestamp: i,
            data: [0; 128],
        });
    }

    // Should have max 4 rows
    assert_eq!(buffer.len(), 4);

    // Most recent should be 9
    let row = buffer.get(0).unwrap();
    assert_eq!(row.timestamp, 9);

    // Oldest should be 6
    let row = buffer.get(3).unwrap();
    assert_eq!(row.timestamp, 6);
}

#[test]
fn waterfall_buffer_clear() {
    let mut buffer: WaterfallBuffer<4> = WaterfallBuffer::new();

    buffer.push(WaterfallRow::default());
    buffer.push(WaterfallRow::default());

    buffer.clear();
    assert!(buffer.is_empty());
}

#[test]
fn waterfall_buffer_get_invalid() {
    let buffer: WaterfallBuffer<4> = WaterfallBuffer::new();
    assert!(buffer.get(0).is_none());
}
