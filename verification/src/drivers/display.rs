//! OLED Display (SSD1306, I2C)
//!
//! The 128x64 monochrome frame buffer, the command and data transfers that
//! initialise and refresh the panel, and the text the status screen shows.
//! Each transfer is the bytes of one I2C write to the display; the
//! application sends them and draws text and shapes into the buffer.

use vstd::prelude::*;
use crate::types::{Band, Frequency, Mode, TuningStep, TxRxState};

verus! {

/// Display width in pixels
pub const DISPLAY_WIDTH: u32 = 128;

/// Display height in pixels
pub const DISPLAY_HEIGHT: u32 = 64;

/// Frame buffer size in bytes (one bit per pixel)
pub const BUFFER_BYTES: usize = 1024;

/// Set contrast control
pub const CMD_SET_CONTRAST: u8 = 0x81;
/// Resume display from RAM content
pub const CMD_DISPLAY_ALL_ON_RESUME: u8 = 0xA4;
/// Normal (non-inverted) display
pub const CMD_NORMAL_DISPLAY: u8 = 0xA6;
/// Inverted display
pub const CMD_INVERT_DISPLAY: u8 = 0xA7;
/// Display off
pub const CMD_DISPLAY_OFF: u8 = 0xAE;
/// Display on
pub const CMD_DISPLAY_ON: u8 = 0xAF;
/// Set display offset
pub const CMD_SET_DISPLAY_OFFSET: u8 = 0xD3;
/// Set COM pins hardware configuration
pub const CMD_SET_COM_PINS: u8 = 0xDA;
/// Set VCOMH deselect level
pub const CMD_SET_VCOM_DETECT: u8 = 0xDB;
/// Set display clock divide ratio
pub const CMD_SET_DISPLAY_CLOCK_DIV: u8 = 0xD5;
/// Set pre-charge period
pub const CMD_SET_PRECHARGE: u8 = 0xD9;
/// Set multiplex ratio
pub const CMD_SET_MULTIPLEX: u8 = 0xA8;
/// Set display start line 0
pub const CMD_SET_START_LINE: u8 = 0x40;
/// Set memory addressing mode
pub const CMD_MEMORY_MODE: u8 = 0x20;
/// Set column address range
pub const CMD_COLUMN_ADDR: u8 = 0x21;
/// Set page address range
pub const CMD_PAGE_ADDR: u8 = 0x22;
/// COM output scan direction: remapped
pub const CMD_COM_SCAN_DEC: u8 = 0xC8;
/// Segment re-map
pub const CMD_SEG_REMAP: u8 = 0xA0;
/// Charge pump setting
pub const CMD_CHARGE_PUMP: u8 = 0x8D;

/// Control byte that marks a command transfer.
pub const CONTROL_COMMAND: u8 = 0x00;
/// Control byte that marks a data transfer.
pub const CONTROL_DATA: u8 = 0x40;
/// Bytes of pixel data per data transfer.
pub const DATA_CHUNK: usize = 32;

/// The byte holding pixel (`x`, `y`): pages of eight rows, one byte per
/// column.
pub open spec fn pixel_byte(x: u32, y: u32) -> int {
    (y / 8) * 128 + x
}

/// The bit of that byte holding the pixel.
pub open spec fn pixel_mask(y: u32) -> u8 {
    (1u8 << ((y % 8) as u8)) as u8
}

/// Display buffer (1 bit per pixel)
pub struct DisplayBuffer {
    /// Pixel data (128x64 / 8 = 1024 bytes)
    buffer: Vec<u8>,
}

impl View for DisplayBuffer {
    type V = Seq<u8>;

    closed spec fn view(&self) -> Seq<u8> {
        self.buffer@
    }
}

impl DisplayBuffer {
    /// Create a new empty display buffer
    pub fn new() -> (r: Self)
        ensures
            r@.len() == BUFFER_BYTES,
            forall|i: int| 0 <= i < BUFFER_BYTES ==> r@[i] == 0,
    {
        let mut buffer: Vec<u8> = Vec::new();
        let mut i: usize = 0;
        while i < BUFFER_BYTES
            invariant
                i <= BUFFER_BYTES,
                buffer@.len() == i,
                forall|j: int| 0 <= j < i ==> buffer@[j] == 0,
            decreases BUFFER_BYTES - i,
        {
            buffer.push(0);
            i = i + 1;
        }
        Self { buffer }
    }

    /// Clear the buffer
    pub fn clear(&mut self)
        ensures
            final(self)@.len() == BUFFER_BYTES,
            forall|i: int| 0 <= i < BUFFER_BYTES ==> final(self)@[i] == 0,
    {
        let fresh = Self::new();
        *self = fresh;
    }

    /// Set a pixel (coordinates off the panel are ignored)
    pub fn set_pixel(&mut self, x: u32, y: u32, on: bool)
        ensures
            final(self)@.len() == old(self)@.len(),
            x < DISPLAY_WIDTH && y < DISPLAY_HEIGHT && old(self)@.len() == BUFFER_BYTES ==> final(self)@
                == old(self)@.update(
                pixel_byte(x, y),
                if on {
                    old(self)@[pixel_byte(x, y)] | pixel_mask(y)
                } else {
                    old(self)@[pixel_byte(x, y)] & !pixel_mask(y)
                },
            ),
            !(x < DISPLAY_WIDTH && y < DISPLAY_HEIGHT) ==> final(self)@ == old(self)@,
    {
        if x >= DISPLAY_WIDTH || y >= DISPLAY_HEIGHT {
            return;
        }
        let byte_idx = (y / 8 * DISPLAY_WIDTH + x) as usize;
        let bit: u8 = 1u8 << ((y % 8) as u8);
        if byte_idx < self.buffer.len() {
            let old_byte = self.buffer[byte_idx];
            if on {
                self.buffer.set(byte_idx, old_byte | bit);
            } else {
                self.buffer.set(byte_idx, old_byte & !bit);
            }
        }
    }

    /// Whether pixel (`x`, `y`) is lit
    pub fn pixel(&self, x: u32, y: u32) -> (r: bool)
        requires
            x < DISPLAY_WIDTH,
            y < DISPLAY_HEIGHT,
            self@.len() == BUFFER_BYTES,
        ensures
            r == (self@[pixel_byte(x, y)] & pixel_mask(y) != 0),
    {
        let byte_idx = (y / 8 * DISPLAY_WIDTH + x) as usize;
        self.buffer[byte_idx] & (1u8 << ((y % 8) as u8)) != 0
    }

    /// Get the raw buffer
    pub fn as_bytes(&self) -> (r: &[u8])
        ensures
            r@ == self@,
    {
        self.buffer.as_slice()
    }
}

impl Default for DisplayBuffer {
    fn default() -> (r: Self)
        ensures
            r@.len() == BUFFER_BYTES,
            forall|i: int| 0 <= i < BUFFER_BYTES ==> r@[i] == 0,
    {
        Self::new()
    }
}

/// Setting a pixel and reading it back gives what was written, and no
/// other pixel changes.
pub proof fn lemma_pixel_write_read(b: u8, y: u32, y2: u32, on: bool)
    requires
        y % 8 != y2 % 8 || y == y2,
    ensures
        ({
            let nb = if on { b | pixel_mask(y) } else { b & !pixel_mask(y) };
            &&& (nb & pixel_mask(y) != 0) == on
            &&& y % 8 != y2 % 8 ==> (nb & pixel_mask(y2) != 0) == (b & pixel_mask(y2) != 0)
        }),
{
    let s = (y % 8) as u8;
    let s2 = (y2 % 8) as u8;
    assert(s < 8 && s2 < 8);
    assert(((b | (1u8 << s)) & (1u8 << s) != 0) && ((b & !(1u8 << s)) & (1u8 << s) == 0)) by (bit_vector)
        requires
            s < 8,
    ;
    assert(s != s2 ==> ((b | (1u8 << s)) & (1u8 << s2) != 0) == (b & (1u8 << s2) != 0)) by (bit_vector)
        requires
            s < 8,
            s2 < 8,
    ;
    assert(s != s2 ==> ((b & !(1u8 << s)) & (1u8 << s2) != 0) == (b & (1u8 << s2) != 0)) by (bit_vector)
        requires
            s < 8,
            s2 < 8,
    ;
}

/// The SSD1306 128x64 initialisation command sequence.
pub open spec fn init_command_bytes() -> Seq<u8> {
    seq![
        CMD_DISPLAY_OFF, CMD_SET_DISPLAY_CLOCK_DIV, 0x80u8, CMD_SET_MULTIPLEX, 0x3Fu8,
        CMD_SET_DISPLAY_OFFSET, 0x00u8, CMD_SET_START_LINE, CMD_CHARGE_PUMP, 0x14u8,
        CMD_MEMORY_MODE, 0x00u8, CMD_SEG_REMAP | 0x01u8, CMD_COM_SCAN_DEC, CMD_SET_COM_PINS,
        0x12u8, CMD_SET_CONTRAST, 0xCFu8, CMD_SET_PRECHARGE, 0xF1u8, CMD_SET_VCOM_DETECT,
        0x40u8, CMD_DISPLAY_ALL_ON_RESUME, CMD_NORMAL_DISPLAY, CMD_DISPLAY_ON,
    ]
}

/// The commands that address the whole panel before a refresh.
pub open spec fn flush_command_bytes() -> Seq<u8> {
    seq![CMD_COLUMN_ADDR, 0u8, 127u8, CMD_PAGE_ADDR, 0u8, 7u8]
}

/// One transfer per command byte.
pub open spec fn command_transfers(cmds: Seq<u8>) -> Seq<Seq<u8>> {
    Seq::new(cmds.len(), |i: int| seq![CONTROL_COMMAND, cmds[i]])
}

/// One data transfer per 32 bytes of the frame.
pub open spec fn data_transfers(frame: Seq<u8>) -> Seq<Seq<u8>> {
    Seq::new(
        (frame.len() + 31) as nat / 32,
        |i: int| seq![CONTROL_DATA] + frame.subrange(i * 32, vstd::math::min(i * 32 + 32, frame.len() as int)),
    )
}

/// The transfers that refresh the panel from a frame.
pub open spec fn flush_transfers(frame: Seq<u8>) -> Seq<Seq<u8>> {
    command_transfers(flush_command_bytes()) + data_transfers(frame)
}

/// The views of a list of transfers.
pub open spec fn transfers_view(t: Seq<Vec<u8>>) -> Seq<Seq<u8>> {
    Seq::new(t.len(), |i: int| t[i]@)
}

/// Append one command transfer per byte
fn push_commands(out: &mut Vec<Vec<u8>>, cmds: &[u8])
    ensures
        transfers_view(final(out)@) == transfers_view(old(out)@) + command_transfers(cmds@),
{
    let ghost start = transfers_view(out@);
    let mut i: usize = 0;
    while i < cmds.len()
        invariant
            i <= cmds@.len(),
            start == transfers_view(old(out)@),
            transfers_view(out@) == start + command_transfers(cmds@.take(i as int)),
        decreases cmds@.len() - i,
    {
        let mut t: Vec<u8> = Vec::new();
        t.push(CONTROL_COMMAND);
        t.push(cmds[i]);
        let ghost prev = out@;
        out.push(t);
        proof {
            assert(t@ =~= seq![CONTROL_COMMAND, cmds@[i as int]]);
            assert(transfers_view(out@) =~= transfers_view(prev).push(t@));
            assert(command_transfers(cmds@.take(i + 1)) =~= command_transfers(cmds@.take(i as int)).push(
                seq![CONTROL_COMMAND, cmds@[i as int]],
            ));
        }
        i = i + 1;
    }
    assert(cmds@.take(i as int) =~= cmds@);
}

/// OLED display: the frame buffer, and the transfers that drive the panel
pub struct Display {
    buffer: DisplayBuffer,
}

impl Display {
    /// Create a new display driver with a blank frame
    pub fn new() -> (r: Self)
        ensures
            r.frame().len() == BUFFER_BYTES,
            forall|i: int| 0 <= i < BUFFER_BYTES ==> r.frame()[i] == 0,
    {
        Self { buffer: DisplayBuffer::new() }
    }

    /// The frame held.
    pub closed spec fn frame(&self) -> Seq<u8> {
        self.buffer@
    }

    /// The transfers that initialise the panel and show a cleared frame:
    /// the initialisation commands, then a refresh
    pub fn init(&mut self) -> (r: Vec<Vec<u8>>)
        ensures
            final(self).frame().len() == BUFFER_BYTES,
            forall|i: int| 0 <= i < BUFFER_BYTES ==> final(self).frame()[i] == 0,
            transfers_view(r@) == command_transfers(init_command_bytes()) + flush_transfers(final(self).frame()),
    {
        let mut out: Vec<Vec<u8>> = Vec::new();
        let cmds: [u8; 25] = [
            CMD_DISPLAY_OFF, CMD_SET_DISPLAY_CLOCK_DIV, 0x80, CMD_SET_MULTIPLEX, 0x3F,
            CMD_SET_DISPLAY_OFFSET, 0x00, CMD_SET_START_LINE, CMD_CHARGE_PUMP, 0x14,
            CMD_MEMORY_MODE, 0x00, CMD_SEG_REMAP | 0x01, CMD_COM_SCAN_DEC, CMD_SET_COM_PINS,
            0x12, CMD_SET_CONTRAST, 0xCF, CMD_SET_PRECHARGE, 0xF1, CMD_SET_VCOM_DETECT,
            0x40, CMD_DISPLAY_ALL_ON_RESUME, CMD_NORMAL_DISPLAY, CMD_DISPLAY_ON,
        ];
        assert(cmds@ =~= init_command_bytes());
        push_commands(&mut out, &cmds);
        self.buffer.clear();
        let refresh = self.flush();
        let ghost before = transfers_view(out@);
        let mut i: usize = 0;
        while i < refresh.len()
            invariant
                i <= refresh@.len(),
                transfers_view(out@) == before + transfers_view(refresh@).take(i as int),
            decreases refresh@.len() - i,
        {
            let t = vstd::slice::slice_to_vec(refresh[i].as_slice());
            let ghost prev = out@;
            out.push(t);
            proof {
                assert(transfers_view(out@) =~= transfers_view(prev).push(refresh@[i as int]@));
                assert(transfers_view(refresh@).take(i + 1) =~= transfers_view(refresh@).take(i as int).push(
                    refresh@[i as int]@,
                ));
            }
            i = i + 1;
        }
        assert(transfers_view(refresh@).take(i as int) =~= transfers_view(refresh@));
        out
    }

    /// The transfers that copy the frame to the panel: column and page
    /// ranges, then the frame in 32-byte chunks
    pub fn flush(&self) -> (r: Vec<Vec<u8>>)
        ensures
            transfers_view(r@) == flush_transfers(self.frame()),
    {
        let mut out: Vec<Vec<u8>> = Vec::new();
        let cmds: [u8; 6] = [CMD_COLUMN_ADDR, 0, 127, CMD_PAGE_ADDR, 0, 7];
        assert(cmds@ =~= flush_command_bytes());
        push_commands(&mut out, &cmds);
        let ghost before = transfers_view(out@);
        let data = self.buffer.as_bytes();
        let n = data.len();
        let chunks = n / 32 + if n % 32 != 0 { 1 } else { 0 };
        assert(chunks == (n + 31) / 32);
        let mut k: usize = 0;
        while k < chunks
            invariant
                n == data@.len(),
                data@ == self.frame(),
                chunks == (n + 31) / 32,
                k <= chunks,
                transfers_view(out@) == before + data_transfers(data@).take(k as int),
            decreases chunks - k,
        {
            assert(k * 32 < n) by (nonlinear_arith)
                requires
                    k < chunks,
                    chunks == (n + 31) / 32,
            ;
            let start = k * 32;
            let end = if n - start > 32 { start + 32 } else { n };
            let mut t: Vec<u8> = Vec::new();
            t.push(CONTROL_DATA);
            let mut j = start;
            while j < end
                invariant
                    start <= j <= end,
                    end <= n,
                    n == data@.len(),
                    t@ == seq![CONTROL_DATA] + data@.subrange(start as int, j as int),
                decreases end - j,
            {
                t.push(data[j]);
                assert(data@.subrange(start as int, j + 1) =~= data@.subrange(start as int, j as int).push(data@[j as int]));
                j = j + 1;
            }
            let ghost prev = out@;
            out.push(t);
            proof {
                assert(transfers_view(out@) =~= transfers_view(prev).push(t@));
                assert(data_transfers(data@).take(k + 1) =~= data_transfers(data@).take(k as int).push(
                    data_transfers(data@)[k as int],
                ));
            }
            k = k + 1;
        }
        assert(data_transfers(data@).take(k as int) =~= data_transfers(data@));
        out
    }

    /// Get mutable access to the buffer for drawing
    pub fn buffer_mut(&mut self) -> (r: &mut DisplayBuffer)
        ensures
            r@ == old(self).frame(),
            final(self).frame() == final(r)@,
    {
        &mut self.buffer
    }

    /// Clear the display
    pub fn clear(&mut self)
        ensures
            final(self).frame().len() == BUFFER_BYTES,
            forall|i: int| 0 <= i < BUFFER_BYTES ==> final(self).frame()[i] == 0,
    {
        self.buffer.clear();
    }

    /// The transfers that set the display contrast
    pub fn set_contrast(&self, contrast: u8) -> (r: Vec<Vec<u8>>)
        ensures
            transfers_view(r@) == command_transfers(seq![CMD_SET_CONTRAST, contrast]),
    {
        let mut out: Vec<Vec<u8>> = Vec::new();
        push_commands(&mut out, &[CMD_SET_CONTRAST, contrast]);
        assert(transfers_view(out@) =~= command_transfers(seq![CMD_SET_CONTRAST, contrast]));
        out
    }

    /// The transfer that inverts (or restores) the display colors
    pub fn invert(&self, invert: bool) -> (r: Vec<Vec<u8>>)
        ensures
            transfers_view(r@) == command_transfers(
                seq![if invert { CMD_INVERT_DISPLAY } else { CMD_NORMAL_DISPLAY }],
            ),
    {
        let cmd = if invert { CMD_INVERT_DISPLAY } else { CMD_NORMAL_DISPLAY };
        let mut out: Vec<Vec<u8>> = Vec::new();
        push_commands(&mut out, &[cmd]);
        assert(transfers_view(out@) =~= command_transfers(seq![cmd]));
        out
    }
}

/// A full frame goes to the panel in 32 data transfers that carry every
/// byte of the frame exactly once, in order.
pub proof fn lemma_flush_covers_frame(frame: Seq<u8>)
    requires
        frame.len() == BUFFER_BYTES,
    ensures
        data_transfers(frame).len() == 32,
        forall|i: int, j: int| 0 <= i < 32 && 0 <= j < 32 ==>
            #[trigger] data_transfers(frame)[i][j + 1] == frame[i * 32 + j],
{
    assert forall|i: int, j: int| 0 <= i < 32 && 0 <= j < 32 implies
        #[trigger] data_transfers(frame)[i][j + 1] == frame[i * 32 + j] by {
        assert(vstd::math::min(i * 32 + 32, frame.len() as int) == i * 32 + 32);
    }
}

/// Text and bar geometry of the status screen.
pub struct StatusRenderer;

impl StatusRenderer {
    /// Text of the mode indicator
    pub fn mode_text(mode: Mode) -> (r: &'static str)
        ensures
            r@ == (match mode {
                Mode::Lsb => "LSB"@,
                Mode::Usb => "USB"@,
                Mode::Cw => "CW"@,
                Mode::CwR => "CWR"@,
                Mode::Am => "AM"@,
                Mode::Fm => "FM"@,
            }),
    {
        match mode {
            Mode::Lsb => "LSB",
            Mode::Usb => "USB",
            Mode::Cw => "CW",
            Mode::CwR => "CWR",
            Mode::Am => "AM",
            Mode::Fm => "FM",
        }
    }

    /// Text of the band indicator
    pub fn band_text(band: Option<Band>) -> (r: &'static str)
        ensures
            r@ == (match band {
                Some(Band::M80) => "80m"@,
                Some(Band::M40) => "40m"@,
                Some(Band::M30) => "30m"@,
                Some(Band::M20) => "20m"@,
                Some(Band::M17) => "17m"@,
                Some(Band::M15) => "15m"@,
                None => "---"@,
            }),
    {
        match band {
            Some(Band::M80) => "80m",
            Some(Band::M40) => "40m",
            Some(Band::M30) => "30m",
            Some(Band::M20) => "20m",
            Some(Band::M17) => "17m",
            Some(Band::M15) => "15m",
            None => "---",
        }
    }

    /// Text of the TX/RX indicator and whether it is drawn inverted (white
    /// on a filled box)
    pub fn txrx_text(state: TxRxState) -> (r: (&'static str, bool))
        ensures
            r.0@ == (match state {
                TxRxState::Rx => "RX"@,
                TxRxState::Tx => "TX"@,
                TxRxState::Switching => "--"@,
            }),
            r.1 <==> state == TxRxState::Tx,
    {
        match state {
            TxRxState::Rx => ("RX", false),
            TxRxState::Tx => ("TX", true),
            TxRxState::Switching => ("--", false),
        }
    }

    /// Text of the tuning step indicator
    pub fn step_text(step: TuningStep) -> (r: &'static str)
        ensures
            r@ == (match step {
                TuningStep::Hz1 => "1Hz"@,
                TuningStep::Hz10 => "10Hz"@,
                TuningStep::Hz100 => "100Hz"@,
                TuningStep::KHz1 => "1kHz"@,
                TuningStep::KHz10 => "10kHz"@,
                TuningStep::KHz100 => "100k"@,
                TuningStep::MHz1 => "1MHz"@,
            }),
    {
        match step {
            TuningStep::Hz1 => "1Hz",
            TuningStep::Hz10 => "10Hz",
            TuningStep::Hz100 => "100Hz",
            TuningStep::KHz1 => "1kHz",
            TuningStep::KHz10 => "10kHz",
            TuningStep::KHz100 => "100k",
            TuningStep::MHz1 => "1MHz",
        }
    }

    /// Width in pixels of the S-meter bar for a level (0-100) on the
    /// 100-pixel scale
    pub fn smeter_bar_width(level: u8) -> (r: u32)
        ensures
            r == level as u32 * 100 / 100,
    {
        level as u32 * 100 / 100
    }

    /// Text of the frequency display: MHz (two places, space padded), kHz
    /// and Hz (three places each), separated by dots
    pub fn frequency_text(freq: Frequency) -> (r: Vec<u8>)
        ensures
            r@ == frequency_display(freq@),
    {
        let hz = freq.as_hz();
        let mhz = hz / 1_000_000;
        let khz = (hz % 1_000_000) / 1000;
        let rest = hz % 1000;
        let mut out: Vec<u8> = Vec::new();
        if mhz < 10 {
            out.push(32);
            out.push(48 + mhz as u8);
        } else {
            out.push(48 + (mhz / 10) as u8);
            out.push(48 + (mhz % 10) as u8);
        }
        out.push(46);
        out.push(48 + (khz / 100) as u8);
        out.push(48 + ((khz / 10) % 10) as u8);
        out.push(48 + (khz % 10) as u8);
        out.push(46);
        out.push(48 + (rest / 100) as u8);
        out.push(48 + ((rest / 10) % 10) as u8);
        out.push(48 + (rest % 10) as u8);
        assert(out@ =~= frequency_display(freq@));
        out
    }
}

/// ASCII digit `d`.
pub open spec fn digit(d: u32) -> u8 {
    (48 + d) as u8
}

/// The frequency display for `hz` (below 100 MHz): `MM.kkk.hhh` with the
/// MHz right aligned in two places.
pub open spec fn frequency_display(hz: u32) -> Seq<u8> {
    let mhz = hz / 1_000_000;
    let khz = (hz % 1_000_000) / 1000;
    let rest = hz % 1000;
    let head = if mhz < 10 { seq![32u8, digit(mhz)] } else { seq![digit(mhz / 10), digit(mhz % 10)] };
    head + seq![46u8, digit(khz / 100), digit((khz / 10) % 10), digit(khz % 10), 46u8, digit(rest / 100),
        digit((rest / 10) % 10), digit(rest % 10)]
}

} // verus!
