//! Spectrum Analysis Module
//!
//! Spectrum analyzer configuration and the waterfall display history.

use vstd::prelude::*;

verus! {

/// Spectrum analyzer configuration
#[derive(Clone, Copy, Debug)]
pub struct SpectrumConfig {
    /// Center frequency in Hz
    pub center_freq: u32,
    /// Span in Hz
    pub span_hz: u32,
    /// Number of FFT bins
    pub fft_size: usize,
    /// Sample rate in Hz
    pub sample_rate: u32,
    /// Averaging count (1 = no averaging)
    pub averaging: u8,
}

impl Default for SpectrumConfig {
    fn default() -> (r: Self)
        ensures
            r.center_freq == 7_100_000,
            r.span_hz == 48000,
            r.fft_size == 256,
            r.sample_rate == 48000,
            r.averaging == 4,
    {
        Self { center_freq: 7_100_000, span_hz: 48000, fft_size: 256, sample_rate: 48000, averaging: 4 }
    }
}

/// Number of columns in a waterfall row.
pub const WATERFALL_COLUMNS: usize = 128;

/// Waterfall display row
#[derive(Clone, Copy, Debug)]
pub struct WaterfallRow {
    /// Timestamp (sample count or milliseconds)
    pub timestamp: u32,
    /// Power values in dB for each column
    pub data: [i8; 128],
}

impl WaterfallRow {
    /// Get power at column (0-100 range for display)
    pub fn power_at(&self, col: usize) -> (r: u8)
        ensures
            col < WATERFALL_COLUMNS ==> r == self.data@[col as int] as u8,
            col >= WATERFALL_COLUMNS ==> r == 0,
    {
        if col < 128 {
            self.data[col] as u8
        } else {
            0
        }
    }
}

impl Default for WaterfallRow {
    fn default() -> (r: Self)
        ensures
            r.timestamp == 0,
            forall|i: int| 0 <= i < WATERFALL_COLUMNS ==> r.data@[i] == 0,
    {
        Self { timestamp: 0, data: [0; 128] }
    }
}

/// Waterfall display buffer (circular buffer of rows)
pub struct WaterfallBuffer<const ROWS: usize> {
    rows: Vec<WaterfallRow>,
    head: usize,
    count: usize,
}

impl<const ROWS: usize> View for WaterfallBuffer<ROWS> {
    type V = Seq<WaterfallRow>;

    /// The rows held, most recent first.
    closed spec fn view(&self) -> Seq<WaterfallRow> {
        Seq::new(self.count as nat, |i: int| self.rows@[(self.head + ROWS - 1 - i) % (ROWS as int)])
    }
}

impl<const ROWS: usize> WaterfallBuffer<ROWS> {
    /// The ring holds one slot per row, with the write position inside it.
    pub closed spec fn wf(&self) -> bool {
        &&& self.rows@.len() == ROWS
        &&& self.count <= ROWS
        &&& (ROWS > 0 ==> self.head < ROWS)
        &&& (ROWS == 0 ==> self.head == 0)
    }

    /// Create a new waterfall buffer
    pub fn new() -> (r: Self)
        ensures
            r.wf(),
            r@.len() == 0,
    {
        let mut rows: Vec<WaterfallRow> = Vec::new();
        let mut i: usize = 0;
        while i < ROWS
            invariant
                i <= ROWS,
                rows@.len() == i,
            decreases ROWS - i,
        {
            rows.push(WaterfallRow::default());
            i = i + 1;
        }
        Self { rows, head: 0, count: 0 }
    }

    /// Push a new row (oldest row is dropped)
    pub fn push(&mut self, row: WaterfallRow)
        requires
            ROWS > 0,
            old(self).wf(),
        ensures
            final(self).wf(),
            final(self)@ == if old(self)@.len() < ROWS {
                seq![row] + old(self)@
            } else {
                seq![row] + old(self)@.drop_last()
            },
    {
        let ghost old_view = self@;
        let ghost old_rows = self.rows@;
        let ghost old_head = self.head as int;
        let ghost old_count = self.count as int;
        let head = self.head;
        self.rows.set(head, row);
        self.head = (head + 1) % ROWS;
        if self.count < ROWS {
            self.count = self.count + 1;
        }
        let ghost new_head = self.head as int;
        proof {
            let n = ROWS as int;
            let expected = if old_count < n { seq![row] + old_view } else { seq![row] + old_view.drop_last() };
            assert(self@.len() == expected.len());
            assert forall|i: int| 0 <= i < self@.len() implies self@[i] == expected[i] by {
                if i == 0 {
                    assert((new_head + n - 1) % n == old_head) by (nonlinear_arith)
                        requires
                            new_head == (old_head + 1) % n,
                            0 <= old_head < n,
                    ;
                } else {
                    assert((new_head + n - 1 - i) % n == (old_head + n - 1 - (i - 1)) % n) by (nonlinear_arith)
                        requires
                            new_head == (old_head + 1) % n,
                            0 <= old_head < n,
                            1 <= i < n,
                    ;
                    assert((old_head + n - 1 - (i - 1)) % n != old_head) by (nonlinear_arith)
                        requires
                            0 <= old_head < n,
                            1 <= i < n,
                    ;
                }
            }
            assert(self@ =~= expected);
        }
    }

    /// Get row by index (0 = most recent)
    pub fn get(&self, index: usize) -> (r: Option<&WaterfallRow>)
        requires
            self.wf(),
        ensures
            index < self@.len() ==> r == Some(&self@[index as int]),
            index >= self@.len() ==> r is None,
    {
        if index >= self.count {
            return None;
        }
        let actual_idx = if self.head > index {
            (self.head - 1 - index) % ROWS
        } else {
            (ROWS - 1 - (index - self.head)) % ROWS
        };
        assert(actual_idx as int == (self.head + ROWS - 1 - index) % (ROWS as int)) by (nonlinear_arith)
            requires
                self.head < ROWS,
                index < ROWS,
                self.head > index ==> actual_idx == (self.head - 1 - index) % (ROWS as int),
                self.head <= index ==> actual_idx == (ROWS - 1 - (index - self.head)) % (ROWS as int),
        ;
        Some(&self.rows[actual_idx])
    }

    /// Number of rows in buffer
    pub fn len(&self) -> (r: usize)
        ensures
            r == self@.len(),
    {
        self.count
    }

    /// Check if buffer is empty
    pub fn is_empty(&self) -> (r: bool)
        ensures
            r <==> self@.len() == 0,
    {
        self.count == 0
    }

    /// Clear the buffer
    pub fn clear(&mut self)
        requires
            old(self).wf(),
        ensures
            final(self).wf(),
            final(self)@.len() == 0,
    {
        self.head = 0;
        self.count = 0;
    }
}

impl<const ROWS: usize> Default for WaterfallBuffer<ROWS> {
    fn default() -> (r: Self)
        ensures
            r.wf(),
            r@.len() == 0,
    {
        Self::new()
    }
}

/// The waterfall keeps the most recent rows, newest first: after pushing
/// rows one by one, the row at index `i` is the one pushed `i` pushes ago,
/// for every `i` below the capacity.
pub proof fn lemma_waterfall_push_keeps_order(old_rows: Seq<WaterfallRow>, row: WaterfallRow, rows: nat, i: int)
    requires
        rows > 0,
        old_rows.len() <= rows,
        1 <= i < (if old_rows.len() < rows { old_rows.len() as int + 1 } else { rows as int + 0 }),
    ensures
        (if old_rows.len() < rows { seq![row] + old_rows } else { seq![row] + old_rows.drop_last() })[i]
            == old_rows[i - 1],
        (if old_rows.len() < rows { seq![row] + old_rows } else { seq![row] + old_rows.drop_last() })[0]
            == row,
        (if old_rows.len() < rows { seq![row] + old_rows } else { seq![row] + old_rows.drop_last() }).len()
            == if old_rows.len() < rows { old_rows.len() as int + 1 } else { rows as int + 0 },
{
}

} // verus!
