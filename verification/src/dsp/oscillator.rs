//! Phase-accumulator oscillator (NCO).

use vstd::prelude::*;

verus! {

/// Phase increment per sample for `freq_hz` at `sample_rate`:
/// freq · 2³² / sample_rate, truncated to 32 bits.
pub open spec fn phase_increment(freq_hz: u32, sample_rate: u32) -> u32 {
    ((freq_hz * 0x1_0000_0000) / (sample_rate as int)) as u32
}

/// NCO (Numerically Controlled Oscillator) with phase accumulator
///
/// Uses a phase accumulator with lookup table for efficient
/// sine generation. Good for fixed-point implementations.
#[derive(Clone, Copy, Debug)]
pub struct Nco {
    /// Phase accumulator (32-bit for precision)
    phase: u32,
    /// Phase increment per sample
    phase_inc: u32,
}

/// Mathematical model of an NCO: its phase and per-sample increment.
pub struct NcoModel {
    pub phase: u32,
    pub phase_inc: u32,
}

impl View for Nco {
    type V = NcoModel;

    closed spec fn view(&self) -> NcoModel {
        NcoModel { phase: self.phase, phase_inc: self.phase_inc }
    }
}

impl Nco {
    /// Create a new NCO
    pub fn new() -> (r: Self)
        ensures
            r@ == (NcoModel { phase: 0, phase_inc: 0 }),
    {
        Self { phase: 0, phase_inc: 0 }
    }

    /// Set frequency (integer Hz at given sample rate)
    pub fn set_frequency(&mut self, freq_hz: u32, sample_rate: u32)
        requires
            sample_rate > 0,
        ensures
            final(self)@ == (NcoModel { phase_inc: phase_increment(freq_hz, sample_rate), ..old(self)@ }),
    {
        let f = freq_hz as u64;
        assert(f * 0x1_0000_0000 <= u64::MAX) by (nonlinear_arith)
            requires
                f <= 0xffff_ffff,
        ;
        assert((1u64 << 32u64) == 0x1_0000_0000u64) by (bit_vector);
        self.phase_inc = ((f * (1u64 << 32u64)) / (sample_rate as u64)) as u32;
    }

    /// Set the phase increment directly (for a frequency worked out
    /// elsewhere, such as a fractional one)
    pub fn set_phase_increment(&mut self, phase_inc: u32)
        ensures
            final(self)@ == (NcoModel { phase_inc, ..old(self)@ }),
    {
        self.phase_inc = phase_inc;
    }

    /// Get next phase value (0 to 2^32-1)
    pub fn next_phase(&mut self) -> (r: u32)
        ensures
            r == old(self)@.phase,
            final(self)@ == (NcoModel {
                phase: ((old(self)@.phase + old(self)@.phase_inc) % 0x1_0000_0000) as u32,
                ..old(self)@
            }),
    {
        let current = self.phase;
        self.phase = self.phase.wrapping_add(self.phase_inc);
        current
    }

    /// Reset phase
    pub fn reset(&mut self)
        ensures
            final(self)@ == (NcoModel { phase: 0, ..old(self)@ }),
    {
        self.phase = 0;
    }

    /// Set phase directly
    pub fn set_phase(&mut self, phase: u32)
        ensures
            final(self)@ == (NcoModel { phase, ..old(self)@ }),
    {
        self.phase = phase;
    }
}

impl Default for Nco {
    fn default() -> (r: Self)
        ensures
            r@ == (NcoModel { phase: 0, phase_inc: 0 }),
    {
        Self::new()
    }
}

/// Phase of an NCO after `n` samples from phase `p` with increment `inc`.
pub open spec fn phase_after(p: u32, inc: u32, n: nat) -> u32 {
    ((p + n * inc) % 0x1_0000_0000) as u32
}

/// The phase accumulator advances by the increment each sample, modulo
/// 2³²: after one more sample the phase is the next multiple along.
pub proof fn lemma_phase_advances(p: u32, inc: u32, n: nat)
    ensures
        phase_after(p, inc, 0) == p,
        phase_after(phase_after(p, inc, n), inc, 1) == phase_after(p, inc, n + 1),
{
    let m = 0x1_0000_0000int;
    let a = p + n * inc;
    vstd::arithmetic::div_mod::lemma_add_mod_noop_right(inc as int, a, m);
    assert((a % m + inc) % m == (a + inc) % m);
    assert(p + (n + 1) * inc == a + inc) by (nonlinear_arith)
        requires
            a == p + n * inc,
    ;
}

/// The DTMF keypad, row by row: `123A`, `456B`, `789C`, `*0#D`.
pub open spec fn dtmf_key(row: int, col: int) -> char {
    let keys = seq![
        seq!['1', '2', '3', 'A'],
        seq!['4', '5', '6', 'B'],
        seq!['7', '8', '9', 'C'],
        seq!['*', '0', '#', 'D'],
    ];
    keys[row][col]
}

/// The keypad row (low tone) and column (high tone) of a DTMF digit, or
/// `None` for a character that is not on the keypad
pub fn dtmf_indices(digit: char) -> (r: Option<(usize, usize)>)
    ensures
        r matches Some((row, col)) ==> row < 4 && col < 4 && dtmf_key(row as int, col as int) == digit,
        r is None ==> forall|row: int, col: int| 0 <= row < 4 && 0 <= col < 4 ==> dtmf_key(row, col) != digit,
{
    match digit {
        '1' => Some((0, 0)),
        '2' => Some((0, 1)),
        '3' => Some((0, 2)),
        'A' => Some((0, 3)),
        '4' => Some((1, 0)),
        '5' => Some((1, 1)),
        '6' => Some((1, 2)),
        'B' => Some((1, 3)),
        '7' => Some((2, 0)),
        '8' => Some((2, 1)),
        '9' => Some((2, 2)),
        'C' => Some((2, 3)),
        '*' => Some((3, 0)),
        '0' => Some((3, 1)),
        '#' => Some((3, 2)),
        'D' => Some((3, 3)),
        _ => None,
    }
}

} // verus!
