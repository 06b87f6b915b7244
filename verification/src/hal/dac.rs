//! DAC samples and output buffers
//!
//! 12-bit output samples, the buffer handed to DMA, and the double buffer
//! that lets one half play while the other is filled.

use vstd::prelude::*;
use crate::config::AUDIO_BUFFER_SIZE;

verus! {

/// Largest 12-bit DAC value.
pub const DAC_MAX: u16 = 4095;

/// Audio output sample
#[derive(Clone, Copy, Debug, PartialEq, Eq, Structural)]
pub struct DacSample {
    /// 12-bit DAC value (0-4095)
    value: u16,
}

/// The DAC code for a signed 16-bit sample: offset to unsigned and scaled
/// down to 12 bits.
pub open spec fn dac_code_of(sample: i16) -> u16 {
    ((sample + 32768) / 16) as u16
}

impl DacSample {
    /// The 12-bit output code.
    pub closed spec fn spec_raw(self) -> u16 {
        self.value
    }

    /// Create from raw 12-bit value (larger values are clamped)
    pub fn from_raw(value: u16) -> (r: Self)
        ensures
            r.spec_raw() == (if value > DAC_MAX { DAC_MAX } else { value }),
    {
        Self { value: if value > DAC_MAX { DAC_MAX } else { value } }
    }

    /// Create from signed 16-bit audio
    pub fn from_i16(sample: i16) -> (r: Self)
        ensures
            r.spec_raw() == dac_code_of(sample),
            r.spec_raw() <= DAC_MAX,
    {
        let shifted: i32 = (sample as i32 + 32768) / 16;
        Self::from_raw(shifted as u16)
    }

    /// Get the raw 12-bit value
    pub fn raw(self) -> (r: u16)
        ensures
            r == self.spec_raw(),
    {
        self.value
    }
}

impl Default for DacSample {
    /// Mid-scale (0 V with bias)
    fn default() -> (r: Self)
        ensures
            r.spec_raw() == 2048,
    {
        Self::from_raw(2048)
    }
}

/// Output audio buffer for DMA transfers
pub struct OutputBuffer {
    /// Samples written since the last reset
    samples: Vec<u16>,
}

impl View for OutputBuffer {
    type V = Seq<u16>;

    /// The samples written since the last reset, in order.
    closed spec fn view(&self) -> Seq<u16> {
        self.samples@
    }
}

impl OutputBuffer {
    /// Well-formedness: never more than `AUDIO_BUFFER_SIZE` samples.
    pub open spec fn wf(&self) -> bool {
        self@.len() <= AUDIO_BUFFER_SIZE
    }

    /// Create a new empty output buffer
    pub fn new() -> (r: Self)
        ensures
            r.wf(),
            r@ == Seq::<u16>::empty(),
    {
        Self { samples: Vec::new() }
    }

    /// Add a sample to the buffer; false when it is full
    pub fn push(&mut self, sample: DacSample) -> (ok: bool)
        requires
            old(self).wf(),
        ensures
            final(self).wf(),
            ok <==> old(self)@.len() < AUDIO_BUFFER_SIZE,
            ok ==> final(self)@ == old(self)@.push(sample.spec_raw()),
            !ok ==> final(self)@ == old(self)@,
    {
        if self.samples.len() >= AUDIO_BUFFER_SIZE {
            return false;
        }
        self.samples.push(sample.raw());
        true
    }

    /// Reset the buffer for new data
    pub fn reset(&mut self)
        ensures
            final(self).wf(),
            final(self)@ == Seq::<u16>::empty(),
    {
        self.samples.clear();
    }

    /// Check if buffer is full
    pub fn is_full(&self) -> (r: bool)
        ensures
            r <==> self@.len() >= AUDIO_BUFFER_SIZE,
    {
        self.samples.len() >= AUDIO_BUFFER_SIZE
    }

    /// Get the buffer as a slice for DMA
    pub fn as_slice(&self) -> (r: &[u16])
        ensures
            r@ == self@,
    {
        self.samples.as_slice()
    }

    /// Fill buffer from i16 audio samples (at most one buffer's worth)
    pub fn fill_from_i16(&mut self, samples: &[i16])
        ensures
            final(self).wf(),
            final(self)@.len() == vstd::math::min(samples@.len() as int, AUDIO_BUFFER_SIZE as int),
            forall|i: int| 0 <= i < final(self)@.len() ==> final(self)@[i] == dac_code_of(#[trigger] samples@[i]),
    {
        self.reset();
        let n = if samples.len() < AUDIO_BUFFER_SIZE { samples.len() } else { AUDIO_BUFFER_SIZE };
        let mut i: usize = 0;
        while i < n
            invariant
                i <= n,
                n <= AUDIO_BUFFER_SIZE,
                n <= samples@.len(),
                self@.len() == i,
                forall|j: int| 0 <= j < i ==> self@[j] == dac_code_of(#[trigger] samples@[j]),
            decreases n - i,
        {
            self.push(DacSample::from_i16(samples[i]));
            i = i + 1;
        }
    }
}

impl Default for OutputBuffer {
    fn default() -> (r: Self)
        ensures
            r.wf(),
            r@ == Seq::<u16>::empty(),
    {
        Self::new()
    }
}

/// Double buffer for continuous DMA playback
pub struct DoubleBuffer {
    /// Buffer A
    front: OutputBuffer,
    /// Buffer B
    back: OutputBuffer,
    /// Whether buffer A is the one playing
    front_is_a: bool,
}

impl DoubleBuffer {
    /// The buffer being played.
    pub closed spec fn spec_front(&self) -> Seq<u16> {
        if self.front_is_a { self.front@ } else { self.back@ }
    }

    /// The buffer being filled.
    pub closed spec fn spec_back(&self) -> Seq<u16> {
        if self.front_is_a { self.back@ } else { self.front@ }
    }

    /// Both halves are well formed.
    pub closed spec fn wf(&self) -> bool {
        self.front.wf() && self.back.wf()
    }

    /// Create a new double buffer
    pub fn new() -> (r: Self)
        ensures
            r.wf(),
            r.spec_front() == Seq::<u16>::empty(),
            r.spec_back() == Seq::<u16>::empty(),
    {
        Self { front: OutputBuffer::new(), back: OutputBuffer::new(), front_is_a: true }
    }

    /// Get mutable reference to back buffer for filling
    pub fn back_mut(&mut self) -> (r: &mut OutputBuffer)
        requires
            old(self).wf(),
        ensures
            r@ == old(self).spec_back(),
            r.wf(),
            final(r).wf() ==> final(self).wf(),
            final(self).spec_back() == final(r)@,
            final(self).spec_front() == old(self).spec_front(),
    {
        if self.front_is_a {
            &mut self.back
        } else {
            &mut self.front
        }
    }

    /// Get reference to front buffer for DMA
    pub fn front(&self) -> (r: &OutputBuffer)
        ensures
            r@ == self.spec_front(),
    {
        if self.front_is_a {
            &self.front
        } else {
            &self.back
        }
    }

    /// Swap front and back buffers
    pub fn swap(&mut self)
        requires
            old(self).wf(),
        ensures
            final(self).wf(),
            final(self).spec_front() == old(self).spec_back(),
            final(self).spec_back() == old(self).spec_front(),
    {
        self.front_is_a = !self.front_is_a;
    }
}

impl Default for DoubleBuffer {
    fn default() -> (r: Self)
        ensures
            r.wf(),
            r.spec_front() == Seq::<u16>::empty(),
            r.spec_back() == Seq::<u16>::empty(),
    {
        Self::new()
    }
}

} // verus!
