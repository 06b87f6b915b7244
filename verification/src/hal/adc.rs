//! ADC samples and buffers
//!
//! Raw 12-bit conversions, the audio and IQ sample buffers filled by DMA,
//! and the forward/reflected power pair.

use vstd::prelude::*;
use crate::config::{AUDIO_BUFFER_SIZE, IQ_BUFFER_SIZE};

verus! {

/// ADC reading result
#[derive(Clone, Copy, Debug, PartialEq, Eq, Structural)]
pub struct AdcReading {
    /// Raw 12-bit ADC value (0-4095)
    raw: u16,
}

impl AdcReading {
    /// The raw conversion value.
    pub closed spec fn spec_raw(self) -> u16 {
        self.raw
    }

    /// Create a new ADC reading from raw value
    pub fn from_raw(raw: u16) -> (r: Self)
        ensures
            r.spec_raw() == raw,
    {
        Self { raw }
    }

    /// Get the raw 12-bit value
    pub fn raw(self) -> (r: u16)
        ensures
            r == self.spec_raw(),
    {
        self.raw
    }

    /// Convert to signed 16-bit audio sample: mid-scale is zero and each
    /// step is 16 units
    pub fn as_i16(self) -> (r: i16)
        requires
            self.spec_raw() <= 4095,
        ensures
            r == (self.spec_raw() - 2048) * 16,
    {
        let centered: i32 = self.raw as i32 - 2048;
        let clamped: i32 = if centered < -32768 {
            -32768
        } else if centered > 32767 {
            32767
        } else {
            centered
        };
        (clamped as i16) * 16
    }
}

/// Power measurement ADC readings
#[derive(Clone, Copy, Debug, PartialEq, Eq, Structural)]
pub struct PowerReading {
    /// Forward power ADC value
    pub forward: AdcReading,
    /// Reflected power ADC value
    pub reflected: AdcReading,
}

/// Audio sample buffer for DMA transfers
pub struct AudioBuffer {
    /// Sample buffer, always `AUDIO_BUFFER_SIZE` long
    samples: Vec<i16>,
    /// Number of valid samples
    len: usize,
}

impl AudioBuffer {
    /// Every sample slot, valid or not.
    pub closed spec fn spec_samples(&self) -> Seq<i16> {
        self.samples@
    }

    /// Number of valid samples.
    pub closed spec fn spec_len(&self) -> int {
        self.len as int
    }

    /// Well-formedness: a full-size slot array and a count inside it.
    pub open spec fn wf(&self) -> bool {
        self.spec_samples().len() == AUDIO_BUFFER_SIZE && 0 <= self.spec_len() <= AUDIO_BUFFER_SIZE
    }

    /// Create a new empty audio buffer
    pub fn new() -> (r: Self)
        ensures
            r.wf(),
            r.spec_len() == 0,
            forall|i: int| 0 <= i < AUDIO_BUFFER_SIZE ==> r.spec_samples()[i] == 0,
    {
        let mut samples: Vec<i16> = Vec::new();
        let mut i: usize = 0;
        while i < AUDIO_BUFFER_SIZE
            invariant
                i <= AUDIO_BUFFER_SIZE,
                samples@.len() == i,
                forall|j: int| 0 <= j < i ==> samples@[j] == 0,
            decreases AUDIO_BUFFER_SIZE - i,
        {
            samples.push(0);
            i = i + 1;
        }
        Self { samples, len: 0 }
    }

    /// Get the valid samples as a slice
    pub fn as_slice(&self) -> (r: &[i16])
        requires
            self.wf(),
        ensures
            r@ == self.spec_samples().take(self.spec_len()),
    {
        vstd::slice::slice_subrange(self.samples.as_slice(), 0, self.len)
    }

    /// Get mutable access to every sample slot
    pub fn as_mut_slice(&mut self) -> (r: &mut [i16])
        ensures
            r@ == old(self).spec_samples(),
            final(self).spec_samples() == final(r)@,
            final(self).spec_len() == old(self).spec_len(),
    {
        self.samples.as_mut_slice()
    }

    /// Set the number of valid samples (at most the buffer size)
    pub fn set_len(&mut self, len: usize)
        ensures
            final(self).spec_len() == vstd::math::min(len as int, AUDIO_BUFFER_SIZE as int),
            final(self).spec_samples() == old(self).spec_samples(),
    {
        self.len = if len < AUDIO_BUFFER_SIZE { len } else { AUDIO_BUFFER_SIZE };
    }

    /// Check if buffer is full
    pub fn is_full(&self) -> (r: bool)
        ensures
            r <==> self.spec_len() >= AUDIO_BUFFER_SIZE,
    {
        self.len >= AUDIO_BUFFER_SIZE
    }
}

impl Default for AudioBuffer {
    fn default() -> (r: Self)
        ensures
            r.wf(),
            r.spec_len() == 0,
    {
        Self::new()
    }
}

/// IQ sample buffer for DMA transfers
pub struct IqBuffer {
    /// Interleaved I and Q samples, always `IQ_BUFFER_SIZE` long
    samples: Vec<i16>,
    /// Number of valid samples
    len: usize,
}

impl IqBuffer {
    /// Every sample slot, I and Q interleaved.
    pub closed spec fn spec_samples(&self) -> Seq<i16> {
        self.samples@
    }

    /// Number of valid samples (not pairs).
    pub closed spec fn spec_len(&self) -> int {
        self.len as int
    }

    /// Well-formedness: a full-size slot array and a count inside it.
    pub open spec fn wf(&self) -> bool {
        self.spec_samples().len() == IQ_BUFFER_SIZE && 0 <= self.spec_len() <= IQ_BUFFER_SIZE
    }

    /// Create a new empty IQ buffer
    pub fn new() -> (r: Self)
        ensures
            r.wf(),
            r.spec_len() == 0,
            forall|i: int| 0 <= i < IQ_BUFFER_SIZE ==> r.spec_samples()[i] == 0,
    {
        let mut samples: Vec<i16> = Vec::new();
        let mut i: usize = 0;
        while i < IQ_BUFFER_SIZE
            invariant
                i <= IQ_BUFFER_SIZE,
                samples@.len() == i,
                forall|j: int| 0 <= j < i ==> samples@[j] == 0,
            decreases IQ_BUFFER_SIZE - i,
        {
            samples.push(0);
            i = i + 1;
        }
        Self { samples, len: 0 }
    }

    /// Get the number of IQ pairs
    pub fn num_pairs(&self) -> (r: usize)
        ensures
            r == self.spec_len() / 2,
    {
        self.len / 2
    }

    /// Get I sample at index
    pub fn i_sample(&self, idx: usize) -> (r: i16)
        requires
            self.wf(),
            idx < IQ_BUFFER_SIZE / 2,
        ensures
            r == self.spec_samples()[2 * idx],
    {
        self.samples[idx * 2]
    }

    /// Get Q sample at index
    pub fn q_sample(&self, idx: usize) -> (r: i16)
        requires
            self.wf(),
            idx < IQ_BUFFER_SIZE / 2,
        ensures
            r == self.spec_samples()[2 * idx + 1],
    {
        self.samples[idx * 2 + 1]
    }

    /// Get mutable access to every sample slot
    pub fn as_mut_slice(&mut self) -> (r: &mut [i16])
        ensures
            r@ == old(self).spec_samples(),
            final(self).spec_samples() == final(r)@,
            final(self).spec_len() == old(self).spec_len(),
    {
        self.samples.as_mut_slice()
    }

    /// Set the number of valid samples (at most the buffer size)
    pub fn set_len(&mut self, len: usize)
        ensures
            final(self).spec_len() == vstd::math::min(len as int, IQ_BUFFER_SIZE as int),
            final(self).spec_samples() == old(self).spec_samples(),
    {
        self.len = if len < IQ_BUFFER_SIZE { len } else { IQ_BUFFER_SIZE };
    }
}

impl Default for IqBuffer {
    fn default() -> (r: Self)
        ensures
            r.wf(),
            r.spec_len() == 0,
    {
        Self::new()
    }
}

} // verus!
