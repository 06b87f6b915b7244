//! Filter bandwidth presets for the CW, SSB and AM audio filters.

use vstd::prelude::*;

verus! {

/// CW filter bandwidth options
#[derive(Clone, Copy, Debug, PartialEq, Eq, Structural, Default)]
pub enum CwBandwidth {
    /// 50 Hz (contest)
    Hz50,
    /// 100 Hz (narrow)
    Hz100,
    /// 200 Hz (medium)
    Hz200,
    /// 400 Hz (wide)
    #[default]
    Hz400,
    /// 800 Hz (very wide)
    Hz800,
}

impl CwBandwidth {
    /// Get bandwidth in Hz
    pub fn hz(&self) -> (r: u16)
        ensures
            r == (match *self {
                CwBandwidth::Hz50 => 50u16,
                CwBandwidth::Hz100 => 100u16,
                CwBandwidth::Hz200 => 200u16,
                CwBandwidth::Hz400 => 400u16,
                CwBandwidth::Hz800 => 800u16,
            }),
    {
        match self {
            Self::Hz50 => 50,
            Self::Hz100 => 100,
            Self::Hz200 => 200,
            Self::Hz400 => 400,
            Self::Hz800 => 800,
        }
    }
}

/// SSB filter bandwidth options
#[derive(Clone, Copy, Debug, PartialEq, Eq, Structural, Default)]
pub enum SsbBandwidth {
    /// 1.8 kHz (narrow)
    Narrow,
    /// 2.4 kHz (standard)
    #[default]
    Standard,
    /// 2.7 kHz (wide)
    Wide,
    /// 3.0 kHz (extra wide)
    ExtraWide,
}

impl SsbBandwidth {
    /// Get low cutoff frequency in Hz
    #[verifier::allow_in_spec]
    pub fn low_cutoff(&self) -> u16
        returns
            (match *self {
                SsbBandwidth::Narrow => 400u16,
                SsbBandwidth::Standard => 300u16,
                SsbBandwidth::Wide => 200u16,
                SsbBandwidth::ExtraWide => 100u16,
            }),
    {
        match self {
            Self::Narrow => 400,
            Self::Standard => 300,
            Self::Wide => 200,
            Self::ExtraWide => 100,
        }
    }

    /// Get high cutoff frequency in Hz
    #[verifier::allow_in_spec]
    pub fn high_cutoff(&self) -> u16
        returns
            (match *self {
                SsbBandwidth::Narrow => 2200u16,
                SsbBandwidth::Standard => 2700u16,
                SsbBandwidth::Wide => 2900u16,
                SsbBandwidth::ExtraWide => 3100u16,
            }),
    {
        match self {
            Self::Narrow => 2200,
            Self::Standard => 2700,
            Self::Wide => 2900,
            Self::ExtraWide => 3100,
        }
    }

    /// Get bandwidth in Hz
    pub fn bandwidth(&self) -> (r: u16)
        ensures
            r == self.high_cutoff() - self.low_cutoff(),
    {
        self.high_cutoff() - self.low_cutoff()
    }
}

/// AM filter bandwidth options
#[derive(Clone, Copy, Debug, PartialEq, Eq, Structural, Default)]
pub enum AmBandwidth {
    /// 3 kHz (narrow)
    Narrow,
    /// 6 kHz (standard)
    #[default]
    Standard,
    /// 9 kHz (wide - broadcast)
    Wide,
}

impl AmBandwidth {
    /// Get bandwidth in Hz
    pub fn hz(&self) -> (r: u16)
        ensures
            r == (match *self {
                AmBandwidth::Narrow => 3000u16,
                AmBandwidth::Standard => 6000u16,
                AmBandwidth::Wide => 9000u16,
            }),
    {
        match self {
            Self::Narrow => 3000,
            Self::Standard => 6000,
            Self::Wide => 9000,
        }
    }
}

} // verus!
