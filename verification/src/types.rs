//! Domain types shared across the radio: frequencies, tuning steps, modes,
//! bands, power levels and SWR readings.

use vstd::prelude::*;

verus! {

/// Lowest tunable frequency in Hz (80 m band edge).
pub const FREQ_MIN_HZ: u32 = 3_500_000;

/// Highest tunable frequency in Hz (15 m band edge).
pub const FREQ_MAX_HZ: u32 = 21_450_000;

/// Whether `hz` lies in the tunable range.
pub open spec fn freq_in_range(hz: int) -> bool {
    FREQ_MIN_HZ <= hz <= FREQ_MAX_HZ
}

/// A frequency in Hz, always inside the tunable range.
#[derive(Clone, Copy, Debug, PartialEq, Eq, Structural, PartialOrd, Ord, Hash)]
pub struct Frequency(u32);

impl View for Frequency {
    type V = u32;

    closed spec fn view(&self) -> u32 {
        self.0
    }
}

/// Frequency reached by tuning `hz` up by `step` Hz: the sum, or the top of
/// the range when the sum leaves it.
pub open spec fn tuned_up_hz(hz: u32, step: u32) -> u32 {
    if hz + step <= FREQ_MAX_HZ {
        (hz + step) as u32
    } else {
        FREQ_MAX_HZ
    }
}

/// Frequency reached by tuning `hz` down by `step` Hz: the difference, or the
/// bottom of the range when the difference leaves it.
pub open spec fn tuned_down_hz(hz: u32, step: u32) -> u32 {
    if hz - step >= FREQ_MIN_HZ {
        (hz - step) as u32
    } else {
        FREQ_MIN_HZ
    }
}

impl Frequency {
    /// Minimum supported frequency (3.5 MHz for 80m band)
    pub const MIN_HZ: u32 = 3_500_000;

    /// Maximum supported frequency (21.45 MHz for 15m band)
    pub const MAX_HZ: u32 = 21_450_000;

    #[verifier::type_invariant]
    spec fn in_range(self) -> bool {
        freq_in_range(self.0 as int)
    }

    /// Create a new Frequency from Hz, returns None if out of range
    pub fn from_hz(hz: u32) -> (r: Option<Self>)
        ensures
            r is Some <==> freq_in_range(hz as int),
            r matches Some(f) ==> f@ == hz,
    {
        if hz >= Self::MIN_HZ && hz <= Self::MAX_HZ {
            Some(Self(hz))
        } else {
            None
        }
    }

    /// Create a new Frequency from kHz
    pub fn from_khz(khz: u32) -> (r: Option<Self>)
        requires
            khz * 1000 <= u32::MAX,
        ensures
            r is Some <==> freq_in_range(khz * 1000),
            r matches Some(f) ==> f@ == khz * 1000,
    {
        Self::from_hz(khz * 1000)
    }

    /// Create a frequency from a value known to be in range
    pub fn from_hz_const(hz: u32) -> (r: Self)
        requires
            freq_in_range(hz as int),
        ensures
            r@ == hz,
    {
        Self(hz)
    }

    /// Get the frequency in Hz
    pub fn as_hz(self) -> (r: u32)
        ensures
            r == self@,
            freq_in_range(r as int),
    {
        proof {
            use_type_invariant(&self);
        }
        self.0
    }

    /// Get the frequency in kHz (truncated)
    pub fn as_khz(self) -> (r: u32)
        ensures
            r == self@ / 1000,
    {
        self.0 / 1000
    }

    /// Create frequency for 4x LO (quadrature sampling)
    pub fn as_4x_lo(self) -> (r: u32)
        ensures
            r == 4 * self@,
    {
        proof {
            use_type_invariant(&self);
        }
        self.0 * 4
    }

    /// Tune up by a step amount
    pub fn tune_up(self, step: TuningStep) -> (r: Self)
        ensures
            r@ == tuned_up_hz(self@, step.as_hz()),
    {
        proof {
            use_type_invariant(&self);
        }
        let new_hz = self.0.saturating_add(step.as_hz());
        match Self::from_hz(new_hz) {
            Some(f) => f,
            None => Self(Self::MAX_HZ),
        }
    }

    /// Tune down by a step amount
    pub fn tune_down(self, step: TuningStep) -> (r: Self)
        ensures
            r@ == tuned_down_hz(self@, step.as_hz()),
    {
        proof {
            use_type_invariant(&self);
        }
        let new_hz = self.0.saturating_sub(step.as_hz());
        match Self::from_hz(new_hz) {
            Some(f) => f,
            None => Self(Self::MIN_HZ),
        }
    }
}

/// Tuning step size
#[derive(Clone, Copy, Debug, PartialEq, Eq, Structural)]
pub enum TuningStep {
    /// 1 Hz step
    Hz1,
    /// 10 Hz step
    Hz10,
    /// 100 Hz step
    Hz100,
    /// 1 kHz step
    KHz1,
    /// 10 kHz step
    KHz10,
    /// 100 kHz step
    KHz100,
    /// 1 MHz step
    MHz1,
}

impl TuningStep {
    /// Get the step size in Hz
    #[verifier::allow_in_spec]
    pub fn as_hz(self) -> u32
        returns
            (match self {
                TuningStep::Hz1 => 1u32,
                TuningStep::Hz10 => 10u32,
                TuningStep::Hz100 => 100u32,
                TuningStep::KHz1 => 1_000u32,
                TuningStep::KHz10 => 10_000u32,
                TuningStep::KHz100 => 100_000u32,
                TuningStep::MHz1 => 1_000_000u32,
            }),
    {
        match self {
            Self::Hz1 => 1,
            Self::Hz10 => 10,
            Self::Hz100 => 100,
            Self::KHz1 => 1_000,
            Self::KHz10 => 10_000,
            Self::KHz100 => 100_000,
            Self::MHz1 => 1_000_000,
        }
    }

    /// Cycle to next larger step
    #[verifier::allow_in_spec]
    pub fn next_larger(self) -> TuningStep
        returns
            (match self {
                TuningStep::Hz1 => TuningStep::Hz10,
                TuningStep::Hz10 => TuningStep::Hz100,
                TuningStep::Hz100 => TuningStep::KHz1,
                TuningStep::KHz1 => TuningStep::KHz10,
                TuningStep::KHz10 => TuningStep::KHz100,
                TuningStep::KHz100 => TuningStep::MHz1,
                TuningStep::MHz1 => TuningStep::Hz1,
            }),
    {
        match self {
            Self::Hz1 => Self::Hz10,
            Self::Hz10 => Self::Hz100,
            Self::Hz100 => Self::KHz1,
            Self::KHz1 => Self::KHz10,
            Self::KHz10 => Self::KHz100,
            Self::KHz100 => Self::MHz1,
            Self::MHz1 => Self::Hz1,
        }
    }

    /// Cycle to next smaller step
    #[verifier::allow_in_spec]
    pub fn next_smaller(self) -> TuningStep
        returns
            (match self {
                TuningStep::Hz1 => TuningStep::MHz1,
                TuningStep::Hz10 => TuningStep::Hz1,
                TuningStep::Hz100 => TuningStep::Hz10,
                TuningStep::KHz1 => TuningStep::Hz100,
                TuningStep::KHz10 => TuningStep::KHz1,
                TuningStep::KHz100 => TuningStep::KHz10,
                TuningStep::MHz1 => TuningStep::KHz100,
            }),
    {
        match self {
            Self::Hz1 => Self::MHz1,
            Self::Hz10 => Self::Hz1,
            Self::Hz100 => Self::Hz10,
            Self::KHz1 => Self::Hz100,
            Self::KHz10 => Self::KHz1,
            Self::KHz100 => Self::KHz10,
            Self::MHz1 => Self::KHz100,
        }
    }
}

/// Cycling to the next larger step and then to the next smaller one returns
/// the step that was started from, and so does the reverse order.
pub proof fn lemma_step_cycle_inverse(step: TuningStep)
    ensures
        step.next_larger().next_smaller() == step,
        step.next_smaller().next_larger() == step,
{
}

/// Seven cycles to the next larger step return to the starting step.
pub proof fn lemma_step_cycle_period(step: TuningStep)
    ensures
        step.next_larger().next_larger().next_larger().next_larger().next_larger().next_larger().next_larger()
            == step,
{
}

/// Operating mode for the radio
#[derive(Clone, Copy, Debug, PartialEq, Eq, Structural, Default)]
pub enum Mode {
    /// Lower Sideband (voice below 10 MHz)
    #[default]
    Lsb,
    /// Upper Sideband (voice above 10 MHz)
    Usb,
    /// Continuous Wave (Morse code)
    Cw,
    /// CW with reverse sideband
    CwR,
    /// Amplitude Modulation
    Am,
    /// Frequency Modulation (narrow)
    Fm,
}

impl Mode {
    /// Get the audio filter bandwidth for this mode
    pub fn bandwidth_hz(self) -> (r: u32)
        ensures
            r == (match self {
                Mode::Lsb | Mode::Usb => 2700u32,
                Mode::Cw | Mode::CwR => 500u32,
                Mode::Am => 6000u32,
                Mode::Fm => 12000u32,
            }),
    {
        match self {
            Self::Lsb | Self::Usb => 2700,
            Self::Cw | Self::CwR => 500,
            Self::Am => 6000,
            Self::Fm => 12000,
        }
    }

    /// Get the BFO offset for this mode
    pub fn bfo_offset_hz(self) -> (r: i32)
        ensures
            r == (match self {
                Mode::Lsb => 1500i32,
                Mode::Usb => -1500i32,
                Mode::Cw => -700i32,
                Mode::CwR => 700i32,
                Mode::Am | Mode::Fm => 0i32,
            }),
    {
        match self {
            Self::Lsb => 1500,
            Self::Usb => -1500,
            Self::Cw => -700,
            Self::CwR => 700,
            Self::Am | Self::Fm => 0,
        }
    }

    /// Check if this mode uses sideband inversion
    pub fn inverted_sideband(self) -> (r: bool)
        ensures
            r <==> (self == Mode::Lsb || self == Mode::CwR),
    {
        matches!(self, Self::Lsb | Self::CwR)
    }
}

/// Amateur radio band definition
#[derive(Clone, Copy, Debug, PartialEq, Eq, Structural)]
pub enum Band {
    /// 80 meters (3.5 - 4.0 MHz)
    M80,
    /// 40 meters (7.0 - 7.3 MHz)
    M40,
    /// 30 meters (10.1 - 10.15 MHz)
    M30,
    /// 20 meters (14.0 - 14.35 MHz)
    M20,
    /// 17 meters (18.068 - 18.168 MHz)
    M17,
    /// 15 meters (21.0 - 21.45 MHz)
    M15,
}

/// The band whose edges enclose `hz`, if any.
pub open spec fn band_of_hz(hz: u32) -> Option<Band> {
    if 3_500_000 <= hz <= 4_000_000 {
        Some(Band::M80)
    } else if 7_000_000 <= hz <= 7_300_000 {
        Some(Band::M40)
    } else if 10_100_000 <= hz <= 10_150_000 {
        Some(Band::M30)
    } else if 14_000_000 <= hz <= 14_350_000 {
        Some(Band::M20)
    } else if 18_068_000 <= hz <= 18_168_000 {
        Some(Band::M17)
    } else if 21_000_000 <= hz <= 21_450_000 {
        Some(Band::M15)
    } else {
        None
    }
}

/// The default mode of an optional band: the band's own default, or USB
/// outside every band.
pub open spec fn auto_mode(band: Option<Band>) -> Mode {
    match band {
        Some(b) => b.default_mode(),
        None => Mode::Usb,
    }
}

impl Band {
    /// Get the band for a given frequency
    pub fn from_frequency(freq: Frequency) -> (r: Option<Band>)
        ensures
            r == band_of_hz(freq@),
    {
        let hz = freq.as_hz();
        if hz >= 3_500_000 && hz <= 4_000_000 {
            Some(Self::M80)
        } else if hz >= 7_000_000 && hz <= 7_300_000 {
            Some(Self::M40)
        } else if hz >= 10_100_000 && hz <= 10_150_000 {
            Some(Self::M30)
        } else if hz >= 14_000_000 && hz <= 14_350_000 {
            Some(Self::M20)
        } else if hz >= 18_068_000 && hz <= 18_168_000 {
            Some(Self::M17)
        } else if hz >= 21_000_000 && hz <= 21_450_000 {
            Some(Self::M15)
        } else {
            None
        }
    }

    /// Get the band start frequency
    #[verifier::allow_in_spec]
    pub fn start_hz(self) -> u32
        returns
            (match self {
                Band::M80 => 3_500_000u32,
                Band::M40 => 7_000_000u32,
                Band::M30 => 10_100_000u32,
                Band::M20 => 14_000_000u32,
                Band::M17 => 18_068_000u32,
                Band::M15 => 21_000_000u32,
            }),
    {
        match self {
            Self::M80 => 3_500_000,
            Self::M40 => 7_000_000,
            Self::M30 => 10_100_000,
            Self::M20 => 14_000_000,
            Self::M17 => 18_068_000,
            Self::M15 => 21_000_000,
        }
    }

    /// Get the band end frequency
    #[verifier::allow_in_spec]
    pub fn end_hz(self) -> u32
        returns
            (match self {
                Band::M80 => 4_000_000u32,
                Band::M40 => 7_300_000u32,
                Band::M30 => 10_150_000u32,
                Band::M20 => 14_350_000u32,
                Band::M17 => 18_168_000u32,
                Band::M15 => 21_450_000u32,
            }),
    {
        match self {
            Self::M80 => 4_000_000,
            Self::M40 => 7_300_000,
            Self::M30 => 10_150_000,
            Self::M20 => 14_350_000,
            Self::M17 => 18_168_000,
            Self::M15 => 21_450_000,
        }
    }

    /// Get the LPF relay index for this band (0-4)
    pub fn lpf_index(self) -> (r: u8)
        ensures
            r == (match self {
                Band::M80 => 0u8,
                Band::M40 => 1u8,
                Band::M30 | Band::M20 => 2u8,
                Band::M17 => 3u8,
                Band::M15 => 4u8,
            }),
            r <= 4,
    {
        match self {
            Self::M80 => 0,
            Self::M40 => 1,
            Self::M30 | Self::M20 => 2,
            Self::M17 => 3,
            Self::M15 => 4,
        }
    }

    /// Get the default mode for this band
    #[verifier::allow_in_spec]
    pub fn default_mode(self) -> Mode
        returns
            (match self {
                Band::M80 | Band::M40 => Mode::Lsb,
                _ => Mode::Usb,
            }),
    {
        match self {
            Self::M80 | Self::M40 => Mode::Lsb,
            Self::M30 | Self::M20 | Self::M17 | Self::M15 => Mode::Usb,
        }
    }
}

/// Every band lies inside the tunable range, and a frequency belongs to a
/// band exactly when it lies between that band's edges.
pub proof fn lemma_band_edges(hz: u32, b: Band)
    ensures
        freq_in_range(b.start_hz() as int),
        freq_in_range(b.end_hz() as int),
        b.start_hz() < b.end_hz(),
        band_of_hz(hz) == Some(b) <==> (b.start_hz() <= hz <= b.end_hz()),
{
}

/// Tuning steps are the decades from 1 Hz to 1 MHz: the smallest is 1 Hz
/// and each next larger step is ten times the one before, until the cycle
/// returns from 1 MHz to 1 Hz.
pub proof fn lemma_step_decades(step: TuningStep)
    ensures
        TuningStep::Hz1.as_hz() == 1,
        step != TuningStep::MHz1 ==> step.next_larger().as_hz() == 10 * step.as_hz(),
        step == TuningStep::MHz1 ==> step.next_larger() == TuningStep::Hz1,
{
}

/// Bands below 10 MHz default to lower sideband and bands above to upper
/// sideband, the amateur convention; bands follow one another without
/// overlapping.
pub proof fn lemma_band_conventions(b: Band, b2: Band)
    ensures
        b.default_mode() == if b.start_hz() < 10_000_000 { Mode::Lsb } else { Mode::Usb },
        b.start_hz() < b2.start_hz() ==> b.end_hz() < b2.start_hz(),
{
}

/// Power level setting: a percentage between 0 and 100.
#[derive(Clone, Copy, Debug, PartialEq, Eq, Structural)]
pub struct PowerLevel(u8);

impl View for PowerLevel {
    type V = u8;

    closed spec fn view(&self) -> u8 {
        self.0
    }
}

impl PowerLevel {
    /// Minimum power (1 mW)
    pub fn minimum() -> (r: Self)
        ensures
            r@ == 0,
    {
        Self(0)
    }

    /// Maximum power (5W)
    pub fn maximum() -> (r: Self)
        ensures
            r@ == 100,
    {
        Self(100)
    }

    #[verifier::type_invariant]
    spec fn at_most_full(self) -> bool {
        self.0 <= 100
    }

    /// Create a power level from percentage (0-100)
    pub fn from_percent(percent: u8) -> (r: Self)
        ensures
            r@ == if percent > 100 { 100u8 } else { percent },
    {
        if percent > 100 {
            Self(100)
        } else {
            Self(percent)
        }
    }

    /// Get the power level as a percentage
    pub fn as_percent(self) -> (r: u8)
        ensures
            r == self@,
            r <= 100,
    {
        proof {
            use_type_invariant(&self);
        }
        self.0
    }

    /// Calculate PWM duty cycle for PA drive
    pub fn as_pwm_duty(self) -> (r: u16)
        ensures
            r == self@ * 655,
    {
        proof {
            use_type_invariant(&self);
        }
        (self.0 as u16) * 655
    }
}

impl Default for PowerLevel {
    fn default() -> (r: Self)
        ensures
            r@ == 50,
    {
        Self(50)
    }
}

/// SWR measurement result
#[derive(Clone, Copy, Debug, PartialEq, Eq, Structural)]
pub struct SwrReading {
    /// Forward power in arbitrary ADC units
    pub forward: u16,
    /// Reflected power in arbitrary ADC units
    pub reflected: u16,
}

/// Whether a reading's standing-wave ratio is above 3:1. The ratio is
/// (1 + rho) / (1 - rho) with rho = sqrt(reflected / forward), capped at
/// 0.99; with no forward power it counts as unbounded.
pub open spec fn swr_above_limit(r: SwrReading) -> bool {
    r.forward == 0 || 4 * r.reflected > r.forward
}

/// Whether a reading's standing-wave ratio is above 5:1.
pub open spec fn swr_critical(r: SwrReading) -> bool {
    r.forward == 0 || 9 * r.reflected > 4 * r.forward
}

/// Whether a reading's standing-wave ratio is below 3:1.
pub open spec fn swr_acceptable(r: SwrReading) -> bool {
    r.forward != 0 && 4 * r.reflected < r.forward
}

/// Whether ten times (ratio - 3) is at least `k`: rho >= (k + 20) / (k + 40).
pub open spec fn swr_excess_at_least(r: SwrReading, k: int) -> bool {
    r.reflected * (k + 40) * (k + 40) >= r.forward * (k + 20) * (k + 20)
}

/// Ten times the excess of the ratio over 3:1, rounded down and capped at
/// 255: the percentage by which transmit power is cut.
pub open spec fn is_swr_reduction(r: SwrReading, k: int) -> bool {
    &&& 0 <= k <= 255
    &&& swr_excess_at_least(r, k)
    &&& (k == 255 || !swr_excess_at_least(r, k + 1))
}

impl SwrReading {
    /// Check if SWR is acceptable for transmit
    pub fn is_acceptable(&self) -> (r: bool)
        ensures
            r == swr_acceptable(*self),
    {
        self.forward != 0 && 4 * (self.reflected as u32) < self.forward as u32
    }

    /// Check if SWR exceeds 3:1
    pub(crate) fn is_above_limit(&self) -> (r: bool)
        ensures
            r == swr_above_limit(*self),
    {
        self.forward == 0 || 4 * (self.reflected as u32) > self.forward as u32
    }

    /// Check if SWR exceeds 5:1
    pub(crate) fn is_critical(&self) -> (r: bool)
        ensures
            r == swr_critical(*self),
    {
        self.forward == 0 || 9 * (self.reflected as u32) > 4 * (self.forward as u32)
    }

    /// Power cut for a ratio above 3:1: ten times the excess, rounded down,
    /// capped at 255
    pub(crate) fn power_reduction(&self) -> (k: u8)
        requires
            swr_above_limit(*self),
        ensures
            is_swr_reduction(*self, k as int),
    {
        let f = self.forward as u64;
        let rf = self.reflected as u64;
        assert(rf * 40 * 40 >= f * 20 * 20) by (nonlinear_arith)
            requires
                f == 0 || 4 * rf > f,
        ;
        let mut k: u64 = 0;
        while k < 255
            invariant
                k <= 255,
                f == self.forward,
                rf == self.reflected,
                swr_excess_at_least(*self, k as int),
            decreases 255 - k,
        {
            let hi = k + 41;
            let lo = k + 21;
            assert(rf * hi <= 65535 * 296 && rf * hi * hi <= 65535 * 296 * 296) by (nonlinear_arith)
                requires
                    rf <= 65535,
                    hi <= 296,
            ;
            assert(f * lo <= 65535 * 276 && f * lo * lo <= 65535 * 276 * 276) by (nonlinear_arith)
                requires
                    f <= 65535,
                    lo <= 276,
            ;
            if rf * hi * hi < f * lo * lo {
                return k as u8;
            }
            k = k + 1;
        }
        k as u8
    }
}

/// Transmit/Receive state
#[derive(Clone, Copy, Debug, PartialEq, Eq, Structural, Default)]
pub enum TxRxState {
    /// Receiving
    #[default]
    Rx,
    /// Transmitting
    Tx,
    /// Transitioning (relay switching)
    Switching,
}

} // verus!
