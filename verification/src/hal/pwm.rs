//! PWM arithmetic
//!
//! Duty cycles for the PA drive, the drive limiter, the H-bridge phase
//! sequence and the dead time between complementary outputs.

use vstd::prelude::*;

verus! {

/// Full-scale duty value (100%).
pub const DUTY_FULL: u16 = 65535;

/// PWM duty cycle (0-65535)
#[derive(Clone, Copy, Debug, PartialEq, Eq, Structural)]
pub struct DutyCycle(u16);

/// The duty value for `percent` (capped at 100).
pub open spec fn duty_from_percent(percent: u8) -> u16 {
    let p: int = if percent > 100 { 100 } else { percent as int };
    (p * 65535 / 100) as u16
}

impl DutyCycle {
    /// The 16-bit duty value.
    pub closed spec fn spec_raw(self) -> u16 {
        self.0
    }

    /// 0% duty cycle
    pub fn zero() -> (r: Self)
        ensures
            r.spec_raw() == 0,
    {
        Self(0)
    }

    /// 100% duty cycle
    pub fn full() -> (r: Self)
        ensures
            r.spec_raw() == DUTY_FULL,
    {
        Self(DUTY_FULL)
    }

    /// 50% duty cycle
    pub fn half() -> (r: Self)
        ensures
            r.spec_raw() == 32768,
    {
        Self(32768)
    }

    /// Create from 16-bit value
    pub fn from_raw(value: u16) -> (r: Self)
        ensures
            r.spec_raw() == value,
    {
        Self(value)
    }

    /// Create from percentage (0-100; larger values mean 100)
    pub fn from_percent(percent: u8) -> (r: Self)
        ensures
            r.spec_raw() == duty_from_percent(percent),
    {
        let p: u32 = if percent > 100 { 100 } else { percent as u32 };
        let value = (p * 65535) / 100;
        Self(value as u16)
    }

    /// Get raw 16-bit value
    pub fn raw(self) -> (r: u16)
        ensures
            r == self.spec_raw(),
    {
        self.0
    }

    /// Get as percentage (rounded down)
    pub fn as_percent(self) -> (r: u8)
        ensures
            r == self.spec_raw() * 100 / 65535,
            r <= 100,
    {
        ((self.0 as u32 * 100) / 65535) as u8
    }

    /// Scale by another duty cycle: the product of the two fractions
    pub fn scale(self, other: Self) -> (r: Self)
        ensures
            r.spec_raw() == self.spec_raw() * other.spec_raw() / 65535,
    {
        let a = self.0 as u32;
        let b = other.0 as u32;
        assert(a * b <= 65535 * 65535) by (nonlinear_arith)
            requires
                a <= 65535,
                b <= 65535,
        ;
        assert(a * b / 65535 <= 65535) by (nonlinear_arith)
            requires
                a * b <= 65535 * 65535,
        ;
        let product = (a * b) / 65535;
        Self(product as u16)
    }
}

impl Default for DutyCycle {
    fn default() -> (r: Self)
        ensures
            r.spec_raw() == 0,
    {
        Self::zero()
    }
}

/// A percentage turned into a duty value reads back as the same percentage
/// or one less (the duty value is rounded down, and so is the reading).
pub proof fn lemma_duty_percent_round_trip(percent: u8)
    requires
        percent <= 100,
    ensures
        percent - 1 <= duty_from_percent(percent) * 100 / 65535 <= percent,
{
    let p = percent as int;
    let q = p * 65535 / 100;
    assert(p * 65535 - 100 < q * 100 <= p * 65535) by (nonlinear_arith)
        requires
            q == p * 65535 / 100,
            0 <= p <= 100,
    ;
    assert(p - 1 <= q * 100 / 65535 <= p) by (nonlinear_arith)
        requires
            p * 65535 - 100 < q * 100 <= p * 65535,
            0 <= p <= 100,
    ;
}

/// Default PA drive limit: 80% of full scale.
pub const PA_MAX_DUTY: u16 = 52428;

/// PA drive controller
///
/// Controls the Class-E PA drive level using PWM.
#[derive(Clone, Copy, Debug)]
pub struct PaDrive {
    /// Current duty cycle
    duty: DutyCycle,
    /// Maximum allowed duty (for protection)
    max_duty: DutyCycle,
}

impl PaDrive {
    /// The drive level being applied.
    pub closed spec fn spec_duty(self) -> u16 {
        self.duty.spec_raw()
    }

    /// The highest drive level allowed.
    pub closed spec fn spec_max_duty(self) -> u16 {
        self.max_duty.spec_raw()
    }

    /// Create PA drive controller with the 80% safety limit
    pub fn new() -> (r: Self)
        ensures
            r.spec_duty() == 0,
            r.spec_max_duty() == PA_MAX_DUTY,
    {
        Self { duty: DutyCycle::zero(), max_duty: DutyCycle::from_raw(PA_MAX_DUTY) }
    }

    /// Set drive level (respects max limit); returns the level applied
    pub fn set(&mut self, duty: DutyCycle) -> (r: DutyCycle)
        ensures
            final(self).spec_duty() == (if duty.spec_raw() > old(self).spec_max_duty() {
                old(self).spec_max_duty()
            } else {
                duty.spec_raw()
            }),
            final(self).spec_max_duty() == old(self).spec_max_duty(),
            r.spec_raw() == final(self).spec_duty(),
    {
        self.duty = if duty.0 > self.max_duty.0 { self.max_duty } else { duty };
        self.duty
    }

    /// Set drive level from percentage
    pub fn set_percent(&mut self, percent: u8) -> (r: DutyCycle)
        ensures
            final(self).spec_duty() == (if duty_from_percent(percent) > old(self).spec_max_duty() {
                old(self).spec_max_duty()
            } else {
                duty_from_percent(percent)
            }),
            final(self).spec_max_duty() == old(self).spec_max_duty(),
            r.spec_raw() == final(self).spec_duty(),
    {
        self.set(DutyCycle::from_percent(percent))
    }

    /// Get current duty cycle
    pub fn duty(&self) -> (r: DutyCycle)
        ensures
            r.spec_raw() == self.spec_duty(),
    {
        self.duty
    }

    /// Emergency stop - zero drive immediately
    pub fn stop(&mut self)
        ensures
            final(self).spec_duty() == 0,
            final(self).spec_max_duty() == old(self).spec_max_duty(),
    {
        self.duty = DutyCycle::zero();
    }
}

impl Default for PaDrive {
    fn default() -> (r: Self)
        ensures
            r.spec_duty() == 0,
            r.spec_max_duty() == PA_MAX_DUTY,
    {
        Self::new()
    }
}

/// Whatever level is asked for, the drive never exceeds its limit once set.
pub proof fn lemma_pa_drive_limited(requested: u16, max_duty: u16)
    ensures
        (if requested > max_duty { max_duty } else { requested }) <= max_duty,
{
}

/// H-bridge phase configuration for Class-E operation
#[derive(Clone, Copy, Debug, PartialEq, Eq, Structural, Default)]
pub enum HBridgePhase {
    /// Both sides off
    #[default]
    Off,
    /// A high, B low (positive half)
    AHighBLow,
    /// A low, B high (negative half)
    ALowBHigh,
    /// Both sides off (zero crossing)
    ZeroCrossing,
}

impl HBridgePhase {
    /// Get the next phase in sequence (for RF generation)
    #[verifier::allow_in_spec]
    pub fn next(self) -> HBridgePhase
        returns
            (match self {
                HBridgePhase::Off => HBridgePhase::AHighBLow,
                HBridgePhase::AHighBLow => HBridgePhase::ZeroCrossing,
                HBridgePhase::ZeroCrossing => HBridgePhase::ALowBHigh,
                HBridgePhase::ALowBHigh => HBridgePhase::Off,
            }),
    {
        match self {
            Self::Off => Self::AHighBLow,
            Self::AHighBLow => Self::ZeroCrossing,
            Self::ZeroCrossing => Self::ALowBHigh,
            Self::ALowBHigh => Self::Off,
        }
    }
}

/// The H-bridge never drives from one half straight into the other: the
/// phase after each driving phase has both sides off, and the sequence
/// repeats every four steps.
pub proof fn lemma_hbridge_break_before_make(p: HBridgePhase)
    ensures
        p == HBridgePhase::AHighBLow ==> p.next() == HBridgePhase::ZeroCrossing,
        p == HBridgePhase::ALowBHigh ==> p.next() == HBridgePhase::Off,
        p.next().next().next().next() == p,
{
}

/// Dead time configuration for H-bridge
#[derive(Clone, Copy, Debug, PartialEq, Eq, Structural)]
pub struct DeadTime {
    /// Dead time in nanoseconds
    ns: u32,
}

impl DeadTime {
    /// The dead time in nanoseconds.
    pub closed spec fn spec_ns(self) -> u32 {
        self.ns
    }

    /// No dead time (dangerous!)
    pub fn zero() -> (r: Self)
        ensures
            r.spec_ns() == 0,
    {
        Self { ns: 0 }
    }

    /// Minimum safe dead time (50ns)
    pub fn minimum() -> (r: Self)
        ensures
            r.spec_ns() == 50,
    {
        Self { ns: 50 }
    }

    /// Default safe dead time (100ns)
    pub fn default_time() -> (r: Self)
        ensures
            r.spec_ns() == 100,
    {
        Self { ns: 100 }
    }

    /// Create from nanoseconds
    pub fn from_ns(ns: u32) -> (r: Self)
        ensures
            r.spec_ns() == ns,
    {
        Self { ns }
    }

    /// Get dead time in nanoseconds
    pub fn as_ns(self) -> (r: u32)
        ensures
            r == self.spec_ns(),
    {
        self.ns
    }

    /// Calculate timer register value for given clock: whole timer ticks
    /// in the dead time, at most 255
    pub fn as_timer_value(self, timer_clock_hz: u32) -> (r: u8)
        ensures
            r == vstd::math::min(self.spec_ns() * timer_clock_hz / 1_000_000_000, 255),
    {
        let ns = self.ns as u64;
        let clk = timer_clock_hz as u64;
        assert(ns * clk <= 0xffff_ffff * 0xffff_ffff) by (nonlinear_arith)
            requires
                ns <= 0xffff_ffff,
                clk <= 0xffff_ffff,
        ;
        let ticks = (ns * clk) / 1_000_000_000;
        if ticks < 255 { ticks as u8 } else { 255 }
    }
}

impl Default for DeadTime {
    /// 100 ns
    fn default() -> (r: Self)
        ensures
            r.spec_ns() == 100,
    {
        Self::default_time()
    }
}

/// Complementary PWM output state
#[derive(Clone, Copy, Debug, PartialEq, Eq, Structural)]
pub struct ComplementaryPwm {
    /// Main output duty cycle
    pub main: DutyCycle,
    /// Complementary output is automatically inverted
    pub dead_time: DeadTime,
}

impl ComplementaryPwm {
    /// Create new complementary PWM configuration
    pub fn new() -> (r: Self)
        ensures
            r.main.spec_raw() == 0,
            r.dead_time.spec_ns() == 100,
    {
        Self { main: DutyCycle::zero(), dead_time: DeadTime::default_time() }
    }

    /// Set duty cycle for 50% square wave
    pub fn set_square_wave(&mut self)
        ensures
            final(self).main.spec_raw() == 32768,
            final(self).dead_time == old(self).dead_time,
    {
        self.main = DutyCycle::half();
    }
}

impl Default for ComplementaryPwm {
    fn default() -> (r: Self)
        ensures
            r.main.spec_raw() == 0,
            r.dead_time.spec_ns() == 100,
    {
        Self { main: DutyCycle::zero(), dead_time: DeadTime::default_time() }
    }
}

} // verus!
