//! `Si5351A` Clock Synthesizer
//!
//! Frequency plans and register contents for the synthesizer that drives
//! the LO, including the quadrature pair for QSD/QSE operation. Each
//! operation returns the register writes to send, in order; the
//! application sends them over I2C.

use vstd::prelude::*;
use crate::dsp::si5351_calc::{
    MsParams, PllParams, QuadSynthesis, calculate_quadrature, divider_registers, divider_registers_fit,
    is_quadrature_choice,
};
use crate::types::Frequency;

verus! {

/// Device status register
pub const REG_DEVICE_STATUS: u8 = 0;
/// Output enable control register
pub const REG_OUTPUT_ENABLE: u8 = 3;
/// CLK0 control register
pub const REG_CLK0_CONTROL: u8 = 16;
/// CLK1 control register
pub const REG_CLK1_CONTROL: u8 = 17;
/// CLK2 control register
pub const REG_CLK2_CONTROL: u8 = 18;
/// First PLL A parameter register
pub const REG_PLLA_PARAMS: u8 = 26;
/// First PLL B parameter register
pub const REG_PLLB_PARAMS: u8 = 34;
/// First multisynth 0 parameter register
pub const REG_MS0_PARAMS: u8 = 42;
/// First multisynth 1 parameter register
pub const REG_MS1_PARAMS: u8 = 50;
/// First multisynth 2 parameter register
pub const REG_MS2_PARAMS: u8 = 58;
/// CLK0 initial phase offset register
pub const REG_CLK0_PHASE: u8 = 165;
/// CLK1 initial phase offset register
pub const REG_CLK1_PHASE: u8 = 166;
/// PLL reset register
pub const REG_PLL_RESET: u8 = 177;
/// Crystal load capacitance register
pub const REG_CRYSTAL_LOAD: u8 = 183;

/// Clock output identifier
#[derive(Clone, Copy, Debug, PartialEq, Eq, Structural)]
pub enum ClockOutput {
    /// CLK0 output
    Clk0,
    /// CLK1 output
    Clk1,
    /// CLK2 output
    Clk2,
}

impl ClockOutput {
    /// Get the control register for this output
    #[verifier::allow_in_spec]
    pub fn control_reg(self) -> u8
        returns
            (match self {
                ClockOutput::Clk0 => REG_CLK0_CONTROL,
                ClockOutput::Clk1 => REG_CLK1_CONTROL,
                ClockOutput::Clk2 => REG_CLK2_CONTROL,
            }),
    {
        match self {
            Self::Clk0 => REG_CLK0_CONTROL,
            Self::Clk1 => REG_CLK1_CONTROL,
            Self::Clk2 => REG_CLK2_CONTROL,
        }
    }

    /// Get the multisynth parameter base register
    #[verifier::allow_in_spec]
    pub fn ms_reg(self) -> u8
        returns
            (match self {
                ClockOutput::Clk0 => REG_MS0_PARAMS,
                ClockOutput::Clk1 => REG_MS1_PARAMS,
                ClockOutput::Clk2 => REG_MS2_PARAMS,
            }),
    {
        match self {
            Self::Clk0 => REG_MS0_PARAMS,
            Self::Clk1 => REG_MS1_PARAMS,
            Self::Clk2 => REG_MS2_PARAMS,
        }
    }

    /// Get the output enable bit
    #[verifier::allow_in_spec]
    pub fn enable_bit(self) -> u8
        returns
            (match self {
                ClockOutput::Clk0 => 0u8,
                ClockOutput::Clk1 => 1u8,
                ClockOutput::Clk2 => 2u8,
            }),
    {
        match self {
            Self::Clk0 => 0,
            Self::Clk1 => 1,
            Self::Clk2 => 2,
        }
    }
}

/// Drive strength setting
#[derive(Clone, Copy, Debug, PartialEq, Eq, Structural, Default)]
pub enum DriveStrength {
    /// 2mA drive
    Drive2mA,
    /// 4mA drive
    Drive4mA,
    /// 6mA drive
    Drive6mA,
    /// 8mA drive (maximum)
    #[default]
    Drive8mA,
}

impl DriveStrength {
    /// Get register value
    #[verifier::allow_in_spec]
    pub fn as_reg(self) -> u8
        returns
            (match self {
                DriveStrength::Drive2mA => 0u8,
                DriveStrength::Drive4mA => 1u8,
                DriveStrength::Drive6mA => 2u8,
                DriveStrength::Drive8mA => 3u8,
            }),
    {
        match self {
            Self::Drive2mA => 0,
            Self::Drive4mA => 1,
            Self::Drive6mA => 2,
            Self::Drive8mA => 3,
        }
    }
}

/// PLL source selection
#[derive(Clone, Copy, Debug, PartialEq, Eq, Structural, Default)]
pub enum PllSource {
    /// Use PLL A
    #[default]
    PllA,
    /// Use PLL B
    PllB,
}

/// Crystal load capacitance
#[derive(Clone, Copy, Debug, PartialEq, Eq, Structural, Default)]
pub enum CrystalLoad {
    /// 6 pF load
    Load6pF,
    /// 8 pF load
    Load8pF,
    /// 10 pF load
    #[default]
    Load10pF,
}

impl CrystalLoad {
    /// Get register value
    #[verifier::allow_in_spec]
    pub fn as_reg(self) -> u8
        returns
            (match self {
                CrystalLoad::Load6pF => 0b01000000u8,
                CrystalLoad::Load8pF => 0b10000000u8,
                CrystalLoad::Load10pF => 0b11000000u8,
            }),
    {
        match self {
            Self::Load6pF => 0b01000000,
            Self::Load8pF => 0b10000000,
            Self::Load10pF => 0b11000000,
        }
    }
}

/// One I2C write to the synthesizer: a starting register and the bytes
/// written from it on.
#[derive(Clone, Debug, PartialEq, Eq)]
pub struct RegisterWrite {
    /// First register written
    pub reg: u8,
    /// Values, for consecutive registers
    pub data: Vec<u8>,
}

/// The (register, bytes) pairs of a list of writes.
pub open spec fn writes_view(w: Seq<RegisterWrite>) -> Seq<(u8, Seq<u8>)> {
    Seq::new(w.len(), |i: int| (w[i].reg, w[i].data@))
}

/// A single-register write.
fn write_reg(reg: u8, value: u8) -> (r: RegisterWrite)
    ensures
        r.reg == reg,
        r.data@ == seq![value],
{
    let mut data: Vec<u8> = Vec::new();
    data.push(value);
    RegisterWrite { reg, data }
}

/// The eight parameter registers of a divider with register values P1, P2,
/// P3, and the output divider bits `r_div` in the third: P3[15:8], P3[7:0],
/// R | P1[17:16], P1[15:8], P1[7:0], P3[19:16] | P2[19:16], P2[15:8],
/// P2[7:0].
pub open spec fn divider_bytes(p1: u32, p2: u32, p3: u32, r_bits: u8) -> Seq<u8> {
    seq![
        ((p3 >> 8u32) & 0xFF) as u8,
        (p3 & 0xFF) as u8,
        r_bits | (((p1 >> 16u32) as u8) & 0x03),
        ((p1 >> 8u32) & 0xFF) as u8,
        (p1 & 0xFF) as u8,
        (((p3 >> 12u32) & 0xF0) | ((p2 >> 16u32) & 0x0F)) as u8,
        ((p2 >> 8u32) & 0xFF) as u8,
        (p2 & 0xFF) as u8,
    ]
}

/// The parameter bytes of a divider
fn divider_data(p1: u32, p2: u32, p3: u32, r_bits: u8) -> (r: Vec<u8>)
    ensures
        r@ == divider_bytes(p1, p2, p3, r_bits),
{
    let mut v: Vec<u8> = Vec::new();
    v.push(((p3 >> 8) & 0xFF) as u8);
    v.push((p3 & 0xFF) as u8);
    v.push(r_bits | (((p1 >> 16) as u8) & 0x03));
    v.push(((p1 >> 8) & 0xFF) as u8);
    v.push((p1 & 0xFF) as u8);
    v.push((((p3 >> 12) & 0xF0) | ((p2 >> 16) & 0x0F)) as u8);
    v.push(((p2 >> 8) & 0xFF) as u8);
    v.push((p2 & 0xFF) as u8);
    assert(v@ =~= divider_bytes(p1, p2, p3, r_bits));
    v
}

/// Whether a divider's register values can be computed in 32 bits.
pub open spec fn pll_params_fit(p: PllParams) -> bool {
    divider_registers_fit(p.a, p.b, p.c)
}

/// Whether a multisynth's register values can be computed in 32 bits.
pub open spec fn ms_params_fit(m: MsParams) -> bool {
    divider_registers_fit(m.a, m.b, m.c)
}

/// The register write that programs a PLL.
pub open spec fn pll_write(pll: PllSource, p: PllParams) -> (u8, Seq<u8>) {
    let (p1, p2, p3) = divider_registers(p.a, p.b, p.c);
    (
        match pll {
            PllSource::PllA => REG_PLLA_PARAMS,
            PllSource::PllB => REG_PLLB_PARAMS,
        },
        divider_bytes(p1 as u32, p2 as u32, p3 as u32, 0),
    )
}

/// The register write that programs an output's multisynth.
pub open spec fn ms_write(output: ClockOutput, m: MsParams) -> (u8, Seq<u8>) {
    let (p1, p2, p3) = divider_registers(m.a, m.b, m.c);
    (output.ms_reg(), divider_bytes(p1 as u32, p2 as u32, p3 as u32, (m.r_div << 4u8) as u8))
}

/// `value` limited to `lo..=hi`.
pub open spec fn clamp_u64(value: int, lo: int, hi: int) -> int {
    if value < lo { lo } else if value > hi { hi } else { value }
}

/// The PLL and multisynth settings for `target_hz`: the VCO aims at
/// 900 MHz, the multisynth divisor is the integer that gets there (4 to
/// 1800), and the PLL multiplier is the integer that gives that VCO
/// frequency from the crystal (15 to 90).
pub open spec fn si5351_params(xtal_hz: u32, target_hz: u64) -> (PllParams, MsParams) {
    let ms_a = clamp_u64(900_000_000int / (target_hz as int), 4, 1800);
    let pll_a = clamp_u64(target_hz * ms_a / (xtal_hz as int), 15, 90);
    (PllParams { a: pll_a as u32, b: 0, c: 1 }, MsParams { a: ms_a as u32, b: 0, c: 1, r_div: 0 })
}

/// Output control value: clock powered up, integer mode, PLL A, multisynth
/// source, 8 mA drive.
pub const CLK_CONTROL_ON: u8 = 0x0F;

/// Control value of a powered-down output.
pub const CLK_CONTROL_OFF: u8 = 0x80;

/// All outputs disabled.
pub const OUTPUTS_ALL_OFF: u8 = 0xFF;

/// Device status bit that stays set while the chip initialises after
/// power-up.
pub const STATUS_SYS_INIT: u8 = 0x80;

/// How many times the status is polled (one millisecond apart) before
/// configuration goes ahead regardless.
pub const READY_POLLS: u32 = 100;

/// Whether a device status byte says the synthesizer has finished
/// initialising.
pub fn status_ready(status: u8) -> (r: bool)
    ensures
        r == (status & STATUS_SYS_INIT == 0),
{
    status & STATUS_SYS_INIT == 0
}

/// The writes that set `output` to `target_hz` from PLL A.
pub open spec fn frequency_writes(xtal_hz: u32, output: ClockOutput, target_hz: u64) -> Seq<(u8, Seq<u8>)> {
    let (pll, ms) = si5351_params(xtal_hz, target_hz);
    seq![
        pll_write(PllSource::PllA, pll),
        ms_write(output, ms),
        (output.control_reg(), seq![CLK_CONTROL_ON | DriveStrength::Drive8mA.as_reg()]),
        (REG_PLL_RESET, seq![0x20u8]),
    ]
}

/// The writes that put CLK0 and CLK1 on the quadrature setting `q` (PLL,
/// even multisynth divisor, CLK1 phase offset), CLK0 unshifted, then reset
/// the PLL.
pub open spec fn quadrature_writes(q: QuadSynthesis) -> Seq<(u8, Seq<u8>)> {
    seq![
        pll_write(PllSource::PllA, q.0),
        ms_write(ClockOutput::Clk0, q.1),
        ms_write(ClockOutput::Clk1, q.1),
        (REG_CLK1_PHASE, seq![q.4]),
        (REG_CLK0_PHASE, seq![0u8]),
        (REG_CLK0_CONTROL, seq![CLK_CONTROL_ON | DriveStrength::Drive8mA.as_reg()]),
        (REG_CLK1_CONTROL, seq![CLK_CONTROL_ON | DriveStrength::Drive8mA.as_reg()]),
        (REG_PLL_RESET, seq![0xA0u8]),
    ]
}

/// `Si5351A` driver state: the crystal frequency and the output enable
/// mask last written (a set bit disables that output).
#[derive(Clone, Copy, Debug)]
pub struct Si5351 {
    xtal_freq: u32,
    output_enable: u8,
}

impl Si5351 {
    /// Default crystal frequency (25 MHz)
    pub const DEFAULT_XTAL: u32 = 25_000_000;

    /// The crystal frequency.
    pub closed spec fn spec_xtal(self) -> u32 {
        self.xtal_freq
    }

    /// The output enable register value.
    pub closed spec fn spec_output_enable(self) -> u8 {
        self.output_enable
    }

    #[verifier::type_invariant]
    closed spec fn crystal_fixed(self) -> bool {
        self.xtal_freq == Self::DEFAULT_XTAL
    }

    /// Create a new `Si5351A` driver (all outputs disabled)
    pub fn new() -> (r: Self)
        ensures
            r.spec_xtal() == Self::DEFAULT_XTAL,
            r.spec_output_enable() == OUTPUTS_ALL_OFF,
    {
        Self { xtal_freq: Self::DEFAULT_XTAL, output_enable: OUTPUTS_ALL_OFF }
    }

    /// The writes that initialize the chip once it reports ready: all
    /// outputs disabled, the crystal load set, every output powered down
    pub fn init(&self, load: CrystalLoad) -> (r: Vec<RegisterWrite>)
        ensures
            writes_view(r@) == seq![
                (REG_OUTPUT_ENABLE, seq![OUTPUTS_ALL_OFF]),
                (REG_CRYSTAL_LOAD, seq![load.as_reg()]),
                (REG_CLK0_CONTROL, seq![CLK_CONTROL_OFF]),
                (REG_CLK1_CONTROL, seq![CLK_CONTROL_OFF]),
                (REG_CLK2_CONTROL, seq![CLK_CONTROL_OFF]),
            ],
    {
        let mut v: Vec<RegisterWrite> = Vec::new();
        v.push(write_reg(REG_OUTPUT_ENABLE, OUTPUTS_ALL_OFF));
        v.push(write_reg(REG_CRYSTAL_LOAD, load.as_reg()));
        v.push(write_reg(ClockOutput::Clk0.control_reg(), CLK_CONTROL_OFF));
        v.push(write_reg(ClockOutput::Clk1.control_reg(), CLK_CONTROL_OFF));
        v.push(write_reg(ClockOutput::Clk2.control_reg(), CLK_CONTROL_OFF));
        assert(writes_view(v@) =~= seq![
            (REG_OUTPUT_ENABLE, seq![OUTPUTS_ALL_OFF]),
            (REG_CRYSTAL_LOAD, seq![load.as_reg()]),
            (REG_CLK0_CONTROL, seq![CLK_CONTROL_OFF]),
            (REG_CLK1_CONTROL, seq![CLK_CONTROL_OFF]),
            (REG_CLK2_CONTROL, seq![CLK_CONTROL_OFF]),
        ]);
        v
    }

    /// Calculate PLL and multisynth parameters for target frequency
    pub fn calculate_params(&self, target_hz: u64) -> (r: (PllParams, MsParams))
        requires
            target_hz > 0,
            target_hz * 1800 <= u64::MAX,
        ensures
            r == si5351_params(self.spec_xtal(), target_hz),
            pll_params_fit(r.0),
            ms_params_fit(r.1),
            15 <= r.0.a <= 90,
            4 <= r.1.a <= 1800,
    {
        proof {
            use_type_invariant(self);
        }
        let vco: u64 = 900_000_000;
        let ms_div = vco / target_hz;
        let ms_a: u64 = if ms_div < 4 { 4 } else if ms_div > 1800 { 1800 } else { ms_div };
        assert(target_hz * ms_a <= target_hz * 1800) by (nonlinear_arith)
            requires
                ms_a <= 1800,
        ;
        let actual_vco = target_hz * ms_a;
        let pll_mult = actual_vco / (self.xtal_freq as u64);
        let pll_a: u64 = if pll_mult < 15 { 15 } else if pll_mult > 90 { 90 } else { pll_mult };
        let pll = PllParams { a: pll_a as u32, b: 0, c: 1 };
        let ms = MsParams { a: ms_a as u32, b: 0, c: 1, r_div: 0 };
        (pll, ms)
    }

    /// The write that programs a PLL
    fn program_pll(pll: PllSource, params: &PllParams) -> (r: RegisterWrite)
        requires
            pll_params_fit(*params),
        ensures
            (r.reg, r.data@) == pll_write(pll, *params),
    {
        let base = match pll {
            PllSource::PllA => REG_PLLA_PARAMS,
            PllSource::PllB => REG_PLLB_PARAMS,
        };
        let (p1, p2, p3) = params.to_registers();
        RegisterWrite { reg: base, data: divider_data(p1, p2, p3, 0) }
    }

    /// The write that programs an output's multisynth
    fn program_multisynth(output: ClockOutput, params: &MsParams) -> (r: RegisterWrite)
        requires
            ms_params_fit(*params),
        ensures
            (r.reg, r.data@) == ms_write(output, *params),
    {
        let (p1, p2, p3) = params.to_registers();
        RegisterWrite { reg: output.ms_reg(), data: divider_data(p1, p2, p3, params.r_div << 4) }
    }

    /// The writes that set a clock output to a frequency
    pub fn set_frequency(&self, output: ClockOutput, freq: Frequency) -> (r: Vec<RegisterWrite>)
        ensures
            writes_view(r@) == frequency_writes(self.spec_xtal(), output, freq@ as u64),
    {
        let target_hz = freq.as_hz() as u64;
        let (pll, ms) = self.calculate_params(target_hz);
        let mut v: Vec<RegisterWrite> = Vec::new();
        v.push(Self::program_pll(PllSource::PllA, &pll));
        v.push(Self::program_multisynth(output, &ms));
        v.push(write_reg(output.control_reg(), CLK_CONTROL_ON | DriveStrength::Drive8mA.as_reg()));
        v.push(write_reg(REG_PLL_RESET, 0x20));
        assert(writes_view(v@) =~= frequency_writes(self.spec_xtal(), output, freq@ as u64));
        v
    }

    /// The writes that set the quadrature outputs: CLK0 and CLK1 at four
    /// times the frequency (for the QSD) from one even integer divisor,
    /// CLK1 shifted by 90 degrees; nothing when no even divisor reaches the
    /// frequency
    pub fn set_quadrature(&self, freq: Frequency) -> (r: Option<Vec<RegisterWrite>>)
        ensures
            freq@ == 0 ==> r is None,
            freq@ > 0 && r is None ==> is_quadrature_choice(self.spec_xtal() as u64, freq@ as u64, None),
            r matches Some(w) ==> exists|q: QuadSynthesis|
                is_quadrature_choice(self.spec_xtal() as u64, freq@ as u64, Some(q)) && #[trigger] quadrature_writes(q)
                    == writes_view(w@),
    {
        proof {
            use_type_invariant(self);
        }
        let freq_hz = freq.as_hz();
        if freq_hz == 0 {
            return None;
        }
        let q = match calculate_quadrature(self.xtal_freq as u64, freq_hz as u64) {
            Some(q) => q,
            None => {
                return None;
            },
        };
        let (pll, ms, _actual, _error, phase) = q;
        let mut v: Vec<RegisterWrite> = Vec::new();
        v.push(Self::program_pll(PllSource::PllA, &pll));
        v.push(Self::program_multisynth(ClockOutput::Clk0, &ms));
        v.push(Self::program_multisynth(ClockOutput::Clk1, &ms));
        v.push(write_reg(REG_CLK1_PHASE, phase));
        v.push(write_reg(REG_CLK0_PHASE, 0));
        let control = CLK_CONTROL_ON | DriveStrength::Drive8mA.as_reg();
        v.push(write_reg(ClockOutput::Clk0.control_reg(), control));
        v.push(write_reg(ClockOutput::Clk1.control_reg(), control));
        v.push(write_reg(REG_PLL_RESET, 0xA0));
        assert(writes_view(v@) =~= quadrature_writes(q));
        Some(v)
    }

    /// Enable a clock output; returns the write that applies it
    pub fn enable(&mut self, output: ClockOutput) -> (r: RegisterWrite)
        ensures
            final(self).spec_output_enable() == old(self).spec_output_enable() & !(1u8 << output.enable_bit()),
            final(self).spec_xtal() == old(self).spec_xtal(),
            r.reg == REG_OUTPUT_ENABLE,
            r.data@ == seq![final(self).spec_output_enable()],
    {
        proof {
            use_type_invariant(&*self);
        }
        self.output_enable = self.output_enable & !(1u8 << output.enable_bit());
        write_reg(REG_OUTPUT_ENABLE, self.output_enable)
    }

    /// Disable a clock output; returns the write that applies it
    pub fn disable(&mut self, output: ClockOutput) -> (r: RegisterWrite)
        ensures
            final(self).spec_output_enable() == old(self).spec_output_enable() | (1u8 << output.enable_bit()),
            final(self).spec_xtal() == old(self).spec_xtal(),
            r.reg == REG_OUTPUT_ENABLE,
            r.data@ == seq![final(self).spec_output_enable()],
    {
        proof {
            use_type_invariant(&*self);
        }
        self.output_enable = self.output_enable | (1u8 << output.enable_bit());
        write_reg(REG_OUTPUT_ENABLE, self.output_enable)
    }

    /// Enable quadrature outputs (CLK0 and CLK1); returns the write that
    /// applies it
    pub fn enable_quadrature(&mut self) -> (r: RegisterWrite)
        ensures
            final(self).spec_output_enable() == old(self).spec_output_enable() & !0x03u8,
            final(self).spec_xtal() == old(self).spec_xtal(),
            r.reg == REG_OUTPUT_ENABLE,
            r.data@ == seq![final(self).spec_output_enable()],
    {
        proof {
            use_type_invariant(&*self);
        }
        self.output_enable = self.output_enable & !0x03u8;
        write_reg(REG_OUTPUT_ENABLE, self.output_enable)
    }
}

/// Enabling an output clears exactly its bit of the enable mask and
/// disabling sets it again: disable after enable restores a mask in which
/// the output was disabled, and the other outputs' bits never change.
pub proof fn lemma_enable_disable(mask: u8, bit: u8)
    requires
        bit < 3,
    ensures
        (mask & !(1u8 << bit)) & (1u8 << bit) == 0,
        mask & (1u8 << bit) != 0 ==> ((mask & !(1u8 << bit)) | (1u8 << bit)) == mask,
        forall|j: u8| j < 8 && j != bit ==> #[trigger] ((mask & !(1u8 << bit)) & (1u8 << j)) == mask & (1u8 << j),
{
    assert((mask & !(1u8 << bit)) & (1u8 << bit) == 0) by (bit_vector)
        requires
            bit < 3,
    ;
    assert(mask & (1u8 << bit) != 0 ==> ((mask & !(1u8 << bit)) | (1u8 << bit)) == mask) by (bit_vector)
        requires
            bit < 3,
    ;
    assert forall|j: u8| j < 8 && j != bit implies #[trigger] ((mask & !(1u8 << bit)) & (1u8 << j)) == mask & (1u8 << j) by {
        assert(j < 8 && j != bit ==> ((mask & !(1u8 << bit)) & (1u8 << j)) == mask & (1u8 << j)) by (bit_vector)
            requires
                bit < 3,
        ;
    }
}

/// The quadrature plan runs both outputs from one even integer multisynth
/// setting with CLK1 offset by a quarter of the divisor, then resets the
/// PLL.
pub proof fn lemma_quadrature_same_divider(xtal_hz: u64, freq_hz: u64, q: QuadSynthesis)
    requires
        is_quadrature_choice(xtal_hz, freq_hz, Some(q)),
    ensures
        ({
            let w = quadrature_writes(q);
            &&& w.len() == 8
            &&& w[1].1 == w[2].1
            &&& w[1].0 == REG_MS0_PARAMS && w[2].0 == REG_MS1_PARAMS
            &&& q.1.b == 0 && q.1.a % 2 == 0
            &&& w[3] == (REG_CLK1_PHASE, seq![(q.1.a / 4) as u8])
            &&& w[4] == (REG_CLK0_PHASE, seq![0u8])
            &&& w[7].0 == REG_PLL_RESET
        }),
{
}

/// The eight divider bytes carry P1 (18 bits), P2 and P3 (20 bits each) and
/// the R-divider bits without loss: reading the fields back from the bytes
/// gives the register values that were encoded.
pub proof fn lemma_divider_bytes_decode(p1: u32, p2: u32, p3: u32, r_bits: u8)
    requires
        p1 < 0x4_0000,
        p2 < 0x10_0000,
        p3 < 0x10_0000,
        r_bits & 0x03 == 0,
    ensures
        ({
            let b = divider_bytes(p1, p2, p3, r_bits);
            &&& b.len() == 8
            &&& (((b[2] & 0x03) as u32) << 16u32) | ((b[3] as u32) << 8u32) | (b[4] as u32) == p1
            &&& (((b[5] & 0x0F) as u32) << 16u32) | ((b[6] as u32) << 8u32) | (b[7] as u32) == p2
            &&& (((b[5] >> 4u8) as u32) << 16u32) | ((b[0] as u32) << 8u32) | (b[1] as u32) == p3
            &&& b[2] & 0xFC == r_bits & 0xFC
        }),
{
    let b = divider_bytes(p1, p2, p3, r_bits);
    let b0 = ((p3 >> 8u32) & 0xFF) as u8;
    let b1 = (p3 & 0xFF) as u8;
    let b2 = r_bits | (((p1 >> 16u32) as u8) & 0x03);
    let b3 = ((p1 >> 8u32) & 0xFF) as u8;
    let b4 = (p1 & 0xFF) as u8;
    let b5 = (((p3 >> 12u32) & 0xF0) | ((p2 >> 16u32) & 0x0F)) as u8;
    let b6 = ((p2 >> 8u32) & 0xFF) as u8;
    let b7 = (p2 & 0xFF) as u8;
    assert(b =~= seq![b0, b1, b2, b3, b4, b5, b6, b7]);
    assert((((b2 & 0x03) as u32) << 16u32) | ((b3 as u32) << 8u32) | (b4 as u32) == p1) by (bit_vector)
        requires
            p1 < 0x4_0000,
            r_bits & 0x03 == 0,
            b2 == r_bits | (((p1 >> 16u32) as u8) & 0x03),
            b3 == ((p1 >> 8u32) & 0xFF) as u8,
            b4 == (p1 & 0xFF) as u8,
    ;
    assert((((b5 & 0x0F) as u32) << 16u32) | ((b6 as u32) << 8u32) | (b7 as u32) == p2) by (bit_vector)
        requires
            p2 < 0x10_0000,
            b5 == (((p3 >> 12u32) & 0xF0) | ((p2 >> 16u32) & 0x0F)) as u8,
            b6 == ((p2 >> 8u32) & 0xFF) as u8,
            b7 == (p2 & 0xFF) as u8,
    ;
    assert((((b5 >> 4u8) as u32) << 16u32) | ((b0 as u32) << 8u32) | (b1 as u32) == p3) by (bit_vector)
        requires
            p3 < 0x10_0000,
            b5 == (((p3 >> 12u32) & 0xF0) | ((p2 >> 16u32) & 0x0F)) as u8,
            b0 == ((p3 >> 8u32) & 0xFF) as u8,
            b1 == (p3 & 0xFF) as u8,
    ;
    assert(b2 & 0xFC == r_bits & 0xFC) by (bit_vector)
        requires
            b2 == r_bits | (((p1 >> 16u32) as u8) & 0x03),
    ;
}

} // verus!
