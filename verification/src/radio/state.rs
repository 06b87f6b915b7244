//! Radio State Machine
//!
//! The complete operating state of the transceiver as an immutable value;
//! every transition returns a new state.

use vstd::prelude::*;
use crate::types::{
    Band, Frequency, Mode, PowerLevel, TuningStep, TxRxState, band_of_hz, tuned_up_hz, tuned_down_hz,
    freq_in_range, auto_mode,
};

verus! {

/// VFO A/B selection
#[derive(Clone, Copy, Debug, PartialEq, Eq, Structural, Default)]
pub enum VfoSelect {
    /// VFO A
    #[default]
    A,
    /// VFO B
    B,
}

impl VfoSelect {
    /// Toggle VFO selection
    #[verifier::allow_in_spec]
    pub fn toggle(self) -> VfoSelect
        returns
            (match self {
                VfoSelect::A => VfoSelect::B,
                VfoSelect::B => VfoSelect::A,
            }),
    {
        match self {
            Self::A => Self::B,
            Self::B => Self::A,
        }
    }
}

/// AGC mode
#[derive(Clone, Copy, Debug, PartialEq, Eq, Structural, Default)]
pub enum AgcMode {
    /// AGC off
    Off,
    /// Fast AGC (voice/SSB)
    Fast,
    /// Medium AGC (default)
    #[default]
    Medium,
    /// Slow AGC (CW/data)
    Slow,
}

impl AgcMode {
    /// Get attack time in milliseconds
    pub fn attack_ms(self) -> (r: u32)
        ensures
            r == (match self {
                AgcMode::Off => 0u32,
                AgcMode::Fast => 2u32,
                AgcMode::Medium => 10u32,
                AgcMode::Slow => 50u32,
            }),
    {
        match self {
            Self::Off => 0,
            Self::Fast => 2,
            Self::Medium => 10,
            Self::Slow => 50,
        }
    }

    /// Get decay time in milliseconds
    pub fn decay_ms(self) -> (r: u32)
        ensures
            r == (match self {
                AgcMode::Off => 0u32,
                AgcMode::Fast => 100u32,
                AgcMode::Medium => 500u32,
                AgcMode::Slow => 2000u32,
            }),
    {
        match self {
            Self::Off => 0,
            Self::Fast => 100,
            Self::Medium => 500,
            Self::Slow => 2000,
        }
    }

    /// Cycle to next mode
    #[verifier::allow_in_spec]
    pub fn next(self) -> AgcMode
        returns
            (match self {
                AgcMode::Off => AgcMode::Fast,
                AgcMode::Fast => AgcMode::Medium,
                AgcMode::Medium => AgcMode::Slow,
                AgcMode::Slow => AgcMode::Off,
            }),
    {
        match self {
            Self::Off => Self::Fast,
            Self::Fast => Self::Medium,
            Self::Medium => Self::Slow,
            Self::Slow => Self::Off,
        }
    }
}

/// The mode that follows `m` in the operator's mode cycle.
pub open spec fn next_mode_of(m: Mode) -> Mode {
    match m {
        Mode::Lsb => Mode::Usb,
        Mode::Usb => Mode::Cw,
        Mode::Cw => Mode::CwR,
        Mode::CwR => Mode::Am,
        Mode::Am => Mode::Fm,
        Mode::Fm => Mode::Lsb,
    }
}

/// Mathematical model of a radio state: every setting as a plain value.
pub struct RadioStateModel {
    pub frequency: u32,
    pub mode: Mode,
    pub step: TuningStep,
    pub band: Option<Band>,
    pub txrx: TxRxState,
    pub power: u8,
    pub vfo_select: VfoSelect,
    pub split: bool,
    pub rit_offset: i32,
    pub rit_enabled: bool,
    pub xit_offset: i32,
    pub xit_enabled: bool,
    pub agc_mode: AgcMode,
    pub noise_blanker: bool,
    pub preamp: bool,
    pub attenuator: bool,
}

/// Complete radio state (immutable)
#[derive(Clone, Copy, Debug)]
pub struct RadioState {
    /// Current VFO frequency
    frequency: Frequency,
    /// Operating mode
    mode: Mode,
    /// Tuning step size
    step: TuningStep,
    /// Current band
    band: Option<Band>,
    /// TX/RX state
    txrx: TxRxState,
    /// Power level
    power: PowerLevel,
    /// VFO A/B selection
    pub vfo_select: VfoSelect,
    /// Split operation enabled
    pub split: bool,
    /// RIT (Receiver Incremental Tuning) offset
    rit_offset: i32,
    /// RIT enabled
    rit_enabled: bool,
    /// XIT (Transmitter Incremental Tuning) offset
    xit_offset: i32,
    /// XIT enabled
    xit_enabled: bool,
    /// AGC mode
    agc_mode: AgcMode,
    /// Noise blanker enabled
    noise_blanker: bool,
    /// Preamp enabled
    preamp: bool,
    /// Attenuator enabled
    attenuator: bool,
}

impl View for RadioState {
    type V = RadioStateModel;

    closed spec fn view(&self) -> RadioStateModel {
        RadioStateModel {
            frequency: self.frequency@,
            mode: self.mode,
            step: self.step,
            band: self.band,
            txrx: self.txrx,
            power: self.power@,
            vfo_select: self.vfo_select,
            split: self.split,
            rit_offset: self.rit_offset,
            rit_enabled: self.rit_enabled,
            xit_offset: self.xit_offset,
            xit_enabled: self.xit_enabled,
            agc_mode: self.agc_mode,
            noise_blanker: self.noise_blanker,
            preamp: self.preamp,
            attenuator: self.attenuator,
        }
    }
}

/// The band recorded in a state is the band of its frequency.
pub open spec fn band_consistent(m: RadioStateModel) -> bool {
    m.band == band_of_hz(m.frequency)
}

/// The state a fresh radio starts in at `hz`.
pub open spec fn initial_state(hz: u32) -> RadioStateModel {
    RadioStateModel {
        frequency: hz,
        mode: auto_mode(band_of_hz(hz)),
        step: TuningStep::KHz1,
        band: band_of_hz(hz),
        txrx: TxRxState::Rx,
        power: 50,
        vfo_select: VfoSelect::A,
        split: false,
        rit_offset: 0,
        rit_enabled: false,
        xit_offset: 0,
        xit_enabled: false,
        agc_mode: AgcMode::Medium,
        noise_blanker: false,
        preamp: false,
        attenuator: false,
    }
}

/// The state `m` moved to frequency `hz`, with the band following it.
pub open spec fn at_frequency(m: RadioStateModel, hz: u32) -> RadioStateModel {
    RadioStateModel { frequency: hz, band: band_of_hz(hz), ..m }
}

/// The frequency `hz` shifted by `offset`, when the result is in range;
/// `hz` itself otherwise.
pub open spec fn offset_frequency(hz: u32, offset: i32) -> u32 {
    let shifted = hz + offset;
    let clamped = if shifted < 0 { 0 } else { shifted };
    if freq_in_range(clamped) { clamped as u32 } else { hz }
}

/// Receive frequency of a state: RIT applied when enabled.
pub open spec fn rx_frequency_of(m: RadioStateModel) -> u32 {
    if m.rit_enabled { offset_frequency(m.frequency, m.rit_offset) } else { m.frequency }
}

/// Transmit frequency of a state: XIT applied when enabled.
pub open spec fn tx_frequency_of(m: RadioStateModel) -> u32 {
    if m.xit_enabled { offset_frequency(m.frequency, m.xit_offset) } else { m.frequency }
}

impl RadioState {
    /// Create a new radio state with defaults
    pub fn new(frequency: Frequency) -> (r: Self)
        ensures
            r@ == initial_state(frequency@),
    {
        let band = Band::from_frequency(frequency);
        let mode = match band {
            Some(b) => b.default_mode(),
            None => Mode::Usb,
        };
        let power = PowerLevel::default();
        Self {
            frequency,
            mode,
            step: TuningStep::KHz1,
            band,
            txrx: TxRxState::Rx,
            power,
            vfo_select: VfoSelect::A,
            split: false,
            rit_offset: 0,
            rit_enabled: false,
            xit_offset: 0,
            xit_enabled: false,
            agc_mode: AgcMode::Medium,
            noise_blanker: false,
            preamp: false,
            attenuator: false,
        }
    }

    /// Get current frequency
    pub fn frequency(&self) -> (r: Frequency)
        ensures
            r@ == self@.frequency,
    {
        self.frequency
    }

    /// Get receive frequency (applies RIT if enabled)
    pub fn rx_frequency(&self) -> (r: Frequency)
        requires
            self@.rit_enabled ==> i32::MIN <= self@.frequency + self@.rit_offset <= i32::MAX,
        ensures
            r@ == rx_frequency_of(self@),
    {
        if self.rit_enabled {
            let hz = self.frequency.as_hz() as i32 + self.rit_offset;
            let clamped: i32 = if hz < 0 { 0 } else { hz };
            match Frequency::from_hz(clamped as u32) {
                Some(f) => f,
                None => self.frequency,
            }
        } else {
            self.frequency
        }
    }

    /// Get transmit frequency (applies XIT if enabled)
    pub fn tx_frequency(&self) -> (r: Frequency)
        requires
            self@.xit_enabled ==> i32::MIN <= self@.frequency + self@.xit_offset <= i32::MAX,
        ensures
            r@ == tx_frequency_of(self@),
    {
        if self.xit_enabled {
            let hz = self.frequency.as_hz() as i32 + self.xit_offset;
            let clamped: i32 = if hz < 0 { 0 } else { hz };
            match Frequency::from_hz(clamped as u32) {
                Some(f) => f,
                None => self.frequency,
            }
        } else {
            self.frequency
        }
    }

    /// Get operating mode
    pub fn mode(&self) -> (r: Mode)
        ensures
            r == self@.mode,
    {
        self.mode
    }

    /// Get tuning step
    pub fn step(&self) -> (r: TuningStep)
        ensures
            r == self@.step,
    {
        self.step
    }

    /// Get current band
    pub fn band(&self) -> (r: Option<Band>)
        ensures
            r == self@.band,
    {
        self.band
    }

    /// Get TX/RX state
    pub fn txrx(&self) -> (r: TxRxState)
        ensures
            r == self@.txrx,
    {
        self.txrx
    }

    /// Get power level
    pub fn power(&self) -> (r: PowerLevel)
        ensures
            r@ == self@.power,
    {
        self.power
    }

    /// Check if transmitting
    pub fn is_transmitting(&self) -> (r: bool)
        ensures
            r <==> self@.txrx == TxRxState::Tx,
    {
        matches!(self.txrx, TxRxState::Tx)
    }

    /// Set frequency (returns new state)
    pub fn with_frequency(self, frequency: Frequency) -> (r: Self)
        ensures
            r@ == at_frequency(self@, frequency@),
    {
        let band = Band::from_frequency(frequency);
        Self { frequency, band, ..self }
    }

    /// Tune up (returns new state)
    pub fn tune_up(self) -> (r: Self)
        ensures
            r@ == at_frequency(self@, tuned_up_hz(self@.frequency, self@.step.as_hz())),
    {
        self.with_frequency(self.frequency.tune_up(self.step))
    }

    /// Tune down (returns new state)
    pub fn tune_down(self) -> (r: Self)
        ensures
            r@ == at_frequency(self@, tuned_down_hz(self@.frequency, self@.step.as_hz())),
    {
        self.with_frequency(self.frequency.tune_down(self.step))
    }

    /// Set mode (returns new state)
    pub fn with_mode(self, mode: Mode) -> (r: Self)
        ensures
            r@ == (RadioStateModel { mode, ..self@ }),
    {
        Self { mode, ..self }
    }

    /// Cycle to next mode (returns new state)
    pub fn next_mode(self) -> (r: Self)
        ensures
            r@ == (RadioStateModel { mode: next_mode_of(self@.mode), ..self@ }),
    {
        let mode = match self.mode {
            Mode::Lsb => Mode::Usb,
            Mode::Usb => Mode::Cw,
            Mode::Cw => Mode::CwR,
            Mode::CwR => Mode::Am,
            Mode::Am => Mode::Fm,
            Mode::Fm => Mode::Lsb,
        };
        Self { mode, ..self }
    }

    /// Set tuning step (returns new state)
    pub fn with_step(self, step: TuningStep) -> (r: Self)
        ensures
            r@ == (RadioStateModel { step, ..self@ }),
    {
        Self { step, ..self }
    }

    /// Cycle to next larger step (returns new state)
    pub fn next_step(self) -> (r: Self)
        ensures
            r@ == (RadioStateModel { step: self@.step.next_larger(), ..self@ }),
    {
        Self { step: self.step.next_larger(), ..self }
    }

    /// Set TX/RX state (returns new state)
    pub fn with_txrx(self, txrx: TxRxState) -> (r: Self)
        ensures
            r@ == (RadioStateModel { txrx, ..self@ }),
    {
        Self { txrx, ..self }
    }

    /// Set power level (returns new state)
    pub fn with_power(self, power: PowerLevel) -> (r: Self)
        ensures
            r@ == (RadioStateModel { power: power@, ..self@ }),
    {
        Self { power, ..self }
    }

    /// Toggle RIT (returns new state)
    pub fn toggle_rit(self) -> (r: Self)
        ensures
            r@ == (RadioStateModel { rit_enabled: !self@.rit_enabled, ..self@ }),
    {
        Self { rit_enabled: !self.rit_enabled, ..self }
    }

    /// Set RIT offset (returns new state)
    pub fn with_rit_offset(self, offset: i32) -> (r: Self)
        ensures
            r@ == (RadioStateModel { rit_offset: offset, ..self@ }),
    {
        Self { rit_offset: offset, ..self }
    }

    /// Clear RIT offset (returns new state)
    pub fn clear_rit(self) -> (r: Self)
        ensures
            r@ == (RadioStateModel { rit_offset: 0, rit_enabled: false, ..self@ }),
    {
        Self { rit_offset: 0, rit_enabled: false, ..self }
    }

    /// Toggle XIT (returns new state)
    pub fn toggle_xit(self) -> (r: Self)
        ensures
            r@ == (RadioStateModel { xit_enabled: !self@.xit_enabled, ..self@ }),
    {
        Self { xit_enabled: !self.xit_enabled, ..self }
    }

    /// Set AGC mode (returns new state)
    pub fn with_agc(self, agc_mode: AgcMode) -> (r: Self)
        ensures
            r@ == (RadioStateModel { agc_mode, ..self@ }),
    {
        Self { agc_mode, ..self }
    }

    /// Toggle noise blanker (returns new state)
    pub fn toggle_nb(self) -> (r: Self)
        ensures
            r@ == (RadioStateModel { noise_blanker: !self@.noise_blanker, ..self@ }),
    {
        Self { noise_blanker: !self.noise_blanker, ..self }
    }

    /// Toggle preamp (returns new state)
    pub fn toggle_preamp(self) -> (r: Self)
        ensures
            r@ == (RadioStateModel { preamp: !self@.preamp, ..self@ }),
    {
        Self { preamp: !self.preamp, ..self }
    }

    /// Toggle attenuator (returns new state)
    pub fn toggle_attenuator(self) -> (r: Self)
        ensures
            r@ == (RadioStateModel { attenuator: !self@.attenuator, ..self@ }),
    {
        Self { attenuator: !self.attenuator, ..self }
    }

    /// Get AGC mode
    pub fn agc_mode(&self) -> (r: AgcMode)
        ensures
            r == self@.agc_mode,
    {
        self.agc_mode
    }

    /// Check if noise blanker is enabled
    pub fn noise_blanker_enabled(&self) -> (r: bool)
        ensures
            r == self@.noise_blanker,
    {
        self.noise_blanker
    }

    /// Check if preamp is enabled
    pub fn preamp_enabled(&self) -> (r: bool)
        ensures
            r == self@.preamp,
    {
        self.preamp
    }

    /// Check if attenuator is enabled
    pub fn attenuator_enabled(&self) -> (r: bool)
        ensures
            r == self@.attenuator,
    {
        self.attenuator
    }
}

impl Default for RadioState {
    fn default() -> (r: Self)
        ensures
            r@ == initial_state(7_074_000),
    {
        Self::new(Frequency::from_hz_const(7_074_000))
    }
}

/// Radio event (command) that triggers state transitions
#[derive(Clone, Copy, Debug)]
pub enum RadioEvent {
    /// Tune frequency by step
    Tune(i32),
    /// Set frequency directly
    SetFrequency(Frequency),
    /// Change mode
    SetMode(Mode),
    /// Cycle mode
    NextMode,
    /// Change step size
    SetStep(TuningStep),
    /// Cycle step size
    NextStep,
    /// Start transmit
    StartTx,
    /// Stop transmit
    StopTx,
    /// Set power level
    SetPower(PowerLevel),
    /// Toggle RIT
    ToggleRit,
    /// Adjust RIT
    AdjustRit(i32),
    /// Clear RIT
    ClearRit,
    /// Toggle XIT
    ToggleXit,
    /// Cycle AGC
    CycleAgc,
    /// Toggle noise blanker
    ToggleNb,
    /// Toggle preamp
    TogglePreamp,
    /// Toggle attenuator
    ToggleAtt,
    /// Switch VFO
    SwitchVfo,
    /// Swap VFOs
    SwapVfo,
    /// Copy VFO A to B
    CopyAtoB,
    /// Copy VFO B to A
    CopyBtoA,
}

/// The state reached from `m` by `n` single steps up.
pub open spec fn tune_up_times(m: RadioStateModel, n: nat) -> RadioStateModel
    decreases n,
{
    if n == 0 {
        m
    } else {
        let prev = tune_up_times(m, (n - 1) as nat);
        at_frequency(prev, tuned_up_hz(prev.frequency, prev.step.as_hz()))
    }
}

/// The state reached from `m` by `n` single steps down.
pub open spec fn tune_down_times(m: RadioStateModel, n: nat) -> RadioStateModel
    decreases n,
{
    if n == 0 {
        m
    } else {
        let prev = tune_down_times(m, (n - 1) as nat);
        at_frequency(prev, tuned_down_hz(prev.frequency, prev.step.as_hz()))
    }
}

/// Whether applying `e` to a state with model `m` stays within machine limits.
pub open spec fn event_applicable(m: RadioStateModel, e: RadioEvent) -> bool {
    match e {
        RadioEvent::Tune(steps) => steps != i32::MIN,
        RadioEvent::AdjustRit(hz) => i32::MIN <= m.rit_offset + hz <= i32::MAX,
        _ => true,
    }
}

/// The state that event `e` leads to from a state with model `m`.
pub open spec fn next_state(m: RadioStateModel, e: RadioEvent) -> RadioStateModel {
    match e {
        RadioEvent::Tune(steps) => if steps > 0 {
            tune_up_times(m, steps as nat)
        } else {
            tune_down_times(m, (-steps) as nat)
        },
        RadioEvent::SetFrequency(f) => at_frequency(m, f@),
        RadioEvent::SetMode(mode) => RadioStateModel { mode, ..m },
        RadioEvent::NextMode => RadioStateModel { mode: next_mode_of(m.mode), ..m },
        RadioEvent::SetStep(step) => RadioStateModel { step, ..m },
        RadioEvent::NextStep => RadioStateModel { step: m.step.next_larger(), ..m },
        RadioEvent::StartTx => RadioStateModel { txrx: TxRxState::Switching, ..m },
        RadioEvent::StopTx => RadioStateModel { txrx: TxRxState::Switching, ..m },
        RadioEvent::SetPower(p) => RadioStateModel { power: p@, ..m },
        RadioEvent::ToggleRit => RadioStateModel { rit_enabled: !m.rit_enabled, ..m },
        RadioEvent::AdjustRit(hz) => RadioStateModel { rit_offset: (m.rit_offset + hz) as i32, ..m },
        RadioEvent::ClearRit => RadioStateModel { rit_offset: 0, rit_enabled: false, ..m },
        RadioEvent::ToggleXit => RadioStateModel { xit_enabled: !m.xit_enabled, ..m },
        RadioEvent::CycleAgc => RadioStateModel { agc_mode: m.agc_mode.next(), ..m },
        RadioEvent::ToggleNb => RadioStateModel { noise_blanker: !m.noise_blanker, ..m },
        RadioEvent::TogglePreamp => RadioStateModel { preamp: !m.preamp, ..m },
        RadioEvent::ToggleAtt => RadioStateModel { attenuator: !m.attenuator, ..m },
        RadioEvent::SwitchVfo | RadioEvent::SwapVfo | RadioEvent::CopyAtoB | RadioEvent::CopyBtoA => m,
    }
}

/// Apply an event to the radio state, returning new state
pub fn apply_event(state: RadioState, event: RadioEvent) -> (r: RadioState)
    requires
        event_applicable(state@, event),
    ensures
        r@ == next_state(state@, event),
{
    match event {
        RadioEvent::Tune(steps) => {
            if steps > 0 {
                let mut s = state;
                let mut i: i32 = 0;
                while i < steps
                    invariant
                        0 <= i <= steps,
                        s@ == tune_up_times(state@, i as nat),
                    decreases steps - i,
                {
                    s = s.tune_up();
                    i = i + 1;
                }
                s
            } else {
                let n: i32 = -steps;
                let mut s = state;
                let mut i: i32 = 0;
                while i < n
                    invariant
                        0 <= i <= n,
                        n == -steps,
                        s@ == tune_down_times(state@, i as nat),
                    decreases n - i,
                {
                    s = s.tune_down();
                    i = i + 1;
                }
                s
            }
        },
        RadioEvent::SetFrequency(freq) => state.with_frequency(freq),
        RadioEvent::SetMode(mode) => state.with_mode(mode),
        RadioEvent::NextMode => state.next_mode(),
        RadioEvent::SetStep(step) => state.with_step(step),
        RadioEvent::NextStep => state.next_step(),
        RadioEvent::StartTx => state.with_txrx(TxRxState::Switching),
        RadioEvent::StopTx => state.with_txrx(TxRxState::Switching),
        RadioEvent::SetPower(power) => state.with_power(power),
        RadioEvent::ToggleRit => state.toggle_rit(),
        RadioEvent::AdjustRit(hz) => state.with_rit_offset(state.rit_offset + hz),
        RadioEvent::ClearRit => state.clear_rit(),
        RadioEvent::ToggleXit => state.toggle_xit(),
        RadioEvent::CycleAgc => state.with_agc(state.agc_mode.next()),
        RadioEvent::ToggleNb => state.toggle_nb(),
        RadioEvent::TogglePreamp => state.toggle_preamp(),
        RadioEvent::ToggleAtt => state.toggle_attenuator(),
        RadioEvent::SwitchVfo | RadioEvent::SwapVfo | RadioEvent::CopyAtoB | RadioEvent::CopyBtoA => {
            state
        },
    }
}

/// A freshly created state records the band of its frequency.
pub proof fn lemma_initial_band_consistent(hz: u32)
    ensures
        band_consistent(initial_state(hz)),
{
}

/// Any number of tuning steps up or down keeps the recorded band equal to
/// the band of the frequency.
pub proof fn lemma_tune_times_band_consistent(m: RadioStateModel, n: nat)
    requires
        band_consistent(m),
    ensures
        band_consistent(tune_up_times(m, n)),
        band_consistent(tune_down_times(m, n)),
    decreases n,
{
    if n > 0 {
        lemma_tune_times_band_consistent(m, (n - 1) as nat);
    }
}

/// Every event keeps the recorded band equal to the band of the frequency.
pub proof fn lemma_event_keeps_band_consistent(m: RadioStateModel, e: RadioEvent)
    requires
        band_consistent(m),
    ensures
        band_consistent(next_state(m, e)),
{
    match e {
        RadioEvent::Tune(steps) => {
            if steps > 0 {
                lemma_tune_times_band_consistent(m, steps as nat);
            } else {
                lemma_tune_times_band_consistent(m, (-steps) as nat);
            }
        },
        _ => {},
    }
}

/// Tuning only ever changes the frequency and the band: from a state whose
/// band matches its frequency, every other setting is the same after any
/// number of steps.
pub proof fn lemma_tune_times_keeps_settings(m: RadioStateModel, n: nat)
    requires
        band_consistent(m),
    ensures
        tune_up_times(m, n) == at_frequency(m, tune_up_times(m, n).frequency),
        tune_down_times(m, n) == at_frequency(m, tune_down_times(m, n).frequency),
    decreases n,
{
    if n > 0 {
        lemma_tune_times_keeps_settings(m, (n - 1) as nat);
    }
}

/// One step up followed by one step down returns to the starting frequency
/// when the step up stayed inside the range, and symmetrically.
pub proof fn lemma_tune_up_down_inverse(hz: u32, step: TuningStep)
    requires
        freq_in_range(hz as int),
    ensures
        hz + step.as_hz() <= crate::types::FREQ_MAX_HZ ==> tuned_down_hz(
            tuned_up_hz(hz, step.as_hz()),
            step.as_hz(),
        ) == hz,
        hz - step.as_hz() >= crate::types::FREQ_MIN_HZ ==> tuned_up_hz(
            tuned_down_hz(hz, step.as_hz()),
            step.as_hz(),
        ) == hz,
{
}

/// Tuning up or down by any number of steps never leaves the tunable range.
pub proof fn lemma_tune_times_in_range(m: RadioStateModel, n: nat)
    requires
        freq_in_range(m.frequency as int),
    ensures
        freq_in_range(tune_up_times(m, n).frequency as int),
        freq_in_range(tune_down_times(m, n).frequency as int),
    decreases n,
{
    if n > 0 {
        lemma_tune_times_in_range(m, (n - 1) as nat);
    }
}

/// The mode cycle visits all six modes and returns after six steps.
pub proof fn lemma_mode_cycle_period(mode: Mode)
    ensures
        next_mode_of(next_mode_of(next_mode_of(next_mode_of(next_mode_of(next_mode_of(mode))))))
            == mode,
{
}

/// The AGC cycle returns after four steps; VFO selection toggles back.
pub proof fn lemma_agc_and_vfo_cycles(agc: AgcMode, sel: VfoSelect)
    ensures
        agc.next().next().next().next() == agc,
        sel.toggle().toggle() == sel,
        sel.toggle() != sel,
{
}

/// Toggling RIT, XIT, noise blanker, preamp or attenuator twice leaves the
/// state as it was; the VFO events leave it unchanged.
pub proof fn lemma_toggle_events_involutive(m: RadioStateModel)
    ensures
        next_state(next_state(m, RadioEvent::ToggleRit), RadioEvent::ToggleRit) == m,
        next_state(next_state(m, RadioEvent::ToggleXit), RadioEvent::ToggleXit) == m,
        next_state(next_state(m, RadioEvent::ToggleNb), RadioEvent::ToggleNb) == m,
        next_state(next_state(m, RadioEvent::TogglePreamp), RadioEvent::TogglePreamp) == m,
        next_state(next_state(m, RadioEvent::ToggleAtt), RadioEvent::ToggleAtt) == m,
        next_state(m, RadioEvent::SwitchVfo) == m,
        next_state(m, RadioEvent::SwapVfo) == m,
        next_state(m, RadioEvent::CopyAtoB) == m,
        next_state(m, RadioEvent::CopyBtoA) == m,
{
}

/// With RIT off the receive frequency is the dial frequency; so is the
/// transmit frequency with XIT off.
pub proof fn lemma_offsets_off(m: RadioStateModel)
    ensures
        !m.rit_enabled ==> rx_frequency_of(m) == m.frequency,
        !m.xit_enabled ==> tx_frequency_of(m) == m.frequency,
        rx_frequency_of(next_state(m, RadioEvent::ClearRit)) == m.frequency,
{
}

} // verus!
