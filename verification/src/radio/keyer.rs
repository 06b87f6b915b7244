//! CW Keyer Module
//!
//! Iambic keying (Mode A and B), straight key, bug and ultimatic modes,
//! and a Morse character encoder.
//!
//! # Iambic Keying
//!
//! Iambic keyers use squeeze paddles where pressing both paddles
//! alternates between dit and dah. Mode A releases at element end,
//! Mode B adds one more element after release.

use vstd::prelude::*;

verus! {

/// Keyer operating mode
#[derive(Clone, Copy, Debug, PartialEq, Eq, Structural, Default)]
pub enum KeyerMode {
    /// Straight key (manual timing)
    Straight,
    /// Iambic Mode A (stop at element boundary)
    #[default]
    IambicA,
    /// Iambic Mode B (add element after release)
    IambicB,
    /// Bug mode (auto dits, manual dahs)
    Bug,
    /// Ultimatic mode (last paddle pressed wins)
    Ultimatic,
}

/// Paddle input state
#[derive(Clone, Copy, Debug, PartialEq, Eq, Structural, Default)]
pub struct PaddleState {
    /// Dit paddle pressed
    pub dit: bool,
    /// Dah paddle pressed
    pub dah: bool,
}

impl PaddleState {
    /// Create new paddle state
    pub fn new(dit: bool, dah: bool) -> (r: Self)
        ensures
            r == (PaddleState { dit, dah }),
    {
        Self { dit, dah }
    }

    /// Check if both paddles are pressed (squeeze)
    #[verifier::allow_in_spec]
    pub fn is_squeeze(&self) -> bool
        returns
            self.dit && self.dah,
    {
        self.dit && self.dah
    }

    /// Check if any paddle is pressed
    pub fn is_pressed(&self) -> (r: bool)
        ensures
            r == (self.dit || self.dah),
    {
        self.dit || self.dah
    }

    /// Check if no paddle is pressed
    pub fn is_idle(&self) -> (r: bool)
        ensures
            r == (!self.dit && !self.dah),
    {
        !self.dit && !self.dah
    }
}

/// Current element being sent
#[derive(Clone, Copy, Debug, PartialEq, Eq, Structural, Default)]
pub enum Element {
    /// No element (idle or inter-element gap)
    #[default]
    NoElement,
    /// Dit (1 unit)
    Dit,
    /// Dah (3 units)
    Dah,
    /// Inter-element gap (1 unit)
    ElementGap,
    /// Inter-character gap (3 units, 2 additional after element gap)
    CharGap,
    /// Inter-word gap (7 units, 4 additional after char gap)
    WordGap,
}

impl Element {
    /// Get duration in timing units (at 1 WPM, 1 unit = 1200ms)
    #[verifier::allow_in_spec]
    pub fn units(&self) -> u32
        returns
            (match *self {
                Element::NoElement => 0u32,
                Element::Dit => 1u32,
                Element::Dah => 3u32,
                Element::ElementGap => 1u32,
                Element::CharGap => 2u32,
                Element::WordGap => 4u32,
            }),
    {
        match self {
            Self::NoElement => 0,
            Self::Dit => 1,
            Self::Dah => 3,
            Self::ElementGap => 1,
            Self::CharGap => 2,
            Self::WordGap => 4,
        }
    }

    /// Check if this element produces a tone
    #[verifier::allow_in_spec]
    pub fn is_tone(&self) -> bool
        returns
            (*self == Element::Dit || *self == Element::Dah),
    {
        matches!(self, Self::Dit | Self::Dah)
    }
}

/// Keyer state machine state
#[derive(Clone, Copy, Debug, PartialEq, Eq, Structural, Default)]
pub enum KeyerState {
    /// Idle, waiting for input
    #[default]
    Idle,
    /// Sending a dit
    SendingDit,
    /// Sending a dah
    SendingDah,
    /// Inter-element gap
    ElementGap,
    /// Waiting for next element (Mode B check)
    WaitNext,
}

/// Mathematical model of a keyer.
pub struct KeyerModel {
    pub mode: KeyerMode,
    pub wpm: u8,
    pub sample_rate: u32,
    pub state: KeyerState,
    pub samples_remaining: u32,
    pub last_element: Element,
    pub paddle_at_start: PaddleState,
    pub dit_memory: bool,
    pub dah_memory: bool,
    pub weight: u8,
    pub sidetone_freq: u16,
    pub key_down: bool,
}

/// Highest sample rate at which every element length fits in 32 bits at
/// every speed and weighting the keyer accepts.
pub const KEYER_MAX_SAMPLE_RATE: u32 = 17_895_697;

/// Samples in one timing unit: 1200 / WPM milliseconds at the sample rate.
pub open spec fn samples_per_unit_of(m: KeyerModel) -> int {
    (1200int / (m.wpm as int)) * m.sample_rate / 1000
}

/// Samples that element `e` lasts: tones scaled by the weighting, gaps by
/// its complement.
pub open spec fn samples_for_element_of(m: KeyerModel, e: Element) -> int {
    let base = samples_per_unit_of(m) * e.units();
    if e.is_tone() {
        base * m.weight / 50
    } else {
        base * (100 - m.weight) / 50
    }
}

/// The keyer after starting element `e`.
pub open spec fn start_element_of(m: KeyerModel, e: Element) -> KeyerModel {
    KeyerModel {
        samples_remaining: samples_for_element_of(m, e) as u32,
        key_down: e.is_tone(),
        state: match e {
            Element::Dit => KeyerState::SendingDit,
            Element::Dah => KeyerState::SendingDah,
            _ => KeyerState::Idle,
        },
        last_element: e,
        ..m
    }
}

/// The keyer after a finished tone element moves to the inter-element gap.
pub open spec fn begin_gap_of(m: KeyerModel) -> KeyerModel {
    KeyerModel {
        state: KeyerState::ElementGap,
        samples_remaining: samples_for_element_of(m, Element::ElementGap) as u32,
        key_down: false,
        ..m
    }
}

/// Whether both paddle memories are set and the opposite of the last
/// element, a dah, is due (squeezed paddles alternate).
pub open spec fn dah_due_first(m: KeyerModel) -> bool {
    m.dit_memory && m.dah_memory && m.last_element == Element::Dit
}

/// Start the element that a dit or dah memory asks for and clear that
/// memory: with both set, the opposite of the last element (a dit unless
/// the last was a dit); go idle when neither is set.
pub open spec fn start_from_memory(m: KeyerModel, p: PaddleState, idle_otherwise: bool) -> KeyerModel {
    if m.dit_memory && !dah_due_first(m) {
        KeyerModel { dit_memory: false, paddle_at_start: p, ..start_element_of(m, Element::Dit) }
    } else if m.dah_memory {
        KeyerModel { dah_memory: false, paddle_at_start: p, ..start_element_of(m, Element::Dah) }
    } else if idle_otherwise {
        KeyerModel { state: KeyerState::Idle, ..m }
    } else {
        m
    }
}

/// Mode B continuation: after a squeezed element, queue the opposite one.
pub open spec fn mode_b_memory(m: KeyerModel) -> KeyerModel {
    let w = KeyerModel { state: KeyerState::WaitNext, ..m };
    if w.paddle_at_start.is_squeeze() {
        if w.last_element == Element::Dit && !w.dah_memory {
            KeyerModel { dah_memory: true, ..w }
        } else if w.last_element == Element::Dah && !w.dit_memory {
            KeyerModel { dit_memory: true, ..w }
        } else {
            w
        }
    } else {
        w
    }
}

/// One sample of iambic keying (Mode B when `mode_b`).
pub open spec fn iambic_step(m: KeyerModel, p: PaddleState, mode_b: bool) -> KeyerModel {
    if m.samples_remaining > 0 {
        KeyerModel { samples_remaining: (m.samples_remaining - 1) as u32, ..m }
    } else {
        match m.state {
            KeyerState::Idle => start_from_memory(m, p, false),
            KeyerState::SendingDit | KeyerState::SendingDah => begin_gap_of(m),
            KeyerState::ElementGap => {
                let b = if mode_b { mode_b_memory(m) } else { m };
                start_from_memory(b, p, true)
            },
            KeyerState::WaitNext => KeyerModel { state: KeyerState::Idle, ..m },
        }
    }
}

/// One sample of bug keying: automatic dits, manual dahs.
pub open spec fn bug_step(m: KeyerModel, p: PaddleState) -> KeyerModel {
    if m.samples_remaining > 0 {
        KeyerModel { samples_remaining: (m.samples_remaining - 1) as u32, ..m }
    } else {
        match m.state {
            KeyerState::Idle => if p.dit {
                start_element_of(m, Element::Dit)
            } else if p.dah {
                KeyerModel { key_down: true, state: KeyerState::SendingDah, ..m }
            } else {
                m
            },
            KeyerState::SendingDit => begin_gap_of(m),
            KeyerState::SendingDah => if !p.dah {
                KeyerModel { key_down: false, state: KeyerState::Idle, ..m }
            } else {
                m
            },
            KeyerState::ElementGap => if p.dit {
                start_element_of(m, Element::Dit)
            } else {
                KeyerModel { state: KeyerState::Idle, ..m }
            },
            KeyerState::WaitNext => KeyerModel { state: KeyerState::Idle, ..m },
        }
    }
}

/// One sample of ultimatic keying: the last paddle pressed wins.
pub open spec fn ultimatic_step(m: KeyerModel, p: PaddleState) -> KeyerModel {
    if m.samples_remaining > 0 {
        KeyerModel { samples_remaining: (m.samples_remaining - 1) as u32, ..m }
    } else {
        match m.state {
            KeyerState::Idle => if p.dit && !p.dah {
                start_element_of(m, Element::Dit)
            } else if p.dah {
                start_element_of(m, Element::Dah)
            } else {
                m
            },
            KeyerState::SendingDit | KeyerState::SendingDah => begin_gap_of(m),
            KeyerState::ElementGap => if p.dah {
                start_element_of(m, Element::Dah)
            } else if p.dit {
                start_element_of(m, Element::Dit)
            } else {
                KeyerModel { state: KeyerState::Idle, ..m }
            },
            KeyerState::WaitNext => KeyerModel { state: KeyerState::Idle, ..m },
        }
    }
}

/// One sample of straight keying: the dit paddle is the key.
pub open spec fn straight_step(m: KeyerModel, p: PaddleState) -> KeyerModel {
    KeyerModel {
        key_down: p.dit,
        state: if p.dit { KeyerState::SendingDit } else { KeyerState::Idle },
        ..m
    }
}

/// The keyer after processing one sample of paddle input.
pub open spec fn keyer_step(m: KeyerModel, p: PaddleState) -> KeyerModel {
    let m1 = KeyerModel {
        dit_memory: m.dit_memory || p.dit,
        dah_memory: m.dah_memory || p.dah,
        ..m
    };
    match m1.mode {
        KeyerMode::Straight => straight_step(m1, p),
        KeyerMode::IambicA => iambic_step(m1, p, false),
        KeyerMode::IambicB => iambic_step(m1, p, true),
        KeyerMode::Bug => bug_step(m1, p),
        KeyerMode::Ultimatic => ultimatic_step(m1, p),
    }
}

/// The key is down exactly while a tone element is being sent.
pub open spec fn key_follows_state(m: KeyerModel) -> bool {
    m.key_down <==> (m.state == KeyerState::SendingDit || m.state == KeyerState::SendingDah)
}

/// CW Keyer with iambic support
#[derive(Debug)]
pub struct Keyer {
    /// Operating mode
    mode: KeyerMode,
    /// Speed in WPM
    wpm: u8,
    /// Sample rate in Hz
    sample_rate: u32,
    /// Current state
    state: KeyerState,
    /// Samples remaining in current element
    samples_remaining: u32,
    /// Last element sent (for alternation)
    last_element: Element,
    /// Paddle state at element start (for Mode B)
    paddle_at_start: PaddleState,
    /// Memory for squeeze detection
    dit_memory: bool,
    /// Memory for squeeze detection
    dah_memory: bool,
    /// Weighting (50 = standard, <50 = lighter, >50 = heavier)
    weight: u8,
    /// Sidetone frequency in Hz
    sidetone_freq: u16,
    /// Current output state (key down)
    key_down: bool,
}

impl View for Keyer {
    type V = KeyerModel;

    closed spec fn view(&self) -> KeyerModel {
        KeyerModel {
            mode: self.mode,
            wpm: self.wpm,
            sample_rate: self.sample_rate,
            state: self.state,
            samples_remaining: self.samples_remaining,
            last_element: self.last_element,
            paddle_at_start: self.paddle_at_start,
            dit_memory: self.dit_memory,
            dah_memory: self.dah_memory,
            weight: self.weight,
            sidetone_freq: self.sidetone_freq,
            key_down: self.key_down,
        }
    }
}

/// The limits every keyer respects: speed 5 to 50 WPM, weighting 25 to 75,
/// and a sample rate at which element lengths fit in 32 bits.
pub open spec fn keyer_limits(m: KeyerModel) -> bool {
    &&& 5 <= m.wpm <= 50
    &&& 25 <= m.weight <= 75
    &&& m.sample_rate <= KEYER_MAX_SAMPLE_RATE
}

impl Keyer {
    /// Default speed
    pub const DEFAULT_WPM: u8 = 20;

    /// Minimum speed
    pub const MIN_WPM: u8 = 5;

    /// Maximum speed
    pub const MAX_WPM: u8 = 50;

    /// Default sidetone frequency
    pub const DEFAULT_SIDETONE_HZ: u16 = 700;

    #[verifier::type_invariant]
    spec fn within_limits(self) -> bool {
        keyer_limits(self@)
    }

    /// Create a new keyer
    pub fn new(sample_rate: u32) -> (r: Self)
        requires
            sample_rate <= KEYER_MAX_SAMPLE_RATE,
        ensures
            r@ == (KeyerModel {
                mode: KeyerMode::IambicA,
                wpm: 20,
                sample_rate,
                state: KeyerState::Idle,
                samples_remaining: 0,
                last_element: Element::NoElement,
                paddle_at_start: PaddleState { dit: false, dah: false },
                dit_memory: false,
                dah_memory: false,
                weight: 50,
                sidetone_freq: 700,
                key_down: false,
            }),
    {
        Self {
            mode: KeyerMode::IambicA,
            wpm: 20,
            sample_rate,
            state: KeyerState::Idle,
            samples_remaining: 0,
            last_element: Element::NoElement,
            paddle_at_start: PaddleState { dit: false, dah: false },
            dit_memory: false,
            dah_memory: false,
            weight: 50,
            sidetone_freq: 700,
            key_down: false,
        }
    }

    /// Set keyer mode
    pub fn set_mode(&mut self, mode: KeyerMode)
        ensures
            final(self)@ == (KeyerModel { mode, ..old(self)@ }),
    {
        proof {
            use_type_invariant(&*self);
        }
        self.mode = mode;
    }

    /// Get current mode
    pub fn mode(&self) -> (r: KeyerMode)
        ensures
            r == self@.mode,
    {
        self.mode
    }

    /// Set speed in WPM
    pub fn set_wpm(&mut self, wpm: u8)
        ensures
            final(self)@ == (KeyerModel {
                wpm: if wpm < 5 { 5u8 } else if wpm > 50 { 50u8 } else { wpm },
                ..old(self)@
            }),
    {
        proof {
            use_type_invariant(&*self);
        }
        self.wpm = if wpm < Self::MIN_WPM {
            Self::MIN_WPM
        } else if wpm > Self::MAX_WPM {
            Self::MAX_WPM
        } else {
            wpm
        };
    }

    /// Get current speed
    pub fn wpm(&self) -> (r: u8)
        ensures
            r == self@.wpm,
    {
        self.wpm
    }

    /// Set weighting (50 = standard)
    pub fn set_weight(&mut self, weight: u8)
        ensures
            final(self)@ == (KeyerModel {
                weight: if weight < 25 { 25u8 } else if weight > 75 { 75u8 } else { weight },
                ..old(self)@
            }),
    {
        proof {
            use_type_invariant(&*self);
        }
        self.weight = if weight < 25 {
            25
        } else if weight > 75 {
            75
        } else {
            weight
        };
    }

    /// Get current weighting
    pub fn weight(&self) -> (r: u8)
        ensures
            r == self@.weight,
    {
        self.weight
    }

    /// Set sidetone frequency
    pub fn set_sidetone(&mut self, freq: u16)
        ensures
            final(self)@ == (KeyerModel {
                sidetone_freq: if freq < 300 { 300u16 } else if freq > 1200 { 1200u16 } else { freq },
                ..old(self)@
            }),
    {
        proof {
            use_type_invariant(&*self);
        }
        self.sidetone_freq = if freq < 300 {
            300
        } else if freq > 1200 {
            1200
        } else {
            freq
        };
    }

    /// Get sidetone frequency
    pub fn sidetone(&self) -> (r: u16)
        ensures
            r == self@.sidetone_freq,
    {
        self.sidetone_freq
    }

    /// Check if key is currently down
    pub fn is_key_down(&self) -> (r: bool)
        ensures
            r == self@.key_down,
    {
        self.key_down
    }

    /// Check if keyer is idle
    pub fn is_idle(&self) -> (r: bool)
        ensures
            r <==> self@.state == KeyerState::Idle,
    {
        matches!(self.state, KeyerState::Idle)
    }

    /// Calculate samples per timing unit at current WPM
    pub fn samples_per_unit(&self) -> (r: u32)
        ensures
            r == samples_per_unit_of(self@),
            r <= 4_294_967,
    {
        proof {
            use_type_invariant(self);
        }
        let wpm = self.wpm as u32;
        let ms_per_unit = 1200 / wpm;
        assert(ms_per_unit <= 240) by (nonlinear_arith)
            requires
                wpm >= 5,
                ms_per_unit == 1200u32 / wpm,
        ;
        assert(ms_per_unit * self.sample_rate <= 240 * KEYER_MAX_SAMPLE_RATE) by (nonlinear_arith)
            requires
                ms_per_unit <= 240,
                self.sample_rate <= KEYER_MAX_SAMPLE_RATE,
        ;
        ms_per_unit * self.sample_rate / 1000
    }

    /// Calculate samples for an element with weighting
    fn samples_for_element(&self, element: Element) -> (r: u32)
        ensures
            r == samples_for_element_of(self@, element),
    {
        proof {
            use_type_invariant(self);
        }
        let spu = self.samples_per_unit();
        let units = element.units();
        assert(spu * units <= 17_179_868) by (nonlinear_arith)
            requires
                spu <= 4_294_967,
                units <= 4,
        ;
        let base_samples = spu * units;
        if element.is_tone() {
            assert(base_samples * (self.weight as u32) <= 1_288_490_100) by (nonlinear_arith)
                requires
                    base_samples <= 17_179_868,
                    self.weight <= 75,
            ;
            base_samples * (self.weight as u32) / 50
        } else {
            assert(base_samples * (100 - self.weight as u32) <= 1_288_490_100) by (nonlinear_arith)
                requires
                    base_samples <= 17_179_868,
                    25 <= self.weight,
            ;
            base_samples * (100 - self.weight as u32) / 50
        }
    }

    /// Process paddle input and update state
    /// Returns true if key output changed
    pub fn process(&mut self, paddle: PaddleState) -> (r: bool)
        ensures
            final(self)@ == keyer_step(old(self)@, paddle),
            r == (old(self)@.key_down != final(self)@.key_down),
    {
        proof {
            use_type_invariant(&*self);
        }
        let old_key_down = self.key_down;

        if paddle.dit {
            self.dit_memory = true;
        }
        if paddle.dah {
            self.dah_memory = true;
        }

        match self.mode {
            KeyerMode::Straight => self.process_straight(paddle),
            KeyerMode::IambicA => self.process_iambic(paddle, false),
            KeyerMode::IambicB => self.process_iambic(paddle, true),
            KeyerMode::Bug => self.process_bug(paddle),
            KeyerMode::Ultimatic => self.process_ultimatic(paddle),
        }

        old_key_down != self.key_down
    }

    /// Process straight key mode
    fn process_straight(&mut self, paddle: PaddleState)
        ensures
            final(self)@ == straight_step(old(self)@, paddle),
    {
        proof {
            use_type_invariant(&*self);
        }
        self.key_down = paddle.dit;
        self.state = if paddle.dit {
            KeyerState::SendingDit
        } else {
            KeyerState::Idle
        };
    }

    /// Start the element that a memory asks for, clearing that memory
    fn start_from_memory(&mut self, paddle: PaddleState, idle_otherwise: bool)
        ensures
            final(self)@ == start_from_memory(old(self)@, paddle, idle_otherwise),
    {
        proof {
            use_type_invariant(&*self);
        }
        let dah_first = self.dit_memory && self.dah_memory && self.last_element == Element::Dit;
        if self.dit_memory && !dah_first {
            self.start_element(Element::Dit);
            self.dit_memory = false;
            self.paddle_at_start = paddle;
        } else if self.dah_memory {
            self.start_element(Element::Dah);
            self.dah_memory = false;
            self.paddle_at_start = paddle;
        } else if idle_otherwise {
            self.state = KeyerState::Idle;
        }
    }

    /// Process iambic mode (A or B)
    fn process_iambic(&mut self, paddle: PaddleState, mode_b: bool)
        ensures
            final(self)@ == iambic_step(old(self)@, paddle, mode_b),
    {
        proof {
            use_type_invariant(&*self);
        }
        if self.samples_remaining > 0 {
            self.samples_remaining = self.samples_remaining - 1;
            return;
        }

        match self.state {
            KeyerState::Idle => {
                self.start_from_memory(paddle, false);
            },
            KeyerState::SendingDit | KeyerState::SendingDah => {
                self.state = KeyerState::ElementGap;
                self.samples_remaining = self.samples_for_element(Element::ElementGap);
                self.key_down = false;
            },
            KeyerState::ElementGap => {
                if mode_b {
                    self.state = KeyerState::WaitNext;
                    if self.paddle_at_start.is_squeeze() {
                        if self.last_element == Element::Dit && !self.dah_memory {
                            self.dah_memory = true;
                        } else if self.last_element == Element::Dah && !self.dit_memory {
                            self.dit_memory = true;
                        }
                    }
                }
                self.start_from_memory(paddle, true);
            },
            KeyerState::WaitNext => {
                self.state = KeyerState::Idle;
            },
        }
    }

    /// Process bug mode (auto dits, manual dahs)
    fn process_bug(&mut self, paddle: PaddleState)
        ensures
            final(self)@ == bug_step(old(self)@, paddle),
    {
        proof {
            use_type_invariant(&*self);
        }
        if self.samples_remaining > 0 {
            self.samples_remaining = self.samples_remaining - 1;
            return;
        }

        match self.state {
            KeyerState::Idle => {
                if paddle.dit {
                    self.start_element(Element::Dit);
                } else if paddle.dah {
                    self.key_down = true;
                    self.state = KeyerState::SendingDah;
                }
            },
            KeyerState::SendingDit => {
                self.state = KeyerState::ElementGap;
                self.samples_remaining = self.samples_for_element(Element::ElementGap);
                self.key_down = false;
            },
            KeyerState::SendingDah => {
                if !paddle.dah {
                    self.key_down = false;
                    self.state = KeyerState::Idle;
                }
            },
            KeyerState::ElementGap => {
                if paddle.dit {
                    self.start_element(Element::Dit);
                } else {
                    self.state = KeyerState::Idle;
                }
            },
            KeyerState::WaitNext => {
                self.state = KeyerState::Idle;
            },
        }
    }

    /// Process ultimatic mode (last paddle wins)
    fn process_ultimatic(&mut self, paddle: PaddleState)
        ensures
            final(self)@ == ultimatic_step(old(self)@, paddle),
    {
        proof {
            use_type_invariant(&*self);
        }
        if self.samples_remaining > 0 {
            self.samples_remaining = self.samples_remaining - 1;
            return;
        }

        match self.state {
            KeyerState::Idle => {
                if paddle.dit && !paddle.dah {
                    self.start_element(Element::Dit);
                } else if paddle.dah {
                    self.start_element(Element::Dah);
                }
            },
            KeyerState::SendingDit | KeyerState::SendingDah => {
                self.state = KeyerState::ElementGap;
                self.samples_remaining = self.samples_for_element(Element::ElementGap);
                self.key_down = false;
            },
            KeyerState::ElementGap => {
                if paddle.dah {
                    self.start_element(Element::Dah);
                } else if paddle.dit {
                    self.start_element(Element::Dit);
                } else {
                    self.state = KeyerState::Idle;
                }
            },
            KeyerState::WaitNext => {
                self.state = KeyerState::Idle;
            },
        }
    }

    /// Start sending an element
    fn start_element(&mut self, element: Element)
        ensures
            final(self)@ == start_element_of(old(self)@, element),
    {
        proof {
            use_type_invariant(&*self);
        }
        self.samples_remaining = self.samples_for_element(element);
        self.key_down = element.is_tone();
        self.state = match element {
            Element::Dit => KeyerState::SendingDit,
            Element::Dah => KeyerState::SendingDah,
            _ => KeyerState::Idle,
        };
        self.last_element = element;
    }

    /// Reset keyer to idle state
    pub fn reset(&mut self)
        ensures
            final(self)@ == (KeyerModel {
                state: KeyerState::Idle,
                samples_remaining: 0,
                key_down: false,
                dit_memory: false,
                dah_memory: false,
                ..old(self)@
            }),
    {
        proof {
            use_type_invariant(&*self);
        }
        self.state = KeyerState::Idle;
        self.samples_remaining = 0;
        self.key_down = false;
        self.dit_memory = false;
        self.dah_memory = false;
    }
}

impl Clone for Keyer {
    fn clone(&self) -> (r: Self)
        ensures
            r@ == self@,
    {
        proof {
            use_type_invariant(self);
        }
        Keyer {
            mode: self.mode,
            wpm: self.wpm,
            sample_rate: self.sample_rate,
            state: self.state,
            samples_remaining: self.samples_remaining,
            last_element: self.last_element,
            paddle_at_start: self.paddle_at_start,
            dit_memory: self.dit_memory,
            dah_memory: self.dah_memory,
            weight: self.weight,
            sidetone_freq: self.sidetone_freq,
            key_down: self.key_down,
        }
    }
}

impl Default for Keyer {
    fn default() -> (r: Self)
        ensures
            r@.sample_rate == 48000,
            r@.wpm == 20,
            r@.mode == KeyerMode::IambicA,
            r@.state == KeyerState::Idle,
            !r@.key_down,
    {
        Self::new(48000)
    }
}

/// The key-down output follows the keyer state after every sample of
/// input: it is down exactly while a dit or dah is being sent.
pub proof fn lemma_step_keeps_key_follows_state(m: KeyerModel, p: PaddleState)
    requires
        key_follows_state(m),
    ensures
        key_follows_state(keyer_step(m, p)),
{
}

/// While an element or gap is still running, a sample only counts it down:
/// nothing else changes but the paddle memories.
pub proof fn lemma_step_counts_down(m: KeyerModel, p: PaddleState)
    requires
        m.samples_remaining > 0,
        m.mode != KeyerMode::Straight,
    ensures
        keyer_step(m, p).samples_remaining == m.samples_remaining - 1,
        keyer_step(m, p).state == m.state,
        keyer_step(m, p).key_down == m.key_down,
{
}

/// Squeezed paddles alternate: when the gap after an element ends with both
/// paddles held, the next element is the opposite of the last one.
pub proof fn lemma_squeeze_alternates(m: KeyerModel)
    requires
        m.mode == KeyerMode::IambicA || m.mode == KeyerMode::IambicB,
        m.state == KeyerState::ElementGap,
        m.samples_remaining == 0,
        m.last_element == Element::Dit || m.last_element == Element::Dah,
    ensures
        ({
            let n = keyer_step(m, PaddleState { dit: true, dah: true });
            &&& m.last_element == Element::Dit ==> n.state == KeyerState::SendingDah
                && n.last_element == Element::Dah
            &&& m.last_element == Element::Dah ==> n.state == KeyerState::SendingDit
                && n.last_element == Element::Dit
        }),
{
}

/// A finished tone element is remembered as the last element sent.
pub proof fn lemma_tone_end_keeps_last_element(m: KeyerModel, p: PaddleState)
    requires
        m.mode == KeyerMode::IambicA || m.mode == KeyerMode::IambicB,
        m.state == KeyerState::SendingDit || m.state == KeyerState::SendingDah,
        m.samples_remaining == 0,
    ensures
        keyer_step(m, p).state == KeyerState::ElementGap,
        keyer_step(m, p).last_element == m.last_element,
{
}

/// A space is sent as one word gap, after which the encoder is idle and
/// stays so.
pub proof fn lemma_space_is_word_gap(m: MorseEncoderModel)
    requires
        m.current == morse_pattern(' '),
        m.position == 0,
    ensures
        next_element_of(m).0 == Some(Element::WordGap),
        next_element_of(m).1.current is None,
        next_element_of(next_element_of(m).1).0 is None,
{
}

/// A pressed paddle is remembered: after a sample with the dit paddle down,
/// the dit memory is set unless the sample started a dit from it.
pub proof fn lemma_dit_press_remembered(m: KeyerModel, p: PaddleState)
    requires
        p.dit,
        m.mode == KeyerMode::IambicA || m.mode == KeyerMode::IambicB,
    ensures
        keyer_step(m, p).dit_memory || keyer_step(m, p).state == KeyerState::SendingDit,
{
}

/// The Morse pattern of a character: dots and dashes as bytes, a space for
/// the word gap, nothing for characters outside the table. Letters are
/// looked up without regard to case.
pub open spec fn morse_pattern(c: char) -> Option<Seq<u8>> {
    match c {
        'A' | 'a' => Some(seq![46u8, 45u8]),
        'B' | 'b' => Some(seq![45u8, 46u8, 46u8, 46u8]),
        'C' | 'c' => Some(seq![45u8, 46u8, 45u8, 46u8]),
        'D' | 'd' => Some(seq![45u8, 46u8, 46u8]),
        'E' | 'e' => Some(seq![46u8]),
        'F' | 'f' => Some(seq![46u8, 46u8, 45u8, 46u8]),
        'G' | 'g' => Some(seq![45u8, 45u8, 46u8]),
        'H' | 'h' => Some(seq![46u8, 46u8, 46u8, 46u8]),
        'I' | 'i' => Some(seq![46u8, 46u8]),
        'J' | 'j' => Some(seq![46u8, 45u8, 45u8, 45u8]),
        'K' | 'k' => Some(seq![45u8, 46u8, 45u8]),
        'L' | 'l' => Some(seq![46u8, 45u8, 46u8, 46u8]),
        'M' | 'm' => Some(seq![45u8, 45u8]),
        'N' | 'n' => Some(seq![45u8, 46u8]),
        'O' | 'o' => Some(seq![45u8, 45u8, 45u8]),
        'P' | 'p' => Some(seq![46u8, 45u8, 45u8, 46u8]),
        'Q' | 'q' => Some(seq![45u8, 45u8, 46u8, 45u8]),
        'R' | 'r' => Some(seq![46u8, 45u8, 46u8]),
        'S' | 's' => Some(seq![46u8, 46u8, 46u8]),
        'T' | 't' => Some(seq![45u8]),
        'U' | 'u' => Some(seq![46u8, 46u8, 45u8]),
        'V' | 'v' => Some(seq![46u8, 46u8, 46u8, 45u8]),
        'W' | 'w' => Some(seq![46u8, 45u8, 45u8]),
        'X' | 'x' => Some(seq![45u8, 46u8, 46u8, 45u8]),
        'Y' | 'y' => Some(seq![45u8, 46u8, 45u8, 45u8]),
        'Z' | 'z' => Some(seq![45u8, 45u8, 46u8, 46u8]),
        '0' => Some(seq![45u8, 45u8, 45u8, 45u8, 45u8]),
        '1' => Some(seq![46u8, 45u8, 45u8, 45u8, 45u8]),
        '2' => Some(seq![46u8, 46u8, 45u8, 45u8, 45u8]),
        '3' => Some(seq![46u8, 46u8, 46u8, 45u8, 45u8]),
        '4' => Some(seq![46u8, 46u8, 46u8, 46u8, 45u8]),
        '5' => Some(seq![46u8, 46u8, 46u8, 46u8, 46u8]),
        '6' => Some(seq![45u8, 46u8, 46u8, 46u8, 46u8]),
        '7' => Some(seq![45u8, 45u8, 46u8, 46u8, 46u8]),
        '8' => Some(seq![45u8, 45u8, 45u8, 46u8, 46u8]),
        '9' => Some(seq![45u8, 45u8, 45u8, 45u8, 46u8]),
        '.' => Some(seq![46u8, 45u8, 46u8, 45u8, 46u8, 45u8]),
        ',' => Some(seq![45u8, 45u8, 46u8, 46u8, 45u8, 45u8]),
        '?' => Some(seq![46u8, 46u8, 45u8, 45u8, 46u8, 46u8]),
        '/' => Some(seq![45u8, 46u8, 46u8, 45u8, 46u8]),
        '=' => Some(seq![45u8, 46u8, 46u8, 46u8, 45u8]),
        ' ' => Some(seq![32u8]),
        _ => None,
    }
}

/// Mathematical model of the Morse encoder.
pub struct MorseEncoderModel {
    pub current: Option<Seq<u8>>,
    pub position: nat,
}

/// What the encoder emits next and the state it moves to: the dits and dahs
/// of the pattern, then the character gap; a space is sent as the word gap,
/// after which the encoder is idle.
pub open spec fn next_element_of(m: MorseEncoderModel) -> (Option<Element>, MorseEncoderModel) {
    match m.current {
        None => (None, m),
        Some(pat) => if m.position >= pat.len() {
            (Some(Element::CharGap), MorseEncoderModel { current: None, ..m })
        } else if pat[m.position as int] == 46u8 {
            (Some(Element::Dit), MorseEncoderModel { position: m.position + 1, ..m })
        } else if pat[m.position as int] == 45u8 {
            (Some(Element::Dah), MorseEncoderModel { position: m.position + 1, ..m })
        } else {
            (Some(Element::WordGap), MorseEncoderModel { current: None, ..m })
        },
    }
}

/// Morse code character encoder
pub struct MorseEncoder {
    /// Current character being sent
    current: Option<Vec<u8>>,
    /// Position within current character
    position: usize,
}

impl View for MorseEncoder {
    type V = MorseEncoderModel;

    closed spec fn view(&self) -> MorseEncoderModel {
        MorseEncoderModel {
            current: match self.current {
                Some(v) => Some(v@),
                None => None,
            },
            position: self.position as nat,
        }
    }
}

impl MorseEncoder {
    /// The position stays within the longest pattern (eight marks).
    #[verifier::type_invariant]
    closed spec fn position_bounded(self) -> bool {
        &&& self.position <= 8
        &&& self.current matches Some(v) ==> v@.len() <= 8
    }

    /// Create a new encoder
    pub fn new() -> (r: Self)
        ensures
            r@.current is None,
            r@.position == 0,
    {
        Self { current: None, position: 0 }
    }

    /// Load a character to send
    pub fn load(&mut self, c: char)
        ensures
            final(self)@.current == morse_pattern(c),
            final(self)@.position == 0,
    {
        proof {
            use_type_invariant(&*self);
        }
        self.position = 0;
        self.current = Self::char_to_morse(c);
    }

    /// Get next element to send
    pub fn next_element(&mut self) -> (r: Option<Element>)
        ensures
            r == next_element_of(old(self)@).0,
            final(self)@ == next_element_of(old(self)@).1,
    {
        proof {
            use_type_invariant(&*self);
        }
        let len = match &self.current {
            None => {
                return None;
            },
            Some(v) => v.len(),
        };
        if self.position >= len {
            self.current = None;
            return Some(Element::CharGap);
        }
        let b = match &self.current {
            Some(v) => v[self.position],
            None => 0,
        };
        let element = if b == 46u8 {
            Element::Dit
        } else if b == 45u8 {
            Element::Dah
        } else {
            // Word gap: the whole character is the gap
            self.current = None;
            return Some(Element::WordGap);
        };
        self.position = self.position + 1;
        Some(element)
    }

    /// Check if encoder is idle
    pub fn is_idle(&self) -> (r: bool)
        ensures
            r <==> self@.current is None,
    {
        self.current.is_none()
    }

    /// Convert character to Morse pattern
    fn char_to_morse(c: char) -> (r: Option<Vec<u8>>)
        ensures
            r is Some <==> morse_pattern(c) is Some,
            r matches Some(v) ==> morse_pattern(c) == Some(v@) && v@.len() <= 8,
    {
        let r = match c {
            'A' | 'a' => Some(vec![46u8, 45u8]),
            'B' | 'b' => Some(vec![45u8, 46u8, 46u8, 46u8]),
            'C' | 'c' => Some(vec![45u8, 46u8, 45u8, 46u8]),
            'D' | 'd' => Some(vec![45u8, 46u8, 46u8]),
            'E' | 'e' => Some(vec![46u8]),
            'F' | 'f' => Some(vec![46u8, 46u8, 45u8, 46u8]),
            'G' | 'g' => Some(vec![45u8, 45u8, 46u8]),
            'H' | 'h' => Some(vec![46u8, 46u8, 46u8, 46u8]),
            'I' | 'i' => Some(vec![46u8, 46u8]),
            'J' | 'j' => Some(vec![46u8, 45u8, 45u8, 45u8]),
            'K' | 'k' => Some(vec![45u8, 46u8, 45u8]),
            'L' | 'l' => Some(vec![46u8, 45u8, 46u8, 46u8]),
            'M' | 'm' => Some(vec![45u8, 45u8]),
            'N' | 'n' => Some(vec![45u8, 46u8]),
            'O' | 'o' => Some(vec![45u8, 45u8, 45u8]),
            'P' | 'p' => Some(vec![46u8, 45u8, 45u8, 46u8]),
            'Q' | 'q' => Some(vec![45u8, 45u8, 46u8, 45u8]),
            'R' | 'r' => Some(vec![46u8, 45u8, 46u8]),
            'S' | 's' => Some(vec![46u8, 46u8, 46u8]),
            'T' | 't' => Some(vec![45u8]),
            'U' | 'u' => Some(vec![46u8, 46u8, 45u8]),
            'V' | 'v' => Some(vec![46u8, 46u8, 46u8, 45u8]),
            'W' | 'w' => Some(vec![46u8, 45u8, 45u8]),
            'X' | 'x' => Some(vec![45u8, 46u8, 46u8, 45u8]),
            'Y' | 'y' => Some(vec![45u8, 46u8, 45u8, 45u8]),
            'Z' | 'z' => Some(vec![45u8, 45u8, 46u8, 46u8]),
            '0' => Some(vec![45u8, 45u8, 45u8, 45u8, 45u8]),
            '1' => Some(vec![46u8, 45u8, 45u8, 45u8, 45u8]),
            '2' => Some(vec![46u8, 46u8, 45u8, 45u8, 45u8]),
            '3' => Some(vec![46u8, 46u8, 46u8, 45u8, 45u8]),
            '4' => Some(vec![46u8, 46u8, 46u8, 46u8, 45u8]),
            '5' => Some(vec![46u8, 46u8, 46u8, 46u8, 46u8]),
            '6' => Some(vec![45u8, 46u8, 46u8, 46u8, 46u8]),
            '7' => Some(vec![45u8, 45u8, 46u8, 46u8, 46u8]),
            '8' => Some(vec![45u8, 45u8, 45u8, 46u8, 46u8]),
            '9' => Some(vec![45u8, 45u8, 45u8, 45u8, 46u8]),
            '.' => Some(vec![46u8, 45u8, 46u8, 45u8, 46u8, 45u8]),
            ',' => Some(vec![45u8, 45u8, 46u8, 46u8, 45u8, 45u8]),
            '?' => Some(vec![46u8, 46u8, 45u8, 45u8, 46u8, 46u8]),
            '/' => Some(vec![45u8, 46u8, 46u8, 45u8, 46u8]),
            '=' => Some(vec![45u8, 46u8, 46u8, 46u8, 45u8]),
            ' ' => Some(vec![32u8]),
            _ => None,
        };
        r
    }
}

impl Default for MorseEncoder {
    fn default() -> (r: Self)
        ensures
            r@.current is None,
            r@.position == 0,
    {
        Self::new()
    }
}

/// Position of a Morse pattern in the binary Morse tree: the root is 1, a
/// dot goes to the left child (2i) and a dash to the right child (2i + 1).
pub open spec fn tree_index(p: Seq<u8>) -> int
    decreases p.len(),
{
    if p.len() == 0 {
        1
    } else {
        2 * tree_index(p.drop_last()) + if p.last() == 45u8 { 1int } else { 0int }
    }
}

/// The letters of the Morse tree in breadth-first order from index 2
/// (E, T, then I, A, N, M, ...); index 19 and 21 hold no Latin letter.
pub open spec fn morse_tree_letters() -> Seq<char> {
    seq![
        'E', 'T', 'I', 'A', 'N', 'M', 'S', 'U', 'R', 'W', 'D', 'K', 'G', 'O', 'H', 'V', 'F', '#',
        'L', '#', 'P', 'J', 'B', 'X', 'C', 'Y', 'Z', 'Q',
    ]
}

/// Whether a pattern is made of dots and dashes only.
pub open spec fn is_marks(p: Seq<u8>) -> bool {
    forall|i: int| 0 <= i < p.len() ==> p[i] == 46u8 || p[i] == 45u8
}

/// Every letter is sent as its international Morse code: one to four
/// marks whose place in the Morse tree is that letter, so distinct letters
/// get distinct codes; lower case is sent as upper case.
pub proof fn lemma_morse_letters(c: char)
    requires
        'A' <= c <= 'Z',
    ensures
        morse_pattern(c) is Some,
        is_marks(morse_pattern(c)->0),
        1 <= morse_pattern(c)->0.len() <= 4,
        2 <= tree_index(morse_pattern(c)->0) < 30,
        morse_tree_letters()[tree_index(morse_pattern(c)->0) - 2] == c,
        morse_pattern(((c as u32) + 32) as char) == morse_pattern(c),
{
    reveal_with_fuel(tree_index, 5);
    if c == 'A' {
        assert(morse_pattern(c)->0 =~= morse_pattern(c)->0);
    } else if c == 'B' {
        assert(morse_pattern(c)->0 =~= morse_pattern(c)->0);
    } else if c == 'C' {
        assert(morse_pattern(c)->0 =~= morse_pattern(c)->0);
    } else if c == 'D' {
        assert(morse_pattern(c)->0 =~= morse_pattern(c)->0);
    } else if c == 'E' {
        assert(morse_pattern(c)->0 =~= morse_pattern(c)->0);
    } else if c == 'F' {
        assert(morse_pattern(c)->0 =~= morse_pattern(c)->0);
    } else if c == 'G' {
        assert(morse_pattern(c)->0 =~= morse_pattern(c)->0);
    } else if c == 'H' {
        assert(morse_pattern(c)->0 =~= morse_pattern(c)->0);
    } else if c == 'I' {
        assert(morse_pattern(c)->0 =~= morse_pattern(c)->0);
    } else if c == 'J' {
        assert(morse_pattern(c)->0 =~= morse_pattern(c)->0);
    } else if c == 'K' {
        assert(morse_pattern(c)->0 =~= morse_pattern(c)->0);
    } else if c == 'L' {
        assert(morse_pattern(c)->0 =~= morse_pattern(c)->0);
    } else if c == 'M' {
        assert(morse_pattern(c)->0 =~= morse_pattern(c)->0);
    } else if c == 'N' {
        assert(morse_pattern(c)->0 =~= morse_pattern(c)->0);
    } else if c == 'O' {
        assert(morse_pattern(c)->0 =~= morse_pattern(c)->0);
    } else if c == 'P' {
        assert(morse_pattern(c)->0 =~= morse_pattern(c)->0);
    } else if c == 'Q' {
        assert(morse_pattern(c)->0 =~= morse_pattern(c)->0);
    } else if c == 'R' {
        assert(morse_pattern(c)->0 =~= morse_pattern(c)->0);
    } else if c == 'S' {
        assert(morse_pattern(c)->0 =~= morse_pattern(c)->0);
    } else if c == 'T' {
        assert(morse_pattern(c)->0 =~= morse_pattern(c)->0);
    } else if c == 'U' {
        assert(morse_pattern(c)->0 =~= morse_pattern(c)->0);
    } else if c == 'V' {
        assert(morse_pattern(c)->0 =~= morse_pattern(c)->0);
    } else if c == 'W' {
        assert(morse_pattern(c)->0 =~= morse_pattern(c)->0);
    } else if c == 'X' {
        assert(morse_pattern(c)->0 =~= morse_pattern(c)->0);
    } else if c == 'Y' {
        assert(morse_pattern(c)->0 =~= morse_pattern(c)->0);
    } else if c == 'Z' {
        assert(morse_pattern(c)->0 =~= morse_pattern(c)->0);
    }
}

/// Every digit is sent as its international Morse code: five marks, where
/// digit n from 1 to 5 is n dots then dashes, n from 6 to 9 is n - 5 dashes
/// then dots, and 0 is five dashes.
pub proof fn lemma_morse_digits(c: char)
    requires
        '0' <= c <= '9',
    ensures
        morse_pattern(c) is Some,
        morse_pattern(c)->0.len() == 5,
        forall|i: int|
            0 <= i < 5 ==> #[trigger] morse_pattern(c)->0[i] == if (1 <= (c as int) - 48 <= 5 && i < (c as int)
                - 48) || ((c as int) - 48 >= 6 && i >= (c as int) - 53) {
                46u8
            } else {
                45u8
            },
{
    if c == '0' {
        assert(morse_pattern(c)->0.len() == 5);
    } else if c == '1' {
        assert(morse_pattern(c)->0.len() == 5);
    } else if c == '2' {
        assert(morse_pattern(c)->0.len() == 5);
    } else if c == '3' {
        assert(morse_pattern(c)->0.len() == 5);
    } else if c == '4' {
        assert(morse_pattern(c)->0.len() == 5);
    } else if c == '5' {
        assert(morse_pattern(c)->0.len() == 5);
    } else if c == '6' {
        assert(morse_pattern(c)->0.len() == 5);
    } else if c == '7' {
        assert(morse_pattern(c)->0.len() == 5);
    } else if c == '8' {
        assert(morse_pattern(c)->0.len() == 5);
    } else if c == '9' {
        assert(morse_pattern(c)->0.len() == 5);
    }
}

/// In bug mode the dah is manual: while a dah is being sent, the key stays
/// down exactly as long as the dah paddle is held, and releasing it ends
/// the dah at once.
pub proof fn lemma_bug_dah_follows_paddle(m: KeyerModel, p: PaddleState)
    requires
        m.mode == KeyerMode::Bug,
        m.state == KeyerState::SendingDah,
        m.samples_remaining == 0,
        key_follows_state(m),
    ensures
        keyer_step(m, p).key_down == p.dah,
        keyer_step(m, p).state == if p.dah { KeyerState::SendingDah } else { KeyerState::Idle },
        keyer_step(m, p).samples_remaining == 0,
        keyer_step(m, p).mode == KeyerMode::Bug,
{
}

/// The keyer after `n` samples of the same paddle input.
pub open spec fn keyer_hold(m: KeyerModel, p: PaddleState, n: nat) -> KeyerModel
    decreases n,
{
    if n == 0 {
        m
    } else {
        keyer_step(keyer_hold(m, p, (n - 1) as nat), p)
    }
}

/// Holding only the dah paddle in bug mode from rest keys down on the
/// first sample and keeps the key down on every sample while it is held.
pub proof fn lemma_bug_dah_held(m: KeyerModel, n: nat)
    requires
        m.mode == KeyerMode::Bug,
        m.state == KeyerState::Idle,
        m.samples_remaining == 0,
        n >= 1,
    ensures
        keyer_hold(m, PaddleState { dit: false, dah: true }, n).key_down,
        keyer_hold(m, PaddleState { dit: false, dah: true }, n).state == KeyerState::SendingDah,
        keyer_hold(m, PaddleState { dit: false, dah: true }, n).samples_remaining == 0,
        keyer_hold(m, PaddleState { dit: false, dah: true }, n).mode == KeyerMode::Bug,
    decreases n,
{
    let p = PaddleState { dit: false, dah: true };
    if n > 1 {
        lemma_bug_dah_held(m, (n - 1) as nat);
        lemma_bug_dah_follows_paddle(keyer_hold(m, p, (n - 1) as nat), p);
    }
}

} // verus!
