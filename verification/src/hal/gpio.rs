//! GPIO state machines
//!
//! The status LED, the T/R relay, the LPF bank selector and the debounced
//! encoder push button. Each method returns the pin level the caller must
//! drive, or takes the level the caller has read.

use vstd::prelude::*;

verus! {

/// Status LED state
#[derive(Clone, Copy, Debug, PartialEq, Eq, Structural, Default)]
pub enum LedState {
    /// LED is off
    #[default]
    Off,
    /// LED is on
    On,
}

impl LedState {
    /// Toggle the LED state
    #[verifier::allow_in_spec]
    pub fn toggle(self) -> LedState
        returns
            (match self {
                LedState::Off => LedState::On,
                LedState::On => LedState::Off,
            }),
    {
        match self {
            Self::Off => Self::On,
            Self::On => Self::Off,
        }
    }
}

/// Status LED: the state it shows; each change returns the level to drive
/// (high for on).
#[derive(Clone, Copy, Debug)]
pub struct StatusLed {
    state: LedState,
}

impl StatusLed {
    /// Create a new status LED (initially off)
    pub fn new() -> (r: Self)
        ensures
            r.spec_state() == LedState::Off,
    {
        Self { state: LedState::Off }
    }

    /// The state the LED shows.
    pub closed spec fn spec_state(self) -> LedState {
        self.state
    }

    /// Turn LED on; returns the pin level (high)
    pub fn on(&mut self) -> (level: bool)
        ensures
            level,
            final(self).spec_state() == LedState::On,
    {
        self.state = LedState::On;
        true
    }

    /// Turn LED off; returns the pin level (low)
    pub fn off(&mut self) -> (level: bool)
        ensures
            !level,
            final(self).spec_state() == LedState::Off,
    {
        self.state = LedState::Off;
        false
    }

    /// Toggle LED state; returns the pin level to drive
    pub fn toggle(&mut self) -> (level: bool)
        ensures
            final(self).spec_state() == old(self).spec_state().toggle(),
            level <==> final(self).spec_state() == LedState::On,
    {
        match self.state {
            LedState::Off => self.on(),
            LedState::On => self.off(),
        }
    }

    /// Get current state
    pub fn state(&self) -> (r: LedState)
        ensures
            r == self.spec_state(),
    {
        self.state
    }
}

/// T/R relay control: whether the relay is in the transmit position; each
/// change returns the level to drive (high for transmit).
#[derive(Clone, Copy, Debug)]
pub struct TrRelay {
    is_tx: bool,
}

impl TrRelay {
    /// Create T/R relay control (starts in RX mode)
    pub fn new() -> (r: Self)
        ensures
            !r.spec_is_tx(),
    {
        Self { is_tx: false }
    }

    /// Whether the relay is in the transmit position.
    pub closed spec fn spec_is_tx(self) -> bool {
        self.is_tx
    }

    /// Switch to transmit mode; returns the pin level (high)
    pub fn set_tx(&mut self) -> (level: bool)
        ensures
            level,
            final(self).spec_is_tx(),
    {
        self.is_tx = true;
        true
    }

    /// Switch to receive mode; returns the pin level (low)
    pub fn set_rx(&mut self) -> (level: bool)
        ensures
            !level,
            !final(self).spec_is_tx(),
    {
        self.is_tx = false;
        false
    }

    /// Check if in transmit mode
    pub fn is_tx(&self) -> (r: bool)
        ensures
            r == self.spec_is_tx(),
    {
        self.is_tx
    }
}

/// Levels of the three LPF bank select lines.
#[derive(Clone, Copy, Debug, PartialEq, Eq, Structural)]
pub struct LpfPins {
    /// SEL0 (bit 0 of the bank number)
    pub sel0: bool,
    /// SEL1 (bit 1 of the bank number)
    pub sel1: bool,
    /// SEL2 (bit 2 of the bank number)
    pub sel2: bool,
}

/// The select-line levels that encode `bank` in binary.
pub open spec fn lpf_pins_for(bank: u8) -> LpfPins {
    LpfPins { sel0: bank % 2 == 1, sel1: (bank / 2) % 2 == 1, sel2: (bank / 4) % 2 == 1 }
}

/// The LPF bank that covers `freq_hz`.
pub open spec fn lpf_bank_for(freq_hz: u32) -> u8 {
    if freq_hz <= 5_000_000 {
        0
    } else if freq_hz <= 8_000_000 {
        1
    } else if freq_hz <= 16_000_000 {
        2
    } else if freq_hz <= 19_000_000 {
        3
    } else {
        4
    }
}

/// LPF (Low Pass Filter) bank selector
///
/// Controls the 5-bank LPF using 3 GPIO pins for binary selection.
#[derive(Clone, Copy, Debug)]
pub struct LpfSelector {
    current_bank: u8,
}

impl LpfSelector {
    /// Create LPF selector (bank 0 selected, all select lines low)
    pub fn new() -> (r: Self)
        ensures
            r.spec_current() == 0,
    {
        Self { current_bank: 0 }
    }

    /// The selected bank.
    pub closed spec fn spec_current(self) -> u8 {
        self.current_bank
    }

    /// Select LPF bank (0-4; larger numbers select bank 4); returns the
    /// select-line levels to drive
    pub fn select(&mut self, bank: u8) -> (pins: LpfPins)
        ensures
            final(self).spec_current() == (if bank < 4 { bank } else { 4u8 }),
            pins == lpf_pins_for(final(self).spec_current()),
    {
        let bank = if bank < 4 { bank } else { 4 };
        self.current_bank = bank;
        let sel0 = bank & 0x01 != 0;
        let sel1 = bank & 0x02 != 0;
        let sel2 = bank & 0x04 != 0;
        assert(sel0 == (bank % 2 == 1) && sel1 == ((bank / 2) % 2 == 1) && sel2 == ((bank / 4) % 2 == 1)) by (bit_vector)
            requires
                bank <= 4,
                sel0 == (bank & 0x01 != 0),
                sel1 == (bank & 0x02 != 0),
                sel2 == (bank & 0x04 != 0),
        ;
        LpfPins { sel0, sel1, sel2 }
    }

    /// Get currently selected bank
    pub fn current(&self) -> (r: u8)
        ensures
            r == self.spec_current(),
    {
        self.current_bank
    }

    /// Select bank for frequency; returns the select-line levels to drive
    pub fn select_for_frequency(&mut self, freq_hz: u32) -> (pins: LpfPins)
        ensures
            final(self).spec_current() == lpf_bank_for(freq_hz),
            pins == lpf_pins_for(lpf_bank_for(freq_hz)),
    {
        let bank: u8 = if freq_hz <= 5_000_000 {
            0
        } else if freq_hz <= 8_000_000 {
            1
        } else if freq_hz <= 16_000_000 {
            2
        } else if freq_hz <= 19_000_000 {
            3
        } else {
            4
        };
        self.select(bank)
    }
}

/// Encoder button state
#[derive(Clone, Copy, Debug, PartialEq, Eq, Structural)]
pub enum ButtonState {
    /// Button is released
    Released,
    /// Button is pressed
    Pressed,
}

/// Consecutive equal reads needed before a button level is believed.
pub const DEBOUNCE_THRESHOLD: u8 = 3;

/// Mathematical model of the debounced button.
pub struct EncoderButtonModel {
    pub state: ButtonState,
    pub last_raw: bool,
    pub debounce_count: u8,
}

/// The button after one read of the pin (`pressed` when the pin is low) and
/// whether its debounced state changed.
pub open spec fn button_update(m: EncoderButtonModel, pressed: bool) -> (EncoderButtonModel, bool) {
    let (last_raw, count) = if pressed == m.last_raw {
        (m.last_raw, if m.debounce_count < DEBOUNCE_THRESHOLD { (m.debounce_count + 1) as u8 } else { m.debounce_count })
    } else {
        (pressed, 0u8)
    };
    let new_state = if pressed { ButtonState::Pressed } else { ButtonState::Released };
    if count >= DEBOUNCE_THRESHOLD && new_state != m.state {
        (EncoderButtonModel { state: new_state, last_raw, debounce_count: count }, true)
    } else {
        (EncoderButtonModel { state: m.state, last_raw, debounce_count: count }, false)
    }
}

/// Encoder push button with debouncing (active low)
#[derive(Clone, Copy, Debug)]
pub struct EncoderButton {
    state: ButtonState,
    last_raw: bool,
    debounce_count: u8,
}

impl View for EncoderButton {
    type V = EncoderButtonModel;

    closed spec fn view(&self) -> EncoderButtonModel {
        EncoderButtonModel { state: self.state, last_raw: self.last_raw, debounce_count: self.debounce_count }
    }
}

impl EncoderButton {
    /// Create encoder button (released; the line idles high)
    pub fn new() -> (r: Self)
        ensures
            r@ == (EncoderButtonModel { state: ButtonState::Released, last_raw: true, debounce_count: 0 }),
    {
        Self { state: ButtonState::Released, last_raw: true, debounce_count: 0 }
    }

    /// Update button state with the pin just read (`pin_low` when the line
    /// is low, that is pressed). Returns true if the debounced state changed.
    pub fn update(&mut self, pin_low: bool) -> (changed: bool)
        ensures
            (final(self)@, changed) == button_update(old(self)@, pin_low),
    {
        let current = pin_low;
        if current == self.last_raw {
            if self.debounce_count < DEBOUNCE_THRESHOLD {
                self.debounce_count += 1;
            }
        } else {
            self.debounce_count = 0;
            self.last_raw = current;
        }
        if self.debounce_count >= DEBOUNCE_THRESHOLD {
            let new_state = if current { ButtonState::Pressed } else { ButtonState::Released };
            if new_state != self.state {
                self.state = new_state;
                return true;
            }
        }
        false
    }

    /// Get current state
    pub fn state(&self) -> (r: ButtonState)
        ensures
            r == self@.state,
    {
        self.state
    }

    /// Check if pressed
    pub fn is_pressed(&self) -> (r: bool)
        ensures
            r <==> self@.state == ButtonState::Pressed,
    {
        matches!(self.state, ButtonState::Pressed)
    }
}

/// A level held long enough becomes the button's state: the first read of
/// a new level restarts the count, and three more reads of it settle the
/// state, so after four reads of the same level the state follows it.
pub proof fn lemma_button_settles(m: EncoderButtonModel, pressed: bool)
    ensures
        ({
            let (m1, _) = button_update(m, pressed);
            let (m2, _) = button_update(m1, pressed);
            let (m3, _) = button_update(m2, pressed);
            let (m4, _) = button_update(m3, pressed);
            m4.state == (if pressed { ButtonState::Pressed } else { ButtonState::Released })
        }),
{
}

/// A single read that differs from the previous one never changes the
/// debounced state.
pub proof fn lemma_button_glitch_ignored(m: EncoderButtonModel, pressed: bool)
    requires
        pressed != m.last_raw,
    ensures
        button_update(m, pressed).0.state == m.state,
        !button_update(m, pressed).1,
{
}

} // verus!
