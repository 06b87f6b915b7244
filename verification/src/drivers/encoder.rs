//! Rotary Encoder
//!
//! Quadrature decoding, tuning acceleration, the push button with long-press
//! detection, and bounded values that follow the knob. The application reads
//! the pins and hands their levels to [`Encoder::poll`].

use vstd::prelude::*;
use crate::hal::gpio::{ButtonState, EncoderButton, EncoderButtonModel, button_update};

verus! {

/// Encoder rotation direction
#[derive(Clone, Copy, Debug, PartialEq, Eq, Structural)]
pub enum Direction {
    /// Clockwise rotation (increment)
    Clockwise,
    /// Counter-clockwise rotation (decrement)
    CounterClockwise,
}

/// Encoder event
#[derive(Clone, Copy, Debug, PartialEq, Eq, Structural)]
pub enum EncoderEvent {
    /// Encoder rotated
    Rotate {
        /// Direction of rotation
        direction: Direction,
        /// Number of steps
        steps: u32,
    },
    /// Button pressed
    ButtonPress,
    /// Button released
    ButtonRelease,
    /// Button held for long press
    LongPress,
}

/// Encoder state machine states
#[derive(Clone, Copy, Debug, PartialEq, Eq, Structural, Default)]
pub enum EncoderState {
    /// Waiting for a step to begin
    #[default]
    Idle,
    /// First phase of a clockwise step seen
    CwStart,
    /// Second phase of a clockwise step seen
    CwNext,
    /// Third phase of a clockwise step seen
    CwFinal,
    /// First phase of a counter-clockwise step seen
    CcwStart,
    /// Second phase of a counter-clockwise step seen
    CcwNext,
    /// Third phase of a counter-clockwise step seen
    CcwFinal,
}

/// The decoder state after the lines change to (`a`, `b`), and the step
/// completed by that change, if any. Clockwise is 00 -> 01 -> 11 -> 10 -> 00,
/// counter-clockwise 00 -> 10 -> 11 -> 01 -> 00; any other change returns to
/// idle.
pub open spec fn quadrature_step(s: EncoderState, a: bool, b: bool) -> (EncoderState, Option<Direction>) {
    match (s, a, b) {
        (EncoderState::Idle, false, true) => (EncoderState::CwStart, None),
        (EncoderState::Idle, true, false) => (EncoderState::CcwStart, None),
        (EncoderState::CwStart, true, true) => (EncoderState::CwNext, None),
        (EncoderState::CwNext, true, false) => (EncoderState::CwFinal, None),
        (EncoderState::CwFinal, false, false) => (EncoderState::Idle, Some(Direction::Clockwise)),
        (EncoderState::CcwStart, true, true) => (EncoderState::CcwNext, None),
        (EncoderState::CcwNext, false, true) => (EncoderState::CcwFinal, None),
        (EncoderState::CcwFinal, false, false) => (EncoderState::Idle, Some(Direction::CounterClockwise)),
        _ => (EncoderState::Idle, None),
    }
}

/// Mathematical model of the quadrature decoder.
pub struct QuadratureModel {
    pub state: EncoderState,
    pub last_a: bool,
    pub last_b: bool,
}

/// The decoder after sampling (`a`, `b`), and the step it reports. Samples
/// equal to the previous ones are ignored.
pub open spec fn decoder_update(m: QuadratureModel, a: bool, b: bool) -> (QuadratureModel, Option<Direction>) {
    if a == m.last_a && b == m.last_b {
        (m, None)
    } else {
        let (s, r) = quadrature_step(m.state, a, b);
        (QuadratureModel { state: s, last_a: a, last_b: b }, r)
    }
}

/// Quadrature encoder decoder using state machine
#[derive(Clone, Copy, Debug)]
pub struct QuadratureDecoder {
    state: EncoderState,
    last_a: bool,
    last_b: bool,
}

impl View for QuadratureDecoder {
    type V = QuadratureModel;

    closed spec fn view(&self) -> QuadratureModel {
        QuadratureModel { state: self.state, last_a: self.last_a, last_b: self.last_b }
    }
}

impl QuadratureDecoder {
    /// Create a new quadrature decoder
    pub fn new() -> (r: Self)
        ensures
            r@ == (QuadratureModel { state: EncoderState::Idle, last_a: false, last_b: false }),
    {
        Self { state: EncoderState::Idle, last_a: false, last_b: false }
    }

    /// Current state of the step state machine
    pub fn state(&self) -> (r: EncoderState)
        ensures
            r == self@.state,
    {
        self.state
    }

    /// Update with new A/B pin states, returns direction if step completed
    pub fn update(&mut self, a: bool, b: bool) -> (r: Option<Direction>)
        ensures
            (final(self)@, r) == decoder_update(old(self)@, a, b),
    {
        if a == self.last_a && b == self.last_b {
            return None;
        }
        self.last_a = a;
        self.last_b = b;
        let (new_state, result) = match (self.state, a, b) {
            (EncoderState::Idle, false, true) => (EncoderState::CwStart, None),
            (EncoderState::Idle, true, false) => (EncoderState::CcwStart, None),
            (EncoderState::CwStart, true, true) => (EncoderState::CwNext, None),
            (EncoderState::CwNext, true, false) => (EncoderState::CwFinal, None),
            (EncoderState::CwFinal, false, false) => (EncoderState::Idle, Some(Direction::Clockwise)),
            (EncoderState::CcwStart, true, true) => (EncoderState::CcwNext, None),
            (EncoderState::CcwNext, false, true) => (EncoderState::CcwFinal, None),
            (EncoderState::CcwFinal, false, false) => (EncoderState::Idle, Some(Direction::CounterClockwise)),
            _ => (EncoderState::Idle, None),
        };
        self.state = new_state;
        result
    }

    /// Reset the decoder state
    pub fn reset(&mut self)
        ensures
            final(self)@ == (QuadratureModel { state: EncoderState::Idle, ..old(self)@ }),
    {
        self.state = EncoderState::Idle;
    }
}

impl Default for QuadratureDecoder {
    fn default() -> (r: Self)
        ensures
            r@ == (QuadratureModel { state: EncoderState::Idle, last_a: false, last_b: false }),
    {
        Self::new()
    }
}

/// A full clockwise detent from rest (00 -> 01 -> 11 -> 10 -> 00) reports
/// exactly one clockwise step, on its last edge, and leaves the decoder idle.
pub proof fn lemma_clockwise_detent(m: QuadratureModel)
    requires
        m.state == EncoderState::Idle,
        !m.last_a,
        !m.last_b,
    ensures
        ({
            let (m1, r1) = decoder_update(m, false, true);
            let (m2, r2) = decoder_update(m1, true, true);
            let (m3, r3) = decoder_update(m2, true, false);
            let (m4, r4) = decoder_update(m3, false, false);
            r1 is None && r2 is None && r3 is None && r4 == Some(Direction::Clockwise)
                && m4 == m
        }),
{
}

/// A full counter-clockwise detent from rest (00 -> 10 -> 11 -> 01 -> 00)
/// reports exactly one counter-clockwise step and leaves the decoder idle.
pub proof fn lemma_counter_clockwise_detent(m: QuadratureModel)
    requires
        m.state == EncoderState::Idle,
        !m.last_a,
        !m.last_b,
    ensures
        ({
            let (m1, r1) = decoder_update(m, true, false);
            let (m2, r2) = decoder_update(m1, true, true);
            let (m3, r3) = decoder_update(m2, false, true);
            let (m4, r4) = decoder_update(m3, false, false);
            r1 is None && r2 is None && r3 is None && r4 == Some(Direction::CounterClockwise)
                && m4 == m
        }),
{
}

/// A step is reported only on the return to 00, and only from the last
/// phase of a step.
pub proof fn lemma_step_only_on_rest(m: QuadratureModel, a: bool, b: bool)
    ensures
        decoder_update(m, a, b).1 is Some ==> !a && !b
            && (m.state == EncoderState::CwFinal || m.state == EncoderState::CcwFinal),
{
}

/// The largest step count the acceleration can build up to.
pub const MAX_ACCEL_COUNT: u32 = 10;

/// Mathematical model of the acceleration curve.
pub struct AccelerationModel {
    pub threshold_ms: u32,
    pub multiplier: u32,
    pub last_event_ms: u32,
    pub step_count: u32,
}

/// `now` minus `then` on the wrapping millisecond clock.
pub open spec fn elapsed_ms(now: u32, then: u32) -> u32 {
    if now >= then { (now - then) as u32 } else { (now - then + 0x1_0000_0000) as u32 }
}

/// The step count after one more fast event: one more, at most ten.
pub open spec fn next_accel_count(count: u32) -> u32 {
    if count >= MAX_ACCEL_COUNT { MAX_ACCEL_COUNT } else { (count + 1) as u32 }
}

/// The acceleration after an event at `now` and the number of steps that
/// event is worth.
pub open spec fn accel_process(m: AccelerationModel, now: u32) -> (AccelerationModel, u32) {
    if elapsed_ms(now, m.last_event_ms) < m.threshold_ms {
        let c = next_accel_count(m.step_count);
        (AccelerationModel { last_event_ms: now, step_count: c, ..m }, (1 + c * m.multiplier / 10) as u32)
    } else {
        (AccelerationModel { last_event_ms: now, step_count: 0, ..m }, 1)
    }
}

/// Acceleration curve for fast tuning
#[derive(Clone, Copy, Debug)]
pub struct AccelerationCurve {
    /// Time threshold for acceleration in milliseconds
    threshold_ms: u32,
    /// Multiplier when accelerating
    multiplier: u32,
    /// Last event timestamp
    last_event_ms: u32,
    /// Accumulated steps for acceleration
    step_count: u32,
}

impl View for AccelerationCurve {
    type V = AccelerationModel;

    closed spec fn view(&self) -> AccelerationModel {
        AccelerationModel {
            threshold_ms: self.threshold_ms,
            multiplier: self.multiplier,
            last_event_ms: self.last_event_ms,
            step_count: self.step_count,
        }
    }
}

impl AccelerationCurve {
    /// Create a new acceleration curve
    pub fn new(threshold_ms: u32, multiplier: u32) -> (r: Self)
        ensures
            r@ == (AccelerationModel { threshold_ms, multiplier, last_event_ms: 0, step_count: 0 }),
    {
        Self { threshold_ms, multiplier, last_event_ms: 0, step_count: 0 }
    }

    /// Time threshold for acceleration in milliseconds
    pub fn threshold_ms(&self) -> (r: u32)
        ensures
            r == self@.threshold_ms,
    {
        self.threshold_ms
    }

    /// Multiplier when accelerating
    pub fn multiplier(&self) -> (r: u32)
        ensures
            r == self@.multiplier,
    {
        self.multiplier
    }

    /// Accumulated steps for acceleration
    pub fn step_count(&self) -> (r: u32)
        ensures
            r == self@.step_count,
    {
        self.step_count
    }

    /// Process a step and return effective step count
    pub fn process(&mut self, current_ms: u32) -> (steps: u32)
        requires
            old(self)@.multiplier * MAX_ACCEL_COUNT <= u32::MAX,
        ensures
            (final(self)@, steps) == accel_process(old(self)@, current_ms),
    {
        let elapsed = current_ms.wrapping_sub(self.last_event_ms);
        assert(elapsed == elapsed_ms(current_ms, old(self).last_event_ms));
        self.last_event_ms = current_ms;
        if elapsed < self.threshold_ms {
            let c = if self.step_count >= MAX_ACCEL_COUNT { MAX_ACCEL_COUNT } else { self.step_count + 1 };
            self.step_count = c;
            assert(c * self.multiplier <= MAX_ACCEL_COUNT * self.multiplier) by (nonlinear_arith)
                requires
                    c <= MAX_ACCEL_COUNT,
            ;
            1 + (self.step_count * self.multiplier / 10)
        } else {
            self.step_count = 0;
            1
        }
    }

    /// Reset acceleration state
    pub fn reset(&mut self)
        ensures
            final(self)@ == (AccelerationModel { step_count: 0, ..old(self)@ }),
    {
        self.step_count = 0;
    }
}

impl Default for AccelerationCurve {
    /// Accelerate after 50 ms, up to 5x
    fn default() -> (r: Self)
        ensures
            r@ == (AccelerationModel { threshold_ms: 50, multiplier: 5, last_event_ms: 0, step_count: 0 }),
    {
        Self::new(50, 5)
    }
}

/// However fast the knob turns, one event is worth at most
/// `1 + multiplier` steps, and a slow event is worth exactly one.
pub proof fn lemma_acceleration_bounded(m: AccelerationModel, now: u32)
    requires
        m.multiplier * MAX_ACCEL_COUNT <= u32::MAX,
    ensures
        1 <= accel_process(m, now).1 <= 1 + m.multiplier,
        elapsed_ms(now, m.last_event_ms) >= m.threshold_ms ==> accel_process(m, now).1 == 1,
{
    let c = next_accel_count(m.step_count);
    assert(c * m.multiplier <= 10 * m.multiplier) by (nonlinear_arith)
        requires
            c <= 10,
    ;
}

/// Fast events never lower the step count an event is worth.
pub proof fn lemma_acceleration_monotone(m: AccelerationModel, now1: u32, now2: u32)
    requires
        m.multiplier * MAX_ACCEL_COUNT <= u32::MAX,
        elapsed_ms(now1, m.last_event_ms) < m.threshold_ms,
        elapsed_ms(now2, now1) < m.threshold_ms,
    ensures
        accel_process(m, now1).1 <= accel_process(accel_process(m, now1).0, now2).1,
{
    let c1 = next_accel_count(m.step_count);
    let c2 = next_accel_count(c1);
    assert(c1 * m.multiplier <= c2 * m.multiplier) by (nonlinear_arith)
        requires
            c1 <= c2,
    ;
    assert(c1 * m.multiplier / 10 <= c2 * m.multiplier / 10) by (nonlinear_arith)
        requires
            c1 * m.multiplier <= c2 * m.multiplier,
    ;
    assert(c2 * m.multiplier <= 10 * m.multiplier) by (nonlinear_arith)
        requires
            c2 <= 10,
    ;
    assert(c2 * m.multiplier / 10 <= m.multiplier) by (nonlinear_arith)
        requires
            c2 * m.multiplier <= 10 * m.multiplier,
    ;
}

/// Mathematical model of the encoder driver.
pub struct EncoderModel {
    pub button: EncoderButtonModel,
    pub decoder: QuadratureModel,
    pub acceleration: AccelerationModel,
    pub press_start_ms: Option<u32>,
    pub long_press_ms: u32,
    pub long_press_triggered: bool,
}

/// The encoder after one poll with line levels `a`, `b`, the button line
/// (`button_low` when pressed) and the time `now`, and the event reported.
/// A completed rotation wins; otherwise a debounced button change; otherwise
/// a long press once the button has been held for `long_press_ms`.
pub open spec fn encoder_poll(m: EncoderModel, a: bool, b: bool, button_low: bool, now: u32) -> (EncoderModel, Option<EncoderEvent>) {
    let (dec, dir) = decoder_update(m.decoder, a, b);
    if dir is Some {
        let (acc, steps) = accel_process(m.acceleration, now);
        (
            EncoderModel { decoder: dec, acceleration: acc, ..m },
            Some(EncoderEvent::Rotate { direction: dir->0, steps }),
        )
    } else {
        let (btn, changed) = button_update(m.button, button_low);
        let m1 = EncoderModel { decoder: dec, button: btn, ..m };
        if changed && btn.state == ButtonState::Pressed {
            (
                EncoderModel { press_start_ms: Some(now), long_press_triggered: false, ..m1 },
                Some(EncoderEvent::ButtonPress),
            )
        } else {
            let m2 = if changed { EncoderModel { press_start_ms: None, ..m1 } } else { m1 };
            if changed && !m2.long_press_triggered {
                (m2, Some(EncoderEvent::ButtonRelease))
            } else if m2.press_start_ms is Some && !m2.long_press_triggered
                && elapsed_ms(now, m2.press_start_ms->0) >= m2.long_press_ms {
                (EncoderModel { long_press_triggered: true, ..m2 }, Some(EncoderEvent::LongPress))
            } else {
                (m2, None)
            }
        }
    }
}

/// Complete encoder driver with button
#[derive(Clone, Copy, Debug)]
pub struct Encoder {
    /// Push button
    button: EncoderButton,
    /// Quadrature decoder
    decoder: QuadratureDecoder,
    /// Acceleration curve
    acceleration: AccelerationCurve,
    /// Button press start time for long press detection
    press_start_ms: Option<u32>,
    /// Long press threshold in milliseconds
    long_press_ms: u32,
    /// Whether long press was triggered
    long_press_triggered: bool,
}

impl View for Encoder {
    type V = EncoderModel;

    closed spec fn view(&self) -> EncoderModel {
        EncoderModel {
            button: self.button@,
            decoder: self.decoder@,
            acceleration: self.acceleration@,
            press_start_ms: self.press_start_ms,
            long_press_ms: self.long_press_ms,
            long_press_triggered: self.long_press_triggered,
        }
    }
}

impl Encoder {
    /// Default long press threshold
    pub const DEFAULT_LONG_PRESS_MS: u32 = 500;

    /// Create a new encoder driver
    pub fn new() -> (r: Self)
        ensures
            r@ == (EncoderModel {
                button: EncoderButtonModel { state: ButtonState::Released, last_raw: true, debounce_count: 0 },
                decoder: QuadratureModel { state: EncoderState::Idle, last_a: false, last_b: false },
                acceleration: AccelerationModel { threshold_ms: 50, multiplier: 5, last_event_ms: 0, step_count: 0 },
                press_start_ms: None,
                long_press_ms: 500,
                long_press_triggered: false,
            }),
    {
        Self {
            button: EncoderButton::new(),
            decoder: QuadratureDecoder::new(),
            acceleration: AccelerationCurve::default(),
            press_start_ms: None,
            long_press_ms: Self::DEFAULT_LONG_PRESS_MS,
            long_press_triggered: false,
        }
    }

    /// Poll for encoder events (call periodically) with the levels just read
    /// from the A and B lines and the button line (`button_low` when the
    /// button line is low, that is pressed).
    pub fn poll(&mut self, a: bool, b: bool, button_low: bool, current_ms: u32) -> (r: Option<EncoderEvent>)
        requires
            old(self)@.acceleration.multiplier * MAX_ACCEL_COUNT <= u32::MAX,
        ensures
            (final(self)@, r) == encoder_poll(old(self)@, a, b, button_low, current_ms),
    {
        if let Some(direction) = self.decoder.update(a, b) {
            let steps = self.acceleration.process(current_ms);
            return Some(EncoderEvent::Rotate { direction, steps });
        }
        let button_changed = self.button.update(button_low);
        if button_changed {
            match self.button.state() {
                ButtonState::Pressed => {
                    self.press_start_ms = Some(current_ms);
                    self.long_press_triggered = false;
                    return Some(EncoderEvent::ButtonPress);
                },
                ButtonState::Released => {
                    self.press_start_ms = None;
                    if !self.long_press_triggered {
                        return Some(EncoderEvent::ButtonRelease);
                    }
                },
            }
        }
        if let Some(start) = self.press_start_ms {
            if !self.long_press_triggered {
                let held_ms = current_ms.wrapping_sub(start);
                assert(held_ms == elapsed_ms(current_ms, start));
                if held_ms >= self.long_press_ms {
                    self.long_press_triggered = true;
                    return Some(EncoderEvent::LongPress);
                }
            }
        }
        None
    }

    /// Check if button is currently pressed
    pub fn is_pressed(&self) -> (r: bool)
        ensures
            r <==> self@.button.state == ButtonState::Pressed,
    {
        self.button.is_pressed()
    }

    /// Set long press threshold
    pub fn set_long_press_ms(&mut self, ms: u32)
        ensures
            final(self)@ == (EncoderModel { long_press_ms: ms, ..old(self)@ }),
    {
        self.long_press_ms = ms;
    }

    /// Set acceleration parameters
    pub fn set_acceleration(&mut self, threshold_ms: u32, multiplier: u32)
        ensures
            final(self)@ == (EncoderModel {
                acceleration: AccelerationModel { threshold_ms, multiplier, last_event_ms: 0, step_count: 0 },
                ..old(self)@
            }),
    {
        self.acceleration = AccelerationCurve::new(threshold_ms, multiplier);
    }
}

/// A long press is reported at most once per press: after it, polls that
/// see no rotation and no button change report nothing.
pub proof fn lemma_long_press_once(m: EncoderModel, a: bool, b: bool, button_low: bool, now: u32)
    requires
        m.long_press_triggered,
        decoder_update(m.decoder, a, b).1 is None,
        !button_update(m.button, button_low).1,
    ensures
        encoder_poll(m, a, b, button_low, now).1 is None,
{
}

/// The encoder and the events reported after polling it once per input,
/// each input being the A and B levels, the button line and the time.
pub open spec fn poll_run(m: EncoderModel, inputs: Seq<(bool, bool, bool, u32)>) -> (
    EncoderModel,
    Seq<Option<EncoderEvent>>,
)
    decreases inputs.len(),
{
    if inputs.len() == 0 {
        (m, Seq::empty())
    } else {
        let (p, evs) = poll_run(m, inputs.drop_last());
        let x = inputs.last();
        let (n, e) = encoder_poll(p, x.0, x.1, x.2, x.3);
        (n, evs.push(e))
    }
}

/// Whether a list of reported events holds no button press.
pub open spec fn no_press(evs: Seq<Option<EncoderEvent>>) -> bool {
    forall|i: int| 0 <= i < evs.len() ==> #[trigger] evs[i] != Some(EncoderEvent::ButtonPress)
}

/// Over any run of polls, a long press is reported at most once per press
/// of the button: between button presses there is at most one long-press
/// event, none at all once one has been reported for the current press,
/// and no release event follows a long press of the same press.
pub proof fn lemma_long_press_once_per_press(m: EncoderModel, inputs: Seq<(bool, bool, bool, u32)>)
    ensures
        poll_run(m, inputs).1.len() == inputs.len(),
        no_press(poll_run(m, inputs).1) ==> forall|i: int, j: int|
            0 <= i < j < inputs.len() && #[trigger] poll_run(m, inputs).1[i] == Some(EncoderEvent::LongPress)
                ==> #[trigger] poll_run(m, inputs).1[j] != Some(EncoderEvent::LongPress)
                && poll_run(m, inputs).1[j] != Some(EncoderEvent::ButtonRelease),
        no_press(poll_run(m, inputs).1) && m.long_press_triggered ==> forall|i: int|
            0 <= i < inputs.len() ==> #[trigger] poll_run(m, inputs).1[i] != Some(EncoderEvent::LongPress)
                && poll_run(m, inputs).1[i] != Some(EncoderEvent::ButtonRelease),
        no_press(poll_run(m, inputs).1) && (m.long_press_triggered || exists|i: int|
            0 <= i < inputs.len() && #[trigger] poll_run(m, inputs).1[i] == Some(EncoderEvent::LongPress))
            ==> poll_run(m, inputs).0.long_press_triggered,
    decreases inputs.len(),
{
    if inputs.len() > 0 {
        let pre = inputs.drop_last();
        lemma_long_press_once_per_press(m, pre);
        let (p, evs) = poll_run(m, pre);
        let x = inputs.last();
        let (n, e) = encoder_poll(p, x.0, x.1, x.2, x.3);
        let all = poll_run(m, inputs).1;
        assert(all == evs.push(e));
        if no_press(all) {
            assert forall|i: int| 0 <= i < evs.len() implies #[trigger] evs[i] != Some(
                EncoderEvent::ButtonPress,
            ) by {
                assert(all[i] == evs[i]);
            }
            assert(all[evs.len() as int] == e);
            assert(e != Some(EncoderEvent::ButtonPress));
            if exists|i: int| 0 <= i < evs.len() && #[trigger] evs[i] == Some(EncoderEvent::LongPress) {
                let i = choose|i: int| 0 <= i < evs.len() && #[trigger] evs[i] == Some(EncoderEvent::LongPress);
                assert(poll_run(m, pre).1[i] == Some(EncoderEvent::LongPress));
                assert(p.long_press_triggered);
            }
        }
    }
}

/// A completed detent is reported as a rotation, ahead of anything the
/// button does in the same poll.
pub proof fn lemma_rotation_first(m: EncoderModel, a: bool, b: bool, button_low: bool, now: u32)
    requires
        decoder_update(m.decoder, a, b).1 is Some,
    ensures
        encoder_poll(m, a, b, button_low, now).1 matches Some(EncoderEvent::Rotate { direction, steps })
            && direction == decoder_update(m.decoder, a, b).1->0,
{
}

/// The long press is reported by the first poll (with no rotation and no
/// button change) at which the button has been held for the long-press
/// time since it was pressed.
pub proof fn lemma_long_press_fires(m: EncoderModel, a: bool, b: bool, button_low: bool, now: u32)
    requires
        decoder_update(m.decoder, a, b).1 is None,
        !button_update(m.button, button_low).1,
        m.press_start_ms matches Some(t0) && elapsed_ms(now, t0) >= m.long_press_ms,
        !m.long_press_triggered,
    ensures
        encoder_poll(m, a, b, button_low, now).1 == Some(EncoderEvent::LongPress),
        encoder_poll(m, a, b, button_low, now).0.long_press_triggered,
{
}

/// A press released before any long press was reported ends with a
/// release event; after a long press the release reports nothing.
pub proof fn lemma_release_event(m: EncoderModel, a: bool, b: bool, button_low: bool, now: u32)
    requires
        decoder_update(m.decoder, a, b).1 is None,
        button_update(m.button, button_low).1,
        button_update(m.button, button_low).0.state == ButtonState::Released,
    ensures
        !m.long_press_triggered ==> encoder_poll(m, a, b, button_low, now).1 == Some(EncoderEvent::ButtonRelease),
        m.long_press_triggered ==> encoder_poll(m, a, b, button_low, now).1 is None,
        encoder_poll(m, a, b, button_low, now).0.press_start_ms is None,
{
}

/// Encoder value wrapper with min/max bounds
#[derive(Clone, Copy, Debug)]
pub struct BoundedValue<T> {
    value: T,
    min: T,
    max: T,
}

impl<T: Copy> BoundedValue<T> {
    /// The current value.
    pub closed spec fn spec_value(self) -> T {
        self.value
    }

    /// The lower bound.
    pub closed spec fn spec_min(self) -> T {
        self.min
    }

    /// The upper bound.
    pub closed spec fn spec_max(self) -> T {
        self.max
    }

    /// Create a new bounded value (the initial value is taken as given)
    pub fn new(value: T, min: T, max: T) -> (r: Self)
        ensures
            r.spec_value() == value,
            r.spec_min() == min,
            r.spec_max() == max,
    {
        Self { value, min, max }
    }

    /// Get current value
    pub fn get(&self) -> (r: T)
        ensures
            r == self.spec_value(),
    {
        self.value
    }
}

/// `value` clamped to `min..=max` (the lower bound is checked first).
pub open spec fn clamp_i32(value: int, min: i32, max: i32) -> i32 {
    if value < min { min } else if value > max { max } else { value as i32 }
}

/// `value` clamped to `min..=max` (the lower bound is checked first).
pub open spec fn clamp_u32(value: int, min: u32, max: u32) -> u32 {
    if value < min { min } else if value > max { max } else { value as u32 }
}

/// `value` saturated to the range of `i32`.
pub open spec fn saturate_i32(value: int) -> int {
    if value < i32::MIN { i32::MIN as int } else if value > i32::MAX { i32::MAX as int } else { value }
}

/// `value` saturated to the range of `u32`.
pub open spec fn saturate_u32(value: int) -> int {
    if value < 0 { 0 } else if value > u32::MAX { u32::MAX as int } else { value }
}

/// `value` saturated to the range of `i32`.
fn saturating_i32(value: i64) -> (r: i32)
    ensures
        r == saturate_i32(value as int),
{
    if value < i32::MIN as i64 {
        i32::MIN
    } else if value > i32::MAX as i64 {
        i32::MAX
    } else {
        value as i32
    }
}

impl BoundedValue<i32> {
    /// Set value (clamped to bounds)
    pub fn set(&mut self, value: i32)
        ensures
            final(self).spec_value() == clamp_i32(value as int, old(self).spec_min(), old(self).spec_max()),
            final(self).spec_min() == old(self).spec_min(),
            final(self).spec_max() == old(self).spec_max(),
    {
        self.value = if value < self.min {
            self.min
        } else if value > self.max {
            self.max
        } else {
            value
        };
    }

    /// Increment by amount
    pub fn increment(&mut self, amount: i32)
        ensures
            final(self).spec_value() == clamp_i32(
                saturate_i32(old(self).spec_value() + amount),
                old(self).spec_min(),
                old(self).spec_max(),
            ),
            final(self).spec_min() == old(self).spec_min(),
            final(self).spec_max() == old(self).spec_max(),
    {
        self.set(saturating_i32(self.value as i64 + amount as i64));
    }

    /// Decrement by amount
    pub fn decrement(&mut self, amount: i32)
        ensures
            final(self).spec_value() == clamp_i32(
                saturate_i32(old(self).spec_value() - amount),
                old(self).spec_min(),
                old(self).spec_max(),
            ),
            final(self).spec_min() == old(self).spec_min(),
            final(self).spec_max() == old(self).spec_max(),
    {
        self.set(saturating_i32(self.value as i64 - amount as i64));
    }

    /// Handle encoder rotation: clockwise adds the steps, counter-clockwise
    /// subtracts them, and the result is kept within the bounds
    pub fn handle_rotation(&mut self, direction: Direction, steps: u32)
        ensures
            ({
                let delta: int = steps as int;
                let moved = match direction {
                    Direction::Clockwise => old(self).spec_value() + delta,
                    Direction::CounterClockwise => old(self).spec_value() - delta,
                };
                final(self).spec_value() == clamp_i32(saturate_i32(moved), old(self).spec_min(), old(self).spec_max())
            }),
            final(self).spec_min() == old(self).spec_min(),
            final(self).spec_max() == old(self).spec_max(),
    {
        let moved: i64 = match direction {
            Direction::Clockwise => self.value as i64 + steps as i64,
            Direction::CounterClockwise => self.value as i64 - steps as i64,
        };
        self.set(saturating_i32(moved));
    }
}

impl BoundedValue<u32> {
    /// Set value (clamped to bounds)
    pub fn set(&mut self, value: u32)
        ensures
            final(self).spec_value() == clamp_u32(value as int, old(self).spec_min(), old(self).spec_max()),
            final(self).spec_min() == old(self).spec_min(),
            final(self).spec_max() == old(self).spec_max(),
    {
        self.value = if value < self.min {
            self.min
        } else if value > self.max {
            self.max
        } else {
            value
        };
    }

    /// Increment by amount
    pub fn increment(&mut self, amount: u32)
        ensures
            final(self).spec_value() == clamp_u32(
                saturate_u32(old(self).spec_value() + amount),
                old(self).spec_min(),
                old(self).spec_max(),
            ),
            final(self).spec_min() == old(self).spec_min(),
            final(self).spec_max() == old(self).spec_max(),
    {
        self.set(self.value.saturating_add(amount));
    }

    /// Decrement by amount
    pub fn decrement(&mut self, amount: u32)
        ensures
            final(self).spec_value() == clamp_u32(
                saturate_u32(old(self).spec_value() - amount),
                old(self).spec_min(),
                old(self).spec_max(),
            ),
            final(self).spec_min() == old(self).spec_min(),
            final(self).spec_max() == old(self).spec_max(),
    {
        self.set(self.value.saturating_sub(amount));
    }

    /// Handle encoder rotation
    pub fn handle_rotation(&mut self, direction: Direction, steps: u32)
        ensures
            ({
                let moved = match direction {
                    Direction::Clockwise => old(self).spec_value() + steps,
                    Direction::CounterClockwise => old(self).spec_value() - steps,
                };
                final(self).spec_value() == clamp_u32(saturate_u32(moved), old(self).spec_min(), old(self).spec_max())
            }),
            final(self).spec_min() == old(self).spec_min(),
            final(self).spec_max() == old(self).spec_max(),
    {
        match direction {
            Direction::Clockwise => self.increment(steps),
            Direction::CounterClockwise => self.decrement(steps),
        }
    }
}

/// Turning clockwise never lowers an in-bounds value and turning
/// counter-clockwise never raises it; within the bounds a turn moves the
/// value by exactly the step count.
pub proof fn lemma_rotation_direction(value: i32, min: i32, max: i32, steps: u32)
    requires
        min <= value <= max,
    ensures
        clamp_i32(saturate_i32(value + steps), min, max) >= value,
        clamp_i32(saturate_i32(value - steps), min, max) <= value,
        value + steps <= max ==> clamp_i32(saturate_i32(value + steps), min, max) == value + steps,
        value - steps >= min ==> clamp_i32(saturate_i32(value - steps), min, max) == value - steps,
{
}

/// Once inside its bounds, a bounded value stays inside them whatever is
/// set: clamping keeps `min <= value <= max` when `min <= max`.
pub proof fn lemma_clamp_in_bounds(value: int, min: i32, max: i32)
    requires
        min <= max,
    ensures
        min <= clamp_i32(value, min, max) <= max,
        min <= value <= max ==> clamp_i32(value, min, max) == value,
{
}

} // verus!
