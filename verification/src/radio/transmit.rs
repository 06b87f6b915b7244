//! Transmit Control
//!
//! The transmit sequence: T/R relay switching, PA enable, transmit timeout
//! and SWR protection.

use vstd::prelude::*;
use crate::types::{
    PowerLevel, SwrReading, TxRxState, swr_above_limit, swr_critical, is_swr_reduction,
};

verus! {

/// T/R relay switching delay in microseconds
pub const TR_RELAY_DELAY_US: u32 = 10_000;

/// Transmit state machine
#[derive(Clone, Copy, Debug, PartialEq, Eq, Structural, Default)]
pub enum TxState {
    /// Radio is receiving
    #[default]
    Rx,
    /// Switching from RX to TX
    SwitchingToTx,
    /// Transmitting
    Tx,
    /// Switching from TX to RX
    SwitchingToRx,
    /// TX inhibited (SWR protection)
    Inhibited,
}

impl TxState {
    /// Convert to `TxRxState`
    #[verifier::allow_in_spec]
    pub fn as_txrx(self) -> TxRxState
        returns
            (match self {
                TxState::Rx => TxRxState::Rx,
                TxState::Tx => TxRxState::Tx,
                TxState::SwitchingToTx | TxState::SwitchingToRx => TxRxState::Switching,
                TxState::Inhibited => TxRxState::Rx,
            }),
    {
        match self {
            Self::Rx => TxRxState::Rx,
            Self::Tx => TxRxState::Tx,
            Self::SwitchingToTx | Self::SwitchingToRx => TxRxState::Switching,
            Self::Inhibited => TxRxState::Rx,
        }
    }
}

/// Action to take from TX controller update
#[derive(Clone, Copy, Debug, PartialEq, Eq, Structural)]
pub enum TxAction {
    /// No action needed
    NoAction,
    /// Enable T/R relay for TX
    EnableTrRelay,
    /// Disable T/R relay for RX
    DisableTrRelay,
    /// Enable PA with current power setting
    EnablePa,
    /// Disable PA
    DisablePa,
    /// Set PA power level
    SetPower(PowerLevel),
}

/// Mathematical model of the transmit controller.
pub struct TxControllerModel {
    pub state: TxState,
    pub ptt: bool,
    pub vox: bool,
    pub power: PowerLevel,
    pub actual_power: PowerLevel,
    pub last_swr: Option<SwrReading>,
    pub swr_trip_count: u32,
    pub switch_delay_us: u32,
    pub timeout_s: u32,
    pub timeout_limit_s: u32,
    pub inhibit: bool,
    pub pa_enabled: bool,
}

/// Whether the operator asks to transmit (PTT or VOX) and nothing inhibits it.
pub open spec fn wants_tx(m: TxControllerModel) -> bool {
    (m.ptt || m.vox) && !m.inhibit
}

/// `a` minus `b`, or zero when `b` is larger.
pub open spec fn sat_sub_u32(a: u32, b: u32) -> u32 {
    if a >= b { (a - b) as u32 } else { 0 }
}

/// The controller and the action after one update with `elapsed_us`
/// microseconds since the previous one. Disabling the PA starts the full
/// relay delay again, so the T/R relay is only released once that much time
/// has passed with the PA off; after a critical SWR trip the PA is disabled
/// and then the relay released before the inhibit is left.
pub open spec fn tx_update(m: TxControllerModel, elapsed_us: u32) -> (TxControllerModel, TxAction) {
    let want = wants_tx(m);
    match m.state {
        TxState::Rx => if want {
            (
                TxControllerModel { state: TxState::SwitchingToTx, switch_delay_us: TR_RELAY_DELAY_US, ..m },
                TxAction::EnableTrRelay,
            )
        } else {
            (m, TxAction::NoAction)
        },
        TxState::SwitchingToTx => if !want {
            (TxControllerModel { state: TxState::SwitchingToRx, ..m }, TxAction::DisableTrRelay)
        } else {
            let delay = sat_sub_u32(m.switch_delay_us, elapsed_us);
            if delay == 0 {
                (
                    TxControllerModel {
                        state: TxState::Tx,
                        switch_delay_us: 0,
                        timeout_s: 0,
                        actual_power: m.power,
                        pa_enabled: true,
                        ..m
                    },
                    TxAction::EnablePa,
                )
            } else {
                (TxControllerModel { switch_delay_us: delay, ..m }, TxAction::NoAction)
            }
        },
        TxState::Tx => if (m.timeout_limit_s > 0 && m.timeout_s >= m.timeout_limit_s) || !want {
            (
                TxControllerModel {
                    state: TxState::SwitchingToRx,
                    switch_delay_us: TR_RELAY_DELAY_US,
                    pa_enabled: false,
                    ..m
                },
                TxAction::DisablePa,
            )
        } else {
            (m, TxAction::SetPower(m.actual_power))
        },
        TxState::SwitchingToRx => {
            let delay = sat_sub_u32(m.switch_delay_us, elapsed_us);
            if delay == 0 {
                (TxControllerModel { state: TxState::Rx, switch_delay_us: 0, ..m }, TxAction::DisableTrRelay)
            } else {
                (TxControllerModel { switch_delay_us: delay, ..m }, TxAction::NoAction)
            }
        },
        TxState::Inhibited => if m.pa_enabled {
            (
                TxControllerModel { switch_delay_us: TR_RELAY_DELAY_US, pa_enabled: false, ..m },
                TxAction::DisablePa,
            )
        } else if m.switch_delay_us > 0 {
            let delay = sat_sub_u32(m.switch_delay_us, elapsed_us);
            if delay == 0 {
                (TxControllerModel { switch_delay_us: 0, ..m }, TxAction::DisableTrRelay)
            } else {
                (TxControllerModel { switch_delay_us: delay, ..m }, TxAction::NoAction)
            }
        } else if !want {
            (TxControllerModel { state: TxState::Rx, ..m }, TxAction::NoAction)
        } else {
            (m, TxAction::NoAction)
        },
    }
}

/// The power left after cutting `power` percent by `reduction`: never below
/// ten percent.
pub open spec fn reduced_power(power: u8, reduction: int) -> u8 {
    let cut = if power >= reduction { power - reduction } else { 0 };
    if cut < 10 { 10u8 } else { cut as u8 }
}

/// Transmit controller
#[derive(Clone, Debug)]
pub struct TxController {
    /// Current state
    state: TxState,
    /// PTT input state
    ptt: bool,
    /// VOX trigger state
    vox: bool,
    /// Requested power level
    power: PowerLevel,
    /// Actual power output (may be reduced for SWR)
    actual_power: PowerLevel,
    /// Last SWR reading
    last_swr: Option<SwrReading>,
    /// SWR protection trip count
    swr_trip_count: u32,
    /// T/R switch delay countdown (microseconds)
    switch_delay_us: u32,
    /// TX timeout countdown (seconds)
    timeout_s: u32,
    /// TX timeout limit (0 = disabled)
    timeout_limit_s: u32,
    /// TX inhibit flag
    inhibit: bool,
    /// Whether the PA was last enabled (and not yet disabled)
    pa_enabled: bool,
}

impl View for TxController {
    type V = TxControllerModel;

    closed spec fn view(&self) -> TxControllerModel {
        TxControllerModel {
            state: self.state,
            ptt: self.ptt,
            vox: self.vox,
            power: self.power,
            actual_power: self.actual_power,
            last_swr: self.last_swr,
            swr_trip_count: self.swr_trip_count,
            switch_delay_us: self.switch_delay_us,
            timeout_s: self.timeout_s,
            timeout_limit_s: self.timeout_limit_s,
            inhibit: self.inhibit,
            pa_enabled: self.pa_enabled,
        }
    }
}

impl TxController {
    /// Default TX timeout (10 minutes)
    pub const DEFAULT_TIMEOUT_S: u32 = 600;

    /// Create a new transmit controller
    pub fn new() -> (r: Self)
        ensures
            r@.state == TxState::Rx,
            !r@.ptt,
            !r@.vox,
            r@.power@ == 50,
            r@.actual_power@ == 50,
            r@.last_swr is None,
            r@.swr_trip_count == 0,
            r@.switch_delay_us == 0,
            r@.timeout_s == 0,
            r@.timeout_limit_s == 600,
            !r@.inhibit,
            !r@.pa_enabled,
    {
        Self {
            state: TxState::Rx,
            ptt: false,
            vox: false,
            power: PowerLevel::default(),
            actual_power: PowerLevel::default(),
            last_swr: None,
            swr_trip_count: 0,
            switch_delay_us: 0,
            timeout_s: 0,
            timeout_limit_s: 600,
            inhibit: false,
            pa_enabled: false,
        }
    }

    /// Get current state
    pub fn state(&self) -> (r: TxState)
        ensures
            r == self@.state,
    {
        self.state
    }

    /// Get `TxRx` state
    pub fn txrx(&self) -> (r: TxRxState)
        ensures
            r == self@.state.as_txrx(),
    {
        self.state.as_txrx()
    }

    /// Check if transmitting
    pub fn is_transmitting(&self) -> (r: bool)
        ensures
            r <==> self@.state == TxState::Tx,
    {
        matches!(self.state, TxState::Tx)
    }

    /// Check if switching
    pub fn is_switching(&self) -> (r: bool)
        ensures
            r <==> (self@.state == TxState::SwitchingToTx || self@.state == TxState::SwitchingToRx),
    {
        matches!(self.state, TxState::SwitchingToTx | TxState::SwitchingToRx)
    }

    /// Get requested power level
    pub fn power(&self) -> (r: PowerLevel)
        ensures
            r == self@.power,
    {
        self.power
    }

    /// Get actual power (may be reduced)
    pub fn actual_power(&self) -> (r: PowerLevel)
        ensures
            r == self@.actual_power,
    {
        self.actual_power
    }

    /// Get last SWR reading
    pub fn last_swr(&self) -> (r: Option<SwrReading>)
        ensures
            r == self@.last_swr,
    {
        self.last_swr
    }

    /// Get SWR trip count
    pub fn swr_trip_count(&self) -> (r: u32)
        ensures
            r == self@.swr_trip_count,
    {
        self.swr_trip_count
    }

    /// Set power level
    pub fn set_power(&mut self, power: PowerLevel)
        ensures
            final(self)@ == (TxControllerModel {
                power,
                actual_power: if old(self)@.state == TxState::Tx {
                    old(self)@.actual_power
                } else {
                    power
                },
                ..old(self)@
            }),
    {
        self.power = power;
        if !self.is_transmitting() {
            self.actual_power = power;
        }
    }

    /// Set TX timeout limit (0 = disabled)
    pub fn set_timeout(&mut self, seconds: u32)
        ensures
            final(self)@ == (TxControllerModel { timeout_limit_s: seconds, ..old(self)@ }),
    {
        self.timeout_limit_s = seconds;
    }

    /// Set PTT state
    pub fn set_ptt(&mut self, pressed: bool)
        ensures
            final(self)@ == (TxControllerModel { ptt: pressed, ..old(self)@ }),
    {
        self.ptt = pressed;
    }

    /// Set VOX trigger state
    pub fn set_vox(&mut self, triggered: bool)
        ensures
            final(self)@ == (TxControllerModel { vox: triggered, ..old(self)@ }),
    {
        self.vox = triggered;
    }

    /// Set TX inhibit
    pub fn set_inhibit(&mut self, inhibit: bool)
        ensures
            final(self)@ == (TxControllerModel { inhibit, ..old(self)@ }),
    {
        self.inhibit = inhibit;
    }

    /// Clear SWR protection trip
    pub fn clear_swr_trip(&mut self)
        ensures
            final(self)@ == (TxControllerModel {
                swr_trip_count: 0,
                state: if old(self)@.state == TxState::Inhibited {
                    TxState::Rx
                } else {
                    old(self)@.state
                },
                ..old(self)@
            }),
    {
        self.swr_trip_count = 0;
        if self.state == TxState::Inhibited {
            self.state = TxState::Rx;
        }
    }

    /// Update with SWR reading
    pub fn update_swr(&mut self, reading: SwrReading)
        requires
            old(self)@.state == TxState::Tx && swr_above_limit(reading) ==> old(self)@.swr_trip_count
                < u32::MAX,
        ensures
            final(self)@.last_swr == Some(reading),
            old(self)@.state == TxState::Tx && swr_critical(reading) ==> {
                &&& final(self)@.state == TxState::Inhibited
                &&& final(self)@.swr_trip_count == old(self)@.swr_trip_count + 1
                &&& final(self)@.actual_power@ == 0
                &&& final(self)@.power == old(self)@.power
            },
            old(self)@.state == TxState::Tx && !swr_critical(reading) && swr_above_limit(reading)
                ==> {
                &&& final(self)@.state == TxState::Tx
                &&& final(self)@.swr_trip_count == old(self)@.swr_trip_count + 1
                &&& exists|k: int|
                    is_swr_reduction(reading, k) && final(self)@.actual_power@ == reduced_power(
                        old(self)@.power@,
                        k,
                    )
                &&& final(self)@.power == old(self)@.power
            },
            !(old(self)@.state == TxState::Tx && swr_above_limit(reading)) ==> {
                &&& final(self)@.state == old(self)@.state
                &&& final(self)@.swr_trip_count == old(self)@.swr_trip_count
                &&& final(self)@.actual_power == old(self)@.actual_power
                &&& final(self)@.power == old(self)@.power
            },
            final(self)@.ptt == old(self)@.ptt,
            final(self)@.vox == old(self)@.vox,
            final(self)@.inhibit == old(self)@.inhibit,
            final(self)@.switch_delay_us == old(self)@.switch_delay_us,
            final(self)@.timeout_s == old(self)@.timeout_s,
            final(self)@.timeout_limit_s == old(self)@.timeout_limit_s,
            final(self)@.pa_enabled == old(self)@.pa_enabled,
    {
        self.last_swr = Some(reading);

        let transmitting = self.is_transmitting();
        if transmitting && reading.is_critical() {
            self.state = TxState::Inhibited;
            self.swr_trip_count = self.swr_trip_count + 1;
            self.actual_power = PowerLevel::minimum();
        } else if transmitting && reading.is_above_limit() {
            self.swr_trip_count = self.swr_trip_count + 1;
            let reduction = reading.power_reduction();
            let new_percent = self.power.as_percent().saturating_sub(reduction);
            let floor: u8 = if new_percent < 10 { 10 } else { new_percent };
            self.actual_power = PowerLevel::from_percent(floor);
        }
    }

    /// Update state machine (call periodically)
    /// Returns actions to take
    pub fn update(&mut self, elapsed_us: u32) -> (r: TxAction)
        ensures
            final(self)@ == tx_update(old(self)@, elapsed_us).0,
            r == tx_update(old(self)@, elapsed_us).1,
    {
        let want_tx = (self.ptt || self.vox) && !self.inhibit;

        match self.state {
            TxState::Rx => {
                if want_tx {
                    self.state = TxState::SwitchingToTx;
                    self.switch_delay_us = TR_RELAY_DELAY_US;
                    return TxAction::EnableTrRelay;
                }
            },
            TxState::SwitchingToTx => {
                if !want_tx {
                    // Aborted before TX started
                    self.state = TxState::SwitchingToRx;
                    return TxAction::DisableTrRelay;
                }
                self.switch_delay_us = self.switch_delay_us.saturating_sub(elapsed_us);
                if self.switch_delay_us == 0 {
                    self.state = TxState::Tx;
                    self.timeout_s = 0;
                    self.actual_power = self.power;
                    self.pa_enabled = true;
                    return TxAction::EnablePa;
                }
            },
            TxState::Tx => {
                let timed_out = self.timeout_limit_s > 0 && self.timeout_s >= self.timeout_limit_s;
                if timed_out || !want_tx {
                    // PA off first; the relay follows after the full delay
                    self.state = TxState::SwitchingToRx;
                    self.switch_delay_us = TR_RELAY_DELAY_US;
                    self.pa_enabled = false;
                    return TxAction::DisablePa;
                }
                return TxAction::SetPower(self.actual_power);
            },
            TxState::SwitchingToRx => {
                self.switch_delay_us = self.switch_delay_us.saturating_sub(elapsed_us);
                if self.switch_delay_us == 0 {
                    self.state = TxState::Rx;
                    return TxAction::DisableTrRelay;
                }
            },
            TxState::Inhibited => {
                if self.pa_enabled {
                    // Immediate shutdown after a critical SWR trip
                    self.pa_enabled = false;
                    self.switch_delay_us = TR_RELAY_DELAY_US;
                    return TxAction::DisablePa;
                }
                if self.switch_delay_us > 0 {
                    self.switch_delay_us = self.switch_delay_us.saturating_sub(elapsed_us);
                    if self.switch_delay_us == 0 {
                        return TxAction::DisableTrRelay;
                    }
                    return TxAction::NoAction;
                }
                if !want_tx {
                    self.state = TxState::Rx;
                }
            },
        }
        TxAction::NoAction
    }

    /// Update TX timeout counter (call once per second during TX)
    pub fn tick_timeout(&mut self)
        ensures
            final(self)@ == (TxControllerModel {
                timeout_s: if old(self)@.state == TxState::Tx && old(self)@.timeout_s < u32::MAX {
                    (old(self)@.timeout_s + 1) as u32
                } else {
                    old(self)@.timeout_s
                },
                ..old(self)@
            }),
    {
        if self.is_transmitting() {
            self.timeout_s = self.timeout_s.saturating_add(1);
        }
    }
}

impl Default for TxController {
    fn default() -> (r: Self)
        ensures
            r@.state == TxState::Rx,
            r@.power@ == 50,
            r@.timeout_limit_s == 600,
    {
        Self::new()
    }
}

/// The controller only starts transmitting from the relay-switching state,
/// once the full relay delay has elapsed while transmission is still
/// wanted; that update, and only that update, enables the PA.
pub proof fn lemma_tx_entered_only_after_relay_delay(m: TxControllerModel, elapsed_us: u32)
    ensures
        ({
            let (n, a) = tx_update(m, elapsed_us);
            &&& (n.state == TxState::Tx && m.state != TxState::Tx) ==> (m.state == TxState::SwitchingToTx
                && wants_tx(m) && m.switch_delay_us <= elapsed_us && a == TxAction::EnablePa)
            &&& a == TxAction::EnablePa ==> (n.state == TxState::Tx && m.state == TxState::SwitchingToTx
                && n.actual_power == m.power)
        }),
{
}

/// An inhibited controller in receive stays in receive and asks for nothing.
pub proof fn lemma_inhibit_blocks_tx(m: TxControllerModel, elapsed_us: u32)
    requires
        m.inhibit,
        m.state == TxState::Rx,
    ensures
        tx_update(m, elapsed_us) == (m, TxAction::NoAction),
{
}

/// Transmission ends with the PA disabled when the transmit timeout has
/// run out or when transmission is no longer wanted.
pub proof fn lemma_tx_stops(m: TxControllerModel, elapsed_us: u32)
    requires
        m.state == TxState::Tx,
        (m.timeout_limit_s > 0 && m.timeout_s >= m.timeout_limit_s) || !wants_tx(m),
    ensures
        tx_update(m, elapsed_us).0.state == TxState::SwitchingToRx,
        tx_update(m, elapsed_us).1 == TxAction::DisablePa,
{
}

/// Leaving an SWR inhibit needs the PA off, the relay released and
/// transmission unwanted: until then the controller stays inhibited.
pub proof fn lemma_inhibited_waits_for_release(m: TxControllerModel, elapsed_us: u32)
    requires
        m.state == TxState::Inhibited,
    ensures
        (m.pa_enabled || m.switch_delay_us > 0 || wants_tx(m)) ==> tx_update(m, elapsed_us).0.state
            == TxState::Inhibited,
        !m.pa_enabled && m.switch_delay_us == 0 && wants_tx(m) ==> tx_update(m, elapsed_us) == (
        m,
        TxAction::NoAction,
        ),
        !m.pa_enabled && m.switch_delay_us == 0 && !wants_tx(m) ==> tx_update(m, elapsed_us).0.state
            == TxState::Rx,
{
}

/// A critical SWR trip shuts the transmitter down: the first update after
/// it disables the PA and starts the relay delay, and the relay is released
/// once the delay has run out.
pub proof fn lemma_swr_trip_shuts_down(m: TxControllerModel, elapsed_us: u32)
    requires
        m.state == TxState::Inhibited,
        m.pa_enabled,
    ensures
        tx_update(m, elapsed_us).1 == TxAction::DisablePa,
        !tx_update(m, elapsed_us).0.pa_enabled,
        tx_update(m, elapsed_us).0.switch_delay_us == TR_RELAY_DELAY_US,
        tx_update(m, elapsed_us).0.state == TxState::Inhibited,
{
}

/// Whether the relay is waiting to be released after the PA was disabled.
pub open spec fn relay_release_pending(m: TxControllerModel) -> bool {
    !m.pa_enabled && m.switch_delay_us > 0 && (m.state == TxState::SwitchingToRx || m.state
        == TxState::Inhibited)
}

/// The state and actions after a run of updates, with the elapsed time of
/// each.
pub open spec fn tx_run(m: TxControllerModel, elapsed: Seq<u32>) -> (TxControllerModel, Seq<TxAction>)
    decreases elapsed.len(),
{
    if elapsed.len() == 0 {
        (m, Seq::empty())
    } else {
        let (p, acts) = tx_run(m, elapsed.drop_last());
        let (n, a) = tx_update(p, elapsed.last());
        (n, acts.push(a))
    }
}

/// Sum of a run of elapsed times.
pub open spec fn elapsed_total(elapsed: Seq<u32>) -> int
    decreases elapsed.len(),
{
    if elapsed.len() == 0 {
        0
    } else {
        elapsed_total(elapsed.drop_last()) + elapsed.last()
    }
}

/// Disabling the PA starts the full relay delay, with the relay still
/// engaged.
pub proof fn lemma_disable_pa_starts_relay_delay(m: TxControllerModel, elapsed_us: u32)
    requires
        tx_update(m, elapsed_us).1 == TxAction::DisablePa,
    ensures
        relay_release_pending(tx_update(m, elapsed_us).0),
        tx_update(m, elapsed_us).0.switch_delay_us == TR_RELAY_DELAY_US,
{
}

/// The relay is never released before its delay has run out: from a
/// controller waiting with `switch_delay_us` left, while the updates so far
/// add up to less than that, no update releases the relay (or does anything
/// else) and the wait continues with the time left reduced accordingly.
pub proof fn lemma_relay_waits_out_delay(m: TxControllerModel, elapsed: Seq<u32>)
    requires
        relay_release_pending(m),
        elapsed_total(elapsed) < m.switch_delay_us,
    ensures
        relay_release_pending(tx_run(m, elapsed).0),
        tx_run(m, elapsed).0.state == m.state,
        tx_run(m, elapsed).0.switch_delay_us == m.switch_delay_us - elapsed_total(elapsed),
        tx_run(m, elapsed).1.len() == elapsed.len(),
        forall|i: int| 0 <= i < elapsed.len() ==> #[trigger] tx_run(m, elapsed).1[i] == TxAction::NoAction,
    decreases elapsed.len(),
{
    if elapsed.len() > 0 {
        let e = elapsed.last();
        assert(elapsed_total(elapsed.drop_last()) + e == elapsed_total(elapsed));
        lemma_elapsed_total_nonneg(elapsed.drop_last());
        lemma_relay_waits_out_delay(m, elapsed.drop_last());
        let (p, acts) = tx_run(m, elapsed.drop_last());
        assert(tx_run(m, elapsed).1 == acts.push(tx_update(p, e).1));
        assert forall|i: int| 0 <= i < elapsed.len() implies #[trigger] tx_run(m, elapsed).1[i]
            == TxAction::NoAction by {
            if i < elapsed.len() - 1 {
                assert(tx_run(m, elapsed.drop_last()).1[i] == TxAction::NoAction);
            }
        }
    }
}

/// Elapsed times add up to at least zero.
proof fn lemma_elapsed_total_nonneg(elapsed: Seq<u32>)
    ensures
        elapsed_total(elapsed) >= 0,
    decreases elapsed.len(),
{
    if elapsed.len() > 0 {
        lemma_elapsed_total_nonneg(elapsed.drop_last());
    }
}

/// A call on the transmit controller: one of the setters that feed its
/// decision, or an update with the microseconds since the previous one.
pub enum TxCall {
    SetPtt(bool),
    SetVox(bool),
    SetInhibit(bool),
    Update(u32),
}

/// The controller after a call, and the action when the call was an update.
pub open spec fn tx_call(m: TxControllerModel, c: TxCall) -> (TxControllerModel, Option<TxAction>) {
    match c {
        TxCall::SetPtt(p) => (TxControllerModel { ptt: p, ..m }, None),
        TxCall::SetVox(v) => (TxControllerModel { vox: v, ..m }, None),
        TxCall::SetInhibit(i) => (TxControllerModel { inhibit: i, ..m }, None),
        TxCall::Update(e) => {
            let (n, a) = tx_update(m, e);
            (n, Some(a))
        },
    }
}

/// The controller and the actions after a run of calls.
pub open spec fn tx_calls(m: TxControllerModel, cs: Seq<TxCall>) -> (TxControllerModel, Seq<Option<TxAction>>)
    decreases cs.len(),
{
    if cs.len() == 0 {
        (m, Seq::empty())
    } else {
        let (p, acts) = tx_calls(m, cs.drop_last());
        let (n, a) = tx_call(p, cs.last());
        (n, acts.push(a))
    }
}

/// Microseconds passed to the updates of a run of calls.
pub open spec fn calls_time(cs: Seq<TxCall>) -> int
    decreases cs.len(),
{
    if cs.len() == 0 {
        0
    } else {
        calls_time(cs.drop_last()) + match cs.last() {
            TxCall::Update(e) => e as int,
            _ => 0int,
        }
    }
}

proof fn lemma_calls_time_nonneg(cs: Seq<TxCall>)
    ensures
        calls_time(cs) >= 0,
    decreases cs.len(),
{
    if cs.len() > 0 {
        lemma_calls_time_nonneg(cs.drop_last());
    }
}

/// Running two stretches of calls one after the other is running them
/// together.
proof fn lemma_tx_calls_append(m: TxControllerModel, a: Seq<TxCall>, b: Seq<TxCall>)
    ensures
        tx_calls(m, a + b).0 == tx_calls(tx_calls(m, a).0, b).0,
        tx_calls(m, a + b).1 == tx_calls(m, a).1 + tx_calls(tx_calls(m, a).0, b).1,
        calls_time(a + b) == calls_time(a) + calls_time(b),
    decreases b.len(),
{
    if b.len() == 0 {
        assert(a + b =~= a);
        assert(tx_calls(m, a).1 + Seq::<Option<TxAction>>::empty() =~= tx_calls(m, a).1);
    } else {
        lemma_tx_calls_append(m, a, b.drop_last());
        assert((a + b).drop_last() =~= a + b.drop_last());
        assert((a + b).last() == b.last());
        let mid = tx_calls(m, a).0;
        let (p, acts) = tx_calls(mid, b.drop_last());
        let (n, x) = tx_call(p, b.last());
        assert(tx_calls(m, a).1 + acts.push(x) =~= (tx_calls(m, a).1 + acts).push(x));
    }
}

/// The actions of a run have one entry per call.
proof fn lemma_tx_calls_len(m: TxControllerModel, cs: Seq<TxCall>)
    ensures
        tx_calls(m, cs).1.len() == cs.len(),
    decreases cs.len(),
{
    if cs.len() > 0 {
        lemma_tx_calls_len(m, cs.drop_last());
    }
}

/// While switching to transmit, the PA is not enabled before the relay
/// delay has passed, whatever calls come in between: the controller stays
/// switching (to transmit, or back to receive after an abort) with at least
/// the unspent delay left.
proof fn lemma_switching_holds_pa(m: TxControllerModel, cs: Seq<TxCall>)
    requires
        m.state == TxState::SwitchingToTx,
        calls_time(cs) < m.switch_delay_us,
    ensures
        tx_calls(m, cs).0.state == TxState::SwitchingToTx || tx_calls(m, cs).0.state == TxState::SwitchingToRx,
        tx_calls(m, cs).0.switch_delay_us >= m.switch_delay_us - calls_time(cs),
        tx_calls(m, cs).1.len() == cs.len(),
        forall|i: int| 0 <= i < cs.len() ==> #[trigger] tx_calls(m, cs).1[i] != Some(TxAction::EnablePa),
    decreases cs.len(),
{
    if cs.len() > 0 {
        let pre = cs.drop_last();
        lemma_calls_time_nonneg(pre);
        lemma_switching_holds_pa(m, pre);
        let (p, acts) = tx_calls(m, pre);
        let (n, x) = tx_call(p, cs.last());
        assert(tx_calls(m, cs).1 == acts.push(x));
        assert forall|i: int| 0 <= i < cs.len() implies #[trigger] tx_calls(m, cs).1[i] != Some(TxAction::EnablePa) by {
            if i < pre.len() {
                assert(tx_calls(m, pre).1[i] != Some(TxAction::EnablePa));
            }
        }
    }
}

/// While the relay waits to be released after the PA went off, it is not
/// released before its delay has passed, whatever calls come in between.
proof fn lemma_release_holds_relay(m: TxControllerModel, cs: Seq<TxCall>)
    requires
        relay_release_pending(m),
        calls_time(cs) < m.switch_delay_us,
    ensures
        relay_release_pending(tx_calls(m, cs).0),
        tx_calls(m, cs).0.state == m.state,
        tx_calls(m, cs).0.switch_delay_us == m.switch_delay_us - calls_time(cs),
        tx_calls(m, cs).1.len() == cs.len(),
        forall|i: int| 0 <= i < cs.len() ==> #[trigger] tx_calls(m, cs).1[i] != Some(TxAction::DisableTrRelay),
    decreases cs.len(),
{
    if cs.len() > 0 {
        let pre = cs.drop_last();
        lemma_calls_time_nonneg(pre);
        lemma_release_holds_relay(m, pre);
        let (p, acts) = tx_calls(m, pre);
        let (n, x) = tx_call(p, cs.last());
        assert(tx_calls(m, cs).1 == acts.push(x));
        assert forall|i: int| 0 <= i < cs.len() implies #[trigger] tx_calls(m, cs).1[i] != Some(
            TxAction::DisableTrRelay,
        ) by {
            if i < pre.len() {
                assert(tx_calls(m, pre).1[i] != Some(TxAction::DisableTrRelay));
            }
        }
    }
}

/// The relay timing holds over any run of calls (PTT, VOX, inhibit and
/// updates in any order): the PA is enabled only once the updates since
/// the relay was engaged add up to the full relay delay, and the relay is
/// released only once the updates since the PA was disabled add up to it.
pub proof fn lemma_relay_timing(m: TxControllerModel, cs: Seq<TxCall>, i: int, j: int)
    requires
        0 <= i < j < cs.len(),
    ensures
        tx_calls(m, cs).1[i] == Some(TxAction::EnableTrRelay) && tx_calls(m, cs).1[j] == Some(TxAction::EnablePa)
            ==> calls_time(cs.subrange(i + 1, j + 1)) >= TR_RELAY_DELAY_US,
        tx_calls(m, cs).1[i] == Some(TxAction::DisablePa) && tx_calls(m, cs).1[j] == Some(
            TxAction::DisableTrRelay,
        ) ==> calls_time(cs.subrange(i + 1, j + 1)) >= TR_RELAY_DELAY_US,
{
    let a = cs.take(i + 1);
    let b = cs.subrange(i + 1, j + 1);
    let c = cs.subrange(j + 1, cs.len() as int);
    assert(cs =~= a + b + c);
    lemma_tx_calls_append(m, a + b, c);
    lemma_tx_calls_append(m, a, b);
    lemma_tx_calls_len(m, a);
    lemma_tx_calls_len(m, a + b);
    let mid = tx_calls(m, a).0;
    lemma_tx_calls_len(mid, b);
    let acts = tx_calls(m, cs).1;
    assert(acts[i] == tx_calls(m, a).1[i]);
    assert(acts[j] == tx_calls(mid, b).1[j - i - 1]);
    // The state after call i came from that call's update
    let (p, pacts) = tx_calls(m, a.drop_last());
    assert(tx_calls(m, a).1[i] == tx_call(p, a.last()).1) by {
        lemma_tx_calls_len(m, a.drop_last());
    }
    if acts[i] == Some(TxAction::EnableTrRelay) && acts[j] == Some(TxAction::EnablePa) {
        assert(mid.state == TxState::SwitchingToTx && mid.switch_delay_us == TR_RELAY_DELAY_US);
        if calls_time(b) < TR_RELAY_DELAY_US {
            lemma_switching_holds_pa(mid, b);
            assert(tx_calls(mid, b).1[j - i - 1] != Some(TxAction::EnablePa));
        }
    }
    if acts[i] == Some(TxAction::DisablePa) && acts[j] == Some(TxAction::DisableTrRelay) {
        let (n0, x0) = tx_update(p, match a.last() {
            TxCall::Update(e) => e,
            _ => 0u32,
        });
        lemma_disable_pa_starts_relay_delay(p, match a.last() {
            TxCall::Update(e) => e,
            _ => 0u32,
        });
        assert(relay_release_pending(mid) && mid.switch_delay_us == TR_RELAY_DELAY_US);
        if calls_time(b) < TR_RELAY_DELAY_US {
            lemma_release_holds_relay(mid, b);
            assert(tx_calls(mid, b).1[j - i - 1] != Some(TxAction::DisableTrRelay));
        }
    }
}

/// With the inhibit set, no run of calls that leaves it set ever starts
/// transmitting: every update asks for nothing and the controller stays in
/// receive.
pub proof fn lemma_inhibit_blocks_tx_over_calls(m: TxControllerModel, cs: Seq<TxCall>)
    requires
        m.inhibit,
        m.state == TxState::Rx,
        forall|i: int| 0 <= i < cs.len() ==> #[trigger] cs[i] != TxCall::SetInhibit(false),
    ensures
        tx_calls(m, cs).0.state == TxState::Rx,
        tx_calls(m, cs).0.inhibit,
        tx_calls(m, cs).1.len() == cs.len(),
        forall|i: int| 0 <= i < cs.len() ==> (#[trigger] tx_calls(m, cs).1[i] is None || tx_calls(m, cs).1[i]
            == Some(TxAction::NoAction)),
    decreases cs.len(),
{
    if cs.len() > 0 {
        let pre = cs.drop_last();
        assert forall|i: int| 0 <= i < pre.len() implies #[trigger] pre[i] != TxCall::SetInhibit(false) by {
            assert(pre[i] == cs[i]);
        }
        lemma_inhibit_blocks_tx_over_calls(m, pre);
        let (p, acts) = tx_calls(m, pre);
        assert(cs.last() == cs[cs.len() - 1]);
        let (n, x) = tx_call(p, cs.last());
        assert(tx_calls(m, cs).1 == acts.push(x));
        assert forall|i: int| 0 <= i < cs.len() implies (#[trigger] tx_calls(m, cs).1[i] is None || tx_calls(
            m,
            cs,
        ).1[i] == Some(TxAction::NoAction)) by {
            if i < pre.len() {
                assert(tx_calls(m, pre).1[i] == acts[i]);
            }
        }
    }
}

/// The SWR power cut never raises the power: the reduced level is at most
/// the requested one once that is at least ten percent, and never below ten.
pub proof fn lemma_reduced_power_bounds(power: u8, k: int)
    requires
        0 <= k,
    ensures
        10 <= reduced_power(power, k),
        power >= 10 ==> reduced_power(power, k) <= power,
{
}

/// While transmitting and still wanted (and not timed out), each update
/// commands the PA to the actual power, which is the requested power cut
/// for SWR when the SWR protection has cut it; nothing else changes.
pub proof fn lemma_tx_commands_actual_power(m: TxControllerModel, elapsed_us: u32)
    requires
        m.state == TxState::Tx,
        wants_tx(m),
        !(m.timeout_limit_s > 0 && m.timeout_s >= m.timeout_limit_s),
    ensures
        tx_update(m, elapsed_us).1 == TxAction::SetPower(m.actual_power),
        tx_update(m, elapsed_us).0 == m,
{
}

} // verus!
