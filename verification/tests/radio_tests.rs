use sdr_firmware::radio::state::{
    apply_event, AgcMode, RadioEvent, RadioState, VfoSelect,
};
use sdr_firmware::radio::transmit::{TxAction, TxController, TxState};
use sdr_firmware::radio::vfo::{MemoryBank, MemoryChannel, VfoManager, VfoSettings};
use sdr_firmware::types::{Band, Frequency, Mode, PowerLevel, SwrReading, TuningStep, TxRxState};

#[test]
fn vfo_settings_new() {
    let freq = Frequency::from_hz(7_074_000).unwrap();
    let settings = VfoSettings::new(freq, Mode::Usb);
    assert_eq!(settings.frequency.as_hz(), 7_074_000);
    assert_eq!(settings.mode, Mode::Usb);
}

#[test]
fn vfo_settings_with_auto_mode_40m() {
    let freq = Frequency::from_hz(7_074_000).unwrap();
    let settings = VfoSettings::with_auto_mode(freq);
    // 40m band defaults to LSB
    assert_eq!(settings.mode, Mode::Lsb);
}

#[test]
fn vfo_settings_with_auto_mode_20m() {
    let freq = Frequency::from_hz(14_074_000).unwrap();
    let settings = VfoSettings::with_auto_mode(freq);
    // 20m band defaults to USB
    assert_eq!(settings.mode, Mode::Usb);
}

#[test]
fn vfo_settings_default() {
    let settings = VfoSettings::default();
    assert_eq!(settings.frequency.as_hz(), 7_074_000);
    assert_eq!(settings.mode, Mode::Lsb);
}


#[test]
fn vfo_manager_new() {
    let mgr = VfoManager::new();
    assert_eq!(mgr.selected(), VfoSelect::A);
    assert!(!mgr.split());
}

#[test]
fn vfo_manager_select_toggle() {
    let mut mgr = VfoManager::new();
    assert_eq!(mgr.selected(), VfoSelect::A);

    mgr.toggle();
    assert_eq!(mgr.selected(), VfoSelect::B);

    mgr.toggle();
    assert_eq!(mgr.selected(), VfoSelect::A);
}

#[test]
fn vfo_manager_select_explicit() {
    let mut mgr = VfoManager::new();

    mgr.select_b();
    assert_eq!(mgr.selected(), VfoSelect::B);

    mgr.select_a();
    assert_eq!(mgr.selected(), VfoSelect::A);
}

#[test]
fn vfo_manager_set_frequency() {
    let mut mgr = VfoManager::new();
    let new_freq = Frequency::from_hz(14_250_000).unwrap();

    mgr.set_frequency(new_freq);
    assert_eq!(mgr.current().frequency.as_hz(), 14_250_000);
    assert_eq!(mgr.vfo_a().frequency.as_hz(), 14_250_000);
    // VFO B should be unchanged
    assert_eq!(mgr.vfo_b().frequency.as_hz(), 7_100_000);
}

#[test]
fn vfo_manager_set_mode() {
    let mut mgr = VfoManager::new();

    mgr.set_mode(Mode::Cw);
    assert_eq!(mgr.current().mode, Mode::Cw);
}

#[test]
fn vfo_manager_split_mode() {
    let mut mgr = VfoManager::new();

    // Set different frequencies for A and B
    mgr.set_frequency(Frequency::from_hz(14_074_000).unwrap());
    mgr.select_b();
    mgr.set_frequency(Frequency::from_hz(14_100_000).unwrap());
    mgr.select_a();

    // Without split, TX and RX use same VFO
    assert_eq!(mgr.rx_vfo().frequency.as_hz(), 14_074_000);
    assert_eq!(mgr.tx_vfo().frequency.as_hz(), 14_074_000);

    // Enable split
    mgr.enable_split();
    assert!(mgr.split());

    // Now TX uses VFO B
    assert_eq!(mgr.rx_vfo().frequency.as_hz(), 14_074_000);
    assert_eq!(mgr.tx_vfo().frequency.as_hz(), 14_100_000);

    // Disable split
    mgr.disable_split();
    assert!(!mgr.split());
}

#[test]
fn vfo_manager_toggle_split() {
    let mut mgr = VfoManager::new();
    assert!(!mgr.split());

    mgr.toggle_split();
    assert!(mgr.split());

    mgr.toggle_split();
    assert!(!mgr.split());
}

#[test]
fn vfo_manager_swap() {
    let mut mgr = VfoManager::new();

    // Set different frequencies
    mgr.set_frequency(Frequency::from_hz(14_074_000).unwrap());
    mgr.select_b();
    mgr.set_frequency(Frequency::from_hz(21_074_000).unwrap());

    // Swap
    mgr.swap();

    // Frequencies should be swapped
    assert_eq!(mgr.vfo_a().frequency.as_hz(), 21_074_000);
    assert_eq!(mgr.vfo_b().frequency.as_hz(), 14_074_000);
}

#[test]
fn vfo_manager_copy_to_other() {
    let mut mgr = VfoManager::new();

    mgr.set_frequency(Frequency::from_hz(14_250_000).unwrap());
    mgr.set_mode(Mode::Usb);

    mgr.copy_to_other();

    // VFO B should now match VFO A
    assert_eq!(mgr.vfo_b().frequency.as_hz(), 14_250_000);
    assert_eq!(mgr.vfo_b().mode, Mode::Usb);
}

#[test]
fn vfo_manager_copy_a_to_b() {
    let mut mgr = VfoManager::new();

    mgr.set_frequency(Frequency::from_hz(14_100_000).unwrap());
    mgr.copy_a_to_b();

    assert_eq!(mgr.vfo_b().frequency.as_hz(), 14_100_000);
}

#[test]
fn vfo_manager_copy_b_to_a() {
    let mut mgr = VfoManager::new();

    mgr.select_b();
    // Use a frequency in the valid range (15m band, max is 21.45 MHz)
    mgr.set_frequency(Frequency::from_hz(21_074_000).unwrap());
    mgr.select_a();

    mgr.copy_b_to_a();

    assert_eq!(mgr.vfo_a().frequency.as_hz(), 21_074_000);
}


#[test]
fn memory_channel_empty() {
    let ch = MemoryChannel::empty(5);
    assert_eq!(ch.number, 5);
    assert!(!ch.active);
}

#[test]
fn memory_channel_store_recall() {
    let mut ch = MemoryChannel::empty(10);
    let settings = VfoSettings::new(
        Frequency::from_hz(14_225_000).unwrap(),
        Mode::Usb,
    );

    ch.store(&settings);
    assert!(ch.active);
    assert_eq!(ch.frequency.as_hz(), 14_225_000);
    assert_eq!(ch.mode, Mode::Usb);

    let recalled = ch.recall().unwrap();
    assert_eq!(recalled.frequency.as_hz(), 14_225_000);
    assert_eq!(recalled.mode, Mode::Usb);
}

#[test]
fn memory_channel_clear() {
    let mut ch = MemoryChannel::empty(0);
    let settings = VfoSettings::default();
    ch.store(&settings);
    assert!(ch.active);

    ch.clear();
    assert!(!ch.active);
    assert!(ch.recall().is_none());
}

#[test]
fn memory_channel_set_name() {
    let mut ch = MemoryChannel::empty(0);
    ch.set_name(b"40M FT8");
    assert_eq!(&ch.name[..7], b"40M FT8");
    assert_eq!(ch.name[7], 0);
}

#[test]
fn memory_channel_set_name_truncate() {
    let mut ch = MemoryChannel::empty(0);
    ch.set_name(b"This is a very long name");
    // Should be truncated to 8 characters
    assert_eq!(&ch.name, b"This is ");
}


#[test]
fn memory_bank_new() {
    let bank = MemoryBank::new();
    assert_eq!(bank.active_count(), 0);
}

#[test]
fn memory_bank_store_recall() {
    let mut bank = MemoryBank::new();
    let settings = VfoSettings::new(
        Frequency::from_hz(7_150_000).unwrap(),
        Mode::Lsb,
    );

    assert!(bank.store(0, &settings));
    assert_eq!(bank.active_count(), 1);

    let recalled = bank.recall(0).unwrap();
    assert_eq!(recalled.frequency.as_hz(), 7_150_000);
}

#[test]
fn memory_bank_invalid_channel() {
    let mut bank = MemoryBank::new();
    let settings = VfoSettings::default();

    // Channel 100 is out of range
    assert!(!bank.store(100, &settings));
    assert!(bank.recall(100).is_none());
}

#[test]
fn memory_bank_next_active() {
    let mut bank = MemoryBank::new();
    let settings = VfoSettings::default();

    bank.store(5, &settings);
    bank.store(10, &settings);
    bank.store(15, &settings);

    assert_eq!(bank.next_active(0), Some(5));
    assert_eq!(bank.next_active(5), Some(10));
    assert_eq!(bank.next_active(10), Some(15));
    assert_eq!(bank.next_active(15), Some(5)); // Wraps around
}

#[test]
fn memory_bank_prev_active() {
    let mut bank = MemoryBank::new();
    let settings = VfoSettings::default();

    bank.store(5, &settings);
    bank.store(10, &settings);
    bank.store(15, &settings);

    assert_eq!(bank.prev_active(20), Some(15));
    assert_eq!(bank.prev_active(15), Some(10));
    assert_eq!(bank.prev_active(10), Some(5));
    assert_eq!(bank.prev_active(5), Some(15)); // Wraps around
}

#[test]
fn memory_bank_no_active() {
    let bank = MemoryBank::new();
    assert!(bank.next_active(0).is_none());
    assert!(bank.prev_active(0).is_none());
}


#[test]
fn radio_state_new() {
    let freq = Frequency::from_hz(7_074_000).unwrap();
    let state = RadioState::new(freq);

    assert_eq!(state.frequency().as_hz(), 7_074_000);
    assert_eq!(state.mode(), Mode::Lsb); // 40m defaults to LSB
    assert_eq!(state.step(), TuningStep::KHz1);
    assert_eq!(state.txrx(), TxRxState::Rx);
    assert!(!state.is_transmitting());
}

#[test]
fn radio_state_default() {
    let state = RadioState::default();
    assert_eq!(state.frequency().as_hz(), 7_074_000);
}

#[test]
fn radio_state_with_frequency() {
    let state = RadioState::default();
    let new_state = state.with_frequency(Frequency::from_hz(14_074_000).unwrap());

    assert_eq!(new_state.frequency().as_hz(), 14_074_000);
    assert_eq!(new_state.band(), Some(Band::M20));
}

#[test]
fn radio_state_tune_up() {
    let state = RadioState::default().with_step(TuningStep::Hz100);
    let new_state = state.tune_up();

    assert_eq!(new_state.frequency().as_hz(), 7_074_100);
}

#[test]
fn radio_state_tune_down() {
    let state = RadioState::default().with_step(TuningStep::Hz100);
    let new_state = state.tune_down();

    assert_eq!(new_state.frequency().as_hz(), 7_073_900);
}

#[test]
fn radio_state_with_mode() {
    let state = RadioState::default();
    let new_state = state.with_mode(Mode::Cw);

    assert_eq!(new_state.mode(), Mode::Cw);
}

#[test]
fn radio_state_next_mode_cycles() {
    let state = RadioState::default().with_mode(Mode::Lsb);

    let state = state.next_mode();
    assert_eq!(state.mode(), Mode::Usb);

    let state = state.next_mode();
    assert_eq!(state.mode(), Mode::Cw);

    let state = state.next_mode();
    assert_eq!(state.mode(), Mode::CwR);

    let state = state.next_mode();
    assert_eq!(state.mode(), Mode::Am);

    let state = state.next_mode();
    assert_eq!(state.mode(), Mode::Fm);

    let state = state.next_mode();
    assert_eq!(state.mode(), Mode::Lsb); // Wraps around
}

#[test]
fn radio_state_with_step() {
    let state = RadioState::default();
    let new_state = state.with_step(TuningStep::KHz10);

    assert_eq!(new_state.step(), TuningStep::KHz10);
}

#[test]
fn radio_state_next_step_cycles() {
    let state = RadioState::default().with_step(TuningStep::Hz10);
    let state = state.next_step();
    assert_eq!(state.step(), TuningStep::Hz100);
}

#[test]
fn radio_state_with_txrx() {
    let state = RadioState::default();
    let state = state.with_txrx(TxRxState::Tx);

    assert!(state.is_transmitting());
    assert_eq!(state.txrx(), TxRxState::Tx);
}

#[test]
fn radio_state_with_power() {
    let state = RadioState::default();
    let power = PowerLevel::from_percent(50);
    let new_state = state.with_power(power);

    assert_eq!(new_state.power().as_percent(), 50);
}

#[test]
fn radio_state_rit() {
    let state = RadioState::default();

    // Enable RIT
    let state = state.toggle_rit();
    // Note: we can't directly check rit_enabled as it's private

    // Set RIT offset
    let state = state.with_rit_offset(500);
    let rx_freq = state.rx_frequency();
    assert_eq!(rx_freq.as_hz(), 7_074_500);

    // TX frequency should be unaffected
    assert_eq!(state.tx_frequency().as_hz(), 7_074_000);

    // Clear RIT
    let state = state.clear_rit();
    assert_eq!(state.rx_frequency().as_hz(), 7_074_000);
}

#[test]
fn radio_state_xit() {
    let state = RadioState::default();

    // Enable XIT with offset
    let state = state.toggle_xit();
    let _state = state.with_rit_offset(0); // RIT has separate offset

    // XIT affects TX frequency when enabled
    // Since we toggle XIT but don't have with_xit_offset, we use with_rit_offset for RIT
    // XIT offset would need separate method
}

#[test]
fn radio_state_agc() {
    let state = RadioState::default();
    assert_eq!(state.agc_mode(), AgcMode::Medium);

    let state = state.with_agc(AgcMode::Fast);
    assert_eq!(state.agc_mode(), AgcMode::Fast);
}

#[test]
fn radio_state_noise_blanker() {
    let state = RadioState::default();
    assert!(!state.noise_blanker_enabled());

    let state = state.toggle_nb();
    assert!(state.noise_blanker_enabled());

    let state = state.toggle_nb();
    assert!(!state.noise_blanker_enabled());
}

#[test]
fn radio_state_preamp() {
    let state = RadioState::default();
    assert!(!state.preamp_enabled());

    let state = state.toggle_preamp();
    assert!(state.preamp_enabled());
}

#[test]
fn radio_state_attenuator() {
    let state = RadioState::default();
    assert!(!state.attenuator_enabled());

    let state = state.toggle_attenuator();
    assert!(state.attenuator_enabled());
}


#[test]
fn agc_mode_attack_decay() {
    assert_eq!(AgcMode::Off.attack_ms(), 0);
    assert_eq!(AgcMode::Off.decay_ms(), 0);

    assert_eq!(AgcMode::Fast.attack_ms(), 2);
    assert_eq!(AgcMode::Fast.decay_ms(), 100);

    assert_eq!(AgcMode::Medium.attack_ms(), 10);
    assert_eq!(AgcMode::Medium.decay_ms(), 500);

    assert_eq!(AgcMode::Slow.attack_ms(), 50);
    assert_eq!(AgcMode::Slow.decay_ms(), 2000);
}

#[test]
fn agc_mode_next_cycles() {
    let mode = AgcMode::Off;
    let mode = mode.next();
    assert_eq!(mode, AgcMode::Fast);

    let mode = mode.next();
    assert_eq!(mode, AgcMode::Medium);

    let mode = mode.next();
    assert_eq!(mode, AgcMode::Slow);

    let mode = mode.next();
    assert_eq!(mode, AgcMode::Off);
}


#[test]
fn vfo_select_toggle() {
    let sel = VfoSelect::A;
    assert_eq!(sel.toggle(), VfoSelect::B);
    assert_eq!(sel.toggle().toggle(), VfoSelect::A);
}


#[test]
fn apply_event_tune_up() {
    let state = RadioState::default().with_step(TuningStep::Hz100);
    let state = apply_event(state, RadioEvent::Tune(1));
    assert_eq!(state.frequency().as_hz(), 7_074_100);
}

#[test]
fn apply_event_tune_down() {
    let state = RadioState::default().with_step(TuningStep::Hz100);
    let state = apply_event(state, RadioEvent::Tune(-1));
    assert_eq!(state.frequency().as_hz(), 7_073_900);
}

#[test]
fn apply_event_tune_multiple_steps() {
    let state = RadioState::default().with_step(TuningStep::KHz1);
    let state = apply_event(state, RadioEvent::Tune(5));
    assert_eq!(state.frequency().as_hz(), 7_079_000);
}

#[test]
fn apply_event_set_frequency() {
    let state = RadioState::default();
    let freq = Frequency::from_hz(14_074_000).unwrap();
    let state = apply_event(state, RadioEvent::SetFrequency(freq));
    assert_eq!(state.frequency().as_hz(), 14_074_000);
}

#[test]
fn apply_event_set_mode() {
    let state = RadioState::default();
    let state = apply_event(state, RadioEvent::SetMode(Mode::Cw));
    assert_eq!(state.mode(), Mode::Cw);
}

#[test]
fn apply_event_next_mode() {
    let state = RadioState::default().with_mode(Mode::Usb);
    let state = apply_event(state, RadioEvent::NextMode);
    assert_eq!(state.mode(), Mode::Cw);
}

#[test]
fn apply_event_set_step() {
    let state = RadioState::default();
    let state = apply_event(state, RadioEvent::SetStep(TuningStep::KHz10));
    assert_eq!(state.step(), TuningStep::KHz10);
}

#[test]
fn apply_event_next_step() {
    let state = RadioState::default().with_step(TuningStep::Hz100);
    let state = apply_event(state, RadioEvent::NextStep);
    assert_eq!(state.step(), TuningStep::KHz1);
}

#[test]
fn apply_event_start_tx() {
    let state = RadioState::default();
    let state = apply_event(state, RadioEvent::StartTx);
    assert_eq!(state.txrx(), TxRxState::Switching);
}

#[test]
fn apply_event_stop_tx() {
    let state = RadioState::default().with_txrx(TxRxState::Tx);
    let state = apply_event(state, RadioEvent::StopTx);
    assert_eq!(state.txrx(), TxRxState::Switching);
}

#[test]
fn apply_event_set_power() {
    let state = RadioState::default();
    let power = PowerLevel::from_percent(75);
    let state = apply_event(state, RadioEvent::SetPower(power));
    assert_eq!(state.power().as_percent(), 75);
}

#[test]
fn apply_event_toggle_rit() {
    let state = RadioState::default();
    let _state = apply_event(state, RadioEvent::ToggleRit);
    // Can't directly check rit_enabled, but RX frequency should differ after setting offset
}

#[test]
fn apply_event_adjust_rit() {
    let state = RadioState::default();
    let state = apply_event(state, RadioEvent::ToggleRit);
    let state = apply_event(state, RadioEvent::AdjustRit(500));
    assert_eq!(state.rx_frequency().as_hz(), 7_074_500);
}

#[test]
fn apply_event_clear_rit() {
    let state = RadioState::default();
    let state = apply_event(state, RadioEvent::ToggleRit);
    let state = apply_event(state, RadioEvent::AdjustRit(500));
    let state = apply_event(state, RadioEvent::ClearRit);
    assert_eq!(state.rx_frequency().as_hz(), 7_074_000);
}

#[test]
fn apply_event_toggle_xit() {
    let state = RadioState::default();
    let _state = apply_event(state, RadioEvent::ToggleXit);
    // XIT toggled
}

#[test]
fn apply_event_cycle_agc() {
    let state = RadioState::default();
    assert_eq!(state.agc_mode(), AgcMode::Medium);

    let state = apply_event(state, RadioEvent::CycleAgc);
    assert_eq!(state.agc_mode(), AgcMode::Slow);
}

#[test]
fn apply_event_toggle_nb() {
    let state = RadioState::default();
    let state = apply_event(state, RadioEvent::ToggleNb);
    assert!(state.noise_blanker_enabled());
}

#[test]
fn apply_event_toggle_preamp() {
    let state = RadioState::default();
    let state = apply_event(state, RadioEvent::TogglePreamp);
    assert!(state.preamp_enabled());
}

#[test]
fn apply_event_toggle_att() {
    let state = RadioState::default();
    let state = apply_event(state, RadioEvent::ToggleAtt);
    assert!(state.attenuator_enabled());
}

#[test]
fn apply_event_vfo_events_passthrough() {
    // VFO events are handled at higher level, should pass through unchanged
    let state = RadioState::default();
    let state = apply_event(state, RadioEvent::SwitchVfo);
    // State should be unchanged
    assert_eq!(state.frequency().as_hz(), 7_074_000);
}


#[test]
fn tx_state_as_txrx() {
    assert_eq!(TxState::Rx.as_txrx(), TxRxState::Rx);
    assert_eq!(TxState::Tx.as_txrx(), TxRxState::Tx);
    assert_eq!(TxState::SwitchingToTx.as_txrx(), TxRxState::Switching);
    assert_eq!(TxState::SwitchingToRx.as_txrx(), TxRxState::Switching);
    assert_eq!(TxState::Inhibited.as_txrx(), TxRxState::Rx);
}

#[test]
fn tx_state_default() {
    assert_eq!(TxState::default(), TxState::Rx);
}


#[test]
fn tx_controller_new() {
    let ctrl = TxController::new();
    assert_eq!(ctrl.state(), TxState::Rx);
    assert!(!ctrl.is_transmitting());
    assert!(!ctrl.is_switching());
}

#[test]
fn tx_controller_default() {
    let ctrl = TxController::default();
    assert_eq!(ctrl.state(), TxState::Rx);
}

#[test]
fn tx_controller_ptt_sequence() {
    let mut ctrl = TxController::new();

    // Press PTT
    ctrl.set_ptt(true);
    let action = ctrl.update(0);
    assert_eq!(action, TxAction::EnableTrRelay);
    assert_eq!(ctrl.state(), TxState::SwitchingToTx);
    assert!(ctrl.is_switching());

    // Wait for relay delay (10ms = 10000us)
    let action = ctrl.update(5000);
    assert_eq!(action, TxAction::NoAction);
    assert_eq!(ctrl.state(), TxState::SwitchingToTx);

    let action = ctrl.update(5000);
    assert_eq!(action, TxAction::EnablePa);
    assert_eq!(ctrl.state(), TxState::Tx);
    assert!(ctrl.is_transmitting());

    // Release PTT
    ctrl.set_ptt(false);
    let action = ctrl.update(0);
    assert_eq!(action, TxAction::DisablePa);
    assert_eq!(ctrl.state(), TxState::SwitchingToRx);

    // Wait for switch delay
    let action = ctrl.update(10000);
    assert_eq!(action, TxAction::DisableTrRelay);
    assert_eq!(ctrl.state(), TxState::Rx);
}

#[test]
fn tx_controller_vox_trigger() {
    let mut ctrl = TxController::new();

    // VOX trigger
    ctrl.set_vox(true);
    let action = ctrl.update(0);
    assert_eq!(action, TxAction::EnableTrRelay);

    // Wait for switching
    ctrl.update(10000);
    assert_eq!(ctrl.state(), TxState::Tx);
}

#[test]
fn tx_controller_inhibit_prevents_tx() {
    let mut ctrl = TxController::new();

    ctrl.set_inhibit(true);
    ctrl.set_ptt(true);
    let action = ctrl.update(0);
    assert_eq!(action, TxAction::NoAction);
    assert_eq!(ctrl.state(), TxState::Rx);
}

#[test]
fn tx_controller_ptt_abort_during_switching() {
    let mut ctrl = TxController::new();

    // Start switching to TX
    ctrl.set_ptt(true);
    ctrl.update(0);
    assert_eq!(ctrl.state(), TxState::SwitchingToTx);

    // Release PTT before switch completes
    ctrl.set_ptt(false);
    let action = ctrl.update(5000);
    assert_eq!(action, TxAction::DisableTrRelay);
    assert_eq!(ctrl.state(), TxState::SwitchingToRx);
}

#[test]
fn tx_controller_power_setting() {
    let mut ctrl = TxController::new();
    let power = PowerLevel::from_percent(50);

    ctrl.set_power(power);
    assert_eq!(ctrl.power().as_percent(), 50);
    assert_eq!(ctrl.actual_power().as_percent(), 50);
}

#[test]
fn tx_controller_power_not_changed_during_tx() {
    let mut ctrl = TxController::new();
    ctrl.set_power(PowerLevel::from_percent(100));

    // Go to TX
    ctrl.set_ptt(true);
    ctrl.update(0);
    ctrl.update(10000);
    assert!(ctrl.is_transmitting());

    // Try to change power
    ctrl.set_power(PowerLevel::from_percent(25));

    // Requested power changed, but actual power stayed same
    assert_eq!(ctrl.power().as_percent(), 25);
    // Note: actual_power is set when entering TX, not when setting power
}

#[test]
fn tx_controller_swr_protection_high() {
    let mut ctrl = TxController::new();
    ctrl.set_power(PowerLevel::from_percent(100));

    // Go to TX
    ctrl.set_ptt(true);
    ctrl.update(0);
    ctrl.update(10000);

    // High SWR reading (above 3.0)
    let swr = SwrReading { forward: 100, reflected: 40 }; // Roughly 3.5:1 SWR
    ctrl.update_swr(swr);

    // Power should be reduced
    assert!(ctrl.actual_power().as_percent() < 100);
    assert_eq!(ctrl.swr_trip_count(), 1);
}

#[test]
fn tx_controller_swr_protection_critical() {
    let mut ctrl = TxController::new();

    // Go to TX
    ctrl.set_ptt(true);
    ctrl.update(0);
    ctrl.update(10000);
    assert!(ctrl.is_transmitting());

    // Critical SWR (above 5.0)
    let swr = SwrReading { forward: 100, reflected: 70 }; // > 5:1 SWR
    ctrl.update_swr(swr);

    // Should go to inhibited state
    assert_eq!(ctrl.state(), TxState::Inhibited);
    assert_eq!(ctrl.actual_power().as_percent(), 0);
}

#[test]
fn tx_controller_clear_swr_trip() {
    let mut ctrl = TxController::new();

    // Go to TX and trigger SWR
    ctrl.set_ptt(true);
    ctrl.update(0);
    ctrl.update(10000);
    ctrl.update_swr(SwrReading { forward: 100, reflected: 70 });

    assert_eq!(ctrl.state(), TxState::Inhibited);
    assert!(ctrl.swr_trip_count() > 0);

    // Clear trip
    ctrl.set_ptt(false);
    ctrl.clear_swr_trip();

    assert_eq!(ctrl.state(), TxState::Rx);
    assert_eq!(ctrl.swr_trip_count(), 0);
}

#[test]
fn tx_controller_timeout() {
    let mut ctrl = TxController::new();
    ctrl.set_timeout(2); // 2 second timeout

    // Go to TX
    ctrl.set_ptt(true);
    ctrl.update(0);
    ctrl.update(10000);
    assert!(ctrl.is_transmitting());

    // Tick timeout
    ctrl.tick_timeout();
    let action = ctrl.update(0);
    assert_eq!(action, TxAction::SetPower(ctrl.actual_power()));

    ctrl.tick_timeout();
    let action = ctrl.update(0);

    // After 2 seconds, should timeout
    assert_eq!(action, TxAction::DisablePa);
    assert_eq!(ctrl.state(), TxState::SwitchingToRx);
}

#[test]
fn tx_controller_timeout_disabled() {
    let mut ctrl = TxController::new();
    ctrl.set_timeout(0); // Disable timeout

    // Go to TX
    ctrl.set_ptt(true);
    ctrl.update(0);
    ctrl.update(10000);

    // Many ticks should not cause timeout
    for _ in 0..1000 {
        ctrl.tick_timeout();
    }
    let action = ctrl.update(0);
    assert_eq!(action, TxAction::SetPower(ctrl.actual_power()));
    assert!(ctrl.is_transmitting());
}

#[test]
fn tx_controller_txrx_state() {
    let ctrl = TxController::new();
    assert_eq!(ctrl.txrx(), TxRxState::Rx);
}

#[test]
fn tx_controller_last_swr() {
    let mut ctrl = TxController::new();
    assert!(ctrl.last_swr().is_none());

    let swr = SwrReading { forward: 100, reflected: 20 };
    ctrl.update_swr(swr);

    assert!(ctrl.last_swr().is_some());
}



#[test]
fn tx_controller_relay_waits_after_pa_off() {
    let mut ctrl = TxController::new();
    ctrl.set_ptt(true);
    ctrl.update(0);
    assert_eq!(ctrl.update(10000), TxAction::EnablePa);
    ctrl.set_ptt(false);
    assert_eq!(ctrl.update(0), TxAction::DisablePa);
    // The relay is held for the full delay after the PA goes off
    assert_eq!(ctrl.update(0), TxAction::NoAction);
    assert_eq!(ctrl.update(9999), TxAction::NoAction);
    assert_eq!(ctrl.state(), TxState::SwitchingToRx);
    assert_eq!(ctrl.update(1), TxAction::DisableTrRelay);
    assert_eq!(ctrl.state(), TxState::Rx);
}

#[test]
fn tx_controller_critical_swr_shuts_down() {
    let mut ctrl = TxController::new();
    ctrl.set_ptt(true);
    ctrl.update(0);
    ctrl.update(10000);
    ctrl.update_swr(SwrReading { forward: 100, reflected: 70 });
    assert_eq!(ctrl.state(), TxState::Inhibited);
    assert_eq!(ctrl.update(0), TxAction::DisablePa);
    assert_eq!(ctrl.update(5000), TxAction::NoAction);
    assert_eq!(ctrl.update(5000), TxAction::DisableTrRelay);
    // Still inhibited while PTT is held
    assert_eq!(ctrl.update(0), TxAction::NoAction);
    assert_eq!(ctrl.state(), TxState::Inhibited);
    ctrl.set_ptt(false);
    assert_eq!(ctrl.update(0), TxAction::NoAction);
    assert_eq!(ctrl.state(), TxState::Rx);
}
