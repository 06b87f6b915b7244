use sdr_firmware::drivers::encoder::{Direction, EncoderEvent};
use sdr_firmware::ui::{main_menu, MenuAction, Screen, UiAction, UiState};

#[test]
fn ui_main_screen_actions() {
    let mut ui = UiState::new();
    assert_eq!(ui.screen(), Screen::Main);
    let a = ui.handle_encoder(EncoderEvent::Rotate { direction: Direction::CounterClockwise, steps: 3 });
    assert!(matches!(a, Some(UiAction::Tune(-3))));
    let a = ui.handle_encoder(EncoderEvent::Rotate { direction: Direction::Clockwise, steps: 2 });
    assert!(matches!(a, Some(UiAction::Tune(2))));
    assert!(matches!(ui.handle_encoder(EncoderEvent::ButtonPress), Some(UiAction::NextStep)));
    assert!(ui.handle_encoder(EncoderEvent::ButtonRelease).is_none());
}

#[test]
fn ui_menu_navigation() {
    let mut ui = UiState::new();
    assert!(ui.handle_encoder(EncoderEvent::LongPress).is_none());
    assert_eq!(ui.screen(), Screen::Menu);
    assert_eq!(ui.menu_index(), 0);
    ui.handle_encoder(EncoderEvent::Rotate { direction: Direction::CounterClockwise, steps: 1 });
    assert_eq!(ui.menu_index(), 4);
    ui.handle_encoder(EncoderEvent::Rotate { direction: Direction::Clockwise, steps: 1 });
    assert_eq!(ui.menu_index(), 0);
    // Memory entry
    ui.handle_encoder(EncoderEvent::Rotate { direction: Direction::Clockwise, steps: 1 });
    ui.handle_encoder(EncoderEvent::Rotate { direction: Direction::Clockwise, steps: 1 });
    assert!(ui.handle_encoder(EncoderEvent::ButtonPress).is_none());
    assert_eq!(ui.screen(), Screen::Memory);
    // Other screens ignore the encoder
    assert!(ui.handle_encoder(EncoderEvent::ButtonPress).is_none());
    assert_eq!(ui.screen(), Screen::Memory);
    ui.go_back();
    assert_eq!(ui.screen(), Screen::Menu);
}

#[test]
fn ui_menu_back_returns_to_main() {
    let mut ui = UiState::new();
    ui.handle_encoder(EncoderEvent::LongPress);
    ui.handle_encoder(EncoderEvent::Rotate { direction: Direction::CounterClockwise, steps: 1 });
    ui.handle_encoder(EncoderEvent::ButtonPress);
    assert_eq!(ui.screen(), Screen::Main);
}

#[test]
fn ui_update_flags() {
    let mut ui = UiState::default();
    assert!(ui.needs_update());
    ui.mark_updated();
    assert!(!ui.needs_update());
    ui.set_s_meter(0);
    assert!(!ui.needs_update());
    ui.set_s_meter(40);
    assert!(ui.needs_update());
    assert_eq!(ui.s_meter(), 40);
    ui.mark_updated();
    ui.invalidate();
    assert!(ui.needs_update());
}

#[test]
fn ui_main_menu_entries() {
    let menu = main_menu();
    let labels: Vec<&str> = menu.iter().map(|m| m.label).collect();
    assert_eq!(labels, vec!["Mode", "Band", "Memory", "Settings", "Back"]);
    assert!(matches!(menu[3].action, MenuAction::GoTo(Screen::Settings)));
    assert!(matches!(menu[4].action, MenuAction::Back));
}
