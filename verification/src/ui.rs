//! User Interface
//!
//! The screen and menu state machine driven by encoder events. Drawing is
//! done by the application from this state.

use vstd::prelude::*;
use crate::drivers::encoder::{Direction, EncoderEvent};
use crate::types::{Frequency, Mode};

verus! {

/// UI screen/mode
#[derive(Clone, Copy, Debug, PartialEq, Eq, Structural, Default)]
pub enum Screen {
    /// Main operating screen
    #[default]
    Main,
    /// Menu screen
    Menu,
    /// VFO editing
    VfoEdit,
    /// Memory channels
    Memory,
    /// Settings
    Settings,
    /// Band scope (if display allows)
    Scope,
}

/// Menu action
#[derive(Clone, Copy, Debug)]
pub enum MenuAction {
    /// Go to screen
    GoTo(Screen),
    /// Toggle boolean setting
    Toggle(&'static str),
    /// Adjust numeric value (name, min, max)
    Adjust(&'static str, i32, i32),
    /// Execute function
    Execute(&'static str),
    /// Back to previous menu
    Back,
}

/// Menu item
#[derive(Clone, Copy, Debug)]
pub struct MenuItem {
    /// Item label
    pub label: &'static str,
    /// Item action or submenu
    pub action: MenuAction,
}

/// Number of entries in the main menu.
pub const MAIN_MENU_LEN: usize = 5;

/// What the main menu entry at `index` does: Mode, Band, Memory, Settings,
/// Back.
pub open spec fn main_menu_action(index: int) -> MenuAction {
    if index == 2 {
        MenuAction::GoTo(Screen::Memory)
    } else if index == 3 {
        MenuAction::GoTo(Screen::Settings)
    } else if index == 4 {
        MenuAction::Back
    } else {
        MenuAction::GoTo(Screen::Main)
    }
}

/// The main menu entry at `index`
pub fn main_menu_item(index: usize) -> (r: MenuItem)
    requires
        index < MAIN_MENU_LEN,
    ensures
        r.action == main_menu_action(index as int),
{
    match index {
        0 => MenuItem { label: "Mode", action: MenuAction::GoTo(Screen::Main) },
        1 => MenuItem { label: "Band", action: MenuAction::GoTo(Screen::Main) },
        2 => MenuItem { label: "Memory", action: MenuAction::GoTo(Screen::Memory) },
        3 => MenuItem { label: "Settings", action: MenuAction::GoTo(Screen::Settings) },
        _ => MenuItem { label: "Back", action: MenuAction::Back },
    }
}

/// The main menu items, in display order
pub fn main_menu() -> (r: Vec<MenuItem>)
    ensures
        r@.len() == MAIN_MENU_LEN,
        forall|i: int| 0 <= i < MAIN_MENU_LEN ==> (#[trigger] r@[i]).action == main_menu_action(i),
{
    let mut v: Vec<MenuItem> = Vec::new();
    let mut i: usize = 0;
    while i < MAIN_MENU_LEN
        invariant
            i <= MAIN_MENU_LEN,
            v@.len() == i,
            forall|j: int| 0 <= j < i ==> (#[trigger] v@[j]).action == main_menu_action(j),
        decreases MAIN_MENU_LEN - i,
    {
        v.push(main_menu_item(i));
        i = i + 1;
    }
    v
}

/// UI action (result of user interaction)
#[derive(Clone, Copy, Debug)]
pub enum UiAction {
    /// Tune by steps
    Tune(i32),
    /// Set frequency directly
    SetFrequency(Frequency),
    /// Change mode
    SetMode(Mode),
    /// Next tuning step
    NextStep,
    /// Toggle PTT
    TogglePtt,
    /// Execute command by name
    Execute(&'static str),
}

/// Mathematical model of the UI state.
pub struct UiModel {
    pub screen: Screen,
    pub prev_screen: Screen,
    pub menu_index: nat,
    pub s_meter: u8,
    pub needs_update: bool,
}

/// The state after switching to `screen`: the old screen is remembered
/// for going back and the menu selection restarts at the top.
pub open spec fn ui_set_screen(m: UiModel, screen: Screen) -> UiModel {
    UiModel { screen, prev_screen: m.screen, menu_index: 0, needs_update: true, ..m }
}

/// The state after going back to the remembered screen.
pub open spec fn ui_go_back(m: UiModel) -> UiModel {
    UiModel { screen: m.prev_screen, needs_update: true, ..m }
}

/// Tuning steps for a rotation: positive clockwise (the step count is
/// taken as an `i32`, wrapping above `i32::MAX`).
pub open spec fn rotation_delta(direction: Direction, steps: u32) -> int {
    match direction {
        Direction::Clockwise => steps as i32 as int,
        Direction::CounterClockwise => -(steps as i32 as int),
    }
}

/// Whether the main screen can turn the event into a tuning request: a
/// counter-clockwise count must be negatable as an `i32`.
pub open spec fn ui_event_ok(m: UiModel, event: EncoderEvent) -> bool {
    m.screen == Screen::Main ==> match event {
        EncoderEvent::Rotate { direction: Direction::CounterClockwise, steps } => steps != 0x8000_0000u32,
        _ => true,
    }
}

/// The UI after an encoder event and the action it asks for. On the main
/// screen rotation tunes, a press steps the tuning rate and a long press
/// opens the menu; in the menu rotation moves the selection round the
/// menu and a press activates the selected entry; other screens ignore
/// the encoder.
pub open spec fn ui_handle(m: UiModel, event: EncoderEvent) -> (UiModel, Option<UiAction>) {
    match m.screen {
        Screen::Main => match event {
            EncoderEvent::Rotate { direction, steps } => (m, Some(UiAction::Tune(rotation_delta(direction, steps) as i32))),
            EncoderEvent::ButtonPress => (m, Some(UiAction::NextStep)),
            EncoderEvent::LongPress => (ui_set_screen(m, Screen::Menu), None),
            _ => (m, None),
        },
        Screen::Menu => match event {
            EncoderEvent::Rotate { direction, .. } => {
                let idx = match direction {
                    Direction::Clockwise => (m.menu_index + 1) % (MAIN_MENU_LEN as nat),
                    Direction::CounterClockwise => if m.menu_index == 0 {
                        (MAIN_MENU_LEN - 1) as nat
                    } else {
                        (m.menu_index - 1) as nat
                    },
                };
                (UiModel { menu_index: idx, needs_update: true, ..m }, None)
            },
            EncoderEvent::ButtonPress => match main_menu_action(m.menu_index as int) {
                MenuAction::GoTo(screen) => (ui_set_screen(m, screen), None),
                MenuAction::Back => (ui_go_back(m), None),
                MenuAction::Execute(cmd) => (m, Some(UiAction::Execute(cmd))),
                _ => (m, None),
            },
            _ => (m, None),
        },
        _ => (m, None),
    }
}

/// UI state
#[derive(Clone, Copy, Debug)]
pub struct UiState {
    /// Current screen
    screen: Screen,
    /// Previous screen (for back navigation)
    prev_screen: Screen,
    /// Menu selection index
    menu_index: usize,
    /// S-meter level (0-100)
    s_meter: u8,
    /// Update flags
    needs_update: bool,
}

impl View for UiState {
    type V = UiModel;

    closed spec fn view(&self) -> UiModel {
        UiModel {
            screen: self.screen,
            prev_screen: self.prev_screen,
            menu_index: self.menu_index as nat,
            s_meter: self.s_meter,
            needs_update: self.needs_update,
        }
    }
}

impl UiState {
    /// The menu selection is always a menu entry.
    #[verifier::type_invariant]
    closed spec fn menu_index_valid(self) -> bool {
        self.menu_index < MAIN_MENU_LEN
    }

    /// Create new UI state
    pub fn new() -> (r: Self)
        ensures
            r@ == (UiModel {
                screen: Screen::Main,
                prev_screen: Screen::Main,
                menu_index: 0,
                s_meter: 0,
                needs_update: true,
            }),
    {
        Self { screen: Screen::Main, prev_screen: Screen::Main, menu_index: 0, s_meter: 0, needs_update: true }
    }

    /// Get current screen
    pub fn screen(&self) -> (r: Screen)
        ensures
            r == self@.screen,
    {
        self.screen
    }

    /// Selected main menu entry
    pub fn menu_index(&self) -> (r: usize)
        ensures
            r == self@.menu_index,
            r < MAIN_MENU_LEN,
    {
        proof {
            use_type_invariant(self);
        }
        self.menu_index
    }

    /// S-meter level (0-100)
    pub fn s_meter(&self) -> (r: u8)
        ensures
            r == self@.s_meter,
    {
        self.s_meter
    }

    /// Set screen
    pub fn set_screen(&mut self, screen: Screen)
        ensures
            final(self)@ == ui_set_screen(old(self)@, screen),
    {
        proof {
            use_type_invariant(&*self);
        }
        self.prev_screen = self.screen;
        self.screen = screen;
        self.menu_index = 0;
        self.needs_update = true;
    }

    /// Go back to previous screen
    pub fn go_back(&mut self)
        ensures
            final(self)@ == ui_go_back(old(self)@),
    {
        proof {
            use_type_invariant(&*self);
        }
        self.screen = self.prev_screen;
        self.needs_update = true;
    }

    /// Update S-meter
    pub fn set_s_meter(&mut self, level: u8)
        ensures
            old(self)@.s_meter != level ==> final(self)@ == (UiModel { s_meter: level, needs_update: true, ..old(self)@ }),
            old(self)@.s_meter == level ==> final(self)@ == old(self)@,
    {
        proof {
            use_type_invariant(&*self);
        }
        if self.s_meter != level {
            self.s_meter = level;
            self.needs_update = true;
        }
    }

    /// Check if display needs update
    pub fn needs_update(&self) -> (r: bool)
        ensures
            r == self@.needs_update,
    {
        self.needs_update
    }

    /// Mark as updated
    pub fn mark_updated(&mut self)
        ensures
            final(self)@ == (UiModel { needs_update: false, ..old(self)@ }),
    {
        proof {
            use_type_invariant(&*self);
        }
        self.needs_update = false;
    }

    /// Force update
    pub fn invalidate(&mut self)
        ensures
            final(self)@ == (UiModel { needs_update: true, ..old(self)@ }),
    {
        proof {
            use_type_invariant(&*self);
        }
        self.needs_update = true;
    }

    /// Handle encoder event
    pub fn handle_encoder(&mut self, event: EncoderEvent) -> (r: Option<UiAction>)
        requires
            ui_event_ok(old(self)@, event),
        ensures
            (final(self)@, r) == ui_handle(old(self)@, event),
    {
        match self.screen {
            Screen::Main => self.handle_main_encoder(event),
            Screen::Menu => self.handle_menu_encoder(event),
            _ => None,
        }
    }

    fn handle_main_encoder(&mut self, event: EncoderEvent) -> (r: Option<UiAction>)
        requires
            old(self)@.screen == Screen::Main,
            ui_event_ok(old(self)@, event),
        ensures
            (final(self)@, r) == ui_handle(old(self)@, event),
    {
        match event {
            EncoderEvent::Rotate { direction, steps } => {
                assert(steps != 0x8000_0000u32 ==> (steps as i32) != i32::MIN) by (bit_vector);
                let delta = match direction {
                    Direction::Clockwise => steps as i32,
                    Direction::CounterClockwise => -(steps as i32),
                };
                Some(UiAction::Tune(delta))
            },
            EncoderEvent::ButtonPress => Some(UiAction::NextStep),
            EncoderEvent::LongPress => {
                self.set_screen(Screen::Menu);
                None
            },
            _ => None,
        }
    }

    fn handle_menu_encoder(&mut self, event: EncoderEvent) -> (r: Option<UiAction>)
        requires
            old(self)@.screen == Screen::Menu,
        ensures
            (final(self)@, r) == ui_handle(old(self)@, event),
    {
        proof {
            use_type_invariant(&*self);
        }
        match event {
            EncoderEvent::Rotate { direction, .. } => {
                match direction {
                    Direction::Clockwise => {
                        self.menu_index = (self.menu_index + 1) % MAIN_MENU_LEN;
                    },
                    Direction::CounterClockwise => {
                        self.menu_index = if self.menu_index == 0 {
                            MAIN_MENU_LEN - 1
                        } else {
                            self.menu_index - 1
                        };
                    },
                }
                self.needs_update = true;
                None
            },
            EncoderEvent::ButtonPress => {
                let item = main_menu_item(self.menu_index);
                match item.action {
                    MenuAction::GoTo(screen) => {
                        self.set_screen(screen);
                    },
                    MenuAction::Back => {
                        self.go_back();
                    },
                    MenuAction::Execute(cmd) => {
                        return Some(UiAction::Execute(cmd));
                    },
                    _ => {},
                }
                None
            },
            _ => None,
        }
    }
}

impl Default for UiState {
    fn default() -> (r: Self)
        ensures
            r@ == (UiModel {
                screen: Screen::Main,
                prev_screen: Screen::Main,
                menu_index: 0,
                s_meter: 0,
                needs_update: true,
            }),
    {
        Self::new()
    }
}

/// Opening the menu with a long press and choosing Back returns to the
/// main screen: the menu remembers where it was opened from.
pub proof fn lemma_menu_back_returns(m: UiModel)
    requires
        m.screen == Screen::Main,
    ensures
        ({
            let (m1, _) = ui_handle(m, EncoderEvent::LongPress);
            let m2 = UiModel { menu_index: 4, ..m1 };
            let (m3, a) = ui_handle(m2, EncoderEvent::ButtonPress);
            m3.screen == Screen::Main && a is None
        }),
{
}

/// Turning the knob one way and then back by the same count of detents in
/// the menu leaves the selection where it was.
pub proof fn lemma_menu_rotation_inverse(m: UiModel)
    requires
        m.screen == Screen::Menu,
        m.menu_index < MAIN_MENU_LEN,
    ensures
        ({
            let (m1, _) = ui_handle(m, EncoderEvent::Rotate { direction: Direction::Clockwise, steps: 1 });
            let (m2, _) = ui_handle(m1, EncoderEvent::Rotate { direction: Direction::CounterClockwise, steps: 1 });
            m2.menu_index == m.menu_index && m2.screen == Screen::Menu
        }),
{
}

} // verus!
