use vstd::prelude::*;

verus! {

/// A mouse button over the tray icon.
#[derive(PartialEq, Eq, Structural, Clone, Copy, Debug)]
pub enum MouseButton {
    Left,
    Right,
    Middle,
}

/// Whether a button was pressed or released.
#[derive(PartialEq, Eq, Structural, Clone, Copy, Debug)]
pub enum MouseButtonState {
    Up,
    Down,
}

/// An event the runtime reports for the tray icon.
#[derive(PartialEq, Eq, Structural, Clone, Copy, Debug)]
pub enum TrayIconEvent {
    Click { button: MouseButton, button_state: MouseButtonState },
    DoubleClick { button: MouseButton },
    Enter,
    Move,
    Leave,
}

/// The tray icon events that bring up the main window: a release of the left
/// button. Every other event is ignored.
pub open spec fn reveals_main_window(ev: TrayIconEvent) -> bool {
    ev matches TrayIconEvent::Click { button: MouseButton::Left, button_state: MouseButtonState::Up }
}

impl TrayIconEvent {
    /// Whether this event brings up the main window.
    pub fn reveals_main(&self) -> (r: bool)
        ensures
            r == reveals_main_window(*self),
    {
        match self {
            TrayIconEvent::Click { button: MouseButton::Left, button_state: MouseButtonState::Up } => true,
            _ => false,
        }
    }
}

} // verus!
