use vstd::prelude::*;

verus! {

/// Label of the single main window.
pub const MAIN_WINDOW_LABEL: &'static str = "main";

/// Identifier of the tray icon.
pub const TRAY_ID: &'static str = "main-tray";

/// Tooltip shown over the tray icon.
pub const TRAY_TOOLTIP: &'static str = "CohortSec — Цифровой телохранитель";

/// Event sent to the interface to start a security check.
pub const CHECK_SECURITY_EVENT: &'static str = "check-security";

/// Argument the autostart registration passes so the window starts minimized.
pub const MINIMIZED_FLAG: &'static str = "--minimized";

} // verus!
