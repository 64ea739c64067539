//! Decisions of the CohortSec desktop shell: the security status it reports,
//! the tray menu and how its entries dispatch, which tray and window events
//! reveal or hide the main window, what a security check does, and how the
//! autostart registration is requested. Each decision is a list of effects
//! that the host runtime carries out; `ShellState` models what those effects
//! do to the main window and the process.

pub mod autostart;
pub mod effect;
pub mod menu;
pub mod names;
pub mod shell;
pub mod status;
pub mod text;
pub mod tray;
