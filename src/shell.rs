use vstd::prelude::*;
use crate::effect::{Effect, Notice, ShellState, WindowState, lemma_occurrences_short, occurrences};
use crate::menu::{MenuAction, action_for_id};
use crate::tray::{MouseButton, MouseButtonState, TrayIconEvent, reveals_main_window};

verus! {

/// Show and focus the main window where it exists; nothing otherwise.
pub open spec fn reveal_main_spec(main_exists: bool) -> Seq<Effect> {
    if main_exists {
        seq![Effect::ShowMain, Effect::FocusMain]
    } else {
        seq![]
    }
}

pub open spec fn tray_icon_spec(ev: TrayIconEvent, main_exists: bool) -> Seq<Effect> {
    if reveals_main_window(ev) {
        reveal_main_spec(main_exists)
    } else {
        seq![]
    }
}

pub open spec fn menu_action_spec(a: MenuAction, main_exists: bool) -> Seq<Effect> {
    match a {
        MenuAction::Show => reveal_main_spec(main_exists),
        MenuAction::Check => seq![Effect::EmitCheckSecurity, Effect::Notify(Notice::TrayCheck)],
        MenuAction::Quit => seq![Effect::Exit(0)],
    }
}

pub open spec fn menu_event_spec(id: Seq<char>, main_exists: bool) -> Seq<Effect> {
    match action_for_id(id) {
        Some(a) => menu_action_spec(a, main_exists),
        None => seq![],
    }
}

pub open spec fn close_request_spec() -> Seq<Effect> {
    seq![Effect::HideWindow, Effect::PreventClose]
}

pub open spec fn security_check_spec() -> Seq<Effect> {
    seq![Effect::EmitCheckSecurity, Effect::Notify(Notice::CommandCheck)]
}

/// The state after a close request answered with `es`: the runtime carries
/// out `es`, then destroys the window unless `es` prevented the close.
pub open spec fn close_outcome(s: ShellState, es: Seq<Effect>) -> ShellState {
    let t = s.after_all(es);
    if es.contains(Effect::PreventClose) || !t.running() {
        t
    } else {
        ShellState { main: None, ..t }
    }
}

/// Show and focus the main window, where it exists.
pub fn reveal_main_effects(main_exists: bool) -> (r: Vec<Effect>)
    ensures
        r@ == reveal_main_spec(main_exists),
{
    if main_exists {
        vec![Effect::ShowMain, Effect::FocusMain]
    } else {
        Vec::new()
    }
}

/// The answer to an event of the tray icon: a left-button release brings up
/// the main window; every other event is ignored.
pub fn tray_icon_effects(ev: &TrayIconEvent, main_exists: bool) -> (r: Vec<Effect>)
    ensures
        r@ == tray_icon_spec(*ev, main_exists),
{
    if ev.reveals_main() {
        reveal_main_effects(main_exists)
    } else {
        Vec::new()
    }
}

/// The answer to a selected menu entry.
pub fn menu_action_effects(a: MenuAction, main_exists: bool) -> (r: Vec<Effect>)
    ensures
        r@ == menu_action_spec(a, main_exists),
{
    match a {
        MenuAction::Show => reveal_main_effects(main_exists),
        MenuAction::Check => vec![Effect::EmitCheckSecurity, Effect::Notify(Notice::TrayCheck)],
        MenuAction::Quit => vec![Effect::Exit(0)],
    }
}

/// The answer to a menu event with identifier `id`; an identifier that is not
/// on the menu is ignored.
pub fn menu_event_effects(id: &str, main_exists: bool) -> (r: Vec<Effect>)
    ensures
        r@ == menu_event_spec(id@, main_exists),
{
    match MenuAction::from_id(id) {
        Some(a) => menu_action_effects(a, main_exists),
        None => Vec::new(),
    }
}

/// The answer to a request to close a window: hide it and keep it alive.
pub fn close_request_effects() -> (r: Vec<Effect>)
    ensures
        r@ == close_request_spec(),
{
    vec![Effect::HideWindow, Effect::PreventClose]
}

/// What the interface's request for a security check does: send the
/// check-security event, then show a notification.
pub fn security_check_effects() -> (r: Vec<Effect>)
    ensures
        r@ == security_check_spec(),
{
    vec![Effect::EmitCheckSecurity, Effect::Notify(Notice::CommandCheck)]
}

/// The reply to a security check request, given how sending the event and
/// showing the notification went: the event is sent on a best-effort basis,
/// so only the notification's failure reaches the caller.
pub fn security_check_result(emitted: Result<(), String>, shown: Result<(), String>) -> (r: Result<(), String>)
    ensures
        r == shown,
{
    shown
}

/// A security check, whether requested by the interface or from the tray
/// menu, sends the check-security event exactly once, before its
/// notification; the reply depends on the notification alone.
pub proof fn lemma_check_emits_once(main_exists: bool)
    ensures
        occurrences(security_check_spec(), Effect::EmitCheckSecurity) == 1,
        security_check_spec()[0] == Effect::EmitCheckSecurity,
        occurrences(menu_action_spec(MenuAction::Check, main_exists), Effect::EmitCheckSecurity) == 1,
        menu_action_spec(MenuAction::Check, main_exists)[0] == Effect::EmitCheckSecurity,
{
    lemma_occurrences_short(
        Effect::EmitCheckSecurity,
        Effect::Notify(Notice::CommandCheck),
        Effect::EmitCheckSecurity,
    );
    lemma_occurrences_short(
        Effect::EmitCheckSecurity,
        Effect::Notify(Notice::TrayCheck),
        Effect::EmitCheckSecurity,
    );
}

/// A close request on the main window neither ends the process nor destroys
/// the window: the window is hidden, and showing it again makes it visible
/// and focused.
pub proof fn lemma_close_hides_main(s: ShellState)
    requires
        s.running(),
        s.main is Some,
    ensures
        ({
            let t = close_outcome(s, close_request_spec());
            &&& t.running()
            &&& t.main == Some(WindowState { visible: false, focused: false })
            &&& t.after_all(reveal_main_spec(t.main is Some)).main == Some(
                WindowState { visible: true, focused: true },
            )
        }),
{
    let es = close_request_spec();
    assert(es[1] == Effect::PreventClose);
    assert(es.contains(Effect::PreventClose));
    s.lemma_after_short(Effect::HideWindow, Effect::PreventClose);
    let t = close_outcome(s, es);
    t.lemma_after_short(Effect::ShowMain, Effect::FocusMain);
}

/// The quit entry of the tray menu ends a running process with exit code 0,
/// and does so without hiding the window or preventing anything.
pub proof fn lemma_quit_exits(s: ShellState)
    requires
        s.running(),
    ensures
        menu_event_spec("quit"@, s.main is Some) == seq![Effect::Exit(0)],
        s.after_all(menu_event_spec("quit"@, s.main is Some)).exit_code == Some(0i32),
{
    reveal_strlit("show");
    reveal_strlit("check");
    reveal_strlit("quit");
    assert("quit"@.len() == 4 && "check"@.len() == 5);
    assert("show"@[0] != "quit"@[0]);
    s.lemma_after_short(Effect::Exit(0), Effect::Exit(0));
}

/// The show entry of the tray menu and a left-button release on the tray
/// icon make an existing main window visible and focused; where there is no
/// main window they do nothing.
pub proof fn lemma_show_reveals_main(s: ShellState)
    requires
        s.running(),
    ensures
        ({
            let click = TrayIconEvent::Click { button: MouseButton::Left, button_state: MouseButtonState::Up };
            let from_menu = menu_event_spec("show"@, s.main is Some);
            let from_icon = tray_icon_spec(click, s.main is Some);
            &&& s.main is Some ==> s.after_all(from_menu).main == Some(WindowState { visible: true, focused: true })
            &&& s.main is Some ==> s.after_all(from_icon).main == Some(WindowState { visible: true, focused: true })
            &&& s.main is None ==> from_menu.len() == 0 && s.after_all(from_menu) == s
            &&& s.main is None ==> from_icon.len() == 0 && s.after_all(from_icon) == s
        }),
{
    reveal_strlit("show");
    s.lemma_after_short(Effect::ShowMain, Effect::FocusMain);
    assert(s.after_all(Seq::<Effect>::empty()) == s);
}

} // verus!
