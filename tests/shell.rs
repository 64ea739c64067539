use cohortsec::autostart::{autostart_launch_args, autostart_request, AutostartRegistration, AutostartRequest};
use cohortsec::effect::{Delivery, Effect, Notice, ShellState, WindowState};
use cohortsec::menu::{tray_menu, MenuAction};
use cohortsec::names::{CHECK_SECURITY_EVENT, MAIN_WINDOW_LABEL, MINIMIZED_FLAG, TRAY_ID, TRAY_TOOLTIP};
use cohortsec::shell::{
    close_request_effects, menu_action_effects, menu_event_effects, reveal_main_effects, security_check_effects,
    security_check_result, tray_icon_effects,
};
use cohortsec::status::{get_security_status, SECURITY_STATUS};
use cohortsec::text::same_text;
use cohortsec::tray::{MouseButton, MouseButtonState, TrayIconEvent};

fn hidden_main() -> ShellState {
    ShellState { main: Some(WindowState { visible: false, focused: false }), exit_code: None }
}

fn shown_main() -> ShellState {
    ShellState { main: Some(WindowState { visible: true, focused: true }), exit_code: None }
}

fn no_main() -> ShellState {
    ShellState { main: None, exit_code: None }
}

fn left_release() -> TrayIconEvent {
    TrayIconEvent::Click { button: MouseButton::Left, button_state: MouseButtonState::Up }
}

#[test]
fn security_status_is_fixed() {
    assert_eq!(SECURITY_STATUS, 85);
    for _ in 0..3 {
        assert_eq!(get_security_status(), Ok(85));
    }
}

#[test]
fn security_check_emits_once_then_notifies() {
    let es = security_check_effects();
    assert_eq!(es, vec![Effect::EmitCheckSecurity, Effect::Notify(Notice::CommandCheck)]);
    assert_eq!(es.iter().filter(|e| **e == Effect::EmitCheckSecurity).count(), 1);
}

#[test]
fn security_check_reply_follows_notification_only() {
    assert_eq!(security_check_result(Ok(()), Ok(())), Ok(()));
    assert_eq!(security_check_result(Err("no listener".to_string()), Ok(())), Ok(()));
    assert_eq!(
        security_check_result(Ok(()), Err("notifications denied".to_string())),
        Err("notifications denied".to_string())
    );
    assert_eq!(
        security_check_result(Err("no listener".to_string()), Err("notifications denied".to_string())),
        Err("notifications denied".to_string())
    );
}

#[test]
fn tray_check_emits_once_then_notifies() {
    let es = menu_event_effects("check", true);
    assert_eq!(es, vec![Effect::EmitCheckSecurity, Effect::Notify(Notice::TrayCheck)]);
    assert_eq!(menu_event_effects("check", false), es);
}

#[test]
fn notices_have_their_texts() {
    assert_eq!(Notice::CommandCheck.title(), "Проверка безопасности");
    assert_eq!(Notice::CommandCheck.body(), "Запущена проверка безопасности...");
    assert_eq!(Notice::TrayCheck.title(), "Проверка");
    assert_eq!(Notice::TrayCheck.body(), "Запущена проверка безопасности");
}

#[test]
fn only_the_requested_check_reports_failure() {
    assert_eq!(Effect::Notify(Notice::CommandCheck).delivery(), Delivery::Reported);
    assert_eq!(Effect::Notify(Notice::TrayCheck).delivery(), Delivery::BestEffort);
    assert_eq!(Effect::EmitCheckSecurity.delivery(), Delivery::BestEffort);
    assert_eq!(Effect::ShowMain.delivery(), Delivery::BestEffort);
    assert_eq!(AutostartRequest::Enable.delivery(), Delivery::Reported);
    assert_eq!(AutostartRequest::Disable.delivery(), Delivery::Reported);
}

#[test]
fn autostart_set_then_query() {
    let mut reg = AutostartRegistration { enabled: false };
    reg.apply(autostart_request(true));
    assert!(reg.is_enabled());
    reg.apply(autostart_request(true));
    assert!(reg.is_enabled());
    reg.apply(autostart_request(false));
    assert!(!reg.is_enabled());
    assert_eq!(autostart_request(true), AutostartRequest::Enable);
    assert_eq!(autostart_request(false), AutostartRequest::Disable);
}

#[test]
fn autostart_launches_minimized() {
    assert_eq!(autostart_launch_args(), vec!["--minimized"]);
    assert_eq!(MINIMIZED_FLAG, "--minimized");
}

#[test]
fn close_request_hides_and_keeps_main() {
    let es = close_request_effects();
    assert_eq!(es, vec![Effect::HideWindow, Effect::PreventClose]);
    assert!(es.contains(&Effect::PreventClose));
    assert!(!es.iter().any(|e| matches!(e, Effect::Exit(_))));
    let mut s = shown_main();
    s.apply_all(&es);
    assert_eq!(s, hidden_main());
    s.apply_all(&menu_event_effects("show", s.main.is_some()));
    assert_eq!(s, shown_main());
}

#[test]
fn quit_exits_with_zero() {
    let es = menu_event_effects("quit", true);
    assert_eq!(es, vec![Effect::Exit(0)]);
    assert!(!es.contains(&Effect::PreventClose));
    assert!(!es.contains(&Effect::HideWindow));
    let mut s = shown_main();
    s.apply_all(&es);
    assert_eq!(s.exit_code, Some(0));
    assert_eq!(menu_event_effects("quit", false), vec![Effect::Exit(0)]);
}

#[test]
fn nothing_changes_after_exit() {
    let mut s = hidden_main();
    s.apply_all(&vec![Effect::Exit(0), Effect::ShowMain, Effect::Exit(3)]);
    assert_eq!(s, ShellState { main: Some(WindowState { visible: false, focused: false }), exit_code: Some(0) });
}

#[test]
fn show_entry_reveals_hidden_main() {
    let es = menu_event_effects("show", true);
    assert_eq!(es, vec![Effect::ShowMain, Effect::FocusMain]);
    let mut s = hidden_main();
    s.apply_all(&es);
    assert_eq!(s, shown_main());
}

#[test]
fn left_click_reveals_hidden_main() {
    let es = tray_icon_effects(&left_release(), true);
    assert_eq!(es, vec![Effect::ShowMain, Effect::FocusMain]);
    let mut s = hidden_main();
    s.apply_all(&es);
    assert_eq!(s, shown_main());
}

#[test]
fn reveal_without_main_does_nothing() {
    assert!(menu_event_effects("show", false).is_empty());
    assert!(tray_icon_effects(&left_release(), false).is_empty());
    assert!(reveal_main_effects(false).is_empty());
    let mut s = no_main();
    s.apply_all(&reveal_main_effects(false));
    s.apply_all(&vec![Effect::ShowMain, Effect::FocusMain]);
    assert_eq!(s, no_main());
}

#[test]
fn other_tray_events_are_ignored() {
    let ignored = [
        TrayIconEvent::Click { button: MouseButton::Left, button_state: MouseButtonState::Down },
        TrayIconEvent::Click { button: MouseButton::Right, button_state: MouseButtonState::Up },
        TrayIconEvent::Click { button: MouseButton::Middle, button_state: MouseButtonState::Up },
        TrayIconEvent::DoubleClick { button: MouseButton::Left },
        TrayIconEvent::Enter,
        TrayIconEvent::Move,
        TrayIconEvent::Leave,
    ];
    for ev in ignored.iter() {
        assert!(!ev.reveals_main());
        assert!(tray_icon_effects(ev, true).is_empty());
    }
    assert!(left_release().reveals_main());
}

#[test]
fn unknown_menu_ids_are_ignored() {
    assert_eq!(MenuAction::from_id("settings"), None);
    assert_eq!(MenuAction::from_id(""), None);
    assert_eq!(MenuAction::from_id("Show"), None);
    assert_eq!(MenuAction::from_id("quit "), None);
    assert!(menu_event_effects("exit", true).is_empty());
}

#[test]
fn menu_entries_round_trip() {
    let items = tray_menu();
    assert_eq!(items, vec![MenuAction::Show, MenuAction::Check, MenuAction::Quit]);
    let ids: Vec<&str> = items.iter().map(|a| a.id()).collect();
    assert_eq!(ids, vec!["show", "check", "quit"]);
    for a in items.iter() {
        assert_eq!(MenuAction::from_id(a.id()), Some(*a));
    }
    assert_eq!(MenuAction::Show.label(), "Показать");
    assert_eq!(MenuAction::Check.label(), "Проверить безопасность");
    assert_eq!(MenuAction::Quit.label(), "Выход");
    assert_eq!(menu_action_effects(MenuAction::Quit, true), vec![Effect::Exit(0)]);
}

#[test]
fn text_comparison() {
    assert!(same_text("", ""));
    assert!(same_text("Выход", "Выход"));
    assert!(!same_text("Выход", "Выхо"));
    assert!(!same_text("show", "shoe"));
}

#[test]
fn shell_names() {
    assert_eq!(MAIN_WINDOW_LABEL, "main");
    assert_eq!(TRAY_ID, "main-tray");
    assert_eq!(TRAY_TOOLTIP, "CohortSec — Цифровой телохранитель");
    assert_eq!(CHECK_SECURITY_EVENT, "check-security");
}
