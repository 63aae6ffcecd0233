use clipboard_plus::commands::clamp_limit;
use clipboard_plus::commands::db_error;
use clipboard_plus::commands::input_error;
use clipboard_plus::commands::list_statement;
use clipboard_plus::commands::ClipboardQuery;
use clipboard_plus::monitor::ClipboardMonitor;
use clipboard_plus::monitor::MonitorStep;
use clipboard_plus::search::SqlValue;
use clipboard_plus::shortcuts::compact_palette;
use clipboard_plus::shortcuts::full_workspace;
use clipboard_plus::tray::toggled_pause;
use clipboard_plus::tray::tray_click_opens_workspace;
use clipboard_plus::tray::tray_menu_action;
use clipboard_plus::tray::tray_menu_entries;
use clipboard_plus::tray::TrayAction;

#[test]
fn messages() {
    assert_eq!(db_error(), "Clipboard+ could not access its local database.");
    assert_eq!(input_error(), "That value is not valid.");
}

#[test]
fn limits_are_clamped() {
    assert_eq!(clamp_limit(None), 100);
    assert_eq!(clamp_limit(Some(0)), 1);
    assert_eq!(clamp_limit(Some(-5)), 1);
    assert_eq!(clamp_limit(Some(42)), 42);
    assert_eq!(clamp_limit(Some(501)), 500);
    assert_eq!(clamp_limit(Some(i64::MAX)), 500);
}

#[test]
fn a_bare_request_lists_the_newest_hundred() {
    let list = list_statement(&ClipboardQuery { query: None, filters: None, limit: None });
    assert!(list.sql.ends_with(" WHERE 1=1 ORDER BY i.pinned DESC, i.pin_order ASC NULLS LAST, i.last_copied_at DESC LIMIT ?"));
    assert_eq!(list.params.len(), 1);
    assert!(matches!(list.params[0], SqlValue::Integer(100)));
    let list = list_statement(&ClipboardQuery { query: Some("abc".to_string()), filters: None, limit: Some(1000) });
    assert_eq!(list.params.len(), 2);
    assert!(matches!(&list.params[0], SqlValue::Text(t) if t == "\"abc\"*"));
    assert!(matches!(list.params[1], SqlValue::Integer(500)));
}

#[test]
fn monitor_records_each_new_text_once() {
    let mut m = ClipboardMonitor::new();
    assert_eq!(m.next_step(true, true), MonitorStep::Wait);
    assert_eq!(m.next_step(true, false), MonitorStep::Wait);
    assert_eq!(m.next_step(false, false), MonitorStep::OpenClipboard);
    assert_eq!(m.next_step(false, true), MonitorStep::ReadText);
    assert!(!m.observe(""));
    assert!(m.observe("first"));
    assert!(!m.observe("first"));
    assert!(!m.observe(""));
    assert!(m.observe("second"));
    assert!(m.observe("first"));
    assert!(!m.observe("first"));
}

#[test]
fn tray_menu() {
    let entries = tray_menu_entries();
    let ids: Vec<&str> = entries.iter().map(|e| e.id).collect();
    assert_eq!(ids, vec!["open", "pause", "clear", "settings", "quit"]);
    assert_eq!(entries[3].label, "Settings (Milestone 2)");
    assert!(!entries[3].enabled);
    assert!(entries.iter().filter(|e| e.id != "settings").all(|e| e.enabled));
    assert_eq!(tray_menu_action("open"), TrayAction::OpenWorkspace);
    assert_eq!(tray_menu_action("pause"), TrayAction::TogglePause);
    assert_eq!(tray_menu_action("clear"), TrayAction::ClearHistory);
    assert_eq!(tray_menu_action("quit"), TrayAction::Quit);
    assert_eq!(tray_menu_action("settings"), TrayAction::Ignore);
    assert_eq!(tray_menu_action("OPEN"), TrayAction::Ignore);
    assert!(tray_click_opens_workspace(true, true));
    assert!(!tray_click_opens_workspace(true, false));
    assert!(!tray_click_opens_workspace(false, true));
    assert!(toggled_pause(false));
    assert!(!toggled_pause(toggled_pause(false)));
}

#[test]
fn palette_sizes() {
    let c = compact_palette();
    assert_eq!((c.width, c.height, c.compact), (620, 520, true));
    let f = full_workspace();
    assert_eq!((f.width, f.height, f.compact), (980, 650, false));
}
