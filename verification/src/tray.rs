//! The tray icon's menu and what each of its entries does.
use vstd::prelude::*;

use crate::text::str_eq;

verus! {

/// The id of the tray icon.
pub const TRAY_ID: &'static str = "clipboard-plus-tray";

/// The tooltip of the tray icon.
pub const TRAY_TOOLTIP: &'static str = "Clipboard+";

/// An entry of the tray menu.
#[derive(Debug)]
pub struct TrayMenuEntry {
    pub id: &'static str,
    pub label: &'static str,
    pub enabled: bool,
}

/// What a tray menu entry does.
#[derive(Clone, Copy, Debug, PartialEq, Eq, Structural)]
pub enum TrayAction {
    /// Show the full workspace window.
    OpenWorkspace,
    /// Flip whether clipboard monitoring is paused.
    TogglePause,
    /// Delete every unpinned history item.
    ClearHistory,
    /// Quit the application.
    Quit,
    /// Nothing (entries without an action, and unknown ids).
    Ignore,
}

/// The action of the menu entry with this id.
pub open spec fn spec_tray_action(id: Seq<char>) -> TrayAction {
    if id == "open"@ {
        TrayAction::OpenWorkspace
    } else if id == "pause"@ {
        TrayAction::TogglePause
    } else if id == "clear"@ {
        TrayAction::ClearHistory
    } else if id == "quit"@ {
        TrayAction::Quit
    } else {
        TrayAction::Ignore
    }
}

/// The entries of the tray menu, in order.
pub fn tray_menu_entries() -> (entries: Vec<TrayMenuEntry>)
    ensures
        entries@.len() == 5,
        entries@[0].id@ == "open"@ && entries@[0].label@ == "Open Clipboard+"@ && entries@[0].enabled,
        entries@[1].id@ == "pause"@ && entries@[1].label@ == "Pause monitoring"@ && entries@[1].enabled,
        entries@[2].id@ == "clear"@ && entries@[2].label@ == "Clear history"@ && entries@[2].enabled,
        entries@[3].id@ == "settings"@ && entries@[3].label@ == "Settings (Milestone 2)"@
            && !entries@[3].enabled,
        entries@[4].id@ == "quit"@ && entries@[4].label@ == "Quit"@ && entries@[4].enabled,
{
    let mut entries: Vec<TrayMenuEntry> = Vec::new();
    entries.push(TrayMenuEntry { id: "open", label: "Open Clipboard+", enabled: true });
    entries.push(TrayMenuEntry { id: "pause", label: "Pause monitoring", enabled: true });
    entries.push(TrayMenuEntry { id: "clear", label: "Clear history", enabled: true });
    entries.push(TrayMenuEntry { id: "settings", label: "Settings (Milestone 2)", enabled: false });
    entries.push(TrayMenuEntry { id: "quit", label: "Quit", enabled: true });
    entries
}

/// The action of the menu entry with this id.
pub fn tray_menu_action(id: &str) -> (action: TrayAction)
    ensures
        action == spec_tray_action(id@),
{
    if str_eq(id, "open") {
        TrayAction::OpenWorkspace
    } else if str_eq(id, "pause") {
        TrayAction::TogglePause
    } else if str_eq(id, "clear") {
        TrayAction::ClearHistory
    } else if str_eq(id, "quit") {
        TrayAction::Quit
    } else {
        TrayAction::Ignore
    }
}

/// A click on the tray icon opens the workspace when it is the left button coming up.
pub fn tray_click_opens_workspace(left_button: bool, released: bool) -> (opens: bool)
    ensures
        opens == (left_button && released),
{
    left_button && released
}

/// Whether monitoring is paused after the pause entry is chosen.
pub open spec fn spec_toggled_pause(paused: bool) -> bool {
    !paused
}

/// Whether monitoring is paused after the pause entry is chosen.
pub fn toggled_pause(paused: bool) -> (now_paused: bool)
    ensures
        now_paused == spec_toggled_pause(paused),
{
    !paused
}

/// Choosing the pause entry twice restores the monitoring state, and choosing it
/// once always changes it.
pub proof fn lemma_pause_toggle_restores(paused: bool)
    ensures
        spec_toggled_pause(spec_toggled_pause(paused)) == paused,
        spec_toggled_pause(paused) != paused,
{
}

} // verus!
