//! The hotkeys each dashboard screen offers, as its help overlay lists them.

use vstd::prelude::*;

verus! {

/// One row of a help overlay.
#[derive(Debug, Clone, Copy)]
pub struct HotkeyEntry {
    /// The key or keys.
    pub key: &'static str,
    /// What they do.
    pub description: &'static str,
    /// The group the row is listed under.
    pub category: &'static str,
}

/// A help row as plain values: key, description, category.
pub open spec fn entry_view(e: HotkeyEntry) -> (Seq<char>, Seq<char>, Seq<char>) {
    (e.key@, e.description@, e.category@)
}

/// A list of help rows as plain values.
pub open spec fn entries_view(v: Seq<HotkeyEntry>) -> Seq<(Seq<char>, Seq<char>, Seq<char>)> {
    v.map_values(|e: HotkeyEntry| entry_view(e))
}

fn entry(key: &'static str, description: &'static str, category: &'static str) -> (r: HotkeyEntry)
    ensures
        entry_view(r) == (key@, description@, category@),
{
    HotkeyEntry { key, description, category }
}

/// The rows of `health_dashboard_overview_hotkeys`.
pub open spec fn health_dashboard_overview_hotkeys_rows() -> Seq<(Seq<char>, Seq<char>, Seq<char>)> {
    seq![
        ("Up/Down or j/k"@, "Navigate host list"@, "Navigation"@),
        ("Home/End"@, "Jump to first/last host"@, "Navigation"@),
        ("Enter"@, "View host details"@, "Navigation"@),
        ("Esc"@, "Close dashboard"@, "Navigation"@),
        ("r"@, "Refresh metrics"@, "Actions"@),
        ("Space"@, "Toggle auto-refresh"@, "Actions"@),
        ("q"@, "Close dashboard"@, "Actions"@),
        ("?"@, "Toggle this help"@, "Help"@)
    ]
}

/// Returns hotkey entries for the Health Dashboard overview mode.
pub fn health_dashboard_overview_hotkeys() -> (r: Vec<HotkeyEntry>)
    ensures
        entries_view(r@) == health_dashboard_overview_hotkeys_rows(),
{
    let mut v: Vec<HotkeyEntry> = Vec::new();
    v.push(entry("Up/Down or j/k", "Navigate host list", "Navigation"));
    v.push(entry("Home/End", "Jump to first/last host", "Navigation"));
    v.push(entry("Enter", "View host details", "Navigation"));
    v.push(entry("Esc", "Close dashboard", "Navigation"));
    v.push(entry("r", "Refresh metrics", "Actions"));
    v.push(entry("Space", "Toggle auto-refresh", "Actions"));
    v.push(entry("q", "Close dashboard", "Actions"));
    v.push(entry("?", "Toggle this help", "Help"));
    assert(entries_view(v@) =~= health_dashboard_overview_hotkeys_rows());
    v
}

/// The rows of `health_dashboard_detail_hotkeys`.
pub open spec fn health_dashboard_detail_hotkeys_rows() -> Seq<(Seq<char>, Seq<char>, Seq<char>)> {
    seq![
        ("Backspace/Esc"@, "Back to overview"@, "Navigation"@),
        ("r"@, "Refresh metrics"@, "Actions"@),
        ("q"@, "Close dashboard"@, "Actions"@),
        ("?"@, "Toggle this help"@, "Help"@)
    ]
}

/// Returns hotkey entries for the Health Dashboard detail mode.
pub fn health_dashboard_detail_hotkeys() -> (r: Vec<HotkeyEntry>)
    ensures
        entries_view(r@) == health_dashboard_detail_hotkeys_rows(),
{
    let mut v: Vec<HotkeyEntry> = Vec::new();
    v.push(entry("Backspace/Esc", "Back to overview", "Navigation"));
    v.push(entry("r", "Refresh metrics", "Actions"));
    v.push(entry("q", "Close dashboard", "Actions"));
    v.push(entry("?", "Toggle this help", "Help"));
    assert(entries_view(v@) =~= health_dashboard_detail_hotkeys_rows());
    v
}

/// The rows of `docker_manager_list_hotkeys`.
pub open spec fn docker_manager_list_hotkeys_rows() -> Seq<(Seq<char>, Seq<char>, Seq<char>)> {
    seq![
        ("Up/Down or j/k"@, "Navigate list"@, "Navigation"@),
        ("Home/End"@, "Jump to first/last"@, "Navigation"@),
        ("g/G"@, "Jump to first/last (vim)"@, "Navigation"@),
        ("Tab/Shift+Tab"@, "Switch section"@, "Navigation"@),
        ("Enter"@, "Attach/start/run"@, "Navigation"@),
        ("Esc"@, "Close manager"@, "Navigation"@),
        ("r"@, "Refresh containers"@, "Actions"@),
        ("c"@, "Create new container"@, "Actions"@),
        ("d/Delete"@, "Remove selected"@, "Actions"@),
        ("h"@, "Host selection"@, "Actions"@),
        ("Ctrl+O"@, "Run with options"@, "Actions"@),
        ("Shift+D"@, "Show host debug info"@, "Actions"@),
        ("Shift+R"@, "Running containers"@, "Sections"@),
        ("Shift+S"@, "Stopped containers"@, "Sections"@),
        ("Shift+I"@, "Images"@, "Sections"@),
        ("1-9"@, "Assign quick connect"@, "Quick Connect"@),
        ("?"@, "Toggle this help"@, "Help"@)
    ]
}

/// Returns hotkey entries for the Docker Manager list mode.
pub fn docker_manager_list_hotkeys() -> (r: Vec<HotkeyEntry>)
    ensures
        entries_view(r@) == docker_manager_list_hotkeys_rows(),
{
    let mut v: Vec<HotkeyEntry> = Vec::new();
    v.push(entry("Up/Down or j/k", "Navigate list", "Navigation"));
    v.push(entry("Home/End", "Jump to first/last", "Navigation"));
    v.push(entry("g/G", "Jump to first/last (vim)", "Navigation"));
    v.push(entry("Tab/Shift+Tab", "Switch section", "Navigation"));
    v.push(entry("Enter", "Attach/start/run", "Navigation"));
    v.push(entry("Esc", "Close manager", "Navigation"));
    v.push(entry("r", "Refresh containers", "Actions"));
    v.push(entry("c", "Create new container", "Actions"));
    v.push(entry("d/Delete", "Remove selected", "Actions"));
    v.push(entry("h", "Host selection", "Actions"));
    v.push(entry("Ctrl+O", "Run with options", "Actions"));
    v.push(entry("Shift+D", "Show host debug info", "Actions"));
    v.push(entry("Shift+R", "Running containers", "Sections"));
    v.push(entry("Shift+S", "Stopped containers", "Sections"));
    v.push(entry("Shift+I", "Images", "Sections"));
    v.push(entry("1-9", "Assign quick connect", "Quick Connect"));
    v.push(entry("?", "Toggle this help", "Help"));
    assert(entries_view(v@) =~= docker_manager_list_hotkeys_rows());
    v
}

/// The rows of `ssh_manager_list_hotkeys`.
pub open spec fn ssh_manager_list_hotkeys_rows() -> Seq<(Seq<char>, Seq<char>, Seq<char>)> {
    seq![
        ("Up/Down or j/k"@, "Navigate host list"@, "Navigation"@),
        ("Home/End"@, "Jump to first/last host"@, "Navigation"@),
        ("Enter"@, "Connect to host"@, "Navigation"@),
        ("Esc"@, "Close manager"@, "Navigation"@),
        ("a/A"@, "Add host"@, "Actions"@),
        ("e"@, "Edit host name"@, "Actions"@),
        ("d/D/Delete"@, "Delete host"@, "Actions"@),
        ("s"@, "Scan network"@, "Actions"@),
        ("Shift+S"@, "Scan specific subnet"@, "Actions"@),
        ("c"@, "Credential scan"@, "Actions"@),
        ("h"@, "Health dashboard"@, "Actions"@),
        ("?"@, "Toggle this help"@, "Help"@)
    ]
}

/// Returns hotkey entries for the SSH Manager list mode.
pub fn ssh_manager_list_hotkeys() -> (r: Vec<HotkeyEntry>)
    ensures
        entries_view(r@) == ssh_manager_list_hotkeys_rows(),
{
    let mut v: Vec<HotkeyEntry> = Vec::new();
    v.push(entry("Up/Down or j/k", "Navigate host list", "Navigation"));
    v.push(entry("Home/End", "Jump to first/last host", "Navigation"));
    v.push(entry("Enter", "Connect to host", "Navigation"));
    v.push(entry("Esc", "Close manager", "Navigation"));
    v.push(entry("a/A", "Add host", "Actions"));
    v.push(entry("e", "Edit host name", "Actions"));
    v.push(entry("d/D/Delete", "Delete host", "Actions"));
    v.push(entry("s", "Scan network", "Actions"));
    v.push(entry("Shift+S", "Scan specific subnet", "Actions"));
    v.push(entry("c", "Credential scan", "Actions"));
    v.push(entry("h", "Health dashboard", "Actions"));
    v.push(entry("?", "Toggle this help", "Help"));
    assert(entries_view(v@) =~= ssh_manager_list_hotkeys_rows());
    v
}

/// The rows of `git_dashboard_hotkeys`.
pub open spec fn git_dashboard_hotkeys_rows() -> Seq<(Seq<char>, Seq<char>, Seq<char>)> {
    seq![
        ("Up/Down or j/k"@, "Navigate file list"@, "Navigation"@),
        ("Home/End"@, "Jump to first/last"@, "Navigation"@),
        ("Tab/Shift+Tab"@, "Switch section (staged/unstaged/untracked)"@, "Navigation"@),
        ("Enter"@, "View diff for selected file"@, "Navigation"@),
        ("Backspace"@, "Back to status view"@, "Navigation"@),
        ("Esc"@, "Close dashboard"@, "Navigation"@),
        ("s"@, "Stage selected file"@, "Actions"@),
        ("u"@, "Unstage selected file"@, "Actions"@),
        ("c"@, "Commit staged changes"@, "Actions"@),
        ("r"@, "Refresh status"@, "Actions"@),
        ("p"@, "Stash pop"@, "Actions"@),
        ("Shift+P"@, "Stash push"@, "Actions"@),
        ("b"@, "Branch list view"@, "Views"@),
        ("l"@, "Commit log view"@, "Views"@),
        ("d"@, "Diff view"@, "Views"@),
        ("Ctrl+B"@, "Toggle blame view"@, "Views"@),
        ("?"@, "Toggle this help"@, "Help"@)
    ]
}

/// Returns hotkey entries for the Git Dashboard.
pub fn git_dashboard_hotkeys() -> (r: Vec<HotkeyEntry>)
    ensures
        entries_view(r@) == git_dashboard_hotkeys_rows(),
{
    let mut v: Vec<HotkeyEntry> = Vec::new();
    v.push(entry("Up/Down or j/k", "Navigate file list", "Navigation"));
    v.push(entry("Home/End", "Jump to first/last", "Navigation"));
    v.push(entry("Tab/Shift+Tab", "Switch section (staged/unstaged/untracked)", "Navigation"));
    v.push(entry("Enter", "View diff for selected file", "Navigation"));
    v.push(entry("Backspace", "Back to status view", "Navigation"));
    v.push(entry("Esc", "Close dashboard", "Navigation"));
    v.push(entry("s", "Stage selected file", "Actions"));
    v.push(entry("u", "Unstage selected file", "Actions"));
    v.push(entry("c", "Commit staged changes", "Actions"));
    v.push(entry("r", "Refresh status", "Actions"));
    v.push(entry("p", "Stash pop", "Actions"));
    v.push(entry("Shift+P", "Stash push", "Actions"));
    v.push(entry("b", "Branch list view", "Views"));
    v.push(entry("l", "Commit log view", "Views"));
    v.push(entry("d", "Diff view", "Views"));
    v.push(entry("Ctrl+B", "Toggle blame view", "Views"));
    v.push(entry("?", "Toggle this help", "Help"));
    assert(entries_view(v@) =~= git_dashboard_hotkeys_rows());
    v
}

/// The rows of `debugger_hotkeys`.
pub open spec fn debugger_hotkeys_rows() -> Seq<(Seq<char>, Seq<char>, Seq<char>)> {
    seq![
        ("F5"@, "Continue / Start debugging"@, "Session"@),
        ("Shift+F5"@, "Stop debugging"@, "Session"@),
        ("Ctrl+Shift+F5"@, "Restart debugging"@, "Session"@),
        ("F9"@, "Toggle breakpoint"@, "Breakpoints"@),
        ("F10"@, "Step over"@, "Stepping"@),
        ("F11"@, "Step into"@, "Stepping"@),
        ("Shift+F11"@, "Step out"@, "Stepping"@),
        ("Tab"@, "Switch debug panel tab"@, "Panel"@),
        ("Up/Down or j/k"@, "Navigate list"@, "Navigation"@),
        ("Enter"@, "Expand/select"@, "Navigation"@),
        ("?"@, "Toggle this help"@, "Help"@)
    ]
}

/// Returns hotkey entries for the Debugger.
pub fn debugger_hotkeys() -> (r: Vec<HotkeyEntry>)
    ensures
        entries_view(r@) == debugger_hotkeys_rows(),
{
    let mut v: Vec<HotkeyEntry> = Vec::new();
    v.push(entry("F5", "Continue / Start debugging", "Session"));
    v.push(entry("Shift+F5", "Stop debugging", "Session"));
    v.push(entry("Ctrl+Shift+F5", "Restart debugging", "Session"));
    v.push(entry("F9", "Toggle breakpoint", "Breakpoints"));
    v.push(entry("F10", "Step over", "Stepping"));
    v.push(entry("F11", "Step into", "Stepping"));
    v.push(entry("Shift+F11", "Step out", "Stepping"));
    v.push(entry("Tab", "Switch debug panel tab", "Panel"));
    v.push(entry("Up/Down or j/k", "Navigate list", "Navigation"));
    v.push(entry("Enter", "Expand/select", "Navigation"));
    v.push(entry("?", "Toggle this help", "Help"));
    assert(entries_view(v@) =~= debugger_hotkeys_rows());
    v
}

/// The rows of `docker_logs_hotkeys`.
pub open spec fn docker_logs_hotkeys_rows() -> Seq<(Seq<char>, Seq<char>, Seq<char>)> {
    seq![
        ("Up/Down or j/k"@, "Scroll logs / navigate list"@, "Navigation"@),
        ("Home/End"@, "Jump to top/bottom"@, "Navigation"@),
        ("PgUp/PgDn"@, "Page scroll"@, "Navigation"@),
        ("Enter"@, "Select container"@, "Navigation"@),
        ("Esc/q"@, "Back / close"@, "Navigation"@),
        ("Space"@, "Pause/resume stream"@, "Streaming"@),
        ("/ or Ctrl+F"@, "Search/filter logs"@, "Search"@),
        ("Shift+S"@, "Saved searches"@, "Search"@),
        ("c"@, "Clear logs"@, "Actions"@),
        ("t"@, "Toggle timestamps"@, "Actions"@),
        ("?"@, "Toggle this help"@, "Help"@)
    ]
}

/// Returns hotkey entries for the Docker Logs viewer.
pub fn docker_logs_hotkeys() -> (r: Vec<HotkeyEntry>)
    ensures
        entries_view(r@) == docker_logs_hotkeys_rows(),
{
    let mut v: Vec<HotkeyEntry> = Vec::new();
    v.push(entry("Up/Down or j/k", "Scroll logs / navigate list", "Navigation"));
    v.push(entry("Home/End", "Jump to top/bottom", "Navigation"));
    v.push(entry("PgUp/PgDn", "Page scroll", "Navigation"));
    v.push(entry("Enter", "Select container", "Navigation"));
    v.push(entry("Esc/q", "Back / close", "Navigation"));
    v.push(entry("Space", "Pause/resume stream", "Streaming"));
    v.push(entry("/ or Ctrl+F", "Search/filter logs", "Search"));
    v.push(entry("Shift+S", "Saved searches", "Search"));
    v.push(entry("c", "Clear logs", "Actions"));
    v.push(entry("t", "Toggle timestamps", "Actions"));
    v.push(entry("?", "Toggle this help", "Help"));
    assert(entries_view(v@) =~= docker_logs_hotkeys_rows());
    v
}

} // verus!
