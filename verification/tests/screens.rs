use ratterm_core::app::dashboard_nav::{apply_dashboard_navigation, NavResult};
use ratterm_core::app::input_git::{
    commit_key_action, git_dashboard_key_action, git_list_key_action, overlay_key_action,
    CommitKeyAction, GitDashboardKey, GitListAction, GitView, OverlayAction,
};
use ratterm_core::app::input_mouse::{
    is_point_in_area, mouse_event_action, to_terminal_coords, MouseAction, MouseButton,
    MouseEvent, MouseEventKind, Rect,
};
use ratterm_core::app::input_ssh::{
    form_key_action, prompt_key_action, ssh_list_key_action, ssh_manager_key_action,
    subnet_scan_target, FormKeyAction, PromptAction, ScanTarget, SshKeyAction, SshListAction,
    SshManagerMode,
};
use ratterm_core::app::input_terminal::{
    parse_terminal_command, terminal_key_action, SelectDirection, TerminalCommand,
    TerminalKeyAction,
};
use ratterm_core::app::input::{ConfirmAnswer, PopupInput};
use ratterm_core::app::input_traits::ListMove;
use ratterm_core::app::keys::KeyEventKind;
use ratterm_core::app::popup_keys::{
    browser_key_action, chooser_key_action, editor_copy_text, mode_switcher_key_action,
    popup_key_action, BrowserKeyAction, ChooserAction, KeyRoute, PopupKeyAction,
};
use ratterm_core::app::keys::{KeyCode, KeyEvent, KeyModifiers};
use ratterm_core::app::panel::ListPanel;
use ratterm_core::app::state::{App, AppMode, FocusedPane, PopupKind};

fn key(code: KeyCode) -> KeyEvent {
    KeyEvent::new(code, KeyModifiers::none())
}

fn shift(code: KeyCode) -> KeyEvent {
    KeyEvent::new(code, KeyModifiers::shift())
}

fn ctrl(code: KeyCode) -> KeyEvent {
    KeyEvent::new(code, KeyModifiers::control())
}

fn ctrl_shift(code: KeyCode) -> KeyEvent {
    KeyEvent::new(code, KeyModifiers::control().union(KeyModifiers::shift()))
}

fn status_list() -> ListPanel<String> {
    let mut dash = ListPanel::new();
    dash.open(vec!["a.rs".to_string(), "b.rs".to_string()]);
    dash
}

// ------------------------------------------------------------ git dashboard

#[test]
fn test_dashboard_navigation_j_k() {
    let mut dash = status_list();
    let result = apply_dashboard_navigation(&mut dash, &key(KeyCode::Char('j')));
    assert_eq!(result, NavResult::Handled);
    assert_eq!(dash.selected(), 1);
    let result = apply_dashboard_navigation(&mut dash, &key(KeyCode::Char('k')));
    assert_eq!(result, NavResult::Handled);
    assert_eq!(dash.selected(), 0);
}

#[test]
fn test_dashboard_escape_closes() {
    let mut dash = status_list();
    let result = apply_dashboard_navigation(&mut dash, &key(KeyCode::Esc));
    assert_eq!(result, NavResult::Close);
}

#[test]
fn test_dashboard_enter_activates() {
    let mut dash = status_list();
    let result = apply_dashboard_navigation(&mut dash, &key(KeyCode::Enter));
    assert_eq!(result, NavResult::Activate);
}

#[test]
fn test_dashboard_question_mark_shows_help() {
    let mut dash = status_list();
    let result = apply_dashboard_navigation(&mut dash, &key(KeyCode::Char('?')));
    assert_eq!(result, NavResult::ShowHelp);
}

#[test]
fn git_list_keys() {
    let v = GitView::Status;
    assert_eq!(
        git_list_key_action(&key(KeyCode::Char('j')), v),
        Some(GitListAction::Navigate(ListMove::Next))
    );
    assert_eq!(git_list_key_action(&key(KeyCode::Enter), v), Some(GitListAction::OpenDiff));
    assert_eq!(git_list_key_action(&key(KeyCode::Char('s')), v), Some(GitListAction::Stage));
    assert_eq!(git_list_key_action(&key(KeyCode::Char('u')), v), Some(GitListAction::Unstage));
    assert_eq!(git_list_key_action(&key(KeyCode::Char('c')), v), Some(GitListAction::StartCommit));
    assert_eq!(
        git_list_key_action(&key(KeyCode::Char('b')), v),
        Some(GitListAction::SwitchView(GitView::Branches))
    );
    assert_eq!(
        git_list_key_action(&key(KeyCode::Backspace), v),
        Some(GitListAction::SwitchView(GitView::Status))
    );
    assert_eq!(git_list_key_action(&ctrl(KeyCode::Char('b')), v), Some(GitListAction::ToggleBlame));
    assert_eq!(git_list_key_action(&key(KeyCode::Char('p')), v), Some(GitListAction::StashPop));
    assert_eq!(git_list_key_action(&shift(KeyCode::Char('P')), v), Some(GitListAction::StashPush));
    assert_eq!(git_list_key_action(&key(KeyCode::Tab), v), Some(GitListAction::NextSection));
    assert_eq!(git_list_key_action(&shift(KeyCode::Tab), v), Some(GitListAction::PrevSection));
    assert_eq!(git_list_key_action(&key(KeyCode::BackTab), v), Some(GitListAction::PrevSection));
    assert_eq!(git_list_key_action(&key(KeyCode::Char('x')), v), None);
    // Enter with a modifier checks out a branch, only in the branch view.
    assert_eq!(git_list_key_action(&shift(KeyCode::Enter), v), None);
    assert_eq!(
        git_list_key_action(&shift(KeyCode::Enter), GitView::Branches),
        Some(GitListAction::CheckoutBranch)
    );
}

#[test]
fn git_commit_and_overlay_keys() {
    assert_eq!(commit_key_action(&key(KeyCode::Esc)), Some(CommitKeyAction::Cancel));
    assert_eq!(commit_key_action(&key(KeyCode::Enter)), Some(CommitKeyAction::Commit));
    assert_eq!(commit_key_action(&ctrl(KeyCode::Char('a'))), Some(CommitKeyAction::ToggleAmend));
    assert_eq!(commit_key_action(&shift(KeyCode::Char('F'))), Some(CommitKeyAction::Insert('F')));
    assert_eq!(commit_key_action(&ctrl(KeyCode::Char('x'))), None);
    assert_eq!(overlay_key_action(&shift(KeyCode::Char('?'))), Some(OverlayAction::Close));
    assert_eq!(overlay_key_action(&key(KeyCode::Char('j'))), Some(OverlayAction::ScrollDown));
    assert_eq!(overlay_key_action(&key(KeyCode::Up)), Some(OverlayAction::ScrollUp));
    assert_eq!(overlay_key_action(&key(KeyCode::Char('s'))), None);
    // The overlay takes every key while it shows, then the commit message.
    assert_eq!(
        git_dashboard_key_action(&key(KeyCode::Char('s')), true, false, GitView::Status),
        None
    );
    assert_eq!(
        git_dashboard_key_action(&key(KeyCode::Char('s')), false, true, GitView::Status),
        Some(GitDashboardKey::Commit(CommitKeyAction::Insert('s')))
    );
    assert_eq!(
        git_dashboard_key_action(&key(KeyCode::Char('s')), false, false, GitView::Status),
        Some(GitDashboardKey::List(GitListAction::Stage))
    );
}

// ------------------------------------------------------------ SSH manager

#[test]
fn ssh_list_keys() {
    assert_eq!(ssh_list_key_action(&key(KeyCode::End)), Some(SshListAction::Navigate(ListMove::Last)));
    assert_eq!(ssh_list_key_action(&key(KeyCode::Enter)), Some(SshListAction::Connect));
    assert_eq!(ssh_list_key_action(&key(KeyCode::Esc)), Some(SshListAction::Close));
    assert_eq!(ssh_list_key_action(&key(KeyCode::Char('s'))), Some(SshListAction::Scan));
    assert_eq!(ssh_list_key_action(&shift(KeyCode::Char('S'))), Some(SshListAction::SubnetPrompt));
    assert_eq!(ssh_list_key_action(&shift(KeyCode::Char('A'))), Some(SshListAction::AddHost));
    assert_eq!(ssh_list_key_action(&key(KeyCode::Delete)), Some(SshListAction::DeleteHost));
    assert_eq!(ssh_list_key_action(&key(KeyCode::Char('h'))), Some(SshListAction::HealthDashboard));
    assert_eq!(ssh_list_key_action(&ctrl(KeyCode::Char('s'))), None);
}

#[test]
fn ssh_manager_keys_by_mode() {
    assert_eq!(
        ssh_manager_key_action(&key(KeyCode::Esc), SshManagerMode::Scanning, false),
        Some(SshKeyAction::CancelScan)
    );
    assert_eq!(
        ssh_manager_key_action(&key(KeyCode::Char('s')), SshManagerMode::Scanning, false),
        None
    );
    assert_eq!(ssh_manager_key_action(&key(KeyCode::Esc), SshManagerMode::Connecting, false), None);
    assert_eq!(
        ssh_manager_key_action(&key(KeyCode::Tab), SshManagerMode::CredentialEntry, false),
        Some(SshKeyAction::Form(FormKeyAction::NextField))
    );
    // The name form has one field: Tab does nothing there.
    assert_eq!(ssh_manager_key_action(&key(KeyCode::Tab), SshManagerMode::EditName, false), None);
    assert_eq!(
        ssh_manager_key_action(&key(KeyCode::Left), SshManagerMode::AddHost, true),
        Some(SshKeyAction::Form(FormKeyAction::PrevJumpHost))
    );
    assert_eq!(ssh_manager_key_action(&key(KeyCode::Left), SshManagerMode::AddHost, false), None);
    assert_eq!(form_key_action(&shift(KeyCode::BackTab), true, false), Some(FormKeyAction::PrevField));
    assert_eq!(form_key_action(&key(KeyCode::BackTab), true, false), None);
    assert_eq!(prompt_key_action(&key(KeyCode::Enter)), Some(PromptAction::Submit));
    assert_eq!(prompt_key_action(&shift(KeyCode::Char('X'))), Some(PromptAction::Insert('X')));
    assert_eq!(subnet_scan_target(""), ScanTarget::Local);
    assert_eq!(subnet_scan_target("10.0.0.0/24"), ScanTarget::Subnet("10.0.0.0/24".to_string()));
}

// ------------------------------------------------------------ terminal pane

#[test]
fn terminal_shortcuts() {
    assert_eq!(terminal_key_action(ctrl(KeyCode::Char('t'))), Some(TerminalKeyAction::AddTab));
    assert_eq!(terminal_key_action(ctrl(KeyCode::Char('s'))), Some(TerminalKeyAction::SplitHorizontal));
    assert_eq!(
        terminal_key_action(ctrl_shift(KeyCode::Char('S'))),
        Some(TerminalKeyAction::SplitVertical)
    );
    assert_eq!(terminal_key_action(ctrl_shift(KeyCode::Char('w'))), Some(TerminalKeyAction::CloseSplit));
    assert_eq!(terminal_key_action(ctrl_shift(KeyCode::Char('C'))), Some(TerminalKeyAction::CopySelection));
    assert_eq!(terminal_key_action(ctrl(KeyCode::Char('c'))), Some(TerminalKeyAction::Interrupt));
    assert_eq!(terminal_key_action(ctrl(KeyCode::Tab)), Some(TerminalKeyAction::ToggleSplitFocus));
    assert_eq!(
        terminal_key_action(shift(KeyCode::Up)),
        Some(TerminalKeyAction::Select(SelectDirection::Up))
    );
    assert_eq!(terminal_key_action(shift(KeyCode::PageUp)), Some(TerminalKeyAction::ScrollUp));
}

#[test]
fn terminal_input_reaches_the_shell() {
    assert_eq!(terminal_key_action(key(KeyCode::Char('a'))), Some(TerminalKeyAction::Input('a')));
    assert_eq!(terminal_key_action(shift(KeyCode::Char('A'))), Some(TerminalKeyAction::Input('A')));
    assert_eq!(terminal_key_action(key(KeyCode::Enter)), Some(TerminalKeyAction::Input('\r')));
    assert_eq!(terminal_key_action(key(KeyCode::Backspace)), Some(TerminalKeyAction::Erase));
    assert_eq!(
        terminal_key_action(key(KeyCode::Up)),
        Some(TerminalKeyAction::Send(vec![0x1b, b'[', b'A']))
    );
    assert_eq!(terminal_key_action(ctrl(KeyCode::Char('d'))), Some(TerminalKeyAction::Send(vec![4])));
    assert_eq!(terminal_key_action(key(KeyCode::CapsLock)), None);
}

#[test]
fn intercepted_commands() {
    assert_eq!(parse_terminal_command("open"), Some(TerminalCommand::Browse));
    assert_eq!(
        parse_terminal_command("open  src/main.rs "),
        Some(TerminalCommand::Open("src/main.rs".to_string()))
    );
    assert_eq!(parse_terminal_command("update"), Some(TerminalCommand::Update));
    assert_eq!(parse_terminal_command("debug ssh"), Some(TerminalCommand::DebugSsh));
    assert_eq!(parse_terminal_command("debug tabs"), Some(TerminalCommand::DebugTabs));
    assert_eq!(
        parse_terminal_command("debug buffer: ls -la"),
        Some(TerminalCommand::DebugBuffer(" ls -la".to_string()))
    );
    assert_eq!(parse_terminal_command("opened"), None);
    assert_eq!(parse_terminal_command("ls"), None);
}

// ------------------------------------------------------------ mouse

fn pane() -> Rect {
    Rect { x: 10, y: 5, width: 20, height: 10 }
}

fn mouse(kind: MouseEventKind, column: u16, row: u16) -> MouseEvent {
    MouseEvent { kind, column, row, modifiers: KeyModifiers::none() }
}

#[test]
fn points_and_grid_cells() {
    assert!(is_point_in_area(10, 5, pane()));
    assert!(is_point_in_area(29, 14, pane()));
    assert!(!is_point_in_area(30, 5, pane()));
    assert!(!is_point_in_area(10, 15, pane()));
    assert!(!is_point_in_area(9, 7, pane()));
    assert_eq!(to_terminal_coords(15, 9, pane()), (4, 2));
    assert_eq!(to_terminal_coords(10, 5, pane()), (0, 0));
}

#[test]
fn mouse_events_over_the_terminal() {
    let left = MouseButton::Left;
    assert_eq!(
        mouse_event_action(&mouse(MouseEventKind::Down(left), 15, 9), pane()),
        Some(MouseAction::StartSelection(4, 2))
    );
    assert_eq!(mouse_event_action(&mouse(MouseEventKind::Down(left), 0, 0), pane()), None);
    assert_eq!(
        mouse_event_action(&mouse(MouseEventKind::Drag(left), 20, 10), pane()),
        Some(MouseAction::UpdateSelection(9, 3))
    );
    assert_eq!(
        mouse_event_action(&mouse(MouseEventKind::Up(left), 0, 0), pane()),
        Some(MouseAction::FinalizeSelection)
    );
    assert_eq!(
        mouse_event_action(&mouse(MouseEventKind::ScrollUp, 12, 6), pane()),
        Some(MouseAction::ScrollUp)
    );
    assert_eq!(mouse_event_action(&mouse(MouseEventKind::ScrollDown, 50, 6), pane()), None);
    assert_eq!(
        mouse_event_action(&mouse(MouseEventKind::Down(MouseButton::Right), 15, 9), pane()),
        None
    );
}

#[test]
fn mouse_press_focuses_the_terminal_in_normal_mode_only() {
    let mut app = App::new(80, 24);
    app.layout.focused = FocusedPane::Editor;
    let press = mouse(MouseEventKind::Down(MouseButton::Left), 15, 9);
    assert_eq!(app.handle_mouse(press, pane()), Some(MouseAction::StartSelection(4, 2)));
    assert_eq!(app.layout.focused, FocusedPane::Terminal);
    app.layout.focused = FocusedPane::Editor;
    app.mode = AppMode::HealthDashboard;
    assert_eq!(app.handle_mouse(press, pane()), None);
    assert_eq!(app.layout.focused, FocusedPane::Editor);
}

// ------------------------------------------------------------ popups

#[test]
fn choosers_and_notes() {
    assert_eq!(mode_switcher_key_action(&key(KeyCode::Tab)), Some(ChooserAction::Next));
    assert_eq!(mode_switcher_key_action(&shift(KeyCode::Tab)), Some(ChooserAction::Prev));
    assert_eq!(mode_switcher_key_action(&key(KeyCode::BackTab)), Some(ChooserAction::Prev));
    assert_eq!(mode_switcher_key_action(&ctrl_shift(KeyCode::Tab)), Some(ChooserAction::Next));
    assert_eq!(mode_switcher_key_action(&key(KeyCode::Char('k'))), Some(ChooserAction::Prev));
    assert_eq!(mode_switcher_key_action(&ctrl(KeyCode::Tab)), None);
    assert_eq!(chooser_key_action(&key(KeyCode::Enter)), Some(ChooserAction::Apply));
    assert_eq!(chooser_key_action(&key(KeyCode::Tab)), None);
    let idle = SshManagerMode::List;
    assert_eq!(
        popup_key_action(&key(KeyCode::Char('x')), PopupKind::KeybindingNotification, idle, false),
        Some(PopupKeyAction::Dismiss)
    );
    assert_eq!(
        popup_key_action(&key(KeyCode::Char('x')), PopupKind::ShellInstallPrompt, idle, false),
        None
    );
    assert_eq!(
        popup_key_action(&key(KeyCode::Enter), PopupKind::ShellInstallPrompt, idle, false),
        Some(PopupKeyAction::Dismiss)
    );
    assert_eq!(
        popup_key_action(&key(KeyCode::Char('j')), PopupKind::ThemeSelector, idle, false),
        Some(PopupKeyAction::Theme(ChooserAction::Next))
    );
    assert_eq!(
        popup_key_action(&key(KeyCode::Char('j')), PopupKind::SearchFiles, idle, false),
        Some(PopupKeyAction::Text(PopupInput::Insert('j')))
    );
    assert_eq!(
        popup_key_action(&key(KeyCode::Char('s')), PopupKind::SshManager, idle, false),
        Some(PopupKeyAction::Ssh(SshKeyAction::List(SshListAction::Scan)))
    );
}

#[test]
fn popup_keys_close_the_popup() {
    let idle = SshManagerMode::List;
    let mut app = App::new(80, 24);
    assert_eq!(app.handle_popup_key(key(KeyCode::Esc), idle, false), None);
    app.show_popup(PopupKind::ConfirmSaveBeforeExit);
    assert_eq!(
        app.handle_popup_key(key(KeyCode::Char('n')), idle, false),
        Some(PopupKeyAction::Confirm(ConfirmAnswer::Quit))
    );
    assert!(app.popup.is_none());
    assert!(!app.running);

    let mut app = App::new(80, 24);
    app.show_popup(PopupKind::SearchInFile);
    assert_eq!(
        app.handle_popup_key(key(KeyCode::Char('a')), idle, false),
        Some(PopupKeyAction::Text(PopupInput::Insert('a')))
    );
    assert_eq!(app.popup, Some(PopupKind::SearchInFile));
    app.handle_popup_key(key(KeyCode::Esc), idle, false);
    assert!(app.popup.is_none());
    assert!(app.running);

    app.show_popup(PopupKind::SshSubnetEntry);
    app.handle_popup_key(key(KeyCode::Enter), idle, false);
    assert!(app.popup.is_none());
}

#[test]
fn file_browser_keys() {
    assert_eq!(browser_key_action(&key(KeyCode::Char('w')), false), Some(BrowserKeyAction::Up));
    assert_eq!(browser_key_action(&key(KeyCode::Char('s')), false), Some(BrowserKeyAction::Down));
    assert_eq!(browser_key_action(&key(KeyCode::Char('a')), true), Some(BrowserKeyAction::Parent));
    assert_eq!(browser_key_action(&key(KeyCode::Enter), true), Some(BrowserKeyAction::Enter));
    assert_eq!(browser_key_action(&key(KeyCode::End), false), Some(BrowserKeyAction::Last));
    assert_eq!(browser_key_action(&key(KeyCode::Char('/')), false), Some(BrowserKeyAction::Search));
    assert_eq!(browser_key_action(&key(KeyCode::Char('/')), true), None);
    assert_eq!(browser_key_action(&shift(KeyCode::Up), false), None);
}

#[test]
fn routing_and_copying() {
    let mut app = App::new(80, 24);
    assert_eq!(app.route_key(&key(KeyCode::Char('a'))), KeyRoute::Normal);
    let release = KeyEvent::with_kind(KeyCode::Char('a'), KeyModifiers::none(), KeyEventKind::Release);
    assert_eq!(app.route_key(&release), KeyRoute::Ignore);
    app.mode = AppMode::FileBrowser;
    assert_eq!(app.route_key(&key(KeyCode::Char('a'))), KeyRoute::FileBrowser);
    app.show_popup(PopupKind::CommandPalette);
    assert_eq!(app.route_key(&key(KeyCode::Char('a'))), KeyRoute::Popup);
    assert_eq!(app.clipboard_pane(), FocusedPane::Terminal);
    assert_eq!(
        editor_copy_text(Some("sel".to_string()), "line".to_string()),
        Some("sel".to_string())
    );
    assert_eq!(editor_copy_text(None, "line".to_string()), Some("line".to_string()));
    assert_eq!(editor_copy_text(None, String::new()), None);
}
