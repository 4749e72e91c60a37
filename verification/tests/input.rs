use ratterm_core::app::commands::Command;
use ratterm_core::app::input::{
    confirm_key_answer, editor_global_key_action, editor_key_action, ConfirmAnswer, global_key_action, popup_key_input,
    EditorAction, EditorGlobalAction, GlobalAction, GlobalKeyOutcome, NormalKeyOutcome,
    PopupInput,
};
use ratterm_core::app::keys::{KeyCode, KeyEvent, KeyModifiers};
use ratterm_core::app::state::{App, FocusedPane, PopupKind};

fn ctrl(c: char) -> KeyEvent {
    KeyEvent::new(KeyCode::Char(c), KeyModifiers::control())
}

fn alt(code: KeyCode) -> KeyEvent {
    KeyEvent::new(code, KeyModifiers::alt())
}

fn alt_shift(code: KeyCode) -> KeyEvent {
    KeyEvent::new(code, KeyModifiers::alt().union(KeyModifiers::shift()))
}

fn ctrl_shift(code: KeyCode) -> KeyEvent {
    KeyEvent::new(code, KeyModifiers::control().union(KeyModifiers::shift()))
}

fn plain(code: KeyCode) -> KeyEvent {
    KeyEvent::new(code, KeyModifiers::none())
}

// ------------------------------------------------------------ global keys

#[test]
fn global_keys_map_to_their_actions() {
    assert_eq!(global_key_action(ctrl('i'), false, false), Some(GlobalAction::ToggleIde));
    assert_eq!(global_key_action(alt(KeyCode::Left), false, false), Some(GlobalAction::FocusTerminal));
    assert_eq!(global_key_action(alt(KeyCode::Right), false, false), Some(GlobalAction::FocusEditor));
    assert_eq!(global_key_action(alt(KeyCode::Up), false, false), Some(GlobalAction::SwitchTerminalSplit));
    assert_eq!(global_key_action(alt(KeyCode::Down), false, false), Some(GlobalAction::SwitchTerminalSplit));
    assert_eq!(global_key_action(alt(KeyCode::Tab), false, false), Some(GlobalAction::ToggleFocus));
    assert_eq!(global_key_action(alt(KeyCode::Char('[')), false, false), Some(GlobalAction::MoveSplitLeft));
    assert_eq!(global_key_action(alt(KeyCode::Char(']')), false, false), Some(GlobalAction::MoveSplitRight));
    assert_eq!(global_key_action(ctrl('q'), false, false), Some(GlobalAction::Quit));
    assert_eq!(global_key_action(ctrl('o'), false, false), Some(GlobalAction::ShowFileBrowser));
    assert_eq!(global_key_action(ctrl('v'), false, false), Some(GlobalAction::Paste));
    assert_eq!(global_key_action(ctrl_shift(KeyCode::Char('C')), false, false), Some(GlobalAction::CopySelection));
    assert_eq!(global_key_action(ctrl_shift(KeyCode::Char('u')), false, false), Some(GlobalAction::SshManager));
    assert_eq!(global_key_action(ctrl_shift(KeyCode::Tab), false, false), Some(GlobalAction::CycleEditorMode));
    assert_eq!(global_key_action(ctrl_shift(KeyCode::BackTab), false, false), Some(GlobalAction::CycleEditorMode));
    assert_eq!(global_key_action(alt_shift(KeyCode::Right), false, false), Some(GlobalAction::NextFile));
    assert_eq!(global_key_action(alt_shift(KeyCode::Char('L')), false, false), Some(GlobalAction::NextFile));
    assert_eq!(global_key_action(alt_shift(KeyCode::Left), false, false), Some(GlobalAction::PrevFile));
    assert_eq!(global_key_action(alt_shift(KeyCode::Char('h')), false, false), Some(GlobalAction::PrevFile));
}

#[test]
fn command_palette_key_depends_on_the_platform() {
    let f1 = plain(KeyCode::F(1));
    assert_eq!(global_key_action(f1, true, false), Some(GlobalAction::CommandPalette));
    assert_eq!(global_key_action(f1, false, false), None);
    assert_eq!(global_key_action(ctrl('p'), false, false), Some(GlobalAction::CommandPalette));
    assert_eq!(global_key_action(ctrl('p'), true, false), None);
    assert_eq!(
        global_key_action(ctrl_shift(KeyCode::Char('P')), false, false),
        Some(GlobalAction::CommandPalette)
    );
    assert_eq!(global_key_action(ctrl_shift(KeyCode::Char('P')), true, false), None);
}

#[test]
fn ssh_number_keys_follow_the_setting() {
    assert_eq!(global_key_action(ctrl('1'), false, true), Some(GlobalAction::SshConnect(0)));
    assert_eq!(global_key_action(ctrl('9'), false, true), Some(GlobalAction::SshConnect(8)));
    assert_eq!(global_key_action(ctrl('1'), false, false), None);
    assert_eq!(global_key_action(ctrl('0'), false, true), None);
}

#[test]
fn other_keys_are_not_global() {
    assert_eq!(global_key_action(plain(KeyCode::Char('i')), false, false), None);
    assert_eq!(global_key_action(plain(KeyCode::Left), false, false), None);
    assert_eq!(global_key_action(ctrl('x'), false, false), None);
    assert_eq!(global_key_action(ctrl_shift(KeyCode::Char('i')), false, false), None);
}

#[test]
fn handle_global_key_toggles_the_ide() {
    let mut app = App::new(80, 24);
    assert!(!app.layout.ide_visible);
    assert_eq!(app.handle_global_key(ctrl('i'), false), GlobalKeyOutcome::Done);
    assert!(app.layout.ide_visible);
    assert_eq!(app.handle_global_key(ctrl('i'), false), GlobalKeyOutcome::Done);
    assert!(!app.layout.ide_visible);
}

#[test]
fn handle_global_key_moves_the_focus() {
    let mut app = App::new(80, 24);
    // The editor is hidden: Alt+Right keeps the terminal focused.
    assert_eq!(app.handle_global_key(alt(KeyCode::Right), false), GlobalKeyOutcome::Done);
    assert_eq!(app.layout.focused, FocusedPane::Terminal);
    app.handle_global_key(ctrl('i'), false);
    app.layout.focused = FocusedPane::Terminal;
    assert_eq!(app.handle_global_key(alt(KeyCode::Right), false), GlobalKeyOutcome::Done);
    assert_eq!(app.layout.focused, FocusedPane::Editor);
    assert_eq!(app.handle_global_key(alt(KeyCode::Left), false), GlobalKeyOutcome::Done);
    assert_eq!(app.layout.focused, FocusedPane::Terminal);
    assert_eq!(app.handle_global_key(alt(KeyCode::Tab), false), GlobalKeyOutcome::Done);
    assert_eq!(app.layout.focused, FocusedPane::Editor);
}

#[test]
fn handle_global_key_cycles_tabs() {
    let mut app = App::new(80, 24);
    app.open_file("/tmp/a.rs");
    app.open_file("/tmp/b.rs");
    app.open_file("/tmp/c.rs");
    assert_eq!(app.current_file_idx, 2);
    assert_eq!(app.handle_global_key(alt_shift(KeyCode::Right), false), GlobalKeyOutcome::Done);
    assert_eq!(app.current_file_idx, 0);
    assert_eq!(app.handle_global_key(alt_shift(KeyCode::Left), false), GlobalKeyOutcome::Done);
    assert_eq!(app.current_file_idx, 2);
    assert_eq!(app.handle_global_key(alt_shift(KeyCode::Char('H')), false), GlobalKeyOutcome::Done);
    assert_eq!(app.current_file_idx, 1);
}

#[test]
fn handle_global_key_opens_the_command_palette() {
    let mut app = App::new(80, 24);
    assert_eq!(app.handle_global_key(ctrl('p'), false), GlobalKeyOutcome::Done);
    assert_eq!(app.popup, Some(PopupKind::CommandPalette));
}

#[test]
fn handle_global_key_hands_back_outside_work() {
    let mut app = App::new(80, 24);
    assert_eq!(app.handle_global_key(ctrl('q'), false), GlobalKeyOutcome::Pending(GlobalAction::Quit));
    assert!(app.running);
    assert_eq!(
        app.handle_global_key(ctrl('v'), false),
        GlobalKeyOutcome::Pending(GlobalAction::Paste)
    );
    app.config.ssh_number_setting = true;
    assert_eq!(
        app.handle_global_key(ctrl('3'), false),
        GlobalKeyOutcome::Pending(GlobalAction::SshConnect(2))
    );
    assert_eq!(app.handle_global_key(plain(KeyCode::Char('a')), false), GlobalKeyOutcome::NotGlobal);
    assert!(app.popup.is_none());
}

// ----------------------------------------------------------------- popups

#[test]
fn popup_keys_map_to_edits() {
    assert_eq!(popup_key_input(plain(KeyCode::Esc)), Some(PopupInput::Close));
    assert_eq!(popup_key_input(plain(KeyCode::Enter)), Some(PopupInput::Execute));
    assert_eq!(popup_key_input(plain(KeyCode::Backspace)), Some(PopupInput::Backspace));
    assert_eq!(popup_key_input(plain(KeyCode::Delete)), Some(PopupInput::Delete));
    assert_eq!(popup_key_input(plain(KeyCode::Left)), Some(PopupInput::Left));
    assert_eq!(popup_key_input(plain(KeyCode::Right)), Some(PopupInput::Right));
    assert_eq!(popup_key_input(plain(KeyCode::Up)), Some(PopupInput::ResultUp));
    assert_eq!(popup_key_input(plain(KeyCode::Down)), Some(PopupInput::ResultDown));
    assert_eq!(popup_key_input(plain(KeyCode::Home)), Some(PopupInput::Home));
    assert_eq!(popup_key_input(plain(KeyCode::End)), Some(PopupInput::End));
    assert_eq!(popup_key_input(plain(KeyCode::Tab)), Some(PopupInput::AcceptSuggestion));
    assert_eq!(popup_key_input(plain(KeyCode::Char('x'))), Some(PopupInput::Insert('x')));
    assert_eq!(
        popup_key_input(KeyEvent::new(KeyCode::Char('X'), KeyModifiers::shift())),
        Some(PopupInput::Insert('X'))
    );
    assert_eq!(popup_key_input(alt_shift(KeyCode::Up)), Some(PopupInput::ParentDirectory));
}

#[test]
fn popup_ignores_other_keys() {
    assert_eq!(popup_key_input(ctrl('x')), None);
    assert_eq!(popup_key_input(alt(KeyCode::Up)), None);
    assert_eq!(popup_key_input(plain(KeyCode::F(2))), None);
    assert_eq!(popup_key_input(KeyEvent::new(KeyCode::Left, KeyModifiers::shift())), None);
}

// ----------------------------------------------------------------- editor

#[test]
fn editor_default_keys() {
    assert_eq!(editor_key_action(ctrl(' ')), Some(EditorAction::Complete));
    assert_eq!(editor_key_action(plain(KeyCode::F(3))), Some(EditorAction::SearchNext));
    assert_eq!(
        editor_key_action(KeyEvent::new(KeyCode::F(3), KeyModifiers::shift())),
        Some(EditorAction::SearchPrev)
    );
    assert_eq!(editor_key_action(plain(KeyCode::Esc)), Some(EditorAction::Cancel));
    assert_eq!(editor_key_action(plain(KeyCode::Left)), Some(EditorAction::MoveLeft));
    assert_eq!(
        editor_key_action(KeyEvent::new(KeyCode::Down, KeyModifiers::shift())),
        Some(EditorAction::SelectDown)
    );
    assert_eq!(editor_key_action(ctrl('a')), Some(EditorAction::SelectAll));
    assert_eq!(editor_key_action(ctrl('z')), Some(EditorAction::Undo));
    assert_eq!(editor_key_action(ctrl('y')), Some(EditorAction::Redo));
    assert_eq!(editor_key_action(ctrl('s')), Some(EditorAction::Save));
    assert_eq!(
        editor_key_action(KeyEvent::new(KeyCode::Left, KeyModifiers::control())),
        Some(EditorAction::WordLeft)
    );
    assert_eq!(
        editor_key_action(KeyEvent::new(KeyCode::End, KeyModifiers::control())),
        Some(EditorAction::BufferEnd)
    );
    assert_eq!(editor_key_action(plain(KeyCode::Enter)), Some(EditorAction::Newline));
    assert_eq!(editor_key_action(plain(KeyCode::Tab)), Some(EditorAction::Indent));
    assert_eq!(editor_key_action(plain(KeyCode::BackTab)), Some(EditorAction::Outdent));
    assert_eq!(editor_key_action(plain(KeyCode::Char('q'))), Some(EditorAction::Type('q')));
    assert_eq!(
        editor_key_action(KeyEvent::new(KeyCode::Char('Q'), KeyModifiers::shift())),
        Some(EditorAction::Type('Q'))
    );
    assert_eq!(editor_key_action(ctrl('k')), None);
    assert_eq!(editor_key_action(alt(KeyCode::Char('a'))), None);
    assert_eq!(editor_key_action(plain(KeyCode::F(4))), None);
}

// --------------------------------------------------------------- commands

#[test]
fn unknown_command_is_reported() {
    let mut app = App::new(80, 24);
    assert_eq!(app.execute_command("no.such.command"), None);
    assert_eq!(app.status(), "Unknown command: no.such.command");
}

#[test]
fn popup_commands_open_their_popups() {
    let mut app = App::new(80, 24);
    assert_eq!(app.execute_command("file.new"), None);
    assert_eq!(app.popup, Some(PopupKind::CreateFile));
    assert_eq!(app.execute_command("file.newFolder"), None);
    assert_eq!(app.popup, Some(PopupKind::CreateFolder));
    assert_eq!(app.execute_command("search.inFiles"), None);
    assert_eq!(app.popup, Some(PopupKind::SearchInFiles));
    assert_eq!(app.execute_command("app.commandPalette"), None);
    assert_eq!(app.popup, Some(PopupKind::CommandPalette));
}

#[test]
fn extension_commands_point_to_the_cli() {
    let mut app = App::new(80, 24);
    app.execute_command("extension.install");
    assert_eq!(app.status(), "Use CLI: rat ext install <user/repo>");
    app.execute_command("extension.update");
    assert_eq!(app.status(), "Use CLI: rat ext update [name]");
    app.execute_command("extension.remove");
    assert_eq!(app.status(), "Use CLI: rat ext remove <name>");
}

#[test]
fn quit_command_stops_the_app() {
    let mut app = App::new(80, 24);
    assert!(app.running);
    assert_eq!(app.execute_command("app.quit"), None);
    assert!(!app.running);
}

#[test]
fn focus_commands_move_the_focus() {
    let mut app = App::new(80, 24);
    app.execute_command("view.focusEditor");
    assert_eq!(app.layout.focused, FocusedPane::Editor);
    app.execute_command("view.focusTerminal");
    assert_eq!(app.layout.focused, FocusedPane::Terminal);
}

#[test]
fn outside_commands_are_handed_back() {
    let mut app = App::new(80, 24);
    assert_eq!(app.execute_command("file.save"), Some(Command::FileSave));
    assert_eq!(app.execute_command("ssh.connect3"), Some(Command::SshConnect(2)));
    assert_eq!(app.execute_command("docker.connect1"), Some(Command::DockerConnect(0)));
    assert_eq!(app.execute_command("theme.nord"), Some(Command::ThemeNord));
    assert!(app.popup.is_none());
    assert_eq!(app.status(), "");
}

// ------------------------------------------------------- editor-wide keys

#[test]
fn editor_wide_keys_map_to_their_actions() {
    assert_eq!(editor_global_key_action(ctrl('t')), Some(EditorGlobalAction::NewTab));
    assert_eq!(editor_global_key_action(ctrl('w')), Some(EditorGlobalAction::CloseTab));
    assert_eq!(
        editor_global_key_action(ctrl('f')),
        Some(EditorGlobalAction::Popup(PopupKind::SearchInFile))
    );
    assert_eq!(
        editor_global_key_action(ctrl_shift(KeyCode::Char('F'))),
        Some(EditorGlobalAction::Popup(PopupKind::SearchInFiles))
    );
    assert_eq!(
        editor_global_key_action(ctrl_shift(KeyCode::Char('d'))),
        Some(EditorGlobalAction::Popup(PopupKind::SearchDirectories))
    );
    assert_eq!(
        editor_global_key_action(ctrl_shift(KeyCode::Char('E'))),
        Some(EditorGlobalAction::Popup(PopupKind::SearchFiles))
    );
    assert_eq!(
        editor_global_key_action(ctrl('n')),
        Some(EditorGlobalAction::Popup(PopupKind::CreateFile))
    );
    assert_eq!(
        editor_global_key_action(ctrl_shift(KeyCode::Char('N'))),
        Some(EditorGlobalAction::Popup(PopupKind::CreateFolder))
    );
    assert_eq!(editor_global_key_action(ctrl('x')), None);
    assert_eq!(editor_global_key_action(plain(KeyCode::Char('t'))), None);
}

#[test]
fn editor_wide_keys_act_on_tabs_and_popups() {
    let mut app = App::new(80, 24);
    assert!(app.handle_editor_global_key(ctrl('t')));
    assert_eq!(app.open_files.len(), 1);
    assert_eq!(app.open_files[0].name, "Untitled");
    assert!(app.handle_editor_global_key(ctrl('t')));
    assert_eq!(app.open_files[1].name, "Untitled-2");
    assert!(app.handle_editor_global_key(ctrl('w')));
    assert_eq!(app.open_files.len(), 1);
    assert!(app.handle_editor_global_key(ctrl('n')));
    assert_eq!(app.popup, Some(PopupKind::CreateFile));
    assert!(!app.handle_editor_global_key(ctrl('x')));
}

#[test]
fn normal_keys_go_global_then_editor_then_pane() {
    let mut app = App::new(80, 24);
    assert_eq!(
        app.handle_normal_key(ctrl('i'), false),
        NormalKeyOutcome::Global(GlobalKeyOutcome::Done)
    );
    assert_eq!(app.layout.focused, FocusedPane::Terminal);
    // With the terminal focused, Ctrl+T goes to the terminal.
    assert_eq!(
        app.handle_normal_key(ctrl('t'), false),
        NormalKeyOutcome::Pane(FocusedPane::Terminal)
    );
    app.layout.focused = FocusedPane::Editor;
    assert_eq!(app.handle_normal_key(ctrl('t'), false), NormalKeyOutcome::EditorGlobal);
    assert_eq!(app.open_files.len(), 1);
    assert_eq!(
        app.handle_normal_key(plain(KeyCode::Char('a')), false),
        NormalKeyOutcome::Pane(FocusedPane::Editor)
    );
}

#[test]
fn confirmation_answers() {
    assert_eq!(confirm_key_answer(plain(KeyCode::Char('y'))), Some(ConfirmAnswer::SaveAndQuit));
    assert_eq!(
        confirm_key_answer(KeyEvent::new(KeyCode::Char('Y'), KeyModifiers::shift())),
        Some(ConfirmAnswer::SaveAndQuit)
    );
    assert_eq!(confirm_key_answer(plain(KeyCode::Char('n'))), Some(ConfirmAnswer::Quit));
    assert_eq!(confirm_key_answer(plain(KeyCode::Char('c'))), Some(ConfirmAnswer::Cancel));
    assert_eq!(confirm_key_answer(plain(KeyCode::Esc)), Some(ConfirmAnswer::Cancel));
    assert_eq!(confirm_key_answer(plain(KeyCode::Char('Y'))), None);
    assert_eq!(confirm_key_answer(ctrl('y')), None);
}

#[test]
fn confirmation_closes_the_popup_and_may_quit() {
    let mut app = App::new(80, 24);
    app.show_popup(PopupKind::ConfirmSaveBeforeExit);
    assert_eq!(app.handle_confirmation_key(plain(KeyCode::Char('x'))), None);
    assert_eq!(app.popup, Some(PopupKind::ConfirmSaveBeforeExit));
    assert_eq!(app.handle_confirmation_key(plain(KeyCode::Esc)), Some(ConfirmAnswer::Cancel));
    assert!(app.popup.is_none());
    assert!(app.running);
    app.show_popup(PopupKind::ConfirmSaveBeforeExit);
    assert_eq!(app.handle_confirmation_key(plain(KeyCode::Char('n'))), Some(ConfirmAnswer::Quit));
    assert!(app.popup.is_none());
    assert!(!app.running);
}
