//! The keys that work everywhere, and the keys of a text popup and of the
//! editor's default key bindings, as actions. Each mapping is a function of
//! the key (and of what the platform and the settings decide), so every
//! binding can be checked without a terminal.

use crate::app::input_debugger::only_control_shift;
use crate::app::layout_ops::same_panes;
use crate::app::keys::{
    arrow_direction, no_mods, only_control, only_shift, Direction, KeyCode, KeyEvent, KeyModifiers,
};
use crate::app::state::{
    same_debug, same_files, same_lsp, toggled_focus, App, FocusedPane, PopupKind,
};
use vstd::prelude::*;

verus! {

/// Only Alt is held.
pub open spec fn only_alt(m: KeyModifiers) -> bool {
    !m.shift && !m.control && m.alt && !m.super_key && !m.hyper && !m.meta
}

/// Alt and Shift are held, and nothing else.
pub open spec fn only_alt_shift(m: KeyModifiers) -> bool {
    m.shift && !m.control && m.alt && !m.super_key && !m.hyper && !m.meta
}

/// What a global key does.
#[derive(Debug, Clone, Copy, PartialEq, Eq, Structural)]
pub enum GlobalAction {
    /// Ctrl+I: show or hide the IDE pane.
    ToggleIde,
    /// Alt+Left: focus the terminal.
    FocusTerminal,
    /// Alt+Right: focus the editor, when it shows.
    FocusEditor,
    /// Alt+Up/Down: switch between the terminal's split panes.
    SwitchTerminalSplit,
    /// Alt+Tab: switch the focus.
    ToggleFocus,
    /// Alt+[: move the split left.
    MoveSplitLeft,
    /// Alt+]: move the split right.
    MoveSplitRight,
    /// Ctrl+Q: quit.
    Quit,
    /// Ctrl+O: the file browser.
    ShowFileBrowser,
    /// The command palette.
    CommandPalette,
    /// Ctrl+Shift+Tab: the editor-mode switcher.
    CycleEditorMode,
    /// Ctrl+Shift+C: copy the selection.
    CopySelection,
    /// Ctrl+V: paste.
    Paste,
    /// Alt+Shift+Right or L: the next tab.
    NextFile,
    /// Alt+Shift+Left or H: the previous tab.
    PrevFile,
    /// Ctrl+Shift+U: the SSH manager.
    SshManager,
    /// Ctrl+1..9: connect to saved SSH host N (0-based).
    SshConnect(u8),
}

/// What a key does wherever the focus is. The command palette is F1 on
/// Windows 11 and Ctrl+P or Ctrl+Shift+P elsewhere; Ctrl+1..9 connect to
/// SSH hosts only when the setting is on.
pub open spec fn global_action(key: KeyEvent, windows_11: bool, ssh_numbers: bool) -> Option<
    GlobalAction,
> {
    let m = key.modifiers;
    match key.code {
        KeyCode::Char(c) => if only_control(m) && c == 'i' {
            Some(GlobalAction::ToggleIde)
        } else if only_alt(m) && c == '[' {
            Some(GlobalAction::MoveSplitLeft)
        } else if only_alt(m) && c == ']' {
            Some(GlobalAction::MoveSplitRight)
        } else if only_control(m) && c == 'q' {
            Some(GlobalAction::Quit)
        } else if only_control(m) && c == 'o' {
            Some(GlobalAction::ShowFileBrowser)
        } else if only_control_shift(m) && (c == 'p' || c == 'P') && !windows_11 {
            Some(GlobalAction::CommandPalette)
        } else if only_control(m) && c == 'p' && !windows_11 {
            Some(GlobalAction::CommandPalette)
        } else if only_control_shift(m) && (c == 'c' || c == 'C') {
            Some(GlobalAction::CopySelection)
        } else if only_control(m) && c == 'v' {
            Some(GlobalAction::Paste)
        } else if only_alt_shift(m) && (c == 'l' || c == 'L') {
            Some(GlobalAction::NextFile)
        } else if only_alt_shift(m) && (c == 'h' || c == 'H') {
            Some(GlobalAction::PrevFile)
        } else if only_control_shift(m) && (c == 'u' || c == 'U') {
            Some(GlobalAction::SshManager)
        } else if only_control(m) && '1' <= c <= '9' && ssh_numbers {
            Some(GlobalAction::SshConnect(((c as u32) - ('1' as u32)) as u8))
        } else {
            None
        },
        KeyCode::Left => if only_alt(m) {
            Some(GlobalAction::FocusTerminal)
        } else if only_alt_shift(m) {
            Some(GlobalAction::PrevFile)
        } else {
            None
        },
        KeyCode::Right => if only_alt(m) {
            Some(GlobalAction::FocusEditor)
        } else if only_alt_shift(m) {
            Some(GlobalAction::NextFile)
        } else {
            None
        },
        KeyCode::Up | KeyCode::Down => if only_alt(m) {
            Some(GlobalAction::SwitchTerminalSplit)
        } else {
            None
        },
        KeyCode::Tab => if only_alt(m) {
            Some(GlobalAction::ToggleFocus)
        } else if only_control_shift(m) {
            Some(GlobalAction::CycleEditorMode)
        } else {
            None
        },
        KeyCode::BackTab => if only_control_shift(m) {
            Some(GlobalAction::CycleEditorMode)
        } else {
            None
        },
        KeyCode::F(n) => if no_mods(m) && n == 1 && windows_11 {
            Some(GlobalAction::CommandPalette)
        } else {
            None
        },
        _ => None,
    }
}

/// What a global key does.
pub fn global_key_action(key: KeyEvent, windows_11: bool, ssh_numbers: bool) -> (r: Option<
    GlobalAction,
>)
    ensures
        r == global_action(key, windows_11, ssh_numbers),
{
    let m = key.modifiers;
    let ctrl = m.is_only_control();
    let alt = !m.shift && !m.control && m.alt && !m.super_key && !m.hyper && !m.meta;
    let alt_shift = m.shift && !m.control && m.alt && !m.super_key && !m.hyper && !m.meta;
    let ctrl_shift = m.shift && m.control && !m.alt && !m.super_key && !m.hyper && !m.meta;
    match key.code {
        KeyCode::Char(c) => {
            if ctrl && c == 'i' {
                Some(GlobalAction::ToggleIde)
            } else if alt && c == '[' {
                Some(GlobalAction::MoveSplitLeft)
            } else if alt && c == ']' {
                Some(GlobalAction::MoveSplitRight)
            } else if ctrl && c == 'q' {
                Some(GlobalAction::Quit)
            } else if ctrl && c == 'o' {
                Some(GlobalAction::ShowFileBrowser)
            } else if ctrl_shift && (c == 'p' || c == 'P') && !windows_11 {
                Some(GlobalAction::CommandPalette)
            } else if ctrl && c == 'p' && !windows_11 {
                Some(GlobalAction::CommandPalette)
            } else if ctrl_shift && (c == 'c' || c == 'C') {
                Some(GlobalAction::CopySelection)
            } else if ctrl && c == 'v' {
                Some(GlobalAction::Paste)
            } else if alt_shift && (c == 'l' || c == 'L') {
                Some(GlobalAction::NextFile)
            } else if alt_shift && (c == 'h' || c == 'H') {
                Some(GlobalAction::PrevFile)
            } else if ctrl_shift && (c == 'u' || c == 'U') {
                Some(GlobalAction::SshManager)
            } else if ctrl && '1' <= c && c <= '9' && ssh_numbers {
                Some(GlobalAction::SshConnect(((c as u8) - 49) as u8))
            } else {
                None
            }
        },
        KeyCode::Left => {
            if alt {
                Some(GlobalAction::FocusTerminal)
            } else if alt_shift {
                Some(GlobalAction::PrevFile)
            } else {
                None
            }
        },
        KeyCode::Right => {
            if alt {
                Some(GlobalAction::FocusEditor)
            } else if alt_shift {
                Some(GlobalAction::NextFile)
            } else {
                None
            }
        },
        KeyCode::Up | KeyCode::Down => {
            if alt {
                Some(GlobalAction::SwitchTerminalSplit)
            } else {
                None
            }
        },
        KeyCode::Tab => {
            if alt {
                Some(GlobalAction::ToggleFocus)
            } else if ctrl_shift {
                Some(GlobalAction::CycleEditorMode)
            } else {
                None
            }
        },
        KeyCode::BackTab => {
            if ctrl_shift {
                Some(GlobalAction::CycleEditorMode)
            } else {
                None
            }
        },
        KeyCode::F(n) => {
            if m.is_empty() && n == 1 && windows_11 {
                Some(GlobalAction::CommandPalette)
            } else {
                None
            }
        },
        _ => None,
    }
}

/// What became of a key offered as a global key.
#[derive(Debug, Clone, Copy, PartialEq, Eq, Structural)]
pub enum GlobalKeyOutcome {
    /// Not a global key: it goes to the focused pane.
    NotGlobal,
    /// A global key, carried out on the state.
    Done,
    /// A global key whose action the caller carries out (quitting, the
    /// clipboard, terminals, the split, the file browser, the mode switcher,
    /// SSH).
    Pending(GlobalAction),
}

/// The global actions carried out on the state kept here.
pub open spec fn global_done_here(a: GlobalAction) -> bool {
    a == GlobalAction::ToggleIde || a == GlobalAction::FocusTerminal || a
        == GlobalAction::FocusEditor || a == GlobalAction::ToggleFocus || a
        == GlobalAction::NextFile || a == GlobalAction::PrevFile || a
        == GlobalAction::CommandPalette
}

impl App {
    /// Handles a key that works wherever the focus is. `windows_11` says
    /// whether the command palette is on F1.
    pub fn handle_global_key(&mut self, key: KeyEvent, windows_11: bool) -> (r: GlobalKeyOutcome)
        requires
            old(self).wf(),
        ensures
            final(self).wf(),
            r == (match global_action(key, windows_11, old(self).config.ssh_number_setting) {
                None => GlobalKeyOutcome::NotGlobal,
                Some(a) => if global_done_here(a) {
                    GlobalKeyOutcome::Done
                } else {
                    GlobalKeyOutcome::Pending(a)
                },
            }),
            !(r is Done) ==> *final(self) == *old(self),
            global_action(key, windows_11, old(self).config.ssh_number_setting) == Some(
                GlobalAction::ToggleIde,
            ) ==> {
                &&& final(self).layout.ide_visible == !old(self).layout.ide_visible
                &&& final(self).layout.focused == old(self).layout.focused
                &&& final(self).needs_redraw
                &&& final(self).status@ == (if old(self).layout.ide_visible {
                    "IDE closed"@
                } else {
                    "IDE opened"@
                })
                &&& same_files(*old(self), *final(self))
                &&& same_panes(*old(self), *final(self))
            },
            global_action(key, windows_11, old(self).config.ssh_number_setting) == Some(
                GlobalAction::FocusTerminal,
            ) ==> final(self).layout.focused == FocusedPane::Terminal,
            global_action(key, windows_11, old(self).config.ssh_number_setting) == Some(
                GlobalAction::FocusEditor,
            ) ==> final(self).layout.focused == (if old(self).layout.ide_visible {
                FocusedPane::Editor
            } else {
                old(self).layout.focused
            }),
            global_action(key, windows_11, old(self).config.ssh_number_setting) == Some(
                GlobalAction::ToggleFocus,
            ) ==> final(self).layout.focused == toggled_focus(old(self).layout),
            global_action(key, windows_11, old(self).config.ssh_number_setting) == Some(
                GlobalAction::NextFile,
            ) ==> (old(self).open_files@.len() > 0 ==> final(self).current_file_idx == (old(
                self).current_file_idx + 1) % (old(self).open_files@.len() as int)),
            global_action(key, windows_11, old(self).config.ssh_number_setting) == Some(
                GlobalAction::PrevFile,
            ) ==> (old(self).open_files@.len() > 0 ==> final(self).current_file_idx == (if old(
                self).current_file_idx == 0 {
                old(self).open_files@.len() - 1
            } else {
                old(self).current_file_idx - 1
            })),
            global_action(key, windows_11, old(self).config.ssh_number_setting) == Some(
                GlobalAction::CommandPalette,
            ) ==> *final(self) == (App { popup: Some(PopupKind::CommandPalette), ..*old(self) }),
            final(self).open_files == old(self).open_files,
            same_lsp(*old(self), *final(self)),
            same_debug(*old(self), *final(self)),
    {
        let action = match global_key_action(key, windows_11, self.config.ssh_number_setting) {
            Some(a) => a,
            None => {
                return GlobalKeyOutcome::NotGlobal;
            },
        };
        match action {
            GlobalAction::ToggleIde => self.toggle_ide(),
            GlobalAction::FocusTerminal => self.layout.focused = FocusedPane::Terminal,
            GlobalAction::FocusEditor => {
                if self.layout.ide_visible {
                    self.layout.focused = FocusedPane::Editor;
                }
            },
            GlobalAction::ToggleFocus => self.layout.toggle_focus(),
            GlobalAction::NextFile => self.next_file(),
            GlobalAction::PrevFile => self.prev_file(),
            GlobalAction::CommandPalette => self.show_popup(PopupKind::CommandPalette),
            _ => {
                return GlobalKeyOutcome::Pending(action);
            },
        }
        GlobalKeyOutcome::Done
    }
}

/// What a key does in a text popup (file names, searches, the palette).
#[derive(Debug, Clone, Copy, PartialEq, Eq, Structural)]
pub enum PopupInput {
    /// Escape: close the popup.
    Close,
    /// Enter: run the popup's action.
    Execute,
    /// Backspace: delete before the cursor.
    Backspace,
    /// Delete: delete at the cursor.
    Delete,
    /// Left: move the cursor left.
    Left,
    /// Right: move the cursor right.
    Right,
    /// Up: the previous result.
    ResultUp,
    /// Down: the next result.
    ResultDown,
    /// Home: to the start.
    Home,
    /// End: to the end.
    End,
    /// Tab: accept the suggestion.
    AcceptSuggestion,
    /// Alt+Shift+Up: the browser goes to the parent directory.
    ParentDirectory,
    /// Type a character.
    Insert(char),
}

/// What a key does in a text popup: the editing keys with no modifier,
/// characters with no modifier or Shift, and Alt+Shift+Up.
pub open spec fn popup_input(key: KeyEvent) -> Option<PopupInput> {
    let m = key.modifiers;
    if no_mods(m) {
        match key.code {
            KeyCode::Esc => Some(PopupInput::Close),
            KeyCode::Enter => Some(PopupInput::Execute),
            KeyCode::Backspace => Some(PopupInput::Backspace),
            KeyCode::Delete => Some(PopupInput::Delete),
            KeyCode::Left => Some(PopupInput::Left),
            KeyCode::Right => Some(PopupInput::Right),
            KeyCode::Up => Some(PopupInput::ResultUp),
            KeyCode::Down => Some(PopupInput::ResultDown),
            KeyCode::Home => Some(PopupInput::Home),
            KeyCode::End => Some(PopupInput::End),
            KeyCode::Tab => Some(PopupInput::AcceptSuggestion),
            KeyCode::Char(c) => Some(PopupInput::Insert(c)),
            _ => None,
        }
    } else if only_alt_shift(m) && key.code == KeyCode::Up {
        Some(PopupInput::ParentDirectory)
    } else if only_shift(m) && key.code is Char {
        Some(PopupInput::Insert(key.code->Char_0))
    } else {
        None
    }
}

/// What a key does in a text popup.
pub fn popup_key_input(key: KeyEvent) -> (r: Option<PopupInput>)
    ensures
        r == popup_input(key),
{
    let m = key.modifiers;
    if m.is_empty() {
        match key.code {
            KeyCode::Esc => Some(PopupInput::Close),
            KeyCode::Enter => Some(PopupInput::Execute),
            KeyCode::Backspace => Some(PopupInput::Backspace),
            KeyCode::Delete => Some(PopupInput::Delete),
            KeyCode::Left => Some(PopupInput::Left),
            KeyCode::Right => Some(PopupInput::Right),
            KeyCode::Up => Some(PopupInput::ResultUp),
            KeyCode::Down => Some(PopupInput::ResultDown),
            KeyCode::Home => Some(PopupInput::Home),
            KeyCode::End => Some(PopupInput::End),
            KeyCode::Tab => Some(PopupInput::AcceptSuggestion),
            KeyCode::Char(c) => Some(PopupInput::Insert(c)),
            _ => None,
        }
    } else {
        let alt_shift = m.shift && !m.control && m.alt && !m.super_key && !m.hyper && !m.meta;
        match key.code {
            KeyCode::Up => {
                if alt_shift {
                    Some(PopupInput::ParentDirectory)
                } else {
                    None
                }
            },
            KeyCode::Char(c) => {
                if m.is_only_shift() {
                    Some(PopupInput::Insert(c))
                } else {
                    None
                }
            },
            _ => None,
        }
    }
}

/// What a key does in the editor under the default key bindings.
#[derive(Debug, Clone, Copy, PartialEq, Eq, Structural)]
pub enum EditorAction {
    /// Ctrl+Space: accept the completion, or ask for one.
    Complete,
    /// F3: the next search match.
    SearchNext,
    /// Shift+F3: the previous search match.
    SearchPrev,
    /// Escape: close the completion, drop extra cursors and the selection.
    Cancel,
    /// Move left.
    MoveLeft,
    /// Move right.
    MoveRight,
    /// Move up a visible line.
    MoveUp,
    /// Move down a visible line.
    MoveDown,
    /// Extend the selection left.
    SelectLeft,
    /// Extend the selection right.
    SelectRight,
    /// Extend the selection up.
    SelectUp,
    /// Extend the selection down.
    SelectDown,
    /// To the line's start.
    LineStart,
    /// To the line's end.
    LineEnd,
    /// A page up.
    PageUp,
    /// A page down.
    PageDown,
    /// A word left.
    WordLeft,
    /// A word right.
    WordRight,
    /// To the buffer's start.
    BufferStart,
    /// To the buffer's end.
    BufferEnd,
    /// Select everything.
    SelectAll,
    /// Undo.
    Undo,
    /// Redo.
    Redo,
    /// Save.
    Save,
    /// Delete before the cursor.
    Backspace,
    /// Delete at the cursor.
    Delete,
    /// A new line, indented.
    Newline,
    /// Indent (the selection, or by one unit).
    Indent,
    /// Outdent the selection.
    Outdent,
    /// Type a character.
    Type(char),
}

/// What a key does in the editor under the default key bindings.
pub open spec fn editor_action(key: KeyEvent) -> Option<EditorAction> {
    let m = key.modifiers;
    if no_mods(m) {
        match key.code {
            KeyCode::F(n) => if n == 3 {
                Some(EditorAction::SearchNext)
            } else {
                None
            },
            KeyCode::Esc => Some(EditorAction::Cancel),
            KeyCode::Left => Some(EditorAction::MoveLeft),
            KeyCode::Right => Some(EditorAction::MoveRight),
            KeyCode::Up => Some(EditorAction::MoveUp),
            KeyCode::Down => Some(EditorAction::MoveDown),
            KeyCode::Home => Some(EditorAction::LineStart),
            KeyCode::End => Some(EditorAction::LineEnd),
            KeyCode::PageUp => Some(EditorAction::PageUp),
            KeyCode::PageDown => Some(EditorAction::PageDown),
            KeyCode::Backspace => Some(EditorAction::Backspace),
            KeyCode::Delete => Some(EditorAction::Delete),
            KeyCode::Enter => Some(EditorAction::Newline),
            KeyCode::Tab => Some(EditorAction::Indent),
            KeyCode::BackTab => Some(EditorAction::Outdent),
            KeyCode::Char(c) => Some(EditorAction::Type(c)),
            _ => None,
        }
    } else if only_shift(m) {
        match key.code {
            KeyCode::F(n) => if n == 3 {
                Some(EditorAction::SearchPrev)
            } else {
                None
            },
            KeyCode::Left => Some(EditorAction::SelectLeft),
            KeyCode::Right => Some(EditorAction::SelectRight),
            KeyCode::Up => Some(EditorAction::SelectUp),
            KeyCode::Down => Some(EditorAction::SelectDown),
            KeyCode::BackTab => Some(EditorAction::Outdent),
            KeyCode::Char(c) => Some(EditorAction::Type(c)),
            _ => None,
        }
    } else if only_control(m) {
        match key.code {
            KeyCode::Char(c) => if c == ' ' {
                Some(EditorAction::Complete)
            } else if c == 'a' {
                Some(EditorAction::SelectAll)
            } else if c == 'z' {
                Some(EditorAction::Undo)
            } else if c == 'y' {
                Some(EditorAction::Redo)
            } else if c == 's' {
                Some(EditorAction::Save)
            } else {
                None
            },
            KeyCode::Left => Some(EditorAction::WordLeft),
            KeyCode::Right => Some(EditorAction::WordRight),
            KeyCode::Home => Some(EditorAction::BufferStart),
            KeyCode::End => Some(EditorAction::BufferEnd),
            _ => None,
        }
    } else {
        None
    }
}

/// The direction an action moves the cursor by one step (a character or
/// a visible line), if it is such a move.
pub open spec fn cursor_step(a: EditorAction) -> Option<Direction> {
    match a {
        EditorAction::MoveLeft => Some(Direction::Left),
        EditorAction::MoveRight => Some(Direction::Right),
        EditorAction::MoveUp => Some(Direction::Up),
        EditorAction::MoveDown => Some(Direction::Down),
        _ => None,
    }
}

/// The direction an action grows the selection in, if it does.
pub open spec fn selection_step(a: EditorAction) -> Option<Direction> {
    match a {
        EditorAction::SelectLeft => Some(Direction::Left),
        EditorAction::SelectRight => Some(Direction::Right),
        EditorAction::SelectUp => Some(Direction::Up),
        EditorAction::SelectDown => Some(Direction::Down),
        _ => None,
    }
}

/// The direction an action moves the cursor by a word, if it does.
pub open spec fn word_step(a: EditorAction) -> Option<Direction> {
    match a {
        EditorAction::WordLeft => Some(Direction::Left),
        EditorAction::WordRight => Some(Direction::Right),
        _ => None,
    }
}

/// Which side of the cursor an action deletes a character on: `true` for
/// the one before it, `false` for the one at it.
pub open spec fn deletes_before(a: EditorAction) -> Option<bool> {
    match a {
        EditorAction::Backspace => Some(true),
        EditorAction::Delete => Some(false),
        _ => None,
    }
}

/// `r` is the action `key` gives and it has property `p` equal to `v`.
pub open spec fn gives<T>(r: Option<EditorAction>, p: spec_fn(EditorAction) -> Option<T>, v: T) -> bool {
    r matches Some(a) && p(a) == Some(v)
}

/// Law: in the editor, the arrows move the cursor one step in the
/// direction they point, with Shift they grow the selection that way, and
/// with Ctrl (left and right) they move a word that way; no other key
/// moves the cursor or the selection like this.
pub proof fn law_editor_arrows_follow_their_direction(key: KeyEvent, r: Option<EditorAction>, d: Direction)
    requires
        r == editor_action(key),
    ensures
        gives(r, |a: EditorAction| cursor_step(a), d) <==> (no_mods(key.modifiers) && arrow_direction(key.code) == Some(d)),
        gives(r, |a: EditorAction| selection_step(a), d) <==> (only_shift(key.modifiers) && arrow_direction(key.code) == Some(d)),
        gives(r, |a: EditorAction| word_step(a), d) <==> (only_control(key.modifiers) && arrow_direction(key.code) == Some(d) && (d == Direction::Left || d == Direction::Right)),
{
}

/// Law: with no modifier, Backspace deletes the character before the
/// cursor and Delete the one at it; no other key deletes a character.
pub proof fn law_editor_deletes_on_the_side_its_key_names(key: KeyEvent, r: Option<EditorAction>)
    requires
        r == editor_action(key),
    ensures
        gives(r, |a: EditorAction| deletes_before(a), true) <==> (no_mods(key.modifiers) && key.code == KeyCode::Backspace),
        gives(r, |a: EditorAction| deletes_before(a), false) <==> (no_mods(key.modifiers) && key.code == KeyCode::Delete),
{
}

/// Law: a character is typed exactly when it is pressed with no modifier
/// or with Shift alone, and it is that character that is typed; Ctrl+Z
/// undoes and Ctrl+Y redoes, and nothing else does either.
pub proof fn law_editor_types_and_undoes_by_its_keys(key: KeyEvent, r: Option<EditorAction>, c: char)
    requires
        r == editor_action(key),
    ensures
        r == Some(EditorAction::Type(c)) <==> ((no_mods(key.modifiers) || only_shift(key.modifiers)) && key.code == KeyCode::Char(c)),
        r == Some(EditorAction::Undo) <==> (only_control(key.modifiers) && key.code == KeyCode::Char('z')),
        r == Some(EditorAction::Redo) <==> (only_control(key.modifiers) && key.code == KeyCode::Char('y')),
{
}

/// Law: the keys that jump go where they are named: Home and End to the
/// line's start and end, with Ctrl to the buffer's start and end; the page
/// keys a page up and down; Tab indents and BackTab (also with Shift)
/// outdents; and no other key does any of these.
pub proof fn law_editor_jumps_by_their_keys(key: KeyEvent, r: Option<EditorAction>)
    requires
        r == editor_action(key),
    ensures
        r == Some(EditorAction::LineStart) <==> (no_mods(key.modifiers) && key.code == KeyCode::Home),
        r == Some(EditorAction::LineEnd) <==> (no_mods(key.modifiers) && key.code == KeyCode::End),
        r == Some(EditorAction::BufferStart) <==> (only_control(key.modifiers) && key.code == KeyCode::Home),
        r == Some(EditorAction::BufferEnd) <==> (only_control(key.modifiers) && key.code == KeyCode::End),
        r == Some(EditorAction::PageUp) <==> (no_mods(key.modifiers) && key.code == KeyCode::PageUp),
        r == Some(EditorAction::PageDown) <==> (no_mods(key.modifiers) && key.code == KeyCode::PageDown),
        r == Some(EditorAction::Indent) <==> (no_mods(key.modifiers) && key.code == KeyCode::Tab),
        r == Some(EditorAction::Outdent) <==> ((no_mods(key.modifiers) || only_shift(key.modifiers)) && key.code == KeyCode::BackTab),
{
}

/// What a key does in the editor under the default key bindings.
pub fn editor_key_action(key: KeyEvent) -> (r: Option<EditorAction>)
    ensures
        r == editor_action(key),
{
    let m = key.modifiers;
    if m.is_empty() {
        match key.code {
            KeyCode::F(n) => {
                if n == 3 {
                    Some(EditorAction::SearchNext)
                } else {
                    None
                }
            },
            KeyCode::Esc => Some(EditorAction::Cancel),
            KeyCode::Left => Some(EditorAction::MoveLeft),
            KeyCode::Right => Some(EditorAction::MoveRight),
            KeyCode::Up => Some(EditorAction::MoveUp),
            KeyCode::Down => Some(EditorAction::MoveDown),
            KeyCode::Home => Some(EditorAction::LineStart),
            KeyCode::End => Some(EditorAction::LineEnd),
            KeyCode::PageUp => Some(EditorAction::PageUp),
            KeyCode::PageDown => Some(EditorAction::PageDown),
            KeyCode::Backspace => Some(EditorAction::Backspace),
            KeyCode::Delete => Some(EditorAction::Delete),
            KeyCode::Enter => Some(EditorAction::Newline),
            KeyCode::Tab => Some(EditorAction::Indent),
            KeyCode::BackTab => Some(EditorAction::Outdent),
            KeyCode::Char(c) => Some(EditorAction::Type(c)),
            _ => None,
        }
    } else if m.is_only_shift() {
        match key.code {
            KeyCode::F(n) => {
                if n == 3 {
                    Some(EditorAction::SearchPrev)
                } else {
                    None
                }
            },
            KeyCode::Left => Some(EditorAction::SelectLeft),
            KeyCode::Right => Some(EditorAction::SelectRight),
            KeyCode::Up => Some(EditorAction::SelectUp),
            KeyCode::Down => Some(EditorAction::SelectDown),
            KeyCode::BackTab => Some(EditorAction::Outdent),
            KeyCode::Char(c) => Some(EditorAction::Type(c)),
            _ => None,
        }
    } else if m.is_only_control() {
        match key.code {
            KeyCode::Char(c) => {
                if c == ' ' {
                    Some(EditorAction::Complete)
                } else if c == 'a' {
                    Some(EditorAction::SelectAll)
                } else if c == 'z' {
                    Some(EditorAction::Undo)
                } else if c == 'y' {
                    Some(EditorAction::Redo)
                } else if c == 's' {
                    Some(EditorAction::Save)
                } else {
                    None
                }
            },
            KeyCode::Left => Some(EditorAction::WordLeft),
            KeyCode::Right => Some(EditorAction::WordRight),
            KeyCode::Home => Some(EditorAction::BufferStart),
            KeyCode::End => Some(EditorAction::BufferEnd),
            _ => None,
        }
    } else {
        None
    }
}

/// What an editor key that works in every key-binding mode does.
#[derive(Debug, Clone, Copy, PartialEq, Eq, Structural)]
pub enum EditorGlobalAction {
    /// Ctrl+T: a new untitled tab.
    NewTab,
    /// Ctrl+W: close the tab.
    CloseTab,
    /// Show a popup: Ctrl+F search in the file, Ctrl+Shift+F search in
    /// files, Ctrl+Shift+D find a directory, Ctrl+Shift+E find a file,
    /// Ctrl+N a new file, Ctrl+Shift+N a new folder.
    Popup(PopupKind),
}

/// What a key does in the editor whatever its key bindings.
pub open spec fn editor_global_action(key: KeyEvent) -> Option<EditorGlobalAction> {
    let m = key.modifiers;
    match key.code {
        KeyCode::Char(c) => if only_control(m) && c == 't' {
            Some(EditorGlobalAction::NewTab)
        } else if only_control(m) && c == 'w' {
            Some(EditorGlobalAction::CloseTab)
        } else if only_control(m) && c == 'f' {
            Some(EditorGlobalAction::Popup(PopupKind::SearchInFile))
        } else if only_control_shift(m) && (c == 'f' || c == 'F') {
            Some(EditorGlobalAction::Popup(PopupKind::SearchInFiles))
        } else if only_control_shift(m) && (c == 'd' || c == 'D') {
            Some(EditorGlobalAction::Popup(PopupKind::SearchDirectories))
        } else if only_control_shift(m) && (c == 'e' || c == 'E') {
            Some(EditorGlobalAction::Popup(PopupKind::SearchFiles))
        } else if only_control(m) && c == 'n' {
            Some(EditorGlobalAction::Popup(PopupKind::CreateFile))
        } else if only_control_shift(m) && (c == 'n' || c == 'N') {
            Some(EditorGlobalAction::Popup(PopupKind::CreateFolder))
        } else {
            None
        },
        _ => None,
    }
}

/// What a key does in the editor whatever its key bindings.
pub fn editor_global_key_action(key: KeyEvent) -> (r: Option<EditorGlobalAction>)
    ensures
        r == editor_global_action(key),
{
    let m = key.modifiers;
    let ctrl = m.is_only_control();
    let ctrl_shift = m.shift && m.control && !m.alt && !m.super_key && !m.hyper && !m.meta;
    match key.code {
        KeyCode::Char(c) => {
            if ctrl && c == 't' {
                Some(EditorGlobalAction::NewTab)
            } else if ctrl && c == 'w' {
                Some(EditorGlobalAction::CloseTab)
            } else if ctrl && c == 'f' {
                Some(EditorGlobalAction::Popup(PopupKind::SearchInFile))
            } else if ctrl_shift && (c == 'f' || c == 'F') {
                Some(EditorGlobalAction::Popup(PopupKind::SearchInFiles))
            } else if ctrl_shift && (c == 'd' || c == 'D') {
                Some(EditorGlobalAction::Popup(PopupKind::SearchDirectories))
            } else if ctrl_shift && (c == 'e' || c == 'E') {
                Some(EditorGlobalAction::Popup(PopupKind::SearchFiles))
            } else if ctrl && c == 'n' {
                Some(EditorGlobalAction::Popup(PopupKind::CreateFile))
            } else if ctrl_shift && (c == 'n' || c == 'N') {
                Some(EditorGlobalAction::Popup(PopupKind::CreateFolder))
            } else {
                None
            }
        },
        _ => None,
    }
}

impl App {
    /// Handles the editor keys that work in every key-binding mode; says
    /// whether the key was one of them.
    pub fn handle_editor_global_key(&mut self, key: KeyEvent) -> (r: bool)
        requires
            old(self).wf(),
            old(self).open_files@.len() < usize::MAX,
        ensures
            final(self).wf(),
            r == editor_global_action(key) is Some,
            editor_global_action(key) is None ==> *final(self) == *old(self),
            editor_global_action(key) matches Some(EditorGlobalAction::Popup(k)) ==> *final(self)
                == (App { popup: Some(k), ..*old(self) }),
            editor_global_action(key) == Some(EditorGlobalAction::NewTab) ==> (final(
                self).open_files@.drop_last() == old(self).open_files@ && final(self).open_files@.len()
                == old(self).open_files@.len() + 1 && final(self).current_file_idx == old(
                self).open_files@.len()),
            editor_global_action(key) == Some(EditorGlobalAction::CloseTab) ==> ((old(
                self).open_files@.len() > 0 && !old(self).editor.modified) ==> final(
                self).open_files@ == old(self).open_files@.remove(old(self).current_file_idx as int)),
            same_lsp(*old(self), *final(self)),
            same_debug(*old(self), *final(self)),
    {
        match editor_global_key_action(key) {
            None => false,
            Some(EditorGlobalAction::NewTab) => {
                self.new_editor_tab();
                true
            },
            Some(EditorGlobalAction::CloseTab) => {
                self.close_editor_tab();
                true
            },
            Some(EditorGlobalAction::Popup(k)) => {
                self.show_popup(k);
                true
            },
        }
    }
}

/// Where a key went in the normal mode.
#[derive(Debug, Clone, Copy, PartialEq, Eq, Structural)]
pub enum NormalKeyOutcome {
    /// A global key.
    Global(GlobalKeyOutcome),
    /// An editor key of every key-binding mode.
    EditorGlobal,
    /// To the focused pane's own handler.
    Pane(FocusedPane),
}

impl App {
    /// Handles a key in the normal mode: the global keys first, then (with
    /// the editor focused) the editor keys of every key-binding mode;
    /// anything else is for the focused pane.
    pub fn handle_normal_key(&mut self, key: KeyEvent, windows_11: bool) -> (r: NormalKeyOutcome)
        requires
            old(self).wf(),
            old(self).open_files@.len() < usize::MAX,
        ensures
            final(self).wf(),
            global_action(key, windows_11, old(self).config.ssh_number_setting) is Some ==> (r matches NormalKeyOutcome::Global(g) && g != GlobalKeyOutcome::NotGlobal),
            global_action(key, windows_11, old(self).config.ssh_number_setting) is None ==> (
            (old(self).layout.focused == FocusedPane::Editor && editor_global_action(key) is Some)
                ==> r == NormalKeyOutcome::EditorGlobal),
            global_action(key, windows_11, old(self).config.ssh_number_setting) is None ==> (!(
            old(self).layout.focused == FocusedPane::Editor && editor_global_action(key) is Some)
                ==> (r == NormalKeyOutcome::Pane(old(self).layout.focused) && *final(self) == *old(
                self))),
            same_lsp(*old(self), *final(self)),
            same_debug(*old(self), *final(self)),
    {
        let g = self.handle_global_key(key, windows_11);
        match g {
            GlobalKeyOutcome::NotGlobal => {},
            _ => {
                return NormalKeyOutcome::Global(g);
            },
        }
        if self.layout.focused == FocusedPane::Editor && self.handle_editor_global_key(key) {
            return NormalKeyOutcome::EditorGlobal;
        }
        NormalKeyOutcome::Pane(self.layout.focused)
    }
}

/// An answer to "save before closing?".
#[derive(Debug, Clone, Copy, PartialEq, Eq, Structural)]
pub enum ConfirmAnswer {
    /// `y`: save, then quit.
    SaveAndQuit,
    /// `n`: quit without saving.
    Quit,
    /// `c` or Escape: stay.
    Cancel,
}

/// The answer a key gives: `y`, `n` and `c` (upper case with Shift too),
/// and Escape.
pub open spec fn confirm_answer(key: KeyEvent) -> Option<ConfirmAnswer> {
    let m = key.modifiers;
    match key.code {
        KeyCode::Char(c) => if (no_mods(m) && c == 'y') || (only_shift(m) && c == 'Y') {
            Some(ConfirmAnswer::SaveAndQuit)
        } else if (no_mods(m) && c == 'n') || (only_shift(m) && c == 'N') {
            Some(ConfirmAnswer::Quit)
        } else if (no_mods(m) && c == 'c') || (only_shift(m) && c == 'C') {
            Some(ConfirmAnswer::Cancel)
        } else {
            None
        },
        KeyCode::Esc => if no_mods(m) {
            Some(ConfirmAnswer::Cancel)
        } else {
            None
        },
        _ => None,
    }
}

/// The answer a key gives to "save before closing?".
pub fn confirm_key_answer(key: KeyEvent) -> (r: Option<ConfirmAnswer>)
    ensures
        r == confirm_answer(key),
{
    let m = key.modifiers;
    let plain = m.is_empty();
    let shift = m.is_only_shift();
    match key.code {
        KeyCode::Char(c) => {
            if (plain && c == 'y') || (shift && c == 'Y') {
                Some(ConfirmAnswer::SaveAndQuit)
            } else if (plain && c == 'n') || (shift && c == 'N') {
                Some(ConfirmAnswer::Quit)
            } else if (plain && c == 'c') || (shift && c == 'C') {
                Some(ConfirmAnswer::Cancel)
            } else {
                None
            }
        },
        KeyCode::Esc => {
            if plain {
                Some(ConfirmAnswer::Cancel)
            } else {
                None
            }
        },
        _ => None,
    }
}

impl App {
    /// Handles a key on the "save before closing?" popup: any answer closes
    /// the popup; `n` quits without saving; `y` is returned, for the caller
    /// to save and then quit.
    pub fn handle_confirmation_key(&mut self, key: KeyEvent) -> (r: Option<ConfirmAnswer>)
        ensures
            r == confirm_answer(key),
            r is None ==> *final(self) == *old(self),
            r == Some(ConfirmAnswer::Quit) ==> *final(self) == (App {
                popup: None,
                running: false,
                ..*old(self)
            }),
            (r == Some(ConfirmAnswer::SaveAndQuit) || r == Some(ConfirmAnswer::Cancel)) ==> *final(
                self) == (App { popup: None, ..*old(self) }),
    {
        let a = confirm_key_answer(key);
        match a {
            None => {},
            Some(ConfirmAnswer::Quit) => {
                self.popup = None;
                self.running = false;
            },
            Some(_) => {
                self.popup = None;
            },
        }
        a
    }
}

} // verus!
