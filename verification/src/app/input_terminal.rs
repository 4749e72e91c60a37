//! Keys on the terminal pane, and the commands that the shell prompt
//! intercepts. The terminal emulator and its tabs are the caller's; this
//! decides what a key asks of them, down to the bytes sent to the shell.

use crate::app::keymap::{key_bytes, key_to_bytes};
use crate::app::keys::{
    arrow_direction, no_mods, only_control, only_shift, Direction, KeyCode, KeyEvent, KeyModifiers,
};
use crate::text::{has_prefix, starts_with, str_eq, trim, trim_str};
use vstd::prelude::*;

verus! {

/// Exactly Control and Shift are held.
pub open spec fn control_shift(m: KeyModifiers) -> bool {
    m.shift && m.control && !m.alt && !m.super_key && !m.hyper && !m.meta
}

/// A direction to grow the terminal's selection in.
#[derive(Debug, Clone, Copy, PartialEq, Eq, Structural)]
pub enum SelectDirection {
    /// One column left.
    Left,
    /// One column right.
    Right,
    /// One row up.
    Up,
    /// One row down.
    Down,
}

/// What a key asks of the terminal pane.
#[derive(Debug, Clone, PartialEq, Eq)]
pub enum TerminalKeyAction {
    /// Open a terminal tab.
    AddTab,
    /// Close the terminal tab.
    CloseTab,
    /// The previous tab.
    PrevTab,
    /// The next tab.
    NextTab,
    /// Split the terminal side by side.
    SplitHorizontal,
    /// Split the terminal one above the other.
    SplitVertical,
    /// Close the split.
    CloseSplit,
    /// Move the focus to the split's other side.
    ToggleSplitFocus,
    /// Copy the selection (or the cursor's line).
    CopySelection,
    /// Paste the clipboard.
    Paste,
    /// Grow the selection.
    Select(SelectDirection),
    /// Send an interrupt (Ctrl+C).
    Interrupt,
    /// Scroll the view up ten lines.
    ScrollUp,
    /// Scroll the view down ten lines.
    ScrollDown,
    /// Type a character through the prompt, which may intercept a command.
    Input(char),
    /// Delete the character before the cursor through the prompt.
    Erase,
    /// Send these bytes to the shell, scrolled to the cursor.
    Send(Vec<u8>),
}

/// The pane's own shortcuts, looked at before the key reaches the shell.
pub open spec fn terminal_shortcut(key: KeyEvent) -> Option<TerminalKeyAction> {
    let m = key.modifiers;
    let k = key.code;
    if only_control(m) && k == KeyCode::Char('t') {
        Some(TerminalKeyAction::AddTab)
    } else if only_control(m) && k == KeyCode::Char('w') {
        Some(TerminalKeyAction::CloseTab)
    } else if only_control(m) && k == KeyCode::Left {
        Some(TerminalKeyAction::PrevTab)
    } else if only_control(m) && k == KeyCode::Right {
        Some(TerminalKeyAction::NextTab)
    } else if only_control(m) && k == KeyCode::Char('s') {
        Some(TerminalKeyAction::SplitHorizontal)
    } else if control_shift(m) && (k == KeyCode::Char('s') || k == KeyCode::Char('S')) {
        Some(TerminalKeyAction::SplitVertical)
    } else if control_shift(m) && (k == KeyCode::Char('w') || k == KeyCode::Char('W')) {
        Some(TerminalKeyAction::CloseSplit)
    } else if only_control(m) && k == KeyCode::Tab {
        Some(TerminalKeyAction::ToggleSplitFocus)
    } else if control_shift(m) && (k == KeyCode::Char('c') || k == KeyCode::Char('C')) {
        Some(TerminalKeyAction::CopySelection)
    } else if only_control(m) && k == KeyCode::Char('v') {
        Some(TerminalKeyAction::Paste)
    } else if only_shift(m) && k == KeyCode::Left {
        Some(TerminalKeyAction::Select(SelectDirection::Left))
    } else if only_shift(m) && k == KeyCode::Right {
        Some(TerminalKeyAction::Select(SelectDirection::Right))
    } else if only_shift(m) && k == KeyCode::Up {
        Some(TerminalKeyAction::Select(SelectDirection::Up))
    } else if only_shift(m) && k == KeyCode::Down {
        Some(TerminalKeyAction::Select(SelectDirection::Down))
    } else {
        None
    }
}

/// What reaches the shell through the prompt: Ctrl+C interrupts,
/// Shift+PageUp/PageDown scroll, characters (plain or with Shift) and
/// Enter go through the prompt, and Backspace erases. Any other key is
/// sent as its bytes, when it has any.
pub open spec fn terminal_input(key: KeyEvent) -> Option<TerminalKeyAction> {
    let m = key.modifiers;
    let k = key.code;
    if only_control(m) && k == KeyCode::Char('c') {
        Some(TerminalKeyAction::Interrupt)
    } else if only_shift(m) && k == KeyCode::PageUp {
        Some(TerminalKeyAction::ScrollUp)
    } else if only_shift(m) && k == KeyCode::PageDown {
        Some(TerminalKeyAction::ScrollDown)
    } else if no_mods(m) && k == KeyCode::Enter {
        Some(TerminalKeyAction::Input('\r'))
    } else if no_mods(m) && k == KeyCode::Backspace {
        Some(TerminalKeyAction::Erase)
    } else {
        match k {
            KeyCode::Char(c) => if no_mods(m) || only_shift(m) {
                Some(TerminalKeyAction::Input(c))
            } else {
                None
            },
            _ => None,
        }
    }
}

/// What a key asks of the terminal pane: its shortcuts first, then what
/// goes through the prompt, then the key's bytes (nothing when it has
/// none).
pub open spec fn terminal_action_matches(key: KeyEvent, r: Option<TerminalKeyAction>) -> bool {
    match terminal_shortcut(key) {
        Some(a) => r == Some(a),
        None => match terminal_input(key) {
            Some(a) => r == Some(a),
            None => if key_bytes(key).len() > 0 {
                r matches Some(TerminalKeyAction::Send(b)) && b@ == key_bytes(key)
            } else {
                r is None
            },
        },
    }
}

/// The screen direction a selection direction grows towards.
pub open spec fn select_direction(d: SelectDirection) -> Direction {
    match d {
        SelectDirection::Left => Direction::Left,
        SelectDirection::Right => Direction::Right,
        SelectDirection::Up => Direction::Up,
        SelectDirection::Down => Direction::Down,
    }
}

/// Law: on the terminal pane Ctrl+Right goes to the next tab and Ctrl+Left
/// to the previous one, and no other key switches tabs; Shift with an
/// arrow grows the selection in the arrow's direction; Shift+PageUp
/// scrolls up and Shift+PageDown down, and nothing else scrolls.
pub proof fn law_terminal_keys_follow_their_direction(key: KeyEvent, r: Option<TerminalKeyAction>)
    requires
        terminal_action_matches(key, r),
    ensures
        r == Some(TerminalKeyAction::NextTab) <==> (only_control(key.modifiers) && key.code
            == KeyCode::Right),
        r == Some(TerminalKeyAction::PrevTab) <==> (only_control(key.modifiers) && key.code
            == KeyCode::Left),
        forall|d: SelectDirection|
            r == Some(TerminalKeyAction::Select(d)) <==> (only_shift(key.modifiers)
                && arrow_direction(key.code) == Some(#[trigger] select_direction(d))),
        r == Some(TerminalKeyAction::ScrollUp) <==> (only_shift(key.modifiers) && key.code
            == KeyCode::PageUp),
        r == Some(TerminalKeyAction::ScrollDown) <==> (only_shift(key.modifiers) && key.code
            == KeyCode::PageDown),
{
}

/// Law: Ctrl+C on the terminal pane interrupts the shell's program and
/// Ctrl+Shift+C copies; neither key does the other's work.
pub proof fn law_terminal_interrupt_and_copy_are_apart(key: KeyEvent, r: Option<TerminalKeyAction>)
    requires
        terminal_action_matches(key, r),
    ensures
        r == Some(TerminalKeyAction::Interrupt) <==> (only_control(key.modifiers) && key.code
            == KeyCode::Char('c')),
        r == Some(TerminalKeyAction::CopySelection) <==> (control_shift(key.modifiers) && (
        key.code == KeyCode::Char('c') || key.code == KeyCode::Char('C'))),
{
}

/// Law: the pane's tab and split shortcuts are each reached by exactly
/// their own key: Ctrl+T opens a tab and Ctrl+W closes it, Ctrl+S splits
/// side by side and Ctrl+Shift+S one above the other, Ctrl+Shift+W closes
/// the split, Ctrl+Tab moves between its sides, and Ctrl+V pastes.
pub proof fn law_terminal_shortcuts_by_their_keys(key: KeyEvent, r: Option<TerminalKeyAction>)
    requires
        terminal_action_matches(key, r),
    ensures
        r == Some(TerminalKeyAction::AddTab) <==> (only_control(key.modifiers) && key.code
            == KeyCode::Char('t')),
        r == Some(TerminalKeyAction::CloseTab) <==> (only_control(key.modifiers) && key.code
            == KeyCode::Char('w')),
        r == Some(TerminalKeyAction::SplitHorizontal) <==> (only_control(key.modifiers)
            && key.code == KeyCode::Char('s')),
        r == Some(TerminalKeyAction::SplitVertical) <==> (control_shift(key.modifiers) && (
        key.code == KeyCode::Char('s') || key.code == KeyCode::Char('S'))),
        r == Some(TerminalKeyAction::CloseSplit) <==> (control_shift(key.modifiers) && (key.code
            == KeyCode::Char('w') || key.code == KeyCode::Char('W'))),
        r == Some(TerminalKeyAction::ToggleSplitFocus) <==> (only_control(key.modifiers)
            && key.code == KeyCode::Tab),
        r == Some(TerminalKeyAction::Paste) <==> (only_control(key.modifiers) && key.code
            == KeyCode::Char('v')),
{
}

/// What a key asks of the terminal pane.
pub fn terminal_key_action(key: KeyEvent) -> (r: Option<TerminalKeyAction>)
    ensures
        terminal_action_matches(key, r),
{
    let m = key.modifiers;
    let ctrl = m.is_only_control();
    let shift = m.is_only_shift();
    let ctrl_shift = m.shift && m.control && !m.alt && !m.super_key && !m.hyper && !m.meta;
    let plain = m.is_empty();
    match key.code {
        KeyCode::Char(c) => {
            if ctrl && c == 't' {
                return Some(TerminalKeyAction::AddTab);
            } else if ctrl && c == 'w' {
                return Some(TerminalKeyAction::CloseTab);
            } else if ctrl && c == 's' {
                return Some(TerminalKeyAction::SplitHorizontal);
            } else if ctrl_shift && (c == 's' || c == 'S') {
                return Some(TerminalKeyAction::SplitVertical);
            } else if ctrl_shift && (c == 'w' || c == 'W') {
                return Some(TerminalKeyAction::CloseSplit);
            } else if ctrl_shift && (c == 'c' || c == 'C') {
                return Some(TerminalKeyAction::CopySelection);
            } else if ctrl && c == 'v' {
                return Some(TerminalKeyAction::Paste);
            } else if ctrl && c == 'c' {
                return Some(TerminalKeyAction::Interrupt);
            } else if plain || shift {
                return Some(TerminalKeyAction::Input(c));
            }
        },
        KeyCode::Left => {
            if ctrl {
                return Some(TerminalKeyAction::PrevTab);
            } else if shift {
                return Some(TerminalKeyAction::Select(SelectDirection::Left));
            }
        },
        KeyCode::Right => {
            if ctrl {
                return Some(TerminalKeyAction::NextTab);
            } else if shift {
                return Some(TerminalKeyAction::Select(SelectDirection::Right));
            }
        },
        KeyCode::Up => {
            if shift {
                return Some(TerminalKeyAction::Select(SelectDirection::Up));
            }
        },
        KeyCode::Down => {
            if shift {
                return Some(TerminalKeyAction::Select(SelectDirection::Down));
            }
        },
        KeyCode::Tab => {
            if ctrl {
                return Some(TerminalKeyAction::ToggleSplitFocus);
            }
        },
        KeyCode::PageUp => {
            if shift {
                return Some(TerminalKeyAction::ScrollUp);
            }
        },
        KeyCode::PageDown => {
            if shift {
                return Some(TerminalKeyAction::ScrollDown);
            }
        },
        KeyCode::Enter => {
            if plain {
                return Some(TerminalKeyAction::Input('\r'));
            }
        },
        KeyCode::Backspace => {
            if plain {
                return Some(TerminalKeyAction::Erase);
            }
        },
        _ => {},
    }
    let bytes = key_to_bytes(key);
    if bytes.len() > 0 {
        Some(TerminalKeyAction::Send(bytes))
    } else {
        None
    }
}

/// A command the shell prompt intercepted.
#[derive(Debug, Clone, PartialEq, Eq)]
pub enum TerminalCommand {
    /// `open`: show the file browser.
    Browse,
    /// `open NAME`: open the named file (the name trimmed).
    Open(String),
    /// `update`: look for a new version.
    Update,
    /// `debug ssh`: show the SSH state.
    DebugSsh,
    /// `debug tabs`: show the tabs.
    DebugTabs,
    /// `debug buffer:TEXT`: show the prompt's buffer.
    DebugBuffer(String),
}

/// The command an intercepted line asks for, tried in this order: `open`,
/// `open ` and a name, `update`, `debug ssh`, `debug tabs`, and
/// `debug buffer:` and a text; any other line asks for nothing.
pub open spec fn command_matches(cmd: Seq<char>, r: Option<TerminalCommand>) -> bool {
    if cmd == "open"@ {
        r == Some(TerminalCommand::Browse)
    } else if has_prefix(cmd, "open "@) {
        r matches Some(TerminalCommand::Open(n)) && n@ == trim(cmd.subrange(5, cmd.len() as int))
    } else if cmd == "update"@ {
        r == Some(TerminalCommand::Update)
    } else if cmd == "debug ssh"@ {
        r == Some(TerminalCommand::DebugSsh)
    } else if cmd == "debug tabs"@ {
        r == Some(TerminalCommand::DebugTabs)
    } else if has_prefix(cmd, "debug buffer:"@) {
        r matches Some(TerminalCommand::DebugBuffer(b)) && b@ == cmd.subrange(
            13,
            cmd.len() as int,
        )
    } else {
        r is None
    }
}

/// Reads an intercepted line as a command.
pub fn parse_terminal_command(cmd: &str) -> (r: Option<TerminalCommand>)
    ensures
        command_matches(cmd@, r),
{
    proof {
        reveal_strlit("open ");
        reveal_strlit("debug buffer:");
    }
    if str_eq(cmd, "open") {
        Some(TerminalCommand::Browse)
    } else if starts_with(cmd, "open ") {
        let rest = cmd.substring_char(5, cmd.unicode_len());
        Some(TerminalCommand::Open(trim_str(rest)))
    } else if str_eq(cmd, "update") {
        Some(TerminalCommand::Update)
    } else if str_eq(cmd, "debug ssh") {
        Some(TerminalCommand::DebugSsh)
    } else if str_eq(cmd, "debug tabs") {
        Some(TerminalCommand::DebugTabs)
    } else if starts_with(cmd, "debug buffer:") {
        let rest = cmd.substring_char(13, cmd.unicode_len());
        Some(TerminalCommand::DebugBuffer(rest.to_owned()))
    } else {
        None
    }
}

} // verus!
