//! Keys as the editor's key parsers read them: Vim keys, Emacs chords and
//! the find bar's keys.

use crate::text::ascii_lower;
use crate::app::keys::{KeyCode, KeyEvent};
use vstd::prelude::*;

verus! {

/// A key as the Vim parser reads it.
#[derive(Debug, Clone, Copy, PartialEq, Eq, Structural)]
pub enum VimKey {
    /// A character.
    Char(char),
    /// Control plus a (lower-case) character.
    Ctrl(char),
    /// Escape.
    Escape,
    /// Enter.
    Enter,
    /// Backspace.
    Backspace,
    /// Tab.
    Tab,
}

/// A cursor-movement key in Emacs mode.
#[derive(Debug, Clone, Copy, PartialEq, Eq, Structural)]
pub enum NavKey {
    /// Left.
    Left,
    /// Right.
    Right,
    /// Up.
    Up,
    /// Down.
    Down,
    /// Home.
    Home,
    /// End.
    End,
    /// Page up.
    PageUp,
    /// Page down.
    PageDown,
}

/// A chord as the Emacs parser reads it.
#[derive(Debug, Clone, Copy, PartialEq, Eq, Structural)]
pub enum EmacsKey {
    /// A plain character.
    Char(char),
    /// Control plus a (lower-case) character.
    Ctrl(char),
    /// Alt plus a character.
    Alt(char),
    /// Control and Alt plus a (lower-case) character.
    CtrlAlt(char),
    /// Alt+Backspace.
    AltBackspace,
    /// Backspace.
    Backspace,
    /// Delete.
    Delete,
    /// Enter.
    Enter,
    /// Tab.
    Tab,
    /// A movement key.
    Nav(NavKey),
}

/// A key as the find bar reads it.
#[derive(Debug, Clone, Copy, PartialEq, Eq, Structural)]
pub enum SearchKey {
    /// Close the bar.
    Escape,
    /// Next match.
    Enter,
    /// Previous match.
    ShiftEnter,
    /// Replace the current match.
    Replace,
    /// Replace every match.
    ReplaceAll,
    /// Switch between the find and replace fields.
    Tab,
    /// Delete a character.
    Backspace,
    /// Toggle case sensitivity.
    ToggleCase,
    /// Type a character.
    Char(char),
}

/// The Vim key for `key`: Control chords lower-cased, arrows as `hjkl`,
/// Home as `0` and End as `$`.
pub open spec fn vim_key_spec(key: KeyEvent) -> Option<VimKey> {
    let ctrl = key.modifiers.control;
    match key.code {
        KeyCode::Char(c) => if ctrl {
            Some(VimKey::Ctrl(ascii_lower(c)))
        } else {
            Some(VimKey::Char(c))
        },
        KeyCode::Esc => Some(VimKey::Escape),
        KeyCode::Enter => Some(VimKey::Enter),
        KeyCode::Backspace => Some(VimKey::Backspace),
        KeyCode::Tab => Some(VimKey::Tab),
        KeyCode::Left => Some(VimKey::Char('h')),
        KeyCode::Right => Some(VimKey::Char('l')),
        KeyCode::Up => Some(VimKey::Char('k')),
        KeyCode::Down => Some(VimKey::Char('j')),
        KeyCode::Home => Some(VimKey::Char('0')),
        KeyCode::End => Some(VimKey::Char('$')),
        _ => None,
    }
}

/// The Emacs chord for `key`.
pub open spec fn emacs_key_spec(key: KeyEvent) -> Option<EmacsKey> {
    let ctrl = key.modifiers.control;
    let alt = key.modifiers.alt;
    match key.code {
        KeyCode::Char(c) => if ctrl && alt {
            Some(EmacsKey::CtrlAlt(ascii_lower(c)))
        } else if ctrl {
            Some(EmacsKey::Ctrl(ascii_lower(c)))
        } else if alt {
            Some(EmacsKey::Alt(c))
        } else {
            Some(EmacsKey::Char(c))
        },
        KeyCode::Backspace => if alt {
            Some(EmacsKey::AltBackspace)
        } else {
            Some(EmacsKey::Backspace)
        },
        KeyCode::Delete => Some(EmacsKey::Delete),
        KeyCode::Enter => Some(EmacsKey::Enter),
        KeyCode::Tab => Some(EmacsKey::Tab),
        KeyCode::Left => Some(EmacsKey::Nav(NavKey::Left)),
        KeyCode::Right => Some(EmacsKey::Nav(NavKey::Right)),
        KeyCode::Up => Some(EmacsKey::Nav(NavKey::Up)),
        KeyCode::Down => Some(EmacsKey::Nav(NavKey::Down)),
        KeyCode::Home => Some(EmacsKey::Nav(NavKey::Home)),
        KeyCode::End => Some(EmacsKey::Nav(NavKey::End)),
        KeyCode::PageUp => Some(EmacsKey::Nav(NavKey::PageUp)),
        KeyCode::PageDown => Some(EmacsKey::Nav(NavKey::PageDown)),
        _ => None,
    }
}

/// The find-bar key for `key`.
pub open spec fn search_key_spec(key: KeyEvent) -> Option<SearchKey> {
    let ctrl = key.modifiers.control;
    let shift = key.modifiers.shift;
    let alt = key.modifiers.alt;
    match key.code {
        KeyCode::Esc => Some(SearchKey::Escape),
        KeyCode::Enter => if shift {
            Some(SearchKey::ShiftEnter)
        } else if alt {
            Some(SearchKey::ReplaceAll)
        } else if ctrl {
            Some(SearchKey::Replace)
        } else {
            Some(SearchKey::Enter)
        },
        KeyCode::Tab | KeyCode::BackTab => Some(SearchKey::Tab),
        KeyCode::Backspace => Some(SearchKey::Backspace),
        KeyCode::Up => Some(SearchKey::ShiftEnter),
        KeyCode::Down => Some(SearchKey::Enter),
        KeyCode::Char(c) => if c == 'c' && alt {
            Some(SearchKey::ToggleCase)
        } else if !ctrl {
            Some(SearchKey::Char(c))
        } else {
            None
        },
        _ => None,
    }
}

/// `char::to_ascii_lowercase`.
fn lower(c: char) -> (r: char)
    ensures
        r == ascii_lower(c),
{
    if 'A' <= c && c <= 'Z' {
        ((c as u8) + 32) as char
    } else {
        c
    }
}

/// Translates a key into a Vim key, if it is one the parser accepts.
pub fn vim_key(key: KeyEvent) -> (r: Option<VimKey>)
    ensures
        r == vim_key_spec(key),
{
    let ctrl = key.modifiers.control;
    match key.code {
        KeyCode::Char(c) => {
            if ctrl {
                Some(VimKey::Ctrl(lower(c)))
            } else {
                Some(VimKey::Char(c))
            }
        },
        KeyCode::Esc => Some(VimKey::Escape),
        KeyCode::Enter => Some(VimKey::Enter),
        KeyCode::Backspace => Some(VimKey::Backspace),
        KeyCode::Tab => Some(VimKey::Tab),
        KeyCode::Left => Some(VimKey::Char('h')),
        KeyCode::Right => Some(VimKey::Char('l')),
        KeyCode::Up => Some(VimKey::Char('k')),
        KeyCode::Down => Some(VimKey::Char('j')),
        KeyCode::Home => Some(VimKey::Char('0')),
        KeyCode::End => Some(VimKey::Char('$')),
        _ => None,
    }
}

/// Translates a key into an Emacs chord.
pub fn emacs_key(key: KeyEvent) -> (r: Option<EmacsKey>)
    ensures
        r == emacs_key_spec(key),
{
    let ctrl = key.modifiers.control;
    let alt = key.modifiers.alt;
    match key.code {
        KeyCode::Char(c) => {
            if ctrl && alt {
                Some(EmacsKey::CtrlAlt(lower(c)))
            } else if ctrl {
                Some(EmacsKey::Ctrl(lower(c)))
            } else if alt {
                Some(EmacsKey::Alt(c))
            } else {
                Some(EmacsKey::Char(c))
            }
        },
        KeyCode::Backspace => {
            if alt {
                Some(EmacsKey::AltBackspace)
            } else {
                Some(EmacsKey::Backspace)
            }
        },
        KeyCode::Delete => Some(EmacsKey::Delete),
        KeyCode::Enter => Some(EmacsKey::Enter),
        KeyCode::Tab => Some(EmacsKey::Tab),
        KeyCode::Left => Some(EmacsKey::Nav(NavKey::Left)),
        KeyCode::Right => Some(EmacsKey::Nav(NavKey::Right)),
        KeyCode::Up => Some(EmacsKey::Nav(NavKey::Up)),
        KeyCode::Down => Some(EmacsKey::Nav(NavKey::Down)),
        KeyCode::Home => Some(EmacsKey::Nav(NavKey::Home)),
        KeyCode::End => Some(EmacsKey::Nav(NavKey::End)),
        KeyCode::PageUp => Some(EmacsKey::Nav(NavKey::PageUp)),
        KeyCode::PageDown => Some(EmacsKey::Nav(NavKey::PageDown)),
        _ => None,
    }
}

/// Translates a key into a find-bar key.
pub fn search_key(key: KeyEvent) -> (r: Option<SearchKey>)
    ensures
        r == search_key_spec(key),
{
    let ctrl = key.modifiers.control;
    let shift = key.modifiers.shift;
    let alt = key.modifiers.alt;
    match key.code {
        KeyCode::Esc => Some(SearchKey::Escape),
        KeyCode::Enter => {
            if shift {
                Some(SearchKey::ShiftEnter)
            } else if alt {
                Some(SearchKey::ReplaceAll)
            } else if ctrl {
                Some(SearchKey::Replace)
            } else {
                Some(SearchKey::Enter)
            }
        },
        KeyCode::Tab | KeyCode::BackTab => Some(SearchKey::Tab),
        KeyCode::Backspace => Some(SearchKey::Backspace),
        KeyCode::Up => Some(SearchKey::ShiftEnter),
        KeyCode::Down => Some(SearchKey::Enter),
        KeyCode::Char(c) => {
            if c == 'c' && alt {
                Some(SearchKey::ToggleCase)
            } else if !ctrl {
                Some(SearchKey::Char(c))
            } else {
                None
            }
        },
        _ => None,
    }
}

} // verus!
