//! The navigation layer every dashboard screen runs first: list movement,
//! help, close and activate. A screen handles the key itself only when this
//! layer leaves it unhandled.

use crate::app::input_traits::{
    apply_list_move, full_list_move, full_list_navigation_move, ListSelectable,
};
use crate::app::keys::{no_mods, KeyCode, KeyEvent};
use vstd::prelude::*;

verus! {

/// What the navigation layer made of a key.
#[derive(Debug, Clone, Copy, PartialEq, Eq, Structural)]
pub enum NavResult {
    /// The list moved.
    Handled,
    /// Not a navigation key; the screen handles it.
    Unhandled,
    /// `?`: show the hotkey overlay.
    ShowHelp,
    /// Escape: close or go back.
    Close,
    /// Enter: activate the selected item.
    Activate,
}

/// The navigation layer's reading of `key`: a list move first, then `?`,
/// Escape and Enter with no modifier.
pub open spec fn nav_result(key: KeyEvent) -> NavResult {
    if full_list_move(key) is Some {
        NavResult::Handled
    } else if no_mods(key.modifiers) && key.code == KeyCode::Char('?') {
        NavResult::ShowHelp
    } else if no_mods(key.modifiers) && key.code == KeyCode::Esc {
        NavResult::Close
    } else if no_mods(key.modifiers) && key.code == KeyCode::Enter {
        NavResult::Activate
    } else {
        NavResult::Unhandled
    }
}

/// Applies the navigation layer: moves the list for a navigation key and
/// says what else the key asks for.
pub fn apply_dashboard_navigation<T: ListSelectable>(selectable: &mut T, key: &KeyEvent) -> (r:
    NavResult)
    ensures
        r == nav_result(*key),
        full_list_move(*key) matches Some(m) ==> old(selectable).moved_by(m, *final(selectable)),
        full_list_move(*key) is None ==> *final(selectable) == *old(selectable),
{
    match full_list_navigation_move(key) {
        Some(m) => {
            apply_list_move(selectable, m);
            return NavResult::Handled;
        },
        None => {},
    }
    if !key.modifiers.is_empty() {
        return NavResult::Unhandled;
    }
    match key.code {
        KeyCode::Char(c) => {
            if c == '?' {
                NavResult::ShowHelp
            } else {
                NavResult::Unhandled
            }
        },
        KeyCode::Esc => NavResult::Close,
        KeyCode::Enter => NavResult::Activate,
        _ => NavResult::Unhandled,
    }
}

} // verus!
