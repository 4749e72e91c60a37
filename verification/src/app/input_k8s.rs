//! What a key means on the Kubernetes screens. The mapping is a function
//! of the key, the screen and whether a filter is being typed, so every
//! combination can be checked without a cluster.

use crate::app::keys::{KeyCode, KeyEvent};
use vstd::prelude::*;

verus! {

/// The two Kubernetes screens.
#[derive(Debug, Clone, Copy, PartialEq, Eq, Structural)]
pub enum K8sView {
    /// Choosing a context.
    Contexts,
    /// Browsing a context's resources.
    Resources,
}

/// What a key press should cause.
#[derive(Debug, Clone, Copy, PartialEq, Eq, Structural)]
pub enum K8sAction {
    /// Move the selection up.
    Up,
    /// Move the selection down.
    Down,
    /// Move to the first row.
    First,
    /// Move to the last row.
    Last,
    /// Connect to the selected context, or open the selected resource.
    Confirm,
    /// Go back a screen.
    Back,
    /// Close the manager.
    Close,
    /// Show the next resource kind.
    NextKind,
    /// Show the previous resource kind.
    PreviousKind,
    /// Reload the current listing.
    Refresh,
    /// Start typing a filter.
    StartFilter,
    /// Add a character to the filter.
    FilterChar(char),
    /// Remove the last filter character.
    FilterBackspace,
    /// Stop filtering, keeping what was typed.
    FilterDone,
    /// Clear the filter.
    FilterClear,
    /// Scale the selected deployment up.
    ScaleUp,
    /// Scale the selected deployment down.
    ScaleDown,
    /// Restart the selected deployment.
    Restart,
    /// Delete the selected pod.
    DeletePod,
    /// The key means nothing here.
    Ignored,
}

/// The meaning of `key`. While a filter is typed, printable keys (without
/// Control) are text, so a filter can hold the letters that are otherwise
/// commands; Escape clears it and Enter finishes it. Otherwise the
/// movement keys, Enter and Escape work on both screens, and the resource
/// commands only on the resource screen.
pub open spec fn k8s_action(key: KeyEvent, view: K8sView, filtering: bool) -> K8sAction {
    if filtering {
        match key.code {
            KeyCode::Esc => K8sAction::FilterClear,
            KeyCode::Enter => K8sAction::FilterDone,
            KeyCode::Backspace => K8sAction::FilterBackspace,
            KeyCode::Up => K8sAction::Up,
            KeyCode::Down => K8sAction::Down,
            KeyCode::Char(c) => if !key.modifiers.control {
                K8sAction::FilterChar(c)
            } else {
                K8sAction::Ignored
            },
            _ => K8sAction::Ignored,
        }
    } else {
        match key.code {
            KeyCode::Up | KeyCode::Char('k') => K8sAction::Up,
            KeyCode::Down | KeyCode::Char('j') => K8sAction::Down,
            KeyCode::Home | KeyCode::Char('g') => K8sAction::First,
            KeyCode::End | KeyCode::Char('G') => K8sAction::Last,
            KeyCode::Enter => K8sAction::Confirm,
            KeyCode::Esc => K8sAction::Close,
            _ => if view == K8sView::Contexts {
                K8sAction::Ignored
            } else {
                match key.code {
                    KeyCode::Backspace => K8sAction::Back,
                    KeyCode::Tab => K8sAction::NextKind,
                    KeyCode::BackTab => K8sAction::PreviousKind,
                    KeyCode::Char('r') => K8sAction::Refresh,
                    KeyCode::Char('/') => K8sAction::StartFilter,
                    KeyCode::Char('+') => K8sAction::ScaleUp,
                    KeyCode::Char('-') => K8sAction::ScaleDown,
                    KeyCode::Char('R') => K8sAction::Restart,
                    KeyCode::Delete | KeyCode::Char('d') => K8sAction::DeletePod,
                    _ => K8sAction::Ignored,
                }
            },
        }
    }
}

/// The meaning of a key on the Kubernetes screens.
pub fn action_for(key: KeyEvent, view: K8sView, filtering: bool) -> (r: K8sAction)
    ensures
        r == k8s_action(key, view, filtering),
{
    if filtering {
        return match key.code {
            KeyCode::Esc => K8sAction::FilterClear,
            KeyCode::Enter => K8sAction::FilterDone,
            KeyCode::Backspace => K8sAction::FilterBackspace,
            KeyCode::Up => K8sAction::Up,
            KeyCode::Down => K8sAction::Down,
            KeyCode::Char(c) => {
                if !key.modifiers.control {
                    K8sAction::FilterChar(c)
                } else {
                    K8sAction::Ignored
                }
            },
            _ => K8sAction::Ignored,
        };
    }
    match key.code {
        KeyCode::Up => return K8sAction::Up,
        KeyCode::Down => return K8sAction::Down,
        KeyCode::Home => return K8sAction::First,
        KeyCode::End => return K8sAction::Last,
        KeyCode::Enter => return K8sAction::Confirm,
        KeyCode::Esc => return K8sAction::Close,
        KeyCode::Char(c) => {
            if c == 'k' {
                return K8sAction::Up;
            } else if c == 'j' {
                return K8sAction::Down;
            } else if c == 'g' {
                return K8sAction::First;
            } else if c == 'G' {
                return K8sAction::Last;
            }
        },
        _ => {},
    }
    if view == K8sView::Contexts {
        return K8sAction::Ignored;
    }
    match key.code {
        KeyCode::Backspace => K8sAction::Back,
        KeyCode::Tab => K8sAction::NextKind,
        KeyCode::BackTab => K8sAction::PreviousKind,
        KeyCode::Delete => K8sAction::DeletePod,
        KeyCode::Char(c) => {
            if c == 'r' {
                K8sAction::Refresh
            } else if c == '/' {
                K8sAction::StartFilter
            } else if c == '+' {
                K8sAction::ScaleUp
            } else if c == '-' {
                K8sAction::ScaleDown
            } else if c == 'R' {
                K8sAction::Restart
            } else if c == 'd' {
                K8sAction::DeletePod
            } else {
                K8sAction::Ignored
            }
        },
        _ => K8sAction::Ignored,
    }
}

} // verus!
