//! Keys on the Git dashboard: the hotkey overlay while it shows, the
//! commit message while one is typed, and otherwise the shared dashboard
//! navigation followed by the Git keys. The repository work itself is the
//! caller's; this decides which of it a key asks for.

use crate::app::dashboard_nav::{nav_result, NavResult};
use crate::app::input_traits::{full_list_move, full_list_navigation_move, ListMove};
use crate::app::keys::{no_mods, only_control, only_shift, KeyCode, KeyEvent};
use vstd::prelude::*;

verus! {

/// What the dashboard lists.
#[derive(Debug, Clone, Copy, PartialEq, Eq, Structural)]
pub enum GitView {
    /// Staged, unstaged and untracked files.
    Status,
    /// Branches.
    Branches,
    /// The commit log.
    Log,
    /// The selected file's diff.
    Diff,
}

/// What a key does while the hotkey overlay shows.
#[derive(Debug, Clone, Copy, PartialEq, Eq, Structural)]
pub enum OverlayAction {
    /// Hide the overlay.
    Close,
    /// Scroll it down.
    ScrollDown,
    /// Scroll it up.
    ScrollUp,
}

/// A key on a hotkey overlay: Escape (or `?`, also with Shift) hides it,
/// Down/`j` and Up/`k` scroll it; the other keys do nothing.
pub open spec fn overlay_action(key: KeyEvent) -> Option<OverlayAction> {
    let m = key.modifiers;
    if no_mods(m) && key.code == KeyCode::Esc {
        Some(OverlayAction::Close)
    } else if (no_mods(m) || only_shift(m)) && key.code == KeyCode::Char('?') {
        Some(OverlayAction::Close)
    } else if no_mods(m) && (key.code == KeyCode::Down || key.code == KeyCode::Char('j')) {
        Some(OverlayAction::ScrollDown)
    } else if no_mods(m) && (key.code == KeyCode::Up || key.code == KeyCode::Char('k')) {
        Some(OverlayAction::ScrollUp)
    } else {
        None
    }
}

/// A key on a hotkey overlay.
pub fn overlay_key_action(key: &KeyEvent) -> (r: Option<OverlayAction>)
    ensures
        r == overlay_action(*key),
{
    let plain = key.modifiers.is_empty();
    match key.code {
        KeyCode::Esc => {
            if plain {
                Some(OverlayAction::Close)
            } else {
                None
            }
        },
        KeyCode::Down => {
            if plain {
                Some(OverlayAction::ScrollDown)
            } else {
                None
            }
        },
        KeyCode::Up => {
            if plain {
                Some(OverlayAction::ScrollUp)
            } else {
                None
            }
        },
        KeyCode::Char(c) => {
            if c == '?' && (plain || key.modifiers.is_only_shift()) {
                Some(OverlayAction::Close)
            } else if c == 'j' && plain {
                Some(OverlayAction::ScrollDown)
            } else if c == 'k' && plain {
                Some(OverlayAction::ScrollUp)
            } else {
                None
            }
        },
        _ => None,
    }
}

/// What a key asks of the Git dashboard's lists.
#[derive(Debug, Clone, Copy, PartialEq, Eq, Structural)]
pub enum GitListAction {
    /// Move the selection.
    Navigate(ListMove),
    /// Show or hide the hotkey overlay.
    ToggleHelp,
    /// Close the dashboard.
    Close,
    /// Show the selected file's diff.
    OpenDiff,
    /// Stage the selected file.
    Stage,
    /// Unstage the selected file.
    Unstage,
    /// Start typing a commit message.
    StartCommit,
    /// Switch the view.
    SwitchView(GitView),
    /// Read the repository again.
    Refresh,
    /// Show or hide blame in the editor.
    ToggleBlame,
    /// Pop the latest stash.
    StashPop,
    /// Stash the changes.
    StashPush,
    /// The next status section.
    NextSection,
    /// The previous status section.
    PrevSection,
    /// Check out the selected branch.
    CheckoutBranch,
}

/// A key on the lists: the navigation layer first (Enter opens the diff),
/// then the Git keys; Enter with a modifier checks out the selected branch
/// in the branch view.
pub open spec fn git_list_action(key: KeyEvent, view: GitView) -> Option<GitListAction> {
    let m = key.modifiers;
    match nav_result(key) {
        NavResult::Handled => Some(GitListAction::Navigate(full_list_move(key).unwrap())),
        NavResult::ShowHelp => Some(GitListAction::ToggleHelp),
        NavResult::Close => Some(GitListAction::Close),
        NavResult::Activate => Some(GitListAction::OpenDiff),
        NavResult::Unhandled => if no_mods(m) {
            match key.code {
                KeyCode::Char('s') => Some(GitListAction::Stage),
                KeyCode::Char('u') => Some(GitListAction::Unstage),
                KeyCode::Char('c') => Some(GitListAction::StartCommit),
                KeyCode::Char('b') => Some(GitListAction::SwitchView(GitView::Branches)),
                KeyCode::Char('l') => Some(GitListAction::SwitchView(GitView::Log)),
                KeyCode::Char('d') => Some(GitListAction::SwitchView(GitView::Diff)),
                KeyCode::Backspace => Some(GitListAction::SwitchView(GitView::Status)),
                KeyCode::Char('r') => Some(GitListAction::Refresh),
                KeyCode::Char('p') => Some(GitListAction::StashPop),
                KeyCode::Tab => Some(GitListAction::NextSection),
                KeyCode::BackTab => Some(GitListAction::PrevSection),
                _ => None,
            }
        } else if only_control(m) && key.code == KeyCode::Char('b') {
            Some(GitListAction::ToggleBlame)
        } else if only_shift(m) && key.code == KeyCode::Char('P') {
            Some(GitListAction::StashPush)
        } else if only_shift(m) && (key.code == KeyCode::Tab || key.code == KeyCode::BackTab) {
            Some(GitListAction::PrevSection)
        } else if view == GitView::Branches && key.code == KeyCode::Enter {
            Some(GitListAction::CheckoutBranch)
        } else {
            None
        },
    }
}

/// A key on the lists, in `view`.
pub fn git_list_key_action(key: &KeyEvent, view: GitView) -> (r: Option<GitListAction>)
    ensures
        r == git_list_action(*key, view),
{
    match full_list_navigation_move(key) {
        Some(mv) => {
            return Some(GitListAction::Navigate(mv));
        },
        None => {},
    }
    let m = key.modifiers;
    if m.is_empty() {
        match key.code {
            KeyCode::Char(c) => {
                if c == '?' {
                    Some(GitListAction::ToggleHelp)
                } else if c == 's' {
                    Some(GitListAction::Stage)
                } else if c == 'u' {
                    Some(GitListAction::Unstage)
                } else if c == 'c' {
                    Some(GitListAction::StartCommit)
                } else if c == 'b' {
                    Some(GitListAction::SwitchView(GitView::Branches))
                } else if c == 'l' {
                    Some(GitListAction::SwitchView(GitView::Log))
                } else if c == 'd' {
                    Some(GitListAction::SwitchView(GitView::Diff))
                } else if c == 'r' {
                    Some(GitListAction::Refresh)
                } else if c == 'p' {
                    Some(GitListAction::StashPop)
                } else {
                    None
                }
            },
            KeyCode::Esc => Some(GitListAction::Close),
            KeyCode::Enter => Some(GitListAction::OpenDiff),
            KeyCode::Backspace => Some(GitListAction::SwitchView(GitView::Status)),
            KeyCode::Tab => Some(GitListAction::NextSection),
            KeyCode::BackTab => Some(GitListAction::PrevSection),
            _ => None,
        }
    } else if m.is_only_control() && key.code == KeyCode::Char('b') {
        Some(GitListAction::ToggleBlame)
    } else if m.is_only_shift() && key.code == KeyCode::Char('P') {
        Some(GitListAction::StashPush)
    } else if m.is_only_shift() && (key.code == KeyCode::Tab || key.code == KeyCode::BackTab) {
        Some(GitListAction::PrevSection)
    } else if view == GitView::Branches && key.code == KeyCode::Enter {
        Some(GitListAction::CheckoutBranch)
    } else {
        None
    }
}

/// What a key does while a commit message is typed.
#[derive(Debug, Clone, Copy, PartialEq, Eq, Structural)]
pub enum CommitKeyAction {
    /// Give up the commit.
    Cancel,
    /// Commit with the message.
    Commit,
    /// Delete the message's last character.
    Backspace,
    /// Switch amending the last commit.
    ToggleAmend,
    /// Type a character.
    Insert(char),
}

/// A key on the commit message: Escape, Enter and Backspace with no
/// modifier, Ctrl+A, and characters with no modifier or Shift.
pub open spec fn commit_action(key: KeyEvent) -> Option<CommitKeyAction> {
    let m = key.modifiers;
    if no_mods(m) && key.code == KeyCode::Esc {
        Some(CommitKeyAction::Cancel)
    } else if no_mods(m) && key.code == KeyCode::Enter {
        Some(CommitKeyAction::Commit)
    } else if no_mods(m) && key.code == KeyCode::Backspace {
        Some(CommitKeyAction::Backspace)
    } else if only_control(m) && key.code == KeyCode::Char('a') {
        Some(CommitKeyAction::ToggleAmend)
    } else {
        match key.code {
            KeyCode::Char(c) => if no_mods(m) || only_shift(m) {
                Some(CommitKeyAction::Insert(c))
            } else {
                None
            },
            _ => None,
        }
    }
}

/// A key on the commit message.
pub fn commit_key_action(key: &KeyEvent) -> (r: Option<CommitKeyAction>)
    ensures
        r == commit_action(*key),
{
    let m = key.modifiers;
    let plain = m.is_empty();
    match key.code {
        KeyCode::Esc => {
            if plain {
                Some(CommitKeyAction::Cancel)
            } else {
                None
            }
        },
        KeyCode::Enter => {
            if plain {
                Some(CommitKeyAction::Commit)
            } else {
                None
            }
        },
        KeyCode::Backspace => {
            if plain {
                Some(CommitKeyAction::Backspace)
            } else {
                None
            }
        },
        KeyCode::Char(c) => {
            if m.is_only_control() && c == 'a' {
                Some(CommitKeyAction::ToggleAmend)
            } else if plain || m.is_only_shift() {
                Some(CommitKeyAction::Insert(c))
            } else {
                None
            }
        },
        _ => None,
    }
}

/// What a key does on the Git dashboard.
#[derive(Debug, Clone, Copy, PartialEq, Eq, Structural)]
pub enum GitDashboardKey {
    /// On the hotkey overlay.
    Overlay(OverlayAction),
    /// On the commit message.
    Commit(CommitKeyAction),
    /// On the lists.
    List(GitListAction),
}

/// A key on the dashboard: the overlay takes every key while it shows,
/// then the commit message while one is typed, then the lists.
pub open spec fn git_dashboard_action(
    key: KeyEvent,
    overlay_visible: bool,
    typing_commit: bool,
    view: GitView,
) -> Option<GitDashboardKey> {
    if overlay_visible {
        match overlay_action(key) {
            Some(a) => Some(GitDashboardKey::Overlay(a)),
            None => None,
        }
    } else if typing_commit {
        match commit_action(key) {
            Some(a) => Some(GitDashboardKey::Commit(a)),
            None => None,
        }
    } else {
        match git_list_action(key, view) {
            Some(a) => Some(GitDashboardKey::List(a)),
            None => None,
        }
    }
}

/// A key on the dashboard, given whether the overlay shows, whether a
/// commit message is typed, and the view.
pub fn git_dashboard_key_action(
    key: &KeyEvent,
    overlay_visible: bool,
    typing_commit: bool,
    view: GitView,
) -> (r: Option<GitDashboardKey>)
    ensures
        r == git_dashboard_action(*key, overlay_visible, typing_commit, view),
{
    if overlay_visible {
        match overlay_key_action(key) {
            Some(a) => Some(GitDashboardKey::Overlay(a)),
            None => None,
        }
    } else if typing_commit {
        match commit_key_action(key) {
            Some(a) => Some(GitDashboardKey::Commit(a)),
            None => None,
        }
    } else {
        match git_list_key_action(key, view) {
            Some(a) => Some(GitDashboardKey::List(a)),
            None => None,
        }
    }
}

} // verus!
