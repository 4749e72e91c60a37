//! What a key means in the Docker manager: on its lists (with Docker
//! reachable or not), while choosing a host, and while typing a host's
//! credentials. Each mapping is a function of the key and of what the
//! manager shows, so every binding can be checked without Docker.

use crate::app::input_traits::{full_list_move, full_list_navigation_move, ListMove};
use crate::app::keys::{no_mods, only_control, only_shift, KeyCode, KeyEvent};
use vstd::prelude::*;

verus! {

/// A section of the Docker lists.
#[derive(Debug, Clone, Copy, PartialEq, Eq, Structural)]
pub enum DockerSection {
    /// Running containers.
    RunningContainers,
    /// Stopped containers.
    StoppedContainers,
    /// Images.
    Images,
}

/// What a key does on the Docker lists.
#[derive(Debug, Clone, Copy, PartialEq, Eq, Structural)]
pub enum DockerListAction {
    /// Move the selection.
    Move(ListMove),
    /// Show or hide the hotkey overlay.
    ToggleHelp,
    /// Close the manager.
    Close,
    /// Act on the selected item (connect, start, run).
    SelectItem,
    /// To the first item.
    First,
    /// To the last item.
    Last,
    /// The next section.
    NextSection,
    /// The previous section.
    PrevSection,
    /// Discover containers and images again.
    Refresh,
    /// Docker is not reachable: say so and look for it again.
    CheckAvailability,
    /// Start Docker Desktop.
    StartDocker,
    /// Jump to a section.
    Section(DockerSection),
    /// Run the selected image with options.
    RunOptions,
    /// Assign the selected item to quick-connect slot N (0-based).
    QuickConnect(u8),
    /// Remove the selected item.
    Remove,
    /// Choose the Docker host.
    HostSelection,
    /// Create a container.
    CreateContainer,
    /// Show the current host's details.
    HostDebug,
}

/// What a key does on the Docker lists. While Docker is not reachable only
/// Escape, `r`, `h` and (when Docker can be started) Enter work. Otherwise
/// the dashboard navigation comes first, then the Docker keys.
pub open spec fn docker_list_action(key: KeyEvent, available: bool, can_start: bool) -> Option<
    DockerListAction,
> {
    let m = key.modifiers;
    if !available {
        if no_mods(m) && key.code == KeyCode::Esc {
            Some(DockerListAction::Close)
        } else if no_mods(m) && key.code == KeyCode::Char('r') {
            Some(DockerListAction::CheckAvailability)
        } else if no_mods(m) && key.code == KeyCode::Char('h') {
            Some(DockerListAction::HostSelection)
        } else if no_mods(m) && key.code == KeyCode::Enter && can_start {
            Some(DockerListAction::StartDocker)
        } else {
            None
        }
    } else if full_list_move(key) is Some {
        Some(DockerListAction::Move(full_list_move(key).unwrap()))
    } else if no_mods(m) {
        match key.code {
            KeyCode::Char(c) => if c == '?' {
                Some(DockerListAction::ToggleHelp)
            } else if c == 'g' {
                Some(DockerListAction::First)
            } else if c == 'r' {
                Some(DockerListAction::Refresh)
            } else if '1' <= c <= '9' {
                Some(DockerListAction::QuickConnect(((c as u32) - ('1' as u32)) as u8))
            } else if c == 'd' {
                Some(DockerListAction::Remove)
            } else if c == 'h' {
                Some(DockerListAction::HostSelection)
            } else if c == 'c' {
                Some(DockerListAction::CreateContainer)
            } else {
                None
            },
            KeyCode::Esc => Some(DockerListAction::Close),
            KeyCode::Enter => Some(DockerListAction::SelectItem),
            KeyCode::Tab => Some(DockerListAction::NextSection),
            KeyCode::Delete => Some(DockerListAction::Remove),
            _ => None,
        }
    } else if only_shift(m) {
        match key.code {
            KeyCode::Char(c) => if c == 'G' {
                Some(DockerListAction::Last)
            } else if c == 'R' {
                Some(DockerListAction::Section(DockerSection::RunningContainers))
            } else if c == 'S' {
                Some(DockerListAction::Section(DockerSection::StoppedContainers))
            } else if c == 'I' {
                Some(DockerListAction::Section(DockerSection::Images))
            } else if c == 'D' {
                Some(DockerListAction::HostDebug)
            } else {
                None
            },
            KeyCode::BackTab => Some(DockerListAction::PrevSection),
            _ => None,
        }
    } else if only_control(m) && key.code == KeyCode::Char('o') {
        Some(DockerListAction::RunOptions)
    } else {
        None
    }
}

/// What a key does on the Docker lists. `available` says whether Docker
/// answers, and `can_start` whether it is installed but not running (or its
/// daemon failed), so that it can be started.
pub fn docker_list_key_action(key: KeyEvent, available: bool, can_start: bool) -> (r: Option<
    DockerListAction,
>)
    ensures
        r == docker_list_action(key, available, can_start),
{
    let m = key.modifiers;
    if !available {
        if !m.is_empty() {
            return None;
        }
        return match key.code {
            KeyCode::Esc => Some(DockerListAction::Close),
            KeyCode::Char(c) => {
                if c == 'r' {
                    Some(DockerListAction::CheckAvailability)
                } else if c == 'h' {
                    Some(DockerListAction::HostSelection)
                } else {
                    None
                }
            },
            KeyCode::Enter => {
                if can_start {
                    Some(DockerListAction::StartDocker)
                } else {
                    None
                }
            },
            _ => None,
        };
    }
    match full_list_navigation_move(&key) {
        Some(mv) => {
            return Some(DockerListAction::Move(mv));
        },
        None => {},
    }
    if m.is_empty() {
        match key.code {
            KeyCode::Char(c) => {
                if c == '?' {
                    Some(DockerListAction::ToggleHelp)
                } else if c == 'g' {
                    Some(DockerListAction::First)
                } else if c == 'r' {
                    Some(DockerListAction::Refresh)
                } else if '1' <= c && c <= '9' {
                    Some(DockerListAction::QuickConnect(((c as u8) - 49) as u8))
                } else if c == 'd' {
                    Some(DockerListAction::Remove)
                } else if c == 'h' {
                    Some(DockerListAction::HostSelection)
                } else if c == 'c' {
                    Some(DockerListAction::CreateContainer)
                } else {
                    None
                }
            },
            KeyCode::Esc => Some(DockerListAction::Close),
            KeyCode::Enter => Some(DockerListAction::SelectItem),
            KeyCode::Tab => Some(DockerListAction::NextSection),
            KeyCode::Delete => Some(DockerListAction::Remove),
            _ => None,
        }
    } else if m.is_only_shift() {
        match key.code {
            KeyCode::Char(c) => {
                if c == 'G' {
                    Some(DockerListAction::Last)
                } else if c == 'R' {
                    Some(DockerListAction::Section(DockerSection::RunningContainers))
                } else if c == 'S' {
                    Some(DockerListAction::Section(DockerSection::StoppedContainers))
                } else if c == 'I' {
                    Some(DockerListAction::Section(DockerSection::Images))
                } else if c == 'D' {
                    Some(DockerListAction::HostDebug)
                } else {
                    None
                }
            },
            KeyCode::BackTab => Some(DockerListAction::PrevSection),
            _ => None,
        }
    } else if m.is_only_control() {
        match key.code {
            KeyCode::Char(c) => {
                if c == 'o' {
                    Some(DockerListAction::RunOptions)
                } else {
                    None
                }
            },
            _ => None,
        }
    } else {
        None
    }
}

/// What a key does while a Docker host is chosen.
#[derive(Debug, Clone, Copy, PartialEq, Eq, Structural)]
pub enum HostSelectionAction {
    /// The next host.
    Next,
    /// The previous host.
    Previous,
    /// Stop choosing.
    Cancel,
    /// Switch to the local Docker.
    SelectLocal,
    /// Switch to the selected host.
    Confirm,
}

/// What a key with no modifier does while a Docker host is chosen: Down or
/// `j`, Up or `k`, Escape, `l` and Enter.
pub open spec fn host_selection_action(key: KeyEvent) -> Option<HostSelectionAction> {
    if !no_mods(key.modifiers) {
        None
    } else {
        match key.code {
            KeyCode::Down => Some(HostSelectionAction::Next),
            KeyCode::Up => Some(HostSelectionAction::Previous),
            KeyCode::Esc => Some(HostSelectionAction::Cancel),
            KeyCode::Enter => Some(HostSelectionAction::Confirm),
            KeyCode::Char(c) => if c == 'j' {
                Some(HostSelectionAction::Next)
            } else if c == 'k' {
                Some(HostSelectionAction::Previous)
            } else if c == 'l' {
                Some(HostSelectionAction::SelectLocal)
            } else {
                None
            },
            _ => None,
        }
    }
}

/// What a key does while a Docker host is chosen.
pub fn host_selection_key_action(key: KeyEvent) -> (r: Option<HostSelectionAction>)
    ensures
        r == host_selection_action(key),
{
    if !key.modifiers.is_empty() {
        return None;
    }
    match key.code {
        KeyCode::Down => Some(HostSelectionAction::Next),
        KeyCode::Up => Some(HostSelectionAction::Previous),
        KeyCode::Esc => Some(HostSelectionAction::Cancel),
        KeyCode::Enter => Some(HostSelectionAction::Confirm),
        KeyCode::Char(c) => {
            if c == 'j' {
                Some(HostSelectionAction::Next)
            } else if c == 'k' {
                Some(HostSelectionAction::Previous)
            } else if c == 'l' {
                Some(HostSelectionAction::SelectLocal)
            } else {
                None
            }
        },
        _ => None,
    }
}

/// What a key does while a Docker host's credentials are typed.
#[derive(Debug, Clone, Copy, PartialEq, Eq, Structural)]
pub enum CredentialsAction {
    /// Stop entering credentials.
    Cancel,
    /// The next field.
    NextField,
    /// The previous field.
    PrevField,
    /// Connect with what was typed.
    Submit,
    /// Delete the last character.
    Backspace,
    /// Toggle saving the credentials.
    ToggleSave,
    /// Type a character.
    Insert(char),
}

/// What a key does while credentials are typed: Escape, Tab, Shift+BackTab,
/// Enter, Backspace, Space to toggle saving, and characters with no
/// modifier or Shift alone.
pub open spec fn credentials_action(key: KeyEvent) -> Option<CredentialsAction> {
    let m = key.modifiers;
    if no_mods(m) {
        match key.code {
            KeyCode::Esc => Some(CredentialsAction::Cancel),
            KeyCode::Tab => Some(CredentialsAction::NextField),
            KeyCode::Enter => Some(CredentialsAction::Submit),
            KeyCode::Backspace => Some(CredentialsAction::Backspace),
            KeyCode::Char(c) => if c == ' ' {
                Some(CredentialsAction::ToggleSave)
            } else {
                Some(CredentialsAction::Insert(c))
            },
            _ => None,
        }
    } else if only_shift(m) {
        match key.code {
            KeyCode::BackTab => Some(CredentialsAction::PrevField),
            KeyCode::Char(c) => Some(CredentialsAction::Insert(c)),
            _ => None,
        }
    } else {
        None
    }
}

/// What a key does while credentials are typed.
pub fn credentials_key_action(key: KeyEvent) -> (r: Option<CredentialsAction>)
    ensures
        r == credentials_action(key),
{
    let m = key.modifiers;
    if m.is_empty() {
        match key.code {
            KeyCode::Esc => Some(CredentialsAction::Cancel),
            KeyCode::Tab => Some(CredentialsAction::NextField),
            KeyCode::Enter => Some(CredentialsAction::Submit),
            KeyCode::Backspace => Some(CredentialsAction::Backspace),
            KeyCode::Char(c) => {
                if c == ' ' {
                    Some(CredentialsAction::ToggleSave)
                } else {
                    Some(CredentialsAction::Insert(c))
                }
            },
            _ => None,
        }
    } else if m.is_only_shift() {
        match key.code {
            KeyCode::BackTab => Some(CredentialsAction::PrevField),
            KeyCode::Char(c) => Some(CredentialsAction::Insert(c)),
            _ => None,
        }
    } else {
        None
    }
}

} // verus!
