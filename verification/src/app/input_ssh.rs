//! Keys on the SSH manager: its host list, the scans, and the forms
//! (credentials, a new host, scan credentials, a host's name), and on the
//! one-line prompts for a subnet and the master password. Scanning,
//! connecting and storing hosts are the caller's; this decides which of it
//! a key asks for.

use crate::app::dashboard_nav::{nav_result, NavResult};
use crate::app::input_traits::{full_list_move, full_list_navigation_move, ListMove};
use crate::app::keys::{no_mods, only_shift, KeyCode, KeyEvent};
use vstd::prelude::*;

verus! {

/// What the SSH manager shows.
#[derive(Debug, Clone, Copy, PartialEq, Eq, Structural)]
pub enum SshManagerMode {
    /// The host list.
    List,
    /// A network scan is running.
    Scanning,
    /// A scan that logs in with credentials is running.
    AuthenticatedScanning,
    /// Credentials for a connection are typed.
    CredentialEntry,
    /// A connection is being made.
    Connecting,
    /// A new host is typed.
    AddHost,
    /// Credentials for an authenticated scan are typed.
    ScanCredentialEntry,
    /// A host's display name is typed.
    EditName,
}

/// What a key asks of the host list.
#[derive(Debug, Clone, Copy, PartialEq, Eq, Structural)]
pub enum SshListAction {
    /// Move the selection.
    Navigate(ListMove),
    /// Show or hide the hotkey overlay.
    ToggleHelp,
    /// Close the manager.
    Close,
    /// Connect to the selected host.
    Connect,
    /// Scan the local network.
    Scan,
    /// Ask for a subnet to scan.
    SubnetPrompt,
    /// Add a host by hand.
    AddHost,
    /// Delete the selected host.
    DeleteHost,
    /// Ask for credentials to scan with.
    ScanCredentials,
    /// Rename the selected host.
    EditName,
    /// Open the health dashboard.
    HealthDashboard,
}

/// A key on the host list: the navigation layer first (Enter connects),
/// then `s`, `S`, `a`/`A`, `d`/`D`/Delete, `c`, `e` and `h`.
pub open spec fn ssh_list_action(key: KeyEvent) -> Option<SshListAction> {
    let m = key.modifiers;
    match nav_result(key) {
        NavResult::Handled => Some(SshListAction::Navigate(full_list_move(key).unwrap())),
        NavResult::ShowHelp => Some(SshListAction::ToggleHelp),
        NavResult::Close => Some(SshListAction::Close),
        NavResult::Activate => Some(SshListAction::Connect),
        NavResult::Unhandled => if no_mods(m) {
            match key.code {
                KeyCode::Char('s') => Some(SshListAction::Scan),
                KeyCode::Char('a') => Some(SshListAction::AddHost),
                KeyCode::Char('d') | KeyCode::Delete => Some(SshListAction::DeleteHost),
                KeyCode::Char('c') => Some(SshListAction::ScanCredentials),
                KeyCode::Char('e') => Some(SshListAction::EditName),
                KeyCode::Char('h') => Some(SshListAction::HealthDashboard),
                _ => None,
            }
        } else if only_shift(m) {
            match key.code {
                KeyCode::Char('S') => Some(SshListAction::SubnetPrompt),
                KeyCode::Char('A') => Some(SshListAction::AddHost),
                KeyCode::Char('D') => Some(SshListAction::DeleteHost),
                _ => None,
            }
        } else {
            None
        },
    }
}

/// A key on the host list.
pub fn ssh_list_key_action(key: &KeyEvent) -> (r: Option<SshListAction>)
    ensures
        r == ssh_list_action(*key),
{
    match full_list_navigation_move(key) {
        Some(mv) => {
            return Some(SshListAction::Navigate(mv));
        },
        None => {},
    }
    let m = key.modifiers;
    if m.is_empty() {
        match key.code {
            KeyCode::Char(c) => {
                if c == '?' {
                    Some(SshListAction::ToggleHelp)
                } else if c == 's' {
                    Some(SshListAction::Scan)
                } else if c == 'a' {
                    Some(SshListAction::AddHost)
                } else if c == 'd' {
                    Some(SshListAction::DeleteHost)
                } else if c == 'c' {
                    Some(SshListAction::ScanCredentials)
                } else if c == 'e' {
                    Some(SshListAction::EditName)
                } else if c == 'h' {
                    Some(SshListAction::HealthDashboard)
                } else {
                    None
                }
            },
            KeyCode::Esc => Some(SshListAction::Close),
            KeyCode::Enter => Some(SshListAction::Connect),
            KeyCode::Delete => Some(SshListAction::DeleteHost),
            _ => None,
        }
    } else if m.is_only_shift() {
        match key.code {
            KeyCode::Char(c) => {
                if c == 'S' {
                    Some(SshListAction::SubnetPrompt)
                } else if c == 'A' {
                    Some(SshListAction::AddHost)
                } else if c == 'D' {
                    Some(SshListAction::DeleteHost)
                } else {
                    None
                }
            },
            _ => None,
        }
    } else {
        None
    }
}

/// What a key does in one of the manager's forms.
#[derive(Debug, Clone, Copy, PartialEq, Eq, Structural)]
pub enum FormKeyAction {
    /// Leave the form.
    Cancel,
    /// The next field.
    NextField,
    /// The previous field.
    PrevField,
    /// Submit the form.
    Submit,
    /// Delete the field's last character.
    Backspace,
    /// Type a character.
    Insert(char),
    /// The previous jump host.
    PrevJumpHost,
    /// The next jump host.
    NextJumpHost,
}

/// A key in a form: Escape, Enter and Backspace with no modifier; when the
/// form has several fields, Tab and Shift+Tab (or Shift+BackTab) move
/// between them; on the jump-host field Left and Right pick the jump host;
/// characters with no modifier or Shift are typed.
pub open spec fn form_action(key: KeyEvent, fields: bool, jump_host_field: bool) -> Option<
    FormKeyAction,
> {
    let m = key.modifiers;
    if no_mods(m) && key.code == KeyCode::Esc {
        Some(FormKeyAction::Cancel)
    } else if fields && no_mods(m) && key.code == KeyCode::Tab {
        Some(FormKeyAction::NextField)
    } else if fields && only_shift(m) && (key.code == KeyCode::Tab || key.code
        == KeyCode::BackTab) {
        Some(FormKeyAction::PrevField)
    } else if no_mods(m) && key.code == KeyCode::Enter {
        Some(FormKeyAction::Submit)
    } else if no_mods(m) && key.code == KeyCode::Backspace {
        Some(FormKeyAction::Backspace)
    } else if jump_host_field && no_mods(m) && key.code == KeyCode::Left {
        Some(FormKeyAction::PrevJumpHost)
    } else if jump_host_field && no_mods(m) && key.code == KeyCode::Right {
        Some(FormKeyAction::NextJumpHost)
    } else {
        match key.code {
            KeyCode::Char(c) => if no_mods(m) || only_shift(m) {
                Some(FormKeyAction::Insert(c))
            } else {
                None
            },
            _ => None,
        }
    }
}

/// A key in a form; `fields` says whether it has several fields and
/// `jump_host_field` whether the jump-host field is the current one.
pub fn form_key_action(key: &KeyEvent, fields: bool, jump_host_field: bool) -> (r: Option<
    FormKeyAction,
>)
    ensures
        r == form_action(*key, fields, jump_host_field),
{
    let m = key.modifiers;
    let plain = m.is_empty();
    let shift = m.is_only_shift();
    match key.code {
        KeyCode::Esc => {
            if plain {
                Some(FormKeyAction::Cancel)
            } else {
                None
            }
        },
        KeyCode::Tab => {
            if fields && plain {
                Some(FormKeyAction::NextField)
            } else if fields && shift {
                Some(FormKeyAction::PrevField)
            } else {
                None
            }
        },
        KeyCode::BackTab => {
            if fields && shift {
                Some(FormKeyAction::PrevField)
            } else {
                None
            }
        },
        KeyCode::Enter => {
            if plain {
                Some(FormKeyAction::Submit)
            } else {
                None
            }
        },
        KeyCode::Backspace => {
            if plain {
                Some(FormKeyAction::Backspace)
            } else {
                None
            }
        },
        KeyCode::Left => {
            if jump_host_field && plain {
                Some(FormKeyAction::PrevJumpHost)
            } else {
                None
            }
        },
        KeyCode::Right => {
            if jump_host_field && plain {
                Some(FormKeyAction::NextJumpHost)
            } else {
                None
            }
        },
        KeyCode::Char(c) => {
            if plain || shift {
                Some(FormKeyAction::Insert(c))
            } else {
                None
            }
        },
        _ => None,
    }
}

/// What a key asks of the SSH manager.
#[derive(Debug, Clone, Copy, PartialEq, Eq, Structural)]
pub enum SshKeyAction {
    /// On the host list.
    List(SshListAction),
    /// Stop the running scan.
    CancelScan,
    /// In a form.
    Form(FormKeyAction),
}

/// A key on the manager in `mode`: the list's keys on the list, Escape
/// during a scan, the form's keys in a form (the name form has one field;
/// the new-host form may be on its jump-host field), and nothing while
/// connecting.
pub open spec fn ssh_manager_action(key: KeyEvent, mode: SshManagerMode, jump_host_field: bool) -> Option<
    SshKeyAction,
> {
    match mode {
        SshManagerMode::List => match ssh_list_action(key) {
            Some(a) => Some(SshKeyAction::List(a)),
            None => None,
        },
        SshManagerMode::Scanning | SshManagerMode::AuthenticatedScanning => if no_mods(
            key.modifiers,
        ) && key.code == KeyCode::Esc {
            Some(SshKeyAction::CancelScan)
        } else {
            None
        },
        SshManagerMode::Connecting => None,
        SshManagerMode::CredentialEntry | SshManagerMode::ScanCredentialEntry => match form_action(
            key,
            true,
            false,
        ) {
            Some(a) => Some(SshKeyAction::Form(a)),
            None => None,
        },
        SshManagerMode::AddHost => match form_action(key, true, jump_host_field) {
            Some(a) => Some(SshKeyAction::Form(a)),
            None => None,
        },
        SshManagerMode::EditName => match form_action(key, false, false) {
            Some(a) => Some(SshKeyAction::Form(a)),
            None => None,
        },
    }
}

/// A key on the manager in `mode`; `jump_host_field` says whether the
/// new-host form is on its jump-host field.
pub fn ssh_manager_key_action(key: &KeyEvent, mode: SshManagerMode, jump_host_field: bool) -> (r:
    Option<SshKeyAction>)
    ensures
        r == ssh_manager_action(*key, mode, jump_host_field),
{
    let form = match mode {
        SshManagerMode::List => {
            return match ssh_list_key_action(key) {
                Some(a) => Some(SshKeyAction::List(a)),
                None => None,
            };
        },
        SshManagerMode::Scanning | SshManagerMode::AuthenticatedScanning => {
            return if key.modifiers.is_empty() && key.code == KeyCode::Esc {
                Some(SshKeyAction::CancelScan)
            } else {
                None
            };
        },
        SshManagerMode::Connecting => {
            return None;
        },
        SshManagerMode::CredentialEntry | SshManagerMode::ScanCredentialEntry => form_key_action(
            key,
            true,
            false,
        ),
        SshManagerMode::AddHost => form_key_action(key, true, jump_host_field),
        SshManagerMode::EditName => form_key_action(key, false, false),
    };
    match form {
        Some(a) => Some(SshKeyAction::Form(a)),
        None => None,
    }
}

/// What a key does on a one-line prompt (the subnet to scan, the master
/// password).
#[derive(Debug, Clone, Copy, PartialEq, Eq, Structural)]
pub enum PromptAction {
    /// Hide the prompt.
    Cancel,
    /// Hide the prompt and use what was typed.
    Submit,
    /// Delete the last character.
    Backspace,
    /// Type a character.
    Insert(char),
}

/// A key on a one-line prompt: the one-field form without Tab.
pub open spec fn prompt_action(key: KeyEvent) -> Option<PromptAction> {
    match form_action(key, false, false) {
        Some(FormKeyAction::Cancel) => Some(PromptAction::Cancel),
        Some(FormKeyAction::Submit) => Some(PromptAction::Submit),
        Some(FormKeyAction::Backspace) => Some(PromptAction::Backspace),
        Some(FormKeyAction::Insert(c)) => Some(PromptAction::Insert(c)),
        _ => None,
    }
}

/// A key on a one-line prompt.
pub fn prompt_key_action(key: &KeyEvent) -> (r: Option<PromptAction>)
    ensures
        r == prompt_action(*key),
{
    match form_key_action(key, false, false) {
        Some(FormKeyAction::Cancel) => Some(PromptAction::Cancel),
        Some(FormKeyAction::Submit) => Some(PromptAction::Submit),
        Some(FormKeyAction::Backspace) => Some(PromptAction::Backspace),
        Some(FormKeyAction::Insert(c)) => Some(PromptAction::Insert(c)),
        _ => None,
    }
}

/// What submitting the subnet prompt scans: the local network when
/// nothing was typed, else the typed subnet.
#[derive(Debug, Clone, PartialEq, Eq)]
pub enum ScanTarget {
    /// The local network.
    Local,
    /// The given subnet.
    Subnet(String),
}

/// The scan that the subnet prompt's text asks for.
pub fn subnet_scan_target(input: &str) -> (r: ScanTarget)
    ensures
        input@.len() == 0 ==> r == ScanTarget::Local,
        input@.len() > 0 ==> (r matches ScanTarget::Subnet(s) && s@ == input@),
{
    if input.unicode_len() == 0 {
        ScanTarget::Local
    } else {
        ScanTarget::Subnet(input.to_owned())
    }
}

} // verus!
