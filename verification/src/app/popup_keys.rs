//! Keys while a popup or the file browser has them, and which handler a
//! key goes to. Each popup kind reads keys its own way: the
//! save-before-closing question, the notes that any key dismisses, the
//! choosers, the SSH screens, and the text popups.

use crate::app::input::{confirm_answer, confirm_key_answer, popup_input, popup_key_input, ConfirmAnswer, PopupInput};
use crate::app::input_ssh::{
    form_action, form_key_action, prompt_action, prompt_key_action, ssh_manager_action,
    ssh_manager_key_action, FormKeyAction, PromptAction, SshKeyAction, SshManagerMode,
};
use crate::app::keys::{no_mods, only_shift, KeyCode, KeyEvent, KeyEventKind};
use crate::app::state::{App, AppMode, FocusedPane, PopupKind};
use vstd::prelude::*;

verus! {

/// What a key does on a chooser (of the key binding mode, the shell, the
/// theme).
#[derive(Debug, Clone, Copy, PartialEq, Eq, Structural)]
pub enum ChooserAction {
    /// Close without choosing.
    Cancel,
    /// Use the highlighted choice.
    Apply,
    /// Highlight the next choice.
    Next,
    /// Highlight the previous choice.
    Prev,
}

/// A key on the key-binding-mode chooser: Escape and Enter; Tab, Down and
/// `j` (and Ctrl+Shift+Tab) for the next mode; Shift+Tab, BackTab, Up and
/// `k` for the previous one.
pub open spec fn mode_switcher_action(key: KeyEvent) -> Option<ChooserAction> {
    let m = key.modifiers;
    let k = key.code;
    let ctrl_shift = m.shift && m.control && !m.alt && !m.super_key && !m.hyper && !m.meta;
    if no_mods(m) && k == KeyCode::Esc {
        Some(ChooserAction::Cancel)
    } else if no_mods(m) && k == KeyCode::Enter {
        Some(ChooserAction::Apply)
    } else if no_mods(m) && (k == KeyCode::Tab || k == KeyCode::Down || k == KeyCode::Char('j')) {
        Some(ChooserAction::Next)
    } else if (only_shift(m) && (k == KeyCode::Tab || k == KeyCode::BackTab)) || (no_mods(m) && (k
        == KeyCode::BackTab || k == KeyCode::Up || k == KeyCode::Char('k'))) {
        Some(ChooserAction::Prev)
    } else if ctrl_shift && (k == KeyCode::Tab || k == KeyCode::BackTab) {
        Some(ChooserAction::Next)
    } else {
        None
    }
}

/// A key on the key-binding-mode chooser.
pub fn mode_switcher_key_action(key: &KeyEvent) -> (r: Option<ChooserAction>)
    ensures
        r == mode_switcher_action(*key),
{
    let m = key.modifiers;
    let plain = m.is_empty();
    let shift = m.is_only_shift();
    let ctrl_shift = m.shift && m.control && !m.alt && !m.super_key && !m.hyper && !m.meta;
    match key.code {
        KeyCode::Esc => {
            if plain {
                Some(ChooserAction::Cancel)
            } else {
                None
            }
        },
        KeyCode::Enter => {
            if plain {
                Some(ChooserAction::Apply)
            } else {
                None
            }
        },
        KeyCode::Tab => {
            if plain || ctrl_shift {
                Some(ChooserAction::Next)
            } else if shift {
                Some(ChooserAction::Prev)
            } else {
                None
            }
        },
        KeyCode::BackTab => {
            if plain || shift {
                Some(ChooserAction::Prev)
            } else if ctrl_shift {
                Some(ChooserAction::Next)
            } else {
                None
            }
        },
        KeyCode::Down => {
            if plain {
                Some(ChooserAction::Next)
            } else {
                None
            }
        },
        KeyCode::Up => {
            if plain {
                Some(ChooserAction::Prev)
            } else {
                None
            }
        },
        KeyCode::Char(c) => {
            if plain && c == 'j' {
                Some(ChooserAction::Next)
            } else if plain && c == 'k' {
                Some(ChooserAction::Prev)
            } else {
                None
            }
        },
        _ => None,
    }
}

/// A key on the shell or theme chooser, with no modifier: Escape, Enter,
/// Down/`j` and Up/`k`.
pub open spec fn chooser_action(key: KeyEvent) -> Option<ChooserAction> {
    if !no_mods(key.modifiers) {
        None
    } else {
        match key.code {
            KeyCode::Esc => Some(ChooserAction::Cancel),
            KeyCode::Enter => Some(ChooserAction::Apply),
            KeyCode::Down | KeyCode::Char('j') => Some(ChooserAction::Next),
            KeyCode::Up | KeyCode::Char('k') => Some(ChooserAction::Prev),
            _ => None,
        }
    }
}

/// A key on the shell or theme chooser.
pub fn chooser_key_action(key: &KeyEvent) -> (r: Option<ChooserAction>)
    ensures
        r == chooser_action(*key),
{
    if !key.modifiers.is_empty() {
        return None;
    }
    match key.code {
        KeyCode::Esc => Some(ChooserAction::Cancel),
        KeyCode::Enter => Some(ChooserAction::Apply),
        KeyCode::Down => Some(ChooserAction::Next),
        KeyCode::Up => Some(ChooserAction::Prev),
        KeyCode::Char(c) => {
            if c == 'j' {
                Some(ChooserAction::Next)
            } else if c == 'k' {
                Some(ChooserAction::Prev)
            } else {
                None
            }
        },
        _ => None,
    }
}

/// The shell-install note closes on Escape or Enter; the key-binding note
/// also on any character; all with no modifier.
pub open spec fn dismisses(key: KeyEvent, kind: PopupKind) -> bool {
    no_mods(key.modifiers) && (key.code == KeyCode::Esc || key.code == KeyCode::Enter || (kind
        == PopupKind::KeybindingNotification && key.code is Char))
}

/// What a key does on a popup.
#[derive(Debug, Clone, Copy, PartialEq, Eq, Structural)]
pub enum PopupKeyAction {
    /// An answer to "save before closing?".
    Confirm(ConfirmAnswer),
    /// Close a note (marking the key-binding note as shown).
    Dismiss,
    /// On the key-binding-mode chooser.
    ModeSwitch(ChooserAction),
    /// On the shell chooser.
    Shell(ChooserAction),
    /// On the theme chooser.
    Theme(ChooserAction),
    /// On the SSH manager.
    Ssh(SshKeyAction),
    /// On the SSH credentials.
    SshCredential(FormKeyAction),
    /// On the subnet prompt.
    SshSubnet(PromptAction),
    /// On the master password prompt.
    SshMasterPassword(PromptAction),
    /// On a text popup.
    Text(PopupInput),
}

/// Wraps an optional action.
pub open spec fn lift<A>(a: Option<A>, f: spec_fn(A) -> PopupKeyAction) -> Option<PopupKeyAction> {
    match a {
        Some(x) => Some(f(x)),
        None => None,
    }
}

/// What a key does on a popup of `kind`; the SSH manager's own mode and
/// whether its new-host form is on the jump-host field are passed in.
pub open spec fn popup_action(
    key: KeyEvent,
    kind: PopupKind,
    ssh_mode: SshManagerMode,
    jump_host_field: bool,
) -> Option<PopupKeyAction> {
    match kind {
        PopupKind::ConfirmSaveBeforeExit => lift(
            confirm_answer(key),
            |a: ConfirmAnswer| PopupKeyAction::Confirm(a),
        ),
        PopupKind::KeybindingNotification | PopupKind::ShellInstallPrompt => if dismisses(
            key,
            kind,
        ) {
            Some(PopupKeyAction::Dismiss)
        } else {
            None
        },
        PopupKind::ModeSwitcher => lift(
            mode_switcher_action(key),
            |a: ChooserAction| PopupKeyAction::ModeSwitch(a),
        ),
        PopupKind::ShellSelector => lift(
            chooser_action(key),
            |a: ChooserAction| PopupKeyAction::Shell(a),
        ),
        PopupKind::ThemeSelector => lift(
            chooser_action(key),
            |a: ChooserAction| PopupKeyAction::Theme(a),
        ),
        PopupKind::SshManager => lift(
            ssh_manager_action(key, ssh_mode, jump_host_field),
            |a: SshKeyAction| PopupKeyAction::Ssh(a),
        ),
        PopupKind::SshCredentialPrompt => lift(
            form_action(key, true, false),
            |a: FormKeyAction| PopupKeyAction::SshCredential(a),
        ),
        PopupKind::SshSubnetEntry => lift(
            prompt_action(key),
            |a: PromptAction| PopupKeyAction::SshSubnet(a),
        ),
        PopupKind::SshMasterPassword => lift(
            prompt_action(key),
            |a: PromptAction| PopupKeyAction::SshMasterPassword(a),
        ),
        _ => lift(popup_input(key), |a: PopupInput| PopupKeyAction::Text(a)),
    }
}

/// What a key does on a popup of `kind`.
pub fn popup_key_action(
    key: &KeyEvent,
    kind: PopupKind,
    ssh_mode: SshManagerMode,
    jump_host_field: bool,
) -> (r: Option<PopupKeyAction>)
    ensures
        r == popup_action(*key, kind, ssh_mode, jump_host_field),
{
    match kind {
        PopupKind::ConfirmSaveBeforeExit => match confirm_key_answer(*key) {
            Some(a) => Some(PopupKeyAction::Confirm(a)),
            None => None,
        },
        PopupKind::KeybindingNotification | PopupKind::ShellInstallPrompt => {
            let any_char = match key.code {
                KeyCode::Char(_) => kind == PopupKind::KeybindingNotification,
                _ => false,
            };
            if key.modifiers.is_empty() && (key.code == KeyCode::Esc || key.code == KeyCode::Enter
                || any_char) {
                Some(PopupKeyAction::Dismiss)
            } else {
                None
            }
        },
        PopupKind::ModeSwitcher => match mode_switcher_key_action(key) {
            Some(a) => Some(PopupKeyAction::ModeSwitch(a)),
            None => None,
        },
        PopupKind::ShellSelector => match chooser_key_action(key) {
            Some(a) => Some(PopupKeyAction::Shell(a)),
            None => None,
        },
        PopupKind::ThemeSelector => match chooser_key_action(key) {
            Some(a) => Some(PopupKeyAction::Theme(a)),
            None => None,
        },
        PopupKind::SshManager => match ssh_manager_key_action(key, ssh_mode, jump_host_field) {
            Some(a) => Some(PopupKeyAction::Ssh(a)),
            None => None,
        },
        PopupKind::SshCredentialPrompt => match form_key_action(key, true, false) {
            Some(a) => Some(PopupKeyAction::SshCredential(a)),
            None => None,
        },
        PopupKind::SshSubnetEntry => match prompt_key_action(key) {
            Some(a) => Some(PopupKeyAction::SshSubnet(a)),
            None => None,
        },
        PopupKind::SshMasterPassword => match prompt_key_action(key) {
            Some(a) => Some(PopupKeyAction::SshMasterPassword(a)),
            None => None,
        },
        _ => match popup_key_input(*key) {
            Some(a) => Some(PopupKeyAction::Text(a)),
            None => None,
        },
    }
}

/// The popup closes on this action: any answer to "save before closing?",
/// a dismissed note, Escape on a text popup, and Escape or Enter on the
/// one-line SSH prompts.
pub open spec fn closes_popup(a: PopupKeyAction) -> bool {
    match a {
        PopupKeyAction::Confirm(_) | PopupKeyAction::Dismiss => true,
        PopupKeyAction::Text(PopupInput::Close) => true,
        PopupKeyAction::SshSubnet(p) | PopupKeyAction::SshMasterPassword(p) => p
            == PromptAction::Cancel || p == PromptAction::Submit,
        _ => false,
    }
}

impl App {
    /// Handles a key while a popup shows and returns what it asks for. The
    /// popup closes as `closes_popup` says, and "quit without saving" stops
    /// the application; everything else is left to the caller.
    pub fn handle_popup_key(
        &mut self,
        key: KeyEvent,
        ssh_mode: SshManagerMode,
        jump_host_field: bool,
    ) -> (r: Option<PopupKeyAction>)
        ensures
            old(self).popup is None ==> r is None,
            old(self).popup matches Some(k) ==> r == popup_action(
                key,
                k,
                ssh_mode,
                jump_host_field,
            ),
            (r matches Some(a) && closes_popup(a)) ==> *final(self) == (App {
                popup: None,
                running: old(self).running && r != Some(PopupKeyAction::Confirm(ConfirmAnswer::Quit)),
                ..*old(self)
            }),
            !(r matches Some(a) && closes_popup(a)) ==> *final(self) == *old(self),
    {
        let kind = match self.popup {
            Some(k) => k,
            None => {
                return None;
            },
        };
        let action = popup_key_action(&key, kind, ssh_mode, jump_host_field);
        match action {
            Some(PopupKeyAction::Confirm(a)) => {
                self.popup = None;
                if a == ConfirmAnswer::Quit {
                    self.running = false;
                }
            },
            Some(PopupKeyAction::Dismiss) | Some(PopupKeyAction::Text(PopupInput::Close)) => {
                self.popup = None;
            },
            Some(PopupKeyAction::SshSubnet(p)) | Some(PopupKeyAction::SshMasterPassword(p)) => {
                if p == PromptAction::Cancel || p == PromptAction::Submit {
                    self.popup = None;
                }
            },
            _ => {},
        }
        action
    }
}

/// What a key does in the file browser.
#[derive(Debug, Clone, Copy, PartialEq, Eq, Structural)]
pub enum BrowserKeyAction {
    /// Close the browser.
    Close,
    /// The previous entry.
    Up,
    /// The next entry.
    Down,
    /// The parent directory.
    Parent,
    /// Open the selected file or directory.
    Enter,
    /// A page up.
    PageUp,
    /// A page down.
    PageDown,
    /// The first entry.
    First,
    /// The last entry.
    Last,
    /// Search for a file by name (local browser only).
    Search,
}

/// A key in the file browser, with no modifier: Escape; Up/`k`/`w`;
/// Down/`j`/`s`; Left/`h`/`a`; Right/`l`/`d` and Enter; the page keys,
/// Home and End; and `/` in the local browser.
pub open spec fn browser_action(key: KeyEvent, remote: bool) -> Option<BrowserKeyAction> {
    if !no_mods(key.modifiers) {
        None
    } else {
        match key.code {
            KeyCode::Esc => Some(BrowserKeyAction::Close),
            KeyCode::Up | KeyCode::Char('k') | KeyCode::Char('w') => Some(BrowserKeyAction::Up),
            KeyCode::Down | KeyCode::Char('j') | KeyCode::Char('s') => Some(BrowserKeyAction::Down),
            KeyCode::Left | KeyCode::Char('h') | KeyCode::Char('a') => Some(
                BrowserKeyAction::Parent,
            ),
            KeyCode::Right | KeyCode::Char('l') | KeyCode::Char('d') | KeyCode::Enter => Some(
                BrowserKeyAction::Enter,
            ),
            KeyCode::PageUp => Some(BrowserKeyAction::PageUp),
            KeyCode::PageDown => Some(BrowserKeyAction::PageDown),
            KeyCode::Home => Some(BrowserKeyAction::First),
            KeyCode::End => Some(BrowserKeyAction::Last),
            KeyCode::Char('/') => if remote {
                None
            } else {
                Some(BrowserKeyAction::Search)
            },
            _ => None,
        }
    }
}

/// A key in the local (or, with `remote`, the SSH) file browser.
pub fn browser_key_action(key: &KeyEvent, remote: bool) -> (r: Option<BrowserKeyAction>)
    ensures
        r == browser_action(*key, remote),
{
    if !key.modifiers.is_empty() {
        return None;
    }
    match key.code {
        KeyCode::Esc => Some(BrowserKeyAction::Close),
        KeyCode::Up => Some(BrowserKeyAction::Up),
        KeyCode::Down => Some(BrowserKeyAction::Down),
        KeyCode::Left => Some(BrowserKeyAction::Parent),
        KeyCode::Right | KeyCode::Enter => Some(BrowserKeyAction::Enter),
        KeyCode::PageUp => Some(BrowserKeyAction::PageUp),
        KeyCode::PageDown => Some(BrowserKeyAction::PageDown),
        KeyCode::Home => Some(BrowserKeyAction::First),
        KeyCode::End => Some(BrowserKeyAction::Last),
        KeyCode::Char(c) => {
            if c == 'k' || c == 'w' {
                Some(BrowserKeyAction::Up)
            } else if c == 'j' || c == 's' {
                Some(BrowserKeyAction::Down)
            } else if c == 'h' || c == 'a' {
                Some(BrowserKeyAction::Parent)
            } else if c == 'l' || c == 'd' {
                Some(BrowserKeyAction::Enter)
            } else if c == '/' && !remote {
                Some(BrowserKeyAction::Search)
            } else {
                None
            }
        },
        _ => None,
    }
}

/// Which handler a key goes to.
#[derive(Debug, Clone, Copy, PartialEq, Eq, Structural)]
pub enum KeyRoute {
    /// Not a press: dropped.
    Ignore,
    /// The normal mode's handler.
    Normal,
    /// The file browser's.
    FileBrowser,
    /// The showing popup's.
    Popup,
    /// The health dashboard's.
    HealthDashboard,
}

/// Only presses are handled; a showing popup takes them, otherwise the
/// mode decides.
pub open spec fn key_route(key: KeyEvent, mode: AppMode, popup_showing: bool) -> KeyRoute {
    if key.kind != KeyEventKind::Press {
        KeyRoute::Ignore
    } else if popup_showing {
        KeyRoute::Popup
    } else {
        match mode {
            AppMode::Normal => KeyRoute::Normal,
            AppMode::FileBrowser => KeyRoute::FileBrowser,
            AppMode::HealthDashboard => KeyRoute::HealthDashboard,
        }
    }
}

impl App {
    /// Which handler `key` goes to in the current state.
    pub fn route_key(&self, key: &KeyEvent) -> (r: KeyRoute)
        ensures
            r == key_route(*key, self.mode, self.popup is Some),
    {
        if key.kind != KeyEventKind::Press {
            KeyRoute::Ignore
        } else if self.popup.is_some() {
            KeyRoute::Popup
        } else {
            match self.mode {
                AppMode::Normal => KeyRoute::Normal,
                AppMode::FileBrowser => KeyRoute::FileBrowser,
                AppMode::HealthDashboard => KeyRoute::HealthDashboard,
            }
        }
    }

    /// The pane that copy and paste act on: the focused one.
    pub fn clipboard_pane(&self) -> (r: FocusedPane)
        ensures
            r == self.layout.focused,
    {
        self.layout.focused
    }
}

/// What the editor copies: the selection when there is one, else the
/// cursor's line unless it is empty.
pub fn editor_copy_text(selection: Option<String>, line: String) -> (r: Option<String>)
    ensures
        selection is Some ==> r == selection,
        selection is None ==> (line@.len() == 0 ==> r is None) && (line@.len() > 0 ==> r == Some(
            line,
        )),
{
    match selection {
        Some(s) => Some(s),
        None => {
            if line.unicode_len() == 0 {
                None
            } else {
                Some(line)
            }
        },
    }
}

} // verus!
