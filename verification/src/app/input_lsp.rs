//! Keys while a language-server overlay is showing.

use crate::app::keys::{KeyCode, KeyEvent};
use crate::app::lsp_ops::{step_down, step_up};
use crate::app::state::{same_debug, App};
use crate::lsp::{preorder, references_total, CodeActionResult};
use crate::text::{concat2, concat3, pop_char, push_char};
use vstd::prelude::*;

verus! {

/// The overlay that receives keys, in the order they are looked at.
#[derive(Debug, Clone, Copy, PartialEq, Eq, Structural)]
pub enum LspOverlay {
    /// The references panel.
    References,
    /// The code actions popup.
    CodeActions,
    /// The document symbols panel.
    DocumentSymbols,
    /// The workspace symbols panel.
    WorkspaceSymbols,
    /// The rename input.
    Rename,
    /// The hover popup.
    Hover,
    /// Signature help.
    SignatureHelp,
}

/// What a key means to a list panel.
#[derive(Debug, Clone, Copy, PartialEq, Eq, Structural)]
pub enum PanelKey {
    /// Escape: close the panel.
    Close,
    /// Up (or `k`): previous row.
    Up,
    /// Down (or `j`): next row.
    Down,
    /// Enter: act on the selected row.
    Accept,
    /// Anything else, which the open panel swallows.
    Other,
}

/// The overlay that receives the next key, if one is showing.
pub open spec fn active_overlay(a: App) -> Option<LspOverlay> {
    if a.lsp_references is Some {
        Some(LspOverlay::References)
    } else if a.lsp_code_actions is Some {
        Some(LspOverlay::CodeActions)
    } else if a.lsp_document_symbols is Some {
        Some(LspOverlay::DocumentSymbols)
    } else if a.lsp_workspace_symbols is Some {
        Some(LspOverlay::WorkspaceSymbols)
    } else if a.lsp_rename_input is Some {
        Some(LspOverlay::Rename)
    } else if a.lsp_hover is Some {
        Some(LspOverlay::Hover)
    } else if a.lsp_signature_help is Some {
        Some(LspOverlay::SignatureHelp)
    } else {
        None
    }
}

/// A key as a list panel reads it; `letters` says whether `j` and `k`
/// move too.
pub open spec fn panel_key(code: KeyCode, letters: bool) -> PanelKey {
    match code {
        KeyCode::Esc => PanelKey::Close,
        KeyCode::Up => PanelKey::Up,
        KeyCode::Down => PanelKey::Down,
        KeyCode::Enter => PanelKey::Accept,
        KeyCode::Char(c) => if letters && c == 'k' {
            PanelKey::Up
        } else if letters && c == 'j' {
            PanelKey::Down
        } else {
            PanelKey::Other
        },
        _ => PanelKey::Other,
    }
}

/// Whether the overlay keeps the key: the panels and the rename input
/// swallow every key, a hover none, signature help only Escape.
pub open spec fn overlay_consumes(a: App, key: KeyEvent) -> bool {
    match active_overlay(a) {
        Some(LspOverlay::Hover) => false,
        Some(LspOverlay::SignatureHelp) => key.code == KeyCode::Esc,
        Some(_) => true,
        None => false,
    }
}

/// The status after applying code action `sel` of `actions`.
pub open spec fn code_action_status(
    actions: Seq<CodeActionResult>,
    sel: int,
    status: Seq<char>,
) -> Seq<char> {
    if 0 <= sel < actions.len() {
        if actions[sel].has_edit {
            "Applied: "@ + actions[sel].title@
        } else {
            "Action '"@ + actions[sel].title@ + "' has no edit to apply"@
        }
    } else {
        status
    }
}

/// The status after confirming a rename to `name`.
pub open spec fn rename_status(name: Seq<char>) -> Seq<char> {
    "Rename to '"@ + name + "' requested (requires LSP server)"@
}

/// A key as a list panel reads it.
pub fn panel_key_of(code: KeyCode, letters: bool) -> (r: PanelKey)
    ensures
        r == panel_key(code, letters),
{
    match code {
        KeyCode::Esc => PanelKey::Close,
        KeyCode::Up => PanelKey::Up,
        KeyCode::Down => PanelKey::Down,
        KeyCode::Enter => PanelKey::Accept,
        KeyCode::Char(c) => {
            if letters && c == 'k' {
                PanelKey::Up
            } else if letters && c == 'j' {
                PanelKey::Down
            } else {
                PanelKey::Other
            }
        },
        _ => PanelKey::Other,
    }
}

impl App {
    /// Handles a key while a language-server overlay shows; returns whether
    /// the overlay kept it. The references, code actions, symbols and
    /// workspace symbols panels move with Up and Down (and `j`/`k`, except
    /// workspace symbols), act with Enter and close with Escape; the rename
    /// input edits its text; a hover closes and lets the key through;
    /// signature help closes on Escape only.
    pub fn handle_lsp_overlay_key(&mut self, key: KeyEvent) -> (r: bool)
        requires
            old(self).has_lsp_overlay_spec(),
            old(self).wf(),
            old(self).lsp_references_selected < usize::MAX,
        ensures
            r == overlay_consumes(*old(self), key),
            final(self).wf(),
            same_debug(*old(self), *final(self)),
            active_overlay(*old(self)) == Some(LspOverlay::References) ==> ({
                let k = panel_key(key.code, true);
                &&& k == PanelKey::Close ==> final(self).lsp_references is None
                &&& k == PanelKey::Up ==> final(self).lsp_references_selected == step_up(
                    old(self).lsp_references_selected as int,
                ) && final(self).lsp_references == old(self).lsp_references
                &&& k == PanelKey::Down ==> final(self).lsp_references_selected == step_down(
                    old(self).lsp_references_selected as int,
                    references_total(old(self).lsp_references.unwrap()@),
                ) && final(self).lsp_references == old(self).lsp_references
                &&& k == PanelKey::Other ==> *final(self) == *old(self)
            }),
            active_overlay(*old(self)) == Some(LspOverlay::CodeActions) ==> ({
                let k = panel_key(key.code, true);
                let actions = old(self).lsp_code_actions.unwrap()@;
                &&& k == PanelKey::Close ==> final(self).lsp_code_actions is None
                &&& k == PanelKey::Up ==> final(self).lsp_code_action_selected == step_up(
                    old(self).lsp_code_action_selected as int,
                )
                &&& k == PanelKey::Down ==> final(self).lsp_code_action_selected == step_down(
                    old(self).lsp_code_action_selected as int,
                    actions.len() as int,
                )
                &&& k == PanelKey::Accept ==> final(self).lsp_code_actions is None
                    && final(self).lsp_code_action_selected == 0 && final(self).status@
                    == code_action_status(
                    actions,
                    old(self).lsp_code_action_selected as int,
                    old(self).status@,
                )
                &&& k == PanelKey::Other ==> *final(self) == *old(self)
            }),
            active_overlay(*old(self)) == Some(LspOverlay::DocumentSymbols) ==> ({
                let k = panel_key(key.code, true);
                &&& k == PanelKey::Close ==> final(self).lsp_document_symbols is None
                &&& k == PanelKey::Up ==> final(self).lsp_symbols_selected == step_up(
                    old(self).lsp_symbols_selected as int,
                )
                &&& k == PanelKey::Down ==> final(self).lsp_symbols_selected == step_down(
                    old(self).lsp_symbols_selected as int,
                    preorder(old(self).lsp_document_symbols.unwrap()@).len() as int,
                )
                &&& k == PanelKey::Other ==> *final(self) == *old(self)
            }),
            active_overlay(*old(self)) == Some(LspOverlay::WorkspaceSymbols) ==> ({
                let k = panel_key(key.code, false);
                &&& k == PanelKey::Close ==> final(self).lsp_workspace_symbols is None
                &&& k == PanelKey::Up ==> final(self).lsp_workspace_selected == step_up(
                    old(self).lsp_workspace_selected as int,
                )
                &&& k == PanelKey::Down ==> final(self).lsp_workspace_selected == step_down(
                    old(self).lsp_workspace_selected as int,
                    old(self).lsp_workspace_symbols.unwrap()@.len() as int,
                )
                &&& k == PanelKey::Other ==> *final(self) == *old(self)
            }),
            active_overlay(*old(self)) == Some(LspOverlay::Rename) ==> ({
                let input = old(self).lsp_rename_input.unwrap()@;
                &&& key.code == KeyCode::Esc ==> final(self).lsp_rename_input is None
                    && final(self).lsp_rename_range is None
                &&& key.code == KeyCode::Enter ==> final(self).lsp_rename_input is None
                    && final(self).lsp_rename_range is None && (input.len() > 0 ==> final(
                    self).status@ == rename_status(input)) && (input.len() == 0 ==> final(
                    self).status == old(self).status)
                &&& key.code == KeyCode::Backspace ==> (final(self).lsp_rename_input matches Some(
                    s) && s@ == (if input.len() > 0 {
                    input.drop_last()
                } else {
                    input
                }))
                &&& key.code matches KeyCode::Char(c) ==> (final(self).lsp_rename_input matches Some(
                    s) && s@ == input.push(c))
                &&& !(key.code == KeyCode::Esc || key.code == KeyCode::Enter || key.code
                    == KeyCode::Backspace || key.code is Char) ==> *final(self) == *old(self)
            }),
            active_overlay(*old(self)) == Some(LspOverlay::Hover) ==> *final(self) == (App {
                lsp_hover: None,
                ..*old(self)
            }),
            active_overlay(*old(self)) == Some(LspOverlay::SignatureHelp) ==> (key.code
                == KeyCode::Esc ==> *final(self) == (App { lsp_signature_help: None, ..*old(self) }))
                && (key.code != KeyCode::Esc ==> *final(self) == *old(self)),
    {
        if self.lsp_references.is_some() {
            return self.handle_lsp_references_key(key);
        }
        if self.lsp_code_actions.is_some() {
            return self.handle_lsp_code_actions_key(key);
        }
        if self.lsp_document_symbols.is_some() {
            return self.handle_lsp_symbols_key(key);
        }
        if self.lsp_workspace_symbols.is_some() {
            return self.handle_lsp_workspace_symbols_key(key);
        }
        if self.lsp_rename_input.is_some() {
            return self.handle_lsp_rename_key(key);
        }
        if self.lsp_hover.is_some() {
            self.lsp_hover = None;
            return false;
        }
        if key.code == KeyCode::Esc {
            self.lsp_signature_help = None;
            return true;
        }
        false
    }

    /// Keys for the references panel.
    fn handle_lsp_references_key(&mut self, key: KeyEvent) -> (r: bool)
        requires
            old(self).lsp_references is Some,
            old(self).wf(),
            old(self).lsp_references_selected < usize::MAX,
        ensures
            r,
            final(self).wf(),
            same_debug(*old(self), *final(self)),
            ({
                let k = panel_key(key.code, true);
                &&& k == PanelKey::Close ==> final(self).lsp_references is None
                &&& k == PanelKey::Up ==> final(self).lsp_references_selected == step_up(
                    old(self).lsp_references_selected as int,
                ) && final(self).lsp_references == old(self).lsp_references
                &&& k == PanelKey::Down ==> final(self).lsp_references_selected == step_down(
                    old(self).lsp_references_selected as int,
                    references_total(old(self).lsp_references.unwrap()@),
                ) && final(self).lsp_references == old(self).lsp_references
                &&& k == PanelKey::Other ==> *final(self) == *old(self)
            }),
    {
        match panel_key_of(key.code, true) {
            PanelKey::Close => self.dismiss_references(),
            PanelKey::Up => self.references_up(),
            PanelKey::Down => self.references_down(),
            PanelKey::Accept => self.goto_selected_reference(),
            PanelKey::Other => {},
        }
        true
    }

    /// Keys for the code actions popup.
    fn handle_lsp_code_actions_key(&mut self, key: KeyEvent) -> (r: bool)
        requires
            old(self).lsp_code_actions is Some,
        ensures
            r,
            final(self).open_files == old(self).open_files,
            final(self).current_file_idx == old(self).current_file_idx,
            same_debug(*old(self), *final(self)),
            ({
                let k = panel_key(key.code, true);
                let actions = old(self).lsp_code_actions.unwrap()@;
                &&& k == PanelKey::Close ==> final(self).lsp_code_actions is None
                &&& k == PanelKey::Up ==> final(self).lsp_code_action_selected == step_up(
                    old(self).lsp_code_action_selected as int,
                )
                &&& k == PanelKey::Down ==> final(self).lsp_code_action_selected == step_down(
                    old(self).lsp_code_action_selected as int,
                    actions.len() as int,
                )
                &&& k == PanelKey::Accept ==> final(self).lsp_code_actions is None
                    && final(self).lsp_code_action_selected == 0 && final(self).status@
                    == code_action_status(
                    actions,
                    old(self).lsp_code_action_selected as int,
                    old(self).status@,
                )
                &&& k == PanelKey::Other ==> *final(self) == *old(self)
            }),
    {
        match panel_key_of(key.code, true) {
            PanelKey::Close => self.dismiss_code_actions(),
            PanelKey::Up => self.code_actions_up(),
            PanelKey::Down => self.code_actions_down(),
            PanelKey::Accept => self.apply_selected_code_action(),
            PanelKey::Other => {},
        }
        true
    }

    /// Keys for the document symbols panel.
    fn handle_lsp_symbols_key(&mut self, key: KeyEvent) -> (r: bool)
        requires
            old(self).lsp_document_symbols is Some,
        ensures
            r,
            final(self).open_files == old(self).open_files,
            final(self).current_file_idx == old(self).current_file_idx,
            same_debug(*old(self), *final(self)),
            ({
                let k = panel_key(key.code, true);
                &&& k == PanelKey::Close ==> final(self).lsp_document_symbols is None
                &&& k == PanelKey::Up ==> final(self).lsp_symbols_selected == step_up(
                    old(self).lsp_symbols_selected as int,
                )
                &&& k == PanelKey::Down ==> final(self).lsp_symbols_selected == step_down(
                    old(self).lsp_symbols_selected as int,
                    preorder(old(self).lsp_document_symbols.unwrap()@).len() as int,
                )
                &&& k == PanelKey::Other ==> *final(self) == *old(self)
            }),
    {
        match panel_key_of(key.code, true) {
            PanelKey::Close => self.dismiss_document_symbols(),
            PanelKey::Up => self.symbols_up(),
            PanelKey::Down => self.symbols_down(),
            PanelKey::Accept => self.goto_selected_symbol(),
            PanelKey::Other => {},
        }
        true
    }

    /// Keys for the workspace symbols panel (arrows only: letters are the
    /// search text).
    fn handle_lsp_workspace_symbols_key(&mut self, key: KeyEvent) -> (r: bool)
        requires
            old(self).lsp_workspace_symbols is Some,
            old(self).wf(),
        ensures
            r,
            final(self).wf(),
            same_debug(*old(self), *final(self)),
            ({
                let k = panel_key(key.code, false);
                &&& k == PanelKey::Close ==> final(self).lsp_workspace_symbols is None
                &&& k == PanelKey::Up ==> final(self).lsp_workspace_selected == step_up(
                    old(self).lsp_workspace_selected as int,
                )
                &&& k == PanelKey::Down ==> final(self).lsp_workspace_selected == step_down(
                    old(self).lsp_workspace_selected as int,
                    old(self).lsp_workspace_symbols.unwrap()@.len() as int,
                )
                &&& k == PanelKey::Other ==> *final(self) == *old(self)
            }),
    {
        match panel_key_of(key.code, false) {
            PanelKey::Close => self.dismiss_workspace_symbols(),
            PanelKey::Up => self.workspace_symbols_up(),
            PanelKey::Down => self.workspace_symbols_down(),
            PanelKey::Accept => self.goto_selected_workspace_symbol(),
            PanelKey::Other => {},
        }
        true
    }

    /// Keys for the rename input.
    fn handle_lsp_rename_key(&mut self, key: KeyEvent) -> (r: bool)
        requires
            old(self).lsp_rename_input is Some,
        ensures
            r,
            final(self).open_files == old(self).open_files,
            final(self).current_file_idx == old(self).current_file_idx,
            same_debug(*old(self), *final(self)),
            ({
                let input = old(self).lsp_rename_input.unwrap()@;
                &&& key.code == KeyCode::Esc ==> final(self).lsp_rename_input is None
                    && final(self).lsp_rename_range is None
                &&& key.code == KeyCode::Enter ==> final(self).lsp_rename_input is None
                    && final(self).lsp_rename_range is None && (input.len() > 0 ==> final(
                    self).status@ == rename_status(input)) && (input.len() == 0 ==> final(
                    self).status == old(self).status)
                &&& key.code == KeyCode::Backspace ==> (final(self).lsp_rename_input matches Some(
                    s) && s@ == (if input.len() > 0 {
                    input.drop_last()
                } else {
                    input
                }))
                &&& key.code matches KeyCode::Char(c) ==> (final(self).lsp_rename_input matches Some(
                    s) && s@ == input.push(c))
                &&& !(key.code == KeyCode::Esc || key.code == KeyCode::Enter || key.code
                    == KeyCode::Backspace || key.code is Char) ==> *final(self) == *old(self)
            }),
    {
        match key.code {
            KeyCode::Esc => self.dismiss_rename(),
            KeyCode::Enter => self.confirm_rename(),
            KeyCode::Backspace => {
                let mut input = self.lsp_rename_input.take().unwrap();
                let _ = pop_char(&mut input);
                self.lsp_rename_input = Some(input);
            },
            KeyCode::Char(c) => {
                let mut input = self.lsp_rename_input.take().unwrap();
                push_char(&mut input, c);
                self.lsp_rename_input = Some(input);
            },
            _ => {},
        }
        true
    }

    /// Applies the selected code action: closes the popup, resets the
    /// selection and reports whether the action had an edit.
    fn apply_selected_code_action(&mut self)
        requires
            old(self).lsp_code_actions is Some,
        ensures
            final(self).lsp_code_actions is None,
            final(self).lsp_code_action_selected == 0,
            final(self).status@ == code_action_status(
                old(self).lsp_code_actions.unwrap()@,
                old(self).lsp_code_action_selected as int,
                old(self).status@,
            ),
            final(self).open_files == old(self).open_files,
            final(self).current_file_idx == old(self).current_file_idx,
            same_debug(*old(self), *final(self)),
    {
        let actions = self.lsp_code_actions.take().unwrap();
        let selected = self.lsp_code_action_selected;
        self.lsp_code_action_selected = 0;
        if selected < actions.len() {
            let action = &actions[selected];
            if action.has_edit {
                self.set_status(concat2("Applied: ", action.title.as_str()));
            } else {
                self.set_status(
                    concat3("Action '", action.title.as_str(), "' has no edit to apply"),
                );
            }
        }
    }

    /// Confirms the rename: an empty name only closes the input.
    fn confirm_rename(&mut self)
        requires
            old(self).lsp_rename_input is Some,
        ensures
            final(self).lsp_rename_input is None,
            final(self).lsp_rename_range is None,
            old(self).lsp_rename_input.unwrap()@.len() > 0 ==> final(self).status@ == rename_status(
                old(self).lsp_rename_input.unwrap()@,
            ),
            old(self).lsp_rename_input.unwrap()@.len() == 0 ==> final(self).status == old(
                self).status,
            final(self).open_files == old(self).open_files,
            final(self).current_file_idx == old(self).current_file_idx,
            same_debug(*old(self), *final(self)),
    {
        let name = self.lsp_rename_input.take().unwrap();
        if name.as_str().unicode_len() == 0 {
            self.dismiss_rename();
            return;
        }
        self.lsp_rename_range = None;
        self.set_status(
            concat3("Rename to '", name.as_str(), "' requested (requires LSP server)"),
        );
    }
}

} // verus!
