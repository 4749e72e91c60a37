//! Language-server panel operations on the application state: dismissing
//! popups, moving through lists, and jumping to what is selected.

use crate::app::state::{same_debug, same_files, same_lsp, same_view, App, OpenFile};
use crate::lsp::{
    derefs, flatten_symbols, index_to_group_location, preorder, references_total,
    diagnostics_total, DiagnosticInfo,
};
use crate::text::{concat2, str_eq};
use vstd::prelude::*;

verus! {

/// One step up a list: stops at the first row.
pub open spec fn step_up(selected: int) -> int {
    if selected > 0 {
        selected - 1
    } else {
        selected
    }
}

/// One step down a list of `total` rows: stops at the last row.
pub open spec fn step_down(selected: int, total: int) -> int {
    if selected + 1 < total {
        selected + 1
    } else {
        selected
    }
}

/// The last path component, as `Path::file_name` gives it for a plain path:
/// what follows the last `/` or `\`, when that is not empty.
pub open spec fn file_name(p: Seq<char>) -> Option<Seq<char>> {
    if exists|i: int| 0 <= i < p.len() && (p[i] == '/' || p[i] == '\\') {
        let i = choose|i: int|
            0 <= i < p.len() && (p[i] == '/' || p[i] == '\\') && forall|j: int|
                i < j < p.len() ==> p[j] != '/' && p[j] != '\\';
        if i + 1 < p.len() {
            Some(p.skip(i + 1))
        } else {
            None
        }
    } else if p.len() > 0 {
        Some(p)
    } else {
        None
    }
}

/// The last component of a path.
pub fn path_file_name(p: &str) -> (r: Option<String>)
    ensures
        match file_name(p@) {
            Some(n) => r matches Some(s) && s@ == n,
            None => r is None,
        },
{
    let n = p.unicode_len();
    let mut i: usize = n;
    while i > 0 && p.get_char(i - 1) != '/' && p.get_char(i - 1) != '\\'
        invariant
            n == p@.len(),
            i <= n,
            forall|j: int| i <= j < n ==> p@[j] != '/' && p@[j] != '\\',
        decreases i,
    {
        i = i - 1;
    }
    if i == 0 {
        if n > 0 {
            assert(p@.skip(0) =~= p@);
            return Some(p.to_owned());
        } else {
            return None;
        }
    }
    proof {
        let k = (i - 1) as int;
        assert(p@[k] == '/' || p@[k] == '\\');
        let w = choose|w: int|
            0 <= w < p@.len() && (p@[w] == '/' || p@[w] == '\\') && forall|j: int|
                w < j < p@.len() ==> p@[j] != '/' && p@[j] != '\\';
        assert(w == k) by {
            if w < k {
                assert(p@[k] != '/' && p@[k] != '\\');
            } else if w > k {
            }
        }
    }
    if i < n {
        let s = p.substring_char(i, n);
        assert(s@ =~= p@.skip(i as int));
        Some(s.to_owned())
    } else {
        None
    }
}

impl App {
    /// Dismisses the current hover popup.
    pub fn dismiss_hover(&mut self)
        ensures
            final(self).lsp_hover is None,
            same_lsp((App { lsp_hover: None, ..*old(self) }), *final(self)),
            final(self).status == old(self).status,
            same_files(*old(self), *final(self)),
            same_debug(*old(self), *final(self)),
            same_view(*old(self), *final(self)),
    {
        self.lsp_hover = None;
    }

    /// Dismisses the references panel, resetting its selection and scroll.
    pub fn dismiss_references(&mut self)
        ensures
            final(self).lsp_references is None,
            final(self).lsp_references_selected == 0,
            final(self).lsp_references_scroll == 0,
            same_lsp((App { lsp_references: None, lsp_references_selected: 0, lsp_references_scroll: 0, ..*old(self) }), *final(self)),
            final(self).status == old(self).status,
            same_files(*old(self), *final(self)),
            same_debug(*old(self), *final(self)),
            same_view(*old(self), *final(self)),
    {
        self.lsp_references = None;
        self.lsp_references_selected = 0;
        self.lsp_references_scroll = 0;
    }

    /// Dismisses the code actions popup, resetting its selection.
    pub fn dismiss_code_actions(&mut self)
        ensures
            final(self).lsp_code_actions is None,
            final(self).lsp_code_action_selected == 0,
            same_lsp((App { lsp_code_actions: None, lsp_code_action_selected: 0, ..*old(self) }), *final(self)),
            final(self).status == old(self).status,
            same_files(*old(self), *final(self)),
            same_debug(*old(self), *final(self)),
            same_view(*old(self), *final(self)),
    {
        self.lsp_code_actions = None;
        self.lsp_code_action_selected = 0;
    }

    /// Dismisses signature help.
    pub fn dismiss_signature_help(&mut self)
        ensures
            final(self).lsp_signature_help is None,
            same_lsp((App { lsp_signature_help: None, ..*old(self) }), *final(self)),
            final(self).status == old(self).status,
            same_files(*old(self), *final(self)),
            same_debug(*old(self), *final(self)),
            same_view(*old(self), *final(self)),
    {
        self.lsp_signature_help = None;
    }

    /// Dismisses the document symbols panel, resetting selection and scroll.
    pub fn dismiss_document_symbols(&mut self)
        ensures
            final(self).lsp_document_symbols is None,
            final(self).lsp_symbols_selected == 0,
            final(self).lsp_symbols_scroll == 0,
            same_lsp((App { lsp_document_symbols: None, lsp_symbols_selected: 0, lsp_symbols_scroll: 0, ..*old(self) }), *final(self)),
            final(self).status == old(self).status,
            same_files(*old(self), *final(self)),
            same_debug(*old(self), *final(self)),
            same_view(*old(self), *final(self)),
    {
        self.lsp_document_symbols = None;
        self.lsp_symbols_selected = 0;
        self.lsp_symbols_scroll = 0;
    }

    /// Dismisses the workspace symbols panel, clearing the query and
    /// resetting the selection.
    pub fn dismiss_workspace_symbols(&mut self)
        ensures
            final(self).lsp_workspace_symbols is None,
            final(self).lsp_workspace_query@.len() == 0,
            final(self).lsp_workspace_selected == 0,
            same_lsp((App { lsp_workspace_symbols: None, lsp_workspace_query: final(self).lsp_workspace_query, lsp_workspace_selected: 0, ..*old(self) }), *final(self)),
            final(self).status == old(self).status,
            same_files(*old(self), *final(self)),
            same_debug(*old(self), *final(self)),
            same_view(*old(self), *final(self)),
    {
        self.lsp_workspace_symbols = None;
        self.lsp_workspace_query = String::new();
        self.lsp_workspace_selected = 0;
    }

    /// Dismisses the rename input.
    pub fn dismiss_rename(&mut self)
        ensures
            final(self).lsp_rename_input is None,
            final(self).lsp_rename_range is None,
            same_lsp((App { lsp_rename_input: None, lsp_rename_range: None, ..*old(self) }), *final(self)),
            final(self).status == old(self).status,
            same_files(*old(self), *final(self)),
            same_debug(*old(self), *final(self)),
            same_view(*old(self), *final(self)),
    {
        self.lsp_rename_input = None;
        self.lsp_rename_range = None;
    }

    /// Toggles the diagnostics panel; opening it selects the first row.
    pub fn toggle_diagnostics_panel(&mut self)
        ensures
            final(self).lsp_diagnostics_panel_visible == !old(self).lsp_diagnostics_panel_visible,
            final(self).lsp_diagnostics_panel_visible ==> final(self).lsp_diagnostics_selected == 0
                && final(self).lsp_diagnostics_scroll == 0,
            !final(self).lsp_diagnostics_panel_visible ==> final(self).lsp_diagnostics_selected
                == old(self).lsp_diagnostics_selected && final(self).lsp_diagnostics_scroll == old(self).lsp_diagnostics_scroll,
            same_lsp((App { lsp_diagnostics_panel_visible: final(self).lsp_diagnostics_panel_visible, lsp_diagnostics_selected: final(self).lsp_diagnostics_selected, lsp_diagnostics_scroll: final(self).lsp_diagnostics_scroll, ..*old(self) }), *final(self)),
            final(self).status == old(self).status,
            same_files(*old(self), *final(self)),
            same_debug(*old(self), *final(self)),
            same_view(*old(self), *final(self)),
    {
        self.lsp_diagnostics_panel_visible = !self.lsp_diagnostics_panel_visible;
        if self.lsp_diagnostics_panel_visible {
            self.lsp_diagnostics_selected = 0;
            self.lsp_diagnostics_scroll = 0;
        }
    }

    /// Returns whether any language-server overlay is showing.
    pub fn has_lsp_overlay(&self) -> (r: bool)
        ensures
            r == (self.lsp_hover is Some || self.lsp_references is Some
                || self.lsp_code_actions is Some || self.lsp_signature_help is Some
                || self.lsp_document_symbols is Some || self.lsp_workspace_symbols is Some
                || self.lsp_rename_input is Some),
    {
        self.lsp_hover.is_some() || self.lsp_references.is_some() || self.lsp_code_actions.is_some()
            || self.lsp_signature_help.is_some() || self.lsp_document_symbols.is_some()
            || self.lsp_workspace_symbols.is_some() || self.lsp_rename_input.is_some()
    }

    /// Dismisses every language-server overlay; the diagnostics panel stays.
    pub fn dismiss_all_lsp_overlays(&mut self)
        ensures
            !final(self).has_lsp_overlay_spec(),
            final(self).lsp_references_selected == 0,
            final(self).lsp_code_action_selected == 0,
            final(self).lsp_symbols_selected == 0,
            final(self).lsp_workspace_selected == 0,
            final(self).lsp_diagnostics_panel_visible == old(self).lsp_diagnostics_panel_visible,
            final(self).lsp_diagnostics_selected == old(self).lsp_diagnostics_selected,
            final(self).diagnostic_store == old(self).diagnostic_store,
            final(self).status == old(self).status,
            same_files(*old(self), *final(self)),
            same_debug(*old(self), *final(self)),
            same_view(*old(self), *final(self)),
    {
        self.dismiss_hover();
        self.dismiss_references();
        self.dismiss_code_actions();
        self.dismiss_signature_help();
        self.dismiss_document_symbols();
        self.dismiss_workspace_symbols();
        self.dismiss_rename();
    }

    /// Whether any language-server overlay is showing.
    pub open spec fn has_lsp_overlay_spec(&self) -> bool {
        self.lsp_hover is Some || self.lsp_references is Some || self.lsp_code_actions is Some
            || self.lsp_signature_help is Some || self.lsp_document_symbols is Some
            || self.lsp_workspace_symbols is Some || self.lsp_rename_input is Some
    }

    /// Moves up the references list.
    pub fn references_up(&mut self)
        ensures
            final(self).lsp_references_selected == step_up(old(self).lsp_references_selected as int),
            same_lsp((App { lsp_references_selected: final(self).lsp_references_selected, ..*old(self) }), *final(self)),
            final(self).status == old(self).status,
            same_files(*old(self), *final(self)),
            same_debug(*old(self), *final(self)),
            same_view(*old(self), *final(self)),
    {
        if self.lsp_references_selected > 0 {
            self.lsp_references_selected = self.lsp_references_selected - 1;
        }
    }

    /// Moves down the references list, counting locations across groups;
    /// nothing happens while the panel is closed.
    pub fn references_down(&mut self)
        requires
            old(self).lsp_references_selected < usize::MAX,
        ensures
            final(self).lsp_references_selected == match old(self).lsp_references {
                Some(g) => step_down(
                    old(self).lsp_references_selected as int,
                    references_total(g@),
                ),
                None => old(self).lsp_references_selected as int,
            },
            same_lsp((App { lsp_references_selected: final(self).lsp_references_selected, ..*old(self) }), *final(self)),
            final(self).status == old(self).status,
            same_files(*old(self), *final(self)),
            same_debug(*old(self), *final(self)),
            same_view(*old(self), *final(self)),
    {
        let next = match &self.lsp_references {
            Some(groups) => {
                let sel = self.lsp_references_selected;
                if index_to_group_location(groups, sel + 1).is_some() {
                    sel + 1
                } else {
                    sel
                }
            },
            None => self.lsp_references_selected,
        };
        self.lsp_references_selected = next;
    }

    /// Moves up the code actions.
    pub fn code_actions_up(&mut self)
        ensures
            final(self).lsp_code_action_selected == step_up(
                old(self).lsp_code_action_selected as int,
            ),
            same_lsp((App { lsp_code_action_selected: final(self).lsp_code_action_selected, ..*old(self) }), *final(self)),
            final(self).status == old(self).status,
            same_files(*old(self), *final(self)),
            same_debug(*old(self), *final(self)),
            same_view(*old(self), *final(self)),
    {
        if self.lsp_code_action_selected > 0 {
            self.lsp_code_action_selected = self.lsp_code_action_selected - 1;
        }
    }

    /// Moves down the code actions; nothing happens while none are shown.
    pub fn code_actions_down(&mut self)
        ensures
            final(self).lsp_code_action_selected == match old(self).lsp_code_actions {
                Some(v) => step_down(old(self).lsp_code_action_selected as int, v@.len() as int),
                None => old(self).lsp_code_action_selected as int,
            },
            same_lsp((App { lsp_code_action_selected: final(self).lsp_code_action_selected, ..*old(self) }), *final(self)),
            final(self).status == old(self).status,
            same_files(*old(self), *final(self)),
            same_debug(*old(self), *final(self)),
            same_view(*old(self), *final(self)),
    {
        let next = match &self.lsp_code_actions {
            Some(actions) => {
                let sel = self.lsp_code_action_selected;
                if actions.len() > 0 && sel < actions.len() - 1 {
                    sel + 1
                } else {
                    sel
                }
            },
            None => self.lsp_code_action_selected,
        };
        self.lsp_code_action_selected = next;
    }

    /// Moves up the document symbols.
    pub fn symbols_up(&mut self)
        ensures
            final(self).lsp_symbols_selected == step_up(old(self).lsp_symbols_selected as int),
            same_lsp((App { lsp_symbols_selected: final(self).lsp_symbols_selected, ..*old(self) }), *final(self)),
            final(self).status == old(self).status,
            same_files(*old(self), *final(self)),
            same_debug(*old(self), *final(self)),
            same_view(*old(self), *final(self)),
    {
        if self.lsp_symbols_selected > 0 {
            self.lsp_symbols_selected = self.lsp_symbols_selected - 1;
        }
    }

    /// Moves down the document symbols, counted in pre-order (nested symbols
    /// included); nothing happens while the panel is closed.
    pub fn symbols_down(&mut self)
        ensures
            final(self).lsp_symbols_selected == match old(self).lsp_document_symbols {
                Some(v) => step_down(
                    old(self).lsp_symbols_selected as int,
                    preorder(v@).len() as int,
                ),
                None => old(self).lsp_symbols_selected as int,
            },
            same_lsp((App { lsp_symbols_selected: final(self).lsp_symbols_selected, ..*old(self) }), *final(self)),
            final(self).status == old(self).status,
            same_files(*old(self), *final(self)),
            same_debug(*old(self), *final(self)),
            same_view(*old(self), *final(self)),
    {
        let next = match &self.lsp_document_symbols {
            Some(symbols) => {
                let flat = flatten_symbols(symbols);
                let total = flat.len();
                assert(derefs(flat@).len() == flat@.len());
                let sel = self.lsp_symbols_selected;
                if total > 0 && sel < total - 1 {
                    sel + 1
                } else {
                    sel
                }
            },
            None => self.lsp_symbols_selected,
        };
        self.lsp_symbols_selected = next;
    }

    /// Moves up the workspace symbols.
    pub fn workspace_symbols_up(&mut self)
        ensures
            final(self).lsp_workspace_selected == step_up(old(self).lsp_workspace_selected as int),
            same_lsp((App { lsp_workspace_selected: final(self).lsp_workspace_selected, ..*old(self) }), *final(self)),
            final(self).status == old(self).status,
            same_files(*old(self), *final(self)),
            same_debug(*old(self), *final(self)),
            same_view(*old(self), *final(self)),
    {
        if self.lsp_workspace_selected > 0 {
            self.lsp_workspace_selected = self.lsp_workspace_selected - 1;
        }
    }

    /// Moves down the workspace symbols; nothing happens while none are
    /// shown.
    pub fn workspace_symbols_down(&mut self)
        ensures
            final(self).lsp_workspace_selected == match old(self).lsp_workspace_symbols {
                Some(v) => step_down(old(self).lsp_workspace_selected as int, v@.len() as int),
                None => old(self).lsp_workspace_selected as int,
            },
            same_lsp((App { lsp_workspace_selected: final(self).lsp_workspace_selected, ..*old(self) }), *final(self)),
            final(self).status == old(self).status,
            same_files(*old(self), *final(self)),
            same_debug(*old(self), *final(self)),
            same_view(*old(self), *final(self)),
    {
        let next = match &self.lsp_workspace_symbols {
            Some(symbols) => {
                let sel = self.lsp_workspace_selected;
                if symbols.len() > 0 && sel < symbols.len() - 1 {
                    sel + 1
                } else {
                    sel
                }
            },
            None => self.lsp_workspace_selected,
        };
        self.lsp_workspace_selected = next;
    }

    /// Moves up the diagnostics list.
    pub fn diagnostics_up(&mut self)
        ensures
            final(self).lsp_diagnostics_selected == step_up(
                old(self).lsp_diagnostics_selected as int,
            ),
            same_lsp((App { lsp_diagnostics_selected: final(self).lsp_diagnostics_selected, ..*old(self) }), *final(self)),
            final(self).status == old(self).status,
            same_files(*old(self), *final(self)),
            same_debug(*old(self), *final(self)),
            same_view(*old(self), *final(self)),
    {
        if self.lsp_diagnostics_selected > 0 {
            self.lsp_diagnostics_selected = self.lsp_diagnostics_selected - 1;
        }
    }

    /// Moves down the diagnostics list, which holds every file's
    /// diagnostics (fewer than `usize::MAX` in all, as memory bounds them).
    pub fn diagnostics_down(&mut self)
        requires
            diagnostics_total(old(self).diagnostic_store.files@) <= usize::MAX,
        ensures
            final(self).lsp_diagnostics_selected == step_down(
                old(self).lsp_diagnostics_selected as int,
                diagnostics_total(old(self).diagnostic_store.files@),
            ),
            same_lsp((App { lsp_diagnostics_selected: final(self).lsp_diagnostics_selected, ..*old(self) }), *final(self)),
            final(self).status == old(self).status,
            same_files(*old(self), *final(self)),
            same_debug(*old(self), *final(self)),
            same_view(*old(self), *final(self)),
    {
        let total = self.diagnostic_store.total_count();
        let sel = self.lsp_diagnostics_selected;
        if total > 0 && sel < total - 1 {
            self.lsp_diagnostics_selected = sel + 1;
        }
    }

    /// Opens `path` (or switches to its tab) and moves the cursor to `line`.
    ///
    /// A file already open becomes the current tab, reloaded into the
    /// editor if the editor shows something else; a new file gets a tab at
    /// the end, named after its last component (or "untitled").
    pub fn open_file_at_line(&mut self, path: &str, line: usize)
        requires
            old(self).wf(),
        ensures
            final(self).wf(),
            final(self).editor.cursor_line == line,
            final(self).editor.path matches Some(p) && p@ == path@,
            final(self).current_file_idx < final(self).open_files@.len(),
            final(self).open_files@[final(self).current_file_idx as int].path@ == path@,
            (exists|i: int| 0 <= i < old(self).open_files@.len() && (#[trigger] old(self).open_files@[i]).path@ == path@) ==> final(self).open_files == old(self).open_files,
            !(exists|i: int| 0 <= i < old(self).open_files@.len() && (#[trigger] old(self).open_files@[i]).path@ == path@) ==> final(self).open_files@.len() == old(self).open_files@.len() + 1 && final(self).open_files@.drop_last() == old(self).open_files@ && final(self).open_files@.last().name@ == match file_name(path@) {
                Some(n) => n,
                None => "untitled"@,
            },
            same_lsp(*old(self), *final(self)),
            same_debug(*old(self), *final(self)),
            same_view(*old(self), *final(self)),
            final(self).status == old(self).status,
    {
        let n = self.open_files.len();
        let mut i: usize = 0;
        let mut found = false;
        while i < n && !found
            invariant
                n == self.open_files@.len(),
                i <= n,
                found ==> i < n && self.open_files@[i as int].path@ == path@,
                forall|j: int| 0 <= j < i ==> (#[trigger] self.open_files@[j]).path@ != path@,
            decreases n - i + (if found {
                0int
            } else {
                1int
            }),
        {
            if str_eq(self.open_files[i].path.as_str(), path) {
                found = true;
            } else {
                i = i + 1;
            }
        }
        if found {
            self.current_file_idx = i;
            let same = match &self.editor.path {
                Some(p) => str_eq(p.as_str(), path),
                None => false,
            };
            if !same {
                self.editor.open(path);
            }
        } else {
            proof {
                assert(!(exists|j: int| 0 <= j < self.open_files@.len() && (#[trigger] self.open_files@[j]).path@ == path@));
            }
            self.editor.open(path);
            let name = match path_file_name(path) {
                Some(n) => n,
                None => "untitled".to_owned(),
            };
            self.open_files.push(OpenFile { path: path.to_owned(), name });
            self.current_file_idx = self.open_files.len() - 1;
        }
        self.editor.goto_line(line);
    }

    /// Jumps to the selected reference: closes the panel and opens its file
    /// at its line. Nothing happens while the panel is closed or when the
    /// selection is past the last reference.
    pub fn goto_selected_reference(&mut self)
        requires
            old(self).wf(),
        ensures
            final(self).wf(),
            (old(self).lsp_references is None || old(self).lsp_references_selected
                >= references_total(old(self).lsp_references.unwrap()@)) ==> (same_files(
                *old(self),
                *final(self),
            ) && final(self).lsp_references == old(self).lsp_references),
            (old(self).lsp_references is Some && old(self).lsp_references_selected
                < references_total(old(self).lsp_references.unwrap()@)) ==> (final(self).lsp_references is None && final(self).editor.path is Some && exists|g: int, l: int|
                0 <= g < old(self).lsp_references.unwrap()@.len() && 0 <= l < old(self).lsp_references.unwrap()@[g].locations@.len() && references_total(
                    old(self).lsp_references.unwrap()@.take(g),
                ) + l == old(self).lsp_references_selected && final(self).editor.path.unwrap()@
                    == old(self).lsp_references.unwrap()@[g].path@ && final(self).editor.cursor_line
                    == old(self).lsp_references.unwrap()@[g].locations@[l].line),
            same_debug(*old(self), *final(self)),
            same_view(*old(self), *final(self)),
    {
        let (path, line) = match &self.lsp_references {
            Some(groups) => match index_to_group_location(groups, self.lsp_references_selected) {
                Some((gi, li)) => {
                    let group = &groups[gi];
                    (group.path.clone(), group.locations[li].line as usize)
                },
                None => {
                    return;
                },
            },
            None => {
                return;
            },
        };
        self.dismiss_references();
        self.open_file_at_line(path.as_str(), line);
    }

    /// Jumps to the selected document symbol: closes the panel, moves the
    /// cursor to the symbol's line and says so in the status bar. Nothing
    /// happens while the panel is closed or the selection is past the end.
    pub fn goto_selected_symbol(&mut self)
        ensures
            (old(self).lsp_document_symbols is None || old(self).lsp_symbols_selected >= preorder(
                old(self).lsp_document_symbols.unwrap()@,
            ).len()) ==> (same_files(*old(self), *final(self)) && final(self).status == old(self).status && final(self).lsp_document_symbols == old(self).lsp_document_symbols),
            (old(self).lsp_document_symbols is Some && old(self).lsp_symbols_selected < preorder(
                old(self).lsp_document_symbols.unwrap()@,
            ).len()) ==> ({
                let s = preorder(
                    old(self).lsp_document_symbols.unwrap()@,
                )[old(self).lsp_symbols_selected as int];
                &&& final(self).lsp_document_symbols is None
                &&& final(self).editor.cursor_line == s.selection_start_line
                &&& final(self).editor.path == old(self).editor.path
                &&& final(self).open_files == old(self).open_files
                &&& final(self).current_file_idx == old(self).current_file_idx
                &&& final(self).status@ == "Jumped to "@ + s.name@
            }),
            same_debug(*old(self), *final(self)),
            same_view(*old(self), *final(self)),
    {
        let (line, name) = match &self.lsp_document_symbols {
            Some(symbols) => {
                let flat = flatten_symbols(symbols);
                let sel = self.lsp_symbols_selected;
                if sel < flat.len() {
                    let s = flat[sel];
                    assert(*s == derefs(flat@)[sel as int]);
                    (s.selection_start_line as usize, s.name.clone())
                } else {
                    return;
                }
            },
            None => {
                return;
            },
        };
        self.dismiss_document_symbols();
        self.editor.goto_line(line);
        self.set_status(concat2("Jumped to ", name.as_str()));
    }

    /// Jumps to the selected workspace symbol: closes the panel and opens
    /// its file at its line. Nothing happens while the panel is closed or
    /// the selection is past the end.
    pub fn goto_selected_workspace_symbol(&mut self)
        requires
            old(self).wf(),
        ensures
            final(self).wf(),
            (old(self).lsp_workspace_symbols is None || old(self).lsp_workspace_selected >= old(self).lsp_workspace_symbols.unwrap()@.len()) ==> (same_files(*old(self), *final(self))
                && final(self).lsp_workspace_symbols == old(self).lsp_workspace_symbols),
            (old(self).lsp_workspace_symbols is Some && old(self).lsp_workspace_selected < old(self).lsp_workspace_symbols.unwrap()@.len()) ==> ({
                let s = old(self).lsp_workspace_symbols.unwrap()@[old(self).lsp_workspace_selected as int];
                &&& final(self).lsp_workspace_symbols is None
                &&& final(self).editor.path matches Some(p) && p@ == s.path@
                &&& final(self).editor.cursor_line == s.line
            }),
            same_debug(*old(self), *final(self)),
            same_view(*old(self), *final(self)),
    {
        let (path, line) = match &self.lsp_workspace_symbols {
            Some(symbols) => {
                if self.lsp_workspace_selected < symbols.len() {
                    let s = &symbols[self.lsp_workspace_selected];
                    (s.path.clone(), s.line as usize)
                } else {
                    return;
                }
            },
            None => {
                return;
            },
        };
        self.dismiss_workspace_symbols();
        self.open_file_at_line(path.as_str(), line);
    }

    /// Returns the diagnostics for the file in the editor (none without
    /// one).
    pub fn current_file_diagnostics(&self) -> (r: Vec<DiagnosticInfo>)
        ensures
            self.editor.path is None ==> r@.len() == 0,
            self.editor.path matches Some(p) ==> ((exists|i: int|
                0 <= i < self.diagnostic_store.files@.len()
                    && (#[trigger] self.diagnostic_store.files@[i]).path@ == p@) ==> exists|i: int|
                0 <= i < self.diagnostic_store.files@.len() && self.diagnostic_store.files@[i].path@
                    == p@ && r@.len() == self.diagnostic_store.files@[i].items@.len() && forall|
                    j: int,
                | 0 <= j < i ==> (#[trigger] self.diagnostic_store.files@[j]).path@ != p@),
    {
        match self.current_file_path() {
            Some(path) => self.diagnostic_store.get(path.as_str()),
            None => Vec::new(),
        }
    }
}

} // verus!
