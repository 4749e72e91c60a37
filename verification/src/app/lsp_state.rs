//! Everything the language-server screens keep between key presses: the
//! popups (hover, signature help), the list panels (references, code
//! actions, symbols, diagnostics) and a rename in progress.

use crate::app::panel::{clamp_index, ListPanel};
use crate::lsp::{
    CodeActionResult, DiagnosticStore, DocumentSymbolResult, HoverResult, ReferenceGroup,
    RenameRange, SignatureHelpResult, SymbolInfoResult,
};
use crate::text::{is_blank, trim};
use vstd::prelude::*;

verus! {

/// A rename in progress.
#[derive(Debug, Clone)]
pub struct RenameState {
    /// The new name as typed so far.
    pub input: String,
    /// Where in the document the old name is.
    pub range: Option<RenameRange>,
}

impl RenameState {
    /// Starts a rename with the current name already filled in.
    pub fn new(initial: String, range: Option<RenameRange>) -> (r: Self)
        ensures
            r.input == initial,
            r.range == range,
    {
        RenameState { input: initial, range }
    }

    /// True when the typed name is empty or only whitespace: such a rename
    /// is refused rather than sent.
    pub fn is_empty(&self) -> (r: bool)
        ensures
            r == (trim(self.input@).len() == 0),
    {
        is_blank(self.input.as_str())
    }
}

/// The language-server interface state.
#[derive(Debug)]
pub struct LspUiState {
    /// Diagnostics for every open file.
    pub diagnostics: DiagnosticStore,
    /// The hover popup, when one is showing.
    pub hover: Option<HoverResult>,
    /// Where the cursor was when a popup was opened.
    pub hover_cursor: (u16, u16),
    /// Signature help, when one is showing.
    pub signature_help: Option<SignatureHelpResult>,
    /// References, grouped by file.
    pub references: ListPanel<ReferenceGroup>,
    /// Code actions offered at the cursor.
    pub code_actions: ListPanel<CodeActionResult>,
    /// Symbols in the current document.
    pub document_symbols: ListPanel<DocumentSymbolResult>,
    /// Symbols matching a workspace search.
    pub workspace_symbols: ListPanel<SymbolInfoResult>,
    /// What was typed into the workspace symbol search.
    pub workspace_query: String,
    /// The diagnostics panel: open, with a selection. Its rows come from
    /// `diagnostics`; what it keeps is the position within them.
    pub diagnostics_panel: ListPanel<()>,
    /// A rename in progress.
    pub rename: Option<RenameState>,
    /// Format through the language server on save.
    pub format_on_save: bool,
}

/// Something floats over the editor.
pub open spec fn overlay_shown(s: LspUiState) -> bool {
    s.hover is Some || s.signature_help is Some || s.references.open_view()
        || s.code_actions.open_view() || s.document_symbols.open_view()
        || s.workspace_symbols.open_view() || s.rename is Some
}

/// Something is open that takes keys before the editor does.
pub open spec fn captures_keys(s: LspUiState) -> bool {
    s.rename is Some || s.references.open_view() || s.code_actions.open_view()
        || s.document_symbols.open_view() || s.workspace_symbols.open_view()
        || s.diagnostics_panel.open_view()
}

/// Anything at all is showing.
pub open spec fn anything_shown(s: LspUiState) -> bool {
    captures_keys(s) || s.hover is Some || s.signature_help is Some
}

impl LspUiState {
    /// A state with nothing open.
    pub fn new(format_on_save: bool) -> (r: Self)
        ensures
            r.format_on_save == format_on_save,
            !anything_shown(r),
            r.workspace_query@.len() == 0,
            r.diagnostics.files@.len() == 0,
    {
        LspUiState {
            diagnostics: DiagnosticStore::new(),
            hover: None,
            hover_cursor: (0, 0),
            signature_help: None,
            references: ListPanel::new(),
            code_actions: ListPanel::new(),
            document_symbols: ListPanel::new(),
            workspace_symbols: ListPanel::new(),
            workspace_query: String::new(),
            diagnostics_panel: ListPanel::new(),
            rename: None,
            format_on_save,
        }
    }

    /// Closes every popup and panel; settings and diagnostics stay.
    pub fn close_all(&mut self)
        ensures
            !anything_shown(*final(self)),
            final(self).workspace_query@.len() == 0,
            final(self).format_on_save == old(self).format_on_save,
            final(self).diagnostics == old(self).diagnostics,
    {
        self.close_overlays();
        self.diagnostics_panel.close();
    }

    /// Closes everything that floats over the editor; the diagnostics panel,
    /// a pane the user opened, is left alone.
    pub fn close_overlays(&mut self)
        ensures
            !overlay_shown(*final(self)),
            final(self).workspace_query@.len() == 0,
            final(self).diagnostics_panel == old(self).diagnostics_panel,
            final(self).format_on_save == old(self).format_on_save,
            final(self).diagnostics == old(self).diagnostics,
    {
        self.hover = None;
        self.signature_help = None;
        self.references.close();
        self.code_actions.close();
        self.document_symbols.close();
        self.workspace_symbols.close();
        self.workspace_query = String::new();
        self.rename = None;
    }

    /// True if anything floats over the editor.
    pub fn has_overlay(&self) -> (r: bool)
        ensures
            r == overlay_shown(*self),
    {
        self.hover.is_some() || self.signature_help.is_some() || self.references.is_open()
            || self.code_actions.is_open() || self.document_symbols.is_open()
            || self.workspace_symbols.is_open() || self.rename.is_some()
    }

    /// Closes the popups tied to a cursor position (hover, signature help),
    /// leaving panels alone.
    pub fn close_cursor_popups(&mut self)
        ensures
            *final(self) == (LspUiState {
                hover: None,
                signature_help: None,
                ..*old(self)
            }),
    {
        self.hover = None;
        self.signature_help = None;
    }

    /// True if anything is open that should take a key before the editor.
    pub fn is_capturing_keys(&self) -> (r: bool)
        ensures
            r == captures_keys(*self),
    {
        self.rename.is_some() || self.references.is_open() || self.code_actions.is_open()
            || self.document_symbols.is_open() || self.workspace_symbols.is_open()
            || self.diagnostics_panel.is_open()
    }

    /// True if anything at all is showing.
    pub fn is_showing_anything(&self) -> (r: bool)
        ensures
            r == anything_shown(*self),
    {
        self.is_capturing_keys() || self.hover.is_some() || self.signature_help.is_some()
    }

    /// Opens the diagnostics panel over `count` rows, first row selected.
    pub fn open_diagnostics(&mut self, count: usize)
        ensures
            final(self).diagnostics_panel.open_view(),
            final(self).diagnostics_panel.items_view().len() == count,
            final(self).diagnostics_panel.selected_view() == 0,
    {
        self.diagnostics_panel.open(unit_rows(count));
    }

    /// Updates the diagnostics panel's row count, keeping the selection
    /// (moved into the list if it is now too short). A closed panel stays
    /// closed and unchanged.
    pub fn sync_diagnostics(&mut self, count: usize)
        ensures
            old(self).diagnostics_panel.open_view() ==> final(self).diagnostics_panel.open_view()
                && final(self).diagnostics_panel.items_view().len() == count
                && final(self).diagnostics_panel.selected_view() == clamp_index(
                old(self).diagnostics_panel.selected_view(),
                count as int,
            ),
            !old(self).diagnostics_panel.open_view() ==> final(self).diagnostics_panel == old(self).diagnostics_panel,
    {
        if self.diagnostics_panel.is_open() {
            self.diagnostics_panel.replace(unit_rows(count));
        }
    }
}

/// `count` unit rows.
fn unit_rows(count: usize) -> (r: Vec<()>)
    ensures
        r@.len() == count,
{
    let mut v: Vec<()> = Vec::new();
    let mut i: usize = 0;
    while i < count
        invariant
            i <= count,
            v@.len() == i,
        decreases count - i,
    {
        v.push(());
        i = i + 1;
    }
    v
}

} // verus!
