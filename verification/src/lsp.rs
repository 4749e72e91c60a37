//! What the language server reports, as the screens keep it: hover text,
//! signature help, references, code actions, symbols and diagnostics.

use crate::text::str_eq;
use vstd::prelude::*;

verus! {

/// A range in a document (0-based lines and characters).
#[derive(Debug, Clone, Copy, PartialEq, Eq, Structural)]
pub struct LspRange {
    /// First line.
    pub start_line: u32,
    /// Character within the first line.
    pub start_character: u32,
    /// Last line.
    pub end_line: u32,
    /// Character within the last line.
    pub end_character: u32,
}

/// Where in the document the name being renamed is.
pub type RenameRange = LspRange;

/// A hover popup's contents.
#[derive(Debug, Clone)]
pub struct HoverResult {
    /// The text blocks shown.
    pub contents: Vec<String>,
    /// The range the hover describes.
    pub range: Option<LspRange>,
}

/// Signature help for the call under the cursor.
#[derive(Debug, Clone)]
pub struct SignatureHelpResult {
    /// The signature shown.
    pub label: String,
    /// The parameter being typed, if known.
    pub active_parameter: Option<u32>,
}

/// One reference inside a file.
#[derive(Debug, Clone, Copy)]
pub struct ReferenceLocation {
    /// 0-based line.
    pub line: u32,
    /// 0-based character.
    pub character: u32,
}

/// The references found in one file.
#[derive(Debug, Clone)]
pub struct ReferenceGroup {
    /// The file.
    pub path: String,
    /// The references in it, in order.
    pub locations: Vec<ReferenceLocation>,
}

/// A code action offered at the cursor.
#[derive(Debug, Clone)]
pub struct CodeActionResult {
    /// What the action does.
    pub title: String,
    /// Whether the action carries an edit to apply.
    pub has_edit: bool,
}

/// A symbol of the current document, with the symbols nested in it.
#[derive(Debug)]
pub struct DocumentSymbolResult {
    /// The symbol's name.
    pub name: String,
    /// 0-based line where its name is.
    pub selection_start_line: u32,
    /// Symbols nested inside it.
    pub children: Vec<DocumentSymbolResult>,
}

/// A symbol found by a workspace search.
#[derive(Debug, Clone)]
pub struct SymbolInfoResult {
    /// The symbol's name.
    pub name: String,
    /// The file it is in.
    pub path: String,
    /// 0-based line.
    pub line: u32,
}

/// One diagnostic in a file.
#[derive(Debug, Clone)]
pub struct DiagnosticInfo {
    /// 0-based line.
    pub line: u32,
    /// The message.
    pub message: String,
}

/// Diagnostics of one file.
#[derive(Debug, Clone)]
pub struct FileDiagnostics {
    /// The file.
    pub path: String,
    /// Its diagnostics.
    pub items: Vec<DiagnosticInfo>,
}

/// Diagnostics for every open file.
#[derive(Debug, Clone)]
pub struct DiagnosticStore {
    /// One entry per file.
    pub files: Vec<FileDiagnostics>,
}

/// Number of diagnostics over all files.
pub open spec fn diagnostics_total(files: Seq<FileDiagnostics>) -> int
    decreases files.len(),
{
    if files.len() == 0 {
        0
    } else {
        diagnostics_total(files.drop_last()) + files.last().items@.len()
    }
}

/// Number of locations over all reference groups.
pub open spec fn references_total(groups: Seq<ReferenceGroup>) -> int
    decreases groups.len(),
{
    if groups.len() == 0 {
        0
    } else {
        references_total(groups.drop_last()) + groups.last().locations@.len()
    }
}

proof fn lemma_references_total_monotone(groups: Seq<ReferenceGroup>, i: int)
    requires
        0 <= i <= groups.len(),
    ensures
        references_total(groups.take(i)) <= references_total(groups),
        references_total(groups.take(i)) >= 0,
    decreases groups.len() - i,
{
    if i < groups.len() {
        lemma_references_total_monotone(groups, i + 1);
        assert(groups.take(i + 1).drop_last() =~= groups.take(i));
    } else {
        assert(groups.take(i) =~= groups);
    }
    lemma_references_total_nonneg(groups.take(i));
}

proof fn lemma_references_total_nonneg(groups: Seq<ReferenceGroup>)
    ensures
        references_total(groups) >= 0,
    decreases groups.len(),
{
    if groups.len() > 0 {
        lemma_references_total_nonneg(groups.drop_last());
    }
}

proof fn lemma_diagnostics_total_nonneg(files: Seq<FileDiagnostics>)
    ensures
        diagnostics_total(files) >= 0,
    decreases files.len(),
{
    if files.len() > 0 {
        lemma_diagnostics_total_nonneg(files.drop_last());
    }
}

impl DiagnosticStore {
    /// A store with no diagnostics.
    pub fn new() -> (r: Self)
        ensures
            r.files@.len() == 0,
    {
        DiagnosticStore { files: Vec::new() }
    }

    /// Number of diagnostics over all files, saturating at `usize::MAX`.
    pub fn total_count(&self) -> (r: usize)
        ensures
            r == (if diagnostics_total(self.files@) <= usize::MAX {
                diagnostics_total(self.files@)
            } else {
                usize::MAX as int
            }),
    {
        let mut total: usize = 0;
        let mut i: usize = 0;
        let mut saturated = false;
        while i < self.files.len()
            invariant
                i <= self.files@.len(),
                saturated ==> total == usize::MAX && diagnostics_total(self.files@.take(i as int))
                    >= usize::MAX,
                !saturated ==> total == diagnostics_total(self.files@.take(i as int)),
            decreases self.files@.len() - i,
        {
            assert(self.files@.take(i + 1).drop_last() =~= self.files@.take(i as int));
            let n = self.files[i].items.len();
            if !saturated {
                if total > usize::MAX - n {
                    total = usize::MAX;
                    saturated = true;
                } else {
                    total = total + n;
                }
            }
            i = i + 1;
        }
        assert(self.files@.take(self.files@.len() as int) =~= self.files@);
        proof {
            lemma_diagnostics_total_nonneg(self.files@);
        }
        total
    }

    /// The diagnostics recorded for `path` (none if the file has no entry).
    pub fn get(&self, path: &str) -> (r: Vec<DiagnosticInfo>)
        ensures
            (exists|i: int| 0 <= i < self.files@.len() && (#[trigger] self.files@[i]).path@ == path@)
                ==> exists|i: int|
                0 <= i < self.files@.len() && self.files@[i].path@ == path@ && r@.len()
                    == self.files@[i].items@.len() && forall|j: int|
                    0 <= j < i ==> (#[trigger] self.files@[j]).path@ != path@,
            !(exists|i: int| 0 <= i < self.files@.len() && (#[trigger] self.files@[i]).path@
                == path@) ==> r@.len() == 0,
    {
        let mut i: usize = 0;
        while i < self.files.len()
            invariant
                i <= self.files@.len(),
                forall|j: int| 0 <= j < i ==> (#[trigger] self.files@[j]).path@ != path@,
            decreases self.files@.len() - i,
        {
            if str_eq(self.files[i].path.as_str(), path) {
                let mut out: Vec<DiagnosticInfo> = Vec::new();
                let items = &self.files[i].items;
                let mut k: usize = 0;
                while k < items.len()
                    invariant
                        k <= items@.len(),
                        out@.len() == k,
                    decreases items@.len() - k,
                {
                    out.push(DiagnosticInfo { line: items[k].line, message: items[k].message.clone() });
                    k = k + 1;
                }
                return out;
            }
            i = i + 1;
        }
        Vec::new()
    }
}

/// Finds which group, and which location inside it, the `index`-th
/// reference (counting across groups in order) is.
pub fn index_to_group_location(groups: &Vec<ReferenceGroup>, index: usize) -> (r: Option<(usize, usize)>)
    ensures
        r is None <==> index >= references_total(groups@),
        r matches Some((g, l)) ==> g < groups@.len() && l < groups@[g as int].locations@.len()
            && references_total(groups@.take(g as int)) + l == index,
{
    let mut before: usize = 0;
    let mut g: usize = 0;
    proof {
        lemma_references_total_nonneg(groups@);
    }
    while g < groups.len()
        invariant
            g <= groups@.len(),
            before == references_total(groups@.take(g as int)),
            before <= index,
        decreases groups@.len() - g,
    {
        assert(groups@.take(g + 1).drop_last() =~= groups@.take(g as int));
        let n = groups[g].locations.len();
        if index - before < n {
            proof {
                lemma_references_total_monotone(groups@, g + 1);
                assert(groups@.take(g + 1).last() == groups@[g as int]);
            }
            return Some((g, index - before));
        }
        before = before + n;
        g = g + 1;
    }
    assert(groups@.take(groups@.len() as int) =~= groups@);
    None
}

/// The symbols of a document in pre-order: each symbol, then those nested
/// in it.
pub open spec fn preorder(v: Seq<DocumentSymbolResult>) -> Seq<DocumentSymbolResult>
    decreases v,
{
    if v.len() == 0 {
        Seq::empty()
    } else {
        preorder(v.drop_last()) + preorder_one(v.last())
    }
}

/// One symbol followed by those nested in it, in pre-order.
pub open spec fn preorder_one(s: DocumentSymbolResult) -> Seq<DocumentSymbolResult>
    decreases s,
{
    seq![s] + preorder(s.children@)
}

/// The symbols a list of references points at.
pub open spec fn derefs(v: Seq<&DocumentSymbolResult>) -> Seq<DocumentSymbolResult> {
    v.map_values(|r: &DocumentSymbolResult| *r)
}

/// Appends the symbols of `v` to `out` in pre-order.
fn flatten_into<'a>(v: &'a Vec<DocumentSymbolResult>, out: &mut Vec<&'a DocumentSymbolResult>)
    ensures
        derefs(final(out)@) == derefs(old(out)@) + preorder(v@),
    decreases v@,
{
    let ghost start = derefs(out@);
    let mut i: usize = 0;
    while i < v.len()
        invariant
            i <= v@.len(),
            derefs(out@) == start + preorder(v@.take(i as int)),
        decreases v@.len() - i,
    {
        assert(v@.take(i + 1).drop_last() =~= v@.take(i as int));
        let s = &v[i];
        let ghost before = derefs(out@);
        out.push(s);
        assert(derefs(out@) =~= before.push(*s));
        flatten_into(&s.children, out);
        assert(preorder_one(*s) == seq![*s] + preorder(s.children@));
        assert(derefs(out@) =~= start + preorder(v@.take(i + 1)));
        i = i + 1;
    }
    assert(v@.take(v@.len() as int) =~= v@);
}

/// The document's symbols in pre-order: each symbol, then those nested in it.
pub fn flatten_symbols(symbols: &Vec<DocumentSymbolResult>) -> (r: Vec<&DocumentSymbolResult>)
    ensures
        derefs(r@) == preorder(symbols@),
{
    let mut out: Vec<&DocumentSymbolResult> = Vec::new();
    assert(derefs(out@) =~= Seq::empty());
    flatten_into(symbols, &mut out);
    assert(derefs(out@) =~= preorder(symbols@));
    out
}

} // verus!
