//! Editor tabs and the file browsers. Reading and writing the files
//! themselves is done by the caller; these operations keep the tabs, the
//! editor and the panes consistent.

use crate::app::layout_ops::same_panes;
use crate::app::lsp_ops::{file_name, path_file_name};
use crate::app::state::{
    same_debug, same_files, same_lsp, App, AppMode, EditorState, FocusedPane, OpenFile, PopupKind,
};
use crate::text::{concat2, dec, has_prefix, starts_with, str_eq, u64_to_string};
use vstd::prelude::*;

verus! {

/// Some tab shows `path`.
pub open spec fn has_open(files: Seq<OpenFile>, path: Seq<char>) -> bool {
    exists|i: int| 0 <= i < files.len() && (#[trigger] files[i]).path@ == path
}

/// The tab name of a file: the last component of its path, or the whole
/// path when it has none.
pub open spec fn display_name(path: Seq<char>) -> Seq<char> {
    match file_name(path) {
        Some(n) => n,
        None => path,
    }
}

/// How many tabs have a name that starts with `Untitled`.
pub open spec fn untitled_count(files: Seq<OpenFile>) -> nat
    decreases files.len(),
{
    if files.len() == 0 {
        0
    } else {
        untitled_count(files.drop_last()) + (if has_prefix(files.last().name@, "Untitled"@) {
            1nat
        } else {
            0nat
        })
    }
}

/// The name of a new untitled tab when `count` tabs are already untitled:
/// `Untitled`, then `Untitled-2`, `Untitled-3`, ...
pub open spec fn untitled_name(count: nat) -> Seq<char> {
    if count == 0 {
        "Untitled"@
    } else {
        "Untitled-"@ + dec(count + 1)
    }
}

/// The tab index after closing tab `k`, when `len` tabs are left.
pub open spec fn index_after_close(k: int, len: int) -> int {
    if len == 0 {
        0
    } else if k >= len {
        len - 1
    } else {
        k
    }
}

/// Opening a new tab and then closing it leaves the tabs as they were: the
/// new tab is the last one and the current one, so closing it removes just
/// that tab, and the selection lands on the last of the tabs left.
pub proof fn lemma_new_tab_then_close_restores(before: Seq<OpenFile>, opened: Seq<OpenFile>)
    requires
        opened.len() == before.len() + 1,
        opened.drop_last() == before,
    ensures
        opened.remove(before.len() as int) == before,
        index_after_close(before.len() as int, before.len() as int) == if before.len() == 0 {
            0
        } else {
            before.len() - 1
        },
{
    assert(opened.remove(before.len() as int) =~= opened.drop_last());
}

proof fn lemma_untitled_count_le(files: Seq<OpenFile>)
    ensures
        untitled_count(files) <= files.len(),
    decreases files.len(),
{
    if files.len() > 0 {
        lemma_untitled_count_le(files.drop_last());
    }
}

impl App {
    /// The index of the tab that shows `path`, if one does.
    fn open_index(&self, path: &str) -> (r: Option<usize>)
        ensures
            r matches Some(i) ==> i < self.open_files@.len() && self.open_files@[i as int].path@
                == path@,
            r is None ==> !has_open(self.open_files@, path@),
    {
        let mut i: usize = 0;
        while i < self.open_files.len()
            invariant
                i <= self.open_files@.len(),
                forall|j: int| 0 <= j < i ==> (#[trigger] self.open_files@[j]).path@ != path@,
            decreases self.open_files@.len() - i,
        {
            if str_eq(self.open_files[i].path.as_str(), path) {
                return Some(i);
            }
            i = i + 1;
        }
        None
    }

    /// Shows `path` in the editor, in a new tab unless one shows it already,
    /// gives the editor the focus and closes the file browser. The caller
    /// has read the file.
    pub fn open_file(&mut self, path: &str)
        ensures
            old(self).wf() ==> final(self).wf(),
            final(self).editor.path matches Some(p) && p@ == path@,
            final(self).editor.cursor_line == 0,
            !final(self).editor.modified,
            has_open(old(self).open_files@, path@) ==> (final(self).open_files == old(
                self).open_files && final(self).current_file_idx == old(self).current_file_idx),
            !has_open(old(self).open_files@, path@) ==> (final(self).open_files@.len() == old(
                self).open_files@.len() + 1 && final(self).open_files@.drop_last() == old(
                self).open_files@ && final(self).open_files@.last().path@ == path@ && final(
                self).open_files@.last().name@ == display_name(path@) && final(
                self).current_file_idx == old(self).open_files@.len()),
            final(self).status@ == "Opened "@ + path@,
            final(self).layout.focused == FocusedPane::Editor,
            final(self).layout.ide_visible == old(self).layout.ide_visible,
            final(self).mode == AppMode::Normal,
            !final(self).file_browser.visible,
            final(self).file_browser.path == old(self).file_browser.path,
            final(self).remote_file_browser == old(self).remote_file_browser,
            final(self).popup == old(self).popup,
            final(self).config == old(self).config,
            final(self).needs_redraw,
            same_lsp(*old(self), *final(self)),
            same_debug(*old(self), *final(self)),
    {
        self.editor.open(path);
        match self.open_index(path) {
            Some(_) => {},
            None => {
                let name = match path_file_name(path) {
                    Some(n) => n,
                    None => path.to_owned(),
                };
                self.open_files.push(OpenFile { path: path.to_owned(), name });
                self.current_file_idx = self.open_files.len() - 1;
            },
        }
        self.set_status(concat2("Opened ", path));
        self.layout.focused = FocusedPane::Editor;
        self.mode = AppMode::Normal;
        self.file_browser.visible = false;
        self.request_redraw();
    }

    /// Shows the local file browser and gives the editor side the focus.
    /// `terminal_cwd` is the active terminal's working directory when it is
    /// a directory; the browser moves there if it shows another one.
    pub fn show_file_browser(&mut self, terminal_cwd: Option<&str>)
        ensures
            final(self).file_browser.visible,
            final(self).file_browser.path@ == match terminal_cwd {
                Some(c) => c@,
                None => old(self).file_browser.path@,
            },
            final(self).mode == AppMode::FileBrowser,
            final(self).layout.focused == FocusedPane::Editor,
            final(self).layout.ide_visible == old(self).layout.ide_visible,
            final(self).needs_redraw,
            final(self).status == old(self).status,
            final(self).remote_file_browser == old(self).remote_file_browser,
            final(self).popup == old(self).popup,
            final(self).config == old(self).config,
            same_files(*old(self), *final(self)),
            same_lsp(*old(self), *final(self)),
            same_debug(*old(self), *final(self)),
    {
        match terminal_cwd {
            Some(c) => {
                if !str_eq(c, self.file_browser.path.as_str()) {
                    self.file_browser.path = c.to_owned();
                }
            },
            None => {},
        }
        self.file_browser.visible = true;
        self.mode = AppMode::FileBrowser;
        self.layout.focused = FocusedPane::Editor;
        self.request_redraw();
    }

    /// Returns true if the remote file browser is active.
    pub fn is_remote_browsing(&self) -> (r: bool)
        ensures
            r == self.remote_file_browser is Some,
    {
        self.remote_file_browser.is_some()
    }

    /// Closes the remote file browser.
    pub fn hide_remote_file_browser(&mut self)
        ensures
            final(self).remote_file_browser is None,
            final(self).mode == AppMode::Normal,
            final(self).needs_redraw,
            final(self).file_browser == old(self).file_browser,
            final(self).layout == old(self).layout,
            final(self).status == old(self).status,
            final(self).popup == old(self).popup,
            final(self).config == old(self).config,
            same_files(*old(self), *final(self)),
            same_lsp(*old(self), *final(self)),
            same_debug(*old(self), *final(self)),
    {
        self.remote_file_browser = None;
        self.mode = AppMode::Normal;
        self.request_redraw();
    }

    /// Closes both file browsers.
    pub fn hide_file_browser(&mut self)
        ensures
            !final(self).file_browser.visible,
            final(self).file_browser.path == old(self).file_browser.path,
            final(self).remote_file_browser is None,
            final(self).mode == AppMode::Normal,
            final(self).needs_redraw,
            final(self).layout == old(self).layout,
            final(self).status == old(self).status,
            final(self).popup == old(self).popup,
            final(self).config == old(self).config,
            same_files(*old(self), *final(self)),
            same_lsp(*old(self), *final(self)),
            same_debug(*old(self), *final(self)),
    {
        self.file_browser.visible = false;
        self.remote_file_browser = None;
        self.mode = AppMode::Normal;
        self.request_redraw();
    }

    /// Moves to the next tab, wrapping around, and shows its file.
    pub fn next_file(&mut self)
        requires
            old(self).wf(),
        ensures
            final(self).wf(),
            final(self).open_files == old(self).open_files,
            old(self).open_files@.len() == 0 ==> final(self).editor == old(self).editor
                && final(self).current_file_idx == old(self).current_file_idx,
            old(self).open_files@.len() > 0 ==> final(self).current_file_idx == (old(
                self).current_file_idx + 1) % (old(self).open_files@.len() as int) && (final(
                self).editor.path matches Some(p) && p@ == final(self).open_files@[final(
                self).current_file_idx as int].path@),
            final(self).status == old(self).status,
            final(self).layout == old(self).layout,
            same_panes(*old(self), *final(self)),
            same_lsp(*old(self), *final(self)),
            same_debug(*old(self), *final(self)),
    {
        let n = self.open_files.len();
        if n == 0 {
            return;
        }
        self.current_file_idx = (self.current_file_idx + 1) % n;
        let i = self.current_file_idx;
        let path = self.open_files[i].path.clone();
        self.editor.open(path.as_str());
    }

    /// Moves to the previous tab, wrapping around, and shows its file.
    pub fn prev_file(&mut self)
        requires
            old(self).wf(),
        ensures
            final(self).wf(),
            final(self).open_files == old(self).open_files,
            old(self).open_files@.len() == 0 ==> final(self).editor == old(self).editor
                && final(self).current_file_idx == old(self).current_file_idx,
            old(self).open_files@.len() > 0 ==> final(self).current_file_idx == (if old(
                self).current_file_idx == 0 {
                old(self).open_files@.len() - 1
            } else {
                old(self).current_file_idx - 1
            }) && (final(self).editor.path matches Some(p) && p@ == final(self).open_files@[final(
                self).current_file_idx as int].path@),
            final(self).status == old(self).status,
            final(self).layout == old(self).layout,
            same_panes(*old(self), *final(self)),
            same_lsp(*old(self), *final(self)),
            same_debug(*old(self), *final(self)),
    {
        let n = self.open_files.len();
        if n == 0 {
            return;
        }
        self.current_file_idx = if self.current_file_idx == 0 {
            n - 1
        } else {
            self.current_file_idx - 1
        };
        let i = self.current_file_idx;
        let path = self.open_files[i].path.clone();
        self.editor.open(path.as_str());
    }

    /// Opens a new untitled buffer in a new tab named `Untitled`, or
    /// `Untitled-N` with N one more than the untitled tabs already open.
    pub fn new_editor_tab(&mut self)
        requires
            old(self).open_files@.len() < usize::MAX,
        ensures
            final(self).wf(),
            final(self).editor.path is None,
            !final(self).editor.modified,
            final(self).open_files@.len() == old(self).open_files@.len() + 1,
            final(self).open_files@.drop_last() == old(self).open_files@,
            final(self).open_files@.last().name@ == untitled_name(
                untitled_count(old(self).open_files@),
            ),
            final(self).open_files@.last().path@ == untitled_name(
                untitled_count(old(self).open_files@),
            ),
            final(self).current_file_idx == old(self).open_files@.len(),
            final(self).status@ == "Created "@ + untitled_name(
                untitled_count(old(self).open_files@),
            ),
            final(self).layout == old(self).layout,
            final(self).needs_redraw == old(self).needs_redraw,
            same_panes(*old(self), *final(self)),
            same_lsp(*old(self), *final(self)),
            same_debug(*old(self), *final(self)),
    {
        let mut count: usize = 0;
        let mut i: usize = 0;
        while i < self.open_files.len()
            invariant
                i <= self.open_files@.len(),
                count == untitled_count(self.open_files@.take(i as int)),
                count <= i,
            decreases self.open_files@.len() - i,
        {
            let ghost pre = self.open_files@.take(i as int);
            let ghost next = self.open_files@.take(i + 1);
            assert(next.drop_last() =~= pre);
            if starts_with(self.open_files[i].name.as_str(), "Untitled") {
                count = count + 1;
            }
            i = i + 1;
        }
        assert(self.open_files@.take(i as int) =~= self.open_files@);
        let name = if count == 0 {
            "Untitled".to_owned()
        } else {
            let n: u64 = (count + 1) as u64;
            concat2("Untitled-", u64_to_string(n).as_str())
        };
        self.editor.new_buffer();
        self.open_files.push(OpenFile { path: name.clone(), name: name.clone() });
        self.current_file_idx = self.open_files.len() - 1;
        self.set_status(concat2("Created ", name.as_str()));
    }

    /// Closes the current tab and shows the tab that takes its place. With
    /// unsaved changes it asks first instead; with no tab it only says so.
    /// Once the last tab is closed the IDE pane hides unless the settings
    /// keep it.
    pub fn close_editor_tab(&mut self)
        requires
            old(self).wf(),
        ensures
            final(self).wf(),
            old(self).open_files@.len() == 0 ==> (final(self).status@ == "No tabs to close"@
                && same_files(*old(self), *final(self)) && final(self).layout == old(
                self).layout && final(self).popup == old(self).popup),
            (old(self).open_files@.len() > 0 && old(self).editor.modified) ==> (final(self).popup
                == Some(PopupKind::ConfirmSaveBeforeExit) && same_files(*old(self), *final(self))
                && final(self).status == old(self).status && final(self).layout == old(
                self).layout),
            (old(self).open_files@.len() > 0 && !old(self).editor.modified) ==> ({
                let k = old(self).current_file_idx as int;
                let left = old(self).open_files@.remove(k);
                let hide = !old(self).config.ide_always && left.len() == 0 && old(
                    self).layout.ide_visible;
                &&& final(self).open_files@ == left
                &&& final(self).current_file_idx == index_after_close(k, left.len() as int)
                &&& left.len() > 0 ==> (final(self).editor.path matches Some(p) && p@ == left[final(
                    self).current_file_idx as int].path@)
                &&& left.len() == 0 ==> final(self).editor.path is None
                &&& !final(self).editor.modified
                &&& final(self).popup == old(self).popup
                &&& hide ==> !final(self).layout.ide_visible && final(self).status@
                    == "IDE closed"@
                &&& !hide ==> final(self).layout == old(self).layout && final(self).status@
                    == "Closed "@ + old(self).open_files@[k].name@
            }),
            final(self).mode == old(self).mode,
            final(self).file_browser == old(self).file_browser,
            final(self).remote_file_browser == old(self).remote_file_browser,
            final(self).config == old(self).config,
            same_lsp(*old(self), *final(self)),
            same_debug(*old(self), *final(self)),
    {
        if self.open_files.len() == 0 {
            self.set_status("No tabs to close".to_owned());
            return;
        }
        if self.editor.is_modified() {
            self.show_popup(PopupKind::ConfirmSaveBeforeExit);
            return;
        }
        let k = self.current_file_idx;
        let closed = self.open_files.remove(k);
        let n = self.open_files.len();
        if self.current_file_idx >= n && n > 0 {
            self.current_file_idx = n - 1;
        }
        if self.current_file_idx < n {
            let i = self.current_file_idx;
            let path = self.open_files[i].path.clone();
            self.editor.open(path.as_str());
        } else {
            self.editor.new_buffer();
            self.current_file_idx = 0;
        }
        self.set_status(concat2("Closed ", closed.name.as_str()));
        self.check_ide_auto_hide();
    }

    /// Closes the current tab; the same as [`App::close_editor_tab`].
    pub fn close_current_file(&mut self)
        requires
            old(self).wf(),
        ensures
            final(self).wf(),
            old(self).open_files@.len() == 0 ==> final(self).status@ == "No tabs to close"@
                && same_files(*old(self), *final(self)),
            (old(self).open_files@.len() > 0 && old(self).editor.modified) ==> final(self).popup
                == Some(PopupKind::ConfirmSaveBeforeExit) && same_files(*old(self), *final(self)),
            (old(self).open_files@.len() > 0 && !old(self).editor.modified) ==> final(
                self).open_files@ == old(self).open_files@.remove(old(self).current_file_idx as int)
                && final(self).current_file_idx == index_after_close(
                old(self).current_file_idx as int,
                old(self).open_files@.len() - 1,
            ),
            same_lsp(*old(self), *final(self)),
            same_debug(*old(self), *final(self)),
    {
        self.close_editor_tab();
    }
}

/// Where the current file was saved.
#[derive(Debug, Clone)]
pub enum SaveTarget {
    /// To its path on this machine.
    Local,
    /// To a remote host; the file as it displays.
    Remote(String),
}

impl App {
    /// Takes the outcome of saving the current file to `target`: a saved
    /// file has no unsaved changes; a remote save reports itself, and a
    /// failure says why.
    pub fn save_current_file(&mut self, target: SaveTarget, result: Result<(), String>)
        ensures
            result is Ok ==> !final(self).editor.modified && final(self).editor == (EditorState {
                modified: false,
                ..old(self).editor
            }),
            result is Err ==> final(self).editor == old(self).editor,
            (target is Remote && result is Ok) ==> final(self).status@ == "Saved "@
                + target->Remote_0@,
            (target is Remote && result is Err) ==> final(self).status@
                == "Failed to save remote file: "@ + result->Err_0@,
            (target is Local && result is Ok) ==> final(self).status == old(self).status,
            (target is Local && result is Err) ==> final(self).status@ == "Save failed: "@
                + result->Err_0@,
            *final(self) == (App {
                editor: final(self).editor,
                status: final(self).status,
                ..*old(self)
            }),
    {
        match (target, result) {
            (SaveTarget::Remote(shown), Ok(())) => {
                self.editor.modified = false;
                self.set_status(concat2("Saved ", shown.as_str()));
            },
            (SaveTarget::Remote(_), Err(e)) => {
                self.set_status(concat2("Failed to save remote file: ", e.as_str()));
            },
            (SaveTarget::Local, Ok(())) => {
                self.editor.modified = false;
            },
            (SaveTarget::Local, Err(e)) => {
                self.set_status(concat2("Save failed: ", e.as_str()));
            },
        }
    }
}

} // verus!
