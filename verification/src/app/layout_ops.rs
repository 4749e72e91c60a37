//! Showing and hiding the IDE pane.

use crate::app::state::{same_debug, same_files, same_lsp, App};
use vstd::prelude::*;

verus! {

/// Mode, browsers, popup, settings and everything outside the files, the
/// language-server panels, the debugger, the layout, the status line and the
/// redraw flag are the same in both states.
pub open spec fn same_panes(a: App, b: App) -> bool {
    &&& a.mode == b.mode
    &&& a.file_browser == b.file_browser
    &&& a.remote_file_browser == b.remote_file_browser
    &&& a.popup == b.popup
    &&& a.config == b.config
    &&& a.running == b.running
    &&& a.k8s_manager == b.k8s_manager
    &&& a.addon_manager == b.addon_manager
    &&& a.addon_config == b.addon_config
    &&& a.health_dashboard == b.health_dashboard
    &&& a.extension_approval_prompt == b.extension_approval_prompt
    &&& a.docker_host == b.docker_host
}

impl App {
    /// Shows the IDE (editor) pane.
    pub fn show_ide(&mut self)
        ensures
            final(self).layout.ide_visible,
            final(self).layout.focused == old(self).layout.focused,
            final(self).needs_redraw,
            final(self).status@ == "IDE opened"@,
            same_files(*old(self), *final(self)),
            same_lsp(*old(self), *final(self)),
            same_debug(*old(self), *final(self)),
            same_panes(*old(self), *final(self)),
    {
        self.layout.ide_visible = true;
        self.request_redraw();
        self.set_status("IDE opened".to_owned());
    }

    /// Hides the IDE pane.
    pub fn hide_ide(&mut self)
        ensures
            !final(self).layout.ide_visible,
            final(self).layout.focused == old(self).layout.focused,
            final(self).needs_redraw,
            final(self).status@ == "IDE closed"@,
            same_files(*old(self), *final(self)),
            same_lsp(*old(self), *final(self)),
            same_debug(*old(self), *final(self)),
            same_panes(*old(self), *final(self)),
    {
        self.layout.ide_visible = false;
        self.request_redraw();
        self.set_status("IDE closed".to_owned());
    }

    /// Hides the IDE pane if it shows, shows it otherwise.
    pub fn toggle_ide(&mut self)
        ensures
            final(self).layout.ide_visible == !old(self).layout.ide_visible,
            final(self).layout.focused == old(self).layout.focused,
            final(self).needs_redraw,
            final(self).status@ == (if old(self).layout.ide_visible {
                "IDE closed"@
            } else {
                "IDE opened"@
            }),
            same_files(*old(self), *final(self)),
            same_lsp(*old(self), *final(self)),
            same_debug(*old(self), *final(self)),
            same_panes(*old(self), *final(self)),
    {
        if self.layout.ide_visible {
            self.hide_ide();
        } else {
            self.show_ide();
        }
    }

    /// Returns true if the IDE pane is visible.
    pub fn ide_visible(&self) -> (r: bool)
        ensures
            r == self.layout.ide_visible,
    {
        self.layout.ide_visible
    }

    /// Hides the IDE pane once no file is open, unless the settings keep it.
    pub fn check_ide_auto_hide(&mut self)
        ensures
            (!old(self).config.ide_always && old(self).open_files@.len() == 0
                && old(self).layout.ide_visible) ==> (!final(self).layout.ide_visible
                && final(self).needs_redraw && final(self).status@ == "IDE closed"@),
            !(!old(self).config.ide_always && old(self).open_files@.len() == 0
                && old(self).layout.ide_visible) ==> (final(self).layout == old(self).layout
                && final(self).needs_redraw == old(self).needs_redraw && final(self).status
                == old(self).status),
            final(self).layout.focused == old(self).layout.focused,
            same_files(*old(self), *final(self)),
            same_lsp(*old(self), *final(self)),
            same_debug(*old(self), *final(self)),
            same_panes(*old(self), *final(self)),
    {
        if self.config.ide_always {
            return;
        }
        if self.open_files.len() == 0 && self.layout.ide_visible {
            self.hide_ide();
        }
    }
}

} // verus!
