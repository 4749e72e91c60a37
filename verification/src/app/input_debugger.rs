//! The debugger's function-key shortcuts.

use crate::app::debugger_ops::bps_view;
use crate::app::keys::{no_mods, only_shift, KeyCode, KeyEvent, KeyModifiers};
use crate::app::state::{same_files, same_lsp, same_view, App, DebugState};
use vstd::prelude::*;

verus! {

/// A debugger command bound to a key.
#[derive(Debug, Clone, Copy, PartialEq, Eq, Structural)]
pub enum DebuggerCommand {
    /// F9: toggle a breakpoint on the cursor line.
    ToggleBreakpoint,
    /// F5: continue, or start a session.
    ContinueOrStart,
    /// Shift+F5: stop.
    Stop,
    /// Ctrl+Shift+F5: restart.
    Restart,
    /// F10: step over.
    StepOver,
    /// F11: step in.
    StepIn,
    /// Shift+F11: step out.
    StepOut,
}

/// Control and Shift are held, and nothing else.
pub open spec fn only_control_shift(m: KeyModifiers) -> bool {
    m.shift && m.control && !m.alt && !m.super_key && !m.hyper && !m.meta
}

/// The command bound to `key`, if any.
pub open spec fn debugger_command(key: KeyEvent) -> Option<DebuggerCommand> {
    match key.code {
        KeyCode::F(n) => if n == 9 && no_mods(key.modifiers) {
            Some(DebuggerCommand::ToggleBreakpoint)
        } else if n == 5 && no_mods(key.modifiers) {
            Some(DebuggerCommand::ContinueOrStart)
        } else if n == 5 && only_shift(key.modifiers) {
            Some(DebuggerCommand::Stop)
        } else if n == 5 && only_control_shift(key.modifiers) {
            Some(DebuggerCommand::Restart)
        } else if n == 10 && no_mods(key.modifiers) {
            Some(DebuggerCommand::StepOver)
        } else if n == 11 && no_mods(key.modifiers) {
            Some(DebuggerCommand::StepIn)
        } else if n == 11 && only_shift(key.modifiers) {
            Some(DebuggerCommand::StepOut)
        } else {
            None
        },
        _ => None,
    }
}

/// The command bound to a key.
pub fn debugger_key_command(key: &KeyEvent) -> (r: Option<DebuggerCommand>)
    ensures
        r == debugger_command(*key),
{
    let m = key.modifiers;
    let control_shift = m.shift && m.control && !m.alt && !m.super_key && !m.hyper && !m.meta;
    match key.code {
        KeyCode::F(n) => {
            if n == 9 && m.is_empty() {
                Some(DebuggerCommand::ToggleBreakpoint)
            } else if n == 5 && m.is_empty() {
                Some(DebuggerCommand::ContinueOrStart)
            } else if n == 5 && m.is_only_shift() {
                Some(DebuggerCommand::Stop)
            } else if n == 5 && control_shift {
                Some(DebuggerCommand::Restart)
            } else if n == 10 && m.is_empty() {
                Some(DebuggerCommand::StepOver)
            } else if n == 11 && m.is_empty() {
                Some(DebuggerCommand::StepIn)
            } else if n == 11 && m.is_only_shift() {
                Some(DebuggerCommand::StepOut)
            } else {
                None
            }
        },
        _ => None,
    }
}

impl App {
    /// Runs the debugger command bound to `key`; returns whether there was
    /// one.
    pub fn handle_debugger_key(&mut self, key: KeyEvent) -> (r: bool)
        requires
            old(self).editor.cursor_line < usize::MAX,
        ensures
            r == debugger_command(key) is Some,
            debugger_command(key) is None ==> *final(self) == *old(self),
            debugger_command(key) == Some(DebuggerCommand::ToggleBreakpoint) ==> (old(
                self).editor.path matches Some(p) ==> ({
                let bp = (p@, (old(self).editor.cursor_line + 1) as u32);
                bps_view(final(self).breakpoint_store.entries@).contains(bp) == !bps_view(
                    old(self).breakpoint_store.entries@,
                ).contains(bp)
            })),
            debugger_command(key) == Some(DebuggerCommand::ContinueOrStart)
                ==> final(self).debug_session is Some,
            debugger_command(key) == Some(DebuggerCommand::Stop) ==> final(self).debug_session is None
                && !final(self).debug_panel_visible,
            debugger_command(key) == Some(DebuggerCommand::Restart) ==> (final(
                self).debug_session matches Some(s) && s.state == DebugState::Idle)
                && final(self).debug_panel_visible,
            (debugger_command(key) == Some(DebuggerCommand::StepOver) || debugger_command(key)
                == Some(DebuggerCommand::StepIn) || debugger_command(key) == Some(
                DebuggerCommand::StepOut)) ==> (old(self).debug_session matches Some(s) ==> (
            final(self).debug_session matches Some(t) && (s.state == DebugState::Paused ==> t.state
                == DebugState::Running) && (s.state != DebugState::Paused ==> t == s))),
            same_files(*old(self), *final(self)),
            same_lsp(*old(self), *final(self)),
            same_view(*old(self), *final(self)),
    {
        match debugger_key_command(&key) {
            Some(DebuggerCommand::ToggleBreakpoint) => {
                self.toggle_breakpoint_at_cursor();
                proof {
                    match old(self).editor.path {
                        Some(p) => {
                            crate::app::debugger_ops::lemma_toggle_flips(
                                bps_view(old(self).breakpoint_store.entries@),
                                p@,
                                (old(self).editor.cursor_line + 1) as u32,
                            );
                        },
                        None => {},
                    }
                }
                true
            },
            Some(DebuggerCommand::ContinueOrStart) => {
                self.debug_continue_or_start();
                true
            },
            Some(DebuggerCommand::Stop) => {
                self.debug_stop();
                true
            },
            Some(DebuggerCommand::Restart) => {
                self.debug_restart();
                true
            },
            Some(DebuggerCommand::StepOver) => {
                self.debug_step_over();
                true
            },
            Some(DebuggerCommand::StepIn) => {
                self.debug_step_in();
                true
            },
            Some(DebuggerCommand::StepOut) => {
                self.debug_step_out();
                true
            },
            None => false,
        }
    }
}

} // verus!
