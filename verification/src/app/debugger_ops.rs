//! Debugger operations on the application state: breakpoints, the debug
//! session's lifecycle, and stepping.

use crate::app::state::{
    same_files, same_lsp, same_view, App, Breakpoint, BreakpointStore, DebugSession, DebugState,
    LaunchConfig,
};
use crate::text::{concat3, dec, push_str, str_eq, u64_to_string};
use vstd::prelude::*;

verus! {

/// A breakpoint as plain values: file and 1-based line.
pub open spec fn bp_view(b: Breakpoint) -> (Seq<char>, u32) {
    (b.file@, b.line)
}

/// All breakpoints as plain values.
pub open spec fn bps_view(s: Seq<Breakpoint>) -> Seq<(Seq<char>, u32)> {
    s.map_values(|b: Breakpoint| bp_view(b))
}

/// `s` without the breakpoint `(file, line)`, order kept.
pub open spec fn without_bp(s: Seq<(Seq<char>, u32)>, file: Seq<char>, line: u32) -> Seq<
    (Seq<char>, u32),
>
    decreases s.len(),
{
    if s.len() == 0 {
        s
    } else if s.last() == (file, line) {
        without_bp(s.drop_last(), file, line)
    } else {
        without_bp(s.drop_last(), file, line).push(s.last())
    }
}

/// The lines of the breakpoints set in `file`, in the order they were set.
pub open spec fn lines_in(s: Seq<(Seq<char>, u32)>, file: Seq<char>) -> Seq<u32>
    decreases s.len(),
{
    if s.len() == 0 {
        Seq::empty()
    } else if s.last().0 == file {
        lines_in(s.drop_last(), file).push(s.last().1)
    } else {
        lines_in(s.drop_last(), file)
    }
}

impl BreakpointStore {
    /// No breakpoints.
    pub fn new() -> (r: Self)
        ensures
            r.entries@.len() == 0,
    {
        BreakpointStore { entries: Vec::new() }
    }

    /// Sets the breakpoint at `file:line`, or removes it if it is set;
    /// returns true when it was added.
    pub fn toggle(&mut self, file: &str, line: u32) -> (added: bool)
        ensures
            added == !bps_view(old(self).entries@).contains((file@, line)),
            added ==> bps_view(final(self).entries@) == bps_view(old(self).entries@).push(
                (file@, line),
            ),
            !added ==> bps_view(final(self).entries@) == without_bp(
                bps_view(old(self).entries@),
                file@,
                line,
            ),
    {
        let mut rest: Vec<Breakpoint> = Vec::new();
        std::mem::swap(&mut rest, &mut self.entries);
        let ghost orig = rest@;
        assert(orig.len() == rest.len());
        let mut kept: Vec<Breakpoint> = Vec::new();
        let mut found = false;
        let mut i: usize = 0;
        while rest.len() > 0
            invariant
                i + rest@.len() == orig.len(),
                orig.len() <= usize::MAX,
                rest@ == orig.subrange(i as int, orig.len() as int),
                bps_view(kept@) == without_bp(bps_view(orig.subrange(0, i as int)), file@, line),
                found == bps_view(orig.subrange(0, i as int)).contains((file@, line)),
            decreases rest@.len(),
        {
            let b = rest.remove(0);
            let ghost pre = bps_view(orig.subrange(0, i as int));
            let ghost next = bps_view(orig.subrange(0, i + 1));
            assert(next =~= pre.push(bp_view(b)));
            assert(next.drop_last() =~= pre);
            let same = b.line == line && str_eq(b.file.as_str(), file);
            if same {
                found = true;
                assert(next.contains((file@, line))) by {
                    assert(next[i as int] == (file@, line));
                }
            } else {
                let ghost before = bps_view(kept@);
                kept.push(b);
                assert(bps_view(kept@) =~= before.push(bp_view(b)));
                assert(next.contains((file@, line)) == pre.contains((file@, line))) by {
                    if next.contains((file@, line)) {
                        let k = choose|k: int| 0 <= k < next.len() && next[k] == (file@, line);
                        if k < pre.len() {
                            assert(pre[k] == next[k]);
                        }
                    }
                    if pre.contains((file@, line)) {
                        let k = choose|k: int| 0 <= k < pre.len() && pre[k] == (file@, line);
                        assert(next[k] == pre[k]);
                    }
                }
            }
            i = i + 1;
            assert(rest@ =~= orig.subrange(i as int, orig.len() as int));
        }
        assert(orig.subrange(0, i as int) =~= orig);
        if found {
            self.entries = kept;
            false
        } else {
            proof {
                lemma_without_absent(bps_view(orig), file@, line);
            }
            kept.push(Breakpoint { file: file.to_owned(), line });
            assert(bps_view(kept@) =~= bps_view(orig).push((file@, line)));
            self.entries = kept;
            true
        }
    }

    /// The lines of the breakpoints in `file`, in the order they were set.
    pub fn get(&self, file: &str) -> (r: Vec<u32>)
        ensures
            r@ == lines_in(bps_view(self.entries@), file@),
    {
        let mut out: Vec<u32> = Vec::new();
        let mut i: usize = 0;
        while i < self.entries.len()
            invariant
                i <= self.entries@.len(),
                out@ == lines_in(bps_view(self.entries@.take(i as int)), file@),
            decreases self.entries@.len() - i,
        {
            let ghost pre = bps_view(self.entries@.take(i as int));
            let ghost next = bps_view(self.entries@.take(i + 1));
            assert(next =~= pre.push(bp_view(self.entries@[i as int])));
            assert(next.drop_last() =~= pre);
            assert(next.last() == bp_view(self.entries@[i as int]));
            if str_eq(self.entries[i].file.as_str(), file) {
                out.push(self.entries[i].line);
            }
            i = i + 1;
        }
        assert(self.entries@.take(self.entries@.len() as int) =~= self.entries@);
        out
    }
}

/// After removing a breakpoint it is no longer set.
pub proof fn lemma_without_removes(s: Seq<(Seq<char>, u32)>, file: Seq<char>, line: u32)
    ensures
        !without_bp(s, file, line).contains((file, line)),
    decreases s.len(),
{
    if s.len() > 0 {
        let t = s.drop_last();
        lemma_without_removes(t, file, line);
        let w = without_bp(t, file, line);
        if s.last() != (file, line) {
            assert(!w.push(s.last()).contains((file, line))) by {
                if w.push(s.last()).contains((file, line)) {
                    let k = choose|k: int|
                        0 <= k < w.push(s.last()).len() && w.push(s.last())[k] == (file, line);
                    if k < w.len() {
                        assert(w[k] == w.push(s.last())[k]);
                    }
                }
            }
        }
    }
}

/// Toggling a breakpoint flips whether it is set, and leaves every other
/// breakpoint as it was.
pub proof fn lemma_toggle_flips(s: Seq<(Seq<char>, u32)>, file: Seq<char>, line: u32)
    ensures
        ({
            let after = if s.contains((file, line)) {
                without_bp(s, file, line)
            } else {
                s.push((file, line))
            };
            &&& after.contains((file, line)) == !s.contains((file, line))
            &&& forall|b: (Seq<char>, u32)| b != (file, line) ==> (#[trigger] after.contains(b)
                == s.contains(b))
        }),
{
    lemma_without_removes(s, file, line);
    if !s.contains((file, line)) {
        assert(s.push((file, line))[s.len() as int] == (file, line));
        assert forall|b: (Seq<char>, u32)| b != (file, line) implies #[trigger] s.push(
            (file, line),
        ).contains(b) == s.contains(b) by {
            if s.contains(b) {
                let k = choose|k: int| 0 <= k < s.len() && s[k] == b;
                assert(s.push((file, line))[k] == b);
            }
            if s.push((file, line)).contains(b) {
                let k = choose|k: int| 0 <= k < s.len() + 1 && s.push((file, line))[k] == b;
                assert(s[k] == b);
            }
        }
    } else {
        assert forall|b: (Seq<char>, u32)| b != (file, line) implies #[trigger] without_bp(
            s,
            file,
            line,
        ).contains(b) == s.contains(b) by {
            lemma_without_keeps_others(s, file, line, b);
        }
    }
}

/// Removing a breakpoint keeps every other one.
proof fn lemma_without_keeps_others(
    s: Seq<(Seq<char>, u32)>,
    file: Seq<char>,
    line: u32,
    b: (Seq<char>, u32),
)
    requires
        b != (file, line),
    ensures
        without_bp(s, file, line).contains(b) == s.contains(b),
    decreases s.len(),
{
    if s.len() > 0 {
        let t = s.drop_last();
        lemma_without_keeps_others(t, file, line, b);
        let w = without_bp(t, file, line);
        assert(s =~= t.push(s.last()));
        assert(t.push(s.last()).contains(b) == (t.contains(b) || s.last() == b)) by {
            if t.push(s.last()).contains(b) {
                let k = choose|k: int| 0 <= k < t.len() + 1 && t.push(s.last())[k] == b;
                if k < t.len() {
                    assert(t[k] == b);
                }
            }
            if t.contains(b) {
                let k = choose|k: int| 0 <= k < t.len() && t[k] == b;
                assert(t.push(s.last())[k] == b);
            }
            if s.last() == b {
                assert(t.push(s.last())[t.len() as int] == b);
            }
        }
        if s.last() != (file, line) {
            assert(w.push(s.last()).contains(b) == (w.contains(b) || s.last() == b)) by {
                if w.push(s.last()).contains(b) {
                    let k = choose|k: int| 0 <= k < w.len() + 1 && w.push(s.last())[k] == b;
                    if k < w.len() {
                        assert(w[k] == b);
                    }
                }
                if w.contains(b) {
                    let k = choose|k: int| 0 <= k < w.len() && w[k] == b;
                    assert(w.push(s.last())[k] == b);
                }
                if s.last() == b {
                    assert(w.push(s.last())[w.len() as int] == b);
                }
            }
        }
    }
}

/// Setting a breakpoint that was not set and then toggling it again leaves
/// the breakpoints exactly as they were.
pub proof fn lemma_toggle_twice_restores(s: Seq<(Seq<char>, u32)>, file: Seq<char>, line: u32)
    requires
        !s.contains((file, line)),
    ensures
        without_bp(s.push((file, line)), file, line) == s,
{
    assert(s.push((file, line)).drop_last() =~= s);
    assert(s.push((file, line)).last() == (file, line));
    lemma_without_absent(s, file, line);
}

proof fn lemma_without_absent(s: Seq<(Seq<char>, u32)>, file: Seq<char>, line: u32)
    requires
        !s.contains((file, line)),
    ensures
        without_bp(s, file, line) == s,
    decreases s.len(),
{
    if s.len() > 0 {
        let t = s.drop_last();
        assert(!t.contains((file, line))) by {
            if t.contains((file, line)) {
                let k = choose|k: int| 0 <= k < t.len() && t[k] == (file, line);
                assert(s[k] == t[k]);
            }
        }
        assert(s[s.len() - 1] == s.last());
        lemma_without_absent(t, file, line);
        assert(t.push(s.last()) =~= s);
    }
}

impl DebugState {
    /// The state's name, as the status bar shows it.
    pub fn label(&self) -> (r: &'static str)
        ensures
            r@ == state_label(*self),
    {
        match self {
            DebugState::Idle => "Idle",
            DebugState::Running => "Running",
            DebugState::Paused => "Paused",
            DebugState::Stopped => "Stopped",
        }
    }
}

/// The name a state is shown under.
pub open spec fn state_label(s: DebugState) -> Seq<char> {
    match s {
        DebugState::Idle => "Idle"@,
        DebugState::Running => "Running"@,
        DebugState::Paused => "Paused"@,
        DebugState::Stopped => "Stopped"@,
    }
}

impl DebugSession {
    /// A new session for `config` in `cwd`, not yet running.
    pub fn new(config: LaunchConfig, cwd: String) -> (r: Self)
        ensures
            r.config == config,
            r.cwd == cwd,
            r.state == DebugState::Idle,
    {
        DebugSession { config, cwd, state: DebugState::Idle }
    }

    /// True while the session has not ended.
    pub fn is_active(&self) -> (r: bool)
        ensures
            r == (self.state != DebugState::Stopped),
    {
        match self.state {
            DebugState::Stopped => false,
            _ => true,
        }
    }
}

impl LaunchConfig {
    /// A copy of this configuration.
    pub fn duplicate(&self) -> (r: Self)
        ensures
            r == *self,
    {
        LaunchConfig { name: self.name.clone(), program: self.program.clone() }
    }
}

/// The session a fresh start creates: the first launch configuration found,
/// else one that runs the file in the editor.
pub open spec fn start_config_ok(a: App, c: LaunchConfig) -> bool {
    if a.launch_configs@.len() > 0 {
        c == a.launch_configs@[0]
    } else {
        c.name@.len() == 0 && c.program@ == match a.editor.path {
            Some(p) => p@,
            None => Seq::<char>::empty(),
        }
    }
}

/// What a fresh start leaves: a new idle session, the panel shown.
pub open spec fn started(a: App, b: App) -> bool {
    &&& b.debug_session is Some
    &&& b.debug_session.unwrap().state == DebugState::Idle
    &&& b.debug_session.unwrap().cwd == a.file_browser.path
    &&& start_config_ok(a, b.debug_session.unwrap().config)
    &&& b.debug_panel_visible
    &&& b.status@ == "Debug: Session started (adapter not connected)"@
    &&& b.breakpoint_store == a.breakpoint_store
    &&& b.launch_configs == a.launch_configs
}

/// The status line for a breakpoint toggle.
pub open spec fn breakpoint_status(added: bool, file: Seq<char>, line: nat) -> Seq<char> {
    (if added {
        "Breakpoint set at "@
    } else {
        "Breakpoint removed at "@
    }) + file + ":"@ + dec(line)
}

impl App {
    /// Toggles a breakpoint on the editor's cursor line (1-based in the
    /// store); without a file open, only says so.
    pub fn toggle_breakpoint_at_cursor(&mut self)
        requires
            old(self).editor.cursor_line < usize::MAX,
        ensures
            old(self).editor.path is None ==> final(self).status@
                == "No file open — cannot set breakpoint"@ && final(self).breakpoint_store == old(self).breakpoint_store,
            old(self).editor.path matches Some(p) ==> ({
                let line = (old(self).editor.cursor_line + 1) as u32;
                let added = !bps_view(old(self).breakpoint_store.entries@).contains((p@, line));
                &&& added ==> bps_view(final(self).breakpoint_store.entries@) == bps_view(
                    old(self).breakpoint_store.entries@,
                ).push((p@, line))
                &&& !added ==> bps_view(final(self).breakpoint_store.entries@) == without_bp(
                    bps_view(old(self).breakpoint_store.entries@),
                    p@,
                    line,
                )
                &&& final(self).status@ == breakpoint_status(
                    added,
                    p@,
                    (old(self).editor.cursor_line + 1) as nat,
                )
            }),
            final(self).debug_session == old(self).debug_session,
            final(self).debug_panel_visible == old(self).debug_panel_visible,
            same_files(*old(self), *final(self)),
            same_lsp(*old(self), *final(self)),
            same_view(*old(self), *final(self)),
    {
        let path = match &self.editor.path {
            Some(p) => p.clone(),
            None => {
                self.set_status("No file open — cannot set breakpoint".to_owned());
                return;
            },
        };
        let line = self.editor.cursor_line + 1;
        let line32: u32 = #[verifier::truncate] (line as u32);
        let added = self.breakpoint_store.toggle(path.as_str(), line32);
        let head = if added {
            "Breakpoint set at "
        } else {
            "Breakpoint removed at "
        };
        let mut msg = concat3(head, path.as_str(), ":");
        let num = u64_to_string(line as u64);
        push_str(&mut msg, num.as_str());
        self.set_status(msg);
    }

    /// The breakpoints in the editor's file, as 0-based lines, in the order
    /// they were set; none without a file.
    pub fn current_file_breakpoints(&self) -> (r: Vec<usize>)
        ensures
            self.editor.path is None ==> r@.len() == 0,
            self.editor.path matches Some(p) ==> ({
                let ls = lines_in(bps_view(self.breakpoint_store.entries@), p@);
                &&& r@.len() == ls.len()
                &&& forall|i: int| 0 <= i < ls.len() ==> (#[trigger] r@[i]) == (if ls[i] > 0 {
                    ls[i] - 1
                } else {
                    0
                })
            }),
    {
        let path = match &self.editor.path {
            Some(p) => p,
            None => {
                return Vec::new();
            },
        };
        let lines = self.breakpoint_store.get(path.as_str());
        let mut out: Vec<usize> = Vec::new();
        let mut i: usize = 0;
        while i < lines.len()
            invariant
                i <= lines@.len(),
                out@.len() == i,
                forall|j: int| 0 <= j < i ==> (#[trigger] out@[j]) == (if lines@[j] > 0 {
                    lines@[j] - 1
                } else {
                    0
                }),
            decreases lines@.len() - i,
        {
            let l = lines[i] as usize;
            out.push(if l > 0 {
                l - 1
            } else {
                0
            });
            i = i + 1;
        }
        out
    }

    /// Continues a paused session; a running one is left alone; otherwise a
    /// new session starts.
    pub fn debug_continue_or_start(&mut self)
        ensures
            old(self).debug_session matches Some(s) ==> (s.state == DebugState::Paused ==> final(self).debug_session == Some(DebugSession { state: DebugState::Running, ..s })
                && final(self).status@ == "Debug: Continuing..."@ && final(self).debug_panel_visible
                == old(self).debug_panel_visible),
            (old(self).debug_session matches Some(s) && s.state == DebugState::Running) ==> (final(self).debug_session == old(self).debug_session && final(self).status@
                == "Debug: Already running"@ && final(self).debug_panel_visible == old(self).debug_panel_visible),
            (old(self).debug_session is None || old(self).debug_session.unwrap().state
                == DebugState::Idle || old(self).debug_session.unwrap().state
                == DebugState::Stopped) ==> started(*old(self), *final(self)),
            final(self).breakpoint_store == old(self).breakpoint_store,
            final(self).launch_configs == old(self).launch_configs,
            same_files(*old(self), *final(self)),
            same_lsp(*old(self), *final(self)),
            same_view(*old(self), *final(self)),
    {
        let state = match &self.debug_session {
            Some(s) => Some(s.state),
            None => None,
        };
        match state {
            Some(DebugState::Paused) => {
                let mut s = self.debug_session.take().unwrap();
                s.state = DebugState::Running;
                self.debug_session = Some(s);
                self.set_status("Debug: Continuing...".to_owned());
                return;
            },
            Some(DebugState::Running) => {
                self.set_status("Debug: Already running".to_owned());
                return;
            },
            _ => {},
        }
        self.debug_start();
    }

    /// Starts a new debug session from the first launch configuration, or
    /// one that runs the editor's file, in the browser's directory.
    fn debug_start(&mut self)
        ensures
            started(*old(self), *final(self)),
            same_files(*old(self), *final(self)),
            same_lsp(*old(self), *final(self)),
            same_view(*old(self), *final(self)),
    {
        let cwd = self.file_browser.path.clone();
        let config = if self.launch_configs.len() > 0 {
            self.launch_configs[0].duplicate()
        } else {
            let program = match &self.editor.path {
                Some(p) => p.clone(),
                None => String::new(),
            };
            LaunchConfig { name: String::new(), program }
        };
        self.debug_session = Some(DebugSession::new(config, cwd));
        self.debug_panel_visible = true;
        self.set_status("Debug: Session started (adapter not connected)".to_owned());
    }

    /// Stops the current debug session and hides the panel.
    pub fn debug_stop(&mut self)
        ensures
            final(self).debug_session is None,
            !final(self).debug_panel_visible,
            final(self).status@ == "Debug: Session stopped"@,
            final(self).breakpoint_store == old(self).breakpoint_store,
            final(self).launch_configs == old(self).launch_configs,
            same_files(*old(self), *final(self)),
            same_lsp(*old(self), *final(self)),
            same_view(*old(self), *final(self)),
    {
        self.debug_session = None;
        self.debug_panel_visible = false;
        self.set_status("Debug: Session stopped".to_owned());
    }

    /// Restarts the session with the same configuration and directory; with
    /// no session, starts a fresh one.
    pub fn debug_restart(&mut self)
        ensures
            old(self).debug_session matches Some(s) ==> (final(self).debug_session == Some(
                DebugSession { state: DebugState::Idle, ..s },
            ) && final(self).debug_panel_visible && final(self).status@
                == "Debug: Session restarted"@),
            old(self).debug_session is None ==> started(*old(self), *final(self)),
            final(self).breakpoint_store == old(self).breakpoint_store,
            final(self).launch_configs == old(self).launch_configs,
            same_files(*old(self), *final(self)),
            same_lsp(*old(self), *final(self)),
            same_view(*old(self), *final(self)),
    {
        let prev = match &self.debug_session {
            Some(s) => Some((s.config.duplicate(), s.cwd.clone())),
            None => None,
        };
        match prev {
            Some((config, cwd)) => {
                self.debug_stop();
                self.debug_session = Some(DebugSession::new(config, cwd));
                self.debug_panel_visible = true;
                self.set_status("Debug: Session restarted".to_owned());
            },
            None => {
                self.debug_stop();
                self.debug_start();
            },
        }
    }

    /// One stepping command: a paused session runs; otherwise only the
    /// status says why not.
    fn debug_step(&mut self, doing: &str)
        ensures
            old(self).debug_session matches Some(s) ==> (s.state == DebugState::Paused ==> final(self).debug_session == Some(DebugSession { state: DebugState::Running, ..s })
                && final(self).status@ == doing@),
            (old(self).debug_session matches Some(s) && s.state != DebugState::Paused) ==> (final(self).debug_session == old(self).debug_session && final(self).status@
                == "Debug: Not paused — cannot step"@),
            old(self).debug_session is None ==> (final(self).debug_session is None && final(self).status@ == "Debug: No active session"@),
            final(self).debug_panel_visible == old(self).debug_panel_visible,
            final(self).breakpoint_store == old(self).breakpoint_store,
            final(self).launch_configs == old(self).launch_configs,
            same_files(*old(self), *final(self)),
            same_lsp(*old(self), *final(self)),
            same_view(*old(self), *final(self)),
    {
        let state = match &self.debug_session {
            Some(s) => Some(s.state),
            None => None,
        };
        match state {
            Some(DebugState::Paused) => {
                let mut s = self.debug_session.take().unwrap();
                s.state = DebugState::Running;
                self.debug_session = Some(s);
                self.set_status(doing.to_owned());
            },
            Some(_) => {
                self.set_status("Debug: Not paused — cannot step".to_owned());
            },
            None => {
                self.set_status("Debug: No active session".to_owned());
            },
        }
    }

    /// Steps over the current line.
    pub fn debug_step_over(&mut self)
        ensures
            old(self).debug_session matches Some(s) ==> (s.state == DebugState::Paused ==> final(self).debug_session == Some(DebugSession { state: DebugState::Running, ..s })
                && final(self).status@ == "Debug: Stepping over..."@),
            (old(self).debug_session matches Some(s) && s.state != DebugState::Paused) ==> (final(self).debug_session == old(self).debug_session && final(self).status@
                == "Debug: Not paused — cannot step"@),
            old(self).debug_session is None ==> (final(self).debug_session is None && final(self).status@ == "Debug: No active session"@),
            final(self).debug_panel_visible == old(self).debug_panel_visible,
            final(self).breakpoint_store == old(self).breakpoint_store,
            same_files(*old(self), *final(self)),
            same_lsp(*old(self), *final(self)),
            same_view(*old(self), *final(self)),
    {
        self.debug_step("Debug: Stepping over...");
    }

    /// Steps into the current function call.
    pub fn debug_step_in(&mut self)
        ensures
            old(self).debug_session matches Some(s) ==> (s.state == DebugState::Paused ==> final(self).debug_session == Some(DebugSession { state: DebugState::Running, ..s })
                && final(self).status@ == "Debug: Stepping in..."@),
            (old(self).debug_session matches Some(s) && s.state != DebugState::Paused) ==> (final(self).debug_session == old(self).debug_session && final(self).status@
                == "Debug: Not paused — cannot step"@),
            old(self).debug_session is None ==> (final(self).debug_session is None && final(self).status@ == "Debug: No active session"@),
            final(self).debug_panel_visible == old(self).debug_panel_visible,
            final(self).breakpoint_store == old(self).breakpoint_store,
            same_files(*old(self), *final(self)),
            same_lsp(*old(self), *final(self)),
            same_view(*old(self), *final(self)),
    {
        self.debug_step("Debug: Stepping in...");
    }

    /// Steps out of the current function.
    pub fn debug_step_out(&mut self)
        ensures
            old(self).debug_session matches Some(s) ==> (s.state == DebugState::Paused ==> final(self).debug_session == Some(DebugSession { state: DebugState::Running, ..s })
                && final(self).status@ == "Debug: Stepping out..."@),
            (old(self).debug_session matches Some(s) && s.state != DebugState::Paused) ==> (final(self).debug_session == old(self).debug_session && final(self).status@
                == "Debug: Not paused — cannot step"@),
            old(self).debug_session is None ==> (final(self).debug_session is None && final(self).status@ == "Debug: No active session"@),
            final(self).debug_panel_visible == old(self).debug_panel_visible,
            final(self).breakpoint_store == old(self).breakpoint_store,
            same_files(*old(self), *final(self)),
            same_lsp(*old(self), *final(self)),
            same_view(*old(self), *final(self)),
    {
        self.debug_step("Debug: Stepping out...");
    }

    /// Returns whether a debug session exists and has not ended.
    pub fn is_debugging(&self) -> (r: bool)
        ensures
            r == (self.debug_session matches Some(s) && s.state != DebugState::Stopped),
    {
        match &self.debug_session {
            Some(s) => s.is_active(),
            None => false,
        }
    }

    /// The status-bar tag for the session, `[DEBUG: <state>]`; none without
    /// a session.
    pub fn debug_status_text(&self) -> (r: Option<String>)
        ensures
            self.debug_session is None ==> r is None,
            self.debug_session matches Some(s) ==> r matches Some(t) && t@ == "[DEBUG: "@
                + state_label(s.state) + "]"@,
    {
        match &self.debug_session {
            Some(s) => Some(concat3("[DEBUG: ", s.state.label(), "]")),
            None => None,
        }
    }

    /// Returns the debug session.
    pub fn debug_session(&self) -> (r: Option<&DebugSession>)
        ensures
            r == match self.debug_session {
                Some(s) => Some(&s),
                None => None::<&DebugSession>,
            },
    {
        match &self.debug_session {
            Some(s) => Some(s),
            None => None,
        }
    }

    /// Returns the debug session, mutably.
    pub fn debug_session_mut(&mut self) -> (r: Option<&mut DebugSession>)
        ensures
            r is Some <==> old(self).debug_session is Some,
    {
        self.debug_session.as_mut()
    }
}

} // verus!
