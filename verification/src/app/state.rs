//! The application state the key handlers act on: open files and the
//! editor's position, the layout, the language-server panels and the
//! debugger. Drawing, terminals and disk access are done around it; this is
//! what they read and what the handlers change.

use crate::addons::types::AddonConfig;
use crate::app::addon_ops::AddonManager;
use crate::app::docker_hosts::DockerHost;
use crate::app::extension_ops::ExtensionApprovalPrompt;
use crate::app::health_dashboard::HealthDashboard;
use crate::app::k8s::K8sManager;
use crate::lsp::{
    CodeActionResult, DiagnosticStore, DocumentSymbolResult, HoverResult, ReferenceGroup,
    RenameRange, SignatureHelpResult, SymbolInfoResult,
};
use vstd::prelude::*;

verus! {

/// A file open in an editor tab.
#[derive(Debug, Clone)]
pub struct OpenFile {
    /// Path of the file (or the tab's name for an untitled buffer).
    pub path: String,
    /// Name shown on the tab.
    pub name: String,
}

/// The editor pane: which file it shows and where the cursor is.
#[derive(Debug, Clone)]
pub struct EditorState {
    /// The file shown, or `None` for an untitled buffer.
    pub path: Option<String>,
    /// Cursor line (0-based).
    pub cursor_line: usize,
    /// Unsaved changes.
    pub modified: bool,
}

impl EditorState {
    /// An empty untitled buffer.
    pub fn new() -> (r: Self)
        ensures
            r.path is None,
            r.cursor_line == 0,
            !r.modified,
    {
        EditorState { path: None, cursor_line: 0, modified: false }
    }

    /// Shows `path`, cursor at the top, nothing unsaved.
    pub fn open(&mut self, path: &str)
        ensures
            final(self).path matches Some(p) && p@ == path@,
            final(self).cursor_line == 0,
            !final(self).modified,
    {
        self.path = Some(path.to_owned());
        self.cursor_line = 0;
        self.modified = false;
    }

    /// Starts a new untitled buffer.
    pub fn new_buffer(&mut self)
        ensures
            final(self).path is None,
            final(self).cursor_line == 0,
            !final(self).modified,
    {
        self.path = None;
        self.cursor_line = 0;
        self.modified = false;
    }

    /// Moves the cursor to `line`.
    pub fn goto_line(&mut self, line: usize)
        ensures
            final(self).cursor_line == line,
            final(self).path == old(self).path,
            final(self).modified == old(self).modified,
    {
        self.cursor_line = line;
    }

    /// Returns true if the buffer has unsaved changes.
    pub fn is_modified(&self) -> (r: bool)
        ensures
            r == self.modified,
    {
        self.modified
    }
}

/// Which pane has the keyboard.
#[derive(Debug, Clone, Copy, PartialEq, Eq, Structural)]
pub enum FocusedPane {
    /// The terminal pane.
    Terminal,
    /// The editor pane.
    Editor,
}

/// Whether the IDE pane is showing, and which pane has focus.
#[derive(Debug, Clone, Copy, PartialEq, Eq, Structural)]
pub struct Layout {
    /// The editor pane is visible.
    pub ide_visible: bool,
    /// The pane with focus.
    pub focused: FocusedPane,
}

/// The pane that has the focus after switching it: from the terminal to
/// the editor when the editor shows, and from the editor to the terminal.
pub open spec fn toggled_focus(l: Layout) -> FocusedPane {
    match l.focused {
        FocusedPane::Terminal => if l.ide_visible {
            FocusedPane::Editor
        } else {
            FocusedPane::Terminal
        },
        FocusedPane::Editor => FocusedPane::Terminal,
    }
}

impl Layout {
    /// Switches the focus between the panes.
    pub fn toggle_focus(&mut self)
        ensures
            final(self).focused == toggled_focus(*old(self)),
            final(self).ide_visible == old(self).ide_visible,
    {
        self.focused = match self.focused {
            FocusedPane::Terminal => if self.ide_visible {
                FocusedPane::Editor
            } else {
                FocusedPane::Terminal
            },
            FocusedPane::Editor => FocusedPane::Terminal,
        };
    }
}

/// The application's top-level mode.
#[derive(Debug, Clone, Copy, PartialEq, Eq, Structural)]
pub enum AppMode {
    /// Editing and terminal work.
    Normal,
    /// A file browser is showing.
    FileBrowser,
    /// The SSH health dashboard is showing.
    HealthDashboard,
}

/// A popup asking the user something.
#[derive(Debug, Clone, Copy, PartialEq, Eq, Structural)]
pub enum PopupKind {
    /// Unsaved changes: save before closing?
    ConfirmSaveBeforeExit,
    /// The name of a new file.
    CreateFile,
    /// The name of a new folder.
    CreateFolder,
    /// Search in the current file.
    SearchInFile,
    /// Search in files.
    SearchInFiles,
    /// Find a file.
    SearchFiles,
    /// Find a directory.
    SearchDirectories,
    /// The command palette.
    CommandPalette,
    /// The add-on manager.
    AddonManager,
    /// Asking whether an extension may run.
    ExtensionApproval,
    /// A one-time note about a changed key binding.
    KeybindingNotification,
    /// Choosing the editor's key binding mode.
    ModeSwitcher,
    /// Choosing the shell.
    ShellSelector,
    /// Saying that a shell is not installed.
    ShellInstallPrompt,
    /// Choosing the color theme.
    ThemeSelector,
    /// The SSH manager.
    SshManager,
    /// Credentials for an SSH connection.
    SshCredentialPrompt,
    /// The subnet to scan for SSH hosts.
    SshSubnetEntry,
    /// The master password of the stored SSH credentials.
    SshMasterPassword,
}

/// Settings read from the configuration file.
#[derive(Debug, Clone, Copy)]
pub struct AppConfig {
    /// Keep the IDE pane open even with no files.
    pub ide_always: bool,
    /// Ctrl+1..9 connect to the saved SSH hosts.
    pub ssh_number_setting: bool,
}

/// The local file browser.
#[derive(Debug, Clone)]
pub struct FileBrowserState {
    /// Directory being shown.
    pub path: String,
    /// Whether it is showing.
    pub visible: bool,
}

/// State of a debug session.
#[derive(Debug, Clone, Copy, PartialEq, Eq, Structural)]
pub enum DebugState {
    /// Started, adapter not yet running the program.
    Idle,
    /// The program is running.
    Running,
    /// The program is stopped at a breakpoint or step.
    Paused,
    /// The session has ended.
    Stopped,
}

/// How to launch the program being debugged.
#[derive(Debug, Clone)]
pub struct LaunchConfig {
    /// Configuration name.
    pub name: String,
    /// Program to run.
    pub program: String,
}

/// A debug session.
#[derive(Debug, Clone)]
pub struct DebugSession {
    /// How it was launched.
    pub config: LaunchConfig,
    /// Working directory.
    pub cwd: String,
    /// Current state.
    pub state: DebugState,
}

/// A breakpoint: a file and a 1-based line.
#[derive(Debug, Clone)]
pub struct Breakpoint {
    /// The file.
    pub file: String,
    /// 1-based line.
    pub line: u32,
}

/// All breakpoints, in the order they were set.
#[derive(Debug, Clone)]
pub struct BreakpointStore {
    /// The breakpoints.
    pub entries: Vec<Breakpoint>,
}

/// The application state.
pub struct App {
    /// The application keeps running until this is cleared.
    pub running: bool,
    /// Status-bar message.
    pub status: String,
    /// A redraw has been requested.
    pub needs_redraw: bool,
    /// Top-level mode.
    pub mode: AppMode,
    /// The editor pane.
    pub editor: EditorState,
    /// Files open in tabs.
    pub open_files: Vec<OpenFile>,
    /// The current tab.
    pub current_file_idx: usize,
    /// Pane layout.
    pub layout: Layout,
    /// Settings.
    pub config: AppConfig,
    /// Local file browser.
    pub file_browser: FileBrowserState,
    /// Remote directory shown by the remote file browser, when it is active.
    pub remote_file_browser: Option<String>,
    /// Popup showing, if any.
    pub popup: Option<PopupKind>,
    /// Hover popup.
    pub lsp_hover: Option<HoverResult>,
    /// References panel.
    pub lsp_references: Option<Vec<ReferenceGroup>>,
    /// Selected reference (counting across groups).
    pub lsp_references_selected: usize,
    /// References panel scroll offset.
    pub lsp_references_scroll: usize,
    /// Code actions popup.
    pub lsp_code_actions: Option<Vec<CodeActionResult>>,
    /// Selected code action.
    pub lsp_code_action_selected: usize,
    /// Signature help.
    pub lsp_signature_help: Option<SignatureHelpResult>,
    /// Document symbols panel.
    pub lsp_document_symbols: Option<Vec<DocumentSymbolResult>>,
    /// Selected document symbol (in pre-order).
    pub lsp_symbols_selected: usize,
    /// Document symbols scroll offset.
    pub lsp_symbols_scroll: usize,
    /// Workspace symbols panel.
    pub lsp_workspace_symbols: Option<Vec<SymbolInfoResult>>,
    /// Workspace symbol search text.
    pub lsp_workspace_query: String,
    /// Selected workspace symbol.
    pub lsp_workspace_selected: usize,
    /// Rename input.
    pub lsp_rename_input: Option<String>,
    /// Where the renamed name is.
    pub lsp_rename_range: Option<RenameRange>,
    /// Diagnostics panel shown.
    pub lsp_diagnostics_panel_visible: bool,
    /// Selected diagnostic.
    pub lsp_diagnostics_selected: usize,
    /// Diagnostics panel scroll offset.
    pub lsp_diagnostics_scroll: usize,
    /// Diagnostics of every open file.
    pub diagnostic_store: DiagnosticStore,
    /// The debug session, if one exists.
    pub debug_session: Option<DebugSession>,
    /// Debug panel shown.
    pub debug_panel_visible: bool,
    /// Breakpoints.
    pub breakpoint_store: BreakpointStore,
    /// Launch configurations found in the working directory.
    pub launch_configs: Vec<LaunchConfig>,
    /// The Kubernetes screens, while open.
    pub k8s_manager: Option<K8sManager>,
    /// The add-on manager, once opened.
    pub addon_manager: Option<AddonManager>,
    /// Add-on settings and the installed add-ons.
    pub addon_config: AddonConfig,
    /// The SSH health dashboard, while open (its metrics are the
    /// caller's).
    pub health_dashboard: Option<HealthDashboard>,
    /// The extension waiting for the user's approval, if any.
    pub extension_approval_prompt: Option<ExtensionApprovalPrompt>,
    /// The Docker host the Docker screens work on.
    pub docker_host: DockerHost,
}

impl App {
    /// The current tab index points into the open files (or is 0 with none).
    pub open spec fn wf(&self) -> bool {
        if self.open_files@.len() == 0 {
            self.current_file_idx == 0
        } else {
            self.current_file_idx < self.open_files@.len()
        }
    }

    /// Creates the state for a `width` x `height` terminal: nothing open,
    /// terminal focused, IDE hidden.
    pub fn new(width: u16, height: u16) -> (r: Self)
        ensures
            r.wf(),
            r.open_files@.len() == 0,
            r.debug_session is None,
            !r.debug_panel_visible,
            r.breakpoint_store.entries@.len() == 0,
            r.editor.path is None,
            !r.layout.ide_visible,
            r.lsp_hover is None && r.lsp_references is None && r.lsp_code_actions is None
                && r.lsp_signature_help is None && r.lsp_document_symbols is None
                && r.lsp_workspace_symbols is None && r.lsp_rename_input is None,
            r.status@.len() == 0,
            r.k8s_manager is None,
            r.addon_manager is None,
            r.health_dashboard is None,
            r.extension_approval_prompt is None,
            r.docker_host == DockerHost::Local,
            r.addon_config.repository@ == "hastur-dev/ratterm-installer"@,
            r.addon_config.branch@ == "main"@,
            r.addon_config.installed@.len() == 0,
            r.running,
    {
        App {
            running: true,
            status: String::new(),
            needs_redraw: true,
            mode: AppMode::Normal,
            editor: EditorState::new(),
            open_files: Vec::new(),
            current_file_idx: 0,
            layout: Layout { ide_visible: false, focused: FocusedPane::Terminal },
            config: AppConfig { ide_always: false, ssh_number_setting: false },
            file_browser: FileBrowserState { path: ".".to_owned(), visible: false },
            remote_file_browser: None,
            popup: None,
            lsp_hover: None,
            lsp_references: None,
            lsp_references_selected: 0,
            lsp_references_scroll: 0,
            lsp_code_actions: None,
            lsp_code_action_selected: 0,
            lsp_signature_help: None,
            lsp_document_symbols: None,
            lsp_symbols_selected: 0,
            lsp_symbols_scroll: 0,
            lsp_workspace_symbols: None,
            lsp_workspace_query: String::new(),
            lsp_workspace_selected: 0,
            lsp_rename_input: None,
            lsp_rename_range: None,
            lsp_diagnostics_panel_visible: false,
            lsp_diagnostics_selected: 0,
            lsp_diagnostics_scroll: 0,
            diagnostic_store: DiagnosticStore::new(),
            debug_session: None,
            debug_panel_visible: false,
            breakpoint_store: BreakpointStore { entries: Vec::new() },
            launch_configs: Vec::new(),
            k8s_manager: None,
            addon_manager: None,
            addon_config: AddonConfig::new(),
            health_dashboard: None,
            extension_approval_prompt: None,
            docker_host: DockerHost::Local,
        }
    }

    /// Shows a message in the status bar.
    pub fn set_status(&mut self, message: String)
        ensures
            final(self).status == message,
            *final(self) == (App { status: message, ..*old(self) }),
            same_files(*old(self), *final(self)),
            same_lsp(*old(self), *final(self)),
            same_debug(*old(self), *final(self)),
            same_view(*old(self), *final(self)),
            final(self).needs_redraw == old(self).needs_redraw,
    {
        self.status = message;
    }

    /// The status-bar message.
    pub fn status(&self) -> (r: &str)
        ensures
            r@ == self.status@,
    {
        self.status.as_str()
    }

    /// Asks for the screen to be drawn again.
    pub fn request_redraw(&mut self)
        ensures
            final(self).needs_redraw,
            *final(self) == (App { needs_redraw: true, ..*old(self) }),
            final(self).status == old(self).status,
            same_files(*old(self), *final(self)),
            same_lsp(*old(self), *final(self)),
            same_debug(*old(self), *final(self)),
    {
        self.needs_redraw = true;
    }

    /// Shows a popup.
    pub fn show_popup(&mut self, kind: PopupKind)
        ensures
            final(self).popup == Some(kind),
            *final(self) == (App { popup: Some(kind), ..*old(self) }),
            final(self).status == old(self).status,
            final(self).needs_redraw == old(self).needs_redraw,
            same_files(*old(self), *final(self)),
            same_lsp(*old(self), *final(self)),
            same_debug(*old(self), *final(self)),
            final(self).layout == old(self).layout,
            final(self).mode == old(self).mode,
            final(self).file_browser == old(self).file_browser,
            final(self).remote_file_browser == old(self).remote_file_browser,
            final(self).config == old(self).config,
    {
        self.popup = Some(kind);
    }

    /// The path of the file in the editor, if it has one.
    pub fn current_file_path(&self) -> (r: Option<&String>)
        ensures
            r == match self.editor.path {
                Some(p) => Some(&p),
                None => None::<&String>,
            },
    {
        match &self.editor.path {
            Some(p) => Some(p),
            None => None,
        }
    }
}

/// The files, tabs and editor are the same in both states.
pub open spec fn same_files(a: App, b: App) -> bool {
    a.editor == b.editor && a.open_files == b.open_files && a.current_file_idx == b.current_file_idx
}

/// The language-server panels and diagnostics are the same in both states.
pub open spec fn same_lsp(a: App, b: App) -> bool {
    &&& a.lsp_hover == b.lsp_hover
    &&& a.lsp_references == b.lsp_references
    &&& a.lsp_references_selected == b.lsp_references_selected
    &&& a.lsp_references_scroll == b.lsp_references_scroll
    &&& a.lsp_code_actions == b.lsp_code_actions
    &&& a.lsp_code_action_selected == b.lsp_code_action_selected
    &&& a.lsp_signature_help == b.lsp_signature_help
    &&& a.lsp_document_symbols == b.lsp_document_symbols
    &&& a.lsp_symbols_selected == b.lsp_symbols_selected
    &&& a.lsp_symbols_scroll == b.lsp_symbols_scroll
    &&& a.lsp_workspace_symbols == b.lsp_workspace_symbols
    &&& a.lsp_workspace_query == b.lsp_workspace_query
    &&& a.lsp_workspace_selected == b.lsp_workspace_selected
    &&& a.lsp_rename_input == b.lsp_rename_input
    &&& a.lsp_rename_range == b.lsp_rename_range
    &&& a.lsp_diagnostics_panel_visible == b.lsp_diagnostics_panel_visible
    &&& a.lsp_diagnostics_selected == b.lsp_diagnostics_selected
    &&& a.lsp_diagnostics_scroll == b.lsp_diagnostics_scroll
    &&& a.diagnostic_store == b.diagnostic_store
}

/// The debugger state is the same in both states.
pub open spec fn same_debug(a: App, b: App) -> bool {
    a.debug_session == b.debug_session && a.debug_panel_visible == b.debug_panel_visible
        && a.breakpoint_store == b.breakpoint_store && a.launch_configs == b.launch_configs
}

/// Layout, mode, browsers, popups and settings are the same in both states,
/// and so is everything else outside the files, the language-server panels
/// and the debugger: whether the application runs and needs drawing, the
/// Kubernetes and add-on screens, the add-on settings, the health
/// dashboard, the extension prompt and the Docker host.
pub open spec fn same_view(a: App, b: App) -> bool {
    &&& a.layout == b.layout
    &&& a.mode == b.mode
    &&& a.file_browser == b.file_browser
    &&& a.remote_file_browser == b.remote_file_browser
    &&& a.popup == b.popup
    &&& a.config == b.config
    &&& a.running == b.running
    &&& a.needs_redraw == b.needs_redraw
    &&& a.k8s_manager == b.k8s_manager
    &&& a.addon_manager == b.addon_manager
    &&& a.addon_config == b.addon_config
    &&& a.health_dashboard == b.health_dashboard
    &&& a.extension_approval_prompt == b.extension_approval_prompt
    &&& a.docker_host == b.docker_host
}

} // verus!
