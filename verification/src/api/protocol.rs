//! Message types of the control API's JSON-RPC style protocol.
//!
//! These are the plain shapes of each method's parameters and results; the
//! JSON encoding is done at the edge.

use vstd::prelude::*;

verus! {

/// Error response structure.
#[derive(Debug, Clone)]
pub struct ApiErrorResponse {
    /// Error code.
    pub code: i32,
    /// Error message.
    pub message: String,
}


// ============================================================================
// Terminal operation parameters
// ============================================================================

/// Parameters for terminal.send_keys.
#[derive(Debug, Clone)]
pub struct SendKeysParams {
    /// Keys/text to send (can include escape sequences).
    pub keys: String,
    /// Optional tab index (default: active tab).
    pub tab_index: Option<usize>,
}

/// Parameters for terminal.read_buffer.
#[derive(Debug, Clone, Default)]
pub struct ReadBufferParams {
    /// Optional tab index (default: active tab).
    pub tab_index: Option<usize>,
    /// Number of lines to read (default: all visible).
    pub lines: Option<usize>,
    /// Line offset from top (default: 0).
    pub offset: Option<usize>,
}

/// Result for terminal.read_buffer.
#[derive(Debug, Clone)]
pub struct ReadBufferResult {
    /// Terminal content lines.
    pub lines: Vec<String>,
    /// Cursor position.
    pub cursor: CursorPosition,
    /// Terminal size.
    pub size: TerminalSize,
}

/// Parameters for terminal.execute.
#[derive(Debug, Clone)]
pub struct ExecuteParams {
    /// Command to execute.
    pub command: String,
    /// Optional tab index (default: active tab).
    pub tab_index: Option<usize>,
    /// Timeout in milliseconds (default: 5000).
    pub timeout_ms: u64,
}

/// The default command timeout in milliseconds.
pub fn default_timeout() -> (r: u64)
    ensures
        r == 5000,
{
    5000
}

/// Result for terminal.get_size.
#[derive(Debug, Clone)]
pub struct TerminalSize {
    /// Number of columns.
    pub cols: u16,
    /// Number of rows.
    pub rows: u16,
}

/// Cursor position.
#[derive(Debug, Clone)]
pub struct CursorPosition {
    /// Column (0-indexed).
    pub col: u16,
    /// Row (0-indexed).
    pub row: u16,
}

// ============================================================================
// Editor operation parameters
// ============================================================================

/// Parameters for editor.open_file.
#[derive(Debug, Clone)]
pub struct OpenFileParams {
    /// File path to open.
    pub path: String,
}

/// Result for editor.read_content.
#[derive(Debug, Clone)]
pub struct EditorContentResult {
    /// File content.
    pub content: String,
    /// File path (if saved).
    pub path: Option<String>,
    /// Whether file has unsaved changes.
    pub modified: bool,
    /// Cursor position.
    pub cursor: CursorPosition,
}

/// Parameters for editor.write_content.
#[derive(Debug, Clone)]
pub struct WriteContentParams {
    /// Content to write.
    pub content: String,
}

/// Parameters for editor.insert.
#[derive(Debug, Clone)]
pub struct InsertParams {
    /// Text to insert.
    pub text: String,
    /// Position to insert at (default: cursor position).
    pub position: Option<CursorPosition>,
}

/// Parameters for editor.save.
#[derive(Debug, Clone, Default)]
pub struct SaveParams {
    /// Optional path to save as.
    pub path: Option<String>,
}

/// Parameters for editor.set_cursor.
#[derive(Debug, Clone)]
pub struct SetCursorParams {
    /// Line number (0-indexed).
    pub line: usize,
    /// Column number (0-indexed).
    pub col: usize,
}

// ============================================================================
// Layout operation parameters
// ============================================================================

/// Parameters for layout.focus_pane.
#[derive(Debug, Clone)]
pub struct FocusPaneParams {
    /// Pane to focus: "terminal" or "editor".
    pub pane: String,
}



// ============================================================================
// Tab operation parameters
// ============================================================================

/// Result for tabs.list_terminal.
#[derive(Debug, Clone)]
pub struct TerminalTabsResult {
    /// List of terminal tabs.
    pub tabs: Vec<TerminalTabInfo>,
}

/// Terminal tab information.
#[derive(Debug, Clone)]
pub struct TerminalTabInfo {
    /// Tab index.
    pub index: usize,
    /// Tab name/title.
    pub name: String,
    /// Whether this tab is active.
    pub active: bool,
}

/// Result for tabs.list_editor.
#[derive(Debug, Clone)]
pub struct EditorTabsResult {
    /// List of editor tabs.
    pub tabs: Vec<EditorTabInfo>,
}

/// Editor tab information.
#[derive(Debug, Clone)]
pub struct EditorTabInfo {
    /// Tab index.
    pub index: usize,
    /// File name.
    pub name: String,
    /// File path (if saved).
    pub path: Option<String>,
    /// Whether file has unsaved changes.
    pub modified: bool,
    /// Whether this tab is active.
    pub active: bool,
}

/// Parameters for tabs.new_terminal.
#[derive(Debug, Clone, Default)]
pub struct NewTerminalParams {
    /// Optional shell to use.
    pub shell: Option<String>,
}

/// Parameters for tabs.switch_terminal or tabs.switch_editor.
#[derive(Debug, Clone)]
pub struct SwitchTabParams {
    /// Tab index to switch to.
    pub index: usize,
}

/// Parameters for tabs.close_terminal or tabs.close_editor.
#[derive(Debug, Clone, Default)]
pub struct CloseTabParams {
    /// Optional tab index (default: active tab).
    pub index: Option<usize>,
}

// ============================================================================
// System operation parameters
// ============================================================================

/// Parameters for system.set_cwd.
#[derive(Debug, Clone)]
pub struct SetCwdParams {
    /// New working directory path.
    pub path: String,
}

/// Result for system.get_cwd.
#[derive(Debug, Clone)]
pub struct CwdResult {
    /// Current working directory.
    pub path: String,
}

/// Parameters for system.set_status.
#[derive(Debug, Clone)]
pub struct SetStatusParams {
    /// Status message to display.
    pub message: String,
}

/// Result for system.get_status.
#[derive(Debug, Clone)]
pub struct StatusResult {
    /// Current status message.
    pub message: String,
}

/// Result for system.get_version.
#[derive(Debug, Clone)]
pub struct VersionResult {
    /// Application version.
    pub version: String,
}

/// Parameters for system.quit.
#[derive(Debug, Clone, Default)]
pub struct QuitParams {
    /// Force quit without save prompts.
    pub force: bool,
}

// ============================================================================
// Theme operation parameters
// ============================================================================

/// Parameters for theme.set.
#[derive(Debug, Clone)]
pub struct SetThemeParams {
    /// Theme name to apply.
    pub name: String,
}

// ============================================================================
// Background process operation parameters
// ============================================================================

/// Parameters for background.start.
#[derive(Debug, Clone)]
pub struct BackgroundStartParams {
    /// Command to execute in background.
    pub command: String,
}

/// Result for background.start.
#[derive(Debug, Clone)]
pub struct BackgroundStartResult {
    /// Process ID.
    pub id: u64,
}

/// Parameters for background.status or background.output.
#[derive(Debug, Clone)]
pub struct BackgroundProcessParams {
    /// Process ID.
    pub id: u64,
}

/// Background process status values.
#[derive(Debug, Clone, Copy, PartialEq, Eq, Structural)]
pub enum BackgroundStatusValue {
    /// Still running.
    Running,
    /// Finished successfully.
    Completed,
    /// Finished with an error.
    Error,
    /// Killed before finishing.
    Killed,
}

/// Result for background.status.
#[derive(Debug, Clone)]
pub struct BackgroundStatusResult {
    /// Process ID.
    pub id: u64,
    /// Command that was executed.
    pub command: String,
    /// Current status.
    pub status: BackgroundStatusValue,
    /// Exit code (if finished).
    pub exit_code: Option<i32>,
    /// Error message (if error occurred).
    pub error_message: Option<String>,
    /// Duration in milliseconds (if finished).
    pub duration_ms: Option<u64>,
}

/// Result for background.output.
#[derive(Debug, Clone)]
pub struct BackgroundOutputResult {
    /// Process ID.
    pub id: u64,
    /// Output content (stdout + stderr combined).
    pub output: String,
    /// Current status.
    pub status: BackgroundStatusValue,
}

/// Result for background.list.
#[derive(Debug, Clone)]
pub struct BackgroundListResult {
    /// List of background processes.
    pub processes: Vec<BackgroundStatusResult>,
    /// Number of currently running processes.
    pub running_count: usize,
    /// Number of processes with errors.
    pub error_count: usize,
}

/// Result for background.kill.
#[derive(Debug, Clone)]
pub struct BackgroundKillResult {
    /// Process ID that was killed.
    pub id: u64,
}

// ============================================================================
// Docker operation parameters
// ============================================================================

/// Result for docker.list_containers.
#[derive(Debug, Clone)]
pub struct DockerContainersResult {
    /// Running containers.
    pub running: Vec<DockerContainerInfo>,
    /// Stopped containers.
    pub stopped: Vec<DockerContainerInfo>,
}

/// Docker container information.
#[derive(Debug, Clone)]
pub struct DockerContainerInfo {
    /// Container ID (short form).
    pub id: String,
    /// Container name.
    pub name: String,
    /// Image name.
    pub image: String,
    /// Container status (running/stopped).
    pub status: String,
    /// Port mappings.
    pub ports: Vec<String>,
}

/// Result for docker.list_images.
#[derive(Debug, Clone)]
pub struct DockerImagesResult {
    /// Available images.
    pub images: Vec<DockerImageInfo>,
}

/// Docker image information.
#[derive(Debug, Clone)]
pub struct DockerImageInfo {
    /// Image ID.
    pub id: String,
    /// Repository name.
    pub repository: String,
    /// Image tag.
    pub tag: String,
    /// Image size.
    pub size: String,
}

/// Parameters for docker.exec.
#[derive(Debug, Clone)]
pub struct DockerExecParams {
    /// Container ID or name.
    pub container: String,
    /// Shell to use (default: /bin/sh).
    pub shell: Option<String>,
}

/// Parameters for docker.run.
#[derive(Debug, Clone)]
pub struct DockerRunParams {
    /// Image name.
    pub image: String,
    /// Optional container name.
    pub name: Option<String>,
    /// Port mappings (e.g., "8080:80").
    pub ports: Vec<String>,
    /// Volume mounts (e.g., "/host:/container").
    pub volumes: Vec<String>,
    /// Environment variables (e.g., "KEY=VALUE").
    pub env: Vec<String>,
    /// Shell to use (default: /bin/sh).
    pub shell: Option<String>,
}

/// Parameters for docker.quick_connect.
#[derive(Debug, Clone)]
pub struct DockerQuickConnectParams {
    /// Slot number (1-9).
    pub slot: usize,
}

/// Parameters for docker.assign_quick_connect.
#[derive(Debug, Clone)]
pub struct DockerAssignQuickConnectParams {
    /// Slot number (1-9).
    pub slot: usize,
    /// Container ID or image name.
    pub target: String,
    /// Type: "container" or "image".
    pub target_type: String,
}

/// Result for docker.get_status.
#[derive(Debug, Clone)]
pub struct DockerStatusResult {
    /// Whether Docker is available.
    pub available: bool,
    /// Docker version (if available).
    pub version: Option<String>,
    /// Error message (if unavailable).
    pub error: Option<String>,
}

/// Result for docker.quick_connect_slots.
#[derive(Debug, Clone)]
pub struct DockerQuickConnectSlotsResult {
    /// Assigned quick connect slots.
    pub slots: Vec<DockerQuickConnectSlot>,
}

/// Quick connect slot information.
#[derive(Debug, Clone)]
pub struct DockerQuickConnectSlot {
    /// Slot number (1-9).
    pub slot: usize,
    /// Target container ID or image name.
    pub target: Option<String>,
    /// Target type: "container" or "image".
    pub target_type: Option<String>,
}

} // verus!
