//! Routing of control-API requests to the operation they name.

use crate::addons::installer::ProcessStatus;
use crate::api::protocol::{
    BackgroundStatusValue, EditorTabInfo, EditorTabsResult, FocusPaneParams, QuitParams,
    SetStatusParams, StatusResult, VersionResult,
};
use crate::api::ApiError;
use crate::app::state::{same_debug, same_lsp, App, FocusedPane, Layout, PopupKind};
use crate::text::{concat2, lowercase, str_eq, to_lowercase};
use vstd::prelude::*;

verus! {

/// API request handler.
pub struct ApiHandler;

/// The operations the API offers, one per method name.
#[derive(Debug, Clone, Copy, PartialEq, Eq, Structural)]
pub enum ApiMethod {
    /// `terminal.send_keys`.
    TerminalSendKeys,
    /// `terminal.read_buffer`.
    TerminalReadBuffer,
    /// `terminal.get_size`.
    TerminalGetSize,
    /// `editor.open_file`.
    EditorOpenFile,
    /// `editor.read_content`.
    EditorReadContent,
    /// `editor.write_content`.
    EditorWriteContent,
    /// `editor.save`.
    EditorSave,
    /// `editor.close`.
    EditorClose,
    /// `editor.get_cursor`.
    EditorGetCursor,
    /// `editor.set_cursor`.
    EditorSetCursor,
    /// `layout.focus_pane`.
    LayoutFocusPane,
    /// `layout.toggle_ide`.
    LayoutToggleIde,
    /// `layout.get_state`.
    LayoutGetState,
    /// `layout.resize_split`.
    LayoutResizeSplit,
    /// `tabs.list_terminal`.
    TabsListTerminal,
    /// `tabs.list_editor`.
    TabsListEditor,
    /// `tabs.new_terminal`.
    TabsNewTerminal,
    /// `tabs.close_terminal`.
    TabsCloseTerminal,
    /// `tabs.switch_terminal`.
    TabsSwitchTerminal,
    /// `system.get_cwd`.
    SystemGetCwd,
    /// `system.set_status`.
    SystemSetStatus,
    /// `system.get_status`.
    SystemGetStatus,
    /// `system.get_version`.
    SystemGetVersion,
    /// `system.quit`.
    SystemQuit,
    /// `theme.get`.
    ThemeGet,
    /// `theme.set`.
    ThemeSet,
    /// `theme.list`.
    ThemeList,
    /// `background.start`.
    BackgroundStart,
    /// `background.list`.
    BackgroundList,
    /// `background.status`.
    BackgroundStatus,
    /// `background.output`.
    BackgroundOutput,
    /// `background.kill`.
    BackgroundKill,
    /// `background.clear`.
    BackgroundClear,
}

/// The operation a method name selects, if it names one.
pub open spec fn method_of(m: Seq<char>) -> Option<ApiMethod> {
    if m == "terminal.send_keys"@ {
        Some(ApiMethod::TerminalSendKeys)
    } else if m == "terminal.read_buffer"@ {
        Some(ApiMethod::TerminalReadBuffer)
    } else if m == "terminal.get_size"@ {
        Some(ApiMethod::TerminalGetSize)
    } else if m == "editor.open_file"@ {
        Some(ApiMethod::EditorOpenFile)
    } else if m == "editor.read_content"@ {
        Some(ApiMethod::EditorReadContent)
    } else if m == "editor.write_content"@ {
        Some(ApiMethod::EditorWriteContent)
    } else if m == "editor.save"@ {
        Some(ApiMethod::EditorSave)
    } else if m == "editor.close"@ {
        Some(ApiMethod::EditorClose)
    } else if m == "editor.get_cursor"@ {
        Some(ApiMethod::EditorGetCursor)
    } else if m == "editor.set_cursor"@ {
        Some(ApiMethod::EditorSetCursor)
    } else if m == "layout.focus_pane"@ {
        Some(ApiMethod::LayoutFocusPane)
    } else if m == "layout.toggle_ide"@ {
        Some(ApiMethod::LayoutToggleIde)
    } else if m == "layout.get_state"@ {
        Some(ApiMethod::LayoutGetState)
    } else if m == "layout.resize_split"@ {
        Some(ApiMethod::LayoutResizeSplit)
    } else if m == "tabs.list_terminal"@ {
        Some(ApiMethod::TabsListTerminal)
    } else if m == "tabs.list_editor"@ {
        Some(ApiMethod::TabsListEditor)
    } else if m == "tabs.new_terminal"@ {
        Some(ApiMethod::TabsNewTerminal)
    } else if m == "tabs.close_terminal"@ {
        Some(ApiMethod::TabsCloseTerminal)
    } else if m == "tabs.switch_terminal"@ {
        Some(ApiMethod::TabsSwitchTerminal)
    } else if m == "system.get_cwd"@ {
        Some(ApiMethod::SystemGetCwd)
    } else if m == "system.set_status"@ {
        Some(ApiMethod::SystemSetStatus)
    } else if m == "system.get_status"@ {
        Some(ApiMethod::SystemGetStatus)
    } else if m == "system.get_version"@ {
        Some(ApiMethod::SystemGetVersion)
    } else if m == "system.quit"@ {
        Some(ApiMethod::SystemQuit)
    } else if m == "theme.get"@ {
        Some(ApiMethod::ThemeGet)
    } else if m == "theme.set"@ {
        Some(ApiMethod::ThemeSet)
    } else if m == "theme.list"@ {
        Some(ApiMethod::ThemeList)
    } else if m == "background.start"@ {
        Some(ApiMethod::BackgroundStart)
    } else if m == "background.list"@ {
        Some(ApiMethod::BackgroundList)
    } else if m == "background.status"@ {
        Some(ApiMethod::BackgroundStatus)
    } else if m == "background.output"@ {
        Some(ApiMethod::BackgroundOutput)
    } else if m == "background.kill"@ {
        Some(ApiMethod::BackgroundKill)
    } else if m == "background.clear"@ {
        Some(ApiMethod::BackgroundClear)
    } else {
        None
    }
}

/// Looks up the operation a method name selects.
pub fn lookup_method(method: &str) -> (r: Option<ApiMethod>)
    ensures
        r == method_of(method@),
{
    if str_eq(method, "terminal.send_keys") {
        Some(ApiMethod::TerminalSendKeys)
    } else if str_eq(method, "terminal.read_buffer") {
        Some(ApiMethod::TerminalReadBuffer)
    } else if str_eq(method, "terminal.get_size") {
        Some(ApiMethod::TerminalGetSize)
    } else if str_eq(method, "editor.open_file") {
        Some(ApiMethod::EditorOpenFile)
    } else if str_eq(method, "editor.read_content") {
        Some(ApiMethod::EditorReadContent)
    } else if str_eq(method, "editor.write_content") {
        Some(ApiMethod::EditorWriteContent)
    } else if str_eq(method, "editor.save") {
        Some(ApiMethod::EditorSave)
    } else if str_eq(method, "editor.close") {
        Some(ApiMethod::EditorClose)
    } else if str_eq(method, "editor.get_cursor") {
        Some(ApiMethod::EditorGetCursor)
    } else if str_eq(method, "editor.set_cursor") {
        Some(ApiMethod::EditorSetCursor)
    } else if str_eq(method, "layout.focus_pane") {
        Some(ApiMethod::LayoutFocusPane)
    } else if str_eq(method, "layout.toggle_ide") {
        Some(ApiMethod::LayoutToggleIde)
    } else if str_eq(method, "layout.get_state") {
        Some(ApiMethod::LayoutGetState)
    } else if str_eq(method, "layout.resize_split") {
        Some(ApiMethod::LayoutResizeSplit)
    } else if str_eq(method, "tabs.list_terminal") {
        Some(ApiMethod::TabsListTerminal)
    } else if str_eq(method, "tabs.list_editor") {
        Some(ApiMethod::TabsListEditor)
    } else if str_eq(method, "tabs.new_terminal") {
        Some(ApiMethod::TabsNewTerminal)
    } else if str_eq(method, "tabs.close_terminal") {
        Some(ApiMethod::TabsCloseTerminal)
    } else if str_eq(method, "tabs.switch_terminal") {
        Some(ApiMethod::TabsSwitchTerminal)
    } else if str_eq(method, "system.get_cwd") {
        Some(ApiMethod::SystemGetCwd)
    } else if str_eq(method, "system.set_status") {
        Some(ApiMethod::SystemSetStatus)
    } else if str_eq(method, "system.get_status") {
        Some(ApiMethod::SystemGetStatus)
    } else if str_eq(method, "system.get_version") {
        Some(ApiMethod::SystemGetVersion)
    } else if str_eq(method, "system.quit") {
        Some(ApiMethod::SystemQuit)
    } else if str_eq(method, "theme.get") {
        Some(ApiMethod::ThemeGet)
    } else if str_eq(method, "theme.set") {
        Some(ApiMethod::ThemeSet)
    } else if str_eq(method, "theme.list") {
        Some(ApiMethod::ThemeList)
    } else if str_eq(method, "background.start") {
        Some(ApiMethod::BackgroundStart)
    } else if str_eq(method, "background.list") {
        Some(ApiMethod::BackgroundList)
    } else if str_eq(method, "background.status") {
        Some(ApiMethod::BackgroundStatus)
    } else if str_eq(method, "background.output") {
        Some(ApiMethod::BackgroundOutput)
    } else if str_eq(method, "background.kill") {
        Some(ApiMethod::BackgroundKill)
    } else if str_eq(method, "background.clear") {
        Some(ApiMethod::BackgroundClear)
    } else {
        None
    }
}

/// `info` describes editor tab `i` of `app`: its index, name and whether
/// it is the current tab. The library holds the buffer of the current tab
/// only, so that tab reports the buffer's path (none while untitled) and
/// its unsaved changes; any other tab reports its file's path and none.
pub open spec fn tab_info(app: App, i: int, info: EditorTabInfo) -> bool {
    let active = i == app.current_file_idx;
    &&& info.index == i
    &&& info.name == app.open_files@[i].name
    &&& info.active == active
    &&& info.path == (if active {
        app.editor.path
    } else {
        Some(app.open_files@[i].path)
    })
    &&& info.modified == (active && app.editor.modified)
}

impl ApiHandler {
    /// Creates a new API handler.
    pub fn new() -> (r: Self) {
        ApiHandler
    }

    /// The operation a request's method selects; an unknown method is
    /// `MethodNotFound` with the method's name.
    pub fn route(&self, method: &str) -> (r: Result<ApiMethod, ApiError>)
        ensures
            match method_of(method@) {
                Some(op) => r == Ok::<ApiMethod, ApiError>(op),
                None => r matches Err(ApiError::MethodNotFound(name)) && name@ == method@,
            },
    {
        match lookup_method(method) {
            Some(op) => Ok(op),
            None => Err(ApiError::MethodNotFound(method.to_owned())),
        }
    }

    /// Converts a process state to the status the API reports.
    pub fn convert_status(status: ProcessStatus) -> (r: BackgroundStatusValue)
        ensures
            r == (match status {
                ProcessStatus::Running => BackgroundStatusValue::Running,
                ProcessStatus::Completed => BackgroundStatusValue::Completed,
                ProcessStatus::Error => BackgroundStatusValue::Error,
                ProcessStatus::Killed => BackgroundStatusValue::Killed,
            }),
    {
        match status {
            ProcessStatus::Running => BackgroundStatusValue::Running,
            ProcessStatus::Completed => BackgroundStatusValue::Completed,
            ProcessStatus::Error => BackgroundStatusValue::Error,
            ProcessStatus::Killed => BackgroundStatusValue::Killed,
        }
    }

    /// `layout.focus_pane`: focuses the pane named (in any case)
    /// `terminal` or `editor`, showing the editor pane first when it is
    /// hidden. Any other name is `InvalidParams`.
    pub fn handle_layout_focus_pane(&self, params: &FocusPaneParams, app: &mut App) -> (r: Result<
        (),
        ApiError,
    >)
        ensures
            lowercase(params.pane@) == "terminal"@ ==> r is Ok && *final(app) == (App {
                layout: Layout { focused: FocusedPane::Terminal, ..old(app).layout },
                ..*old(app)
            }),
            lowercase(params.pane@) == "editor"@ ==> r is Ok && *final(app) == (App {
                layout: Layout { focused: FocusedPane::Editor, ide_visible: true },
                ..*old(app)
            }),
            (lowercase(params.pane@) != "terminal"@ && lowercase(params.pane@) != "editor"@) ==> (
            r matches Err(ApiError::InvalidParams(m)) && m@ == "Invalid pane: "@ + params.pane@
                && *final(app) == *old(app)),
    {
        let pane = to_lowercase(params.pane.as_str());
        proof {
            reveal_strlit("terminal");
            reveal_strlit("editor");
            assert("terminal"@[0] != "editor"@[0]);
        }
        if str_eq(pane.as_str(), "terminal") {
            app.layout.focused = FocusedPane::Terminal;
            Ok(())
        } else if str_eq(pane.as_str(), "editor") {
            if !app.layout.ide_visible {
                app.layout.ide_visible = true;
            }
            app.layout.focused = FocusedPane::Editor;
            Ok(())
        } else {
            Err(ApiError::InvalidParams(concat2("Invalid pane: ", params.pane.as_str())))
        }
    }

    /// `editor.close`: closes the current file, as the editor's own close
    /// does.
    pub fn handle_editor_close(&self, app: &mut App) -> (r: Result<(), ApiError>)
        requires
            old(app).wf(),
        ensures
            r is Ok,
            final(app).wf(),
            old(app).open_files@.len() == 0 ==> final(app).status@ == "No tabs to close"@,
            (old(app).open_files@.len() > 0 && !old(app).editor.modified) ==> final(app).open_files@
                == old(app).open_files@.remove(old(app).current_file_idx as int),
            (old(app).open_files@.len() > 0 && old(app).editor.modified) ==> final(app).open_files
                == old(app).open_files,
            same_lsp(*old(app), *final(app)),
            same_debug(*old(app), *final(app)),
    {
        app.close_current_file();
        Ok(())
    }

    /// `system.set_status`: shows the message on the status line.
    pub fn handle_system_set_status(&self, params: &SetStatusParams, app: &mut App) -> (r: Result<
        (),
        ApiError,
    >)
        ensures
            r is Ok,
            final(app).status@ == params.message@,
            *final(app) == (App { status: final(app).status, ..*old(app) }),
    {
        app.set_status(params.message.clone());
        Ok(())
    }

    /// `system.get_status`: the status line's message.
    pub fn handle_system_get_status(&self, app: &App) -> (r: Result<StatusResult, ApiError>)
        ensures
            r matches Ok(s) && s.message@ == app.status@,
    {
        Ok(StatusResult { message: app.status.clone() })
    }

    /// `layout.toggle_ide`: shows the editor pane if it is hidden, hides it
    /// otherwise, and answers whether it now shows.
    pub fn handle_layout_toggle_ide(&self, app: &mut App) -> (r: Result<bool, ApiError>)
        ensures
            r == Ok::<bool, ApiError>(!old(app).layout.ide_visible),
            *final(app) == (App {
                layout: Layout { ide_visible: !old(app).layout.ide_visible, ..old(app).layout },
                ..*old(app)
            }),
    {
        app.layout.ide_visible = !app.layout.ide_visible;
        Ok(app.layout.ide_visible)
    }

    /// `tabs.list_editor`: every editor tab, in order, as `tab_info` says.
    pub fn handle_tabs_list_editor(&self, app: &App) -> (r: Result<EditorTabsResult, ApiError>)
        ensures
            r matches Ok(t) && t.tabs@.len() == app.open_files@.len() && forall|i: int|
                0 <= i < t.tabs@.len() ==> tab_info(*app, i, #[trigger] t.tabs@[i]),
    {
        let mut tabs: Vec<EditorTabInfo> = Vec::new();
        let mut i: usize = 0;
        while i < app.open_files.len()
            invariant
                i <= app.open_files@.len(),
                tabs@.len() == i,
                forall|k: int| 0 <= k < i ==> tab_info(*app, k, #[trigger] tabs@[k]),
            decreases app.open_files@.len() - i,
        {
            let active = i == app.current_file_idx;
            let f = &app.open_files[i];
            let path = if active {
                app.editor.path.clone()
            } else {
                Some(f.path.clone())
            };
            tabs.push(
                EditorTabInfo {
                    index: i,
                    name: f.name.clone(),
                    path,
                    modified: active && app.editor.modified,
                    active,
                },
            );
            i = i + 1;
        }
        Ok(EditorTabsResult { tabs })
    }

    /// `system.get_version`: the application's version, `version`.
    pub fn handle_system_get_version(&self, version: &str) -> (r: Result<VersionResult, ApiError>)
        ensures
            r matches Ok(v) && v.version@ == version@,
    {
        Ok(VersionResult { version: version.to_owned() })
    }

    /// `system.quit`: with `force`, the application stops at once;
    /// otherwise it asks first whether to save unsaved changes, and stops
    /// when there are none.
    pub fn handle_system_quit(&self, params: &QuitParams, app: &mut App) -> (r: Result<(), ApiError>)
        ensures
            r is Ok,
            (params.force || !old(app).editor.modified) ==> *final(app) == (App {
                running: false,
                ..*old(app)
            }),
            (!params.force && old(app).editor.modified) ==> *final(app) == (App {
                popup: Some(PopupKind::ConfirmSaveBeforeExit),
                ..*old(app)
            }),
    {
        if params.force || !app.editor.modified {
            app.running = false;
        } else {
            app.popup = Some(PopupKind::ConfirmSaveBeforeExit);
        }
        Ok(())
    }
}

} // verus!
