//! The command palette's commands: each command ID names one operation.
//! The operations on the state kept here are carried out here; the others
//! (editing, terminals, SSH, Docker, themes, the clipboard, the disk) are
//! handed back to the caller.

use crate::app::state::{same_debug, same_lsp, App, FocusedPane, PopupKind};
use crate::text::{concat2, str_eq};
use vstd::prelude::*;

verus! {

/// A command of the palette.
#[derive(Debug, Clone, Copy, PartialEq, Eq, Structural)]
pub enum Command {
    /// A new file (asks for its name).
    FileNew,
    /// A new folder (asks for its name).
    FileNewFolder,
    /// Open a file through the file browser.
    FileOpen,
    /// Save the current file.
    FileSave,
    /// Close the current file.
    FileClose,
    /// Undo.
    EditUndo,
    /// Redo.
    EditRedo,
    /// Copy the selection.
    EditCopy,
    /// Paste.
    EditPaste,
    /// Select everything.
    EditSelectAll,
    /// Select the line.
    EditSelectLine,
    /// Duplicate the line.
    EditDuplicateLine,
    /// Delete the line.
    EditDeleteLine,
    /// Move the line up.
    EditMoveLineUp,
    /// Move the line down.
    EditMoveLineDown,
    /// Comment or uncomment.
    EditToggleComment,
    /// Indent.
    EditIndent,
    /// Outdent.
    EditOutdent,
    /// Search in the file.
    SearchInFile,
    /// Search in files.
    SearchInFiles,
    /// Find a file.
    SearchFiles,
    /// Find a directory.
    SearchDirectories,
    /// Focus the terminal.
    ViewFocusTerminal,
    /// Focus the editor.
    ViewFocusEditor,
    /// Switch the focus.
    ViewToggleFocus,
    /// Move the split left.
    ViewSplitLeft,
    /// Move the split right.
    ViewSplitRight,
    /// A new terminal tab.
    TerminalNew,
    /// Split the terminal.
    TerminalSplit,
    /// Close the terminal tab.
    TerminalClose,
    /// The next terminal tab.
    TerminalNextTab,
    /// The previous terminal tab.
    TerminalPrevTab,
    /// Choose a shell.
    TerminalSelectShell,
    /// The SSH manager.
    SshManager,
    /// Scan a subnet for SSH hosts.
    SshScan,
    /// Add an SSH host.
    SshAddHost,
    /// Connect to saved SSH host N (0-based).
    SshConnect(u8),
    /// The Docker manager.
    DockerManager,
    /// Rediscover Docker containers.
    DockerRefresh,
    /// Connect to Docker quick-connect slot N (0-based).
    DockerConnect(u8),
    /// Container statistics.
    DockerStats,
    /// Container logs.
    DockerLogs,
    /// Choose a theme.
    ThemeSelect,
    /// The dark theme.
    ThemeDark,
    /// The light theme.
    ThemeLight,
    /// The Dracula theme.
    ThemeDracula,
    /// The Gruvbox theme.
    ThemeGruvbox,
    /// The Nord theme.
    ThemeNord,
    /// List the installed extensions.
    ExtensionList,
    /// Install an extension.
    ExtensionInstall,
    /// Update extensions.
    ExtensionUpdate,
    /// Remove an extension.
    ExtensionRemove,
    /// Quit.
    AppQuit,
    /// The command palette.
    AppCommandPalette,
    /// Switch the editor's key bindings.
    AppSwitchEditorMode,
}

/// The command an ID names, if any.
pub open spec fn command_of(id: Seq<char>) -> Option<Command> {
    if id == "file.new"@ {
        Some(Command::FileNew)
    } else if id == "file.newFolder"@ {
        Some(Command::FileNewFolder)
    } else if id == "file.open"@ {
        Some(Command::FileOpen)
    } else if id == "file.save"@ {
        Some(Command::FileSave)
    } else if id == "file.close"@ {
        Some(Command::FileClose)
    } else if id == "edit.undo"@ {
        Some(Command::EditUndo)
    } else if id == "edit.redo"@ {
        Some(Command::EditRedo)
    } else if id == "edit.copy"@ {
        Some(Command::EditCopy)
    } else if id == "edit.paste"@ {
        Some(Command::EditPaste)
    } else if id == "edit.selectAll"@ {
        Some(Command::EditSelectAll)
    } else if id == "edit.selectLine"@ {
        Some(Command::EditSelectLine)
    } else if id == "edit.duplicateLine"@ {
        Some(Command::EditDuplicateLine)
    } else if id == "edit.deleteLine"@ {
        Some(Command::EditDeleteLine)
    } else if id == "edit.moveLineUp"@ {
        Some(Command::EditMoveLineUp)
    } else if id == "edit.moveLineDown"@ {
        Some(Command::EditMoveLineDown)
    } else if id == "edit.toggleComment"@ {
        Some(Command::EditToggleComment)
    } else if id == "edit.indent"@ {
        Some(Command::EditIndent)
    } else if id == "edit.outdent"@ {
        Some(Command::EditOutdent)
    } else if id == "search.inFile"@ {
        Some(Command::SearchInFile)
    } else if id == "search.inFiles"@ {
        Some(Command::SearchInFiles)
    } else if id == "search.files"@ {
        Some(Command::SearchFiles)
    } else if id == "search.directories"@ {
        Some(Command::SearchDirectories)
    } else if id == "view.focusTerminal"@ {
        Some(Command::ViewFocusTerminal)
    } else if id == "view.focusEditor"@ {
        Some(Command::ViewFocusEditor)
    } else if id == "view.toggleFocus"@ {
        Some(Command::ViewToggleFocus)
    } else if id == "view.splitLeft"@ {
        Some(Command::ViewSplitLeft)
    } else if id == "view.splitRight"@ {
        Some(Command::ViewSplitRight)
    } else if id == "terminal.new"@ {
        Some(Command::TerminalNew)
    } else if id == "terminal.split"@ {
        Some(Command::TerminalSplit)
    } else if id == "terminal.close"@ {
        Some(Command::TerminalClose)
    } else if id == "terminal.nextTab"@ {
        Some(Command::TerminalNextTab)
    } else if id == "terminal.prevTab"@ {
        Some(Command::TerminalPrevTab)
    } else if id == "terminal.selectShell"@ {
        Some(Command::TerminalSelectShell)
    } else if id == "ssh.manager"@ {
        Some(Command::SshManager)
    } else if id == "ssh.scan"@ {
        Some(Command::SshScan)
    } else if id == "ssh.addHost"@ {
        Some(Command::SshAddHost)
    } else if id == "ssh.connect1"@ {
        Some(Command::SshConnect(0))
    } else if id == "ssh.connect2"@ {
        Some(Command::SshConnect(1))
    } else if id == "ssh.connect3"@ {
        Some(Command::SshConnect(2))
    } else if id == "docker.manager"@ {
        Some(Command::DockerManager)
    } else if id == "docker.refresh"@ {
        Some(Command::DockerRefresh)
    } else if id == "docker.connect1"@ {
        Some(Command::DockerConnect(0))
    } else if id == "docker.connect2"@ {
        Some(Command::DockerConnect(1))
    } else if id == "docker.connect3"@ {
        Some(Command::DockerConnect(2))
    } else if id == "docker.connect4"@ {
        Some(Command::DockerConnect(3))
    } else if id == "docker.connect5"@ {
        Some(Command::DockerConnect(4))
    } else if id == "docker.connect6"@ {
        Some(Command::DockerConnect(5))
    } else if id == "docker.connect7"@ {
        Some(Command::DockerConnect(6))
    } else if id == "docker.connect8"@ {
        Some(Command::DockerConnect(7))
    } else if id == "docker.connect9"@ {
        Some(Command::DockerConnect(8))
    } else if id == "docker.stats"@ {
        Some(Command::DockerStats)
    } else if id == "docker.logs"@ {
        Some(Command::DockerLogs)
    } else if id == "theme.select"@ {
        Some(Command::ThemeSelect)
    } else if id == "theme.dark"@ {
        Some(Command::ThemeDark)
    } else if id == "theme.light"@ {
        Some(Command::ThemeLight)
    } else if id == "theme.dracula"@ {
        Some(Command::ThemeDracula)
    } else if id == "theme.gruvbox"@ {
        Some(Command::ThemeGruvbox)
    } else if id == "theme.nord"@ {
        Some(Command::ThemeNord)
    } else if id == "extension.list"@ {
        Some(Command::ExtensionList)
    } else if id == "extension.install"@ {
        Some(Command::ExtensionInstall)
    } else if id == "extension.update"@ {
        Some(Command::ExtensionUpdate)
    } else if id == "extension.remove"@ {
        Some(Command::ExtensionRemove)
    } else if id == "app.quit"@ {
        Some(Command::AppQuit)
    } else if id == "app.commandPalette"@ {
        Some(Command::AppCommandPalette)
    } else if id == "app.switchEditorMode"@ {
        Some(Command::AppSwitchEditorMode)
    } else {
        None
    }
}

/// The ID that names each command, as the palette lists it: the area and
/// the operation, such as `edit.undo` for `EditUndo`. The numbered
/// connections are named from 1; a connection with no ID has none.
pub open spec fn command_id(c: Command) -> Option<Seq<char>> {
    match c {
        Command::FileNew => Some("file.new"@),
        Command::FileNewFolder => Some("file.newFolder"@),
        Command::FileOpen => Some("file.open"@),
        Command::FileSave => Some("file.save"@),
        Command::FileClose => Some("file.close"@),
        Command::EditUndo => Some("edit.undo"@),
        Command::EditRedo => Some("edit.redo"@),
        Command::EditCopy => Some("edit.copy"@),
        Command::EditPaste => Some("edit.paste"@),
        Command::EditSelectAll => Some("edit.selectAll"@),
        Command::EditSelectLine => Some("edit.selectLine"@),
        Command::EditDuplicateLine => Some("edit.duplicateLine"@),
        Command::EditDeleteLine => Some("edit.deleteLine"@),
        Command::EditMoveLineUp => Some("edit.moveLineUp"@),
        Command::EditMoveLineDown => Some("edit.moveLineDown"@),
        Command::EditToggleComment => Some("edit.toggleComment"@),
        Command::EditIndent => Some("edit.indent"@),
        Command::EditOutdent => Some("edit.outdent"@),
        Command::SearchInFile => Some("search.inFile"@),
        Command::SearchInFiles => Some("search.inFiles"@),
        Command::SearchFiles => Some("search.files"@),
        Command::SearchDirectories => Some("search.directories"@),
        Command::ViewFocusTerminal => Some("view.focusTerminal"@),
        Command::ViewFocusEditor => Some("view.focusEditor"@),
        Command::ViewToggleFocus => Some("view.toggleFocus"@),
        Command::ViewSplitLeft => Some("view.splitLeft"@),
        Command::ViewSplitRight => Some("view.splitRight"@),
        Command::TerminalNew => Some("terminal.new"@),
        Command::TerminalSplit => Some("terminal.split"@),
        Command::TerminalClose => Some("terminal.close"@),
        Command::TerminalNextTab => Some("terminal.nextTab"@),
        Command::TerminalPrevTab => Some("terminal.prevTab"@),
        Command::TerminalSelectShell => Some("terminal.selectShell"@),
        Command::SshManager => Some("ssh.manager"@),
        Command::SshScan => Some("ssh.scan"@),
        Command::SshAddHost => Some("ssh.addHost"@),
        Command::DockerManager => Some("docker.manager"@),
        Command::DockerRefresh => Some("docker.refresh"@),
        Command::DockerStats => Some("docker.stats"@),
        Command::DockerLogs => Some("docker.logs"@),
        Command::ThemeSelect => Some("theme.select"@),
        Command::ThemeDark => Some("theme.dark"@),
        Command::ThemeLight => Some("theme.light"@),
        Command::ThemeDracula => Some("theme.dracula"@),
        Command::ThemeGruvbox => Some("theme.gruvbox"@),
        Command::ThemeNord => Some("theme.nord"@),
        Command::ExtensionList => Some("extension.list"@),
        Command::ExtensionInstall => Some("extension.install"@),
        Command::ExtensionUpdate => Some("extension.update"@),
        Command::ExtensionRemove => Some("extension.remove"@),
        Command::AppQuit => Some("app.quit"@),
        Command::AppCommandPalette => Some("app.commandPalette"@),
        Command::AppSwitchEditorMode => Some("app.switchEditorMode"@),
        Command::SshConnect(n) => if n == 0 {
            Some("ssh.connect1"@)
        } else if n == 1 {
            Some("ssh.connect2"@)
        } else if n == 2 {
            Some("ssh.connect3"@)
        } else {
            None
        },
        Command::DockerConnect(n) => if n == 0 {
            Some("docker.connect1"@)
        } else if n == 1 {
            Some("docker.connect2"@)
        } else if n == 2 {
            Some("docker.connect3"@)
        } else if n == 3 {
            Some("docker.connect4"@)
        } else if n == 4 {
            Some("docker.connect5"@)
        } else if n == 5 {
            Some("docker.connect6"@)
        } else if n == 6 {
            Some("docker.connect7"@)
        } else if n == 7 {
            Some("docker.connect8"@)
        } else if n == 8 {
            Some("docker.connect9"@)
        } else {
            None
        },
    }
}

/// Law: an ID selects exactly the command it names. Whatever command an ID
/// looks up is the one whose name is that ID, so no ID selects another
/// command's operation and no two IDs select the same command.
pub proof fn law_an_id_selects_the_command_it_names(id: Seq<char>, c: Command)
    requires
        command_of(id) == Some(c),
    ensures
        command_id(c) == Some(id),
{
}

/// Law: two IDs that select the same command are the same ID.
pub proof fn law_command_ids_are_unambiguous(a: Seq<char>, b: Seq<char>)
    requires
        command_of(a) is Some,
        command_of(a) == command_of(b),
    ensures
        a == b,
{
    law_an_id_selects_the_command_it_names(a, command_of(a).unwrap());
    law_an_id_selects_the_command_it_names(b, command_of(b).unwrap());
}

/// Looks up the command an ID names.
pub fn command_for(id: &str) -> (r: Option<Command>)
    ensures
        r == command_of(id@),
{
    if str_eq(id, "file.new") {
        Some(Command::FileNew)
    } else if str_eq(id, "file.newFolder") {
        Some(Command::FileNewFolder)
    } else if str_eq(id, "file.open") {
        Some(Command::FileOpen)
    } else if str_eq(id, "file.save") {
        Some(Command::FileSave)
    } else if str_eq(id, "file.close") {
        Some(Command::FileClose)
    } else if str_eq(id, "edit.undo") {
        Some(Command::EditUndo)
    } else if str_eq(id, "edit.redo") {
        Some(Command::EditRedo)
    } else if str_eq(id, "edit.copy") {
        Some(Command::EditCopy)
    } else if str_eq(id, "edit.paste") {
        Some(Command::EditPaste)
    } else if str_eq(id, "edit.selectAll") {
        Some(Command::EditSelectAll)
    } else if str_eq(id, "edit.selectLine") {
        Some(Command::EditSelectLine)
    } else if str_eq(id, "edit.duplicateLine") {
        Some(Command::EditDuplicateLine)
    } else if str_eq(id, "edit.deleteLine") {
        Some(Command::EditDeleteLine)
    } else if str_eq(id, "edit.moveLineUp") {
        Some(Command::EditMoveLineUp)
    } else if str_eq(id, "edit.moveLineDown") {
        Some(Command::EditMoveLineDown)
    } else if str_eq(id, "edit.toggleComment") {
        Some(Command::EditToggleComment)
    } else if str_eq(id, "edit.indent") {
        Some(Command::EditIndent)
    } else if str_eq(id, "edit.outdent") {
        Some(Command::EditOutdent)
    } else if str_eq(id, "search.inFile") {
        Some(Command::SearchInFile)
    } else if str_eq(id, "search.inFiles") {
        Some(Command::SearchInFiles)
    } else if str_eq(id, "search.files") {
        Some(Command::SearchFiles)
    } else if str_eq(id, "search.directories") {
        Some(Command::SearchDirectories)
    } else if str_eq(id, "view.focusTerminal") {
        Some(Command::ViewFocusTerminal)
    } else if str_eq(id, "view.focusEditor") {
        Some(Command::ViewFocusEditor)
    } else if str_eq(id, "view.toggleFocus") {
        Some(Command::ViewToggleFocus)
    } else if str_eq(id, "view.splitLeft") {
        Some(Command::ViewSplitLeft)
    } else if str_eq(id, "view.splitRight") {
        Some(Command::ViewSplitRight)
    } else if str_eq(id, "terminal.new") {
        Some(Command::TerminalNew)
    } else if str_eq(id, "terminal.split") {
        Some(Command::TerminalSplit)
    } else if str_eq(id, "terminal.close") {
        Some(Command::TerminalClose)
    } else if str_eq(id, "terminal.nextTab") {
        Some(Command::TerminalNextTab)
    } else if str_eq(id, "terminal.prevTab") {
        Some(Command::TerminalPrevTab)
    } else if str_eq(id, "terminal.selectShell") {
        Some(Command::TerminalSelectShell)
    } else if str_eq(id, "ssh.manager") {
        Some(Command::SshManager)
    } else if str_eq(id, "ssh.scan") {
        Some(Command::SshScan)
    } else if str_eq(id, "ssh.addHost") {
        Some(Command::SshAddHost)
    } else if str_eq(id, "ssh.connect1") {
        Some(Command::SshConnect(0))
    } else if str_eq(id, "ssh.connect2") {
        Some(Command::SshConnect(1))
    } else if str_eq(id, "ssh.connect3") {
        Some(Command::SshConnect(2))
    } else if str_eq(id, "docker.manager") {
        Some(Command::DockerManager)
    } else if str_eq(id, "docker.refresh") {
        Some(Command::DockerRefresh)
    } else if str_eq(id, "docker.connect1") {
        Some(Command::DockerConnect(0))
    } else if str_eq(id, "docker.connect2") {
        Some(Command::DockerConnect(1))
    } else if str_eq(id, "docker.connect3") {
        Some(Command::DockerConnect(2))
    } else if str_eq(id, "docker.connect4") {
        Some(Command::DockerConnect(3))
    } else if str_eq(id, "docker.connect5") {
        Some(Command::DockerConnect(4))
    } else if str_eq(id, "docker.connect6") {
        Some(Command::DockerConnect(5))
    } else if str_eq(id, "docker.connect7") {
        Some(Command::DockerConnect(6))
    } else if str_eq(id, "docker.connect8") {
        Some(Command::DockerConnect(7))
    } else if str_eq(id, "docker.connect9") {
        Some(Command::DockerConnect(8))
    } else if str_eq(id, "docker.stats") {
        Some(Command::DockerStats)
    } else if str_eq(id, "docker.logs") {
        Some(Command::DockerLogs)
    } else if str_eq(id, "theme.select") {
        Some(Command::ThemeSelect)
    } else if str_eq(id, "theme.dark") {
        Some(Command::ThemeDark)
    } else if str_eq(id, "theme.light") {
        Some(Command::ThemeLight)
    } else if str_eq(id, "theme.dracula") {
        Some(Command::ThemeDracula)
    } else if str_eq(id, "theme.gruvbox") {
        Some(Command::ThemeGruvbox)
    } else if str_eq(id, "theme.nord") {
        Some(Command::ThemeNord)
    } else if str_eq(id, "extension.list") {
        Some(Command::ExtensionList)
    } else if str_eq(id, "extension.install") {
        Some(Command::ExtensionInstall)
    } else if str_eq(id, "extension.update") {
        Some(Command::ExtensionUpdate)
    } else if str_eq(id, "extension.remove") {
        Some(Command::ExtensionRemove)
    } else if str_eq(id, "app.quit") {
        Some(Command::AppQuit)
    } else if str_eq(id, "app.commandPalette") {
        Some(Command::AppCommandPalette)
    } else if str_eq(id, "app.switchEditorMode") {
        Some(Command::AppSwitchEditorMode)
    } else {
        None
    }
}

/// The popup a command opens, for the commands that only open one.
pub open spec fn command_popup(c: Command) -> Option<PopupKind> {
    match c {
        Command::FileNew => Some(PopupKind::CreateFile),
        Command::FileNewFolder => Some(PopupKind::CreateFolder),
        Command::SearchInFile => Some(PopupKind::SearchInFile),
        Command::SearchInFiles => Some(PopupKind::SearchInFiles),
        Command::SearchFiles => Some(PopupKind::SearchFiles),
        Command::SearchDirectories => Some(PopupKind::SearchDirectories),
        Command::AppCommandPalette => Some(PopupKind::CommandPalette),
        _ => None,
    }
}

/// The status a command only reports, for the commands that do nothing
/// else here.
pub open spec fn command_message(c: Command) -> Option<Seq<char>> {
    match c {
        Command::ExtensionInstall => Some("Use CLI: rat ext install <user/repo>"@),
        Command::ExtensionUpdate => Some("Use CLI: rat ext update [name]"@),
        Command::ExtensionRemove => Some("Use CLI: rat ext remove <name>"@),
        _ => None,
    }
}

/// The commands carried out on the state kept here.
pub open spec fn done_here(c: Command) -> bool {
    ||| command_popup(c) is Some
    ||| command_message(c) is Some
    ||| c == Command::FileClose
    ||| c == Command::ViewFocusTerminal
    ||| c == Command::ViewFocusEditor
    ||| c == Command::ViewToggleFocus
    ||| c == Command::AppQuit
}

impl App {
    /// Runs the command `id` names. An unknown ID is reported on the status
    /// line. The commands on the state kept here are carried out; the
    /// others are returned for the caller to carry out.
    pub fn execute_command(&mut self, id: &str) -> (r: Option<Command>)
        requires
            old(self).wf(),
        ensures
            final(self).wf(),
            r == (match command_of(id@) {
                Some(c) => if done_here(c) {
                    None
                } else {
                    Some(c)
                },
                None => None,
            }),
            command_of(id@) is None ==> *final(self) == (App {
                status: final(self).status,
                ..*old(self)
            }) && final(self).status@ == "Unknown command: "@ + id@,
            command_of(id@) matches Some(c) ==> (!done_here(c) ==> *final(self) == *old(self)),
            command_of(id@) matches Some(c) ==> (command_popup(c) is Some ==> *final(self) == (App {
                popup: command_popup(c),
                ..*old(self)
            })),
            command_of(id@) matches Some(c) ==> (command_message(c) matches Some(m) ==> (*final(
                self) == (App { status: final(self).status, ..*old(self) }) && final(self).status@
                == m)),
            command_of(id@) == Some(Command::ViewFocusTerminal) ==> final(self).layout.focused
                == FocusedPane::Terminal,
            command_of(id@) == Some(Command::ViewFocusEditor) ==> final(self).layout.focused
                == FocusedPane::Editor,
            command_of(id@) == Some(Command::ViewToggleFocus) ==> final(self).layout.focused
                == crate::app::state::toggled_focus(old(self).layout),
            command_of(id@) == Some(Command::AppQuit) ==> !final(self).running && *final(self)
                == (App { running: false, ..*old(self) }),
            command_of(id@) == Some(Command::FileClose) ==> ((old(self).open_files@.len() > 0
                && !old(self).editor.modified) ==> final(self).open_files@ == old(
                self).open_files@.remove(old(self).current_file_idx as int)),
            same_lsp(*old(self), *final(self)),
            same_debug(*old(self), *final(self)),
    {
        let c = match command_for(id) {
            Some(c) => c,
            None => {
                self.set_status(concat2("Unknown command: ", id));
                return None;
            },
        };
        match c {
            Command::FileNew => self.show_popup(PopupKind::CreateFile),
            Command::FileNewFolder => self.show_popup(PopupKind::CreateFolder),
            Command::SearchInFile => self.show_popup(PopupKind::SearchInFile),
            Command::SearchInFiles => self.show_popup(PopupKind::SearchInFiles),
            Command::SearchFiles => self.show_popup(PopupKind::SearchFiles),
            Command::SearchDirectories => self.show_popup(PopupKind::SearchDirectories),
            Command::AppCommandPalette => self.show_popup(PopupKind::CommandPalette),
            Command::ExtensionInstall => self.set_status(
                "Use CLI: rat ext install <user/repo>".to_owned(),
            ),
            Command::ExtensionUpdate => self.set_status("Use CLI: rat ext update [name]".to_owned()),
            Command::ExtensionRemove => self.set_status("Use CLI: rat ext remove <name>".to_owned()),
            Command::FileClose => self.close_current_file(),
            Command::ViewFocusTerminal => self.layout.focused = FocusedPane::Terminal,
            Command::ViewFocusEditor => self.layout.focused = FocusedPane::Editor,
            Command::ViewToggleFocus => self.layout.toggle_focus(),
            Command::AppQuit => self.running = false,
            _ => {
                return Some(c);
            },
        }
        None
    }
}

} // verus!
