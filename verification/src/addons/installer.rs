//! Add-on installation: progress tracking and the decisions around running
//! an install script.
//!
//! Writing the script to disk and running it are done by the caller; this
//! module decides what to write where, which command runs it, and what a
//! finished process means for the installation.

use crate::addons::types::{AddonError, Platform, ScriptType};
use crate::text::{concat3, lowercase, push_char, push_str, str_eq, to_lowercase};
use vstd::prelude::*;

verus! {

/// Maximum script size (1MB).
pub const MAX_SCRIPT_SIZE: usize = 1_048_576;

/// How many characters of a failed script's output go into the error.
pub const MAX_ERROR_OUTPUT_CHARS: usize = 500;

/// Installation phase.
#[derive(Debug, Clone, Copy, PartialEq, Eq, Structural)]
pub enum InstallPhase {
    /// Downloading script from GitHub.
    Downloading,
    /// Running install script.
    Installing,
    /// Installation complete.
    Completed,
    /// Installation failed.
    Failed,
}

impl InstallPhase {
    /// Returns true if this phase represents completion (success or failure).
    pub fn is_finished(&self) -> (r: bool)
        ensures
            r == (*self == InstallPhase::Completed || *self == InstallPhase::Failed),
    {
        match self {
            InstallPhase::Completed | InstallPhase::Failed => true,
            _ => false,
        }
    }

    /// Returns true if this phase represents an error.
    pub fn is_error(&self) -> (r: bool)
        ensures
            r == (*self == InstallPhase::Failed),
    {
        match self {
            InstallPhase::Failed => true,
            _ => false,
        }
    }

    /// Returns a display string for this phase.
    pub fn display(&self) -> (r: &'static str)
        ensures
            r@ == (match *self {
                InstallPhase::Downloading => "Downloading..."@,
                InstallPhase::Installing => "Installing..."@,
                InstallPhase::Completed => "Completed"@,
                InstallPhase::Failed => "Failed"@,
            }),
    {
        match self {
            InstallPhase::Downloading => "Downloading...",
            InstallPhase::Installing => "Installing...",
            InstallPhase::Completed => "Completed",
            InstallPhase::Failed => "Failed",
        }
    }
}

/// Progress of an ongoing addon installation.
#[derive(Debug, Clone)]
pub struct InstallProgress {
    /// Addon being installed.
    pub addon_id: String,
    /// Current phase.
    pub phase: InstallPhase,
    /// Progress percentage (0-100).
    pub progress: u8,
    /// Error message if failed.
    pub error: Option<String>,
    /// Background process ID.
    pub process_id: Option<u64>,
}

impl InstallProgress {
    /// Creates a new install progress tracker, downloading at 0%.
    pub fn new(addon_id: String) -> (r: Self)
        requires
            addon_id@.len() > 0,
        ensures
            r.addon_id == addon_id,
            r.phase == InstallPhase::Downloading,
            r.progress == 0,
            r.error is None,
            r.process_id is None,
    {
        InstallProgress {
            addon_id,
            phase: InstallPhase::Downloading,
            progress: 0,
            error: None,
            process_id: None,
        }
    }

    /// Sets the phase to downloading (10%).
    pub fn set_downloading(&mut self)
        ensures
            final(self).phase == InstallPhase::Downloading,
            final(self).progress == 10,
            final(self).addon_id == old(self).addon_id,
            final(self).error == old(self).error,
            final(self).process_id == old(self).process_id,
    {
        self.phase = InstallPhase::Downloading;
        self.progress = 10;
    }

    /// Sets the phase to installing (50%) under the given process.
    pub fn set_installing(&mut self, process_id: u64)
        ensures
            final(self).phase == InstallPhase::Installing,
            final(self).progress == 50,
            final(self).process_id == Some(process_id),
            final(self).addon_id == old(self).addon_id,
            final(self).error == old(self).error,
    {
        self.phase = InstallPhase::Installing;
        self.progress = 50;
        self.process_id = Some(process_id);
    }

    /// Sets the phase to completed (100%).
    pub fn set_completed(&mut self)
        ensures
            final(self).phase == InstallPhase::Completed,
            final(self).progress == 100,
            final(self).addon_id == old(self).addon_id,
            final(self).error == old(self).error,
            final(self).process_id == old(self).process_id,
    {
        self.phase = InstallPhase::Completed;
        self.progress = 100;
    }

    /// Sets the phase to failed with an error message; the percentage stays.
    pub fn set_failed(&mut self, error: String)
        ensures
            final(self).phase == InstallPhase::Failed,
            final(self).error == Some(error),
            final(self).progress == old(self).progress,
            final(self).addon_id == old(self).addon_id,
            final(self).process_id == old(self).process_id,
    {
        self.phase = InstallPhase::Failed;
        self.error = Some(error);
    }

    /// Returns true if installation is complete (success or failure).
    pub fn is_finished(&self) -> (r: bool)
        ensures
            r == (self.phase == InstallPhase::Completed || self.phase == InstallPhase::Failed),
    {
        self.phase.is_finished()
    }

    /// A copy of this progress record.
    pub fn duplicate(&self) -> (r: Self)
        ensures
            r == *self,
    {
        InstallProgress {
            addon_id: self.addon_id.clone(),
            phase: self.phase,
            progress: self.progress,
            error: match &self.error {
                Some(e) => Some(e.clone()),
                None => None,
            },
            process_id: self.process_id,
        }
    }
}

/// State of a background process, as the process manager reports it.
#[derive(Debug, Clone, Copy, PartialEq, Eq, Structural)]
pub enum ProcessStatus {
    /// Still running.
    Running,
    /// Exited successfully.
    Completed,
    /// Exited with an error.
    Error,
    /// Killed before it finished.
    Killed,
}

impl ProcessStatus {
    /// True once the process has stopped, for whatever reason.
    pub fn is_finished(&self) -> (r: bool)
        ensures
            r == (*self != ProcessStatus::Running),
    {
        match self {
            ProcessStatus::Running => false,
            _ => true,
        }
    }

    /// True when the process stopped without succeeding.
    pub fn is_error(&self) -> (r: bool)
        ensures
            r == (*self == ProcessStatus::Error || *self == ProcessStatus::Killed),
    {
        match self {
            ProcessStatus::Error | ProcessStatus::Killed => true,
            _ => false,
        }
    }
}

/// What the process manager knows about one background process.
#[derive(Debug, Clone)]
pub struct ProcessInfo {
    /// Its state.
    pub status: ProcessStatus,
    /// The error it reported, if any.
    pub error_message: Option<String>,
}

/// The first `n` characters of `s` (all of it when shorter).
pub open spec fn take_chars(s: Seq<char>, n: nat) -> Seq<char> {
    if s.len() <= n {
        s
    } else {
        s.take(n as int)
    }
}

/// The error recorded when an install process fails: its own message (or
/// "Installation failed"), followed by up to 500 characters of its output.
pub open spec fn install_failure_text(message: Option<String>, output: Seq<char>) -> Seq<char> {
    let msg = match message {
        Some(m) => m@,
        None => "Installation failed"@,
    };
    if output.len() == 0 {
        msg
    } else {
        msg + ": "@ + take_chars(output, MAX_ERROR_OUTPUT_CHARS as nat)
    }
}

/// The path separator the platform writes when joining paths.
pub open spec fn separator(p: Platform) -> char {
    match p {
        Platform::Windows => '\\',
        _ => '/',
    }
}

/// A character the platform reads as a path separator.
pub open spec fn is_separator(p: Platform, c: char) -> bool {
    c == '/' || (p == Platform::Windows && c == '\\')
}

/// `PathBuf::join` of a relative name onto `dir`.
pub open spec fn join_path(dir: Seq<char>, name: Seq<char>, p: Platform) -> Seq<char> {
    if dir.len() == 0 || is_separator(p, dir.last()) {
        dir + name
    } else {
        dir.push(separator(p)) + name
    }
}

/// `s` with every `'` doubled, as PowerShell quoting needs.
pub open spec fn double_quotes(s: Seq<char>) -> Seq<char>
    decreases s.len(),
{
    if s.len() == 0 {
        s
    } else if s.last() == '\'' {
        double_quotes(s.drop_last()) + seq!['\'', '\'']
    } else {
        double_quotes(s.drop_last()).push(s.last())
    }
}

/// The shell command that runs a script at `path`.
pub open spec fn install_command(path: Seq<char>, p: Platform) -> Seq<char> {
    match p {
        Platform::Windows => "powershell -NoProfile -ExecutionPolicy Bypass -Command \"& '"@
            + double_quotes(path) + "'\""@,
        _ => "bash \""@ + path + "\""@,
    }
}

/// The launch prepared for `addon_id`'s script `script` with scripts under
/// `dir`: the script, where it goes (the platform's install script for the
/// addon under `dir`), the command that runs it, and a fresh progress record
/// in the downloading phase.
pub open spec fn prepared_launch(
    l: InstallLaunch,
    script: Seq<char>,
    dir: Seq<char>,
    addon_id: Seq<char>,
    platform: Platform,
) -> bool {
    &&& l.script@ == script
    &&& l.progress.addon_id@ == addon_id
    &&& l.progress.phase == InstallPhase::Downloading
    &&& l.progress.progress == 0
    &&& l.progress.process_id is None
    &&& l.progress.error is None
    &&& l.script_path@ == join_path(
        dir,
        addon_id + "_"@ + (match platform {
            Platform::Windows => "install-windows.ps1"@,
            Platform::MacOs => "install-macos.sh"@,
            Platform::Linux => "install-linux.sh"@,
        }),
        platform,
    )
    &&& l.command@ == install_command(l.script_path@, platform)
}

/// Everything needed to launch an installation: the script, where it goes,
/// the command that runs it, and the progress record to keep.
#[derive(Debug)]
pub struct InstallLaunch {
    /// The script's text.
    pub script: String,
    /// Where the script is to be written.
    pub script_path: String,
    /// The command that runs it.
    pub command: String,
    /// The progress record, to be marked installing once the process starts.
    pub progress: InstallProgress,
}

/// Joins a relative name onto a directory.
pub fn join_path_str(dir: &str, name: &str, platform: Platform) -> (r: String)
    ensures
        r@ == join_path(dir@, name@, platform),
{
    let n = dir.unicode_len();
    let mut out = dir.to_owned();
    if n == 0 {
        push_str(&mut out, name);
        return out;
    }
    let last = dir.get_char(n - 1);
    assert(dir@.last() == dir@[n - 1]);
    let sep_here = last == '/' || (platform == Platform::Windows && last == '\\');
    if !sep_here {
        let c = match platform {
            Platform::Windows => '\\',
            _ => '/',
        };
        push_char(&mut out, c);
    }
    push_str(&mut out, name);
    out
}

/// Doubles every `'` in `s`.
pub fn double_quotes_str(s: &str) -> (r: String)
    ensures
        r@ == double_quotes(s@),
{
    let n = s.unicode_len();
    let mut out = String::new();
    let mut i: usize = 0;
    while i < n
        invariant
            n == s@.len(),
            i <= n,
            out@ == double_quotes(s@.subrange(0, i as int)),
        decreases n - i,
    {
        let c = s.get_char(i);
        let ghost next = s@.subrange(0, i + 1);
        assert(next.drop_last() =~= s@.subrange(0, i as int));
        assert(next.last() == c);
        if c == '\'' {
            push_char(&mut out, '\'');
            push_char(&mut out, '\'');
            assert(out@ =~= double_quotes(next));
        } else {
            push_char(&mut out, c);
        }
        i = i + 1;
    }
    assert(s@.subrange(0, n as int) =~= s@);
    out
}

/// Add-on installer: where scripts are written, and how they are run.
pub struct AddonInstaller {
    /// Directory for temporary scripts.
    temp_dir: String,
}

impl AddonInstaller {
    /// Creates an installer writing scripts to `ratterm-addons` under the
    /// system's temporary directory `system_temp`.
    pub fn new(system_temp: &str, platform: Platform) -> (r: Self)
        ensures
            r.temp_dir_view() == join_path(system_temp@, "ratterm-addons"@, platform),
    {
        AddonInstaller { temp_dir: join_path_str(system_temp, "ratterm-addons", platform) }
    }

    /// The directory scripts are written to.
    pub closed spec fn temp_dir_view(&self) -> Seq<char> {
        self.temp_dir@
    }

    /// The directory scripts are written to.
    pub fn temp_dir(&self) -> (r: &str)
        ensures
            r@ == self.temp_dir_view(),
    {
        self.temp_dir.as_str()
    }

    /// Decides what a background process's state means for an installation.
    ///
    /// `info` is what the process manager reports for `progress.process_id`
    /// and `output` what the process wrote. Returns `None` while there is no
    /// process, no report, or the process is still running; otherwise the
    /// progress marked completed, or failed with the process's message and
    /// the start of its output.
    pub fn check_install_complete(
        &self,
        progress: &InstallProgress,
        info: Option<&ProcessInfo>,
        output: Option<String>,
    ) -> (r: Option<InstallProgress>)
        ensures
            (progress.process_id is None || info is None || info.unwrap().status
                == ProcessStatus::Running) ==> r is None,
            (progress.process_id is Some && info is Some && info.unwrap().status
                != ProcessStatus::Running) ==> r is Some && ({
                let u = r.unwrap();
                let st = info.unwrap().status;
                &&& u.addon_id == progress.addon_id
                &&& u.process_id == progress.process_id
                &&& (st == ProcessStatus::Completed) ==> (u.phase == InstallPhase::Completed
                    && u.progress == 100 && u.error == progress.error)
                &&& (st != ProcessStatus::Completed) ==> (u.phase == InstallPhase::Failed
                    && u.progress == progress.progress && u.error is Some && u.error.unwrap()@
                    == install_failure_text(
                    info.unwrap().error_message,
                    match output {
                        Some(o) => o@,
                        None => Seq::<char>::empty(),
                    },
                ))
            }),
    {
        if progress.process_id.is_none() {
            return None;
        }
        let info = match info {
            Some(i) => i,
            None => {
                return None;
            },
        };
        if !info.status.is_finished() {
            return None;
        }
        let mut updated = progress.duplicate();
        if info.status.is_error() {
            let output = match output {
                Some(o) => o,
                None => String::new(),
            };
            let error_msg = match &info.error_message {
                Some(m) => m.clone(),
                None => "Installation failed".to_owned(),
            };
            let n = output.as_str().unicode_len();
            let full_error = if n == 0 {
                error_msg
            } else {
                let keep = if n <= MAX_ERROR_OUTPUT_CHARS {
                    n
                } else {
                    MAX_ERROR_OUTPUT_CHARS
                };
                let truncated = output.as_str().substring_char(0, keep);
                assert(truncated@ =~= take_chars(output@, MAX_ERROR_OUTPUT_CHARS as nat));
                concat3(error_msg.as_str(), ": ", truncated)
            };
            updated.set_failed(full_error);
        } else {
            updated.set_completed();
        }
        Some(updated)
    }

    /// Where the install script for `addon_id` is written.
    pub fn script_path(&self, addon_id: &str, platform: Platform) -> (r: String)
        ensures
            r@ == join_path(
                self.temp_dir_view(),
                addon_id@ + "_"@ + (match platform {
                    Platform::Windows => "install-windows.ps1"@,
                    Platform::MacOs => "install-macos.sh"@,
                    Platform::Linux => "install-linux.sh"@,
                }),
                platform,
            ),
    {
        let filename = concat3(addon_id, "_", ScriptType::Install.filename(platform));
        join_path_str(self.temp_dir.as_str(), filename.as_str(), platform)
    }

    /// The command that runs the script at `script_path`: PowerShell on
    /// Windows, bash elsewhere.
    pub fn build_command(&self, script_path: &str, platform: Platform) -> (r: String)
        ensures
            r@ == install_command(script_path@, platform),
    {
        match platform {
            Platform::Windows => {
                let escaped = double_quotes_str(script_path);
                concat3(
                    "powershell -NoProfile -ExecutionPolicy Bypass -Command \"& '",
                    escaped.as_str(),
                    "'\"",
                )
            },
            _ => concat3("bash \"", script_path, "\""),
        }
    }

    /// Prepares an installation from script content already fetched.
    ///
    /// A script over `MAX_SCRIPT_SIZE` bytes is refused. Otherwise returns
    /// where to write it, the command that runs it, and a progress record in
    /// the downloading phase; the caller writes the file, starts the command
    /// and marks the progress installing with the process's ID.
    pub fn start_install_with_content(
        &self,
        addon_id: &str,
        script_content: &str,
        platform: Platform,
    ) -> (r: Result<InstallLaunch, AddonError>)
        requires
            addon_id@.len() > 0,
        ensures
            script_content.len() > MAX_SCRIPT_SIZE <==> r is Err,
            r matches Err(e) ==> e == AddonError::ExecutionFailed(e->ExecutionFailed_0) && e->ExecutionFailed_0@
                == "Script exceeds maximum size"@,
            r matches Ok(l) ==> prepared_launch(
                l,
                script_content@,
                self.temp_dir_view(),
                addon_id@,
                platform,
            ),
    {
        let progress = InstallProgress::new(addon_id.to_owned());
        if script_content.len() > MAX_SCRIPT_SIZE {
            return Err(AddonError::ExecutionFailed("Script exceeds maximum size".to_owned()));
        }
        let script_path = self.script_path(addon_id, platform);
        let command = self.build_command(script_path.as_str(), platform);
        Ok(InstallLaunch { script: script_content.to_owned(), script_path, command, progress })
    }
}

/// Executables whose presence shows a technology is installed, by addon ID.
pub open spec fn detection_table(id: Seq<char>) -> Option<Seq<Seq<char>>> {
    if id == "vim"@ {
        Some(seq!["vim"@, "nvim"@, "gvim"@])
    } else if id == "neovim"@ {
        Some(seq!["nvim"@])
    } else if id == "emacs"@ {
        Some(seq!["emacs"@, "emacsclient"@])
    } else if id == "nodejs"@ || id == "javascript"@ {
        Some(seq!["node"@, "npm"@, "npx"@])
    } else if id == "npm"@ {
        Some(seq!["npm"@, "npx"@, "node"@])
    } else if id == "python"@ {
        Some(seq!["python"@, "python3"@, "py"@])
    } else if id == "rust"@ {
        Some(seq!["rustc"@, "cargo"@])
    } else if id == "java"@ {
        Some(seq!["java"@, "javac"@])
    } else if id == "llvm"@ {
        Some(seq!["llc"@, "clang"@])
    } else if id == "gpustat"@ {
        Some(seq!["gpustat"@, "nvidia-smi"@])
    } else if id == "go"@ || id == "dotnet"@ || id == "ruby"@ || id == "php"@ || id == "perl"@
        || id == "git"@ || id == "docker"@ || id == "kubectl"@ || id == "terraform"@ || id
        == "ansible"@ || id == "cmake"@ || id == "make"@ || id == "gcc"@ || id == "clang"@ {
        Some(seq![id])
    } else {
        None
    }
}

fn vec_of(items: &[&str]) -> (r: Vec<String>)
    ensures
        r@.len() == items@.len(),
        forall|i: int| 0 <= i < items@.len() ==> (#[trigger] r@[i])@ == items@[i]@,
{
    let mut out: Vec<String> = Vec::new();
    let mut i: usize = 0;
    while i < items.len()
        invariant
            i <= items@.len(),
            out@.len() == i,
            forall|j: int| 0 <= j < i ==> (#[trigger] out@[j])@ == items@[j]@,
        decreases items@.len() - i,
    {
        out.push(items[i].to_owned());
        i = i + 1;
    }
    out
}

/// The executables to look for when checking whether `addon_id` is
/// installed: the table's entry for its lower-cased ID, or the ID itself.
pub fn detection_commands(addon_id: &str) -> (r: Vec<String>)
    ensures
        ({
            let want = match detection_table(lowercase(addon_id@)) {
                Some(cmds) => cmds,
                None => seq![addon_id@],
            };
            &&& r@.len() == want.len()
            &&& forall|i: int| 0 <= i < want.len() ==> (#[trigger] r@[i])@ == want[i]
        }),
{
    let low = to_lowercase(addon_id);
    let id = low.as_str();
    proof {
        reveal_strlit("vim");
    }
    if str_eq(id, "vim") {
        vec_of(&["vim", "nvim", "gvim"])
    } else if str_eq(id, "neovim") {
        vec_of(&["nvim"])
    } else if str_eq(id, "emacs") {
        vec_of(&["emacs", "emacsclient"])
    } else if str_eq(id, "nodejs") || str_eq(id, "javascript") {
        vec_of(&["node", "npm", "npx"])
    } else if str_eq(id, "npm") {
        vec_of(&["npm", "npx", "node"])
    } else if str_eq(id, "python") {
        vec_of(&["python", "python3", "py"])
    } else if str_eq(id, "rust") {
        vec_of(&["rustc", "cargo"])
    } else if str_eq(id, "java") {
        vec_of(&["java", "javac"])
    } else if str_eq(id, "llvm") {
        vec_of(&["llc", "clang"])
    } else if str_eq(id, "gpustat") {
        vec_of(&["gpustat", "nvidia-smi"])
    } else if str_eq(id, "go") || str_eq(id, "dotnet") || str_eq(id, "ruby") || str_eq(id, "php")
        || str_eq(id, "perl") || str_eq(id, "git") || str_eq(id, "docker") || str_eq(id, "kubectl")
        || str_eq(id, "terraform") || str_eq(id, "ansible") || str_eq(id, "cmake") || str_eq(
        id,
        "make",
    ) || str_eq(id, "gcc") || str_eq(id, "clang") {
        let mut v: Vec<String> = Vec::new();
        v.push(low.clone());
        v
    } else {
        let mut v: Vec<String> = Vec::new();
        v.push(addon_id.to_owned());
        v
    }
}

/// The argument that makes a tool print its version: `version` for Go,
/// `-version` for Java, `--version` for everything else.
pub fn version_args(addon_id: &str) -> (r: &'static str)
    ensures
        r@ == (if lowercase(addon_id@) == "go"@ {
            "version"@
        } else if lowercase(addon_id@) == "java"@ {
            "-version"@
        } else {
            "--version"@
        }),
{
    let low = to_lowercase(addon_id);
    if str_eq(low.as_str(), "go") {
        "version"
    } else if str_eq(low.as_str(), "java") {
        "-version"
    } else {
        "--version"
    }
}

} // verus!
