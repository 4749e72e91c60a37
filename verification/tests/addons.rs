use ratterm_core::addons::fetcher::{is_busy, status_for, FetchRequest, FetcherStatus};
use ratterm_core::addons::github::GitHubEntry;
use ratterm_core::addons::installer::{
    detection_commands, version_args, AddonInstaller, InstallPhase, InstallProgress, ProcessInfo,
    ProcessStatus, MAX_SCRIPT_SIZE,
};
use ratterm_core::addons::storage::{capitalize_addon_name, AddonStorage};
use ratterm_core::addons::types::{
    Addon, AddonConfig, AddonError, InstalledAddon, Platform, ScriptType,
};

#[test]
fn test_fetcher_status() {
    assert_eq!(FetcherStatus::Idle, FetcherStatus::Idle);
    assert_ne!(FetcherStatus::Idle, FetcherStatus::FetchingList);
}

#[test]
fn test_fetch_request_debug() {
    let req = FetchRequest::FetchAddonList { force_refresh: true };
    let debug_str = format!("{:?}", req);
    assert!(debug_str.contains("FetchAddonList"));
}

#[test]
fn a_request_sets_the_matching_busy_status() {
    let list = FetchRequest::FetchAddonList { force_refresh: false };
    assert_eq!(status_for(&list), FetcherStatus::FetchingList);
    let script = FetchRequest::FetchScript {
        addon_id: "nodejs".to_string(),
        script_type: ScriptType::Install,
    };
    assert_eq!(status_for(&script), FetcherStatus::FetchingScript);
    assert!(!is_busy(FetcherStatus::Idle));
    assert!(is_busy(FetcherStatus::FetchingList));
    assert!(is_busy(FetcherStatus::FetchingScript));
}

#[test]
fn test_github_entry() {
    let dir_entry = GitHubEntry {
        name: "nodejs".to_string(),
        path: "nodejs".to_string(),
        entry_type: "dir".to_string(),
        size: 0,
        download_url: None,
    };

    assert!(dir_entry.is_directory());
    assert!(!dir_entry.is_file());

    let file_entry = GitHubEntry {
        name: "install.ps1".to_string(),
        path: "scripts/windows/nodejs/install.ps1".to_string(),
        entry_type: "file".to_string(),
        size: 1024,
        download_url: Some("https://raw.githubusercontent.com/...".to_string()),
    };

    assert!(file_entry.is_file());
    assert!(!file_entry.is_directory());
}

#[test]
fn test_install_phase() {
    assert!(!InstallPhase::Downloading.is_finished());
    assert!(!InstallPhase::Installing.is_finished());
    assert!(InstallPhase::Completed.is_finished());
    assert!(InstallPhase::Failed.is_finished());

    assert!(!InstallPhase::Completed.is_error());
    assert!(InstallPhase::Failed.is_error());
}

#[test]
fn test_install_progress() {
    let mut progress = InstallProgress::new("test".to_string());
    assert_eq!(progress.phase, InstallPhase::Downloading);
    assert!(!progress.is_finished());

    progress.set_installing(123);
    assert_eq!(progress.phase, InstallPhase::Installing);
    assert_eq!(progress.process_id, Some(123));

    progress.set_completed();
    assert!(progress.is_finished());
    assert!(progress.error.is_none());
}

#[test]
fn test_install_progress_failure() {
    let mut progress = InstallProgress::new("test".to_string());
    progress.set_failed("Something went wrong".to_string());

    assert!(progress.is_finished());
    assert_eq!(progress.error, Some("Something went wrong".to_string()));
}

#[test]
fn test_installer_creation() {
    let installer = AddonInstaller::new("/tmp", Platform::Linux);
    assert!(installer.temp_dir().contains("ratterm-addons"));
}

#[test]
fn the_installer_builds_the_script_path_and_command_per_platform() {
    let linux = AddonInstaller::new("/tmp", Platform::Linux);
    assert_eq!(linux.temp_dir(), "/tmp/ratterm-addons");
    let launch = linux
        .start_install_with_content("nodejs", "echo hi", Platform::Linux)
        .expect("small script");
    assert_eq!(
        launch.script_path,
        "/tmp/ratterm-addons/nodejs_install-linux.sh"
    );
    assert_eq!(
        launch.command,
        "bash \"/tmp/ratterm-addons/nodejs_install-linux.sh\""
    );
    assert_eq!(launch.progress.addon_id, "nodejs");
    assert_eq!(launch.progress.phase, InstallPhase::Downloading);

    let windows = AddonInstaller::new("C:\\Temp", Platform::Windows);
    let launch = windows
        .start_install_with_content("python", "Write-Host hi", Platform::Windows)
        .expect("small script");
    assert_eq!(
        launch.script_path,
        "C:\\Temp\\ratterm-addons\\python_install-windows.ps1"
    );
    assert_eq!(
        launch.command,
        "powershell -NoProfile -ExecutionPolicy Bypass -Command \"& 'C:\\Temp\\ratterm-addons\\python_install-windows.ps1'\""
    );
}

#[test]
fn an_oversized_script_is_refused() {
    let installer = AddonInstaller::new("/tmp", Platform::Linux);
    let big = "x".repeat(MAX_SCRIPT_SIZE + 1);
    match installer.start_install_with_content("nodejs", &big, Platform::Linux) {
        Err(AddonError::ExecutionFailed(msg)) => assert_eq!(msg, "Script exceeds maximum size"),
        _ => panic!("an oversized script must be refused"),
    }
    let exact = "x".repeat(MAX_SCRIPT_SIZE);
    assert!(installer
        .start_install_with_content("nodejs", &exact, Platform::Linux)
        .is_ok());
}

#[test]
fn a_finished_process_completes_or_fails_the_install() {
    let installer = AddonInstaller::new("/tmp", Platform::Linux);
    let mut progress = InstallProgress::new("nodejs".to_string());

    // No process yet: nothing to report.
    let done = ProcessInfo { status: ProcessStatus::Completed, error_message: None };
    assert!(installer.check_install_complete(&progress, Some(&done), None).is_none());

    progress.set_installing(7);
    let running = ProcessInfo { status: ProcessStatus::Running, error_message: None };
    assert!(installer.check_install_complete(&progress, Some(&running), None).is_none());
    assert!(installer.check_install_complete(&progress, None, None).is_none());

    let ok = installer
        .check_install_complete(&progress, Some(&done), None)
        .expect("finished");
    assert_eq!(ok.phase, InstallPhase::Completed);
    assert_eq!(ok.progress, 100);
    assert_eq!(ok.process_id, Some(7));

    let failed = ProcessInfo {
        status: ProcessStatus::Error,
        error_message: Some("exit 1".to_string()),
    };
    let bad = installer
        .check_install_complete(&progress, Some(&failed), Some("no space".to_string()))
        .expect("finished");
    assert_eq!(bad.phase, InstallPhase::Failed);
    assert_eq!(bad.error, Some("exit 1: no space".to_string()));

    let killed = ProcessInfo { status: ProcessStatus::Killed, error_message: None };
    let bad = installer
        .check_install_complete(&progress, Some(&killed), None)
        .expect("finished");
    assert_eq!(bad.error, Some("Installation failed".to_string()));
}

#[test]
fn detection_uses_the_known_commands_and_version_flags() {
    assert_eq!(detection_commands("Vim"), vec!["vim", "nvim", "gvim"]);
    assert_eq!(detection_commands("nodejs"), vec!["node", "npm", "npx"]);
    assert_eq!(detection_commands("Docker"), vec!["docker"]);
    assert_eq!(
        detection_commands("no-such-addon-here"),
        vec!["no-such-addon-here"]
    );
    assert_eq!(version_args("GO"), "version");
    assert_eq!(version_args("java"), "-version");
    assert_eq!(version_args("unknown"), "--version");
}

#[test]
fn test_capitalize_addon_name() {
    assert_eq!(capitalize_addon_name("node-js"), "Node Js");
    assert_eq!(capitalize_addon_name("python_runtime"), "Python Runtime");
    assert_eq!(capitalize_addon_name("rust"), "Rust");
}

#[test]
fn test_storage_load() {
    let content = "addon_repository = custom/repo\naddon_branch = dev\naddon.nodejs = installed\naddon.python = installed\n";
    let storage = AddonStorage::new("addons.conf".to_string());
    let config = storage.parse_config(content, 1_700_000_000);

    assert_eq!(config.repository, "custom/repo");
    assert_eq!(config.branch, "dev");
    assert_eq!(config.installed.len(), 2);
    assert!(config.is_installed("nodejs"));
    assert!(config.is_installed("python"));
}

#[test]
fn test_storage_save_addon() {
    let storage = AddonStorage::new("addons.conf".to_string());
    let addon = InstalledAddon::new("test".to_string(), "Test".to_string());
    let content = storage.save_addon("", &addon);
    assert!(content.contains("addon.test = installed"));
}

#[test]
fn test_storage_remove_addon() {
    let storage = AddonStorage::new("addons.conf".to_string());
    let content = storage.remove_addon(
        "addon.nodejs = installed\naddon.python = installed\n",
        "nodejs",
    );
    assert!(!content.contains("addon.nodejs"));
    assert!(content.contains("addon.python"));
}

#[test]
fn saving_then_loading_a_setting_reads_it_back() {
    let storage = AddonStorage::new("addons.conf".to_string());
    let content = storage.save_repository("# settings\nother = 1\n", "me/addons");
    let content = storage.save_branch(&content, "next");
    let config = storage.parse_config(&content, 5);
    assert_eq!(config.repository, "me/addons");
    assert_eq!(config.branch, "next");
    assert!(content.contains("other = 1"));
    assert!(content.contains("# settings"));

    // A second save replaces the line instead of adding one.
    let again = storage.save_branch(&content, "main");
    assert_eq!(again.matches("addon_branch").count(), 1);
    assert_eq!(storage.parse_config(&again, 5).branch, "main");
}

#[test]
fn comments_and_bad_values_are_ignored_when_loading() {
    let storage = AddonStorage::new("addons.conf".to_string());
    let content = "# a comment\naddon_repository = norepo\naddon_branch = dev # trailing\n\naddon.vim = installed\n";
    let config = storage.parse_config(content, 9);
    assert_eq!(config.repository, "hastur-dev/ratterm-installer");
    assert_eq!(config.branch, "dev");
    assert!(config.is_installed("vim"));
    assert_eq!(config.get_installed("vim").map(|a| a.installed_at), Some(9));
}

#[test]
fn test_addon_new() {
    let addon = Addon::new("node-js".to_string());
    assert_eq!(addon.id, "node-js");
    assert_eq!(addon.name, "Node Js");
    assert!(!addon.has_install);
}

#[test]
fn test_addon_builder() {
    let addon = Addon::new("python".to_string())
        .with_description("Python runtime".to_string())
        .with_install(true);

    assert_eq!(addon.description, "Python runtime");
    assert!(addon.is_installable());
}

#[test]
fn test_installed_addon() {
    let addon = InstalledAddon::new("nodejs".to_string(), "Node.js".to_string());
    assert!(addon.installed_at > 0);
}

#[test]
fn test_addon_config() {
    let mut config = AddonConfig::new();
    assert_eq!(config.repository, "hastur-dev/ratterm-installer");
    assert_eq!(config.branch, "main");

    let addon = InstalledAddon::new("test".to_string(), "Test".to_string());
    config.add_installed(addon);
    assert!(config.is_installed("test"));
    assert!(!config.is_installed("other"));

    config.remove_installed("test");
    assert!(!config.is_installed("test"));
}

#[test]
fn adding_an_installed_addon_again_replaces_it() {
    let mut config = AddonConfig::new();
    config.add_installed(InstalledAddon {
        id: "vim".to_string(),
        display_name: "Vim".to_string(),
        installed_at: 1,
    });
    config.add_installed(InstalledAddon {
        id: "vim".to_string(),
        display_name: "Vim 9".to_string(),
        installed_at: 2,
    });
    assert_eq!(config.installed.len(), 1);
    assert_eq!(config.get_installed("vim").map(|a| a.installed_at), Some(2));

    // Removing something absent changes nothing.
    let before = config.installed.len();
    config.remove_installed("emacs");
    assert_eq!(config.installed.len(), before);
}

#[test]
fn test_script_type_filename() {
    let install = ScriptType::Install.filename(Platform::Linux);
    assert_eq!(install, "install-linux.sh");
    assert_eq!(ScriptType::Install.filename(Platform::MacOs), "install-macos.sh");
    assert_eq!(
        ScriptType::Install.filename(Platform::Windows),
        "install-windows.ps1"
    );
}

#[test]
fn every_addon_error_has_a_message() {
    let e = AddonError::ExecutionFailed("boom".to_string());
    assert_eq!(e.message(), "Script execution failed: boom");
    assert_eq!(
        AddonError::AddonNotFound("vim".to_string()).message(),
        "Add-on 'vim' not found"
    );
    assert_eq!(
        AddonError::LimitReached.message(),
        "Maximum number of add-ons reached"
    );
}

#[test]
fn an_addon_stamped_with_a_given_time_keeps_it() {
    let addon = InstalledAddon::with_time("nodejs".to_string(), "Node.js".to_string(), 1_700_000_000);
    assert_eq!(addon.id, "nodejs");
    assert_eq!(addon.display_name, "Node.js");
    assert_eq!(addon.installed_at, 1_700_000_000);
}

#[test]
fn a_clock_before_the_epoch_reads_as_zero() {
    assert_eq!(ratterm_core::addons::types::secs_or_zero(Some(42)), 42);
    assert_eq!(ratterm_core::addons::types::secs_or_zero(None), 0);
}
