use ratterm_core::addons::fetcher::{FetchRequest, FetchResult};
use ratterm_core::addons::installer::{
    AddonInstaller, InstallPhase, InstallProgress, ProcessInfo, ProcessStatus, MAX_SCRIPT_SIZE,
};
use ratterm_core::addons::storage::AddonStorage;
use ratterm_core::addons::types::{Addon, AddonError, Platform, ScriptType};
use ratterm_core::app::addon_ops::{
    addon_key_action_for, AddonKeyAction, AddonKeyOutcome, AddonManagerMode, AddonProgress,
};
use ratterm_core::app::keys::{KeyCode, KeyEvent, KeyModifiers};
use ratterm_core::app::state::{App, PopupKind};

fn installer() -> AddonInstaller {
    AddonInstaller::new("/tmp", Platform::Linux)
}

fn storage() -> AddonStorage {
    AddonStorage::new("/home/u/.ratrc".to_string())
}

fn finished(status: ProcessStatus, message: Option<&str>) -> ProcessInfo {
    ProcessInfo { status, error_message: message.map(|m| m.to_string()) }
}

/// An app whose manager is installing `id` with process 42.
fn installing(id: &str) -> App {
    let mut app = App::new(80, 24);
    app.show_addon_manager();
    app.start_addon_install(id);
    let mut progress = InstallProgress::new(id.to_string());
    progress.set_installing(42);
    app.addon_install_started(Ok(progress));
    app
}

#[test]
fn opening_the_manager_asks_for_the_list() {
    let mut app = App::new(80, 24);
    let request = app.show_addon_manager();
    assert!(matches!(request, FetchRequest::FetchAddonList { force_refresh: false }));
    assert_eq!(app.popup, Some(PopupKind::AddonManager));
    let m = app.addon_manager.as_ref().unwrap();
    assert_eq!(m.mode, AddonManagerMode::Fetching);
    assert_eq!(m.repository, "hastur-dev/ratterm-installer");
    assert_eq!(m.branch, "main");
}

#[test]
fn a_fetched_list_fills_the_manager() {
    let mut app = App::new(80, 24);
    app.show_addon_manager();
    let addons = vec![Addon::new("nodejs".to_string()), Addon::new("python".to_string())];
    let launch = app.poll_addon_fetcher(Some(FetchResult::AddonList(addons)), &installer(), Platform::Linux);
    assert!(launch.is_none());
    let m = app.addon_manager.as_ref().unwrap();
    assert_eq!(m.mode, AddonManagerMode::List);
    assert_eq!(m.addons.len(), 2);
    assert_eq!(m.addons[0].id, "nodejs");
}

#[test]
fn nothing_delivered_changes_nothing() {
    let mut app = App::new(80, 24);
    app.show_addon_manager();
    assert!(app.poll_addon_fetcher(None, &installer(), Platform::Linux).is_none());
    assert_eq!(app.addon_manager.as_ref().unwrap().mode, AddonManagerMode::Fetching);
    assert_eq!(app.status(), "");
}

#[test]
fn a_fetch_error_is_shown() {
    let mut app = App::new(80, 24);
    app.show_addon_manager();
    let error = AddonError::NetworkError("timeout".to_string());
    app.poll_addon_fetcher(Some(FetchResult::Error(error)), &installer(), Platform::Linux);
    assert_eq!(app.status(), "Failed to fetch add-ons: Network error: timeout");
    let m = app.addon_manager.as_ref().unwrap();
    assert_eq!(m.mode, AddonManagerMode::Error);
    assert_eq!(m.error.as_deref(), Some("Network error: timeout"));
}

#[test]
fn starting_an_install_asks_for_its_script() {
    let mut app = App::new(80, 24);
    app.show_addon_manager();
    let request = app.start_addon_install("nodejs");
    match request {
        FetchRequest::FetchScript { addon_id, script_type } => {
            assert_eq!(addon_id, "nodejs");
            assert_eq!(script_type, ScriptType::Install);
        }
        other => panic!("unexpected request {:?}", other),
    }
    assert_eq!(app.status(), "Downloading nodejs...");
    let m = app.addon_manager.as_ref().unwrap();
    assert_eq!(m.mode, AddonManagerMode::Installing);
    assert_eq!(m.pending_addon_id.as_deref(), Some("nodejs"));
    assert!(!m.uninstalling);
}

#[test]
fn a_fetched_script_is_prepared_for_launch() {
    let mut app = App::new(80, 24);
    app.show_addon_manager();
    app.start_addon_install("nodejs");
    let result = FetchResult::Script {
        addon_id: "nodejs".to_string(),
        script_type: ScriptType::Install,
        content: "echo hi".to_string(),
    };
    let launch = app.poll_addon_fetcher(Some(result), &installer(), Platform::Linux).unwrap();
    assert_eq!(launch.script, "echo hi");
    assert_eq!(launch.script_path, "/tmp/ratterm-addons/nodejs_install-linux.sh");
    assert_eq!(launch.command, "bash \"/tmp/ratterm-addons/nodejs_install-linux.sh\"");
    assert_eq!(launch.progress.addon_id, "nodejs");
    assert_eq!(launch.progress.phase, InstallPhase::Downloading);
    assert_eq!(app.status(), "Downloading nodejs...");
}

#[test]
fn an_oversized_script_fails_the_install() {
    let mut app = App::new(80, 24);
    app.show_addon_manager();
    app.start_addon_install("big");
    let result = FetchResult::Script {
        addon_id: "big".to_string(),
        script_type: ScriptType::Install,
        content: "x".repeat(MAX_SCRIPT_SIZE + 1),
    };
    assert!(app.poll_addon_fetcher(Some(result), &installer(), Platform::Linux).is_none());
    assert_eq!(
        app.status(),
        "Failed to install: Script execution failed: Script exceeds maximum size"
    );
    let m = app.addon_manager.as_ref().unwrap();
    assert_eq!(m.mode, AddonManagerMode::Error);
    assert!(m.install_progress.is_none());
}

#[test]
fn a_started_process_is_tracked() {
    let app = installing("nodejs");
    assert_eq!(app.status(), "Installing nodejs...");
    let p = app.addon_manager.as_ref().unwrap().install_progress.as_ref().unwrap();
    assert_eq!(p.process_id, Some(42));
    assert_eq!(p.phase, InstallPhase::Installing);
}

#[test]
fn a_process_that_could_not_start_fails_the_install() {
    let mut app = App::new(80, 24);
    app.show_addon_manager();
    app.start_addon_install("nodejs");
    app.addon_install_started(Err(AddonError::ExecutionFailed("no shell".to_string())));
    assert_eq!(app.status(), "Failed to install: Script execution failed: no shell");
    assert_eq!(app.addon_manager.as_ref().unwrap().mode, AddonManagerMode::Error);
}

#[test]
fn a_running_process_keeps_waiting() {
    let mut app = installing("nodejs");
    let info = finished(ProcessStatus::Running, None);
    let step = app.check_addon_install_progress(&installer(), &storage(), Some(&info), None, "");
    assert!(matches!(step, AddonProgress::Waiting));
    let step = app.check_addon_install_progress(&installer(), &storage(), None, None, "");
    assert!(matches!(step, AddonProgress::Waiting));
    assert_eq!(app.status(), "Installing nodejs...");
}

#[test]
fn a_completed_process_records_the_addon() {
    let mut app = installing("node-js");
    let info = finished(ProcessStatus::Completed, None);
    let step = app.check_addon_install_progress(
        &installer(),
        &storage(),
        Some(&info),
        None,
        "addon_branch = dev\n",
    );
    match step {
        AddonProgress::Finished { config, refresh } => {
            assert!(config.contains("addon_branch = dev"));
            assert!(config.contains("addon.node-js = installed"));
            assert!(matches!(refresh, FetchRequest::FetchAddonList { force_refresh: false }));
        }
        other => panic!("unexpected step {:?}", other),
    }
    assert_eq!(app.status(), "Installed: node-js");
    assert!(app.addon_config.is_installed("node-js"));
    assert_eq!(app.addon_config.get_installed("node-js").unwrap().display_name, "Node Js");
    let m = app.addon_manager.as_ref().unwrap();
    assert_eq!(m.mode, AddonManagerMode::Fetching);
    assert!(m.install_progress.is_none());
    assert!(m.pending_addon_id.is_none());
    assert_eq!(m.installed.len(), 1);
    assert!(m.addons.is_empty());
}

#[test]
fn a_failed_process_shows_its_error() {
    let mut app = installing("nodejs");
    let info = finished(ProcessStatus::Error, Some("exit 1"));
    let step = app.check_addon_install_progress(
        &installer(),
        &storage(),
        Some(&info),
        Some("npm not found".to_string()),
        "",
    );
    assert!(matches!(step, AddonProgress::Failed));
    let m = app.addon_manager.as_ref().unwrap();
    assert_eq!(m.mode, AddonManagerMode::Error);
    assert_eq!(m.error.as_deref(), Some("exit 1: npm not found"));
    assert!(m.install_progress.is_none());
    assert!(!app.addon_config.is_installed("nodejs"));
    assert_eq!(app.status(), "Installing nodejs...");
}

#[test]
fn a_completed_removal_forgets_the_addon() {
    let mut app = installing("vim");
    let info = finished(ProcessStatus::Completed, None);
    app.check_addon_install_progress(&installer(), &storage(), Some(&info), None, "");
    assert!(app.addon_config.is_installed("vim"));
    // A removal of the same add-on, tracked by the manager.
    let mut progress = InstallProgress::new("vim".to_string());
    progress.set_installing(7);
    app.addon_install_started(Ok(progress));
    app.addon_manager.as_mut().unwrap().uninstalling = true;
    let step = app.check_addon_install_progress(
        &installer(),
        &storage(),
        Some(&info),
        None,
        "addon.vim = installed\naddon_branch = dev\n",
    );
    match step {
        AddonProgress::Finished { config, .. } => {
            assert!(!config.contains("addon.vim"));
            assert!(config.contains("addon_branch = dev"));
        }
        other => panic!("unexpected step {:?}", other),
    }
    assert_eq!(app.status(), "Uninstalled: vim");
    assert!(!app.addon_config.is_installed("vim"));
    assert!(app.addon_manager.as_ref().unwrap().installed.is_empty());
}

#[test]
fn hiding_the_manager_returns_it_to_its_list() {
    let mut app = installing("nodejs");
    app.hide_addon_manager();
    assert!(app.popup.is_none());
    let m = app.addon_manager.as_ref().unwrap();
    assert_eq!(m.mode, AddonManagerMode::List);
    assert!(m.install_progress.is_none());
    assert!(m.pending_addon_id.is_none());
    // Opening it again keeps the same manager and asks for the list.
    let request = app.refresh_addon_list(true);
    assert!(matches!(request, FetchRequest::FetchAddonList { force_refresh: true }));
    assert_eq!(app.addon_manager.as_ref().unwrap().mode, AddonManagerMode::Fetching);
}

fn key(code: KeyCode) -> KeyEvent {
    KeyEvent::new(code, KeyModifiers::none())
}

#[test]
fn list_keys_of_the_addon_manager() {
    let list = AddonManagerMode::List;
    assert_eq!(addon_key_action_for(key(KeyCode::Esc), list), Some(AddonKeyAction::Close));
    assert_eq!(addon_key_action_for(key(KeyCode::Up), list), Some(AddonKeyAction::Prev));
    assert_eq!(addon_key_action_for(key(KeyCode::Char('k')), list), Some(AddonKeyAction::Prev));
    assert_eq!(addon_key_action_for(key(KeyCode::Char('j')), list), Some(AddonKeyAction::Next));
    assert_eq!(addon_key_action_for(key(KeyCode::Home), list), Some(AddonKeyAction::First));
    assert_eq!(addon_key_action_for(key(KeyCode::End), list), Some(AddonKeyAction::Last));
    assert_eq!(addon_key_action_for(key(KeyCode::Tab), list), Some(AddonKeyAction::ToggleSection));
    assert_eq!(addon_key_action_for(key(KeyCode::Char('a')), list), Some(AddonKeyAction::ShowAvailable));
    assert_eq!(addon_key_action_for(key(KeyCode::Char('i')), list), Some(AddonKeyAction::ShowInstalled));
    assert_eq!(addon_key_action_for(key(KeyCode::F(5)), list), Some(AddonKeyAction::Refresh));
    assert_eq!(addon_key_action_for(key(KeyCode::Enter), list), Some(AddonKeyAction::Activate));
    assert_eq!(addon_key_action_for(key(KeyCode::Char('d')), list), Some(AddonKeyAction::Uninstall));
    assert_eq!(addon_key_action_for(key(KeyCode::Delete), list), Some(AddonKeyAction::Uninstall));
    assert_eq!(addon_key_action_for(key(KeyCode::F(4)), list), None);
    assert_eq!(
        addon_key_action_for(KeyEvent::new(KeyCode::Char('j'), KeyModifiers::shift()), list),
        None
    );
}

#[test]
fn other_modes_of_the_addon_manager_take_few_keys() {
    assert_eq!(addon_key_action_for(key(KeyCode::Esc), AddonManagerMode::Fetching), Some(AddonKeyAction::Close));
    assert_eq!(addon_key_action_for(key(KeyCode::Enter), AddonManagerMode::Fetching), None);
    assert_eq!(addon_key_action_for(key(KeyCode::Esc), AddonManagerMode::Installing), None);
    assert_eq!(
        addon_key_action_for(key(KeyCode::Esc), AddonManagerMode::ConfirmUninstall),
        Some(AddonKeyAction::CancelUninstall)
    );
    assert_eq!(
        addon_key_action_for(key(KeyCode::Enter), AddonManagerMode::ConfirmUninstall),
        Some(AddonKeyAction::ConfirmUninstall)
    );
    assert_eq!(addon_key_action_for(key(KeyCode::Enter), AddonManagerMode::Error), Some(AddonKeyAction::DismissError));
    assert_eq!(addon_key_action_for(key(KeyCode::Esc), AddonManagerMode::Error), Some(AddonKeyAction::DismissError));
}

#[test]
fn manager_keys_close_refresh_or_hand_back() {
    let mut app = App::new(80, 24);
    assert!(matches!(app.handle_addon_manager_key(key(KeyCode::Esc)), AddonKeyOutcome::Ignored));
    app.show_addon_manager();
    // While fetching only Escape works.
    assert!(matches!(app.handle_addon_manager_key(key(KeyCode::Enter)), AddonKeyOutcome::Ignored));
    app.poll_addon_fetcher(Some(FetchResult::AddonList(vec![])), &installer(), Platform::Linux);
    match app.handle_addon_manager_key(key(KeyCode::F(5))) {
        AddonKeyOutcome::Fetch(FetchRequest::FetchAddonList { force_refresh }) => assert!(force_refresh),
        other => panic!("unexpected {:?}", other),
    }
    assert_eq!(app.addon_manager.as_ref().unwrap().mode, AddonManagerMode::Fetching);
    app.poll_addon_fetcher(Some(FetchResult::AddonList(vec![])), &installer(), Platform::Linux);
    assert!(matches!(
        app.handle_addon_manager_key(key(KeyCode::Char('j'))),
        AddonKeyOutcome::Pending(AddonKeyAction::Next)
    ));
    app.addon_manager.as_mut().unwrap().mode = AddonManagerMode::ConfirmUninstall;
    assert!(matches!(app.handle_addon_manager_key(key(KeyCode::Esc)), AddonKeyOutcome::Done));
    assert_eq!(app.addon_manager.as_ref().unwrap().mode, AddonManagerMode::List);
    assert!(matches!(app.handle_addon_manager_key(key(KeyCode::Esc)), AddonKeyOutcome::Done));
    assert!(app.popup.is_none());
}
