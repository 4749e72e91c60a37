//! The add-on manager: opening and closing it, the list fetched from
//! GitHub, and installations from the fetched script to the recorded
//! add-on.
//!
//! Fetching, writing scripts, running them and writing the configuration
//! file are the caller's: each operation here says what to fetch, what to
//! launch or what to write, and takes back what came of it.

use crate::addons::fetcher::{FetchRequest, FetchResult};
use crate::addons::installer::{
    install_failure_text, prepared_launch, AddonInstaller, InstallLaunch, InstallProgress, ProcessInfo, ProcessStatus, MAX_SCRIPT_SIZE,
};
use crate::addons::storage::{
    capitalize_addon_name, join_lines, lines, lines_without_key, updated_lines, AddonStorage,
};
use crate::addons::types::{
    addon_error_text, has_id, lemma_without_id, without_id, Addon, AddonError, InstalledAddon, Platform, ScriptType,
    MAX_INSTALLED_ADDONS,
};
use crate::app::keys::{no_mods, KeyCode, KeyEvent};
use crate::app::state::{App, AppMode, PopupKind};
use crate::text::{concat2, concat3, has_word, title_case};
use vstd::prelude::*;

verus! {

/// What the add-on manager shows.
#[derive(Debug, Clone, Copy, PartialEq, Eq, Structural)]
pub enum AddonManagerMode {
    /// The list of add-ons.
    List,
    /// Waiting for the list.
    Fetching,
    /// An installation under way.
    Installing,
    /// Asking whether to remove the selected add-on.
    ConfirmUninstall,
    /// An error.
    Error,
}

/// The add-on manager's state.
pub struct AddonManager {
    /// What it shows.
    pub mode: AddonManagerMode,
    /// The repository add-ons come from.
    pub repository: String,
    /// The branch add-ons come from.
    pub branch: String,
    /// The add-ons offered.
    pub addons: Vec<Addon>,
    /// The add-ons installed.
    pub installed: Vec<InstalledAddon>,
    /// The add-on whose script is being fetched or run.
    pub pending_addon_id: Option<String>,
    /// The pending operation removes the add-on.
    pub uninstalling: bool,
    /// The installation under way.
    pub install_progress: Option<InstallProgress>,
    /// The error shown.
    pub error: Option<String>,
}

/// The manager back on its list: nothing pending, no progress, no error.
pub open spec fn listed(m: AddonManager) -> AddonManager {
    AddonManager {
        mode: AddonManagerMode::List,
        pending_addon_id: None,
        uninstalling: false,
        install_progress: None,
        error: None,
        ..m
    }
}

/// `new` is `old` showing the error `e`.
pub open spec fn errored(old: AddonManager, new: AddonManager, e: Seq<char>) -> bool {
    &&& new.error matches Some(s) && s@ == e
    &&& new == AddonManager { mode: AddonManagerMode::Error, error: new.error, ..old }
}

/// `new` is `old` showing the error `e`, with its installation dropped.
pub open spec fn install_failed(old: AddonManager, new: AddonManager, e: Seq<char>) -> bool {
    errored(AddonManager { install_progress: None, ..old }, new, e)
}

/// The app's add-on manager after `step`, when one is open, and none
/// otherwise.
pub open spec fn manager_after(
    old: Option<AddonManager>,
    new: Option<AddonManager>,
    step: spec_fn(AddonManager, AddonManager) -> bool,
) -> bool {
    match old {
        Some(m) => new matches Some(n) && step(m, n),
        None => new is None,
    }
}

/// A manager opened on `repository` and `branch`, waiting for its list.
pub open spec fn fresh_manager(m: AddonManager, repository: String, branch: String) -> bool {
    &&& m.mode == AddonManagerMode::Fetching
    &&& m.repository == repository
    &&& m.branch == branch
    &&& m.addons@.len() == 0
    &&& m.installed@.len() == 0
    &&& m.pending_addon_id is None
    &&& !m.uninstalling
    &&& m.install_progress is None
    &&& m.error is None
}

/// The installation the manager tracks, if it is open and has one.
pub open spec fn tracked_install(app: App) -> Option<InstallProgress> {
    match app.addon_manager {
        Some(m) => m.install_progress,
        None => None,
    }
}

/// The process report says the tracked process has stopped.
pub open spec fn install_ended(p: InstallProgress, info: Option<&ProcessInfo>) -> bool {
    p.process_id is Some && info is Some && info.unwrap().status != ProcessStatus::Running
}

/// The process stopped, and succeeded.
pub open spec fn install_succeeded(app: App, info: Option<&ProcessInfo>) -> bool {
    tracked_install(app) matches Some(p) && install_ended(p, info) && info.unwrap().status
        == ProcessStatus::Completed
}

/// The error shown for an install script over `MAX_SCRIPT_SIZE` bytes.
pub open spec fn oversize_error() -> Seq<char> {
    "Script execution failed: "@ + "Script exceeds maximum size"@
}

/// What `str::len` gives for a string of these characters: the length of
/// its UTF-8 encoding.
pub open spec fn str_len(s: Seq<char>) -> usize {
    vstd::utf8::encode_utf8(s).len() as usize
}

/// The text of a process's output, empty when there is none.
pub open spec fn output_text(output: Option<String>) -> Seq<char> {
    match output {
        Some(o) => o@,
        None => Seq::<char>::empty(),
    }
}

/// What a step of an installation came to.
#[derive(Debug)]
pub enum AddonProgress {
    /// No installation, or its process is still running.
    Waiting,
    /// The process failed; the manager shows why.
    Failed,
    /// The add-on was recorded (or, for a removal, forgotten): the
    /// configuration file's new text, and the list to fetch again.
    Finished {
        /// The configuration file's new text.
        config: String,
        /// The list to fetch again.
        refresh: FetchRequest,
    },
}

impl AddonManager {
    /// A manager on `repository` and `branch`, waiting for its list.
    fn opened(repository: String, branch: String) -> (r: Self)
        ensures
            r.repository == repository,
            r.branch == branch,
            r.mode == AddonManagerMode::List,
            r.addons@.len() == 0,
            r.installed@.len() == 0,
            r.pending_addon_id is None,
            !r.uninstalling,
            r.install_progress is None,
            r.error is None,
    {
        AddonManager {
            mode: AddonManagerMode::List,
            repository,
            branch,
            addons: Vec::new(),
            installed: Vec::new(),
            pending_addon_id: None,
            uninstalling: false,
            install_progress: None,
            error: None,
        }
    }

    /// Back to the list.
    fn return_to_list(&mut self)
        ensures
            *final(self) == listed(*old(self)),
    {
        self.mode = AddonManagerMode::List;
        self.pending_addon_id = None;
        self.uninstalling = false;
        self.install_progress = None;
        self.error = None;
    }

    /// Shows `error`, dropping the installation.
    fn fail(&mut self, error: String)
        ensures
            install_failed(*old(self), *final(self), error@),
    {
        self.mode = AddonManagerMode::Error;
        self.error = Some(error);
        self.install_progress = None;
    }
}

/// A copy of an installed list.
fn copy_installed(v: &Vec<InstalledAddon>) -> (r: Vec<InstalledAddon>)
    ensures
        r@ == v@,
{
    let mut r: Vec<InstalledAddon> = Vec::new();
    let mut i: usize = 0;
    while i < v.len()
        invariant
            i <= v@.len(),
            r@ == v@.take(i as int),
        decreases v@.len() - i,
    {
        let a = InstalledAddon {
            id: v[i].id.clone(),
            display_name: v[i].display_name.clone(),
            installed_at: v[i].installed_at,
        };
        assert(a == v@[i as int]);
        r.push(a);
        i = i + 1;
        assert(r@ =~= v@.take(i as int));
    }
    assert(v@.take(v@.len() as int) =~= v@);
    r
}

impl App {
    /// Opens the add-on manager on the configured repository and branch,
    /// keeping the one already open, and asks for the add-on list.
    pub fn show_addon_manager(&mut self) -> (r: FetchRequest)
        ensures
            r == (FetchRequest::FetchAddonList { force_refresh: false }),
            final(self).popup == Some(PopupKind::AddonManager),
            final(self).mode == AppMode::Normal,
            *final(self) == (App {
                addon_manager: final(self).addon_manager,
                popup: Some(PopupKind::AddonManager),
                mode: AppMode::Normal,
                ..*old(self)
            }),
            old(self).addon_manager matches Some(m) ==> final(self).addon_manager == Some(
                AddonManager { mode: AddonManagerMode::Fetching, ..m },
            ),
            old(self).addon_manager is None ==> (final(self).addon_manager matches Some(m)
                && fresh_manager(m, old(self).addon_config.repository, old(self).addon_config.branch)),
    {
        if self.addon_manager.is_none() {
            let m = AddonManager::opened(
                self.addon_config.repository.clone(),
                self.addon_config.branch.clone(),
            );
            self.addon_manager = Some(m);
        }
        let r = self.refresh_addon_list(false);
        self.show_popup(PopupKind::AddonManager);
        self.mode = AppMode::Normal;
        r
    }

    /// Closes the add-on manager's popup; the manager goes back to its list.
    pub fn hide_addon_manager(&mut self)
        ensures
            *final(self) == (App {
                popup: None,
                mode: AppMode::Normal,
                needs_redraw: true,
                addon_manager: match old(self).addon_manager {
                    Some(m) => Some(listed(m)),
                    None => None,
                },
                ..*old(self)
            }),
    {
        self.popup = None;
        self.mode = AppMode::Normal;
        self.request_redraw();
        match self.addon_manager.take() {
            Some(mut m) => {
                m.return_to_list();
                self.addon_manager = Some(m);
            },
            None => {},
        }
    }

    /// Asks for the add-on list again (bypassing the cache when
    /// `force_refresh`); the manager waits for it.
    pub fn refresh_addon_list(&mut self, force_refresh: bool) -> (r: FetchRequest)
        ensures
            r == (FetchRequest::FetchAddonList { force_refresh }),
            *final(self) == (App {
                addon_manager: match old(self).addon_manager {
                    Some(m) => Some(AddonManager { mode: AddonManagerMode::Fetching, ..m }),
                    None => None,
                },
                ..*old(self)
            }),
    {
        match self.addon_manager.take() {
            Some(mut m) => {
                m.mode = AddonManagerMode::Fetching;
                self.addon_manager = Some(m);
            },
            None => {},
        }
        FetchRequest::FetchAddonList { force_refresh }
    }

    /// Takes what the background fetcher delivered, if anything. A list
    /// fills the manager; an error is shown; an install script is prepared
    /// for launching, which the caller does with what is returned (a script
    /// that is too large fails the installation at once).
    pub fn poll_addon_fetcher(
        &mut self,
        result: Option<FetchResult>,
        installer: &AddonInstaller,
        platform: Platform,
    ) -> (r: Option<InstallLaunch>)
        requires
            result matches Some(FetchResult::Script { addon_id, .. }) ==> addon_id@.len() > 0,
        ensures
            result is None ==> r is None && *final(self) == *old(self),
            result matches Some(FetchResult::AddonList(addons)) ==> r is None && *final(self)
                == (App {
                addon_manager: match old(self).addon_manager {
                    Some(m) => Some(
                        AddonManager {
                            addons,
                            installed: final(self).addon_manager.unwrap().installed,
                            mode: AddonManagerMode::List,
                            ..m
                        },
                    ),
                    None => None,
                },
                ..*old(self)
            }) && (final(self).addon_manager matches Some(m) ==> m.installed@
                == old(self).addon_config.installed@),
            result matches Some(FetchResult::Error(e)) ==> r is None && final(self).status@
                == "Failed to fetch add-ons: "@ + addon_error_text(e) && *final(self) == (App {
                status: final(self).status,
                addon_manager: final(self).addon_manager,
                ..*old(self)
            }) && manager_after(
                old(self).addon_manager,
                final(self).addon_manager,
                |m: AddonManager, n: AddonManager| errored(m, n, addon_error_text(e)),
            ),
            result matches Some(FetchResult::Script { addon_id, content, .. }) ==> {
                &&& str_len(content@) <= MAX_SCRIPT_SIZE ==> (r matches Some(l) && prepared_launch(
                    l,
                    content@,
                    installer.temp_dir_view(),
                    addon_id@,
                    platform,
                ) && *final(self) == *old(self))
                &&& str_len(content@) > MAX_SCRIPT_SIZE ==> r is None && final(self).status@
                    == "Failed to install: "@ + oversize_error()
                    && *final(self) == (App {
                    status: final(self).status,
                    addon_manager: final(self).addon_manager,
                    ..*old(self)
                }) && manager_after(
                    old(self).addon_manager,
                    final(self).addon_manager,
                    |m: AddonManager, n: AddonManager|
install_failed(m, n, oversize_error()),
                )
            },
    {
        let result = match result {
            Some(r) => r,
            None => {
                return None;
            },
        };
        match result {
            FetchResult::AddonList(addons) => {
                match self.addon_manager.take() {
                    Some(mut m) => {
                        m.addons = addons;
                        m.installed = copy_installed(&self.addon_config.installed);
                        m.mode = AddonManagerMode::List;
                        self.addon_manager = Some(m);
                    },
                    None => {},
                }
                None
            },
            FetchResult::Script { addon_id, script_type, content } => {
                match script_type {
                    ScriptType::Install => {},
                }
                match installer.start_install_with_content(
                    addon_id.as_str(),
                    content.as_str(),
                    platform,
                ) {
                    Ok(launch) => Some(launch),
                    Err(e) => {
                        self.addon_install_started(Err(e));
                        None
                    },
                }
            },
            FetchResult::Error(e) => {
                let text = e.message();
                self.set_status(concat2("Failed to fetch add-ons: ", text.as_str()));
                match self.addon_manager.take() {
                    Some(mut m) => {
                        m.mode = AddonManagerMode::Error;
                        m.error = Some(text);
                        self.addon_manager = Some(m);
                    },
                    None => {},
                }
                None
            },
        }
    }

    /// Takes what came of launching an install script: the progress of the
    /// started process, or why it could not start, which fails the
    /// installation.
    pub fn addon_install_started(&mut self, result: Result<InstallProgress, AddonError>)
        ensures
            *final(self) == (App {
                status: final(self).status,
                addon_manager: final(self).addon_manager,
                ..*old(self)
            }),
            result matches Ok(p) ==> final(self).status@ == "Installing "@ + p.addon_id@ + "..."@
                && manager_after(
                old(self).addon_manager,
                final(self).addon_manager,
                |m: AddonManager, n: AddonManager|
                    n == AddonManager { install_progress: Some(p), ..m },
            ),
            result matches Err(e) ==> final(self).status@ == "Failed to install: "@
                + addon_error_text(e) && manager_after(
                old(self).addon_manager,
                final(self).addon_manager,
                |m: AddonManager, n: AddonManager| install_failed(m, n, addon_error_text(e)),
            ),
    {
        match result {
            Ok(p) => {
                let status = concat3("Installing ", p.addon_id.as_str(), "...");
                match self.addon_manager.take() {
                    Some(mut m) => {
                        m.install_progress = Some(p);
                        self.addon_manager = Some(m);
                    },
                    None => {},
                }
                self.set_status(status);
            },
            Err(e) => {
                let text = e.message();
                self.set_status(concat2("Failed to install: ", text.as_str()));
                match self.addon_manager.take() {
                    Some(mut m) => {
                        m.fail(text);
                        self.addon_manager = Some(m);
                    },
                    None => {},
                }
            },
        }
    }

    /// Starts installing `addon_id`: the manager waits for its script, which
    /// is to be fetched.
    pub fn start_addon_install(&mut self, addon_id: &str) -> (r: FetchRequest)
        ensures
            r matches FetchRequest::FetchScript { addon_id: id, script_type } && id@ == addon_id@
                && script_type == ScriptType::Install,
            final(self).status@ == "Downloading "@ + addon_id@ + "..."@,
            *final(self) == (App {
                status: final(self).status,
                addon_manager: final(self).addon_manager,
                ..*old(self)
            }),
            manager_after(
                old(self).addon_manager,
                final(self).addon_manager,
                |m: AddonManager, n: AddonManager|
                    n.pending_addon_id matches Some(s) && s@ == addon_id@ && n == AddonManager {
                        pending_addon_id: n.pending_addon_id,
                        uninstalling: false,
                        mode: AddonManagerMode::Installing,
                        ..m
                    },
            ),
    {
        match self.addon_manager.take() {
            Some(mut m) => {
                m.pending_addon_id = Some(addon_id.to_owned());
                m.uninstalling = false;
                m.mode = AddonManagerMode::Installing;
                self.addon_manager = Some(m);
            },
            None => {},
        }
        self.set_status(concat3("Downloading ", addon_id, "..."));
        FetchRequest::FetchScript { addon_id: addon_id.to_owned(), script_type: ScriptType::Install }
    }

    /// Checks the installation the manager tracks against `info`, the
    /// process manager's report on its process, and `output`, what the
    /// process wrote. While it runs nothing changes. A failed process fails
    /// the installation. A successful one records the add-on (or, when
    /// removing, forgets it) in the settings, returns the manager to its
    /// list and asks for the list again; `config_content` is the
    /// configuration file's text, and the text to write back is returned.
    pub fn check_addon_install_progress(
        &mut self,
        installer: &AddonInstaller,
        storage: &AddonStorage,
        info: Option<&ProcessInfo>,
        output: Option<String>,
        config_content: &str,
    ) -> (r: AddonProgress)
        requires
            install_succeeded(*old(self), info) ==> {
                let id = tracked_install(*old(self)).unwrap().addon_id@;
                &&& old(self).addon_manager.unwrap().uninstalling ==> id.len() > 0
                &&& !old(self).addon_manager.unwrap().uninstalling ==> has_word(id) && old(
                    self).addon_config.installed@.len() < MAX_INSTALLED_ADDONS
            },
        ensures
            !(tracked_install(*old(self)) matches Some(p) && install_ended(p, info)) ==> r is Waiting
                && *final(self) == *old(self),
            (tracked_install(*old(self)) matches Some(p) && install_ended(p, info) && info.unwrap().status
                != ProcessStatus::Completed) ==> r is Failed && *final(self) == (App {
                addon_manager: final(self).addon_manager,
                ..*old(self)
            }) && manager_after(
                old(self).addon_manager,
                final(self).addon_manager,
                |m: AddonManager, n: AddonManager|
                    install_failed(
                        m,
                        n,
                        install_failure_text(info.unwrap().error_message, output_text(output)),
                    ),
            ),
            install_succeeded(*old(self), info) ==> {
                let m = old(self).addon_manager.unwrap();
                let id = tracked_install(*old(self)).unwrap().addon_id@;
                let n = final(self).addon_manager.unwrap();
                &&& (r matches AddonProgress::Finished { refresh, .. } && refresh == (
                FetchRequest::FetchAddonList { force_refresh: false }))
                &&& *final(self) == (App {
                    status: final(self).status,
                    addon_manager: final(self).addon_manager,
                    addon_config: final(self).addon_config,
                    ..*old(self)
                })
                &&& final(self).addon_config.repository == old(self).addon_config.repository
                &&& final(self).addon_config.branch == old(self).addon_config.branch
                &&& final(self).addon_manager is Some
                &&& n.installed@ == final(self).addon_config.installed@
                &&& m.uninstalling ==> {
                    &&& (r matches AddonProgress::Finished { config, .. } && config@ == join_lines(
                        lines_without_key(lines(config_content@), "addon."@ + id),
                    ))
                    &&& final(self).addon_config.installed@ == without_id(
                        old(self).addon_config.installed@,
                        id,
                    )
                    &&& !has_id(final(self).addon_config.installed@, id)
                    &&& final(self).status@ == "Uninstalled: "@ + id
                    &&& n == AddonManager {
                        installed: n.installed,
                        mode: AddonManagerMode::Fetching,
                        ..listed(m)
                    }
                }
                &&& !m.uninstalling ==> {
                    &&& (r matches AddonProgress::Finished { config, .. } && config@ == join_lines(
                        updated_lines(lines(config_content@), "addon."@ + id, "installed"@),
                    ))
                    &&& final(self).addon_config.installed@.len() > 0
                    &&& final(self).addon_config.installed@.drop_last() == without_id(
                        old(self).addon_config.installed@,
                        id,
                    )
                    &&& final(self).addon_config.installed@.last().id@ == id
                    &&& has_id(final(self).addon_config.installed@, id)
                    &&& final(self).addon_config.installed@.last().display_name@ == title_case(id)
                    &&& final(self).status@ == "Installed: "@ + id
                    &&& n.addons@.len() == 0
                    &&& n == AddonManager {
                        addons: n.addons,
                        installed: n.installed,
                        mode: AddonManagerMode::Fetching,
                        ..listed(m)
                    }
                }
            },
    {
        let (progress, uninstalling) = match &self.addon_manager {
            Some(m) => match &m.install_progress {
                Some(p) => (p.duplicate(), m.uninstalling),
                None => {
                    return AddonProgress::Waiting;
                },
            },
            None => {
                return AddonProgress::Waiting;
            },
        };
        let updated = match installer.check_install_complete(&progress, info, output) {
            Some(u) => u,
            None => {
                return AddonProgress::Waiting;
            },
        };
        if updated.phase.is_error() {
            let error = match updated.error {
                Some(e) => e,
                None => "Unknown error".to_owned(),
            };
            match self.addon_manager.take() {
                Some(mut m) => {
                    m.fail(error);
                    self.addon_manager = Some(m);
                },
                None => {},
            }
            return AddonProgress::Failed;
        }
        let addon_id = updated.addon_id;
        if uninstalling {
            self.complete_addon_uninstall(addon_id, storage, config_content)
        } else {
            self.complete_addon_install(addon_id, storage, config_content)
        }
    }

    /// Records `addon_id` as installed, in the settings and in the text of
    /// the configuration file, and returns the manager to its list.
    fn complete_addon_install(
        &mut self,
        addon_id: String,
        storage: &AddonStorage,
        config_content: &str,
    ) -> (r: AddonProgress)
        requires
            has_word(addon_id@),
            old(self).addon_config.installed@.len() < MAX_INSTALLED_ADDONS,
            old(self).addon_manager is Some,
        ensures
            ({
                let m = old(self).addon_manager.unwrap();
                let id = addon_id@;
                let n = final(self).addon_manager.unwrap();
                &&& r matches AddonProgress::Finished { config, refresh } && refresh == (
                FetchRequest::FetchAddonList { force_refresh: false }) && config@ == join_lines(
                    updated_lines(lines(config_content@), "addon."@ + id, "installed"@),
                )
                &&& *final(self) == (App {
                    status: final(self).status,
                    addon_manager: final(self).addon_manager,
                    addon_config: final(self).addon_config,
                    ..*old(self)
                })
                &&& final(self).addon_config.repository == old(self).addon_config.repository
                &&& final(self).addon_config.branch == old(self).addon_config.branch
                &&& final(self).addon_manager is Some
                &&& n.installed@ == final(self).addon_config.installed@
                &&& final(self).addon_config.installed@.len() > 0
                &&& final(self).addon_config.installed@.drop_last() == without_id(
                    old(self).addon_config.installed@,
                    id,
                )
                &&& final(self).addon_config.installed@.last().id@ == id
                &&& has_id(final(self).addon_config.installed@, id)
                &&& final(self).addon_config.installed@.last().display_name@ == title_case(id)
                &&& final(self).status@ == "Installed: "@ + id
                &&& n.addons@.len() == 0
                &&& n == AddonManager {
                    addons: n.addons,
                    installed: n.installed,
                    mode: AddonManagerMode::Fetching,
                    ..listed(m)
                }
            }),
    {
        let display = capitalize_addon_name(addon_id.as_str());
        let installed = InstalledAddon::new(addon_id.clone(), display);
        let config = storage.save_addon(config_content, &installed);
        self.addon_config.add_installed(installed);
        proof {
            let s = self.addon_config.installed@;
            assert(s[s.len() - 1].id@ == addon_id@);
        }
        match self.addon_manager.take() {
            Some(mut m) => {
                m.addons = Vec::new();
                m.installed = copy_installed(&self.addon_config.installed);
                m.return_to_list();
                self.addon_manager = Some(m);
            },
            None => {},
        }
        self.set_status(concat2("Installed: ", addon_id.as_str()));
        let refresh = self.refresh_addon_list(false);
        AddonProgress::Finished { config, refresh }
    }

    /// Forgets `addon_id`, in the settings and in the text of the
    /// configuration file, and returns the manager to its list.
    fn complete_addon_uninstall(
        &mut self,
        addon_id: String,
        storage: &AddonStorage,
        config_content: &str,
    ) -> (r: AddonProgress)
        requires
            addon_id@.len() > 0,
            old(self).addon_manager is Some,
        ensures
            ({
                let m = old(self).addon_manager.unwrap();
                let id = addon_id@;
                let n = final(self).addon_manager.unwrap();
                &&& r matches AddonProgress::Finished { config, refresh } && refresh == (
                FetchRequest::FetchAddonList { force_refresh: false }) && config@ == join_lines(
                    lines_without_key(lines(config_content@), "addon."@ + id),
                )
                &&& *final(self) == (App {
                    status: final(self).status,
                    addon_manager: final(self).addon_manager,
                    addon_config: final(self).addon_config,
                    ..*old(self)
                })
                &&& final(self).addon_config.repository == old(self).addon_config.repository
                &&& final(self).addon_config.branch == old(self).addon_config.branch
                &&& final(self).addon_manager is Some
                &&& n.installed@ == final(self).addon_config.installed@
                &&& final(self).addon_config.installed@ == without_id(
                    old(self).addon_config.installed@,
                    id,
                )
                &&& !has_id(final(self).addon_config.installed@, id)
                &&& final(self).status@ == "Uninstalled: "@ + id
                &&& n == AddonManager {
                    installed: n.installed,
                    mode: AddonManagerMode::Fetching,
                    ..listed(m)
                }
            }),
    {
        self.addon_config.remove_installed(addon_id.as_str());
        proof {
            lemma_without_id(old(self).addon_config.installed@, addon_id@);
        }
        let config = storage.remove_addon(config_content, addon_id.as_str());
        match self.addon_manager.take() {
            Some(mut m) => {
                m.installed = copy_installed(&self.addon_config.installed);
                m.return_to_list();
                self.addon_manager = Some(m);
            },
            None => {},
        }
        self.set_status(concat2("Uninstalled: ", addon_id.as_str()));
        let refresh = self.refresh_addon_list(false);
        AddonProgress::Finished { config, refresh }
    }
}

/// What a key does in the add-on manager.
#[derive(Debug, Clone, Copy, PartialEq, Eq, Structural)]
pub enum AddonKeyAction {
    /// Escape on the list or while fetching: close the manager.
    Close,
    /// Up or `k`: the previous add-on.
    Prev,
    /// Down or `j`: the next add-on.
    Next,
    /// Home: the first add-on.
    First,
    /// End: the last add-on.
    Last,
    /// Tab: switch between the available and the installed add-ons.
    ToggleSection,
    /// `a`: show the available add-ons.
    ShowAvailable,
    /// `i`: show the installed add-ons.
    ShowInstalled,
    /// F5: fetch the list again, bypassing the cache.
    Refresh,
    /// Enter on the list: install (or reinstall) the selected add-on.
    Activate,
    /// `d` or Delete: ask whether to remove the selected add-on.
    Uninstall,
    /// Escape while asking: back to the list.
    CancelUninstall,
    /// Enter while asking: remove the add-on.
    ConfirmUninstall,
    /// Escape or Enter on an error: dismiss it.
    DismissError,
}

/// What a key with no modifier does in the add-on manager, by what it
/// shows. Nothing works while an installation runs.
pub open spec fn addon_key_action(key: KeyEvent, mode: AddonManagerMode) -> Option<AddonKeyAction> {
    if !no_mods(key.modifiers) {
        None
    } else {
        match mode {
            AddonManagerMode::List => match key.code {
                KeyCode::Esc => Some(AddonKeyAction::Close),
                KeyCode::Up => Some(AddonKeyAction::Prev),
                KeyCode::Down => Some(AddonKeyAction::Next),
                KeyCode::Home => Some(AddonKeyAction::First),
                KeyCode::End => Some(AddonKeyAction::Last),
                KeyCode::Tab => Some(AddonKeyAction::ToggleSection),
                KeyCode::F(n) => if n == 5 {
                    Some(AddonKeyAction::Refresh)
                } else {
                    None
                },
                KeyCode::Enter => Some(AddonKeyAction::Activate),
                KeyCode::Delete => Some(AddonKeyAction::Uninstall),
                KeyCode::Char(c) => if c == 'k' {
                    Some(AddonKeyAction::Prev)
                } else if c == 'j' {
                    Some(AddonKeyAction::Next)
                } else if c == 'a' {
                    Some(AddonKeyAction::ShowAvailable)
                } else if c == 'i' {
                    Some(AddonKeyAction::ShowInstalled)
                } else if c == 'd' {
                    Some(AddonKeyAction::Uninstall)
                } else {
                    None
                },
                _ => None,
            },
            AddonManagerMode::Fetching => if key.code == KeyCode::Esc {
                Some(AddonKeyAction::Close)
            } else {
                None
            },
            AddonManagerMode::Installing => None,
            AddonManagerMode::ConfirmUninstall => match key.code {
                KeyCode::Esc => Some(AddonKeyAction::CancelUninstall),
                KeyCode::Enter => Some(AddonKeyAction::ConfirmUninstall),
                _ => None,
            },
            AddonManagerMode::Error => match key.code {
                KeyCode::Esc | KeyCode::Enter => Some(AddonKeyAction::DismissError),
                _ => None,
            },
        }
    }
}

/// What a key does in the add-on manager.
pub fn addon_key_action_for(key: KeyEvent, mode: AddonManagerMode) -> (r: Option<AddonKeyAction>)
    ensures
        r == addon_key_action(key, mode),
{
    if !key.modifiers.is_empty() {
        return None;
    }
    match mode {
        AddonManagerMode::List => match key.code {
            KeyCode::Esc => Some(AddonKeyAction::Close),
            KeyCode::Up => Some(AddonKeyAction::Prev),
            KeyCode::Down => Some(AddonKeyAction::Next),
            KeyCode::Home => Some(AddonKeyAction::First),
            KeyCode::End => Some(AddonKeyAction::Last),
            KeyCode::Tab => Some(AddonKeyAction::ToggleSection),
            KeyCode::F(n) => {
                if n == 5 {
                    Some(AddonKeyAction::Refresh)
                } else {
                    None
                }
            },
            KeyCode::Enter => Some(AddonKeyAction::Activate),
            KeyCode::Delete => Some(AddonKeyAction::Uninstall),
            KeyCode::Char(c) => {
                if c == 'k' {
                    Some(AddonKeyAction::Prev)
                } else if c == 'j' {
                    Some(AddonKeyAction::Next)
                } else if c == 'a' {
                    Some(AddonKeyAction::ShowAvailable)
                } else if c == 'i' {
                    Some(AddonKeyAction::ShowInstalled)
                } else if c == 'd' {
                    Some(AddonKeyAction::Uninstall)
                } else {
                    None
                }
            },
            _ => None,
        },
        AddonManagerMode::Fetching => match key.code {
            KeyCode::Esc => Some(AddonKeyAction::Close),
            _ => None,
        },
        AddonManagerMode::Installing => None,
        AddonManagerMode::ConfirmUninstall => match key.code {
            KeyCode::Esc => Some(AddonKeyAction::CancelUninstall),
            KeyCode::Enter => Some(AddonKeyAction::ConfirmUninstall),
            _ => None,
        },
        AddonManagerMode::Error => match key.code {
            KeyCode::Esc | KeyCode::Enter => Some(AddonKeyAction::DismissError),
            _ => None,
        },
    }
}

/// What became of a key in the add-on manager.
#[derive(Debug)]
pub enum AddonKeyOutcome {
    /// The key does nothing here (or no manager is open).
    Ignored,
    /// Carried out on the state kept here.
    Done,
    /// Carried out; this list is to be fetched.
    Fetch(FetchRequest),
    /// For the caller's list view to carry out (selection, sections,
    /// install, removal, dismissing the error).
    Pending(AddonKeyAction),
}

impl App {
    /// Handles a key in the add-on manager: closing, refreshing and
    /// cancelling a removal are carried out here, and the list view's own
    /// actions are returned.
    pub fn handle_addon_manager_key(&mut self, key: KeyEvent) -> (r: AddonKeyOutcome)
        ensures
            old(self).addon_manager is None ==> r is Ignored && *final(self) == *old(self),
            old(self).addon_manager matches Some(m) ==> ({
                let a = addon_key_action(key, m.mode);
                &&& a is None ==> r is Ignored && *final(self) == *old(self)
                &&& a == Some(AddonKeyAction::Close) ==> r is Done && *final(self) == (App {
                    popup: None,
                    mode: AppMode::Normal,
                    needs_redraw: true,
                    addon_manager: Some(listed(m)),
                    ..*old(self)
                })
                &&& a == Some(AddonKeyAction::Refresh) ==> (r matches AddonKeyOutcome::Fetch(q)
                    && q == (FetchRequest::FetchAddonList { force_refresh: true })) && *final(self)
                    == (App {
                    addon_manager: Some(AddonManager { mode: AddonManagerMode::Fetching, ..m }),
                    ..*old(self)
                })
                &&& a == Some(AddonKeyAction::CancelUninstall) ==> r is Done && *final(self) == (App {
                    addon_manager: Some(listed(m)),
                    ..*old(self)
                })
                &&& a matches Some(x) ==> ((x != AddonKeyAction::Close && x
                    != AddonKeyAction::Refresh && x != AddonKeyAction::CancelUninstall) ==> (r
                    == AddonKeyOutcome::Pending(x) && *final(self) == *old(self)))
            }),
    {
        let mode = match &self.addon_manager {
            Some(m) => m.mode,
            None => {
                return AddonKeyOutcome::Ignored;
            },
        };
        match addon_key_action_for(key, mode) {
            None => AddonKeyOutcome::Ignored,
            Some(AddonKeyAction::Close) => {
                self.hide_addon_manager();
                AddonKeyOutcome::Done
            },
            Some(AddonKeyAction::Refresh) => AddonKeyOutcome::Fetch(self.refresh_addon_list(true)),
            Some(AddonKeyAction::CancelUninstall) => {
                match self.addon_manager.take() {
                    Some(mut m) => {
                        m.return_to_list();
                        self.addon_manager = Some(m);
                    },
                    None => {},
                }
                AddonKeyOutcome::Done
            },
            Some(a) => AddonKeyOutcome::Pending(a),
        }
    }
}

} // verus!
