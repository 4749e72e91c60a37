//! Add-on type definitions.
//!
//! Core data structures for the add-ons system: the add-ons a repository
//! offers, the ones installed here, and the configuration that lists them.

use crate::text::{str_eq, title_case, title_case_str};
use vstd::prelude::*;

verus! {

/// Maximum number of installed addons.
pub const MAX_INSTALLED_ADDONS: usize = 50;

/// Metadata from an addon's `config.yaml`.
#[derive(Debug, Clone, Default, PartialEq, Eq)]
pub struct AddonMetadata {
    /// Display name (overrides derived name).
    pub name: Option<String>,
    /// Description (overrides README-based description).
    pub description: Option<String>,
    /// Commands to detect if already installed (e.g., `["vim", "nvim"]`).
    pub detect_commands: Vec<String>,
}

/// Represents a technology available in the GitHub repository.
#[derive(Debug, Clone, PartialEq, Eq)]
pub struct Addon {
    /// Directory name in the repo (e.g., "nodejs", "python").
    pub id: String,
    /// Human-readable name (derived from id or config.yaml).
    pub name: String,
    /// Description (from config.yaml or README.md).
    pub description: String,
    /// Whether platform-specific install script exists.
    pub has_install: bool,
    /// Metadata from config.yaml.
    pub metadata: Option<AddonMetadata>,
}

/// The byte length of a string's UTF-8 encoding.
pub open spec fn utf8_len(s: Seq<char>) -> nat {
    vstd::utf8::encode_utf8(s).len()
}

impl Addon {
    /// Creates a new addon with the given ID; its name is the ID title-cased,
    /// with `-` and `_` read as spaces.
    pub fn new(id: String) -> (r: Self)
        requires
            id@.len() > 0,
        ensures
            r.id@ == id@,
            r.name@ == title_case(id@),
            r.description@ == Seq::<char>::empty(),
            !r.has_install,
            r.metadata is None,
    {
        let name = title_case_str(id.as_str());
        Addon { id, name, description: String::new(), has_install: false, metadata: None }
    }

    /// Sets the metadata from config.yaml; a name or description it carries
    /// replaces the current one.
    pub fn with_metadata(self, metadata: AddonMetadata) -> (r: Self)
        ensures
            r.id == self.id,
            r.name@ == (match metadata.name {
                Some(n) => n@,
                None => self.name@,
            }),
            r.description@ == (match metadata.description {
                Some(d) => d@,
                None => self.description@,
            }),
            r.has_install == self.has_install,
            r.metadata == Some(metadata),
    {
        let mut s = self;
        match &metadata.name {
            Some(n) => {
                s.name = n.clone();
            },
            None => {},
        }
        match &metadata.description {
            Some(d) => {
                s.description = d.clone();
            },
            None => {},
        }
        s.metadata = Some(metadata);
        s
    }

    /// Returns the detection commands for this addon (none without metadata).
    pub fn detect_commands(&self) -> (r: &[String])
        ensures
            r@ == (match self.metadata {
                Some(m) => m.detect_commands@,
                None => Seq::<String>::empty(),
            }),
    {
        match &self.metadata {
            Some(m) => m.detect_commands.as_slice(),
            None => &[],
        }
    }

    /// Sets the description, which must be at most 500 bytes.
    pub fn with_description(self, description: String) -> (r: Self)
        requires
            utf8_len(description@) <= 500,
        ensures
            r.id == self.id,
            r.name == self.name,
            r.description == description,
            r.has_install == self.has_install,
            r.metadata == self.metadata,
    {
        let mut s = self;
        s.description = description;
        s
    }

    /// Sets whether an install script exists.
    pub fn with_install(self, has_install: bool) -> (r: Self)
        ensures
            r.id == self.id,
            r.name == self.name,
            r.description == self.description,
            r.has_install == has_install,
            r.metadata == self.metadata,
    {
        let mut s = self;
        s.has_install = has_install;
        s
    }

    /// Returns true if this addon can be installed on the current platform.
    pub fn is_installable(&self) -> (r: bool)
        ensures
            r == self.has_install,
    {
        self.has_install
    }
}

/// An installed addon.
#[derive(Debug, Clone, PartialEq, Eq)]
pub struct InstalledAddon {
    /// Addon ID (directory name).
    pub id: String,
    /// Display name.
    pub display_name: String,
    /// Installation timestamp (Unix epoch seconds).
    pub installed_at: u64,
}

/// `std::time::SystemTime`, a reading of the system clock.
#[verifier::external_type_specification]
#[verifier::external_body]
pub struct ExSystemTime(std::time::SystemTime);

/// `std::time::SystemTimeError`: a clock reading before the reference time.
#[verifier::external_type_specification]
#[verifier::external_body]
pub struct ExSystemTimeError(std::time::SystemTimeError);

/// `SystemTime::now`. Nothing is promised of the reading: it is the
/// machine's clock.
#[verifier::external_body]
fn system_now() -> std::time::SystemTime {
    std::time::SystemTime::now()
}

/// `SystemTime::duration_since` with the Unix epoch: the time elapsed since
/// the epoch, or an error when `t` is before it. Which of the two comes back
/// is not stated.
#[verifier::external_body]
fn since_unix_epoch(t: &std::time::SystemTime) -> Result<
    std::time::Duration,
    std::time::SystemTimeError,
> {
    t.duration_since(std::time::UNIX_EPOCH)
}

/// `Duration::as_secs`: the whole seconds of a duration; not stated.
#[verifier::external_body]
fn whole_seconds(d: &std::time::Duration) -> u64 {
    d.as_secs()
}

/// The install time for a clock reading: its whole seconds since the
/// Unix epoch, or 0 for a reading before the epoch (`None`).
pub fn secs_or_zero(secs: Option<u64>) -> (r: u64)
    ensures
        r == (match secs {
            Some(s) => s,
            None => 0,
        }),
{
    match secs {
        Some(s) => s,
        None => 0,
    }
}

/// The clock as whole seconds since the Unix epoch, or 0 when it reads
/// before the epoch.
fn unix_now_secs() -> u64 {
    let now = system_now();
    let secs = match since_unix_epoch(&now) {
        Ok(d) => Some(whole_seconds(&d)),
        Err(_) => None,
    };
    secs_or_zero(secs)
}

impl InstalledAddon {
    /// An installed addon stamped with `installed_at` (Unix seconds).
    pub fn with_time(id: String, display_name: String, installed_at: u64) -> (r: Self)
        requires
            id@.len() > 0,
            display_name@.len() > 0,
        ensures
            r.id == id,
            r.display_name == display_name,
            r.installed_at == installed_at,
    {
        InstalledAddon { id, display_name, installed_at }
    }

    /// Creates a new installed addon stamped with the current time, as
    /// `with_time` does with the clock's reading.
    pub fn new(id: String, display_name: String) -> (r: Self)
        requires
            id@.len() > 0,
            display_name@.len() > 0,
        ensures
            r.id == id,
            r.display_name == display_name,
    {
        let now = unix_now_secs();
        InstalledAddon::with_time(id, display_name, now)
    }
}

/// Configuration for the addons system.
#[derive(Debug, Clone, Default)]
pub struct AddonConfig {
    /// GitHub repository for fetching addons (owner/repo format).
    pub repository: String,
    /// Branch to use (default: "main").
    pub branch: String,
    /// List of installed addons.
    pub installed: Vec<InstalledAddon>,
}

/// `s` without the entries whose ID is `id`, order kept.
pub open spec fn without_id(s: Seq<InstalledAddon>, id: Seq<char>) -> Seq<InstalledAddon>
    decreases s.len(),
{
    if s.len() == 0 {
        s
    } else if s.last().id@ == id {
        without_id(s.drop_last(), id)
    } else {
        without_id(s.drop_last(), id).push(s.last())
    }
}

/// Some entry of `s` has ID `id`.
pub open spec fn has_id(s: Seq<InstalledAddon>, id: Seq<char>) -> bool {
    exists|i: int| 0 <= i < s.len() && (#[trigger] s[i]).id@ == id
}

/// No two entries share an ID.
pub open spec fn ids_unique(s: Seq<InstalledAddon>) -> bool {
    forall|i: int, j: int| 0 <= i < j < s.len() ==> (#[trigger] s[i]).id@ != (#[trigger] s[j]).id@
}

/// The installed list after recording `a`: any entry with its ID replaced by
/// `a` at the end.
pub open spec fn with_installed(s: Seq<InstalledAddon>, a: InstalledAddon) -> Seq<InstalledAddon> {
    without_id(s, a.id@).push(a)
}

/// An installed addon as plain values: ID, display name, install time.
pub open spec fn addon_view(a: InstalledAddon) -> (Seq<char>, Seq<char>, u64) {
    (a.id@, a.display_name@, a.installed_at)
}

/// The installed list as plain values.
pub open spec fn installed_views(s: Seq<InstalledAddon>) -> Seq<(Seq<char>, Seq<char>, u64)> {
    s.map_values(|a: InstalledAddon| addon_view(a))
}

/// `without_id` over plain values.
pub open spec fn without_id_v(s: Seq<(Seq<char>, Seq<char>, u64)>, id: Seq<char>) -> Seq<
    (Seq<char>, Seq<char>, u64),
>
    decreases s.len(),
{
    if s.len() == 0 {
        s
    } else if s.last().0 == id {
        without_id_v(s.drop_last(), id)
    } else {
        without_id_v(s.drop_last(), id).push(s.last())
    }
}

/// Removing an ID commutes with taking plain values.
pub proof fn lemma_views_without_id(s: Seq<InstalledAddon>, id: Seq<char>)
    ensures
        installed_views(without_id(s, id)) == without_id_v(installed_views(s), id),
    decreases s.len(),
{
    if s.len() == 0 {
        assert(installed_views(s) =~= Seq::empty());
    } else {
        let t = s.drop_last();
        lemma_views_without_id(t, id);
        assert(installed_views(s).drop_last() =~= installed_views(t));
        assert(installed_views(s).last() == addon_view(s.last()));
        if s.last().id@ != id {
            assert(installed_views(without_id(t, id).push(s.last())) =~= installed_views(
                without_id(t, id),
            ).push(addon_view(s.last())));
        }
    }
}

/// Facts about `without_id`: it keeps exactly the entries with another ID,
/// never grows, and keeps IDs unique.
pub proof fn lemma_without_id(s: Seq<InstalledAddon>, id: Seq<char>)
    ensures
        without_id(s, id).len() <= s.len(),
        forall|i: int| 0 <= i < without_id(s, id).len() ==> (#[trigger] without_id(s, id)[i]).id@ != id
            && s.contains(without_id(s, id)[i]),
        forall|x: InstalledAddon| s.contains(x) && x.id@ != id ==> without_id(s, id).contains(x),
        ids_unique(s) ==> ids_unique(without_id(s, id)),
        !has_id(without_id(s, id), id),
    decreases s.len(),
{
    if s.len() > 0 {
        let t = s.drop_last();
        let l = s.last();
        lemma_without_id(t, id);
        let wt = without_id(t, id);
        let w = without_id(s, id);
        assert forall|x: InstalledAddon| t.contains(x) implies s.contains(x) by {
            let m = choose|m: int| 0 <= m < t.len() && t[m] == x;
            assert(s[m] == x);
        }
        assert(s[s.len() - 1] == l);
        assert forall|x: InstalledAddon| s.contains(x) && x.id@ != id implies w.contains(x) by {
            let k = choose|k: int| 0 <= k < s.len() && s[k] == x;
            if k < t.len() {
                assert(t[k] == x);
                assert(t.contains(x));
                assert(wt.contains(x));
                let m = choose|m: int| 0 <= m < wt.len() && wt[m] == x;
                if l.id@ != id {
                    assert(w[m] == x);
                }
            } else {
                assert(w == wt.push(l));
                assert(w[wt.len() as int] == x);
            }
        }
        assert forall|i: int| 0 <= i < w.len() implies (#[trigger] w[i]).id@ != id && s.contains(
            w[i],
        ) by {
            if l.id@ == id || i < wt.len() {
                assert(w[i] == wt[i]);
                assert(t.contains(wt[i]));
            }
        }
        if ids_unique(s) {
            assert(ids_unique(t)) by {
                assert forall|i: int, j: int| 0 <= i < j < t.len() implies (#[trigger] t[i]).id@
                    != (#[trigger] t[j]).id@ by {
                    assert(t[i] == s[i] && t[j] == s[j]);
                }
            }
            if l.id@ != id {
                assert forall|i: int, j: int| 0 <= i < j < w.len() implies (#[trigger] w[i]).id@
                    != (#[trigger] w[j]).id@ by {
                    if j == wt.len() {
                        assert(w[i] == wt[i]);
                        assert(t.contains(wt[i]));
                        let m = choose|m: int| 0 <= m < t.len() && t[m] == wt[i];
                        assert(s[m] == wt[i]);
                        assert(w[j] == l);
                    } else {
                        assert(w[i] == wt[i] && w[j] == wt[j]);
                    }
                }
            }
        }
    }
}

/// After recording `a`, it is installed and found under its ID, the list is
/// still free of duplicate IDs, and every other entry is kept.
pub proof fn lemma_add_then_installed(s: Seq<InstalledAddon>, a: InstalledAddon)
    requires
        ids_unique(s),
    ensures
        has_id(with_installed(s, a), a.id@),
        with_installed(s, a).last() == a,
        ids_unique(with_installed(s, a)),
        forall|x: InstalledAddon| s.contains(x) && x.id@ != a.id@ ==> with_installed(s, a).contains(x),
        with_installed(s, a).len() <= s.len() + 1,
{
    lemma_without_id(s, a.id@);
    let w = without_id(s, a.id@);
    let r = w.push(a);
    assert(r[w.len() as int] == a);
    assert forall|i: int, j: int| 0 <= i < j < r.len() implies (#[trigger] r[i]).id@
        != (#[trigger] r[j]).id@ by {
        if j == w.len() {
            assert(r[i] == w[i]);
        } else {
            assert(r[i] == w[i] && r[j] == w[j]);
        }
    }
    assert forall|x: InstalledAddon| s.contains(x) && x.id@ != a.id@ implies r.contains(x) by {
        assert(w.contains(x));
        let k = choose|k: int| 0 <= k < w.len() && w[k] == x;
        assert(r[k] == x);
    }
}

/// After removing an ID, nothing is installed under it, and every other entry
/// is kept.
pub proof fn lemma_remove_then_not_installed(s: Seq<InstalledAddon>, id: Seq<char>)
    requires
        ids_unique(s),
    ensures
        !has_id(without_id(s, id), id),
        ids_unique(without_id(s, id)),
        forall|x: InstalledAddon| s.contains(x) && x.id@ != id ==> without_id(s, id).contains(x),
{
    lemma_without_id(s, id);
}

/// Removing an ID that was never installed leaves the list as it was.
pub proof fn lemma_remove_absent_is_identity(s: Seq<InstalledAddon>, id: Seq<char>)
    requires
        !has_id(s, id),
    ensures
        without_id(s, id) == s,
    decreases s.len(),
{
    if s.len() > 0 {
        let t = s.drop_last();
        assert(!has_id(t, id)) by {
            if has_id(t, id) {
                let k = choose|k: int| 0 <= k < t.len() && (#[trigger] t[k]).id@ == id;
                assert(s[k] == t[k]);
            }
        }
        assert(s[s.len() - 1].id@ != id);
        lemma_remove_absent_is_identity(t, id);
        assert(t.push(s.last()) =~= s);
    }
}

impl AddonConfig {
    /// Creates a new addon config with the default repository and branch.
    pub fn new() -> (r: Self)
        ensures
            r.repository@ == "hastur-dev/ratterm-installer"@,
            r.branch@ == "main"@,
            r.installed@.len() == 0,
    {
        AddonConfig {
            repository: "hastur-dev/ratterm-installer".to_owned(),
            branch: "main".to_owned(),
            installed: Vec::new(),
        }
    }

    /// Sets the repository, which must be non-empty and in owner/repo form.
    pub fn set_repository(&mut self, repo: String)
        requires
            repo@.len() > 0,
            repo@.contains('/'),
        ensures
            final(self).repository == repo,
            final(self).branch == old(self).branch,
            final(self).installed == old(self).installed,
    {
        self.repository = repo;
    }

    /// Sets the branch, which must be non-empty.
    pub fn set_branch(&mut self, branch: String)
        requires
            branch@.len() > 0,
        ensures
            final(self).branch == branch,
            final(self).repository == old(self).repository,
            final(self).installed == old(self).installed,
    {
        self.branch = branch;
    }

    /// Drops every installed entry with ID `id`, keeping the order of the rest.
    fn retain_other_ids(&mut self, id: &str)
        ensures
            final(self).installed@ == without_id(old(self).installed@, id@),
            final(self).repository == old(self).repository,
            final(self).branch == old(self).branch,
    {
        let mut rest: Vec<InstalledAddon> = Vec::new();
        std::mem::swap(&mut rest, &mut self.installed);
        let ghost orig = rest@;
        assert(orig.len() == rest.len());
        let mut kept: Vec<InstalledAddon> = Vec::new();
        let mut i: usize = 0;
        while rest.len() > 0
            invariant
                i + rest@.len() == orig.len(),
                orig.len() <= usize::MAX,
                rest@ == orig.subrange(i as int, orig.len() as int),
                kept@ == without_id(orig.subrange(0, i as int), id@),
            decreases rest@.len(),
        {
            let a = rest.remove(0);
            let ghost pre = orig.subrange(0, i as int);
            let ghost next = orig.subrange(0, i + 1);
            assert(next.drop_last() =~= pre);
            assert(next.last() == a);
            if !str_eq(a.id.as_str(), id) {
                kept.push(a);
            }
            i = i + 1;
            assert(rest@ =~= orig.subrange(i as int, orig.len() as int));
        }
        assert(orig.subrange(0, i as int) =~= orig);
        self.installed = kept;
    }

    /// Records an installed addon, replacing any entry with the same ID.
    /// At most `MAX_INSTALLED_ADDONS` may be recorded.
    pub fn add_installed(&mut self, addon: InstalledAddon)
        requires
            old(self).installed@.len() < MAX_INSTALLED_ADDONS,
        ensures
            final(self).installed@ == with_installed(old(self).installed@, addon),
            final(self).repository == old(self).repository,
            final(self).branch == old(self).branch,
    {
        self.retain_other_ids(addon.id.as_str());
        self.installed.push(addon);
    }

    /// Removes an installed addon by ID.
    pub fn remove_installed(&mut self, addon_id: &str)
        ensures
            final(self).installed@ == without_id(old(self).installed@, addon_id@),
            final(self).repository == old(self).repository,
            final(self).branch == old(self).branch,
    {
        self.retain_other_ids(addon_id);
    }

    /// Gets the first installed addon with ID `addon_id`.
    pub fn get_installed(&self, addon_id: &str) -> (r: Option<&InstalledAddon>)
        ensures
            r is None <==> !has_id(self.installed@, addon_id@),
            r matches Some(a) ==> exists|i: int|
                0 <= i < self.installed@.len() && self.installed@[i] == *a && a.id@ == addon_id@
                    && forall|j: int| 0 <= j < i ==> (#[trigger] self.installed@[j]).id@ != addon_id@,
    {
        let n = self.installed.len();
        let mut i: usize = 0;
        while i < n
            invariant
                n == self.installed@.len(),
                i <= n,
                forall|j: int| 0 <= j < i ==> (#[trigger] self.installed@[j]).id@ != addon_id@,
            decreases n - i,
        {
            if str_eq(self.installed[i].id.as_str(), addon_id) {
                return Some(&self.installed[i]);
            }
            i = i + 1;
        }
        None
    }

    /// Returns true if an addon with the given ID is installed.
    pub fn is_installed(&self, addon_id: &str) -> (r: bool)
        ensures
            r == has_id(self.installed@, addon_id@),
    {
        self.get_installed(addon_id).is_some()
    }
}

/// Operating systems that get their own install script.
#[derive(Debug, Clone, Copy, PartialEq, Eq, Structural)]
pub enum Platform {
    /// Windows (PowerShell scripts).
    Windows,
    /// macOS (shell scripts).
    MacOs,
    /// Linux and other Unix systems (shell scripts).
    Linux,
}

/// Script type for addons.
#[derive(Debug, Clone, Copy, PartialEq, Eq, Structural)]
pub enum ScriptType {
    /// Installation script.
    Install,
}

impl ScriptType {
    /// Returns the script filename for `platform`.
    pub fn filename(&self, platform: Platform) -> (r: &'static str)
        ensures
            r@ == (match platform {
                Platform::Windows => "install-windows.ps1"@,
                Platform::MacOs => "install-macos.sh"@,
                Platform::Linux => "install-linux.sh"@,
            }),
    {
        match platform {
            Platform::Windows => "install-windows.ps1",
            Platform::MacOs => "install-macos.sh",
            Platform::Linux => "install-linux.sh",
        }
    }

    /// Returns the script prefix.
    pub fn prefix(&self) -> (r: &'static str)
        ensures
            r@ == "install-"@,
    {
        match self {
            ScriptType::Install => "install-",
        }
    }

    /// The variant's name, as `{:?}` writes it.
    pub fn debug_name(&self) -> (r: &'static str)
        ensures
            r@ == "Install"@,
    {
        match self {
            ScriptType::Install => "Install",
        }
    }
}

/// Add-on error types.
#[derive(Debug, Clone)]
pub enum AddonError {
    /// Network error during GitHub API call.
    NetworkError(String),
    /// GitHub API rate limit exceeded.
    RateLimitExceeded,
    /// Repository not found.
    RepositoryNotFound,
    /// Addon not found in repository.
    AddonNotFound(String),
    /// Script not found for current platform.
    ScriptNotFound(String, ScriptType),
    /// Script execution failed.
    ExecutionFailed(String),
    /// Configuration error.
    ConfigError(String),
    /// Maximum addons limit reached.
    LimitReached,
}

/// The text each error displays.
pub open spec fn addon_error_text(e: AddonError) -> Seq<char> {
    match e {
        AddonError::NetworkError(m) => "Network error: "@ + m@,
        AddonError::RateLimitExceeded => "GitHub API rate limit exceeded"@,
        AddonError::RepositoryNotFound => "Add-on repository not found"@,
        AddonError::AddonNotFound(id) => "Add-on '"@ + id@ + "' not found"@,
        AddonError::ScriptNotFound(id, _) => "Install script not found for '"@ + id@ + "'"@,
        AddonError::ExecutionFailed(m) => "Script execution failed: "@ + m@,
        AddonError::ConfigError(m) => "Configuration error: "@ + m@,
        AddonError::LimitReached => "Maximum number of add-ons reached"@,
    }
}

impl AddonError {
    /// The message this error displays.
    pub fn message(&self) -> (r: String)
        ensures
            r@ == addon_error_text(*self),
    {
        match self {
            AddonError::NetworkError(m) => crate::text::concat2("Network error: ", m.as_str()),
            AddonError::RateLimitExceeded => "GitHub API rate limit exceeded".to_owned(),
            AddonError::RepositoryNotFound => "Add-on repository not found".to_owned(),
            AddonError::AddonNotFound(id) => crate::text::concat3(
                "Add-on '",
                id.as_str(),
                "' not found",
            ),
            AddonError::ScriptNotFound(id, _) => crate::text::concat3(
                "Install script not found for '",
                id.as_str(),
                "'",
            ),
            AddonError::ExecutionFailed(m) => crate::text::concat2(
                "Script execution failed: ",
                m.as_str(),
            ),
            AddonError::ConfigError(m) => crate::text::concat2("Configuration error: ", m.as_str()),
            AddonError::LimitReached => "Maximum number of add-ons reached".to_owned(),
        }
    }
}

} // verus!
