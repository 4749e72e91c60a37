//! Add-on discovery from a GitHub repository: the contents listing that
//! add-ons are found in, what a response means, and how a listing becomes
//! add-ons. The HTTP requests and the cache are the caller's.

use crate::addons::installer::take_chars;
use crate::addons::storage::{lines, split_lines};
use crate::addons::types::{utf8_len, Addon, AddonError, AddonMetadata, Platform, ScriptType};
use crate::text::{concat2, concat3, str_eq, title_case, trim, trim_str};
use vstd::prelude::*;

verus! {

/// Cache expiration time (5 minutes).
pub const CACHE_EXPIRATION_SECS: u64 = 300;

/// Maximum number of addons to fetch.
pub const MAX_ADDONS: usize = 100;

/// Maximum number of files to check per addon.
pub const MAX_FILES_PER_ADDON: usize = 20;

/// How many lines of a README are read for a description.
pub const README_LINES: usize = 10;

/// How many characters of a README line make the description.
pub const DESCRIPTION_CHARS: usize = 200;

/// One entry of a GitHub contents listing.
#[derive(Debug, Clone)]
pub struct GitHubEntry {
    /// Entry name (file or directory name).
    pub name: String,
    /// Entry path relative to repo root.
    pub path: String,
    /// Entry type ("file" or "dir").
    pub entry_type: String,
    /// File size in bytes (for files only).
    pub size: u64,
    /// Download URL (for files only).
    pub download_url: Option<String>,
}

impl GitHubEntry {
    /// Returns true if this entry is a directory.
    pub fn is_directory(&self) -> (r: bool)
        ensures
            r == (self.entry_type@ == "dir"@),
    {
        str_eq(self.entry_type.as_str(), "dir")
    }

    /// Returns true if this entry is a file.
    pub fn is_file(&self) -> (r: bool)
        ensures
            r == (self.entry_type@ == "file"@),
    {
        str_eq(self.entry_type.as_str(), "file")
    }
}


/// Where add-ons are fetched from: a repository in `owner/repo` form and a
/// branch. The HTTP client and the cache of fetched lists are the caller's.
#[derive(Debug, Clone)]
pub struct AddonGitHubClient {
    /// Repository in "owner/repo" format.
    repository: String,
    /// Branch to fetch from.
    branch: String,
}

/// A repository name in `owner/repo` form.
pub open spec fn valid_repository(r: Seq<char>) -> bool {
    r.len() > 0 && r.contains('/')
}

impl AddonGitHubClient {
    /// The repository.
    pub closed spec fn repository_view(&self) -> Seq<char> {
        self.repository@
    }

    /// The branch.
    pub closed spec fn branch_view(&self) -> Seq<char> {
        self.branch@
    }

    /// A client for `repository` (in `owner/repo` form) at `branch`, both
    /// non-empty.
    pub fn new(repository: &str, branch: &str) -> (r: Self)
        requires
            valid_repository(repository@),
            branch@.len() > 0,
        ensures
            r.repository_view() == repository@,
            r.branch_view() == branch@,
    {
        AddonGitHubClient { repository: repository.to_owned(), branch: branch.to_owned() }
    }

    /// Switches to another repository and branch; the caller drops its
    /// cached list.
    pub fn set_repository(&mut self, repository: &str, branch: &str)
        requires
            valid_repository(repository@),
            branch@.len() > 0,
        ensures
            final(self).repository_view() == repository@,
            final(self).branch_view() == branch@,
    {
        self.repository = repository.to_owned();
        self.branch = branch.to_owned();
    }

    /// Returns the current repository.
    pub fn repository(&self) -> (r: &str)
        ensures
            r@ == self.repository_view(),
    {
        self.repository.as_str()
    }

    /// Returns the current branch.
    pub fn branch(&self) -> (r: &str)
        ensures
            r@ == self.branch_view(),
    {
        self.branch.as_str()
    }

    /// The contents API address of `path` in the repository at the branch
    /// (the repository's root for an empty path).
    pub fn contents_url(&self, path: &str) -> (r: String)
        ensures
            r@ == contents_url_spec(self.repository_view(), self.branch_view(), path@),
    {
        let head = concat2("https://api.github.com/repos/", self.repository.as_str());
        if path.unicode_len() == 0 {
            concat3(head.as_str(), "/contents?ref=", self.branch.as_str())
        } else {
            let mid = concat3(head.as_str(), "/contents/", path);
            concat3(mid.as_str(), "?ref=", self.branch.as_str())
        }
    }
}

/// The contents API address of `path` in `repo` at `branch`.
pub open spec fn contents_url_spec(repo: Seq<char>, branch: Seq<char>, path: Seq<char>) -> Seq<
    char,
> {
    if path.len() == 0 {
        "https://api.github.com/repos/"@ + repo + "/contents?ref="@ + branch
    } else {
        "https://api.github.com/repos/"@ + repo + "/contents/"@ + path + "?ref="@ + branch
    }
}

/// The directory holding the add-ons for the operating system directory
/// `os_dir`: `scripts/<os_dir>`.
pub fn scripts_path(os_dir: &str) -> (r: String)
    ensures
        r@ == "scripts/"@ + os_dir@,
{
    concat2("scripts/", os_dir)
}

/// The directory of add-on `addon_id` for `os_dir`:
/// `scripts/<os_dir>/<addon_id>`.
pub fn addon_path(os_dir: &str, addon_id: &str) -> (r: String)
    ensures
        r@ == "scripts/"@ + os_dir@ + "/"@ + addon_id@,
{
    let dir = scripts_path(os_dir);
    concat3(dir.as_str(), "/", addon_id)
}

/// A refusal because the rate limit is spent: status 403 with
/// `x-ratelimit-remaining` at `0`.
pub open spec fn rate_limited(status: u16, rate_limit_remaining: Option<&str>) -> bool {
    status == 403 && (rate_limit_remaining matches Some(h) && h@ == "0"@)
}

/// What a contents listing's response status means: `None` for success,
/// otherwise the error. `status_text` is how the status displays, and
/// `rate_limit_remaining` the `x-ratelimit-remaining` header, if present.
pub fn listing_error(status: u16, status_text: &str, rate_limit_remaining: Option<&str>) -> (r:
    Option<AddonError>)
    ensures
        status == 404 ==> r == Some(AddonError::RepositoryNotFound),
        rate_limited(status, rate_limit_remaining) ==> r == Some(AddonError::RateLimitExceeded),
        (200 <= status <= 299) ==> r is None,
        (status != 404 && !rate_limited(status, rate_limit_remaining) && !(200 <= status <= 299)) ==> (r matches Some(AddonError::NetworkError(m)) && m@
            == "GitHub API error: "@ + status_text@),
{
    if status == 404 {
        return Some(AddonError::RepositoryNotFound);
    }
    if status == 403 {
        match rate_limit_remaining {
            Some(h) => {
                if str_eq(h, "0") {
                    return Some(AddonError::RateLimitExceeded);
                }
            },
            None => {},
        }
    }
    if 200 <= status && status <= 299 {
        None
    } else {
        Some(AddonError::NetworkError(concat2("GitHub API error: ", status_text)))
    }
}

/// What a raw file download's response status means: `None` for success,
/// otherwise the error.
pub fn download_error(status: u16, status_text: &str) -> (r: Option<AddonError>)
    ensures
        (200 <= status <= 299) ==> r is None,
        !(200 <= status <= 299) ==> (r matches Some(AddonError::NetworkError(m)) && m@
            == "Failed to fetch content: "@ + status_text@),
{
    if 200 <= status && status <= 299 {
        None
    } else {
        Some(AddonError::NetworkError(concat2("Failed to fetch content: ", status_text)))
    }
}

/// The first `n` entries (all of them when there are fewer).
pub open spec fn first_entries(s: Seq<GitHubEntry>, n: nat) -> Seq<GitHubEntry> {
    if s.len() <= n {
        s
    } else {
        s.take(n as int)
    }
}

/// A listing cut to the first `MAX_FILES_PER_ADDON` entries.
pub fn limit_entries(entries: Vec<GitHubEntry>) -> (r: Vec<GitHubEntry>)
    ensures
        r@ == first_entries(entries@, MAX_FILES_PER_ADDON as nat),
{
    let mut entries = entries;
    if entries.len() > MAX_FILES_PER_ADDON {
        entries.truncate(MAX_FILES_PER_ADDON);
    }
    entries
}

/// The names of the directories of a listing, in order.
pub open spec fn dir_names(s: Seq<GitHubEntry>) -> Seq<Seq<char>>
    decreases s.len(),
{
    if s.len() == 0 {
        Seq::empty()
    } else if s.last().entry_type@ == "dir"@ {
        dir_names(s.drop_last()).push(s.last().name@)
    } else {
        dir_names(s.drop_last())
    }
}

/// The add-on directories of a listing: the names of its directories, at
/// most `MAX_ADDONS` of them.
pub fn addon_directory_names(entries: &Vec<GitHubEntry>) -> (r: Vec<String>)
    ensures
        r@.len() == (if dir_names(entries@).len() <= MAX_ADDONS {
            dir_names(entries@).len()
        } else {
            MAX_ADDONS as nat
        }),
        forall|i: int| 0 <= i < r@.len() ==> (#[trigger] r@[i])@ == dir_names(entries@)[i],
{
    let mut out: Vec<String> = Vec::new();
    let mut i: usize = 0;
    while i < entries.len()
        invariant
            i <= entries@.len(),
            out@.len() == (if dir_names(entries@.take(i as int)).len() <= MAX_ADDONS {
                dir_names(entries@.take(i as int)).len()
            } else {
                MAX_ADDONS as nat
            }),
            forall|k: int| 0 <= k < out@.len() ==> (#[trigger] out@[k])@ == dir_names(
                entries@.take(i as int),
            )[k],
        decreases entries@.len() - i,
    {
        let ghost pre = entries@.take(i as int);
        let ghost next = entries@.take(i + 1);
        assert(next.drop_last() =~= pre);
        assert(next.last() == entries@[i as int]);
        if entries[i].is_directory() && out.len() < MAX_ADDONS {
            out.push(entries[i].name.clone());
        }
        i = i + 1;
    }
    assert(entries@.take(entries@.len() as int) =~= entries@);
    out
}

/// Some entry of the listing is named `name`.
pub open spec fn has_named(s: Seq<GitHubEntry>, name: Seq<char>) -> bool {
    exists|i: int| 0 <= i < s.len() && (#[trigger] s[i]).name@ == name
}

/// Whether the listing has an entry named `name`.
pub fn has_entry_named(entries: &Vec<GitHubEntry>, name: &str) -> (r: bool)
    ensures
        r == has_named(entries@, name@),
{
    let mut i: usize = 0;
    while i < entries.len()
        invariant
            i <= entries@.len(),
            forall|k: int| 0 <= k < i ==> (#[trigger] entries@[k]).name@ != name@,
        decreases entries@.len() - i,
    {
        if str_eq(entries[i].name.as_str(), name) {
            return true;
        }
        i = i + 1;
    }
    false
}

/// Whether an add-on's listing has the platform's install script.
pub fn has_install_script(entries: &Vec<GitHubEntry>, platform: Platform) -> (r: bool)
    ensures
        r == has_named(
            entries@,
            match platform {
                Platform::Windows => "install-windows.ps1"@,
                Platform::MacOs => "install-macos.sh"@,
                Platform::Linux => "install-linux.sh"@,
            },
        ),
{
    has_entry_named(entries, ScriptType::Install.filename(platform))
}

/// The download address of the last entry named `name`, if it has one (a
/// listing looked up by name keeps the last entry of each name).
pub open spec fn named_download(s: Seq<GitHubEntry>, name: Seq<char>) -> Option<Seq<char>>
    decreases s.len(),
{
    if s.len() == 0 {
        None
    } else if s.last().name@ == name {
        match s.last().download_url {
            Some(u) => Some(u@),
            None => None,
        }
    } else {
        named_download(s.drop_last(), name)
    }
}

/// The download address of the last entry named `name`, if it has one.
pub fn named_download_url(entries: &Vec<GitHubEntry>, name: &str) -> (r: Option<String>)
    ensures
        match named_download(entries@, name@) {
            Some(u) => r matches Some(s) && s@ == u,
            None => r is None,
        },
{
    let mut i: usize = entries.len();
    assert(entries@.take(i as int) =~= entries@);
    while i > 0
        invariant
            i <= entries@.len(),
            named_download(entries@, name@) == named_download(entries@.take(i as int), name@),
        decreases i,
    {
        let ghost pre = entries@.take(i as int);
        assert(pre.drop_last() =~= entries@.take(i - 1));
        assert(pre.last() == entries@[i - 1]);
        if str_eq(entries[i - 1].name.as_str(), name) {
            return match &entries[i - 1].download_url {
                Some(u) => Some(u.clone()),
                None => None,
            };
        }
        i = i - 1;
    }
    None
}

/// The README names looked for, in order.
pub open spec fn readme_names() -> Seq<Seq<char>> {
    seq!["README.md"@, "readme.md"@, "README.txt"@, "readme.txt"@]
}

/// The configuration file names looked for, in order.
pub open spec fn config_names() -> Seq<Seq<char>> {
    seq!["config.yaml"@, "config.yml"@]
}

/// The download addresses of the files named in `names` that the listing
/// has, in the order of `names`.
pub open spec fn downloads_of(s: Seq<GitHubEntry>, names: Seq<Seq<char>>) -> Seq<Seq<char>>
    decreases names.len(),
{
    if names.len() == 0 {
        Seq::empty()
    } else {
        let rest = downloads_of(s, names.drop_last());
        match named_download(s, names.last()) {
            Some(u) => rest.push(u),
            None => rest,
        }
    }
}

/// Pushes the download address of `name`, if the listing has one.
fn push_download(out: &mut Vec<String>, entries: &Vec<GitHubEntry>, name: &str)
    ensures
        match named_download(entries@, name@) {
            Some(u) => final(out)@.len() == old(out)@.len() + 1 && final(out)@.drop_last() == old(
                out)@ && final(out)@.last()@ == u,
            None => final(out)@ == old(out)@,
        },
{
    match named_download_url(entries, name) {
        Some(u) => out.push(u),
        None => {},
    }
}

/// The views of a list of strings.
pub open spec fn string_views(v: Seq<String>) -> Seq<Seq<char>> {
    v.map_values(|s: String| s@)
}

/// The READMEs to read a description from, in the order they are tried.
pub fn readme_urls(entries: &Vec<GitHubEntry>) -> (r: Vec<String>)
    ensures
        string_views(r@) == downloads_of(entries@, readme_names()),
{
    let mut out: Vec<String> = Vec::new();
    push_download(&mut out, entries, "README.md");
    push_download(&mut out, entries, "readme.md");
    push_download(&mut out, entries, "README.txt");
    push_download(&mut out, entries, "readme.txt");
    proof {
        reveal_with_fuel(downloads_of, 5);
        let n = readme_names();
        assert(n.drop_last().drop_last().drop_last().drop_last() =~= Seq::<Seq<char>>::empty());
        assert(n.drop_last().drop_last().drop_last() =~= seq!["README.md"@]);
        assert(n.drop_last().drop_last() =~= seq!["README.md"@, "readme.md"@]);
        assert(n.drop_last() =~= seq!["README.md"@, "readme.md"@, "README.txt"@]);
    }
    assert(string_views(out@) =~= downloads_of(entries@, readme_names()));
    out
}

/// The configuration files to read metadata from, in the order they are
/// tried.
pub fn config_urls(entries: &Vec<GitHubEntry>) -> (r: Vec<String>)
    ensures
        string_views(r@) == downloads_of(entries@, config_names()),
{
    let mut out: Vec<String> = Vec::new();
    push_download(&mut out, entries, "config.yaml");
    push_download(&mut out, entries, "config.yml");
    proof {
        reveal_with_fuel(downloads_of, 3);
        let n = config_names();
        assert(n.drop_last().drop_last() =~= Seq::<Seq<char>>::empty());
        assert(n.drop_last() =~= seq!["config.yaml"@]);
    }
    assert(string_views(out@) =~= downloads_of(entries@, config_names()));
    out
}

/// A line that can describe an add-on: not empty, and not a heading.
pub open spec fn describes(t: Seq<char>) -> bool {
    t.len() > 0 && t[0] != '#'
}

/// The description found in the lines from `i` on, among the first
/// `README_LINES`: the first that describes, trimmed, cut to
/// `DESCRIPTION_CHARS` characters.
pub open spec fn description_from(ls: Seq<Seq<char>>, i: int) -> Option<Seq<char>>
    decreases ls.len() - i,
{
    if i < 0 || i >= ls.len() || i >= README_LINES {
        None
    } else if describes(trim(ls[i])) {
        Some(take_chars(trim(ls[i]), DESCRIPTION_CHARS as nat))
    } else {
        description_from(ls, i + 1)
    }
}

/// The description a README gives: among its first `README_LINES` lines,
/// the first that is neither empty nor a heading once trimmed, cut to
/// `DESCRIPTION_CHARS` characters.
pub fn readme_description(content: &str) -> (r: Option<String>)
    ensures
        match description_from(lines(content@), 0) {
            Some(d) => r matches Some(s) && s@ == d,
            None => r is None,
        },
{
    let ls = split_lines(content);
    let ghost lv = lines(content@);
    let mut i: usize = 0;
    while i < ls.len() && i < README_LINES
        invariant
            ls@.len() == lv.len(),
            forall|k: int| 0 <= k < ls@.len() ==> (#[trigger] ls@[k])@ == lv[k],
            i <= ls@.len(),
            lv == lines(content@),
            description_from(lv, 0) == description_from(lv, i as int),
        decreases ls@.len() - i,
    {
        let t = trim_str(ls[i].as_str());
        assert(t@ == trim(lv[i as int]));
        let n = t.as_str().unicode_len();
        if n > 0 && t.as_str().get_char(0) != '#' {
            let keep = if n <= DESCRIPTION_CHARS {
                n
            } else {
                DESCRIPTION_CHARS
            };
            let d = t.as_str().substring_char(0, keep).to_owned();
            assert(d@ =~= take_chars(t@, DESCRIPTION_CHARS as nat));
            assert(describes(trim(lv[i as int])));
            assert(description_from(lv, i as int) == Some(
                take_chars(trim(lv[i as int]), DESCRIPTION_CHARS as nat),
            ));
            assert(description_from(lines(content@), 0) == Some(d@));
            return Some(d);
        }
        i = i + 1;
    }
    None
}

/// The description of an add-on without a usable README.
pub fn default_description(addon_id: &str) -> (r: String)
    ensures
        r@ == "Add-on: "@ + addon_id@,
{
    concat2("Add-on: ", addon_id)
}

/// The add-on a directory describes: its ID, whether it has the install
/// script, its description, and the metadata of its configuration file when
/// one was read.
pub fn build_addon(
    addon_id: String,
    has_install: bool,
    description: String,
    metadata: Option<AddonMetadata>,
) -> (r: Addon)
    requires
        addon_id@.len() > 0,
        utf8_len(description@) <= 500,
    ensures
        r.id@ == addon_id@,
        r.has_install == has_install,
        r.metadata == metadata,
        r.name@ == (match metadata {
            Some(m) => match m.name {
                Some(n) => n@,
                None => title_case(addon_id@),
            },
            None => title_case(addon_id@),
        }),
        r.description@ == (match metadata {
            Some(m) => match m.description {
                Some(d) => d@,
                None => description@,
            },
            None => description@,
        }),
{
    let addon = Addon::new(addon_id).with_description(description).with_install(has_install);
    match metadata {
        Some(m) => addon.with_metadata(m),
        None => addon,
    }
}

/// The first entry named `name`, if any.
pub open spec fn first_named(s: Seq<GitHubEntry>, name: Seq<char>) -> Option<GitHubEntry>
    decreases s.len(),
{
    if s.len() == 0 {
        None
    } else if s[0].name@ == name {
        Some(s[0])
    } else {
        first_named(s.drop_first(), name)
    }
}

/// Where to download add-on `addon_id`'s install script from its
/// directory's listing: the first entry with the platform's script name,
/// which must have a download address; otherwise `ScriptNotFound`.
pub fn script_url(entries: &Vec<GitHubEntry>, addon_id: &str, platform: Platform) -> (r: Result<
    String,
    AddonError,
>)
    ensures
        ({
            let name = match platform {
                Platform::Windows => "install-windows.ps1"@,
                Platform::MacOs => "install-macos.sh"@,
                Platform::Linux => "install-linux.sh"@,
            };
            match first_named(entries@, name) {
                Some(e) => match e.download_url {
                    Some(u) => r matches Ok(s) && s@ == u@,
                    None => r matches Err(AddonError::ScriptNotFound(id, t)) && id@ == addon_id@
                        && t == ScriptType::Install,
                },
                None => r matches Err(AddonError::ScriptNotFound(id, t)) && id@ == addon_id@ && t
                    == ScriptType::Install,
            }
        }),
{
    let name = ScriptType::Install.filename(platform);
    let mut i: usize = 0;
    assert(entries@.skip(0) =~= entries@);
    while i < entries.len()
        invariant
            i <= entries@.len(),
            first_named(entries@, name@) == first_named(entries@.skip(i as int), name@),
            name@ == (match platform {
                Platform::Windows => "install-windows.ps1"@,
                Platform::MacOs => "install-macos.sh"@,
                Platform::Linux => "install-linux.sh"@,
            }),
        decreases entries@.len() - i,
    {
        let ghost rest = entries@.skip(i as int);
        assert(rest[0] == entries@[i as int]);
        assert(rest.drop_first() =~= entries@.skip(i + 1));
        if str_eq(entries[i].name.as_str(), name) {
            assert(first_named(entries@, name@) == Some(entries@[i as int]));
            return match &entries[i].download_url {
                Some(u) => Ok(u.clone()),
                None => Err(AddonError::ScriptNotFound(addon_id.to_owned(), ScriptType::Install)),
            };
        }
        i = i + 1;
    }
    assert(entries@.skip(i as int) =~= Seq::<GitHubEntry>::empty());
    Err(AddonError::ScriptNotFound(addon_id.to_owned(), ScriptType::Install))
}

/// Whether a cached add-on list may be used: not when a refresh is forced,
/// and only while it is younger than `CACHE_EXPIRATION_SECS`.
/// `cached_age_nanos` is the cached list's age, when there is one.
pub fn cache_is_fresh(force_refresh: bool, cached_age_nanos: Option<u128>) -> (r: bool)
    ensures
        r == (!force_refresh && (cached_age_nanos matches Some(a) && a
            < CACHE_EXPIRATION_SECS * 1_000_000_000)),
{
    if force_refresh {
        return false;
    }
    match cached_age_nanos {
        Some(a) => a < (CACHE_EXPIRATION_SECS as u128) * 1_000_000_000,
        None => false,
    }
}

} // verus!
