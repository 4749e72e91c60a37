//! Add-on storage in the `.ratrc` configuration file.
//!
//! The file is plain `key = value` lines. This module parses its text into
//! an `AddonConfig` and computes the new text when a setting is saved or
//! removed; reading and writing the file is left to the caller.

use crate::addons::types::{
    installed_views, lemma_views_without_id, without_id_v, AddonConfig,
    InstalledAddon, MAX_INSTALLED_ADDONS,
};
use crate::text::{
    concat2, concat3, has_prefix, has_word, push_char, push_str, starts_with, str_eq, title_case,
    title_case_str, trim, trim_slice, trim_str,
};
use vstd::prelude::*;

verus! {

/// How many lines of the file are read, and searched for a setting.
pub const MAX_LINES: usize = 1000;

/// Storage manager for addon configuration.
#[derive(Debug)]
pub struct AddonStorage {
    /// Path to the .ratrc file.
    config_path: String,
}

/// The text split at `'\n'` into pieces; the last piece is what follows the
/// final newline (empty when the text ends with one).
pub open spec fn raw_lines(s: Seq<char>) -> Seq<Seq<char>>
    decreases s.len(),
{
    if s.len() == 0 {
        seq![Seq::<char>::empty()]
    } else {
        let p = raw_lines(s.drop_last());
        if s.last() == '\n' {
            p.push(Seq::<char>::empty())
        } else {
            p.update(p.len() - 1, p.last().push(s.last()))
        }
    }
}

/// A line without its trailing carriage return, if it has one.
pub open spec fn strip_cr(l: Seq<char>) -> Seq<char> {
    if l.len() > 0 && l.last() == '\r' {
        l.drop_last()
    } else {
        l
    }
}

/// `str::lines`: the text split at `'\n'`, each line without a trailing
/// `'\r'`, and no empty line after a final newline.
pub open spec fn lines(s: Seq<char>) -> Seq<Seq<char>> {
    let p = raw_lines(s);
    let q = if s.len() == 0 || s.last() == '\n' {
        p.drop_last()
    } else {
        p
    };
    q.map_values(|l: Seq<char>| strip_cr(l))
}

/// Each line followed by a newline, as `writeln!` writes them.
pub open spec fn join_lines(ls: Seq<Seq<char>>) -> Seq<char>
    decreases ls.len(),
{
    if ls.len() == 0 {
        Seq::empty()
    } else {
        join_lines(ls.drop_last()) + ls.last().push('\n')
    }
}


/// The index of the first `c` in `s`, if any.
pub open spec fn first_index(s: Seq<char>, c: char) -> Option<int> {
    if s.contains(c) {
        Some(choose|i: int| 0 <= i < s.len() && s[i] == c && forall|j: int| 0 <= j < i ==> s[j] != c)
    } else {
        None
    }
}

/// The `key = value` a line of the file sets, if any: comments (`#`) and
/// blank lines set nothing, and the value stops at a `#`.
pub open spec fn parse_line(line: Seq<char>) -> Option<(Seq<char>, Seq<char>)> {
    let t = trim(line);
    if t.len() == 0 || t[0] == '#' {
        None
    } else {
        match first_index(t, '=') {
            None => None,
            Some(i) => {
                let rest = t.skip(i + 1);
                let value = match first_index(rest, '#') {
                    Some(h) => rest.take(h),
                    None => rest,
                };
                Some((trim(t.take(i)), trim(value)))
            },
        }
    }
}

/// The configuration as plain values: repository, branch, installed list.
pub open spec fn config_view(c: AddonConfig) -> ConfigView {
    (c.repository@, c.branch@, installed_views(c.installed@))
}

/// A configuration as plain values: repository, branch, and the installed
/// addons as (ID, display name, install time).
pub type ConfigView = (Seq<char>, Seq<char>, Seq<(Seq<char>, Seq<char>, u64)>);

/// The key prefix of an installed-addon entry.
pub open spec fn addon_key_prefix() -> Seq<char> {
    "addon."@
}

/// What one setting does to the configuration. `now` stamps an addon the
/// setting records.
pub open spec fn apply_setting_spec(
    c: ConfigView,
    key: Seq<char>,
    value: Seq<char>,
    now: u64,
) -> ConfigView {
    if key == "addon_repository"@ {
        if value.len() > 0 && value.contains('/') {
            (value, c.1, c.2)
        } else {
            c
        }
    } else if key == "addon_branch"@ {
        if value.len() > 0 {
            (c.0, value, c.2)
        } else {
            c
        }
    } else if has_prefix(key, addon_key_prefix()) {
        let id = key.skip(6);
        if c.2.len() >= MAX_INSTALLED_ADDONS || id.len() == 0 {
            c
        } else {
            (c.0, c.1, installed_entry_added(c.2, id, now))
        }
    } else {
        c
    }
}

/// The installed list after recording the addon `id`, displayed under its
/// title-cased ID and stamped `now`.
pub open spec fn installed_entry_added(
    s: Seq<(Seq<char>, Seq<char>, u64)>,
    id: Seq<char>,
    now: u64,
) -> Seq<(Seq<char>, Seq<char>, u64)> {
    without_id_v(s, id).push((id, title_case(id), now))
}

/// The configuration after the settings of the first `n` lines of `ls`.
pub open spec fn parse_lines(ls: Seq<Seq<char>>, now: u64) -> ConfigView
    decreases ls.len(),
{
    if ls.len() == 0 {
        ("hastur-dev/ratterm-installer"@, "main"@, Seq::empty())
    } else {
        let c = parse_lines(ls.drop_last(), now);
        match parse_line(ls.last()) {
            Some((k, v)) => apply_setting_spec(c, k, v, now),
            None => c,
        }
    }
}

/// The first `MAX_LINES` lines of a file's text.
pub open spec fn read_lines(content: Seq<char>) -> Seq<Seq<char>> {
    let ls = lines(content);
    if ls.len() <= MAX_LINES {
        ls
    } else {
        ls.take(MAX_LINES as int)
    }
}

/// A line that sets something under an empty key, such as `= x`.
pub open spec fn keyless_setting(line: Seq<char>) -> bool {
    parse_line(line) matches Some((k, _)) && k.len() == 0
}

/// Whether a trimmed line sets `key`: it starts with `key =` or `key=`.
pub open spec fn sets_key(line: Seq<char>, key: Seq<char>) -> bool {
    has_prefix(trim(line), key + " ="@) || has_prefix(trim(line), key + "="@)
}

/// The line a setting is written as.
pub open spec fn setting_line(key: Seq<char>, value: Seq<char>) -> Seq<char> {
    key + " = "@ + value
}

/// The lines after saving `key = value`: the first line among the first
/// `MAX_LINES` that sets the key is replaced, or the setting is appended.
pub open spec fn updated_lines(ls: Seq<Seq<char>>, key: Seq<char>, value: Seq<char>) -> Seq<
    Seq<char>,
> {
    if exists|i: int| 0 <= i < ls.len() && i < MAX_LINES && sets_key(#[trigger] ls[i], key) {
        let i = choose|i: int|
            0 <= i < ls.len() && i < MAX_LINES && sets_key(#[trigger] ls[i], key) && forall|j: int|
                0 <= j < i ==> !sets_key(#[trigger] ls[j], key);
        ls.update(i, setting_line(key, value))
    } else {
        ls.push(setting_line(key, value))
    }
}

/// The lines that remain after removing every line that sets `key`.
pub open spec fn lines_without_key(ls: Seq<Seq<char>>, key: Seq<char>) -> Seq<Seq<char>>
    decreases ls.len(),
{
    if ls.len() == 0 {
        ls
    } else if sets_key(ls.last(), key) {
        lines_without_key(ls.drop_last(), key)
    } else {
        lines_without_key(ls.drop_last(), key).push(ls.last())
    }
}

/// Plain values of a list of strings.
pub open spec fn views(v: Seq<String>) -> Seq<Seq<char>> {
    v.map_values(|l: String| l@)
}

/// Whether `line`, trimmed, starts with `key =` or `key=`.
pub fn line_sets_key(line: &str, key: &str) -> (r: bool)
    ensures
        r == sets_key(line@, key@),
{
    let t = trim_slice(line);
    let spaced = concat2(key, " =");
    let tight = concat2(key, "=");
    starts_with(t, spaced.as_str()) || starts_with(t, tight.as_str())
}

/// Splits text into lines as `str::lines` does.
pub fn split_lines(s: &str) -> (r: Vec<String>)
    ensures
        r@.len() == lines(s@).len(),
        forall|i: int| 0 <= i < r@.len() ==> (#[trigger] r@[i])@ == lines(s@)[i],
{
    let n = s.unicode_len();
    let mut done: Vec<String> = Vec::new();
    let mut cur = String::new();
    let mut i: usize = 0;
    while i < n
        invariant
            n == s@.len(),
            i <= n,
            raw_lines(s@.subrange(0, i as int)).len() == done@.len() + 1,
            forall|j: int| 0 <= j < done@.len() ==> (#[trigger] done@[j])@ == raw_lines(
                s@.subrange(0, i as int),
            )[j],
            cur@ == raw_lines(s@.subrange(0, i as int)).last(),
        decreases n - i,
    {
        let c = s.get_char(i);
        let ghost prev = s@.subrange(0, i as int);
        let ghost next = s@.subrange(0, i + 1);
        assert(next.drop_last() =~= prev);
        assert(next.last() == c);
        if c == '\n' {
            let mut fresh = String::new();
            std::mem::swap(&mut fresh, &mut cur);
            done.push(fresh);
        } else {
            push_char(&mut cur, c);
        }
        i = i + 1;
    }
    assert(s@.subrange(0, n as int) =~= s@);
    let ghost p = raw_lines(s@);
    let keep_last = n > 0 && s.get_char(n - 1) != '\n';
    proof {
        if n > 0 {
            assert(s@.last() == s@[n - 1]);
        }
    }
    if keep_last {
        done.push(cur);
    }
    let ghost q = if s@.len() == 0 || s@.last() == '\n' {
        p.drop_last()
    } else {
        p
    };
    assert(done@.len() == q.len());
    let mut out: Vec<String> = Vec::new();
    let mut k: usize = 0;
    while k < done.len()
        invariant
            done@.len() == q.len(),
            forall|j: int| 0 <= j < done@.len() ==> (#[trigger] done@[j])@ == q[j],
            k <= done@.len(),
            out@.len() == k,
            forall|j: int| 0 <= j < k ==> (#[trigger] out@[j])@ == strip_cr(q[j]),
        decreases done@.len() - k,
    {
        let line = done[k].as_str();
        let m = line.unicode_len();
        let stripped = if m > 0 && line.get_char(m - 1) == '\r' {
            proof {
                assert(line@.last() == line@[m - 1]);
            }
            let t = line.substring_char(0, m - 1);
            assert(t@ =~= line@.drop_last());
            t.to_owned()
        } else {
            proof {
                if m > 0 {
                    assert(line@.last() == line@[m - 1]);
                }
            }
            line.to_owned()
        };
        out.push(stripped);
        k = k + 1;
    }
    out
}

/// Writes lines back as text, each followed by a newline.
pub fn join_lines_str(ls: &Vec<String>) -> (r: String)
    ensures
        r@ == join_lines(ls@.map_values(|l: String| l@)),
{
    let ghost v = views(ls@);
    let mut out = String::new();
    let mut i: usize = 0;
    while i < ls.len()
        invariant
            i <= ls@.len(),
            v == views(ls@),
            out@ == join_lines(v.take(i as int)),
        decreases ls@.len() - i,
    {
        push_str(&mut out, ls[i].as_str());
        push_char(&mut out, '\n');
        assert(v.take(i + 1).drop_last() =~= v.take(i as int));
        assert(v.take(i + 1).last() == ls@[i as int]@);
        i = i + 1;
    }
    assert(v.take(ls@.len() as int) =~= v);
    out
}

/// The index of the first `c` in `s`.
pub fn find_char(s: &str, c: char) -> (r: Option<usize>)
    ensures
        r matches Some(i) ==> first_index(s@, c) == Some(i as int) && i < s@.len() && s@[i as int]
            == c,
        r is None ==> first_index(s@, c) is None,
{
    let n = s.unicode_len();
    let mut i: usize = 0;
    while i < n
        invariant
            n == s@.len(),
            i <= n,
            forall|j: int| 0 <= j < i ==> s@[j] != c,
        decreases n - i,
    {
        if s.get_char(i) == c {
            assert(s@.contains(c));
            let ghost w = choose|k: int|
                0 <= k < s@.len() && s@[k] == c && forall|j: int| 0 <= j < k ==> s@[j] != c;
            assert(w == i) by {
                if w < i {
                } else if w > i {
                }
            }
            return Some(i);
        }
        i = i + 1;
    }
    None
}

/// The setting a line of the file makes, if any.
pub fn parse_setting_line(line: &str) -> (r: Option<(String, String)>)
    ensures
        match parse_line(line@) {
            Some((k, v)) => r matches Some(kv) && kv.0@ == k && kv.1@ == v,
            None => r is None,
        },
{
    let t = trim_slice(line);
    let n = t.unicode_len();
    if n == 0 || t.get_char(0) == '#' {
        return None;
    }
    match find_char(t, '=') {
        None => None,
        Some(i) => {
            let key = trim_str(t.substring_char(0, i));
            let rest = t.substring_char(i + 1, n);
            assert(rest@ =~= t@.skip(i + 1));
            assert(t@.subrange(0, i as int) =~= t@.take(i as int));
            let value = match find_char(rest, '#') {
                Some(h) => {
                    let v = rest.substring_char(0, h);
                    assert(v@ =~= rest@.take(h as int));
                    trim_str(v)
                },
                None => trim_str(rest),
            };
            Some((key, value))
        },
    }
}

impl AddonStorage {
    /// Creates a new addon storage for the given `.ratrc` path.
    pub fn new(config_path: String) -> (r: Self)
        ensures
            r.config_path() == config_path@,
    {
        AddonStorage { config_path }
    }

    /// The path of the `.ratrc` file.
    pub closed spec fn config_path(&self) -> Seq<char> {
        self.config_path@
    }

    /// The path of the `.ratrc` file.
    pub fn path(&self) -> (r: &str)
        ensures
            r@ == self.config_path(),
    {
        self.config_path.as_str()
    }

    /// Applies a single setting to the config; `now` stamps an addon it
    /// records. The key must be non-empty.
    pub fn apply_setting(&self, config: &mut AddonConfig, key: &str, value: &str, now: u64)
        requires
            key@.len() > 0,
        ensures
            config_view(*final(config)) == apply_setting_spec(
                config_view(*old(config)),
                key@,
                value@,
                now,
            ),
    {
        let nv = value.unicode_len();
        if str_eq(key, "addon_repository") {
            if nv > 0 && crate::text::contains_char(value, '/') {
                config.repository = value.to_owned();
            }
        } else if str_eq(key, "addon_branch") {
            if nv > 0 {
                config.branch = value.to_owned();
            }
        } else if starts_with(key, "addon.") {
            proof {
                reveal_strlit("addon.");
            }
            if config.installed.len() >= MAX_INSTALLED_ADDONS {
                return;
            }
            let nk = key.unicode_len();
            let id = key.substring_char(6, nk);
            assert(id@ =~= key@.skip(6));
            if id.unicode_len() == 0 {
                return;
            }
            assert(key@.subrange(0, 6) == "addon."@);
            let addon = InstalledAddon {
                id: id.to_owned(),
                display_name: title_case_str(id),
                installed_at: now,
            };
            let ghost before = config.installed@;
            config.add_installed(addon);
            proof {
                lemma_views_without_id(before, id@);
                assert(installed_views(config.installed@) =~= installed_views(
                    crate::addons::types::without_id(before, id@),
                ).push((id@, title_case(id@), now)));
            }
        }
    }

    /// Parses the file's text into a configuration, starting from the
    /// defaults and applying the settings of its first `MAX_LINES` lines;
    /// `now` stamps the addons it records. A line setting an empty key (such
    /// as `= x`) is not accepted.
    pub fn parse_config(&self, content: &str, now: u64) -> (r: AddonConfig)
        requires
            forall|i: int|
                0 <= i < read_lines(content@).len() ==> !keyless_setting(
                    #[trigger] read_lines(content@)[i],
                ),
        ensures
            config_view(r) == parse_lines(read_lines(content@), now),
    {
        let ls = split_lines(content);
        let ghost all = lines(content@);
        let ghost rl = read_lines(content@);
        let lim = if ls.len() <= MAX_LINES {
            ls.len()
        } else {
            MAX_LINES
        };
        assert(rl.len() == lim);
        let mut config = AddonConfig::new();
        assert(installed_views(config.installed@) =~= Seq::empty());
        let mut i: usize = 0;
        while i < lim
            invariant
                lim == rl.len(),
                lim <= ls@.len(),
                ls@.len() == all.len(),
                rl == read_lines(content@),
                all == lines(content@),
                forall|j: int| 0 <= j < ls@.len() ==> (#[trigger] ls@[j])@ == all[j],
                forall|j: int| 0 <= j < rl.len() ==> !keyless_setting(#[trigger] rl[j]),
                i <= lim,
                config_view(config) == parse_lines(rl.take(i as int), now),
            decreases lim - i,
        {
            assert(rl[i as int] == all[i as int]);
            assert(rl.take(i + 1).drop_last() =~= rl.take(i as int));
            assert(rl.take(i + 1).last() == rl[i as int]);
            assert(!keyless_setting(rl[i as int]));
            match parse_setting_line(ls[i].as_str()) {
                Some((k, v)) => {
                    self.apply_setting(&mut config, k.as_str(), v.as_str(), now);
                },
                None => {},
            }
            i = i + 1;
        }
        assert(rl.take(lim as int) =~= rl);
        config
    }

    /// The file's text after saving `key = value`: the first line among the
    /// first `MAX_LINES` that sets the key is replaced, or the setting is
    /// appended.
    pub fn update_setting(&self, content: &str, key: &str, value: &str) -> (r: String)
        ensures
            r@ == join_lines(updated_lines(lines(content@), key@, value@)),
    {
        let mut ls = split_lines(content);
        let ghost orig = lines(content@);
        assert(views(ls@) =~= orig);
        let new_line = concat3(key, " = ", value);
        let n = ls.len();
        let mut i: usize = 0;
        let mut found = false;
        let lim = if n < MAX_LINES {
            n
        } else {
            MAX_LINES
        };
        while i < lim && !found
            invariant
                n == ls@.len(),
                lim <= n,
                lim <= MAX_LINES,
                views(ls@) == orig,
                i <= lim,
                found ==> i < lim && sets_key(orig[i as int], key@),
                forall|j: int| 0 <= j < i ==> !sets_key(#[trigger] orig[j], key@),
            decreases lim - i + (if found {
                0int
            } else {
                1int
            }),
        {
            assert(ls@[i as int]@ == orig[i as int]);
            if line_sets_key(ls[i].as_str(), key) {
                found = true;
            } else {
                i = i + 1;
            }
        }
        if found {
            proof {
                assert(sets_key(orig[i as int], key@));
                let w = choose|w: int|
                    0 <= w < orig.len() && w < MAX_LINES && sets_key(#[trigger] orig[w], key@)
                        && forall|j: int| 0 <= j < w ==> !sets_key(#[trigger] orig[j], key@);
                assert(w == i) by {
                    if w < i {
                        assert(!sets_key(orig[w], key@));
                    } else if w > i {
                        assert(!sets_key(orig[i as int], key@));
                    }
                }
            }
            ls.set(i, new_line);
            assert(views(ls@) =~= orig.update(i as int, setting_line(key@, value@)));
        } else {
            proof {
                assert(!exists|w: int| 0 <= w < orig.len() && w < MAX_LINES && sets_key(#[trigger] orig[w], key@));
            }
            ls.push(new_line);
            assert(views(ls@) =~= orig.push(setting_line(key@, value@)));
        }
        join_lines_str(&ls)
    }

    /// The file's text after removing every line that sets `key`.
    pub fn remove_setting(&self, content: &str, key: &str) -> (r: String)
        ensures
            r@ == join_lines(lines_without_key(lines(content@), key@)),
    {
        let ls = split_lines(content);
        let ghost orig = lines(content@);
        assert(views(ls@) =~= orig);
        let mut kept: Vec<String> = Vec::new();
        let mut i: usize = 0;
        while i < ls.len()
            invariant
                views(ls@) == orig,
                i <= ls@.len(),
                views(kept@) == lines_without_key(orig.take(i as int), key@),
            decreases ls@.len() - i,
        {
            assert(orig.take(i + 1).drop_last() =~= orig.take(i as int));
            assert(orig.take(i + 1).last() == orig[i as int]);
            if !line_sets_key(ls[i].as_str(), key) {
                let ghost before = views(kept@);
                kept.push(ls[i].as_str().to_owned());
                assert(views(kept@) =~= before.push(orig[i as int]));
            }
            i = i + 1;
        }
        assert(orig.take(ls@.len() as int) =~= orig);
        join_lines_str(&kept)
    }

    /// The file's text after recording an installed addon as
    /// `addon.<id> = installed`.
    pub fn save_addon(&self, content: &str, addon: &InstalledAddon) -> (r: String)
        requires
            addon.id@.len() > 0,
        ensures
            r@ == join_lines(updated_lines(lines(content@), "addon."@ + addon.id@, "installed"@)),
    {
        let key = concat2("addon.", addon.id.as_str());
        self.update_setting(content, key.as_str(), "installed")
    }

    /// The file's text after removing an addon's entry.
    pub fn remove_addon(&self, content: &str, addon_id: &str) -> (r: String)
        requires
            addon_id@.len() > 0,
        ensures
            r@ == join_lines(lines_without_key(lines(content@), "addon."@ + addon_id@)),
    {
        let key = concat2("addon.", addon_id);
        self.remove_setting(content, key.as_str())
    }

    /// The file's text after saving the repository, which must be non-empty
    /// and in owner/repo form.
    pub fn save_repository(&self, content: &str, repository: &str) -> (r: String)
        requires
            repository@.len() > 0,
            repository@.contains('/'),
        ensures
            r@ == join_lines(updated_lines(lines(content@), "addon_repository"@, repository@)),
    {
        self.update_setting(content, "addon_repository", repository)
    }

    /// The file's text after saving the branch, which must be non-empty.
    pub fn save_branch(&self, content: &str, branch: &str) -> (r: String)
        requires
            branch@.len() > 0,
        ensures
            r@ == join_lines(updated_lines(lines(content@), "addon_branch"@, branch@)),
    {
        self.update_setting(content, "addon_branch", branch)
    }
}

/// Title-cases an addon ID into a display name (`node-js` becomes `Node Js`).
/// The name is empty exactly when the ID has no word.
pub fn capitalize_addon_name(id: &str) -> (r: String)
    ensures
        r@ == title_case(id@),
        r@.len() > 0 <==> has_word(id@),
{
    title_case_str(id)
}

} // verus!
