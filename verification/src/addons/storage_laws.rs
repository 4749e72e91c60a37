//! What the settings file gives back of what was written to it.

use crate::addons::storage::{
    apply_setting_spec, join_lines, lines, parse_line, parse_lines, raw_lines, read_lines,
    sets_key, setting_line, strip_cr, updated_lines, MAX_LINES, ConfigView,
};
use crate::text::{is_ws, trim, trim_end, trim_start};
use vstd::prelude::*;

verus! {

/// Splitting always yields at least one piece.
proof fn lemma_raw_lines_nonempty(s: Seq<char>)
    ensures
        raw_lines(s).len() >= 1,
    decreases s.len(),
{
    if s.len() > 0 {
        lemma_raw_lines_nonempty(s.drop_last());
    }
}

/// No piece of a split holds a newline.
proof fn lemma_raw_lines_no_newline(s: Seq<char>)
    ensures
        forall|i: int| 0 <= i < raw_lines(s).len() ==> !(#[trigger] raw_lines(s)[i]).contains('\n'),
    decreases s.len(),
{
    if s.len() > 0 {
        let p = raw_lines(s.drop_last());
        lemma_raw_lines_no_newline(s.drop_last());
        lemma_raw_lines_nonempty(s.drop_last());
        if s.last() != '\n' {
            let l = p.last().push(s.last());
            assert(!l.contains('\n')) by {
                if l.contains('\n') {
                    let k = choose|k: int| 0 <= k < l.len() && l[k] == '\n';
                    if k < p.last().len() {
                        assert(p.last()[k] == l[k]);
                        assert(p[p.len() - 1] == p.last());
                    }
                }
            }
        } else {
            assert forall|i: int| 0 <= i < raw_lines(s).len() implies !(
            #[trigger] raw_lines(s)[i]).contains('\n') by {
                if i < p.len() {
                    assert(raw_lines(s)[i] == p[i]);
                } else {
                    assert(raw_lines(s)[i] =~= Seq::<char>::empty());
                }
            }
        }
    }
}

/// Appending text without a newline extends the last piece.
proof fn lemma_raw_lines_append_plain(a: Seq<char>, l: Seq<char>)
    requires
        !l.contains('\n'),
    ensures
        raw_lines(a + l) == raw_lines(a).update(
            raw_lines(a).len() - 1,
            raw_lines(a).last() + l,
        ),
    decreases l.len(),
{
    lemma_raw_lines_nonempty(a);
    if l.len() == 0 {
        assert(a + l =~= a);
        assert(raw_lines(a).last() + l =~= raw_lines(a).last());
        assert(raw_lines(a).update(raw_lines(a).len() - 1, raw_lines(a).last()) =~= raw_lines(a));
    } else {
        let l0 = l.drop_last();
        assert(!l0.contains('\n')) by {
            if l0.contains('\n') {
                let k = choose|k: int| 0 <= k < l0.len() && l0[k] == '\n';
                assert(l[k] == l0[k]);
            }
        }
        assert(l[l.len() - 1] != '\n');
        lemma_raw_lines_append_plain(a, l0);
        assert((a + l).drop_last() =~= a + l0);
        assert((a + l).last() == l.last());
        let p = raw_lines(a + l0);
        assert(p.last() == raw_lines(a).last() + l0);
        assert(p.last().push(l.last()) =~= raw_lines(a).last() + l);
        assert(p.len() == raw_lines(a).len());
        assert(p.update(p.len() - 1, p.last().push(l.last())) =~= raw_lines(a).update(
            raw_lines(a).len() - 1,
            raw_lines(a).last() + l,
        ));
    }
}

/// Lines joined with newlines split back into themselves, then an empty
/// piece after the final newline.
proof fn lemma_raw_lines_join(ls: Seq<Seq<char>>)
    requires
        forall|i: int| 0 <= i < ls.len() ==> !(#[trigger] ls[i]).contains('\n'),
    ensures
        raw_lines(join_lines(ls)) == ls.push(Seq::<char>::empty()),
    decreases ls.len(),
{
    if ls.len() == 0 {
        assert(raw_lines(Seq::<char>::empty()) =~= seq![Seq::<char>::empty()]);
    } else {
        let init = ls.drop_last();
        assert forall|i: int| 0 <= i < init.len() implies !(#[trigger] init[i]).contains('\n') by {
            assert(init[i] == ls[i]);
        }
        lemma_raw_lines_join(init);
        let a = join_lines(init);
        let l = ls.last();
        assert(!l.contains('\n')) by {
            assert(ls[ls.len() - 1] == l);
        }
        lemma_raw_lines_append_plain(a, l);
        let s = join_lines(ls);
        assert(s =~= (a + l).push('\n'));
        assert(s.drop_last() =~= a + l);
        assert(raw_lines(a + l) =~= ls);
        assert(raw_lines(s) =~= ls.push(Seq::<char>::empty()));
    }
}

/// A file written as lines reads back as those lines (a trailing carriage
/// return dropped from each, as the reader does).
pub proof fn lemma_lines_of_joined(ls: Seq<Seq<char>>)
    requires
        forall|i: int| 0 <= i < ls.len() ==> !(#[trigger] ls[i]).contains('\n'),
    ensures
        lines(join_lines(ls)) == ls.map_values(|l: Seq<char>| strip_cr(l)),
{
    lemma_raw_lines_join(ls);
    let s = join_lines(ls);
    if ls.len() > 0 {
        assert(s.len() > 0 && s.last() == '\n');
    }
    assert(raw_lines(s).drop_last() =~= ls);
}

/// The lines of any text hold no newline.
pub proof fn lemma_lines_no_newline(s: Seq<char>)
    ensures
        forall|i: int| 0 <= i < lines(s).len() ==> !(#[trigger] lines(s)[i]).contains('\n'),
{
    lemma_raw_lines_no_newline(s);
    let p = raw_lines(s);
    let q = if s.len() == 0 || s.last() == '\n' {
        p.drop_last()
    } else {
        p
    };
    assert forall|i: int| 0 <= i < lines(s).len() implies !(#[trigger] lines(s)[i]).contains(
        '\n',
    ) by {
        assert(q[i] == p[i]);
        let l = q[i];
        assert(lines(s)[i] == strip_cr(l));
        if strip_cr(l).contains('\n') {
            let k = choose|k: int| 0 <= k < strip_cr(l).len() && strip_cr(l)[k] == '\n';
            assert(l[k] == strip_cr(l)[k]);
        }
    }
}

/// Trailing whitespace does not change what a line trims to.
pub proof fn lemma_trim_push_ws(x: Seq<char>, w: char)
    requires
        is_ws(w),
    ensures
        trim(x.push(w)) == trim(x),
    decreases x.len(),
{
    let xw = x.push(w);
    if x.len() == 0 {
        assert(xw.drop_first() =~= Seq::<char>::empty());
        assert(xw[0] == w);
        assert(trim_start(xw) == trim_start(Seq::<char>::empty()));
        assert(trim_start(Seq::<char>::empty()) =~= Seq::<char>::empty());
        assert(trim_start(x) =~= Seq::<char>::empty());
    } else if is_ws(x[0]) {
        assert(xw.drop_first() =~= x.drop_first().push(w));
        assert(xw[0] == x[0]);
        assert(trim_start(xw) == trim_start(x.drop_first().push(w)));
        assert(trim_start(x) == trim_start(x.drop_first()));
        lemma_trim_push_ws(x.drop_first(), w);
    } else {
        assert(xw[0] == x[0]);
        assert(trim_start(xw) == xw);
        assert(trim_start(x) == x);
        assert(xw.drop_last() =~= x);
        assert(xw.last() == w);
        assert(trim_end(xw) == trim_end(x));
    }
}

/// A line and the line without its carriage return set the same thing.
pub proof fn lemma_parse_strip_cr(l: Seq<char>)
    ensures
        parse_line(strip_cr(l)) == parse_line(l),
{
    if l.len() > 0 && l.last() == '\r' {
        assert(is_ws('\r'));
        lemma_trim_push_ws(l.drop_last(), '\r');
        assert(l.drop_last().push('\r') =~= l);
    }
}

/// Dropping carriage returns changes nothing the loader computes.
proof fn lemma_parse_lines_strip_cr(ls: Seq<Seq<char>>, now: u64)
    ensures
        parse_lines(ls.map_values(|l: Seq<char>| strip_cr(l)), now) == parse_lines(ls, now),
    decreases ls.len(),
{
    if ls.len() > 0 {
        let m = ls.map_values(|l: Seq<char>| strip_cr(l));
        lemma_parse_lines_strip_cr(ls.drop_last(), now);
        assert(m.drop_last() =~= ls.drop_last().map_values(|l: Seq<char>| strip_cr(l)));
        lemma_parse_strip_cr(ls.last());
    }
}

/// Saving a setting that the file does not set yet, into a file of fewer
/// than `MAX_LINES` lines, and loading the result, gives what loading the
/// old file gives with that setting applied. (The setting must be one the
/// loader reads back as written.)
pub proof fn lemma_save_then_load(content: Seq<char>, key: Seq<char>, value: Seq<char>, now: u64)
    requires
        lines(content).len() < MAX_LINES,
        forall|i: int| 0 <= i < lines(content).len() ==> !sets_key(#[trigger] lines(content)[i], key),
        !setting_line(key, value).contains('\n'),
        parse_line(setting_line(key, value)) == Some((key, value)),
    ensures
        parse_lines(read_lines(join_lines(updated_lines(lines(content), key, value))), now)
            == apply_setting_spec(parse_lines(read_lines(content), now), key, value, now),
{
    let ls = lines(content);
    let x = setting_line(key, value);
    assert(!(exists|i: int| 0 <= i < ls.len() && i < MAX_LINES && sets_key(#[trigger] ls[i], key)));
    let up = updated_lines(ls, key, value);
    assert(up == ls.push(x));
    lemma_lines_no_newline(content);
    assert forall|i: int| 0 <= i < up.len() implies !(#[trigger] up[i]).contains('\n') by {
        if i < ls.len() {
            assert(up[i] == ls[i]);
        } else {
            assert(up[i] == x);
        }
    }
    lemma_lines_of_joined(up);
    let m = up.map_values(|l: Seq<char>| strip_cr(l));
    assert(read_lines(join_lines(up)) == m);
    lemma_parse_lines_strip_cr(up, now);
    assert(up.drop_last() =~= ls);
    assert(up.last() == x);
    assert(read_lines(content) == ls);
}

/// A key the writer can save: not empty, no surrounding whitespace, no
/// `=`, `#` or newline in it.
pub open spec fn plain_key(key: Seq<char>) -> bool {
    key.len() > 0 && trim(key) == key && !key.contains('=') && !key.contains('#')
        && !key.contains('\n')
}

/// A value the writer can save: no surrounding whitespace, no `#` or
/// newline in it.
pub open spec fn plain_value(value: Seq<char>) -> bool {
    trim(value) == value && !value.contains('#') && !value.contains('\n')
}

/// Text with no whitespace at either end trims to itself; the first and
/// last characters of such a non-empty text are not whitespace.
proof fn lemma_trimmed_ends(s: Seq<char>)
    requires
        trim(s) == s,
        s.len() > 0,
    ensures
        !is_ws(s[0]),
        !is_ws(s.last()),
{
    if is_ws(s[0]) {
        assert(trim_start(s) == trim_start(s.drop_first()));
        lemma_trim_len(s.drop_first());
        assert(trim(s).len() <= s.len() - 1);
    }
    if is_ws(s.last()) {
        lemma_trim_len(s);
        lemma_trim_start_len(s);
        let t = trim_start(s);
        if t.len() == s.len() {
            assert(t == s) by {
                lemma_trim_start_suffix(s);
            }
            assert(trim_end(t) == trim_end(t.drop_last()));
            lemma_trim_end_len(t.drop_last());
        }
    }
}

proof fn lemma_trim_start_len(s: Seq<char>)
    ensures
        trim_start(s).len() <= s.len(),
    decreases s.len(),
{
    if s.len() > 0 && is_ws(s[0]) {
        lemma_trim_start_len(s.drop_first());
    }
}

proof fn lemma_trim_end_len(s: Seq<char>)
    ensures
        trim_end(s).len() <= s.len(),
    decreases s.len(),
{
    if s.len() > 0 && is_ws(s.last()) {
        lemma_trim_end_len(s.drop_last());
    }
}

proof fn lemma_trim_len(s: Seq<char>)
    ensures
        trim(s).len() <= s.len(),
{
    lemma_trim_start_len(s);
    lemma_trim_end_len(trim_start(s));
}

/// What `trim_start` leaves is a suffix of the text.
proof fn lemma_trim_start_suffix(s: Seq<char>)
    ensures
        trim_start(s) == s.subrange(s.len() - trim_start(s).len(), s.len() as int),
    decreases s.len(),
{
    if s.len() > 0 && is_ws(s[0]) {
        lemma_trim_start_suffix(s.drop_first());
        lemma_trim_start_len(s.drop_first());
        assert(s.drop_first().subrange(
            s.drop_first().len() - trim_start(s.drop_first()).len(),
            s.drop_first().len() as int,
        ) =~= s.subrange(s.len() - trim_start(s).len(), s.len() as int));
    } else {
        assert(s.subrange(0, s.len() as int) =~= s);
    }
}

/// A setting the writer saves with a plain key and value is read back as
/// that key and value.
#[verifier::spinoff_prover]
pub proof fn lemma_setting_line_parses(key: Seq<char>, value: Seq<char>)
    requires
        plain_key(key),
        plain_value(value),
    ensures
        parse_line(setting_line(key, value)) == Some((key, value)),
        !setting_line(key, value).contains('\n'),
{
    reveal_strlit(" = ");
    let n = key.len() as int;
    let line = setting_line(key, value);
    assert(line =~= key + seq![' ', '=', ' '] + value);
    lemma_trimmed_ends(key);
    assert(line[0] == key[0]);
    crate::text::lemma_trim_start_at(line, 0);
    assert(line.subrange(0, line.len() as int) =~= line);
    let t = trim(line);
    if value.len() > 0 {
        lemma_trimmed_ends(value);
        assert(line.last() == value.last());
        crate::text::lemma_trim_end_at(line, line.len() as int);
        assert(t == line);
    } else {
        assert(is_ws(' '));
        assert(!is_ws('='));
        crate::text::lemma_trim_end_at(line, n + 2);
        assert(t =~= key + seq![' ', '=']);
    }
    assert(t[0] == key[0]);
    assert(key[0] != '#') by {
        assert(!key.contains('#'));
    }
    // The first `=` is the one the writer put after the key.
    assert(t[n + 1] == '=');
    assert forall|j: int| 0 <= j < n + 1 implies t[j] != '=' by {
        if j < n {
            assert(t[j] == key[j]);
            assert(!key.contains('='));
        }
    }
    assert(t.contains('='));
    let i = choose|i: int| 0 <= i < t.len() && t[i] == '=' && forall|j: int| 0 <= j < i ==> t[j] != '=';
    assert(i == n + 1) by {
        if i < n + 1 {
            assert(t[i] != '=');
        }
        if i > n + 1 {
            assert(t[n + 1] != '=');
        }
    }
    let rest = t.skip(n + 2);
    assert(!rest.contains('#')) by {
        if rest.contains('#') {
            let k = choose|k: int| 0 <= k < rest.len() && rest[k] == '#';
            if value.len() > 0 {
                assert(rest =~= seq![' '] + value);
                if k > 0 {
                    assert(value[k - 1] == rest[k]);
                }
            }
        }
    }
    // The key: the text before `=`, trimmed.
    assert(t.take(n + 1) =~= key.push(' '));
    lemma_trim_push_ws(key, ' ');
    // The value: the text after `=`, trimmed.
    if value.len() > 0 {
        assert(rest =~= seq![' '] + value);
        assert(rest.drop_first() =~= value);
        assert(trim_start(rest) == trim_start(value));
    } else {
        assert(rest =~= Seq::<char>::empty());
        assert(trim(rest) =~= Seq::<char>::empty());
        assert(value =~= Seq::<char>::empty());
    }
    assert(!line.contains('\n')) by {
        if line.contains('\n') {
            let k = choose|k: int| 0 <= k < line.len() && line[k] == '\n';
            if k < n {
                assert(key[k] == line[k]);
            } else if k >= n + 3 {
                assert(value[k - n - 3] == line[k]);
            }
        }
    }
}

/// A value the loader takes for `key`: a non-empty branch, or a non-empty
/// repository with a `/`.
pub open spec fn accepts_value(key: Seq<char>, value: Seq<char>) -> bool {
    value.len() > 0 && (key == "addon_repository"@ ==> value.contains('/'))
}

/// The loader reads `line` as setting `key` to a value it takes.
pub open spec fn loads_value(line: Seq<char>, key: Seq<char>) -> bool {
    parse_line(line) matches Some((k, v)) && k == key && accepts_value(key, v)
}

/// The part of a configuration a repository or branch setting decides.
pub open spec fn setting_of(c: ConfigView, key: Seq<char>) -> Seq<char> {
    if key == "addon_repository"@ {
        c.0
    } else {
        c.1
    }
}

/// Within the lines from `from` on, none is read as setting `key`: the
/// repository or branch loaded stays what it was before them.
proof fn lemma_setting_unchanged_after(ls: Seq<Seq<char>>, key: Seq<char>, from: int, now: u64)
    requires
        key == "addon_repository"@ || key == "addon_branch"@,
        0 <= from <= ls.len(),
        forall|j: int| from <= j < ls.len() ==> !loads_value(#[trigger] ls[j], key),
    ensures
        setting_of(parse_lines(ls, now), key) == setting_of(parse_lines(ls.take(from), now), key),
    decreases ls.len() - from,
{
    reveal_strlit("addon_repository");
    reveal_strlit("addon_branch");
    if from < ls.len() {
        let init = ls.drop_last();
        assert forall|j: int| from <= j < init.len() implies !loads_value(#[trigger] init[j], key) by {
            assert(init[j] == ls[j]);
        }
        lemma_setting_unchanged_after(init, key, from, now);
        assert(init.take(from) =~= ls.take(from));
        assert(!loads_value(ls[ls.len() - 1], key));
        assert("addon_repository"@ != "addon_branch"@) by {
            assert("addon_repository"@.len() != "addon_branch"@.len());
        }
        match parse_line(ls.last()) {
            Some((k, v)) => {
                assert(k != key || !accepts_value(key, v));
            },
            None => {},
        }
    } else {
        assert(ls.take(from) =~= ls);
    }
}

/// Saving the repository or the branch and loading the file reads the
/// saved value back. The file has fewer than `MAX_LINES` lines, and no
/// line after the first one the writer rewrites (`key = ...` or
/// `key=...`) sets the key to a value the loader takes, since such a line
/// would override the saved one; lines the loader ignores may come
/// anywhere, and lines the writer does not rewrite, such as `key  = ...`,
/// before it, or anywhere when the writer appends.
/// The value is one the loader accepts.
pub proof fn lemma_saved_setting_loads_back(
    content: Seq<char>,
    key: Seq<char>,
    value: Seq<char>,
    now: u64,
)
    requires
        key == "addon_repository"@ || key == "addon_branch"@,
        plain_value(value),
        value.len() > 0,
        key == "addon_repository"@ ==> value.contains('/'),
        lines(content).len() < MAX_LINES,
        forall|i: int, j: int|
            0 <= i < j < lines(content).len() && sets_key(#[trigger] lines(content)[i], key)
                ==> !loads_value(#[trigger] lines(content)[j], key),
    ensures
        setting_of(
            parse_lines(read_lines(join_lines(updated_lines(lines(content), key, value))), now),
            key,
        ) == value,
{
    reveal_strlit("addon_repository");
    reveal_strlit("addon_branch");
    let ls = lines(content);
    assert(plain_key(key)) by {
        lemma_plain_known_key(key);
    }
    lemma_setting_line_parses(key, value);
    let x = setting_line(key, value);
    let up = updated_lines(ls, key, value);
    // Where the saved line ends up.
    let i = lemma_updated_position(ls, key, value);
    assert forall|j: int| i < j < up.len() implies !loads_value(#[trigger] up[j], key) by {
        assert(i < ls.len());
        assert(up[j] == ls[j]);
        assert(sets_key(ls[i], key));
    }
    // The file as written reads back as these lines.
    lemma_lines_no_newline(content);
    assert forall|j: int| 0 <= j < up.len() implies !(#[trigger] up[j]).contains('\n') by {
        if j != i {
            assert(up[j] == ls[j]);
        }
    }
    lemma_lines_of_joined(up);
    lemma_parse_lines_strip_cr(up, now);
    assert(read_lines(join_lines(up)) == up.map_values(|l: Seq<char>| strip_cr(l)));
    // The saved line decides the setting, and nothing after it changes it.
    lemma_setting_unchanged_after(up, key, i + 1, now);
    let pre = up.take(i + 1);
    assert(pre.drop_last() =~= up.take(i));
    assert(pre.last() == x);
}

/// Where `updated_lines` puts the setting: at the first line that sets the
/// key (among the first `MAX_LINES`), or after the last line; every other
/// line stays.
proof fn lemma_updated_position(ls: Seq<Seq<char>>, key: Seq<char>, value: Seq<char>) -> (i: int)
    ensures
        0 <= i <= ls.len(),
        i < updated_lines(ls, key, value).len(),
        updated_lines(ls, key, value)[i] == setting_line(key, value),
        updated_lines(ls, key, value).len() == (if i < ls.len() {
            ls.len() as int
        } else {
            ls.len() + 1int
        }),
        i < ls.len() ==> sets_key(ls[i], key),
        forall|j: int|
            0 <= j < ls.len() && j != i ==> #[trigger] updated_lines(ls, key, value)[j] == ls[j],
{
    if exists|i: int| 0 <= i < ls.len() && i < MAX_LINES && sets_key(#[trigger] ls[i], key) {
        let w = lemma_first_setter(ls, key, 0);
        let i = choose|i: int|
            0 <= i < ls.len() && i < MAX_LINES && sets_key(#[trigger] ls[i], key) && forall|j: int|
                0 <= j < i ==> !sets_key(#[trigger] ls[j], key);
        assert(updated_lines(ls, key, value) == ls.update(i, setting_line(key, value)));
        i
    } else {
        assert(updated_lines(ls, key, value) == ls.push(setting_line(key, value)));
        ls.len() as int
    }
}

/// The first line (among the first `MAX_LINES`) that sets the key, when
/// one does.
proof fn lemma_first_setter(ls: Seq<Seq<char>>, key: Seq<char>, from: int) -> (i: int)
    requires
        0 <= from,
        exists|k: int| from <= k < ls.len() && k < MAX_LINES && sets_key(#[trigger] ls[k], key),
        forall|j: int| 0 <= j < from ==> !sets_key(#[trigger] ls[j], key),
    ensures
        0 <= i < ls.len() && i < MAX_LINES && sets_key(ls[i], key),
        forall|j: int| 0 <= j < i ==> !sets_key(#[trigger] ls[j], key),
    decreases ls.len() - from,
{
    if sets_key(ls[from], key) {
        from
    } else {
        let k = choose|k: int| from <= k < ls.len() && k < MAX_LINES && sets_key(#[trigger] ls[k], key);
        assert(k != from);
        lemma_first_setter(ls, key, from + 1)
    }
}

/// The two keys the writer saves are plain keys.
proof fn lemma_plain_known_key(key: Seq<char>)
    requires
        key == "addon_repository"@ || key == "addon_branch"@,
    ensures
        plain_key(key),
{
    reveal_strlit("addon_repository");
    reveal_strlit("addon_branch");
    assert(key.len() > 0);
    assert(!is_ws(key[0]));
    assert(!is_ws(key.last()));
    crate::text::lemma_trim_start_at(key, 0);
    assert(key.subrange(0, key.len() as int) =~= key);
    crate::text::lemma_trim_end_at(key, key.len() as int);
    assert(!key.contains('=')) by {
        if key.contains('=') {
            let k = choose|k: int| 0 <= k < key.len() && key[k] == '=';
        }
    }
    assert(!key.contains('#')) by {
        if key.contains('#') {
            let k = choose|k: int| 0 <= k < key.len() && key[k] == '#';
        }
    }
    assert(!key.contains('\n')) by {
        if key.contains('\n') {
            let k = choose|k: int| 0 <= k < key.len() && key[k] == '\n';
        }
    }
}

/// The value an installed addon is saved with is a plain value.
proof fn lemma_installed_is_plain()
    ensures
        plain_value("installed"@),
{
    reveal_strlit("installed");
    let value = "installed"@;
    assert(!is_ws(value[0]));
    assert(!is_ws(value.last()));
    crate::text::lemma_trim_start_at(value, 0);
    assert(value.subrange(0, value.len() as int) =~= value);
    crate::text::lemma_trim_end_at(value, value.len() as int);
    assert(!value.contains('#')) by {
        if value.contains('#') {
            let k = choose|k: int| 0 <= k < value.len() && value[k] == '#';
        }
    }
    assert(!value.contains('\n')) by {
        if value.contains('\n') {
            let k = choose|k: int| 0 <= k < value.len() && value[k] == '\n';
        }
    }
}

/// Saving an installed addon into a file that does not mention it yet and
/// loading the file lists the addon, under its title-cased ID and the
/// load's time, when fewer than `MAX_INSTALLED_ADDONS` addons were loaded
/// from the file before (the loader records no more than that).
pub proof fn lemma_saved_addon_loads_back(content: Seq<char>, id: Seq<char>, now: u64)
    requires
        plain_key("addon."@ + id),
        id.len() > 0,
        lines(content).len() < MAX_LINES,
        forall|i: int|
            0 <= i < lines(content).len() ==> !sets_key(#[trigger] lines(content)[i], "addon."@ + id),
        parse_lines(read_lines(content), now).2.len() < crate::addons::types::MAX_INSTALLED_ADDONS,
    ensures
        parse_lines(
            read_lines(join_lines(updated_lines(lines(content), "addon."@ + id, "installed"@))),
            now,
        ).2.contains((id, crate::text::title_case(id), now)),
{
    reveal_strlit("addon.");
    reveal_strlit("addon_repository");
    reveal_strlit("addon_branch");
    let key = "addon."@ + id;
    let value = "installed"@;
    lemma_installed_is_plain();
    lemma_setting_line_parses(key, value);
    lemma_save_then_load(content, key, value, now);
    assert(key != "addon_repository"@) by {
        assert(key[5] == '.');
        assert("addon_repository"@[5] == '_');
    }
    assert(key != "addon_branch"@) by {
        assert(key[5] == '.');
        assert("addon_branch"@[5] == '_');
    }
    assert(crate::text::has_prefix(key, crate::addons::storage::addon_key_prefix())) by {
        assert(key.subrange(0, 6) =~= "addon."@);
    }
    assert(key.skip(6) =~= id);
    let c = parse_lines(read_lines(content), now);
    let after = crate::addons::storage::installed_entry_added(c.2, id, now);
    assert(after.last() == (id, crate::text::title_case(id), now));
    assert(after[after.len() - 1] == (id, crate::text::title_case(id), now));
}

} // verus!
