//! The repository that a checkout belongs to, read from its git configuration.

use crate::text;
use crate::text::CharClass;
use vstd::prelude::*;
use vstd::slice::slice_subrange;
use vstd::string::*;

verus! {

/// What stands under the name `.git` in a directory.
#[derive(Clone, Copy, Debug, PartialEq, Eq, Structural)]
pub enum DotGit {
    Missing,
    Directory,
    File,
}

/// The first directory, from the project upwards, that holds a `.git`, and what it
/// is there.
pub open spec fn nearest_dot_git(levels: Seq<DotGit>, from: nat) -> Option<(nat, DotGit)>
    decreases levels.len() - from,
{
    if from >= levels.len() {
        None
    } else if levels[from as int] != DotGit::Missing {
        Some((from, levels[from as int]))
    } else {
        nearest_dot_git(levels, from + 1)
    }
}

/// Where the git configuration is to be looked for: the first of `levels`, the
/// project's directory and those above it, that holds a `.git`.
pub fn git_config_candidates(levels: &[DotGit]) -> (r: Option<(usize, DotGit)>)
    ensures
        match r {
            None => nearest_dot_git(levels@, 0) is None,
            Some((i, kind)) => nearest_dot_git(levels@, 0) == Some((i as nat, kind)),
        },
{
    let mut i: usize = 0;
    while i < levels.len()
        invariant
            i <= levels.len(),
            nearest_dot_git(levels@, 0) == nearest_dot_git(levels@, i as nat),
        decreases levels.len() - i,
    {
        let kind: DotGit = levels[i];
        if kind != DotGit::Missing {
            return Some((i, kind));
        }
        i += 1;
    }
    None
}

/// The directory that a `.git` file points to.
pub open spec fn gitdir_target(contents: Seq<char>) -> Option<Seq<char>> {
    let t = text::trim(contents, CharClass::White);
    if text::starts_with(t, "gitdir:"@) {
        Some(text::trim(t.skip("gitdir:"@.len() as int), CharClass::White))
    } else {
        None
    }
}

/// The directory that a `.git` file points to, as it stands in the file.
pub fn parse_gitdir_file(contents: &str) -> (r: Option<String>)
    ensures
        text::opt_view(r) == gitdir_target(contents@),
{
    let chars = text::chars_of(contents);
    let t = text::trimmed(chars.as_slice(), CharClass::White);
    let mark = text::chars_of("gitdir:");
    if text::has_prefix(t, mark.as_slice()) {
        let rest = slice_subrange(t, mark.len(), t.len());
        assert(rest@ == t@.skip(mark@.len() as int));
        Some(text::text_of(text::trimmed(rest, CharClass::White)))
    } else {
        None
    }
}

/// `path` as seen from `base`: an absolute path is taken as it is.
pub open spec fn joined_path(base: Seq<char>, path: Seq<char>) -> Seq<char> {
    if text::starts_with(path, "/"@) {
        path
    } else if base.len() == 0 || base.last() == '/' {
        base + path
    } else {
        base + "/"@ + path
    }
}

/// `path` as seen from `base`.
pub fn join_path(base: &str, path: &str) -> (r: String)
    ensures
        r@ == joined_path(base@, path@),
{
    let below = text::chars_of(base);
    let len: usize = below.len();
    if text::str_starts_with(path, "/") {
        path.to_owned()
    } else if len == 0 || below[len - 1] == '/' {
        let mut out = base.to_owned();
        out.append(path);
        out
    } else {
        let mut out = base.to_owned();
        out.append("/");
        out.append(path);
        out
    }
}

/// The directory that the `.git` file with these contents in `dir` points to.
pub fn linked_gitdir(dir: &str, contents: &str) -> (r: Option<String>)
    ensures
        text::opt_view(r) == match gitdir_target(contents@) {
            Some(target) => Some(joined_path(dir@, target)),
            None => None,
        },
{
    match parse_gitdir_file(contents) {
        Some(target) => Some(join_path(dir, target.as_str())),
        None => None,
    }
}

/// Where the configuration of a linked checkout may stand: in its own git directory, in
/// the common one that `commondir` names, and in the one two levels above.
pub open spec fn linked_configs(
    gitdir: Seq<char>,
    commondir: Option<Seq<char>>,
    two_above: Option<Seq<char>>,
) -> Seq<Seq<char>> {
    let own = seq![joined_path(gitdir, "config"@)];
    let common = match commondir {
        Some(c) => seq![
            joined_path(joined_path(gitdir, text::trim(c, CharClass::White)), "config"@),
        ],
        None => seq![],
    };
    let above = match two_above {
        Some(d) => seq![joined_path(d, "config"@)],
        None => seq![],
    };
    own + common + above
}

/// Where the configuration of a linked checkout may stand. `commondir` is what the file
/// of that name in `gitdir` holds, `two_above` the directory two levels above `gitdir`.
pub fn config_candidates_from_gitdir_file(
    gitdir: &str,
    commondir: Option<&str>,
    two_above: Option<&str>,
) -> (r: Vec<String>)
    ensures
        text::texts(r@) == linked_configs(
            gitdir@,
            match commondir {
                Some(c) => Some(c@),
                None => None,
            },
            match two_above {
                Some(d) => Some(d@),
                None => None,
            },
        ),
{
    let mut out: Vec<String> = Vec::new();
    out.push(join_path(gitdir, "config"));
    if let Some(c) = commondir {
        let chars = text::chars_of(c);
        let name = text::text_of(text::trimmed(chars.as_slice(), CharClass::White));
        let common = join_path(gitdir, name.as_str());
        out.push(join_path(common.as_str(), "config"));
    }
    if let Some(d) = two_above {
        out.push(join_path(d, "config"));
    }
    proof {
        let expected = linked_configs(
            gitdir@,
            match commondir {
                Some(c) => Some(c@),
                None => None,
            },
            match two_above {
                Some(d) => Some(d@),
                None => None,
            },
        );
        assert(text::texts(out@) =~= expected);
    }
    out
}

/// `s` without every `.git` at its end.
pub open spec fn without_git(s: Seq<char>) -> Seq<char>
    decreases s.len(),
{
    if ".git"@.len() > 0 && text::ends_with(s, ".git"@) {
        without_git(s.take(s.len() - ".git"@.len()))
    } else {
        s
    }
}

/// The slug that is left of an address after `prefix`.
pub open spec fn slug_after(url: Seq<char>, prefix: Seq<char>) -> Option<Seq<char>> {
    if text::starts_with(url, prefix) && without_git(url.skip(prefix.len() as int)).contains('/') {
        Some(without_git(url.skip(prefix.len() as int)))
    } else {
        None
    }
}

/// The `owner/repo` that a remote's address names.
pub open spec fn remote_slug(url: Seq<char>) -> Option<Seq<char>> {
    if slug_after(url, "git@github.com:"@) is Some {
        slug_after(url, "git@github.com:"@)
    } else if slug_after(url, "ssh://git@github.com/"@) is Some {
        slug_after(url, "ssh://git@github.com/"@)
    } else if text::starts_with(url, "https://github.com/"@) {
        slug_after(url, "https://github.com/"@)
    } else {
        slug_after(url, "http://github.com/"@)
    }
}

fn trimmed_git<'a>(s: &'a [char]) -> (r: &'a [char])
    ensures
        r@ == without_git(s@),
{
    let suffix = text::chars_of(".git");
    let n: usize = suffix.len();
    proof {
        reveal_strlit(".git");
    }
    let mut end: usize = s.len();
    assert(s@.take(end as int) == s@);
    while text::has_suffix(slice_subrange(s, 0, end), suffix.as_slice())
        invariant
            end <= s.len(),
            n == suffix@.len(),
            suffix@ == ".git"@,
            n == 4,
            without_git(s@) == without_git(s@.take(end as int)),
            s@.take(end as int) == s@.subrange(0, end as int),
        decreases end,
    {
        assert(s@.take(end as int).take(end - n) == s@.take(end - n));
        end -= n;
        assert(s@.take(end as int) == s@.subrange(0, end as int));
    }
    slice_subrange(s, 0, end)
}

fn holds_slash(s: &[char]) -> (r: bool)
    ensures
        r == s@.contains('/'),
{
    let mut i: usize = 0;
    while i < s.len()
        invariant
            i <= s.len(),
            forall|j: int| 0 <= j < i ==> s@[j] != '/',
        decreases s.len() - i,
    {
        if s[i] == '/' {
            return true;
        }
        i += 1;
    }
    false
}

fn read_slug_after(url: &[char], prefix: &str) -> (r: Option<String>)
    ensures
        text::opt_view(r) == slug_after(url@, prefix@),
{
    let p = text::chars_of(prefix);
    if !text::has_prefix(url, p.as_slice()) {
        return None;
    }
    let rest = slice_subrange(url, p.len(), url.len());
    assert(rest@ == url@.skip(p@.len() as int));
    let slug = trimmed_git(rest);
    if holds_slash(slug) {
        Some(text::text_of(slug))
    } else {
        None
    }
}

/// The `owner/repo` that a remote's address names, in the forms
/// `git@github.com:owner/repo.git`, `ssh://git@github.com/owner/repo.git` and
/// `https://github.com/owner/repo.git`.
pub fn parse_repo_slug_from_remote_url(url: &str) -> (r: Option<String>)
    ensures
        text::opt_view(r) == remote_slug(url@),
{
    let chars = text::chars_of(url);
    let scp = read_slug_after(chars.as_slice(), "git@github.com:");
    if scp.is_some() {
        return scp;
    }
    let ssh = read_slug_after(chars.as_slice(), "ssh://git@github.com/");
    if ssh.is_some() {
        return ssh;
    }
    if text::str_starts_with(url, "https://github.com/") {
        return read_slug_after(chars.as_slice(), "https://github.com/");
    }
    read_slug_after(chars.as_slice(), "http://github.com/")
}

/// The name of a remote, where there is one.
pub open spec fn some_name(s: Seq<char>) -> Option<Seq<char>> {
    let name = text::trim(s, CharClass::White);
    if name.len() == 0 {
        None
    } else {
        Some(name)
    }
}

/// The remote that a section of a git configuration is about. `section` is what
/// stands between its brackets: `remote "name"` or `remote.name`.
pub open spec fn section_remote(section: Seq<char>) -> Option<Seq<char>> {
    let s = text::trim(section, CharClass::White);
    if text::starts_with(s, "remote."@) {
        some_name(s.skip("remote."@.len() as int))
    } else if text::starts_with(s, "remote"@) {
        let rest = s.skip("remote"@.len() as int);
        let open = text::trim_start(rest, CharClass::White);
        if (rest.len() > 0 && !text::white_space(rest[0])) || open.len() == 0 || open[0] != '"' {
            None
        } else {
            match text::index(open.skip(1), CharClass::Just('"')) {
                None => None,
                Some(end) => some_name(open.skip(1).take(end as int)),
            }
        }
    } else {
        None
    }
}

fn trimmed_name(s: &[char]) -> (r: Option<String>)
    ensures
        text::opt_view(r) == some_name(s@),
{
    let name = text::trimmed(s, CharClass::White);
    if name.len() == 0 {
        None
    } else {
        Some(text::text_of(name))
    }
}

fn remote_of_section(section: &[char]) -> (r: Option<String>)
    ensures
        text::opt_view(r) == section_remote(section@),
{
    let s = text::trimmed(section, CharClass::White);
    let dotted = text::chars_of("remote.");
    let plain = text::chars_of("remote");
    if text::has_prefix(s, dotted.as_slice()) {
        let rest = slice_subrange(s, dotted.len(), s.len());
        assert(rest@ == s@.skip(dotted@.len() as int));
        return trimmed_name(rest);
    }
    if !text::has_prefix(s, plain.as_slice()) {
        return None;
    }
    let rest = slice_subrange(s, plain.len(), s.len());
    assert(rest@ == s@.skip(plain@.len() as int));
    if rest.len() > 0 && !text::is_white_space(rest[0]) {
        return None;
    }
    let open = text::trimmed_start(rest, CharClass::White);
    if open.len() == 0 || open[0] != '"' {
        return None;
    }
    let quoted = slice_subrange(open, 1, open.len());
    assert(quoted@ == open@.skip(1));
    match text::index_of(quoted, CharClass::Just('"')) {
        None => None,
        Some(end) => {
            let name = slice_subrange(quoted, 0, end);
            assert(name@ == quoted@.take(end as int));
            trimmed_name(name)
        },
    }
}

/// The remote that a section of a git configuration is about.
pub fn parse_remote_section_name(section: &str) -> (r: Option<String>)
    ensures
        text::opt_view(r) == section_remote(section@),
{
    let chars = text::chars_of(section);
    remote_of_section(chars.as_slice())
}

/// Whether a comment begins at `i`: a `#` or a `;` after white space.
pub open spec fn comment_at(v: Seq<char>, i: int) -> bool {
    0 < i < v.len() && (v[i] == '#' || v[i] == ';') && text::white_space(v[i - 1])
}

/// The value `v` up to the comment that begins at `from` or later, if one does.
pub open spec fn before_comment(v: Seq<char>, from: nat) -> Seq<char>
    decreases v.len() - from,
{
    if from >= v.len() {
        v
    } else if comment_at(v, from as int) {
        text::trim_end(v.take(from as int), CharClass::White)
    } else {
        before_comment(v, from + 1)
    }
}

/// A value of a git configuration, without white space and comment around it.
pub open spec fn config_value(value: Seq<char>) -> Seq<char> {
    before_comment(text::trim(value, CharClass::White), 0)
}

fn value_of<'a>(value: &'a [char]) -> (r: &'a [char])
    ensures
        r@ == config_value(value@),
{
    let v = text::trimmed(value, CharClass::White);
    let mut i: usize = 0;
    while i < v.len()
        invariant
            i <= v.len(),
            config_value(value@) == before_comment(v@, i as nat),
        decreases v.len() - i,
    {
        if i > 0 && (v[i] == '#' || v[i] == ';') && text::is_white_space(v[i - 1]) {
            let left = slice_subrange(v, 0, i);
            assert(left@ == v@.take(i as int));
            return text::trimmed_end(left, CharClass::White);
        }
        i += 1;
    }
    v
}

/// A value of a git configuration, without white space and comment around it.
pub fn trim_git_config_value(value: &str) -> (r: String)
    ensures
        r@ == config_value(value@),
{
    let chars = text::chars_of(value);
    text::text_of(value_of(chars.as_slice()))
}

/// What has been read of a git configuration: the remote whose section is open, and
/// the addresses found.
pub struct ConfigScan {
    pub remote: Option<Seq<char>>,
    pub found: Seq<(Seq<char>, Seq<char>)>,
}

/// One more line of a git configuration.
pub open spec fn scan_line(st: ConfigScan, line: Seq<char>) -> ConfigScan {
    let t = text::trim(line, CharClass::White);
    if t.len() == 0 || t[0] == '#' || t[0] == ';' {
        st
    } else if t[0] == '[' && t.last() == ']' {
        ConfigScan { remote: section_remote(t.subrange(1, t.len() - 1)), ..st }
    } else {
        match (st.remote, text::index(t, CharClass::Just('='))) {
            (Some(name), Some(i)) => {
                let key = text::trim(t.take(i as int), CharClass::White);
                let url = config_value(t.skip((i + 1) as int));
                if text::lower(key) == text::lower("url"@) && url.len() > 0 {
                    ConfigScan { found: st.found.push((name, url)), ..st }
                } else {
                    st
                }
            },
            _ => st,
        }
    }
}

/// All lines of a git configuration.
pub open spec fn scan(ls: Seq<Seq<char>>) -> ConfigScan
    decreases ls.len(),
{
    if ls.len() == 0 {
        ConfigScan { remote: None, found: seq![] }
    } else {
        scan_line(scan(ls.drop_last()), ls.last())
    }
}

/// The names and addresses of a list of remotes.
pub open spec fn pairs(v: Seq<(String, String)>) -> Seq<(Seq<char>, Seq<char>)> {
    Seq::new(v.len(), |i: int| (v[i].0@, v[i].1@))
}

fn read_line(
    remote: Option<String>,
    found: Vec<(String, String)>,
    line: &[char],
) -> (r: (Option<String>, Vec<(String, String)>))
    ensures
        (ConfigScan { remote: text::opt_view(r.0), found: pairs(r.1@) }) == scan_line(
            ConfigScan { remote: text::opt_view(remote), found: pairs(found@) },
            line@,
        ),
{
    let mut found = found;
    let t = text::trimmed(line, CharClass::White);
    if t.len() == 0 || t[0] == '#' || t[0] == ';' {
        return (remote, found);
    }
    if t[0] == '[' && t[t.len() - 1] == ']' {
        return (remote_of_section(slice_subrange(t, 1, t.len() - 1)), found);
    }
    let at = text::index_of(t, CharClass::Just('='));
    if let (Some(name), Some(i)) = (&remote, at) {
        let len: usize = t.len();
        let left = slice_subrange(t, 0, i);
        let right = slice_subrange(t, i + 1, len);
        assert(left@ == t@.take(i as int));
        assert(right@ == t@.skip((i + 1) as int));
        let url = value_of(right);
        let key = text::chars_of("url");
        if text::eq_ignore_case(text::trimmed(left, CharClass::White), key.as_slice()) && url.len()
            > 0 {
            let ghost before = pairs(found@);
            found.push((name.clone(), text::text_of(url)));
            assert(pairs(found@) == before.push((name@, url@)));
        }
    }
    (remote, found)
}

/// The names and addresses of the remotes of a git configuration, in its order.
pub fn parse_remote_urls_from_git_config(config: &str) -> (r: Vec<(String, String)>)
    ensures
        pairs(r@) == config_remotes(config@),
{
    let chars = text::chars_of(config);
    let ls = text::line_list(chars.as_slice());
    let ghost all = text::lines(config@);
    let mut remote: Option<String> = None;
    let mut found: Vec<(String, String)> = Vec::new();
    let mut i: usize = 0;
    assert(all.take(0) == Seq::<Seq<char>>::empty());
    assert(pairs(found@) == Seq::<(Seq<char>, Seq<char>)>::empty());
    while i < ls.len()
        invariant
            i <= ls.len(),
            all == text::rows(ls@),
            (ConfigScan { remote: text::opt_view(remote), found: pairs(found@) }) == scan(
                all.take(i as int),
            ),
        decreases ls.len() - i,
    {
        assert(all.take(i + 1).drop_last() == all.take(i as int));
        assert(all.take(i + 1).last() == ls@[i as int]@);
        let (r, f) = read_line(remote, found, ls[i].as_slice());
        remote = r;
        found = f;
        i += 1;
    }
    assert(all.take(i as int) == all);
    found
}

/// Whether a line begins a section of a git configuration.
pub open spec fn is_header(line: Seq<char>) -> bool {
    let t = text::trim(line, CharClass::White);
    t.len() > 0 && t[0] == '[' && t.last() == ']'
}

proof fn lemma_trim_without_last(s: Seq<char>, k: CharClass)
    requires
        s.len() > 0,
        k.has(s.last()),
    ensures
        text::trim(s, k) == text::trim(s.drop_last(), k),
    decreases s.len(),
{
    if s.len() > 1 {
        if k.has(s[0]) {
            lemma_trim_without_last(s.drop_first(), k);
            assert(s.drop_first().drop_last() == s.drop_last().drop_first());
        }
    } else {
        assert(s.drop_first() == s.drop_last());
        assert(s.last() == s[0]);
    }
}

/// What is read of lines is what is read of the first of them and, from a section's
/// beginning on, of the others by themselves.
proof fn lemma_scan_from_header(before: Seq<Seq<char>>, after: Seq<Seq<char>>)
    requires
        after.len() > 0,
        is_header(after[0]),
    ensures
        scan(before + after).remote == scan(after).remote,
        scan(before + after).found == scan(before).found + scan(after).found,
    decreases after.len(),
{
    let all = before + after;
    assert(all.drop_last() == before + after.drop_last());
    assert(all.last() == after.last());
    if after.len() == 1 {
        assert(after.drop_last() == Seq::<Seq<char>>::empty());
        assert(before + after.drop_last() == before);
        reveal_with_fuel(scan, 2);
        assert(scan(after).found == Seq::<(Seq<char>, Seq<char>)>::empty());
    } else {
        lemma_scan_from_header(before, after.drop_last());
        let f = scan(before).found;
        let g = scan(after.drop_last()).found;
        assert forall|x: (Seq<char>, Seq<char>)| (f + g).push(x) == f + #[trigger] g.push(x) by {
            assert((f + g).push(x) =~= f + g.push(x));
        }
    }
}

/// A line feed at the end changes nothing of what is read.
proof fn lemma_scan_with_line_feed(config: Seq<char>)
    ensures
        scan(text::lines(config + "\n"@)) == scan(text::lines(config)),
{
    let k = CharClass::Just('\n');
    let parts = text::split(config, k);
    text::lemma_split_nonempty(config, k);
    reveal_strlit("\n");
    let longer = config + "\n"@;
    assert(longer.drop_last() == config);
    assert(text::split(longer, k) == parts.push(Seq::<char>::empty()));
    let ended = Seq::new((parts.len() - 1) as nat, |i: int| text::without_return(parts[i]));
    let last = text::without_return(parts.last());
    assert(text::lines(longer) =~= ended.push(last));
    assert(ended.push(last).drop_last() == ended);
    if parts.last().len() == 0 {
        assert(text::lines(config) == ended);
        assert(text::trim(last, CharClass::White).len() == 0);
    } else {
        assert(text::lines(config) == ended.push(parts.last()));
        assert(ended.push(parts.last()).drop_last() == ended);
        if parts.last().last() == '\r' {
            lemma_trim_without_last(parts.last(), CharClass::White);
        }
        assert(text::trim(last, CharClass::White) == text::trim(parts.last(), CharClass::White));
    }
}

/// The names and addresses of the remotes of a git configuration, in its order.
pub open spec fn config_remotes(config: Seq<char>) -> Seq<(Seq<char>, Seq<char>)> {
    scan(text::lines(config)).found
}

/// A configuration that is cut where a section begins gives the remotes of its two parts one
/// after the other: they come in the order of the file, repeats are kept, and no remote's
/// name is carried over into the next section.
pub proof fn law_sections_are_read_by_themselves(first: Seq<char>, second: Seq<char>)
    requires
        text::lines(second).len() > 0,
        is_header(text::lines(second)[0]),
    ensures
        config_remotes(first + "\n"@ + second) == config_remotes(first) + config_remotes(second),
{
    reveal_strlit("\n");
    let above = first + "\n"@;
    text::lemma_lines_concat(above, second);
    lemma_scan_with_line_feed(first);
    lemma_scan_from_header(text::lines(above), text::lines(second));
}

proof fn lemma_scanned_are_not_empty(ls: Seq<Seq<char>>)
    ensures
        scan(ls).remote matches Some(name) ==> name.len() > 0,
        forall|i: int|
            0 <= i < scan(ls).found.len() ==> (#[trigger] scan(ls).found[i]).0.len() > 0
                && scan(ls).found[i].1.len() > 0,
    decreases ls.len(),
{
    if ls.len() > 0 {
        lemma_scanned_are_not_empty(ls.drop_last());
    }
}

/// Every remote that is read has a name and an address.
pub proof fn law_remotes_are_complete(config: Seq<char>, i: int)
    requires
        0 <= i < config_remotes(config).len(),
    ensures
        config_remotes(config)[i].0.len() > 0,
        config_remotes(config)[i].1.len() > 0,
{
    lemma_scanned_are_not_empty(text::lines(config));
}

/// Whether the remote at `i` names a GitHub repository.
pub open spec fn on_github(remotes: Seq<(Seq<char>, Seq<char>)>, i: int) -> bool {
    0 <= i < remotes.len() && remote_slug(remotes[i].1) is Some
}

/// The repository of the first remote called `origin`, else of the first remote
/// that is on GitHub.
pub open spec fn preferred_slug(remotes: Seq<(Seq<char>, Seq<char>)>) -> Option<Seq<char>>
    decreases remotes.len(),
{
    if remotes.len() == 0 {
        None
    } else {
        let before = preferred_slug(remotes.drop_last());
        let last = remotes.len() - 1;
        if has_origin(remotes.drop_last()) || !on_github(remotes, last) {
            before
        } else if remotes[last].0 == "origin"@ || before is None {
            remote_slug(remotes[last].1)
        } else {
            before
        }
    }
}

/// Whether a remote called `origin` is on GitHub.
pub open spec fn has_origin(remotes: Seq<(Seq<char>, Seq<char>)>) -> bool {
    exists|i: int| #[trigger] on_github(remotes, i) && remotes[i].0 == "origin"@
}

/// The repository of a checkout with these remotes. The remote `origin` is
/// preferred; any other remote on GitHub serves where it is missing.
pub fn choose_repo_slug(remotes: &Vec<(String, String)>) -> (r: Option<String>)
    ensures
        text::opt_view(r) == preferred_slug(pairs(remotes@)),
{
    let ghost all = pairs(remotes@);
    let mut fallback: Option<String> = None;
    let mut i: usize = 0;
    assert(all.take(0) == Seq::<(Seq<char>, Seq<char>)>::empty());
    while i < remotes.len()
        invariant
            i <= remotes.len(),
            all == pairs(remotes@),
            text::opt_view(fallback) == preferred_slug(all.take(i as int)),
            !has_origin(all.take(i as int)),
        decreases remotes.len() - i,
    {
        let ghost here = all.take(i + 1);
        assert(here.drop_last() == all.take(i as int));
        assert(here.last() == all[i as int]);
        assert(all[i as int] == (remotes@[i as int].0@, remotes@[i as int].1@));
        let slug = parse_repo_slug_from_remote_url(remotes[i].1.as_str());
        if slug.is_some() {
            assert(on_github(here, i as int));
            if text::str_eq(remotes[i].0.as_str(), "origin") {
                proof {
                    assert(preferred_slug(here) == remote_slug(all[i as int].1));
                    lemma_origin_is_final(all, i + 1);
                }
                return slug;
            }
            if fallback.is_none() {
                fallback = slug;
            }
        }
        assert(!has_origin(here)) by {
            if has_origin(here) {
                let j = choose|j: int| #[trigger] on_github(here, j) && here[j].0 == "origin"@;
                if j < i {
                    assert(all.take(i as int)[j] == here[j]);
                    assert(on_github(all.take(i as int), j));
                }
            }
        }
        i += 1;
    }
    assert(all.take(i as int) == all);
    fallback
}

proof fn lemma_origin_is_final(remotes: Seq<(Seq<char>, Seq<char>)>, n: int)
    requires
        0 <= n <= remotes.len(),
        has_origin(remotes.take(n)),
    ensures
        preferred_slug(remotes) == preferred_slug(remotes.take(n)),
    decreases remotes.len() - n,
{
    if n < remotes.len() {
        let next = remotes.take(n + 1);
        assert(next.drop_last() == remotes.take(n));
        let i = choose|i: int|
            #[trigger] on_github(remotes.take(n), i) && remotes.take(n)[i].0 == "origin"@;
        assert(next[i] == remotes.take(n)[i]);
        assert(on_github(next, i));
        lemma_origin_is_final(remotes, n + 1);
    } else {
        assert(remotes.take(n) == remotes);
    }
}

/// Where some remote called `origin` is on GitHub, the choice is the repository of
/// such a remote.
pub proof fn law_origin_is_preferred(remotes: Seq<(Seq<char>, Seq<char>)>)
    requires
        has_origin(remotes),
    ensures
        exists|i: int|
            #[trigger] on_github(remotes, i) && remotes[i].0 == "origin"@ && preferred_slug(remotes)
                == remote_slug(remotes[i].1),
    decreases remotes.len(),
{
    let before = remotes.drop_last();
    let last = remotes.len() - 1;
    if has_origin(before) {
        law_origin_is_preferred(before);
        let i = choose|i: int|
            #[trigger] on_github(before, i) && before[i].0 == "origin"@ && preferred_slug(before)
                == remote_slug(before[i].1);
        assert(remotes[i] == before[i]);
        assert(on_github(remotes, i));
    } else {
        let i = choose|i: int| #[trigger] on_github(remotes, i) && remotes[i].0 == "origin"@;
        if i < last {
            assert(before[i] == remotes[i]);
            assert(on_github(before, i));
        }
        assert(on_github(remotes, last));
    }
}

/// A checkout has a repository exactly when one of its remotes is on GitHub.
pub proof fn law_slug_iff_remote_on_github(remotes: Seq<(Seq<char>, Seq<char>)>)
    ensures
        preferred_slug(remotes) is Some <==> exists|i: int| on_github(remotes, i),
    decreases remotes.len(),
{
    if remotes.len() > 0 {
        let before = remotes.drop_last();
        let last = remotes.len() - 1;
        law_slug_iff_remote_on_github(before);
        if exists|i: int| on_github(before, i) {
            let i = choose|i: int| on_github(before, i);
            assert(remotes[i] == before[i]);
            assert(on_github(remotes, i));
        }
        if exists|i: int| on_github(remotes, i) {
            let i = choose|i: int| on_github(remotes, i);
            if i < last {
                assert(before[i] == remotes[i]);
                assert(on_github(before, i));
            }
        }
    }
}

/// The nearest `.git` counts: the first of the directories upwards that has one.
pub proof fn law_nearest_dot_git_counts(levels: Seq<DotGit>, i: nat)
    requires
        i <= levels.len(),
        forall|j: int| 0 <= j < i ==> #[trigger] levels[j] == DotGit::Missing,
    ensures
        i < levels.len() && levels[i as int] != DotGit::Missing ==> nearest_dot_git(levels, 0)
            == Some((i, levels[i as int])),
        i == levels.len() ==> nearest_dot_git(levels, 0) is None,
{
    lemma_nearest(levels, 0, i);
}

proof fn lemma_nearest(levels: Seq<DotGit>, from: nat, i: nat)
    requires
        from <= i <= levels.len(),
        forall|j: int| from <= j < i ==> #[trigger] levels[j] == DotGit::Missing,
    ensures
        nearest_dot_git(levels, from) == nearest_dot_git(levels, i),
    decreases i - from,
{
    if from < i {
        assert(levels[from as int] == DotGit::Missing);
        lemma_nearest(levels, from + 1, i);
    }
}

/// A `.git` file points to the path that it names, without the white space around it; a
/// file that names none points nowhere.
pub proof fn law_git_file_points_to_its_path(path: Seq<char>, other: Seq<char>)
    requires
        path.len() > 0,
        !text::white_space(path[0]),
        !text::white_space(path.last()),
    ensures
        gitdir_target("gitdir: "@ + path) == Some(path),
        gitdir_target("gitdir:"@ + path) == Some(path),
        !text::contains(other, "gitdir:"@) ==> gitdir_target(other) is None,
{
    reveal_strlit("gitdir: ");
    reveal_strlit("gitdir:");
    let k = CharClass::White;
    let wide = "gitdir: "@ + path;
    let close = "gitdir:"@ + path;
    text::lemma_trim_same(wide, k);
    text::lemma_trim_same(close, k);
    assert(wide == "gitdir:"@ + (seq![' '] + path));
    text::lemma_begins("gitdir:"@, seq![' '] + path);
    text::lemma_begins("gitdir:"@, path);
    let rest = wide.skip(7);
    assert(rest == seq![' '] + path);
    assert(rest.drop_first() == path);
    assert(text::trim_start(path, k) == path);
    assert(text::trim_start(rest, k) == path);
    text::lemma_trim_same(path, k);
    assert(close.skip(7) == path);
    if !text::contains(other, "gitdir:"@) {
        text::law_trim_takes_the_ends_away(other, k);
        let (from, to) = choose|from: int, to: int|
            0 <= from <= to <= other.len() && #[trigger] other.subrange(from, to) == text::trim(
                other,
                k,
            );
        let t = text::trim(other, k);
        if text::starts_with(t, "gitdir:"@) {
            assert(other.subrange(from, from + 7) == t.take(7));
            assert(text::occurs_at(other, "gitdir:"@, from));
        }
    }
}

/// A path from the root stands for itself; any other comes behind the directory, with one
/// slash between the two whether or not the directory has one at its end.
pub proof fn law_relative_paths_come_behind_the_directory(base: Seq<char>, path: Seq<char>)
    ensures
        path.len() > 0 && path[0] == '/' ==> joined_path(base, path) == path,
        path.len() == 0 || path[0] != '/' ==> text::starts_with(joined_path(base, path), base)
            && text::ends_with(joined_path(base, path), path),
        (path.len() == 0 || path[0] != '/') && base.len() > 0 && base.last() != '/' ==> joined_path(
            base,
            path,
        ) == base + seq!['/'] + path && joined_path(base + seq!['/'], path) == joined_path(
            base,
            path,
        ),
        (path.len() == 0 || path[0] != '/') && base.len() == 0 ==> joined_path(base, path) == path,
{
    reveal_strlit("/");
    assert("/"@ == seq!['/']);
    if path.len() > 0 && path[0] == '/' {
        assert(path.take(1) == "/"@);
    } else {
        assert(!text::starts_with(path, "/"@)) by {
            if text::starts_with(path, "/"@) {
                assert(path.take(1)[0] == '/');
            }
        }
        let j = joined_path(base, path);
        assert(j.take(base.len() as int) == base);
        assert(j.skip(j.len() - path.len()) == path);
        assert((base + seq!['/']).last() == '/');
        if base.len() == 0 {
            assert(base + path == path);
        }
    }
}

/// The configuration of a linked checkout is looked for in its own directory first, then in
/// the common one, and two levels above last.
pub proof fn law_configs_are_looked_for_in_order(
    gitdir: Seq<char>,
    common: Seq<char>,
    above: Seq<char>,
)
    requires
        common.len() > 0,
        !text::white_space(common[0]),
        !text::white_space(common.last()),
    ensures
        linked_configs(gitdir, Some(common), Some(above)) == seq![
            joined_path(gitdir, "config"@),
            joined_path(joined_path(gitdir, common), "config"@),
            joined_path(above, "config"@),
        ],
        linked_configs(gitdir, Some(common + seq!['\n']), None) == seq![
            joined_path(gitdir, "config"@),
            joined_path(joined_path(gitdir, common), "config"@),
        ],
        linked_configs(gitdir, None, Some(above)) == seq![
            joined_path(gitdir, "config"@),
            joined_path(above, "config"@),
        ],
        linked_configs(gitdir, None, None) == seq![joined_path(gitdir, "config"@)],
{
    let k = CharClass::White;
    text::lemma_trim_same(common, k);
    let ended = common + seq!['\n'];
    lemma_trim_without_last(ended, k);
    assert(ended.drop_last() == common);
}

/// The slug without every `.git` behind it is the slug.
proof fn lemma_without_git(slug: Seq<char>)
    requires
        !text::ends_with(slug, ".git"@),
    ensures
        without_git(slug) == slug,
        without_git(slug + ".git"@) == slug,
{
    reveal_strlit(".git");
    let s = slug + ".git"@;
    text::lemma_ends(slug, ".git"@);
    assert(s.take(s.len() - 4) == slug);
    assert(without_git(s) == without_git(s.take(s.len() - ".git"@.len())));
}

proof fn lemma_slug_behind(prefix: Seq<char>, slug: Seq<char>)
    requires
        slug.contains('/'),
        !text::ends_with(slug, ".git"@),
    ensures
        slug_after(prefix + slug, prefix) == Some(slug),
        slug_after(prefix + (slug + ".git"@), prefix) == Some(slug),
{
    lemma_without_git(slug);
    text::lemma_begins(prefix, slug);
    text::lemma_begins(prefix, slug + ".git"@);
    assert((prefix + slug).skip(prefix.len() as int) == slug);
    assert((prefix + (slug + ".git"@)).skip(prefix.len() as int) == slug + ".git"@);
}

proof fn lemma_other_prefix(prefix: Seq<char>, other: Seq<char>, rest: Seq<char>, i: int)
    requires
        0 <= i < prefix.len(),
        i < other.len(),
        prefix[i] != other[i],
    ensures
        !text::starts_with(prefix + rest, other),
{
    let url = prefix + rest;
    if text::starts_with(url, other) {
        assert(url.take(other.len() as int)[i] == url[i]);
    }
}

/// A remote's address names its repository in each of the four forms, with or without `.git`
/// at its end.
pub proof fn law_addresses_name_their_repository(slug: Seq<char>, end: Seq<char>)
    requires
        slug.contains('/'),
        !text::ends_with(slug, ".git"@),
        end == ".git"@ || end.len() == 0,
    ensures
        remote_slug("git@github.com:"@ + (slug + end)) == Some(slug),
        remote_slug("ssh://git@github.com/"@ + (slug + end)) == Some(slug),
        remote_slug("https://github.com/"@ + (slug + end)) == Some(slug),
        remote_slug("http://github.com/"@ + (slug + end)) == Some(slug),
{
    let rest = slug + end;
    if end.len() == 0 {
        assert(rest == slug);
    }
    lemma_slug_behind("git@github.com:"@, slug);
    lemma_slug_behind("ssh://git@github.com/"@, slug);
    lemma_slug_behind("https://github.com/"@, slug);
    lemma_slug_behind("http://github.com/"@, slug);
    reveal_strlit("git@github.com:");
    reveal_strlit("ssh://git@github.com/");
    reveal_strlit("https://github.com/");
    reveal_strlit("http://github.com/");
    lemma_other_prefix("ssh://git@github.com/"@, "git@github.com:"@, rest, 0);
    lemma_other_prefix("https://github.com/"@, "git@github.com:"@, rest, 0);
    lemma_other_prefix("http://github.com/"@, "git@github.com:"@, rest, 0);
    lemma_other_prefix("https://github.com/"@, "ssh://git@github.com/"@, rest, 0);
    lemma_other_prefix("http://github.com/"@, "ssh://git@github.com/"@, rest, 0);
    lemma_other_prefix("http://github.com/"@, "https://github.com/"@, rest, 4);
    text::lemma_begins("https://github.com/"@, rest);
}

/// An address of another host names no repository.
pub proof fn law_other_hosts_name_no_repository(url: Seq<char>)
    requires
        !text::contains(url, "github.com"@),
    ensures
        remote_slug(url) is None,
{
    reveal_strlit("github.com");
    reveal_strlit("git@github.com:");
    reveal_strlit("ssh://git@github.com/");
    reveal_strlit("https://github.com/");
    reveal_strlit("http://github.com/");
    assert("git@github.com:"@.subrange(4, 14) == "github.com"@);
    assert("ssh://git@github.com/"@.subrange(10, 20) == "github.com"@);
    assert("https://github.com/"@.subrange(8, 18) == "github.com"@);
    assert("http://github.com/"@.subrange(7, 17) == "github.com"@);
    lemma_host_in("git@github.com:"@, url, 4);
    lemma_host_in("ssh://git@github.com/"@, url, 10);
    lemma_host_in("https://github.com/"@, url, 8);
    lemma_host_in("http://github.com/"@, url, 7);
}

proof fn lemma_host_in(prefix: Seq<char>, url: Seq<char>, i: int)
    requires
        text::occurs_at(prefix, "github.com"@, i),
        !text::contains(url, "github.com"@),
    ensures
        !text::starts_with(url, prefix),
{
    let n = "github.com"@.len();
    if text::starts_with(url, prefix) {
        assert(url.subrange(i, i + n) == prefix.subrange(i, i + n)) by {
            assert(url.take(prefix.len() as int).subrange(i, i + n) == url.subrange(i, i + n));
        }
        assert(text::occurs_at(url, "github.com"@, i));
    }
}

/// A section is about the remote that it names, in either form; another section is about
/// none.
pub proof fn law_section_names_its_remote(name: Seq<char>, other: Seq<char>)
    requires
        name.len() > 0,
        !text::white_space(name[0]),
        !text::white_space(name.last()),
        forall|i: int| 0 <= i < name.len() ==> #[trigger] name[i] != '"',
    ensures
        section_remote("remote \""@ + name + "\""@) == Some(name),
        section_remote("remote."@ + name) == Some(name),
        !text::contains(other, "remote"@) ==> section_remote(other) is None,
{
    let k = CharClass::White;
    reveal_strlit("remote \"");
    reveal_strlit("remote.");
    reveal_strlit("remote");
    reveal_strlit("\"");
    text::lemma_trim_same(name, k);
    let dotted = "remote."@ + name;
    text::lemma_trim_same(dotted, k);
    text::lemma_begins("remote."@, name);
    assert(dotted.skip(7) == name);
    let quoted = "remote \""@ + name + "\""@;
    text::lemma_trim_same(quoted, k);
    assert(!text::starts_with(quoted, "remote."@)) by {
        if text::starts_with(quoted, "remote."@) {
            assert(quoted.take(7)[6] == quoted[6]);
        }
    }
    assert(quoted.take(6) == "remote"@);
    let rest = quoted.skip(6);
    let open = seq!['"'] + name + seq!['"'];
    assert(rest == seq![' '] + open);
    assert(rest.drop_first() == open);
    assert(text::trim_start(open, k) == open);
    assert(text::trim_start(rest, k) == open);
    let inner = open.skip(1);
    assert(inner == name + seq!['"']);
    lemma_quote_ends(inner, 0, name.len());
    assert(inner.take(name.len() as int) == name);
    if !text::contains(other, "remote"@) {
        text::law_trim_takes_the_ends_away(other, k);
        let (from, to) = choose|from: int, to: int|
            0 <= from <= to <= other.len() && #[trigger] other.subrange(from, to) == text::trim(
                other,
                k,
            );
        let t = text::trim(other, k);
        if text::starts_with(t, "remote"@) || text::starts_with(t, "remote."@) {
            assert("remote."@.take(6) == "remote"@);
            assert(text::starts_with(t, "remote."@) ==> t.take(7).take(6) == t.take(6));
            assert(t.take(6) == "remote"@);
            assert(other.subrange(from, from + 6) == t.take(6));
            assert(text::occurs_at(other, "remote"@, from));
        }
    }
}

proof fn lemma_quote_ends(s: Seq<char>, from: nat, n: nat)
    requires
        from <= n < s.len(),
        s[n as int] == '"',
        forall|i: int| from <= i < n ==> #[trigger] s[i] != '"',
    ensures
        text::index_from(s, CharClass::Just('"'), from) == Some(n),
    decreases n - from,
{
    if from < n {
        assert(s[from as int] != '"');
        lemma_quote_ends(s, from + 1, n);
    }
}

/// A value is read without the comment behind it, and as it is where there is none.
pub proof fn law_value_ends_at_its_comment(value: Seq<char>, mark: char, comment: Seq<char>)
    requires
        value.len() > 0,
        !text::white_space(value[0]),
        !text::white_space(value.last()),
        forall|i: int| 0 <= i < value.len() ==> #[trigger] value[i] != '#' && value[i] != ';',
        mark == '#' || mark == ';',
        comment.len() > 0 ==> !text::white_space(comment.last()),
    ensures
        config_value(value) == value,
        config_value(value + seq![' ', mark] + comment) == value,
{
    let k = CharClass::White;
    text::lemma_trim_same(value, k);
    lemma_no_comment(value, value, 0);
    let all = value + seq![' ', mark] + comment;
    assert(all.last() == if comment.len() > 0 {
        comment.last()
    } else {
        mark
    });
    text::lemma_trim_same(all, k);
    let n = value.len();
    lemma_comment_from(all, 0, n + 1);
    let left = all.take(n as int + 1);
    assert(left == value + seq![' ']);
    assert(left.drop_last() == value);
    assert(text::trim_end(value, k) == value);
    assert(text::trim_end(left, k) == value);
}

proof fn lemma_no_comment(v: Seq<char>, whole: Seq<char>, from: nat)
    requires
        from <= v.len(),
        v == whole,
        forall|i: int| 0 <= i < v.len() ==> #[trigger] v[i] != '#' && v[i] != ';',
    ensures
        before_comment(v, from) == v,
    decreases v.len() - from,
{
    if from < v.len() {
        assert(v[from as int] != '#');
        lemma_no_comment(v, whole, from + 1);
    }
}

proof fn lemma_comment_from(v: Seq<char>, from: nat, n: nat)
    requires
        from <= n < v.len(),
        comment_at(v, n as int),
        forall|i: int| 0 <= i < n ==> #[trigger] v[i] != '#' && v[i] != ';',
    ensures
        before_comment(v, from) == text::trim_end(v.take(n as int), CharClass::White),
    decreases n - from,
{
    if from < n {
        assert(v[from as int] != '#');
        lemma_comment_from(v, from + 1, n);
    }
}

/// The address in a remote's section is read with the remote's name, behind what was read
/// before.
pub proof fn law_remote_section_is_read(
    before: Seq<Seq<char>>,
    name: Seq<char>,
    url: Seq<char>,
)
    requires
        name.len() > 0,
        !text::white_space(name[0]),
        !text::white_space(name.last()),
        forall|i: int| 0 <= i < name.len() ==> #[trigger] name[i] != '"',
        url.len() > 0,
        !text::white_space(url[0]),
        !text::white_space(url.last()),
        forall|i: int| 0 <= i < url.len() ==> #[trigger] url[i] != '#' && url[i] != ';',
    ensures
        scan(before.push("[remote \""@ + name + "\"]"@).push("url = "@ + url)).found == scan(
            before,
        ).found.push((name, url)),
{
    let header = "[remote \""@ + name + "\"]"@;
    let entry = "url = "@ + url;
    let one = before.push(header);
    let two = one.push(entry);
    assert(one.drop_last() == before && two.drop_last() == one);
    lemma_header_line(scan(before), name);
    lemma_url_line(scan(one), name, url);
}

proof fn lemma_header_line(st: ConfigScan, name: Seq<char>)
    requires
        name.len() > 0,
        !text::white_space(name[0]),
        !text::white_space(name.last()),
        forall|i: int| 0 <= i < name.len() ==> #[trigger] name[i] != '"',
    ensures
        scan_line(st, "[remote \""@ + name + "\"]"@) == (ConfigScan { remote: Some(name), ..st }),
{
    let header = "[remote \""@ + name + "\"]"@;
    reveal_strlit("[remote \"");
    reveal_strlit("remote \"");
    reveal_strlit("\"]");
    reveal_strlit("\"");
    text::lemma_trim_same(header, CharClass::White);
    assert(header[0] == '[' && header.last() == ']');
    assert(header.subrange(1, header.len() - 1) == "remote \""@ + name + "\""@);
    law_section_names_its_remote(name, seq![]);
}

proof fn lemma_url_line(st: ConfigScan, name: Seq<char>, url: Seq<char>)
    requires
        st.remote == Some(name),
        url.len() > 0,
        !text::white_space(url[0]),
        !text::white_space(url.last()),
        forall|i: int| 0 <= i < url.len() ==> #[trigger] url[i] != '#' && url[i] != ';',
    ensures
        scan_line(st, "url = "@ + url) == (ConfigScan { found: st.found.push((name, url)), ..st }),
{
    let entry = "url = "@ + url;
    let k = CharClass::White;
    reveal_strlit("url = ");
    text::lemma_trim_same(entry, k);
    assert(entry[0] == 'u');
    assert(text::index(entry, CharClass::Just('=')) == Some(4nat)) by {
        reveal_with_fuel(text::index_from, 6);
    }
    assert(text::trim(entry.take(4), k) == "url"@) by {
        reveal_strlit("url");
        let left = entry.take(4);
        assert(left.drop_last() == "url"@);
        assert(text::trim_start(left, k) == left);
        assert(text::trim_end("url"@, k) == "url"@);
        assert(text::trim_end(left, k) == "url"@);
    }
    assert(config_value(entry.skip(5)) == url) by {
        let right = entry.skip(5);
        assert(right == seq![' '] + url);
        assert(right.drop_first() == url);
        text::lemma_trim_same(url, k);
        assert(text::trim_start(url, k) == url);
        assert(text::trim_start(right, k) == url);
        assert(text::trim(right, k) == url);
        law_value_ends_at_its_comment(url, '#', seq![]);
    }
}

/// Of several remotes on GitHub the first one called `origin` is chosen, and where none is
/// called so, the first of all.
pub proof fn law_first_of_its_kind_is_chosen(remotes: Seq<(Seq<char>, Seq<char>)>, i: int)
    requires
        on_github(remotes, i),
        remotes[i].0 == "origin"@ ==> forall|j: int|
            0 <= j < i && #[trigger] on_github(remotes, j) ==> remotes[j].0 != "origin"@,
        remotes[i].0 != "origin"@ ==> !has_origin(remotes) && forall|j: int|
            0 <= j < i ==> !#[trigger] on_github(remotes, j),
    ensures
        preferred_slug(remotes) == remote_slug(remotes[i].1),
    decreases remotes.len(),
{
    let before = remotes.drop_last();
    let last = remotes.len() - 1;
    assert forall|j: int| 0 <= j < last implies #[trigger] on_github(before, j) == on_github(
        remotes,
        j,
    ) by {
        assert(before[j] == remotes[j]);
    }
    if i < last {
        assert(before[i] == remotes[i]);
        assert(on_github(before, i));
        if remotes[i].0 == "origin"@ {
            assert(has_origin(before));
            assert forall|j: int| 0 <= j < i && #[trigger] on_github(before, j) implies before[j].0
                != "origin"@ by {
                assert(on_github(remotes, j));
            }
        } else {
            assert(!has_origin(before)) by {
                if has_origin(before) {
                    let j = choose|j: int| #[trigger] on_github(before, j) && before[j].0
                        == "origin"@;
                    assert(on_github(remotes, j));
                }
            }
            assert forall|j: int| 0 <= j < i implies !#[trigger] on_github(before, j) by {
                assert(!on_github(remotes, j));
            }
            assert(on_github(remotes, last) ==> remotes[last].0 != "origin"@);
        }
        law_first_of_its_kind_is_chosen(before, i);
        law_slug_iff_remote_on_github(before);
    } else {
        assert(!has_origin(before)) by {
            if has_origin(before) {
                let j = choose|j: int| #[trigger] on_github(before, j) && before[j].0 == "origin"@;
                assert(on_github(remotes, j));
            }
        }
        if remotes[i].0 != "origin"@ {
            law_slug_iff_remote_on_github(before);
            assert(preferred_slug(before) is None) by {
                if exists|j: int| on_github(before, j) {
                    let j = choose|j: int| on_github(before, j);
                    assert(on_github(remotes, j));
                }
            }
        }
    }
}

/// Remotes are seen by their names and addresses, in their order.
pub proof fn law_remotes_are_seen_in_order(v: Seq<(String, String)>, i: int)
    ensures
        pairs(v).len() == v.len(),
        0 <= i < v.len() ==> pairs(v)[i].0 == v[i].0@ && pairs(v)[i].1 == v[i].1@,
{
}

} // verus!
