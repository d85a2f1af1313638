//! What a workspace holds, so that it can be told whether anything in it was changed.

use crate::text;
use crate::text::CharClass;
use vstd::prelude::*;
use vstd::slice::slice_subrange;
use vstd::string::*;

verus! {

/// The directories that are left out: what stands there is made, not written.
pub open spec fn skipped_dirs() -> Seq<Seq<char>> {
    seq![
        ".git"@,
        "target"@,
        "node_modules"@,
        ".next"@,
        ".pytest_cache"@,
        ".mypy_cache"@,
        ".ruff_cache"@,
        ".tox"@,
        ".nox"@,
        ".cache"@,
        ".parcel-cache"@,
        ".turbo"@,
        ".svelte-kit"@,
        ".vite"@,
        ".gradle"@,
        "coverage"@,
        "__pycache__"@,
        ".venv"@,
        "venv"@,
    ]
}

fn skipped_dir_list() -> (r: Vec<String>)
    ensures
        text::texts(r@) == skipped_dirs(),
{
    let mut v: Vec<String> = Vec::new();
    v.push(".git".to_owned());
    v.push("target".to_owned());
    v.push("node_modules".to_owned());
    v.push(".next".to_owned());
    v.push(".pytest_cache".to_owned());
    v.push(".mypy_cache".to_owned());
    v.push(".ruff_cache".to_owned());
    v.push(".tox".to_owned());
    v.push(".nox".to_owned());
    v.push(".cache".to_owned());
    v.push(".parcel-cache".to_owned());
    v.push(".turbo".to_owned());
    v.push(".svelte-kit".to_owned());
    v.push(".vite".to_owned());
    v.push(".gradle".to_owned());
    v.push("coverage".to_owned());
    v.push("__pycache__".to_owned());
    v.push(".venv".to_owned());
    v.push("venv".to_owned());
    assert(text::texts(v@) == skipped_dirs());
    v
}

/// Whether a directory is left out.
pub fn should_skip_snapshot_dir(name: &str) -> (r: bool)
    ensures
        r == skipped_dirs().contains(name@),
{
    let list = skipped_dir_list();
    text::list_holds(&list, name)
}

/// Whether a file is left out: what the system or the server itself writes.
pub open spec fn skipped_file(name: Seq<char>) -> bool {
    ||| name == ".DS_Store"@
    ||| name == "tasks.db"@
    ||| text::starts_with(name, "tasks.db-"@)
    ||| name == "events.db"@
    ||| text::starts_with(name, "events.db-"@)
}

/// Whether a file is left out.
pub fn should_skip_snapshot_file(name: &str) -> (r: bool)
    ensures
        r == skipped_file(name@),
{
    text::str_eq(name, ".DS_Store") || text::str_eq(name, "tasks.db") || text::str_starts_with(
        name,
        "tasks.db-",
    ) || text::str_eq(name, "events.db") || text::str_starts_with(name, "events.db-")
}

/// The names among the pieces of a path: what is empty, or stands for the directory
/// itself, is none.
pub open spec fn names(pieces: Seq<Seq<char>>) -> Seq<Seq<char>>
    decreases pieces.len(),
{
    if pieces.len() == 0 {
        seq![]
    } else {
        let before = names(pieces.drop_last());
        if pieces.last() == ""@ || pieces.last() == "."@ {
            before
        } else {
            before.push(pieces.last())
        }
    }
}

/// What a path begins with: the root of the file system, the directory itself, or
/// neither.
pub open spec fn lead(path: Seq<char>) -> Seq<Seq<char>> {
    if text::starts_with(path, "/"@) {
        seq!["/"@]
    } else if text::split(path, CharClass::Just('/'))[0] == "."@ {
        seq!["."@]
    } else {
        seq![]
    }
}

/// The components of a path. Repeated separators, one at the end, and a `.` that is not
/// the beginning make no difference.
pub open spec fn components(path: Seq<char>) -> Seq<Seq<char>> {
    lead(path) + names(text::split(path, CharClass::Just('/')))
}

/// The path with these components.
pub open spec fn path_of(parts: Seq<Seq<char>>) -> Seq<char> {
    if parts.len() > 0 && parts[0] == "/"@ {
        "/"@ + text::join(parts.skip(1), "/"@)
    } else {
        text::join(parts, "/"@)
    }
}

/// Whether the components of `root` are the first ones of `path`.
pub open spec fn lies_in(root: Seq<char>, path: Seq<char>) -> bool {
    let n = components(root).len();
    n <= components(path).len() && components(path).take(n as int) == components(root)
}

/// A path as seen from the workspace: what remains of its components behind those of
/// the workspace.
pub open spec fn relative(root: Seq<char>, path: Seq<char>) -> Result<Seq<char>, Seq<char>> {
    if lies_in(root, path) {
        Ok(path_of(components(path).skip(components(root).len() as int)))
    } else {
        Err("failed to normalize "@ + path + ": prefix not found"@)
    }
}

/// Whether a piece of a path holds no separator.
spec fn plain(piece: Seq<char>) -> bool {
    forall|i: int| 0 <= i < piece.len() ==> piece[i] != '/'
}

/// Whether a piece of a path is a name.
spec fn is_name(piece: Seq<char>) -> bool {
    piece != ""@ && piece != "."@ && plain(piece)
}

proof fn lemma_pieces_are_plain(s: Seq<char>)
    ensures
        forall|j: int|
            0 <= j < text::split(s, CharClass::Just('/')).len() ==> plain(
                #[trigger] text::split(s, CharClass::Just('/'))[j],
            ),
    decreases s.len(),
{
    if s.len() > 0 {
        lemma_pieces_are_plain(s.drop_last());
        text::lemma_split_nonempty(s.drop_last(), CharClass::Just('/'));
    }
}

proof fn lemma_plain_is_one_piece(s: Seq<char>)
    requires
        plain(s),
    ensures
        text::split(s, CharClass::Just('/')) == seq![s],
    decreases s.len(),
{
    if s.len() > 0 {
        lemma_plain_is_one_piece(s.drop_last());
        assert(s[s.len() - 1] != '/');
        assert(s.drop_last().push(s.last()) == s);
        assert(seq![s.drop_last()].drop_last() == Seq::<Seq<char>>::empty());
        assert(Seq::<Seq<char>>::empty().push(s) == seq![s]);
    } else {
        assert(s == Seq::<char>::empty());
    }
}

proof fn lemma_split_joined(parts: Seq<Seq<char>>)
    requires
        parts.len() > 0,
        forall|j: int| 0 <= j < parts.len() ==> plain(#[trigger] parts[j]),
    ensures
        text::split(text::join(parts, "/"@), CharClass::Just('/')) == parts,
    decreases parts.len(),
{
    let k = CharClass::Just('/');
    reveal_strlit("/");
    if parts.len() == 1 {
        lemma_plain_is_one_piece(parts[0]);
        assert(seq![parts[0]] == parts);
    } else {
        lemma_split_joined(parts.drop_last());
        let before = text::join(parts.drop_last(), "/"@);
        let a = before + "/"@;
        assert(plain(parts[parts.len() - 1]));
        lemma_plain_is_one_piece(parts.last());
        text::lemma_split_concat(a, parts.last(), k);
        assert(a.drop_last() == before);
        assert(text::split(a, k).drop_last() == parts.drop_last());
        assert(parts.drop_last() + seq![parts.last()] == parts);
    }
}

proof fn lemma_names_are_names(pieces: Seq<Seq<char>>)
    requires
        forall|j: int| 0 <= j < pieces.len() ==> plain(#[trigger] pieces[j]),
    ensures
        forall|j: int| 0 <= j < names(pieces).len() ==> is_name(#[trigger] names(pieces)[j]),
    decreases pieces.len(),
{
    if pieces.len() > 0 {
        let before = names(pieces.drop_last());
        assert forall|j: int| 0 <= j < pieces.drop_last().len() implies plain(
            #[trigger] pieces.drop_last()[j],
        ) by {
            assert(plain(pieces[j]));
        }
        lemma_names_are_names(pieces.drop_last());
        assert(plain(pieces[pieces.len() - 1]));
        assert forall|j: int| 0 <= j < names(pieces).len() implies is_name(
            #[trigger] names(pieces)[j],
        ) by {
            if j < before.len() {
                assert(is_name(before[j]));
                assert(names(pieces)[j] == before[j]);
            }
        }
    }
}

proof fn lemma_names_stay(parts: Seq<Seq<char>>)
    requires
        forall|j: int| 0 <= j < parts.len() ==> is_name(#[trigger] parts[j]),
    ensures
        names(parts) == parts,
    decreases parts.len(),
{
    if parts.len() > 0 {
        lemma_names_stay(parts.drop_last());
        assert(is_name(parts[parts.len() - 1]));
        assert(parts.drop_last().push(parts.last()) == parts);
    }
}

proof fn lemma_names_behind(first: Seq<char>, rest: Seq<Seq<char>>)
    requires
        first == ""@ || first == "."@,
    ensures
        names(seq![first] + rest) == names(rest),
    decreases rest.len(),
{
    let all = seq![first] + rest;
    reveal_with_fuel(names, 3);
    if rest.len() == 0 {
        assert(rest == Seq::<Seq<char>>::empty());
        assert(all.drop_last() == Seq::<Seq<char>>::empty());
        assert(all.last() == first);
    } else {
        lemma_names_behind(first, rest.drop_last());
        assert(all.drop_last() == seq![first] + rest.drop_last());
        assert(all.last() == rest.last());
    }
}

/// A path is made of its components: the one that is written for them has them again.
proof fn lemma_path_has_its_components(lead_part: Seq<Seq<char>>, rest: Seq<Seq<char>>)
    requires
        lead_part.len() == 0 || lead_part == seq!["/"@] || lead_part == seq!["."@],
        forall|j: int| 0 <= j < rest.len() ==> is_name(#[trigger] rest[j]),
    ensures
        components(path_of(lead_part + rest)) == lead_part + rest,
{
    let k = CharClass::Just('/');
    let parts = lead_part + rest;
    let path = path_of(parts);
    reveal_strlit("/");
    reveal_strlit(".");
    reveal_strlit("");
    assert(""@ == Seq::<char>::empty());
    lemma_names_stay(rest);
    if lead_part == seq!["/"@] {
        let after = text::join(rest, "/"@);
        assert(parts.skip(1) == rest);
        assert(path == "/"@ + after);
        text::lemma_split_concat("/"@, after, k);
        assert("/"@.drop_last() == Seq::<char>::empty());
        reveal_with_fuel(text::split, 3);
        assert(text::split("/"@, k) == seq![""@].push(""@));
        assert(text::split("/"@, k).drop_last() == seq![""@]);
        if rest.len() == 0 {
            assert(after == Seq::<char>::empty());
            assert(text::split(after, k) == seq![""@] + Seq::<Seq<char>>::empty());
            lemma_names_behind(""@, Seq::empty());
        } else {
            lemma_split_joined(rest);
        }
        lemma_names_behind(""@, text::split(after, k));
        assert(path.subrange(0, 1) == "/"@);
        assert(text::starts_with(path, "/"@));
    } else if parts.len() == 0 {
        assert(path == Seq::<char>::empty());
        assert(text::split(path, k) == seq![""@] + Seq::<Seq<char>>::empty());
        lemma_names_behind(""@, Seq::empty());
        assert(!text::starts_with(path, "/"@));
    } else {
        assert(parts[0] != "/"@) by {
            if lead_part.len() == 0 {
                assert(is_name(rest[0]));
                assert("/"@[0] == '/');
            }
        }
        assert forall|j: int| 0 <= j < parts.len() implies plain(#[trigger] parts[j]) by {
            if lead_part.len() == 0 {
                assert(is_name(rest[j]));
            } else if j > 0 {
                assert(is_name(rest[j - 1]));
            }
        }
        lemma_split_joined(parts);
        assert(text::split(path, k)[0] == parts[0]);
        assert(!text::starts_with(path, "/"@)) by {
            if text::starts_with(path, "/"@) {
                let b = path.skip(1);
                assert(path == "/"@ + b);
                text::lemma_split_concat("/"@, b, k);
                assert("/"@.drop_last() == Seq::<char>::empty());
                reveal_with_fuel(text::split, 3);
                assert(text::split("/"@, k) == seq![""@].push(""@));
                assert(text::split(path, k)[0] == ""@);
                if lead_part.len() == 0 {
                    assert(is_name(rest[0]));
                }
            }
        }
        if lead_part.len() == 0 {
            assert(parts == rest);
            assert(is_name(rest[0]));
        } else {
            lemma_names_behind("."@, rest);
        }
    }
}

/// The path of a file as seen from the workspace has, behind the components of the
/// workspace, those of the file. So no two files are taken for one.
pub proof fn law_relative_path_keeps_the_components(root: Seq<char>, path: Seq<char>)
    requires
        lies_in(root, path),
    ensures
        relative(root, path) is Ok,
        components(root) + components(relative(root, path)->Ok_0) == components(path),
{
    let k = CharClass::Just('/');
    let all = components(path);
    let n = components(root).len() as int;
    let left = all.skip(n);
    let behind = names(text::split(path, k));
    lemma_pieces_are_plain(path);
    lemma_names_are_names(text::split(path, k));
    if n == 0 {
        assert(left == lead(path) + behind);
        lemma_path_has_its_components(lead(path), behind);
    } else {
        let d = n - lead(path).len() as int;
        let rest = behind.skip(d);
        assert(left == rest);
        assert forall|j: int| 0 <= j < rest.len() implies is_name(#[trigger] rest[j]) by {
            assert(rest[j] == behind[j + d]);
        }
        lemma_path_has_its_components(Seq::empty(), rest);
        assert(Seq::<Seq<char>>::empty() + rest == rest);
    }
    assert(all.take(n) + left == all);
}

/// The view of a result.
pub open spec fn path_result(r: Result<String, String>) -> Result<Seq<char>, Seq<char>> {
    match r {
        Ok(p) => Ok(p@),
        Err(e) => Err(e@),
    }
}

fn component_list(path: &str) -> (r: Vec<String>)
    ensures
        text::texts(r@) == components(path@),
{
    let chars = text::chars_of(path);
    let parts = text::pieces(chars.as_slice(), CharClass::Just('/'));
    let ghost all = text::split(path@, CharClass::Just('/'));
    assert(all == text::rows(parts@));
    let mut out: Vec<String> = Vec::new();
    let first = text::text_of(parts[0].as_slice());
    assert(first@ == all[0]);
    if text::str_starts_with(path, "/") {
        out.push("/".to_owned());
    } else if text::str_eq(first.as_str(), ".") {
        out.push(".".to_owned());
    }
    assert(text::texts(out@) == lead(path@));
    let mut i: usize = 0;
    assert(all.take(0) == Seq::<Seq<char>>::empty());
    assert(lead(path@) + names(all.take(0)) == lead(path@));
    while i < parts.len()
        invariant
            i <= parts.len(),
            all == text::rows(parts@),
            text::texts(out@) == lead(path@) + names(all.take(i as int)),
        decreases parts.len() - i,
    {
        let part = text::text_of(parts[i].as_slice());
        assert(part@ == all[i as int]);
        assert(all.take(i + 1).drop_last() == all.take(i as int));
        assert(all.take(i + 1).last() == all[i as int]);
        if !text::str_eq(part.as_str(), "") && !text::str_eq(part.as_str(), ".") {
            let ghost before = out@;
            let ghost name = part@;
            out.push(part);
            assert(text::texts(out@) == text::texts(before).push(name));
            assert(lead(path@) + names(all.take(i as int)).push(name) == (lead(path@) + names(
                all.take(i as int),
            )).push(name));
        }
        i += 1;
    }
    assert(all.take(i as int) == all);
    out
}

/// A path as seen from the workspace.
pub fn relative_snapshot_path(root: &str, path: &str) -> (r: Result<String, String>)
    ensures
        path_result(r) == relative(root@, path@),
{
    let below = component_list(root);
    let parts = component_list(path);
    let n: usize = below.len();
    let len: usize = parts.len();
    let ghost r_parts = components(root@);
    let ghost p_parts = components(path@);
    assert(r_parts.len() == n && p_parts.len() == len);
    let mut inside = n <= len;
    let mut i: usize = 0;
    while i < n && inside
        invariant
            i <= n,
            n == below.len(),
            len == parts.len(),
            r_parts == text::texts(below@),
            p_parts == text::texts(parts@),
            inside ==> n <= len && forall|j: int|
                0 <= j < i ==> p_parts[j] == #[trigger] r_parts[j],
            !inside ==> !(n <= len && p_parts.take(n as int) == r_parts),
        decreases n - i,
    {
        if !text::str_eq(below[i].as_str(), parts[i].as_str()) {
            inside = false;
            assert(r_parts[i as int] != p_parts[i as int]);
            assert(p_parts.take(n as int)[i as int] == p_parts[i as int]);
        }
        i += 1;
    }
    if inside {
        assert(p_parts.take(n as int) == r_parts);
        let rest = slice_subrange(parts.as_slice(), n, len);
        let ghost left = p_parts.skip(n as int);
        assert(text::texts(rest@) == left);
        if rest.len() > 0 && text::str_eq(rest[0].as_str(), "/") {
            assert(left[0] == rest@[0]@);
            let names = slice_subrange(rest, 1, rest.len());
            assert(text::texts(names@) == left.skip(1));
            let mut out = "/".to_owned();
            out.append(text::joined(names, "/").as_str());
            Ok(out)
        } else {
            assert(left.len() > 0 ==> left[0] == rest@[0]@);
            Ok(text::joined(rest, "/"))
        }
    } else {
        let mut e = "failed to normalize ".to_owned();
        e.append(path);
        e.append(": prefix not found");
        Err(e)
    }
}

/// By what a file or a link is told from another.
#[derive(Debug)]
pub enum EntryFingerprint {
    File { len: u64, hash: u64, mode: u32 },
    Symlink { target: String },
}

/// What an [`EntryFingerprint`] holds.
pub enum PrintView {
    File { len: u64, hash: u64, mode: u32 },
    Symlink { target: Seq<char> },
}

impl View for EntryFingerprint {
    type V = PrintView;

    open spec fn view(&self) -> PrintView {
        match self {
            EntryFingerprint::File { len, hash, mode } => PrintView::File {
                len: *len,
                hash: *hash,
                mode: *mode,
            },
            EntryFingerprint::Symlink { target } => PrintView::Symlink { target: target@ },
        }
    }
}

impl EntryFingerprint {
    fn copy(&self) -> (r: EntryFingerprint)
        ensures
            r@ == self@,
    {
        match self {
            EntryFingerprint::File { len, hash, mode } => EntryFingerprint::File {
                len: *len,
                hash: *hash,
                mode: *mode,
            },
            EntryFingerprint::Symlink { target } => EntryFingerprint::Symlink {
                target: target.clone(),
            },
        }
    }

    fn same(&self, other: &EntryFingerprint) -> (r: bool)
        ensures
            r == (self@ == other@),
    {
        match (self, other) {
            (
                EntryFingerprint::File { len, hash, mode },
                EntryFingerprint::File { len: l, hash: h, mode: m },
            ) => *len == *l && *hash == *h && *mode == *m,
            (
                EntryFingerprint::Symlink { target },
                EntryFingerprint::Symlink { target: t },
            ) => text::str_eq(target.as_str(), t.as_str()),
            _ => false,
        }
    }
}

/// Something found in a workspace. What is neither a file nor a link has no fingerprint.
#[derive(Debug)]
pub struct ScannedEntry {
    pub path: String,
    pub print: Option<EntryFingerprint>,
}

/// What a [`ScannedEntry`] holds.
pub struct ScannedView {
    pub path: Seq<char>,
    pub print: Option<PrintView>,
}

impl View for ScannedEntry {
    type V = ScannedView;

    open spec fn view(&self) -> ScannedView {
        ScannedView {
            path: self.path@,
            print: match self.print {
                Some(p) => Some(p@),
                None => None,
            },
        }
    }
}

/// The contents of a list of entries.
pub open spec fn scanned_views(v: Seq<ScannedEntry>) -> Seq<ScannedView> {
    Seq::new(v.len(), |i: int| v[i]@)
}

/// Whether an entry is left out: one of the directories on its way is, or its own name
/// is.
pub open spec fn left_out(path: Seq<char>) -> bool {
    let parts = text::split(path, CharClass::Just('/'));
    ||| skipped_file(parts.last())
    ||| exists|i: int|
        0 <= i < parts.len() - 1 && skipped_dirs().contains(#[trigger] parts[i])
}

fn is_left_out(path: &str) -> (r: bool)
    ensures
        r == left_out(path@),
{
    let chars = text::chars_of(path);
    let parts = text::pieces(chars.as_slice(), CharClass::Just('/'));
    let ghost all = text::split(path@, CharClass::Just('/'));
    assert(all == text::rows(parts@));
    let last: usize = parts.len() - 1;
    let name = text::text_of(parts[last].as_slice());
    assert(name@ == all.last());
    if should_skip_snapshot_file(name.as_str()) {
        return true;
    }
    let mut i: usize = 0;
    while i < last
        invariant
            i <= last,
            last == parts.len() - 1,
            all == text::rows(parts@),
            forall|j: int| 0 <= j < i ==> !skipped_dirs().contains(#[trigger] all[j]),
            all == text::split(path@, CharClass::Just('/')),
        decreases last - i,
    {
        let dir = text::text_of(parts[i].as_slice());
        assert(dir@ == all[i as int]);
        if should_skip_snapshot_dir(dir.as_str()) {
            return true;
        }
        i += 1;
    }
    false
}

/// What a workspace holds: the fingerprints of its files and links, by their paths as
/// seen from it. Fails at the first entry that does not lie in it.
pub open spec fn contents(root: Seq<char>, entries: Seq<ScannedView>) -> Result<
    Map<Seq<char>, PrintView>,
    Seq<char>,
>
    decreases entries.len(),
{
    if entries.len() == 0 {
        Ok(Map::empty())
    } else {
        match contents(root, entries.drop_last()) {
            Err(e) => Err(e),
            Ok(known) => match relative(root, entries.last().path) {
                Err(e) => Err(e),
                Ok(path) => Ok(
                    if left_out(path) || entries.last().print is None {
                        known
                    } else {
                        known.insert(path, entries.last().print->0)
                    },
                ),
            },
        }
    }
}

/// A file or a link, with its path.
#[derive(Debug)]
struct Recorded {
    path: String,
    print: EntryFingerprint,
}

/// What a list of files and links holds.
spec fn recorded(v: Seq<Recorded>) -> Map<Seq<char>, PrintView>
    decreases v.len(),
{
    if v.len() == 0 {
        Map::empty()
    } else {
        recorded(v.drop_last()).insert(v.last().path@, v.last().print@)
    }
}

/// Whether no path is there twice.
spec fn distinct(v: Seq<Recorded>) -> bool {
    forall|i: int, j: int|
        0 <= i < j < v.len() ==> (#[trigger] v[i]).path@ != (#[trigger] v[j]).path@
}

proof fn lemma_recorded(v: Seq<Recorded>)
    requires
        distinct(v),
    ensures
        forall|i: int|
            0 <= i < v.len() ==> recorded(v).contains_key((#[trigger] v[i]).path@) && recorded(
                v,
            )[v[i].path@] == v[i].print@,
        forall|k: Seq<char>| #[trigger]
            recorded(v).contains_key(k) ==> exists|i: int|
                0 <= i < v.len() && (#[trigger] v[i]).path@ == k,
    decreases v.len(),
{
    if v.len() > 0 {
        let w = v.drop_last();
        assert forall|i: int, j: int| 0 <= i < j < w.len() implies (#[trigger] w[i]).path@ != (
        #[trigger] w[j]).path@ by {
            assert(w[i] == v[i] && w[j] == v[j]);
        }
        lemma_recorded(w);
        assert forall|i: int| 0 <= i < v.len() implies recorded(v).contains_key(
            (#[trigger] v[i]).path@,
        ) && recorded(v)[v[i].path@] == v[i].print@ by {
            if i < v.len() - 1 {
                assert(w[i] == v[i]);
                assert(v[i].path@ != v[v.len() - 1].path@);
            }
        }
        assert forall|k: Seq<char>| #[trigger] recorded(v).contains_key(k) implies exists|i: int|
            0 <= i < v.len() && (#[trigger] v[i]).path@ == k by {
            if k != v.last().path@ {
                assert(recorded(w).contains_key(k));
                let i = choose|i: int| 0 <= i < w.len() && (#[trigger] w[i]).path@ == k;
                assert(v[i].path@ == k);
            } else {
                assert(v[v.len() - 1].path@ == k);
            }
        }
    }
}

/// What a workspace held at some time.
#[derive(Debug)]
pub struct WorkspaceSnapshot {
    files: Vec<Recorded>,
}

impl View for WorkspaceSnapshot {
    type V = Map<Seq<char>, PrintView>;

    closed spec fn view(&self) -> Map<Seq<char>, PrintView> {
        recorded(self.files@)
    }
}

/// The view of a result.
pub open spec fn snapshot_result(r: Result<WorkspaceSnapshot, String>) -> Result<
    Map<Seq<char>, PrintView>,
    Seq<char>,
> {
    match r {
        Ok(s) => Ok(s@),
        Err(e) => Err(e@),
    }
}

fn put(files: &mut Vec<Recorded>, path: String, print: EntryFingerprint)
    requires
        distinct(old(files)@),
    ensures
        distinct(final(files)@),
        recorded(final(files)@) == recorded(old(files)@).insert(path@, print@),
{
    let ghost before = files@;
    let mut i: usize = 0;
    while i < files.len()
        invariant
            i <= files.len(),
            files@ == before,
            before == old(files)@,
            distinct(before),
            forall|j: int| 0 <= j < i ==> (#[trigger] files@[j]).path@ != path@,
        decreases files.len() - i,
    {
        if text::str_eq(files[i].path.as_str(), path.as_str()) {
            let entry = Recorded { path, print };
            files.set(i, entry);
            proof {
                assert(files@ == before.update(i as int, entry));
                assert forall|a: int, b: int| 0 <= a < b < files@.len() implies (
                #[trigger] files@[a]).path@ != (#[trigger] files@[b]).path@ by {
                    assert(before[a].path@ != before[b].path@);
                }
                lemma_recorded(before);
                lemma_recorded(files@);
                lemma_replaced(before, files@, i as int);
            }
            return;
        }
        i += 1;
    }
    files.push(Recorded { path, print });
    proof {
        assert(files@.drop_last() == before);
    }
}

proof fn lemma_replaced(v: Seq<Recorded>, w: Seq<Recorded>, i: int)
    requires
        distinct(v),
        distinct(w),
        v.len() == w.len(),
        0 <= i < v.len(),
        w[i].path@ == v[i].path@,
        forall|j: int| 0 <= j < v.len() && j != i ==> #[trigger] w[j] == v[j],
    ensures
        recorded(w) == recorded(v).insert(w[i].path@, w[i].print@),
{
    lemma_recorded(v);
    lemma_recorded(w);
    let m = recorded(v).insert(w[i].path@, w[i].print@);
    assert forall|k: Seq<char>| recorded(w).contains_key(k) == m.contains_key(k) by {
        if recorded(w).contains_key(k) {
            let j = choose|j: int| 0 <= j < w.len() && (#[trigger] w[j]).path@ == k;
            assert(v[j].path@ == k);
        }
        if m.contains_key(k) && k != w[i].path@ {
            let j = choose|j: int| 0 <= j < v.len() && (#[trigger] v[j]).path@ == k;
            assert(w[j].path@ == k);
        }
    }
    assert forall|k: Seq<char>| recorded(w).contains_key(k) implies recorded(w)[k] == m[k] by {
        let j = choose|j: int| 0 <= j < w.len() && (#[trigger] w[j]).path@ == k;
        assert(v[j].path@ == k);
        if j != i {
            assert(w[j] == v[j]);
            if j < i {
                assert(v[j].path@ != v[i].path@);
            } else {
                assert(v[i].path@ != v[j].path@);
            }
        }
    }
    assert(recorded(w) =~= m);
}

fn print_of(files: &Vec<Recorded>, path: &str) -> (r: Option<usize>)
    ensures
        r matches Some(i) ==> i < files@.len() && files@[i as int].path@ == path@,
        r is None ==> forall|j: int| 0 <= j < files@.len() ==> (#[trigger] files@[j]).path@ != path@,
{
    let mut i: usize = 0;
    while i < files.len()
        invariant
            i <= files.len(),
            forall|j: int| 0 <= j < i ==> (#[trigger] files@[j]).path@ != path@,
        decreases files.len() - i,
    {
        if text::str_eq(files[i].path.as_str(), path) {
            return Some(i);
        }
        i += 1;
    }
    None
}

/// Whether everything in `a` is in `b` too.
fn all_in(a: &Vec<Recorded>, b: &Vec<Recorded>) -> (r: bool)
    requires
        distinct(a@),
        distinct(b@),
    ensures
        r == (forall|k: Seq<char>| #[trigger]
            recorded(a@).contains_key(k) ==> recorded(b@).contains_key(k) && recorded(b@)[k]
                == recorded(a@)[k]),
{
    proof {
        lemma_recorded(a@);
        lemma_recorded(b@);
    }
    let mut i: usize = 0;
    while i < a.len()
        invariant
            i <= a.len(),
            distinct(a@),
            distinct(b@),
            forall|j: int|
                0 <= j < i ==> recorded(b@).contains_key((#[trigger] a@[j]).path@) && recorded(
                    b@,
                )[a@[j].path@] == a@[j].print@,
        decreases a.len() - i,
    {
        proof {
            lemma_recorded(a@);
            lemma_recorded(b@);
        }
        let entry = &a[i];
        assert(recorded(a@).contains_key(a@[i as int].path@));
        match print_of(b, entry.path.as_str()) {
            Some(j) => {
                assert(b@[j as int].path@ == entry.path@);
                if !entry.print.same(&b[j].print) {
                    return false;
                }
            },
            None => {
                return false;
            },
        }
        i += 1;
    }
    true
}

impl WorkspaceSnapshot {
    #[verifier::type_invariant]
    spec fn valid(self) -> bool {
        distinct(self.files@)
    }

    /// What a workspace holds, by what was found in it.
    pub fn capture(root: &str, entries: &Vec<ScannedEntry>) -> (r: Result<
        WorkspaceSnapshot,
        String,
    >)
        ensures
            snapshot_result(r) == contents(root@, scanned_views(entries@)),
    {
        let ghost all = scanned_views(entries@);
        let mut files: Vec<Recorded> = Vec::new();
        let mut i: usize = 0;
        assert(all.take(0) == Seq::<ScannedView>::empty());
        while i < entries.len()
            invariant
                i <= entries.len(),
                all == scanned_views(entries@),
                distinct(files@),
                contents(root@, all.take(i as int)) == Ok::<Map<Seq<char>, PrintView>, Seq<char>>(
                    recorded(files@),
                ),
            decreases entries.len() - i,
        {
            let entry = &entries[i];
            proof {
                assert(all.take(i + 1).drop_last() == all.take(i as int));
                assert(all.take(i + 1).last() == entry@);
            }
            match relative_snapshot_path(root, entry.path.as_str()) {
                Err(e) => {
                    proof {
                        lemma_contents_error(root@, all, i + 1);
                    }
                    return Err(e);
                },
                Ok(path) => {
                    let skip = is_left_out(path.as_str());
                    if let Some(print) = &entry.print {
                        if !skip {
                            put(&mut files, path, print.copy());
                        }
                    }
                },
            }
            i += 1;
        }
        assert(all.take(i as int) == all);
        Ok(WorkspaceSnapshot { files })
    }

    /// Whether a workspace holds anything else than it did, by what was found in it.
    pub fn changed_since(&self, root: &str, entries: &Vec<ScannedEntry>) -> (r: Result<
        bool,
        String,
    >)
        ensures
            match contents(root@, scanned_views(entries@)) {
                Ok(now) => r matches Ok(changed) && changed == (self@ != now),
                Err(error) => r matches Err(e) && e@ == error,
            },
    {
        let now = match WorkspaceSnapshot::capture(root, entries) {
            Ok(s) => s,
            Err(e) => {
                return Err(e);
            },
        };
        proof {
            use_type_invariant(self);
            use_type_invariant(&now);
        }
        let kept = all_in(&self.files, &now.files);
        let nothing_new = all_in(&now.files, &self.files);
        proof {
            if kept && nothing_new {
                assert(self@ =~= now@);
            }
        }
        Ok(!(kept && nothing_new))
    }
}

proof fn lemma_contents_error(root: Seq<char>, entries: Seq<ScannedView>, n: int)
    requires
        0 <= n <= entries.len(),
        contents(root, entries.take(n)) is Err,
    ensures
        contents(root, entries) == contents(root, entries.take(n)),
    decreases entries.len() - n,
{
    if n < entries.len() {
        assert(entries.take(n + 1).drop_last() == entries.take(n));
        lemma_contents_error(root, entries, n + 1);
    } else {
        assert(entries.take(n) == entries);
    }
}

/// What stands in a directory that is left out does not count: a change there is no
/// change.
pub proof fn law_left_out_entries_do_not_count(
    root: Seq<char>,
    entries: Seq<ScannedView>,
    more: ScannedView,
)
    requires
        relative(root, more.path) matches Ok(path) && left_out(path),
    ensures
        contents(root, entries.push(more)) == contents(root, entries),
{
    assert(entries.push(more).drop_last() == entries);
}

/// A file or a link that counts is seen: another fingerprint gives other contents.
pub proof fn law_changed_entry_is_seen(
    root: Seq<char>,
    entries: Seq<ScannedView>,
    path: Seq<char>,
    before: PrintView,
    after: PrintView,
)
    requires
        contents(root, entries) is Ok,
        relative(root, path) matches Ok(p) && !left_out(p),
        before != after,
    ensures
        contents(root, entries.push(ScannedView { path, print: Some(before) })) != contents(
            root,
            entries.push(ScannedView { path, print: Some(after) }),
        ),
{
    let a = ScannedView { path, print: Some(before) };
    let b = ScannedView { path, print: Some(after) };
    assert(entries.push(a).drop_last() == entries);
    assert(entries.push(b).drop_last() == entries);
    let known = contents(root, entries)->Ok_0;
    let p = relative(root, path)->Ok_0;
    assert(known.insert(p, before)[p] == before);
    assert(known.insert(p, after)[p] == after);
}

/// The directories that are left out are those of version control, of builds, of caches and of
/// installed packages, and no others.
pub proof fn law_only_made_directories_are_left_out(name: Seq<char>)
    ensures
        skipped_dirs().contains(name) <==> name == ".git"@ || name == "target"@ || name
            == "node_modules"@ || name == ".next"@ || name == ".pytest_cache"@ || name
            == ".mypy_cache"@ || name == ".ruff_cache"@ || name == ".tox"@ || name == ".nox"@
            || name == ".cache"@ || name == ".parcel-cache"@ || name == ".turbo"@ || name
            == ".svelte-kit"@ || name == ".vite"@ || name == ".gradle"@ || name == "coverage"@
            || name == "__pycache__"@ || name == ".venv"@ || name == "venv"@,
{
    let l = skipped_dirs();
    assert(l[0] == ".git"@ && l[1] == "target"@ && l[2] == "node_modules"@ && l[3] == ".next"@);
    assert(l[4] == ".pytest_cache"@ && l[5] == ".mypy_cache"@ && l[6] == ".ruff_cache"@);
    assert(l[7] == ".tox"@ && l[8] == ".nox"@ && l[9] == ".cache"@ && l[10] == ".parcel-cache"@);
    assert(l[11] == ".turbo"@ && l[12] == ".svelte-kit"@ && l[13] == ".vite"@);
    assert(l[14] == ".gradle"@ && l[15] == "coverage"@ && l[16] == "__pycache__"@);
    assert(l[17] == ".venv"@ && l[18] == "venv"@);
}

/// The files that are left out are those of the system and the server's own stores, with what
/// stands beside a store under its name and a dash.
pub proof fn law_only_stores_are_left_out(name: Seq<char>, rest: Seq<char>)
    ensures
        skipped_file(".DS_Store"@),
        skipped_file("tasks.db"@),
        skipped_file("events.db"@),
        skipped_file("tasks.db-"@ + rest),
        skipped_file("events.db-"@ + rest),
        skipped_file(name) ==> name == ".DS_Store"@ || text::starts_with(name, "tasks.db"@)
            || text::starts_with(name, "events.db"@),
{
    text::lemma_begins("tasks.db-"@, rest);
    text::lemma_begins("events.db-"@, rest);
    reveal_strlit("tasks.db");
    reveal_strlit("tasks.db-");
    reveal_strlit("events.db");
    reveal_strlit("events.db-");
    assert("tasks.db-"@.take(8) == "tasks.db"@);
    assert("events.db-"@.take(9) == "events.db"@);
    if text::starts_with(name, "tasks.db-"@) {
        assert(name.take(9).take(8) == name.take(8));
    }
    if text::starts_with(name, "events.db-"@) {
        assert(name.take(10).take(9) == name.take(9));
    }
    assert("tasks.db"@.take(8) == "tasks.db"@);
    assert("events.db"@.take(9) == "events.db"@);
}

/// What stands below a directory that is left out is left out, however deep, and so is a file
/// that is; a path without any such name is not.
pub proof fn law_all_below_is_left_out(
    dirs: Seq<Seq<char>>,
    name: Seq<char>,
    i: int,
)
    requires
        forall|j: int, l: int|
            0 <= j < dirs.len() && 0 <= l < dirs[j].len() ==> #[trigger] dirs[j][l] != '/',
        forall|l: int| 0 <= l < name.len() ==> #[trigger] name[l] != '/',
    ensures
        0 <= i < dirs.len() && skipped_dirs().contains(dirs[i]) ==> left_out(
            text::join(dirs.push(name), "/"@),
        ),
        skipped_file(name) ==> left_out(text::join(dirs.push(name), "/"@)),
        !skipped_file(name) && (forall|j: int|
            0 <= j < dirs.len() ==> !skipped_dirs().contains(#[trigger] dirs[j])) ==> !left_out(
            text::join(dirs.push(name), "/"@),
        ),
{
    let parts = dirs.push(name);
    assert forall|j: int| 0 <= j < parts.len() implies plain(#[trigger] parts[j]) by {
        assert forall|l: int| 0 <= l < parts[j].len() implies parts[j][l] != '/' by {
            if j < dirs.len() {
                assert(dirs[j][l] != '/');
            } else {
                assert(name[l] != '/');
            }
        }
    }
    lemma_split_joined(parts);
    assert(parts.last() == name);
    if 0 <= i < dirs.len() {
        assert(parts[i] == dirs[i]);
    }
    if forall|j: int| 0 <= j < dirs.len() ==> !skipped_dirs().contains(#[trigger] dirs[j]) {
        assert forall|j: int| 0 <= j < parts.len() - 1 implies !skipped_dirs().contains(
            #[trigger] parts[j],
        ) by {
            assert(parts[j] == dirs[j]);
        }
    }
}

/// Names that are put together with slashes are the components of the path that results, from
/// the root or not.
pub proof fn law_path_has_the_names_it_is_made_of(parts: Seq<Seq<char>>)
    requires
        parts.len() > 0,
        forall|j: int|
            0 <= j < parts.len() ==> (#[trigger] parts[j]).len() > 0 && parts[j] != "."@
                && forall|l: int| 0 <= l < parts[j].len() ==> #[trigger] parts[j][l] != '/',
    ensures
        components(text::join(parts, "/"@)) == parts,
        components("/"@ + text::join(parts, "/"@)) == seq!["/"@] + parts,
        components("./"@ + text::join(parts, "/"@)) == seq!["."@] + parts,
{
    reveal_strlit("/");
    reveal_strlit(".");
    reveal_strlit("./");
    reveal_strlit("");
    assert forall|j: int| 0 <= j < parts.len() implies is_name(#[trigger] parts[j]) by {
        assert(parts[j].len() > 0);
    }
    lemma_path_has_its_components(seq![], parts);
    assert(Seq::<Seq<char>>::empty() + parts == parts);
    assert(parts[0] != "/"@) by {
        assert(parts[0].len() > 0 && parts[0][0] != '/');
    }
    lemma_path_has_its_components(seq!["/"@], parts);
    assert((seq!["/"@] + parts).skip(1) == parts);
    lemma_path_has_its_components(seq!["."@], parts);
    let dotted = seq!["."@] + parts;
    assert(dotted[0] == "."@ && "."@[0] != '/');
    lemma_join_behind("."@, parts);
    assert("."@ + "/"@ == "./"@);
}

proof fn lemma_join_behind(first: Seq<char>, rest: Seq<Seq<char>>)
    requires
        rest.len() > 0,
    ensures
        text::join(seq![first] + rest, "/"@) == first + "/"@ + text::join(rest, "/"@),
    decreases rest.len(),
{
    let all = seq![first] + rest;
    if rest.len() == 1 {
        assert(all.drop_last() == seq![first]);
        assert(all.last() == rest[0]);
        reveal_with_fuel(text::join, 3);
    } else {
        assert(all.drop_last() == seq![first] + rest.drop_last());
        assert(all.last() == rest.last());
        lemma_join_behind(first, rest.drop_last());
        assert(text::join(all, "/"@) == first + "/"@ + text::join(rest.drop_last(), "/"@) + "/"@
            + rest.last());
    }
}

/// A slash more, at the end or between two names, makes no difference to the components.
pub proof fn law_repeated_slashes_make_no_difference(a: Seq<char>, b: Seq<char>)
    requires
        a.len() > 0,
    ensures
        components(a + "/"@) == components(a),
        components(a + "/"@ + "/"@ + b) == components(a + "/"@ + b),
        components(a + "/"@ + "./"@ + b) == components(a + "/"@ + b),
{
    let k = CharClass::Just('/');
    reveal_strlit("/");
    reveal_strlit(".");
    reveal_strlit("./");
    reveal_strlit("");
    let x = text::split(a, k);
    text::lemma_split_nonempty(a, k);
    let ended = a + "/"@;
    assert(ended.drop_last() == a);
    assert(""@ == Seq::<char>::empty());
    assert(text::split(ended, k) == x.push(""@));
    assert(x.push(""@).drop_last() == x);
    assert(names(x.push(""@)) == names(x));
    assert(text::split(ended, k)[0] == x[0]);
    assert(ended[0] == a[0]);
    lemma_same_lead(ended, a);
    let twice = ended + "/"@;
    assert(twice.drop_last() == ended);
    assert(text::split(twice, k) == x.push(""@).push(""@));
    text::lemma_split_concat(twice, b, k);
    text::lemma_split_concat(ended, b, k);
    text::lemma_split_nonempty(b, k);
    let y = text::split(b, k);
    assert(text::split(twice, k).drop_last() == x.push(""@));
    assert(text::split(ended, k).drop_last() == x);
    lemma_names_concat(x.push(""@), y);
    lemma_names_concat(x, y);
    assert((x + y)[0] == x[0] && (x.push(""@) + y)[0] == x[0]);
    lemma_same_lead(twice + b, ended + b);
    let dotted = ended + "./"@;
    assert(dotted.drop_last() == ended + "."@);
    assert((ended + "."@).drop_last() == ended);
    assert(text::split(ended + "."@, k) == x.push(""@.push('.'))) by {
        assert(x.push(""@).last().push('.') == ""@.push('.'));
        assert(text::split(ended + "."@, k) == x.push(""@).drop_last().push(""@.push('.')));
    }
    assert(""@.push('.') == "."@);
    assert(text::split(dotted, k) == x.push("."@).push(""@));
    text::lemma_split_concat(dotted, b, k);
    assert(text::split(dotted, k).drop_last() == x.push("."@));
    assert(x.push("."@).drop_last() == x);
    assert(names(x.push("."@)) == names(x));
    lemma_names_concat(x.push("."@), y);
    assert((x.push("."@) + y)[0] == x[0]);
    lemma_same_lead(dotted + b, ended + b);
}

proof fn lemma_same_lead(p: Seq<char>, q: Seq<char>)
    requires
        p.len() > 0,
        q.len() > 0,
        p[0] == q[0],
        text::split(p, CharClass::Just('/'))[0] == text::split(q, CharClass::Just('/'))[0],
    ensures
        lead(p) == lead(q),
{
    reveal_strlit("/");
    assert(p.take(1) == seq![p[0]]);
    assert(q.take(1) == seq![q[0]]);
}

proof fn lemma_names_concat(a: Seq<Seq<char>>, b: Seq<Seq<char>>)
    ensures
        names(a + b) == names(a) + names(b),
    decreases b.len(),
{
    if b.len() == 0 {
        assert(a + b == a);
    } else {
        assert((a + b).drop_last() == a + b.drop_last());
        assert((a + b).last() == b.last());
        lemma_names_concat(a, b.drop_last());
    }
}

/// A file or a link that counts is recorded under its path as seen from the workspace, with the
/// fingerprint that was found last; what was recorded of other paths stays. What has no
/// fingerprint is not recorded, and what does not lie in the workspace makes the whole fail.
pub proof fn law_found_entries_are_recorded(
    root: Seq<char>,
    entries: Seq<ScannedView>,
    path: Seq<char>,
    print: PrintView,
    other: Seq<char>,
)
    requires
        contents(root, entries) is Ok,
    ensures
        ({
            let known = contents(root, entries)->Ok_0;
            let now = contents(root, entries.push(ScannedView { path, print: Some(print) }));
            &&& !lies_in(root, path) ==> now is Err
            &&& relative(root, path) matches Ok(p) ==> now is Ok && (!left_out(p)
                ==> now->Ok_0.contains_key(p) && now->Ok_0[p] == print) && (other != p ==> (
            now->Ok_0.contains_key(other) <==> known.contains_key(other)) && (known.contains_key(
                other,
            ) ==> now->Ok_0[other] == known[other]))
            &&& lies_in(root, path) ==> contents(
                root,
                entries.push(ScannedView { path, print: None }),
            ) == contents(root, entries)
        }),
        contents(root, seq![]) == Ok::<Map<Seq<char>, PrintView>, Seq<char>>(Map::empty()),
{
    let e = ScannedView { path, print: Some(print) };
    let n = ScannedView { path, print: None };
    assert(entries.push(e).drop_last() == entries);
    assert(entries.push(n).drop_last() == entries);
}

/// Two files are told apart by their length, their hash and their mode, two links by where they
/// lead, and a file from a link in any case.
pub proof fn law_fingerprints_tell_apart(a: EntryFingerprint, b: EntryFingerprint)
    ensures
        a matches EntryFingerprint::File { len, hash, mode } ==> (
        b matches EntryFingerprint::File { len: l, hash: h, mode: m } ==> (a@ == b@ <==> len == l
            && hash == h && mode == m)),
        a matches EntryFingerprint::Symlink { target } ==> (b matches EntryFingerprint::Symlink {
            target: t,
        } ==> (a@ == b@ <==> target@ == t@)),
        a is File && b is Symlink ==> a@ != b@,
{
}

/// Results and what was found are seen as they are.
pub proof fn law_results_are_seen_as_they_are(
    v: Seq<ScannedEntry>,
    i: int,
    s: WorkspaceSnapshot,
    p: String,
    e: String,
)
    ensures
        path_result(Ok(p)) == Ok::<Seq<char>, Seq<char>>(p@),
        path_result(Err(e)) == Err::<Seq<char>, Seq<char>>(e@),
        snapshot_result(Ok(s)) == Ok::<Map<Seq<char>, PrintView>, Seq<char>>(s@),
        snapshot_result(Err(e)) == Err::<Map<Seq<char>, PrintView>, Seq<char>>(e@),
        scanned_views(v).len() == v.len(),
        0 <= i < v.len() ==> scanned_views(v)[i].path == v[i].path@ && (v[i].print is None
            ==> scanned_views(v)[i].print is None) && (v[i].print matches Some(f)
            ==> scanned_views(v)[i].print == Some(f@)),
{
}

} // verus!
