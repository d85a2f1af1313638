//! Operations on character sequences.
//!
//! A string is modelled by its view, a `Seq<char>`. Executable functions work
//! on slices of characters; [`chars_of`] and [`text_of`] convert at the edges.

use vstd::prelude::*;
use vstd::slice::slice_subrange;
use vstd::string::*;

verus! {

/// What `char::is_alphanumeric` returns: the Unicode property `Alphabetic`, or a
/// general category for numbers.
pub uninterp spec fn unicode_alphanumeric(c: char) -> bool;

/// `char::is_alphanumeric`. The result is named by [`unicode_alphanumeric`]; on
/// ASCII it is true of the letters and the digits, and of nothing else.
pub assume_specification[ char::is_alphanumeric ](c: char) -> (r: bool)
    ensures
        r == unicode_alphanumeric(c),
        (c as u32) < 128 ==> r == ascii_alphanumeric(c),
;

/// `String::push`: appends one character.
pub assume_specification[ String::push ](s: &mut String, c: char)
    ensures
        final(s)@ == old(s)@.push(c),
;

/// ASCII letters and digits.
pub open spec fn ascii_alphanumeric(c: char) -> bool {
    ('0' <= c && c <= '9') || ('a' <= c && c <= 'z') || ('A' <= c && c <= 'Z')
}

/// The characters with the Unicode property `White_Space`.
pub open spec fn white_space(c: char) -> bool {
    ||| '\u{9}' <= c && c <= '\u{d}'
    ||| c == ' '
    ||| c == '\u{85}'
    ||| c == '\u{a0}'
    ||| c == '\u{1680}'
    ||| '\u{2000}' <= c && c <= '\u{200a}'
    ||| c == '\u{2028}'
    ||| c == '\u{2029}'
    ||| c == '\u{202f}'
    ||| c == '\u{205f}'
    ||| c == '\u{3000}'
}

/// ASCII white space: space, tab, line feed, form feed and carriage return.
pub open spec fn ascii_white_space(c: char) -> bool {
    c == ' ' || c == '\t' || c == '\n' || c == '\u{c}' || c == '\r'
}

/// Whether `c` has the Unicode property `White_Space`.
pub fn is_white_space(c: char) -> (r: bool)
    ensures
        r == white_space(c),
{
    ('\u{9}' <= c && c <= '\u{d}') || c == ' ' || c == '\u{85}' || c == '\u{a0}' || c == '\u{1680}'
        || ('\u{2000}' <= c && c <= '\u{200a}') || c == '\u{2028}' || c == '\u{2029}' || c
        == '\u{202f}' || c == '\u{205f}' || c == '\u{3000}'
}

/// The classes of characters that the text formats of this library trim and
/// split by.
#[derive(Clone, Copy, Debug, PartialEq, Eq, Structural)]
pub enum CharClass {
    /// Unicode white space.
    White,
    /// ASCII white space.
    AsciiWhite,
    /// White space or a colon: what may stand between a keyword and a reference.
    Gap,
    /// White space or `:`, `,`, `-`, `.`: what may stand before a command word.
    Lead,
    /// Alphanumeric or `-`, `_`, `.`: what a repository slug segment is made of.
    Slug,
    /// Everything that is not alphanumeric: what stands between words.
    NotWord,
    /// One character.
    Just(char),
}

impl CharClass {
    /// Whether `c` belongs to the class.
    pub open spec fn has(self, c: char) -> bool {
        match self {
            CharClass::White => white_space(c),
            CharClass::AsciiWhite => ascii_white_space(c),
            CharClass::Gap => white_space(c) || c == ':',
            CharClass::Lead => white_space(c) || c == ':' || c == ',' || c == '-' || c == '.',
            CharClass::Slug => unicode_alphanumeric(c) || c == '-' || c == '_' || c == '.',
            CharClass::NotWord => !unicode_alphanumeric(c),
            CharClass::Just(d) => c == d,
        }
    }

    /// Whether `c` belongs to the class.
    pub fn contains(self, c: char) -> (r: bool)
        ensures
            r == self.has(c),
    {
        match self {
            CharClass::White => is_white_space(c),
            CharClass::AsciiWhite => c == ' ' || c == '\t' || c == '\n' || c == '\u{c}' || c
                == '\r',
            CharClass::Gap => is_white_space(c) || c == ':',
            CharClass::Lead => is_white_space(c) || c == ':' || c == ',' || c == '-' || c == '.',
            CharClass::Slug => c.is_alphanumeric() || c == '-' || c == '_' || c == '.',
            CharClass::NotWord => !c.is_alphanumeric(),
            CharClass::Just(d) => c == d,
        }
    }
}

/// The characters of `s`.
pub fn chars_of(s: &str) -> (r: Vec<char>)
    ensures
        r@ == s@,
{
    let mut out: Vec<char> = Vec::new();
    for c in it: s.chars()
        invariant
            out@ == it.seq().take(it.index() as int),
            it.seq() == s@,
    {
        out.push(c);
    }
    out
}

/// The string made of `s`.
pub fn text_of(s: &[char]) -> (r: String)
    ensures
        r@ == s@,
{
    let mut out = String::new();
    let mut i: usize = 0;
    while i < s.len()
        invariant
            i <= s.len(),
            out@ == s@.take(i as int),
        decreases s.len() - i,
    {
        out.push(s[i]);
        i += 1;
        assert(s@.take(i as int) == s@.take(i - 1).push(s@[i - 1]));
    }
    assert(s@.take(i as int) == s@);
    out
}

/// `c` with an ASCII upper-case letter replaced by its lower-case form.
pub open spec fn lower_char(c: char) -> char {
    if 'A' <= c && c <= 'Z' {
        ((c as u8) + 32) as char
    } else {
        c
    }
}

/// `c` with an ASCII lower-case letter replaced by its upper-case form.
pub open spec fn upper_char(c: char) -> char {
    if 'a' <= c && c <= 'z' {
        ((c as u8) - 32) as char
    } else {
        c
    }
}

/// `s` with every ASCII letter in lower case.
pub open spec fn lower(s: Seq<char>) -> Seq<char> {
    Seq::new(s.len(), |i: int| lower_char(s[i]))
}

/// `s` with every ASCII letter in upper case.
pub open spec fn upper(s: Seq<char>) -> Seq<char> {
    Seq::new(s.len(), |i: int| upper_char(s[i]))
}

/// `s` with every ASCII letter in lower case.
pub fn to_lower(s: &[char]) -> (r: Vec<char>)
    ensures
        r@ == lower(s@),
{
    let mut out: Vec<char> = Vec::new();
    let mut i: usize = 0;
    while i < s.len()
        invariant
            i <= s.len(),
            out@ == lower(s@).take(i as int),
        decreases s.len() - i,
    {
        let c = s[i];
        if 'A' <= c && c <= 'Z' {
            let low: u8 = (c as u8) + 32;
            out.push(low as char);
        } else {
            out.push(c);
        }
        i += 1;
        assert(lower(s@).take(i as int) == lower(s@).take(i - 1).push(lower_char(s@[i - 1])));
    }
    out
}

/// `s` with every ASCII letter in upper case.
pub fn to_upper(s: &[char]) -> (r: Vec<char>)
    ensures
        r@ == upper(s@),
{
    let mut out: Vec<char> = Vec::new();
    let mut i: usize = 0;
    while i < s.len()
        invariant
            i <= s.len(),
            out@ == upper(s@).take(i as int),
        decreases s.len() - i,
    {
        let c = s[i];
        if 'a' <= c && c <= 'z' {
            let up: u8 = (c as u8) - 32;
            out.push(up as char);
        } else {
            out.push(c);
        }
        i += 1;
        assert(upper(s@).take(i as int) == upper(s@).take(i - 1).push(upper_char(s@[i - 1])));
    }
    out
}

/// Whether `a` and `b` hold the same characters.
pub fn same(a: &[char], b: &[char]) -> (r: bool)
    ensures
        r == (a@ == b@),
{
    if a.len() != b.len() {
        return false;
    }
    let mut i: usize = 0;
    while i < a.len()
        invariant
            i <= a.len(),
            a.len() == b.len(),
            forall|j: int| 0 <= j < i ==> a@[j] == b@[j],
        decreases a.len() - i,
    {
        if a[i] != b[i] {
            return false;
        }
        i += 1;
    }
    assert(a@ == b@);
    true
}

/// Whether two strings are equal.
pub fn str_eq(a: &str, b: &str) -> (r: bool)
    ensures
        r == (a@ == b@),
{
    let x = chars_of(a);
    let y = chars_of(b);
    same(x.as_slice(), y.as_slice())
}

/// Whether two strings are equal when the case of ASCII letters is ignored.
pub fn eq_ignore_case(a: &[char], b: &[char]) -> (r: bool)
    ensures
        r == (lower(a@) == lower(b@)),
{
    let x = to_lower(a);
    let y = to_lower(b);
    same(x.as_slice(), y.as_slice())
}

/// Whether `s` begins with `p`.
pub open spec fn starts_with(s: Seq<char>, p: Seq<char>) -> bool {
    p.len() <= s.len() && s.take(p.len() as int) == p
}

/// Whether `s` ends with `p`.
pub open spec fn ends_with(s: Seq<char>, p: Seq<char>) -> bool {
    p.len() <= s.len() && s.skip(s.len() - p.len()) == p
}

/// Whether `s` begins with `p`.
pub fn has_prefix(s: &[char], p: &[char]) -> (r: bool)
    ensures
        r == starts_with(s@, p@),
{
    if p.len() > s.len() {
        return false;
    }
    let head = slice_subrange(s, 0, p.len());
    assert(head@ == s@.take(p@.len() as int));
    same(head, p)
}

/// Whether `s` ends with `p`.
pub fn has_suffix(s: &[char], p: &[char]) -> (r: bool)
    ensures
        r == ends_with(s@, p@),
{
    if p.len() > s.len() {
        return false;
    }
    let tail = slice_subrange(s, s.len() - p.len(), s.len());
    assert(tail@ == s@.skip(s@.len() - p@.len()));
    same(tail, p)
}

/// Whether `s` begins with `p`, on strings.
pub fn str_starts_with(s: &str, p: &str) -> (r: bool)
    ensures
        r == starts_with(s@, p@),
{
    let x = chars_of(s);
    let y = chars_of(p);
    has_prefix(x.as_slice(), y.as_slice())
}

/// `s` without its leading characters of class `k`.
pub open spec fn trim_start(s: Seq<char>, k: CharClass) -> Seq<char>
    decreases s.len(),
{
    if s.len() > 0 && k.has(s[0]) {
        trim_start(s.drop_first(), k)
    } else {
        s
    }
}

/// `s` without its trailing characters of class `k`.
pub open spec fn trim_end(s: Seq<char>, k: CharClass) -> Seq<char>
    decreases s.len(),
{
    if s.len() > 0 && k.has(s.last()) {
        trim_end(s.drop_last(), k)
    } else {
        s
    }
}

/// `s` without its leading and trailing characters of class `k`.
pub open spec fn trim(s: Seq<char>, k: CharClass) -> Seq<char> {
    trim_end(trim_start(s, k), k)
}

/// `s` without its leading characters of class `k`.
pub fn trimmed_start<'a>(s: &'a [char], k: CharClass) -> (r: &'a [char])
    ensures
        r@ == trim_start(s@, k),
{
    let mut i: usize = 0;
    assert(s@.skip(0) == s@);
    while i < s.len() && k.contains(s[i])
        invariant
            i <= s.len(),
            trim_start(s@, k) == trim_start(s@.skip(i as int), k),
        decreases s.len() - i,
    {
        assert(s@.skip(i as int).drop_first() == s@.skip(i + 1));
        i += 1;
    }
    assert(s@.skip(i as int) == s@.subrange(i as int, s@.len() as int));
    slice_subrange(s, i, s.len())
}

/// `s` without its trailing characters of class `k`.
pub fn trimmed_end<'a>(s: &'a [char], k: CharClass) -> (r: &'a [char])
    ensures
        r@ == trim_end(s@, k),
{
    let mut i: usize = s.len();
    assert(s@.take(i as int) == s@);
    while i > 0 && k.contains(s[i - 1])
        invariant
            i <= s.len(),
            trim_end(s@, k) == trim_end(s@.take(i as int), k),
        decreases i,
    {
        assert(s@.take(i as int).drop_last() == s@.take(i - 1));
        i -= 1;
    }
    assert(s@.take(i as int) == s@.subrange(0, i as int));
    slice_subrange(s, 0, i)
}

/// `s` without its leading and trailing characters of class `k`.
pub fn trimmed<'a>(s: &'a [char], k: CharClass) -> (r: &'a [char])
    ensures
        r@ == trim(s@, k),
{
    trimmed_end(trimmed_start(s, k), k)
}

/// Whether `n` stands in `h` at position `i`.
pub open spec fn occurs_at(h: Seq<char>, n: Seq<char>, i: int) -> bool {
    0 <= i && i + n.len() <= h.len() && h.subrange(i, i + n.len()) == n
}

/// Whether `n` stands somewhere in `h`.
pub open spec fn contains(h: Seq<char>, n: Seq<char>) -> bool {
    exists|i: int| occurs_at(h, n, i)
}

/// The first position from `from` on at which `n` stands in `h`.
pub open spec fn find_from(h: Seq<char>, n: Seq<char>, from: nat) -> Option<nat>
    decreases h.len() + 1 - from,
{
    if from + n.len() > h.len() {
        None
    } else if occurs_at(h, n, from as int) {
        Some(from)
    } else {
        find_from(h, n, from + 1)
    }
}

/// The first position at which `n` stands in `h`.
pub open spec fn find(h: Seq<char>, n: Seq<char>) -> Option<nat> {
    find_from(h, n, 0)
}

/// The first position at which `n` stands in `h`.
pub fn position(h: &[char], n: &[char]) -> (r: Option<usize>)
    ensures
        r is Some == find(h@, n@) is Some,
        r matches Some(i) ==> find(h@, n@) == Some(i as nat) && occurs_at(h@, n@, i as int),
{
    let mut i: usize = 0;
    while n.len() <= h.len() - i
        invariant
            i <= h.len(),
            find(h@, n@) == find_from(h@, n@, i as nat),
        decreases h.len() - i,
    {
        if same(slice_subrange(h, i, i + n.len()), n) {
            return Some(i);
        }
        if i == h.len() {
            assert(find_from(h@, n@, (i + 1) as nat) is None);
            return None;
        }
        i += 1;
    }
    None
}

/// [`find_from`] finds the first occurrence, and finds one wherever there is one.
pub proof fn lemma_find_from(h: Seq<char>, n: Seq<char>, from: nat)
    ensures
        find_from(h, n, from) matches Some(i) ==> {
            &&& from <= i
            &&& occurs_at(h, n, i as int)
            &&& forall|j: int| from <= j < i ==> !occurs_at(h, n, j)
        },
        find_from(h, n, from) is None ==> forall|j: int| from <= j ==> !occurs_at(h, n, j),
    decreases h.len() + 1 - from,
{
    if from + n.len() <= h.len() && !occurs_at(h, n, from as int) {
        lemma_find_from(h, n, from + 1);
    }
}

/// A search succeeds exactly when the text holds what is searched for, and then
/// gives the first place.
pub proof fn law_find_is_first_occurrence(h: Seq<char>, n: Seq<char>)
    ensures
        find(h, n) is Some <==> contains(h, n),
        find(h, n) matches Some(i) ==> occurs_at(h, n, i as int) && forall|j: int|
            0 <= j < i ==> !occurs_at(h, n, j),
{
    lemma_find_from(h, n, 0);
    if contains(h, n) {
        let i = choose|i: int| occurs_at(h, n, i);
        assert(occurs_at(h, n, i));
    }
}

/// A text holds what it was put together from.
pub proof fn lemma_contains_part(before: Seq<char>, part: Seq<char>, after: Seq<char>)
    ensures
        contains(before + part + after, part),
{
    let all = before + part + after;
    assert(all.subrange(before.len() as int, (before.len() + part.len()) as int) == part);
    assert(occurs_at(all, part, before.len() as int));
}

/// Whether `n` stands somewhere in `h`.
pub fn holds(h: &[char], n: &[char]) -> (r: bool)
    ensures
        r == contains(h@, n@),
{
    proof {
        law_find_is_first_occurrence(h@, n@);
    }
    position(h, n).is_some()
}

/// Whether `n` stands somewhere in `h`, on strings.
pub fn str_contains(h: &str, n: &str) -> (r: bool)
    ensures
        r == contains(h@, n@),
{
    let x = chars_of(h);
    let y = chars_of(n);
    holds(x.as_slice(), y.as_slice())
}

/// The first position from `from` on at which a character of class `k` stands.
pub open spec fn index_from(s: Seq<char>, k: CharClass, from: nat) -> Option<nat>
    decreases s.len() - from,
{
    if from >= s.len() {
        None
    } else if k.has(s[from as int]) {
        Some(from)
    } else {
        index_from(s, k, from + 1)
    }
}

/// The first position at which a character of class `k` stands.
pub open spec fn index(s: Seq<char>, k: CharClass) -> Option<nat> {
    index_from(s, k, 0)
}

/// The first position at which a character of class `k` stands.
pub fn index_of(s: &[char], k: CharClass) -> (r: Option<usize>)
    ensures
        r is Some == index(s@, k) is Some,
        r matches Some(i) ==> index(s@, k) == Some(i as nat) && i < s@.len() && k.has(
            s@[i as int],
        ),
{
    let mut i: usize = 0;
    while i < s.len()
        invariant
            i <= s.len(),
            index(s@, k) == index_from(s@, k, i as nat),
        decreases s.len() - i,
    {
        if k.contains(s[i]) {
            return Some(i);
        }
        i += 1;
    }
    None
}

/// The view of an optional string.
pub open spec fn opt_view(o: Option<String>) -> Option<Seq<char>> {
    match o {
        None => None,
        Some(s) => Some(s@),
    }
}

/// The view of an optional borrowed string.
pub open spec fn opt_text(o: Option<&str>) -> Option<Seq<char>> {
    match o {
        None => None,
        Some(s) => Some(s@),
    }
}

/// A copy of an optional string.
pub fn copy_opt(o: &Option<String>) -> (r: Option<String>)
    ensures
        opt_view(r) == opt_view(*o),
{
    match o {
        None => None,
        Some(s) => Some(s.clone()),
    }
}

/// The views of a list of strings.
pub open spec fn texts(v: Seq<String>) -> Seq<Seq<char>> {
    Seq::new(v.len(), |i: int| v[i]@)
}

/// Whether `list` holds a string equal to `s`.
pub fn list_holds(list: &Vec<String>, s: &str) -> (r: bool)
    ensures
        r == texts(list@).contains(s@),
{
    let mut i: usize = 0;
    while i < list.len()
        invariant
            i <= list.len(),
            forall|j: int| 0 <= j < i ==> texts(list@)[j] != s@,
        decreases list.len() - i,
    {
        if str_eq(list[i].as_str(), s) {
            assert(texts(list@)[i as int] == s@);
            return true;
        }
        i += 1;
    }
    false
}

/// The parts in their order, with `sep` between each two.
pub open spec fn join(parts: Seq<Seq<char>>, sep: Seq<char>) -> Seq<char>
    decreases parts.len(),
{
    if parts.len() == 0 {
        Seq::empty()
    } else if parts.len() == 1 {
        parts[0]
    } else {
        join(parts.drop_last(), sep) + sep + parts.last()
    }
}

/// The parts in their order, with `sep` between each two.
pub fn joined(parts: &[String], sep: &str) -> (r: String)
    ensures
        r@ == join(texts(parts@), sep@),
{
    let ghost all = texts(parts@);
    if parts.len() == 0 {
        assert(all.len() == 0);
        return String::new();
    }
    let mut out = parts[0].clone();
    let mut i: usize = 1;
    assert(all.take(1)[0] == all[0]);
    while i < parts.len()
        invariant
            1 <= i <= parts.len(),
            all == texts(parts@),
            out@ == join(all.take(i as int), sep@),
        decreases parts.len() - i,
    {
        assert(all.take(i + 1).drop_last() == all.take(i as int));
        assert(all.take(i + 1).last() == parts@[i as int]@);
        out.append(sep);
        out.append(parts[i].as_str());
        i += 1;
    }
    assert(all.take(i as int) == all);
    out
}

/// A copy of a list of strings.
pub fn copy_list(list: &[String]) -> (r: Vec<String>)
    ensures
        texts(r@) == texts(list@),
{
    let mut out: Vec<String> = Vec::new();
    let mut i: usize = 0;
    while i < list.len()
        invariant
            i <= list.len(),
            texts(out@) == texts(list@).take(i as int),
        decreases list.len() - i,
    {
        let ghost before = texts(out@);
        out.push(list[i].clone());
        assert(texts(out@) == before.push(list@[i as int]@));
        i += 1;
        assert(texts(list@).take(i as int) == texts(list@).take(i - 1).push(list@[i - 1]@));
    }
    assert(texts(list@).take(i as int) == texts(list@));
    out
}

/// The contents of a list of character vectors.
pub open spec fn rows(v: Seq<Vec<char>>) -> Seq<Seq<char>> {
    Seq::new(v.len(), |i: int| v[i]@)
}

/// The pieces of `s` between the characters of class `k`: one more than there are
/// such characters.
pub open spec fn split(s: Seq<char>, k: CharClass) -> Seq<Seq<char>>
    decreases s.len(),
{
    if s.len() == 0 {
        seq![Seq::<char>::empty()]
    } else {
        let before = split(s.drop_last(), k);
        if k.has(s.last()) {
            before.push(Seq::<char>::empty())
        } else {
            before.drop_last().push(before.last().push(s.last()))
        }
    }
}

/// A split has at least one piece.
pub proof fn lemma_split_nonempty(s: Seq<char>, k: CharClass)
    ensures
        split(s, k).len() > 0,
    decreases s.len(),
{
    if s.len() > 0 {
        lemma_split_nonempty(s.drop_last(), k);
    }
}

/// The pieces of `s` between the characters of class `k`.
pub fn pieces(s: &[char], k: CharClass) -> (r: Vec<Vec<char>>)
    ensures
        rows(r@) == split(s@, k),
        r@.len() > 0,
{
    let mut out: Vec<Vec<char>> = Vec::new();
    let mut cur: Vec<char> = Vec::new();
    let mut i: usize = 0;
    assert(s@.take(0) == Seq::<char>::empty());
    while i < s.len()
        invariant
            i <= s.len(),
            rows(out@).push(cur@) == split(s@.take(i as int), k),
        decreases s.len() - i,
    {
        let c = s[i];
        let ghost before = rows(out@).push(cur@);
        assert(s@.take(i + 1).drop_last() == s@.take(i as int));
        assert(s@.take(i + 1).last() == c);
        assert(before.drop_last() == rows(out@));
        if k.contains(c) {
            out.push(cur);
            cur = Vec::new();
            assert(rows(out@) == before);
        } else {
            cur.push(c);
        }
        i += 1;
    }
    assert(s@.take(i as int) == s@);
    let ghost before = rows(out@).push(cur@);
    out.push(cur);
    assert(rows(out@) == before);
    out
}

/// A line without the carriage return that stood before its line feed.
pub open spec fn without_return(s: Seq<char>) -> Seq<char> {
    if s.len() > 0 && s.last() == '\r' {
        s.drop_last()
    } else {
        s
    }
}

/// The lines of `s`. A line ends at a line feed, or at a carriage return and a
/// line feed; the last line needs no end.
pub open spec fn lines(s: Seq<char>) -> Seq<Seq<char>> {
    let parts = split(s, CharClass::Just('\n'));
    let ended = Seq::new((parts.len() - 1) as nat, |i: int| without_return(parts[i]));
    if parts.last().len() == 0 {
        ended
    } else {
        ended.push(parts.last())
    }
}

/// The lines of `s`.
pub fn line_list(s: &[char]) -> (r: Vec<Vec<char>>)
    ensures
        rows(r@) == lines(s@),
{
    let parts = pieces(s, CharClass::Just('\n'));
    let ghost all = split(s@, CharClass::Just('\n'));
    let mut out: Vec<Vec<char>> = Vec::new();
    let last: usize = parts.len() - 1;
    let mut i: usize = 0;
    while i < last
        invariant
            i <= last,
            last == parts.len() - 1,
            all == rows(parts@),
            rows(out@) == Seq::new(i as nat, |j: int| without_return(all[j])),
        decreases last - i,
    {
        let mut line: Vec<char> = parts[i].clone();
        assert(line@ == all[i as int]);
        if line.len() > 0 && line[line.len() - 1] == '\r' {
            line.pop();
        }
        assert(line@ == without_return(all[i as int]));
        let ghost before = rows(out@);
        out.push(line);
        i += 1;
        assert(rows(out@) == before.push(without_return(all[i - 1])));
    }
    let ghost before = rows(out@);
    assert(parts@[last as int]@ == all.last());
    if parts[last].len() != 0 {
        let line: Vec<char> = parts[last].clone();
        assert(line@ == all.last());
        out.push(line);
        assert(rows(out@) == before.push(all.last()));
    }
    out
}

pub proof fn lemma_split_concat(a: Seq<char>, b: Seq<char>, k: CharClass)
    requires
        a.len() > 0,
        k.has(a.last()),
    ensures
        split(a + b, k) == split(a, k).drop_last() + split(b, k),
        split(a, k).last() == Seq::<char>::empty(),
    decreases b.len(),
{
    lemma_split_nonempty(a, k);
    if b.len() == 0 {
        assert(a + b == a);
        assert(split(b, k) == seq![Seq::<char>::empty()]);
        assert(split(a, k).drop_last() + split(b, k) == split(a, k));
    } else {
        let shorter = b.drop_last();
        lemma_split_concat(a, shorter, k);
        lemma_split_nonempty(shorter, k);
        assert((a + b).drop_last() == a + shorter);
        assert((a + b).last() == b.last());
        let before = split(a + shorter, k);
        let rest = split(shorter, k);
        assert(before.last() == rest.last());
        assert(before.drop_last() == split(a, k).drop_last() + rest.drop_last());
    }
}

/// The lines of a text are those of its parts, where the first part ends with a line.
pub proof fn lemma_lines_concat(a: Seq<char>, b: Seq<char>)
    requires
        a.len() == 0 || a.last() == '\n',
    ensures
        lines(a + b) == lines(a) + lines(b),
{
    let k = CharClass::Just('\n');
    if a.len() == 0 {
        assert(a + b == b);
        assert(lines(a) == Seq::<Seq<char>>::empty());
    } else {
        lemma_split_concat(a, b, k);
        lemma_split_nonempty(b, k);
        lemma_split_nonempty(a, k);
        assert(lines(a + b) == lines(a) + lines(b));
    }
}

/// The pieces that are not empty.
pub open spec fn nonempty(parts: Seq<Seq<char>>) -> Seq<Seq<char>> {
    parts.filter(|p: Seq<char>| p.len() > 0)
}

/// The words of `s`: what stands between runs of characters of class `k`.
pub open spec fn words(s: Seq<char>, k: CharClass) -> Seq<Seq<char>> {
    nonempty(split(s, k))
}

/// The words of `s`.
pub fn word_list(s: &[char], k: CharClass) -> (r: Vec<Vec<char>>)
    ensures
        rows(r@) == words(s@, k),
{
    let parts = pieces(s, k);
    let ghost all = split(s@, k);
    let mut out: Vec<Vec<char>> = Vec::new();
    let mut i: usize = 0;
    assert(all.take(0) == Seq::<Seq<char>>::empty());
    proof {
        reveal(Seq::filter);
    }
    while i < parts.len()
        invariant
            i <= parts.len(),
            all == rows(parts@),
            rows(out@) == nonempty(all.take(i as int)),
        decreases parts.len() - i,
    {
        proof {
            reveal(Seq::filter);
            assert(all.take(i + 1).drop_last() == all.take(i as int));
        }
        if parts[i].len() > 0 {
            let word: Vec<char> = parts[i].clone();
            assert(word@ == all[i as int]);
            let ghost before = rows(out@);
            out.push(word);
            assert(rows(out@) == before.push(all[i as int]));
        }
        i += 1;
    }
    assert(all.take(i as int) == all);
    out
}

/// The decimal digit for `d`.
pub open spec fn digit(d: nat) -> char {
    (('0' as u8) + d) as char
}

/// `n` in decimal notation.
pub open spec fn decimal(n: nat) -> Seq<char>
    decreases n,
{
    if n < 10 {
        seq![digit(n)]
    } else {
        decimal(n / 10).push(digit(n % 10))
    }
}

/// `n` in decimal notation.
pub fn decimal_chars(n: u64) -> (r: Vec<char>)
    ensures
        r@ == decimal(n as nat),
    decreases n,
{
    let mut out: Vec<char> = if n < 10 {
        Vec::new()
    } else {
        decimal_chars(n / 10)
    };
    let d: u8 = 48 + (n % 10) as u8;
    out.push(d as char);
    out
}

/// `n` in decimal notation.
pub fn decimal_text(n: u64) -> (r: String)
    ensures
        r@ == decimal(n as nat),
{
    let v = decimal_chars(n);
    text_of(v.as_slice())
}

/// Whether every character of `s` is a decimal digit.
pub open spec fn all_digits(s: Seq<char>) -> bool {
    forall|i: int| 0 <= i < s.len() ==> '0' <= #[trigger] s[i] <= '9'
}

/// The number that a row of decimal digits stands for.
pub open spec fn number(s: Seq<char>) -> nat
    decreases s.len(),
{
    if s.len() == 0 {
        0
    } else {
        number(s.drop_last()) * 10 + (s.last() as nat - '0' as nat) as nat
    }
}

/// The number that `s` stands for, if it is one or more decimal digits and the number
/// fits in 64 bits.
pub open spec fn parsed_number(s: Seq<char>) -> Option<nat> {
    if s.len() > 0 && all_digits(s) && number(s) <= u64::MAX {
        Some(number(s))
    } else {
        None
    }
}

proof fn lemma_number_prefix(s: Seq<char>, i: int)
    requires
        0 <= i <= s.len(),
    ensures
        number(s.take(i)) <= number(s),
    decreases s.len(),
{
    if i < s.len() {
        lemma_number_prefix(s.drop_last(), i);
        assert(s.drop_last().take(i) == s.take(i));
    } else {
        assert(s.take(i) == s);
    }
}

/// The view of an optional number.
pub open spec fn opt_number(o: Option<u64>) -> Option<nat> {
    match o {
        None => None,
        Some(n) => Some(n as nat),
    }
}

/// The number that `s` stands for, if it is one or more decimal digits and the number
/// fits in 64 bits.
pub fn parse_number(s: &[char]) -> (r: Option<u64>)
    ensures
        opt_number(r) == parsed_number(s@),
{
    if s.len() == 0 {
        return None;
    }
    let mut value: u64 = 0;
    let mut i: usize = 0;
    assert(s@.take(0) == Seq::<char>::empty());
    while i < s.len()
        invariant
            i <= s.len(),
            all_digits(s@.take(i as int)),
            value == number(s@.take(i as int)),
        decreases s.len() - i,
    {
        let c = s[i];
        assert(s@.take(i + 1).drop_last() == s@.take(i as int));
        assert(s@.take(i + 1).last() == c);
        if c < '0' || c > '9' {
            assert(s@[i as int] == c);
            return None;
        }
        assert forall|j: int| 0 <= j < i + 1 implies '0' <= #[trigger] s@.take(i + 1)[j] <= '9' by {
            if j < i {
                assert(s@.take(i as int)[j] == s@.take(i + 1)[j]);
            }
        }
        let d: u64 = (c as u32 - 48) as u64;
        proof {
            lemma_number_prefix(s@, i + 1);
        }
        if value > (u64::MAX - d) / 10 {
            return None;
        }
        value = value * 10 + d;
        i += 1;
    }
    assert(s@.take(i as int) == s@);
    Some(value)
}

/// Reading a number in decimal notation gives the number back.
pub proof fn law_decimal_reads_back(n: nat)
    ensures
        decimal(n).len() > 0,
        all_digits(decimal(n)),
        number(decimal(n)) == n,
        n <= u64::MAX ==> parsed_number(decimal(n)) == Some(n),
    decreases n,
{
    if n >= 10 {
        law_decimal_reads_back(n / 10);
        let s = decimal(n);
        assert(s.drop_last() == decimal(n / 10));
        assert forall|i: int| 0 <= i < s.len() implies '0' <= #[trigger] s[i] <= '9' by {
            if i < s.len() - 1 {
                assert(s[i] == decimal(n / 10)[i]);
            }
        }
    } else {
        let s = decimal(n);
        assert(s.drop_last() == Seq::<char>::empty());
        assert(number(Seq::<char>::empty()) == 0);
        assert(s.last() == digit(n));
    }
}

/// `n` in decimal notation, with a sign where it is negative.
pub open spec fn signed_decimal(n: int) -> Seq<char> {
    if n < 0 {
        "-"@ + decimal((-n) as nat)
    } else {
        decimal(n as nat)
    }
}

/// `n` in decimal notation, with a sign where it is negative.
pub fn signed_decimal_text(n: i32) -> (r: String)
    ensures
        r@ == signed_decimal(n as int),
{
    if n < 0 {
        let mut s = "-".to_owned();
        s.append(decimal_text((-(n as i64)) as u64).as_str());
        s
    } else {
        decimal_text(n as u64)
    }
}

/// Trimming keeps a text whose first character is not of the class from being empty.
pub proof fn lemma_trim_keeps_first(s: Seq<char>, k: CharClass)
    requires
        s.len() > 0,
        !k.has(s[0]),
    ensures
        trim(s, k).len() > 0,
        trim(s, k)[0] == s[0],
    decreases s.len(),
{
    assert(trim_start(s, k) == s);
    if k.has(s.last()) {
        assert(s.len() > 1);
        assert(s.drop_last()[0] == s[0]);
        lemma_trim_keeps_first(s.drop_last(), k);
    }
}

/// A text without a separator is one piece.
pub proof fn lemma_split_single(s: Seq<char>, k: CharClass)
    requires
        forall|i: int| 0 <= i < s.len() ==> !k.has(#[trigger] s[i]),
    ensures
        split(s, k) == seq![s],
    decreases s.len(),
{
    if s.len() > 0 {
        let less = s.drop_last();
        lemma_split_single(less, k);
        assert(!k.has(s[s.len() - 1]));
        assert(seq![less].last().push(s.last()) == s);
        assert(split(s, k) == seq![s]);
    } else {
        assert(s == Seq::<char>::empty());
        assert(split(s, k) == seq![s]);
    }
}

/// A last line that is not ended is a line too: what stands behind the last line break is
/// read as it is.
pub proof fn law_last_line_is_read_whole(before: Seq<char>, line: Seq<char>)
    requires
        before.len() == 0 || before.last() == '\n',
        line.len() > 0,
        forall|i: int| 0 <= i < line.len() ==> #[trigger] line[i] != '\n',
    ensures
        lines(before + line) == lines(before).push(line),
{
    lemma_lines_concat(before, line);
    lemma_split_single(line, CharClass::Just('\n'));
    assert(lines(line) == seq![line]);
    assert(lines(before) + seq![line] == lines(before).push(line));
}

/// A line is read without the line break that ends it, and without the carriage return
/// before that.
pub proof fn law_ended_line_is_read_without_its_end(before: Seq<char>, line: Seq<char>)
    requires
        before.len() == 0 || before.last() == '\n',
        forall|i: int| 0 <= i < line.len() ==> #[trigger] line[i] != '\n',
    ensures
        lines(before + line + seq!['\n']) == lines(before).push(
            if line.len() > 0 && line.last() == '\r' {
                line.drop_last()
            } else {
                line
            },
        ),
{
    let k = CharClass::Just('\n');
    let ended = line + seq!['\n'];
    assert(before + line + seq!['\n'] == before + ended);
    lemma_lines_concat(before, ended);
    lemma_split_single(line, k);
    assert(ended.drop_last() == line);
    assert(split(ended, k) == seq![line, Seq::<char>::empty()]);
    assert(lines(ended) == seq![without_return(line)]);
    assert(lines(before) + seq![without_return(line)] == lines(before).push(without_return(line)));
}

/// Trimming takes away exactly the characters of the class at both ends: what is left is a
/// part of the text that has none of them at its ends, and what was taken away is all of
/// the class.
pub proof fn law_trim_takes_the_ends_away(s: Seq<char>, k: CharClass)
    ensures
        trim(s, k).len() > 0 ==> !k.has(trim(s, k)[0]) && !k.has(trim(s, k).last()),
        exists|from: int, to: int|
            0 <= from <= to <= s.len() && #[trigger] s.subrange(from, to) == trim(s, k) && (forall|
                i: int,
            |
                0 <= i < from ==> k.has(#[trigger] s[i])) && forall|i: int|
                to <= i < s.len() ==> k.has(#[trigger] s[i]),
{
    lemma_trim_start(s, k);
    let t = trim_start(s, k);
    let from = s.len() - t.len();
    lemma_trim_end(t, k);
    let e = trim_end(t, k);
    let to = from + e.len();
    assert(s.subrange(from, to) == e);
    assert forall|i: int| to <= i < s.len() implies k.has(#[trigger] s[i]) by {
        assert(t[i - from] == s[i]);
    }
    if e.len() > 0 {
        assert(e[0] == t[0]);
    }
}

proof fn lemma_trim_start(s: Seq<char>, k: CharClass)
    ensures
        trim_start(s, k).len() <= s.len(),
        trim_start(s, k) == s.skip(s.len() - trim_start(s, k).len()),
        trim_start(s, k).len() > 0 ==> !k.has(trim_start(s, k)[0]),
        forall|i: int| 0 <= i < s.len() - trim_start(s, k).len() ==> k.has(#[trigger] s[i]),
    decreases s.len(),
{
    if s.len() > 0 && k.has(s[0]) {
        let less = s.drop_first();
        lemma_trim_start(less, k);
        assert forall|i: int| 0 <= i < s.len() - trim_start(s, k).len() implies k.has(
            #[trigger] s[i],
        ) by {
            if i > 0 {
                assert(less[i - 1] == s[i]);
            }
        }
    } else {
        assert(s.skip(0) == s);
    }
}

proof fn lemma_trim_end(s: Seq<char>, k: CharClass)
    ensures
        trim_end(s, k).len() <= s.len(),
        trim_end(s, k) == s.take(trim_end(s, k).len() as int),
        trim_end(s, k).len() > 0 ==> !k.has(trim_end(s, k).last()),
        forall|i: int| trim_end(s, k).len() <= i < s.len() ==> k.has(#[trigger] s[i]),
    decreases s.len(),
{
    if s.len() > 0 && k.has(s.last()) {
        let less = s.drop_last();
        lemma_trim_end(less, k);
        assert forall|i: int| trim_end(s, k).len() <= i < s.len() implies k.has(
            #[trigger] s[i],
        ) by {
            if i < less.len() {
                assert(less[i] == s[i]);
            }
        }
    } else {
        assert(s.take(s.len() as int) == s);
    }
}

/// A text without characters of the class at its ends is not changed by trimming.
pub proof fn lemma_trim_same(s: Seq<char>, k: CharClass)
    requires
        s.len() > 0 ==> !k.has(s[0]) && !k.has(s.last()),
    ensures
        trim(s, k) == s,
{
}

/// Pieces that are put together with the separator are the same pieces when they are taken
/// apart, as long as none of them holds it.
pub proof fn law_split_undoes_join(parts: Seq<Seq<char>>, c: char)
    requires
        parts.len() > 0,
        forall|i: int, j: int|
            0 <= i < parts.len() && 0 <= j < parts[i].len() ==> #[trigger] parts[i][j] != c,
    ensures
        split(join(parts, seq![c]), CharClass::Just(c)) == parts,
    decreases parts.len(),
{
    let k = CharClass::Just(c);
    let last = parts.last();
    assert forall|j: int| 0 <= j < last.len() implies !k.has(#[trigger] last[j]) by {
        assert(parts[parts.len() - 1][j] != c);
    }
    lemma_split_single(last, k);
    if parts.len() > 1 {
        let less = parts.drop_last();
        assert forall|i: int, j: int|
            0 <= i < less.len() && 0 <= j < less[i].len() implies #[trigger] less[i][j] != c by {
            assert(parts[i][j] != c);
        }
        law_split_undoes_join(less, c);
        let a = join(less, seq![c]) + seq![c];
        assert(join(parts, seq![c]) == a + last);
        lemma_split_concat(a, last, k);
        assert(a.drop_last() == join(less, seq![c]));
        assert(split(a, k) == less.push(Seq::<char>::empty()));
        assert(split(a, k).drop_last() == less);
        assert(less + seq![last] == parts);
    } else {
        assert(parts == seq![last]);
        assert(join(parts, seq![c]) == last);
    }
}

/// Lower case changes the letters from `A` to `Z` and nothing else, and changing it twice
/// is changing it once; upper case likewise the letters from `a` to `z`.
pub proof fn law_case_changes_letters_only(s: Seq<char>, i: int)
    requires
        0 <= i < s.len(),
    ensures
        lower(s).len() == s.len(),
        upper(s).len() == s.len(),
        'A' <= s[i] <= 'Z' ==> lower(s)[i] as int == s[i] as int + 32,
        !('A' <= s[i] <= 'Z') ==> lower(s)[i] == s[i],
        'a' <= s[i] <= 'z' ==> upper(s)[i] as int == s[i] as int - 32,
        !('a' <= s[i] <= 'z') ==> upper(s)[i] == s[i],
        lower(lower(s)) == lower(s),
{
    assert forall|j: int| 0 <= j < s.len() implies lower_char(lower_char(#[trigger] s[j]))
        == lower_char(s[j]) by {}
    assert(lower(lower(s)) =~= lower(s));
}

/// What counts as a number: nothing but digits, at least one, and no more than fits; its
/// digits are read from the left.
pub proof fn law_number_is_digits_only(s: Seq<char>, d: nat)
    requires
        d < 10,
    ensures
        s.len() == 0 ==> parsed_number(s) is None,
        (exists|i: int| 0 <= i < s.len() && !('0' <= #[trigger] s[i] <= '9')) ==> parsed_number(
            s,
        ) is None,
        parsed_number(s) matches Some(n) ==> n <= u64::MAX && (n * 10 + d <= u64::MAX
            ==> parsed_number(s.push(digit(d))) == Some((n * 10 + d) as nat)),
        parsed_number(seq![digit(d)]) == Some(d),
        digit(d) as int == '0' as int + d,
{
    if parsed_number(s) is Some {
        let t = s.push(digit(d));
        assert(t.drop_last() == s);
        assert(t.last() == digit(d));
        assert forall|i: int| 0 <= i < t.len() implies '0' <= #[trigger] t[i] <= '9' by {
            if i < s.len() {
                assert(t[i] == s[i]);
            }
        }
    }
    let one = seq![digit(d)];
    assert(one.drop_last() == Seq::<char>::empty());
    assert(number(Seq::<char>::empty()) == 0);
    assert(one.last() == digit(d));
}

/// Different numbers are written differently.
pub proof fn law_decimal_tells_numbers_apart(a: nat, b: nat)
    requires
        decimal(a) == decimal(b),
    ensures
        a == b,
{
    law_decimal_reads_back(a);
    law_decimal_reads_back(b);
}

pub proof fn lemma_begins(a: Seq<char>, b: Seq<char>)
    ensures
        starts_with(a + b, a),
{
    assert((a + b).take(a.len() as int) == a);
}

pub proof fn lemma_ends(a: Seq<char>, b: Seq<char>)
    ensures
        ends_with(a + b, b),
{
    assert((a + b).skip((a + b).len() - b.len()) == b);
}

/// Of the characters of ASCII, the blank, the tab, the line breaks and the form feed are
/// white space in both senses, and nothing that is printed is.
pub proof fn law_nothing_printed_is_white_space(c: char)
    ensures
        c == ' ' || c == '\t' || c == '\n' || c == '\r' || c == '\u{c}' ==> white_space(c)
            && ascii_white_space(c),
        '!' <= c && c <= '~' ==> !white_space(c) && !ascii_white_space(c),
        ascii_white_space(c) ==> white_space(c),
{
}

/// What is skipped before a command word is white space and `:`, `,`, `-` and `.`; between a
/// keyword and a reference it is white space and `:` only.
pub proof fn law_only_these_are_skipped(c: char)
    ensures
        CharClass::Lead.has(c) <==> CharClass::Gap.has(c) || c == ',' || c == '-' || c == '.',
        CharClass::Gap.has(c) <==> CharClass::White.has(c) || c == ':',
        CharClass::White.has(c) <==> white_space(c),
        CharClass::AsciiWhite.has(c) ==> CharClass::White.has(c),
        CharClass::Slug.has(c) <==> !CharClass::NotWord.has(c) || c == '-' || c == '_' || c == '.',
        forall|d: char| #[trigger] CharClass::Just(d).has(c) <==> c == d,
{
}

/// What contracts say of optional and listed strings is said of each of them as it is.
pub proof fn law_strings_are_seen_as_they_are(
    s: String,
    t: &str,
    list: Seq<String>,
    table: Seq<Vec<char>>,
    i: int,
)
    ensures
        opt_view(Some(s)) == Some(s@),
        opt_view(None) is None,
        opt_text(Some(t)) == Some(t@),
        opt_text(None) is None,
        texts(list).len() == list.len(),
        rows(table).len() == table.len(),
        0 <= i < list.len() ==> texts(list)[i] == list[i]@,
        0 <= i < table.len() ==> rows(table)[i] == table[i]@,
{
}

/// The first character of a class is found where it stands, and none where there is none.
pub proof fn law_first_of_a_class_is_found(s: Seq<char>, k: CharClass)
    ensures
        index(s, k) matches Some(i) ==> i < s.len() && k.has(s[i as int]) && forall|j: int|
            0 <= j < i ==> !k.has(#[trigger] s[j]),
        index(s, k) is None ==> forall|j: int| 0 <= j < s.len() ==> !k.has(#[trigger] s[j]),
{
    lemma_index_from(s, k, 0);
}

proof fn lemma_index_from(s: Seq<char>, k: CharClass, from: nat)
    ensures
        index_from(s, k, from) matches Some(i) ==> from <= i < s.len() && k.has(s[i as int])
            && forall|j: int| from <= j < i ==> !k.has(#[trigger] s[j]),
        index_from(s, k, from) is None ==> forall|j: int|
            from <= j < s.len() ==> !k.has(#[trigger] s[j]),
    decreases s.len() - from,
{
    if from < s.len() && !k.has(s[from as int]) {
        lemma_index_from(s, k, from + 1);
    }
}

/// The words of a text are those of its two parts, wherever it is cut at a character of the
/// class; what holds none of the class is one word, and nothing is none.
pub proof fn law_words_stand_between_the_class(a: Seq<char>, c: char, b: Seq<char>, k: CharClass)
    requires
        k.has(c),
    ensures
        words(a + seq![c] + b, k) == words(a, k) + words(b, k),
        (a.len() > 0 && forall|i: int| 0 <= i < a.len() ==> !k.has(#[trigger] a[i])) ==> words(a, k)
            == seq![a],
        a.len() == 0 ==> words(a, k).len() == 0,
{
    let keep = |p: Seq<char>| p.len() > 0;
    let ac = a + seq![c];
    reveal(Seq::filter);
    lemma_split_concat(ac, b, k);
    lemma_split_nonempty(a, k);
    assert(ac.drop_last() == a);
    assert(split(ac, k) == split(a, k).push(Seq::<char>::empty()));
    assert(split(ac, k).drop_last() == split(a, k));
    assert(split(ac + b, k) == split(a, k) + split(b, k));
    Seq::filter_distributes_over_add(split(a, k), split(b, k), keep);
    if forall|i: int| 0 <= i < a.len() ==> !k.has(#[trigger] a[i]) {
        lemma_split_single(a, k);
        let one = seq![a];
        assert(one.drop_last() == Seq::<Seq<char>>::empty());
        assert(one.drop_last().filter(keep) == Seq::<Seq<char>>::empty());
        assert(one.last() == a);
        if a.len() > 0 {
            assert(one.filter(keep) == Seq::<Seq<char>>::empty().push(a));
        } else {
            assert(one.filter(keep) == Seq::<Seq<char>>::empty());
        }
    }
}

/// A number is seen as the number that it is, with its sign before its digits.
pub proof fn law_numbers_are_seen_as_they_are(n: u64, m: nat)
    ensures
        opt_number(Some(n)) == Some(n as nat),
        opt_number(None) is None,
        signed_decimal(m as int) == decimal(m),
        m > 0 ==> signed_decimal(-(m as int)) == seq!['-'] + decimal(m),
{
    reveal_strlit("-");
    assert("-"@ == seq!['-']);
}

} // verus!
