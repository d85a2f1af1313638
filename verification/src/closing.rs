//! Whether a pull request declares that merging it closes an issue.
//!
//! Only a closing keyword directly before a reference counts. A plain mention of
//! an issue, or a number in a title's suffix, declares nothing.

use crate::text;
use crate::text::CharClass;
use vstd::prelude::*;
use vstd::slice::slice_subrange;
use vstd::string::*;
use vstd::utf8::*;

verus! {

/// An open pull request, as far as the lookup reads it.
#[derive(Debug)]
pub struct GhPrListItem {
    pub number: u64,
    pub head_ref_name: String,
    /// Full address, such as `https://github.com/owner/repo/pull/42`.
    pub url: String,
    pub title: String,
    pub body: String,
}

/// The words that declare a closing relationship, in lower case.
pub open spec fn is_close_keyword(w: Seq<char>) -> bool {
    ||| w == "close"@
    ||| w == "closes"@
    ||| w == "closed"@
    ||| w == "fix"@
    ||| w == "fixes"@
    ||| w == "fixed"@
    ||| w == "resolve"@
    ||| w == "resolves"@
    ||| w == "resolved"@
}

/// Whether a word may begin right after `left`: `left` is empty or ends in a
/// character that is not alphanumeric.
pub open spec fn ends_word(left: Seq<char>) -> bool {
    left.len() == 0 || !text::unicode_alphanumeric(left.last())
}

/// Whether the keyword `w` ends `s` and stands there as a word of its own.
pub open spec fn ends_in_word(s: Seq<char>, w: Seq<char>) -> bool {
    text::ends_with(s, w) && ends_word(s.take(s.len() - w.len()))
}

/// Whether `s` ends in a closing keyword that stands as a word of its own.
pub open spec fn ends_in_keyword(s: Seq<char>) -> bool {
    exists|w: Seq<char>| #[trigger] is_close_keyword(w) && ends_in_word(s, w)
}

/// A reference to an issue of the same repository.
pub open spec fn issue_ref(issue: nat) -> Seq<char> {
    "#"@ + text::decimal(issue)
}

/// Whether the reference that ends at `end` is complete there, and not the start
/// of a longer one.
pub open spec fn ref_ends(field: Seq<char>, end: int) -> bool {
    end >= field.len() || !text::unicode_alphanumeric(field[end])
}

/// Where the owner of a trailing `owner/repo` begins in `s`, if `s` ends in one.
pub open spec fn qualifier_start(s: Seq<char>) -> Option<nat> {
    let head = text::trim_end(s, CharClass::Slug);
    let repo = s.len() - head.len();
    if head.len() == 0 || head.last() != '/' || repo == 0 {
        None
    } else {
        let slash = head.len() - 1;
        let left = text::trim_end(s.take(slash), CharClass::Slug);
        if left.len() == slash {
            None
        } else {
            Some(left.len())
        }
    }
}

/// Whether a reference that is preceded by `prefix` is declared closed by it: a
/// closing keyword stands before the reference, or before the `owner/repo` that
/// qualifies it, which is then the repository `slug` where that is known.
pub open spec fn closed_by_prefix(prefix: Seq<char>, slug: Option<Seq<char>>) -> bool {
    let s = text::trim_end(prefix, CharClass::Gap);
    ||| ends_in_keyword(s)
    ||| match qualifier_start(s) {
        None => false,
        Some(i) => {
            &&& slug matches Some(name) ==> text::lower(text::trim(s.skip(i as int), CharClass::White))
                == text::lower(name)
            &&& ends_in_keyword(text::trim_end(s.take(i as int), CharClass::Gap))
        },
    }
}

/// Whether `field` declares that it closes `issue`.
pub open spec fn field_closes(field: Seq<char>, issue: nat, slug: Option<Seq<char>>) -> bool {
    exists|i: int|
        #![trigger text::occurs_at(field, issue_ref(issue), i)]
        text::occurs_at(field, issue_ref(issue), i) && ref_ends(field, i + issue_ref(issue).len())
            && closed_by_prefix(field.take(i), slug)
}

fn keyword_list() -> (r: Vec<Vec<char>>)
    ensures
        forall|w: Seq<char>| is_close_keyword(w) <==> text::rows(r@).contains(w),
{
    let mut out: Vec<Vec<char>> = Vec::new();
    out.push(text::chars_of("close"));
    out.push(text::chars_of("closes"));
    out.push(text::chars_of("closed"));
    out.push(text::chars_of("fix"));
    out.push(text::chars_of("fixes"));
    out.push(text::chars_of("fixed"));
    out.push(text::chars_of("resolve"));
    out.push(text::chars_of("resolves"));
    out.push(text::chars_of("resolved"));
    proof {
        let r = text::rows(out@);
        assert(r[0] == "close"@ && r[1] == "closes"@ && r[2] == "closed"@);
        assert(r[3] == "fix"@ && r[4] == "fixes"@ && r[5] == "fixed"@);
        assert(r[6] == "resolve"@ && r[7] == "resolves"@ && r[8] == "resolved"@);
    }
    out
}

fn word_may_follow(left: &[char]) -> (r: bool)
    ensures
        r == ends_word(left@),
{
    left.len() == 0 || !left[left.len() - 1].is_alphanumeric()
}

fn has_trailing_keyword(s: &[char]) -> (r: bool)
    ensures
        r == ends_in_keyword(s@),
{
    let words = keyword_list();
    let ghost list = text::rows(words@);
    let mut i: usize = 0;
    while i < words.len()
        invariant
            i <= words.len(),
            list == text::rows(words@),
            forall|w: Seq<char>| is_close_keyword(w) <==> list.contains(w),
            forall|j: int| 0 <= j < i ==> !ends_in_word(s@, #[trigger] list[j]),
        decreases words.len() - i,
    {
        let word = words[i].as_slice();
        assert(word@ == list[i as int]);
        if text::has_suffix(s, word) {
            let left = slice_subrange(s, 0, s.len() - word.len());
            assert(left@ == s@.take(s@.len() - word@.len()));
            if word_may_follow(left) {
                assert(list.contains(word@));
                assert(is_close_keyword(word@));
                return true;
            }
        }
        i += 1;
    }
    assert forall|w: Seq<char>| #[trigger] is_close_keyword(w) implies !ends_in_word(s@, w) by {
        assert(list.contains(w));
        let j = choose|j: int| 0 <= j < list.len() && list[j] == w;
        assert(!ends_in_word(s@, list[j]));
    }
    false
}

/// Whether the part of `s` before its last `kw_len` bytes is empty or ends in a
/// character that is not alphanumeric, so that a keyword of that length stands
/// there as a word of its own.
pub fn word_boundary_before(s: &str, kw_len: usize) -> (r: bool)
    requires
        kw_len < s.spec_bytes().len() ==> is_char_boundary(
            s.spec_bytes(),
            s.spec_bytes().len() - kw_len,
        ),
    ensures
        r == (kw_len >= s.spec_bytes().len() || ends_word(
            decode_utf8(s.spec_bytes().take(s.spec_bytes().len() - kw_len)),
        )),
{
    let len: usize = s.as_bytes().len();
    if len <= kw_len {
        return true;
    }
    let start: usize = len - kw_len;
    let (left, _right) = s.split_at(start);
    let chars = text::chars_of(left);
    proof {
        assert(s.spec_bytes().take(start as int) == s.spec_bytes().subrange(0, start as int));
        encode_utf8_decode_utf8(left@);
    }
    word_may_follow(chars.as_slice())
}

fn trailing_qualifier_start(s: &[char]) -> (r: Option<usize>)
    ensures
        r is Some == qualifier_start(s@) is Some,
        r matches Some(i) ==> qualifier_start(s@) == Some(i as nat) && i < s@.len(),
{
    let head = text::trimmed_end(s, CharClass::Slug);
    proof {
        lemma_trim_end_prefix(s@, CharClass::Slug);
    }
    if head.len() == 0 || head[head.len() - 1] != '/' || head.len() == s.len() {
        return None;
    }
    let slash: usize = head.len() - 1;
    let before = slice_subrange(s, 0, slash);
    assert(before@ == s@.take(slash as int));
    let left = text::trimmed_end(before, CharClass::Slug);
    proof {
        lemma_trim_end_prefix(before@, CharClass::Slug);
    }
    if left.len() == slash {
        None
    } else {
        Some(left.len())
    }
}

/// Trimming at the end leaves a prefix.
pub proof fn lemma_trim_end_prefix(s: Seq<char>, k: CharClass)
    ensures
        text::trim_end(s, k).len() <= s.len(),
        text::trim_end(s, k) == s.take(text::trim_end(s, k).len() as int),
    decreases s.len(),
{
    if s.len() > 0 && k.has(s.last()) {
        lemma_trim_end_prefix(s.drop_last(), k);
        let n = text::trim_end(s.drop_last(), k).len() as int;
        assert(s.drop_last().take(n) == s.take(n));
    } else {
        assert(s.take(s.len() as int) == s);
    }
}

/// The part of `s` before the `owner/repo` that it ends in, if it ends in one.
pub fn strip_trailing_repo_qualifier(s: &str) -> (r: Option<String>)
    ensures
        r is Some == qualifier_start(s@) is Some,
        r matches Some(t) ==> t@ == s@.take(qualifier_start(s@)->0 as int),
{
    let chars = text::chars_of(s);
    match trailing_qualifier_start(chars.as_slice()) {
        None => None,
        Some(i) => {
            let left = slice_subrange(chars.as_slice(), 0, i);
            assert(left@ == s@.take(i as int));
            Some(text::text_of(left))
        },
    }
}

fn prefix_closes(prefix: &[char], repo_slug: Option<&str>) -> (r: bool)
    ensures
        r == closed_by_prefix(prefix@, text::opt_text(repo_slug)),
{
    let s = text::trimmed_end(prefix, CharClass::Gap);
    if has_trailing_keyword(s) {
        return true;
    }
    match trailing_qualifier_start(s) {
        None => false,
        Some(i) => {
            let qualifier = slice_subrange(s, i, s.len());
            assert(qualifier@ == s@.skip(i as int));
            let before = slice_subrange(s, 0, i);
            assert(before@ == s@.take(i as int));
            if let Some(slug) = repo_slug {
                let want = text::chars_of(slug);
                if !text::eq_ignore_case(text::trimmed(qualifier, CharClass::White), want.as_slice()) {
                    return false;
                }
            }
            has_trailing_keyword(text::trimmed_end(before, CharClass::Gap))
        },
    }
}

/// Whether `field` holds a closing keyword that refers to `issue`. The field is
/// compared as it stands: the keywords are in lower case.
///
/// A reference may be qualified as `owner/repo#N`; where `repo_slug` is given, the
/// qualifier has to name that repository.
pub fn field_claims_to_close_issue(field: &str, issue: u64, repo_slug: Option<&str>) -> (r: bool)
    ensures
        r == field_closes(field@, issue as nat, text::opt_text(repo_slug)),
{
    let chars = text::chars_of(field);
    closes(chars.as_slice(), issue, repo_slug)
}

fn closes(field: &[char], issue: u64, repo_slug: Option<&str>) -> (r: bool)
    ensures
        r == field_closes(field@, issue as nat, text::opt_text(repo_slug)),
{
    let mut needle = text::chars_of("#");
    let mut digits = text::decimal_chars(issue);
    needle.append(&mut digits);
    let ghost wanted = issue_ref(issue as nat);
    let ghost slug = text::opt_text(repo_slug);
    assert(needle@ == wanted);
    proof {
        reveal_strlit("#");
    }
    let n: usize = needle.len();
    let mut i: usize = 0;
    while n <= field.len() && i <= field.len() - n
        invariant
            n == needle@.len(),
            n > 0,
            needle@ == wanted,
            wanted == issue_ref(issue as nat),
            slug == text::opt_text(repo_slug),
            i <= field.len(),
            forall|j: int|
                0 <= j < i ==> !(#[trigger] text::occurs_at(field@, wanted, j) && ref_ends(
                    field@,
                    j + wanted.len(),
                ) && closed_by_prefix(field@.take(j), slug)),
        decreases field.len() - i,
    {
        if text::same(slice_subrange(field, i, i + n), needle.as_slice()) {
            let ended = i + n >= field.len() || !field[i + n].is_alphanumeric();
            let prefix = slice_subrange(field, 0, i);
            assert(prefix@ == field@.take(i as int));
            if ended && prefix_closes(prefix, repo_slug) {
                assert(text::occurs_at(field@, wanted, i as int));
                return true;
            }
        }
        i += 1;
    }
    false
}

/// Whether `item` declares, in its title or in its body, that merging it closes
/// `issue`. Letter case is ignored, and the two texts are read apart.
pub fn pr_claims_to_close_issue(item: &GhPrListItem, issue: u64, repo_slug: Option<&str>) -> (r:
    bool)
    ensures
        r == item_closes(*item, issue as nat, text::opt_text(repo_slug)),
{
    let title = text::chars_of(item.title.as_str());
    let body = text::chars_of(item.body.as_str());
    let low_title = text::to_lower(title.as_slice());
    let low_body = text::to_lower(body.as_slice());
    closes(low_title.as_slice(), issue, repo_slug) || closes(low_body.as_slice(), issue, repo_slug)
}

/// Whether the title or the body of `item` declares that it closes `issue`.
pub open spec fn item_closes(item: GhPrListItem, issue: nat, slug: Option<Seq<char>>) -> bool {
    field_closes(text::lower(item.title@), issue, slug) || field_closes(text::lower(item.body@), issue, slug)
}

/// A text in which no closing keyword occurs closes no issue, whatever it
/// mentions.
pub proof fn law_plain_mention_never_closes(
    field: Seq<char>,
    issue: nat,
    slug: Option<Seq<char>>,
)
    requires
        forall|w: Seq<char>| is_close_keyword(w) ==> !text::contains(field, w),
    ensures
        !field_closes(field, issue, slug),
{
    if field_closes(field, issue, slug) {
        let i = choose|i: int|
            #![trigger text::occurs_at(field, issue_ref(issue), i)]
            text::occurs_at(field, issue_ref(issue), i) && ref_ends(field, i + issue_ref(issue).len())
                && closed_by_prefix(field.take(i), slug);
        let p = field.take(i);
        let s = text::trim_end(p, CharClass::Gap);
        lemma_trim_end_prefix(p, CharClass::Gap);
        assert(s == field.take(s.len() as int));
        if ends_in_keyword(s) {
            lemma_keyword_occurs(field, s);
        } else {
            let q = qualifier_start(s)->0;
            let head = text::trim_end(s, CharClass::Slug);
            lemma_trim_end_prefix(s, CharClass::Slug);
            lemma_trim_end_prefix(s.take(head.len() - 1), CharClass::Slug);
            let t = text::trim_end(s.take(q as int), CharClass::Gap);
            lemma_trim_end_prefix(s.take(q as int), CharClass::Gap);
            assert(t == field.take(t.len() as int));
            lemma_keyword_occurs(field, t);
        }
    }
}

proof fn lemma_keyword_occurs(field: Seq<char>, s: Seq<char>)
    requires
        ends_in_keyword(s),
        s.len() <= field.len(),
        s == field.take(s.len() as int),
    ensures
        exists|w: Seq<char>| #[trigger] is_close_keyword(w) && text::contains(field, w),
{
    let w = choose|w: Seq<char>| #[trigger] is_close_keyword(w) && ends_in_word(s, w);
    let at = s.len() - w.len();
    assert(field.subrange(at, at + w.len()) == s.skip(at));
    assert(text::occurs_at(field, w, at));
}

/// A reference to `issue` does not match a longer number that begins with it.
pub proof fn law_longer_number_is_no_match(
    field: Seq<char>,
    issue: nat,
    slug: Option<Seq<char>>,
)
    requires
        forall|i: int|
            #[trigger] text::occurs_at(field, issue_ref(issue), i) ==> i + issue_ref(issue).len()
                < field.len() && text::unicode_alphanumeric(field[i + issue_ref(issue).len()]),
    ensures
        !field_closes(field, issue, slug),
{
}

/// Whether `w` is one of the nine words by which an issue is closed.
pub open spec fn closing_word(w: Seq<char>) -> bool {
    ||| w == "close"@ || w == "closes"@ || w == "closed"@
    ||| w == "fix"@ || w == "fixes"@ || w == "fixed"@
    ||| w == "resolve"@ || w == "resolves"@ || w == "resolved"@
}

proof fn lemma_closing_words(w: Seq<char>)
    requires
        closing_word(w),
    ensures
        is_close_keyword(w),
        w.len() >= 3,
        w.last() == 'e' || w.last() == 's' || w.last() == 'd' || w.last() == 'x',
        !w.contains('#'),
{
    reveal_strlit("close");
    reveal_strlit("closes");
    reveal_strlit("closed");
    reveal_strlit("fix");
    reveal_strlit("fixes");
    reveal_strlit("fixed");
    reveal_strlit("resolve");
    reveal_strlit("resolves");
    reveal_strlit("resolved");
    assert(w.last() == w[w.len() - 1]);
}

proof fn lemma_trim_gap(s: Seq<char>, gap: Seq<char>)
    requires
        forall|i: int| 0 <= i < gap.len() ==> #[trigger] gap[i] == ' ' || gap[i] == ':',
        s.len() == 0 || !CharClass::Gap.has(s.last()),
    ensures
        text::trim_end(s + gap, CharClass::Gap) == s,
    decreases gap.len(),
{
    if gap.len() == 0 {
        assert(s + gap == s);
    } else {
        assert((s + gap).last() == gap[gap.len() - 1]);
        assert((s + gap).drop_last() == s + gap.drop_last());
        lemma_trim_gap(s, gap.drop_last());
    }
}

proof fn lemma_trim_slug(s: Seq<char>, part: Seq<char>)
    requires
        forall|i: int| 0 <= i < part.len() ==> CharClass::Slug.has(#[trigger] part[i]),
        s.len() == 0 || !CharClass::Slug.has(s.last()),
    ensures
        text::trim_end(s + part, CharClass::Slug) == s,
    decreases part.len(),
{
    if part.len() == 0 {
        assert(s + part == s);
    } else {
        assert((s + part).last() == part[part.len() - 1]);
        assert((s + part).drop_last() == s + part.drop_last());
        lemma_trim_slug(s, part.drop_last());
    }
}

proof fn lemma_word_closes(before: Seq<char>, w: Seq<char>)
    requires
        closing_word(w),
        before.len() == 0 || !text::unicode_alphanumeric(before.last()),
    ensures
        ends_in_keyword(before + w),
        (before + w).len() > 0,
        !CharClass::Gap.has((before + w).last()),
{
    lemma_closing_words(w);
    let s = before + w;
    assert(s.skip(s.len() - w.len()) == w);
    assert(s.take(s.len() - w.len()) == before);
    assert(ends_in_word(s, w));
    assert(s.last() == w.last());
}

/// A text that names an issue behind one of the nine closing words closes it: `close`,
/// `closes`, `closed`, `fix`, `fixes`, `fixed`, `resolve`, `resolves` and `resolved`. The
/// word stands by itself, blanks and colons may come between it and the number, and the
/// number ends where it is written.
pub proof fn law_closing_words_close(
    before: Seq<char>,
    w: Seq<char>,
    gap: Seq<char>,
    issue: nat,
    after: Seq<char>,
    slug: Option<Seq<char>>,
)
    requires
        ({
            ||| w == "close"@ || w == "closes"@ || w == "closed"@
            ||| w == "fix"@ || w == "fixes"@ || w == "fixed"@
            ||| w == "resolve"@ || w == "resolves"@ || w == "resolved"@
        }),
        before.len() == 0 || !text::unicode_alphanumeric(before.last()),
        forall|i: int| 0 <= i < gap.len() ==> #[trigger] gap[i] == ' ' || gap[i] == ':',
        after.len() == 0 || !text::unicode_alphanumeric(after[0]),
    ensures
        field_closes(before + w + gap + "#"@ + text::decimal(issue) + after, issue, slug),
{
    let number = "#"@ + text::decimal(issue);
    let field = before + w + gap + "#"@ + text::decimal(issue) + after;
    let i = (before.len() + w.len() + gap.len()) as int;
    assert(field == before + w + gap + number + after);
    assert(field.subrange(i, i + number.len()) == number);
    assert(text::occurs_at(field, issue_ref(issue), i));
    if after.len() > 0 {
        assert(field[i + number.len()] == after[0]);
    }
    assert(field.take(i) == (before + w) + gap);
    lemma_word_closes(before, w);
    lemma_trim_gap(before + w, gap);
}

/// Whether `part` may stand as one part of an `owner/repo`.
pub open spec fn slug_segment(part: Seq<char>) -> bool {
    &&& part.len() > 0
    &&& forall|i: int|
        0 <= i < part.len() ==> (text::unicode_alphanumeric(#[trigger] part[i]) || part[i] == '-'
            || part[i] == '_' || part[i] == '.') && !text::white_space(part[i]) && part[i] != ':'
}

proof fn lemma_qualifier(start: Seq<char>, owner: Seq<char>, repo: Seq<char>)
    requires
        start.len() > 0,
        start.last() == ' ' || start.last() == ':',
        !text::unicode_alphanumeric(start.last()),
        !text::unicode_alphanumeric('/'),
        slug_segment(owner),
        slug_segment(repo),
    ensures
        ({
            let name = owner + seq!['/'] + repo;
            let s = start + name;
            &&& s.last() == repo.last()
            &&& text::trim_end(s, CharClass::Gap) == s
            &&& qualifier_start(s) == Some(start.len())
            &&& s.skip(start.len() as int) == name
            &&& s.take(start.len() as int) == start
            &&& text::trim(name, CharClass::White) == name
        }),
{
    let name = owner + seq!['/'] + repo;
    let s = start + name;
    assert(repo.last() == repo[repo.len() - 1]);
    assert(s.last() == repo.last());
    assert(text::trim_end(s, CharClass::Gap) == s);
    let head = start + owner + seq!['/'];
    assert(s == head + repo);
    assert(head.last() == '/');
    lemma_trim_slug(head, repo);
    assert(s.take(head.len() - 1) == start + owner);
    lemma_trim_slug(start, owner);
    assert(s.skip(start.len() as int) == name);
    assert(s.take(start.len() as int) == start);
    assert(name[0] == owner[0]);
    assert(name.last() == repo[repo.len() - 1]);
    assert(text::trim_start(name, CharClass::White) == name);
}

proof fn lemma_only_number(s: Seq<char>, issue: nat, i: int)
    requires
        !s.contains('#'),
        text::occurs_at(s + issue_ref(issue), issue_ref(issue), i),
    ensures
        i == s.len(),
{
    let number = issue_ref(issue);
    let field = s + number;
    reveal_strlit("#");
    text::law_decimal_reads_back(issue);
    assert(field.subrange(i, i + number.len())[0] == '#');
    assert(field[i] == '#');
    if i < s.len() {
        assert(s[i] == '#');
    }
}

/// A number that is qualified by a repository is closed too, where that is the repository
/// in question or none is known; letter case does not matter.
pub proof fn law_qualified_number_closes(
    before: Seq<char>,
    w: Seq<char>,
    gap: Seq<char>,
    owner: Seq<char>,
    repo: Seq<char>,
    issue: nat,
    slug: Option<Seq<char>>,
)
    requires
        closing_word(w),
        before.len() == 0 || !text::unicode_alphanumeric(before.last()),
        gap.len() > 0,
        forall|i: int| 0 <= i < gap.len() ==> #[trigger] gap[i] == ' ' || gap[i] == ':',
        !text::unicode_alphanumeric(gap.last()),
        !text::unicode_alphanumeric('/'),
        slug_segment(owner),
        slug_segment(repo),
        slug matches Some(name) ==> text::lower(name) == text::lower(owner + seq!['/'] + repo),
    ensures
        field_closes(
            before + w + gap + (owner + seq!['/'] + repo) + issue_ref(issue),
            issue,
            slug,
        ),
{
    let name = owner + seq!['/'] + repo;
    let number = issue_ref(issue);
    let start = before + w + gap;
    let s = start + name;
    let field = s + number;
    let i = s.len() as int;
    assert(field.subrange(i, i + number.len()) == number);
    assert(text::occurs_at(field, number, i));
    assert(field.take(i) == s);
    assert(start.last() == gap[gap.len() - 1]);
    lemma_qualifier(start, owner, repo);
    lemma_word_closes(before, w);
    assert(start == (before + w) + gap);
    lemma_trim_gap(before + w, gap);
}

/// A number that is qualified by another repository than the one in question is not
/// closed.
pub proof fn law_number_of_another_repository_is_not_closed(
    start: Seq<char>,
    owner: Seq<char>,
    repo: Seq<char>,
    issue: nat,
    slug: Seq<char>,
)
    requires
        !(start + (owner + seq!['/'] + repo)).contains('#'),
        start.len() > 0,
        start.last() == ' ',
        !text::unicode_alphanumeric(' '),
        !text::unicode_alphanumeric('/'),
        slug_segment(owner),
        slug_segment(repo),
        repo.last() != 'e' && repo.last() != 's' && repo.last() != 'd' && repo.last() != 'x',
        text::lower(slug) != text::lower(owner + seq!['/'] + repo),
    ensures
        !field_closes(
            start + (owner + seq!['/'] + repo) + issue_ref(issue),
            issue,
            Some(slug),
        ),
{
    let s = start + (owner + seq!['/'] + repo);
    let field = s + issue_ref(issue);
    if field_closes(field, issue, Some(slug)) {
        let i = choose|i: int|
            #![trigger text::occurs_at(field, issue_ref(issue), i)]
            text::occurs_at(field, issue_ref(issue), i) && ref_ends(
                field,
                i + issue_ref(issue).len(),
            ) && closed_by_prefix(field.take(i), Some(slug));
        lemma_only_number(s, issue, i);
        assert(field.take(i) == s);
        lemma_qualifier(start, owner, repo);
        if ends_in_keyword(s) {
            let w = choose|w: Seq<char>| #[trigger] is_close_keyword(w) && ends_in_word(s, w);
            assert(closing_word(w));
            lemma_closing_words(w);
            assert(s.skip(s.len() - w.len()).last() == s.last());
        }
    }
}

/// A number is read to its end: what stands directly behind a closing word is closed under
/// its own number only.
pub proof fn law_only_the_named_issue_is_closed(w: Seq<char>, named: nat, other: nat)
    requires
        closing_word(w),
        named != other,
        forall|c: char| '0' <= c <= '9' ==> #[trigger] text::unicode_alphanumeric(c),
    ensures
        field_closes(w + seq![' '] + issue_ref(named), named, None),
        !field_closes(w + seq![' '] + issue_ref(named), other, None),
{
    law_closing_words_close(seq![], w, seq![' '], named, seq![], None);
    let s = w + seq![' '];
    let field = s + issue_ref(named);
    assert(Seq::<char>::empty() + w + seq![' '] + "#"@ + text::decimal(named)
        + Seq::<char>::empty() == field);
    lemma_closing_words(w);
    reveal_strlit("#");
    text::law_decimal_reads_back(named);
    text::law_decimal_reads_back(other);
    if field_closes(field, other, None) {
        let i = choose|i: int|
            #![trigger text::occurs_at(field, issue_ref(other), i)]
            text::occurs_at(field, issue_ref(other), i) && ref_ends(
                field,
                i + issue_ref(other).len(),
            ) && closed_by_prefix(field.take(i), None);
        let n = issue_ref(other).len();
        assert(field.subrange(i, i + n)[0] == '#');
        assert(field[i] == '#');
        if i < s.len() {
            if i < w.len() {
                assert(w[i] == '#');
            }
        } else if i > s.len() {
            assert(field[i] == text::decimal(named)[i - s.len() - 1]);
        }
        assert(i == s.len());
        let d = text::decimal(named);
        let k = text::decimal(other).len() as int;
        assert(field.subrange(i, i + n).skip(1) == d.take(k));
        assert(issue_ref(other).skip(1) == text::decimal(other));
        assert(d.take(k) == text::decimal(other));
        assert(k < d.len()) by {
            if k == d.len() {
                assert(d.take(k) == d);
            }
        }
        assert(field[i + n] == d[k]);
        assert('0' <= d[k] <= '9');
    }
}

/// A text that holds none of `close`, `fix` and `resolve` closes no issue, whatever it
/// mentions.
pub proof fn law_other_words_close_nothing(field: Seq<char>, issue: nat, slug: Option<Seq<char>>)
    requires
        !text::contains(field, "close"@),
        !text::contains(field, "fix"@),
        !text::contains(field, "resolve"@),
    ensures
        !field_closes(field, issue, slug),
{
    reveal_strlit("close");
    reveal_strlit("closes");
    reveal_strlit("closed");
    reveal_strlit("fix");
    reveal_strlit("fixes");
    reveal_strlit("fixed");
    reveal_strlit("resolve");
    reveal_strlit("resolves");
    reveal_strlit("resolved");
    assert forall|w: Seq<char>| is_close_keyword(w) implies !text::contains(field, w) by {
        if text::contains(field, w) {
            let i = choose|i: int| text::occurs_at(field, w, i);
            let stem = if w[0] == 'c' {
                "close"@
            } else if w[0] == 'f' {
                "fix"@
            } else {
                "resolve"@
            };
            assert(w.take(stem.len() as int) == stem);
            assert(field.subrange(i, i + stem.len()) == field.subrange(i, i + w.len()).take(
                stem.len() as int,
            ));
            assert(text::occurs_at(field, stem, i));
        }
    }
    law_plain_mention_never_closes(field, issue, slug);
}

/// A pull request closes an issue by its title or by its body, whichever letter case they
/// are written in.
pub proof fn law_title_or_body_closes(
    item: GhPrListItem,
    before: Seq<char>,
    w: Seq<char>,
    gap: Seq<char>,
    issue: nat,
    after: Seq<char>,
    slug: Option<Seq<char>>,
)
    requires
        closing_word(w),
        before.len() == 0 || !text::unicode_alphanumeric(before.last()),
        forall|i: int| 0 <= i < gap.len() ==> #[trigger] gap[i] == ' ' || gap[i] == ':',
        after.len() == 0 || !text::unicode_alphanumeric(after[0]),
    ensures
        text::lower(item.title@) == before + w + gap + "#"@ + text::decimal(issue) + after
            ==> item_closes(item, issue, slug),
        text::lower(item.body@) == before + w + gap + "#"@ + text::decimal(issue) + after
            ==> item_closes(item, issue, slug),
{
    law_closing_words_close(before, w, gap, issue, after, slug);
}

/// A pull request whose title and body hold none of `close`, `fix` and `resolve`, in
/// whatever letter case, closes no issue.
pub proof fn law_plain_pull_request_closes_nothing(
    item: GhPrListItem,
    issue: nat,
    slug: Option<Seq<char>>,
)
    requires
        !text::contains(text::lower(item.title@), "close"@),
        !text::contains(text::lower(item.title@), "fix"@),
        !text::contains(text::lower(item.title@), "resolve"@),
        !text::contains(text::lower(item.body@), "close"@),
        !text::contains(text::lower(item.body@), "fix"@),
        !text::contains(text::lower(item.body@), "resolve"@),
    ensures
        !item_closes(item, issue, slug),
{
    law_other_words_close_nothing(text::lower(item.body@), issue, slug);
    law_other_words_close_nothing(text::lower(item.title@), issue, slug);
}

} // verus!
