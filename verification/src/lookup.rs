//! The lookup of an open pull request that closes an issue, page by page.

use crate::closing;
use crate::closing::GhPrListItem;
use crate::text;
use crate::text::CharClass;
use vstd::prelude::*;
use vstd::slice::slice_subrange;
use vstd::string::*;

verus! {

/// How many pages of pull requests a lookup reads at most.
pub const MAX_PAGES: usize = 20;

/// How much of a failed response's body an error shows, in characters.
pub const BODY_SNIPPET_CHARS: usize = 300;

/// The address of the first page of open pull requests of a repository.
pub fn github_pulls_url(api_base_url: &str, repo_slug: &str) -> (r: String)
    ensures
        r@ == pulls_url(api_base_url@, repo_slug@),
{
    let base = text::chars_of(api_base_url);
    let mut out = text::text_of(text::trimmed_end(base.as_slice(), CharClass::Just('/')));
    out.append("/repos/");
    out.append(repo_slug);
    out.append("/pulls?state=open&per_page=100");
    out
}

/// The address of the first page of open pull requests of a repository.
pub open spec fn pulls_url(base: Seq<char>, slug: Seq<char>) -> Seq<char> {
    text::trim_end(base, CharClass::Just('/')) + "/repos/"@ + slug
        + "/pulls?state=open&per_page=100"@
}

/// The beginning of `body`, with `...` where something was left out.
pub open spec fn snippet(body: Seq<char>) -> Seq<char> {
    if body.len() <= BODY_SNIPPET_CHARS {
        body
    } else {
        body.take(BODY_SNIPPET_CHARS as int) + "..."@
    }
}

/// The beginning of `body`, with `...` where something was left out.
pub fn error_body_snippet(body: &str) -> (r: String)
    ensures
        r@ == snippet(body@),
{
    let chars = text::chars_of(body);
    if chars.len() <= BODY_SNIPPET_CHARS {
        return text::text_of(chars.as_slice());
    }
    let head = slice_subrange(chars.as_slice(), 0, BODY_SNIPPET_CHARS);
    assert(head@ == body@.take(BODY_SNIPPET_CHARS as int));
    let mut out = text::text_of(head);
    out.append("...");
    out
}

/// Whether a refused request was refused for its rate.
pub open spec fn rate_limited(
    status: u16,
    retry_after: Option<Seq<char>>,
    remaining: Option<Seq<char>>,
) -> bool {
    status == 429 || retry_after is Some || (status == 403 && remaining == Some("0"@))
}

/// The message for a page that GitHub refused.
pub fn page_refused_message(
    repo_slug: &str,
    issue: u64,
    url: &str,
    status: u16,
    status_line: &str,
    retry_after: Option<&str>,
    remaining: Option<&str>,
    body: &str,
) -> (r: String)
    ensures
        r@ == "GitHub pull request lookup for "@ + repo_slug@ + " issue #"@ + text::decimal(
            issue as nat,
        ) + " at "@ + url@ + " returned "@ + status_line@ + ";"@ + (if rate_limited(
            status,
            text::opt_text(retry_after),
            text::opt_text(remaining),
        ) {
            " rate limit"@
        } else {
            ""@
        }) + " retry-after="@ + (match retry_after {
            Some(t) => t@,
            None => "none"@,
        }) + "; x-ratelimit-remaining="@ + (match remaining {
            Some(t) => t@,
            None => "unknown"@,
        }) + "; body="@ + snippet(body@),
{
    let no_calls_left = match remaining {
        Some(t) => text::str_eq(t, "0"),
        None => false,
    };
    let limited = status == 429 || retry_after.is_some() || (status == 403 && no_calls_left);
    let mut out = "GitHub pull request lookup for ".to_owned();
    out.append(repo_slug);
    out.append(" issue #");
    out.append(text::decimal_text(issue).as_str());
    out.append(" at ");
    out.append(url);
    out.append(" returned ");
    out.append(status_line);
    out.append(";");
    out.append(
        if limited {
            " rate limit"
        } else {
            ""
        },
    );
    out.append(" retry-after=");
    out.append(
        match retry_after {
            Some(t) => t,
            None => "none",
        },
    );
    out.append("; x-ratelimit-remaining=");
    out.append(
        match remaining {
            Some(t) => t,
            None => "unknown",
        },
    );
    out.append("; body=");
    out.append(error_body_snippet(body).as_str());
    out
}

/// Whether a link parameter names the relation `next`, as in `rel="next"`.
pub open spec fn names_next(segment: Seq<char>) -> bool {
    match text::index(segment, CharClass::Just('=')) {
        None => false,
        Some(i) => {
            let key = text::trim(segment.take(i as int), CharClass::White);
            let value = text::trim(
                text::trim(segment.skip((i + 1) as int), CharClass::White),
                CharClass::Just('"'),
            );
            &&& text::lower(key) == text::lower("rel"@)
            &&& exists|j: int|
                0 <= j < text::words(value, CharClass::AsciiWhite).len() && text::lower(
                    #[trigger] text::words(value, CharClass::AsciiWhite)[j],
                ) == text::lower("next"@)
        },
    }
}

/// The target of one link of a `Link` header, if it is the next page.
pub open spec fn next_target(part: Seq<char>) -> Option<Seq<char>> {
    let segments = text::split(part, CharClass::Just(';'));
    let url = text::trim(segments[0], CharClass::White);
    if url.len() > 0 && url[0] == '<' && url.last() == '>' && exists|j: int|
        1 <= j < segments.len() && names_next(
            text::trim(#[trigger] segments[j], CharClass::White),
        ) {
        Some(url.subrange(1, url.len() - 1))
    } else {
        None
    }
}

/// The target of the first link that is the next page.
pub open spec fn first_next(parts: Seq<Seq<char>>) -> Option<Seq<char>>
    decreases parts.len(),
{
    if parts.len() == 0 {
        None
    } else if next_target(parts[0]) is Some {
        next_target(parts[0])
    } else {
        first_next(parts.drop_first())
    }
}

fn lists_next(value: &[char]) -> (r: bool)
    ensures
        r == exists|j: int|
            0 <= j < text::words(value@, CharClass::AsciiWhite).len() && text::lower(
                #[trigger] text::words(value@, CharClass::AsciiWhite)[j],
            ) == text::lower("next"@),
{
    let names = text::word_list(value, CharClass::AsciiWhite);
    let next = text::chars_of("next");
    let ghost all = text::words(value@, CharClass::AsciiWhite);
    let mut j: usize = 0;
    while j < names.len()
        invariant
            j <= names.len(),
            all == text::rows(names@),
            all == text::words(value@, CharClass::AsciiWhite),
            next@ == "next"@,
            forall|k: int| 0 <= k < j ==> text::lower(#[trigger] all[k]) != text::lower("next"@),
        decreases names.len() - j,
    {
        assert(all[j as int] == names@[j as int]@);
        if text::eq_ignore_case(names[j].as_slice(), next.as_slice()) {
            return true;
        }
        j += 1;
    }
    false
}

fn segment_names_next(segment: &[char]) -> (r: bool)
    ensures
        r == names_next(segment@),
{
    match text::index_of(segment, CharClass::Just('=')) {
        None => false,
        Some(i) => {
            let len: usize = segment.len();
            let left = slice_subrange(segment, 0, i);
            let right = slice_subrange(segment, i + 1, len);
            assert(left@ == segment@.take(i as int));
            assert(right@ == segment@.skip(i + 1));
            let rel = text::chars_of("rel");
            if !text::eq_ignore_case(text::trimmed(left, CharClass::White), rel.as_slice()) {
                return false;
            }
            let value = text::trimmed(
                text::trimmed(right, CharClass::White),
                CharClass::Just('"'),
            );
            lists_next(value)
        },
    }
}

/// Whether a link parameter names the relation `next`.
pub fn link_segment_has_next_rel(segment: &str) -> (r: bool)
    ensures
        r == names_next(segment@),
{
    let chars = text::chars_of(segment);
    segment_names_next(chars.as_slice())
}

fn target_if_next(part: &[char]) -> (r: Option<String>)
    ensures
        text::opt_view(r) == next_target(part@),
{
    let segments = text::pieces(part, CharClass::Just(';'));
    let ghost all = text::split(part@, CharClass::Just(';'));
    assert(all[0] == segments@[0]@);
    let url = text::trimmed(segments[0].as_slice(), CharClass::White);
    if url.len() == 0 || url[0] != '<' || url[url.len() - 1] != '>' {
        return None;
    }
    let mut j: usize = 1;
    while j < segments.len()
        invariant
            1 <= j <= segments.len(),
            all == text::rows(segments@),
            all == text::split(part@, CharClass::Just(';')),
            url@ == text::trim(all[0], CharClass::White),
            url@.len() > 0,
            url@[0] == '<',
            url@.last() == '>',
            forall|k: int|
                1 <= k < j ==> !names_next(text::trim(#[trigger] all[k], CharClass::White)),
        decreases segments.len() - j,
    {
        assert(all[j as int] == segments@[j as int]@);
        if segment_names_next(text::trimmed(segments[j].as_slice(), CharClass::White)) {
            return Some(text::text_of(slice_subrange(url, 1, url.len() - 1)));
        }
        j += 1;
    }
    None
}

/// The address of the next page, read from a `Link` header.
pub fn parse_next_link(link: &str) -> (r: Option<String>)
    ensures
        text::opt_view(r) == first_next(text::split(link@, CharClass::Just(','))),
{
    let chars = text::chars_of(link);
    let parts = text::pieces(chars.as_slice(), CharClass::Just(','));
    let ghost all = text::split(link@, CharClass::Just(','));
    let mut i: usize = 0;
    assert(all.skip(0) == all);
    while i < parts.len()
        invariant
            i <= parts.len(),
            all == text::rows(parts@),
            all == text::split(link@, CharClass::Just(',')),
            first_next(all) == first_next(all.skip(i as int)),
        decreases parts.len() - i,
    {
        assert(all.skip(i as int)[0] == parts@[i as int]@);
        assert(all.skip(i as int).drop_first() == all.skip(i + 1));
        let target = target_if_next(parts[i].as_slice());
        if target.is_some() {
            return target;
        }
        i += 1;
    }
    None
}

/// The pull request that a lookup ends with.
pub struct FoundPr {
    pub number: u64,
    pub branch: String,
    pub url: String,
}

/// The first item of a page that closes the issue.
pub open spec fn first_closing(
    items: Seq<GhPrListItem>,
    issue: nat,
    slug: Seq<char>,
) -> Option<GhPrListItem>
    decreases items.len(),
{
    if items.len() == 0 {
        None
    } else if closing::item_closes(items[0], issue, Some(slug)) {
        Some(items[0])
    } else {
        first_closing(items.drop_first(), issue, slug)
    }
}

/// A lookup in progress: the page to read next, and what was read.
pub struct PrLookup {
    repo_slug: String,
    issue: u64,
    next_url: Option<String>,
    seen: Vec<String>,
    pages: usize,
}

/// What a lookup is determined by.
pub struct LookupState {
    pub slug: Seq<char>,
    pub issue: nat,
    pub next: Option<Seq<char>>,
    pub seen: Seq<Seq<char>>,
    pub pages: nat,
}

impl View for PrLookup {
    type V = LookupState;

    closed spec fn view(&self) -> LookupState {
        LookupState {
            slug: self.repo_slug@,
            issue: self.issue as nat,
            next: text::opt_view(self.next_url),
            seen: text::texts(self.seen@),
            pages: self.pages as nat,
        }
    }
}

impl LookupState {
    /// No page was read twice, and no more pages were read than are allowed.
    pub open spec fn wf(self) -> bool {
        &&& self.seen.no_duplicates()
        &&& self.seen.len() <= self.pages
        &&& self.pages <= MAX_PAGES
    }

    /// The page to read now, if the lookup goes on.
    pub open spec fn wanted(self) -> Option<Seq<char>> {
        if self.pages < MAX_PAGES && self.next is Some && !self.seen.contains(self.next->0) {
            self.next
        } else {
            None
        }
    }
}

impl PrLookup {
    /// A lookup that has read nothing yet.
    pub fn new(api_base_url: &str, repo_slug: &str, issue: u64) -> (r: PrLookup)
        ensures
            r@.wf(),
            r@ == (LookupState {
                slug: repo_slug@,
                issue: issue as nat,
                next: Some(pulls_url(api_base_url@, repo_slug@)),
                seen: seq![],
                pages: 0,
            }),
    {
        let first = github_pulls_url(api_base_url, repo_slug);
        let r = PrLookup {
            repo_slug: repo_slug.to_owned(),
            issue,
            next_url: Some(first),
            seen: Vec::new(),
            pages: 0,
        };
        assert(r@.seen == Seq::<Seq<char>>::empty());
        r
    }

    /// The address of the page to read now. `None` ends the lookup: no page is
    /// left, the limit is reached, or the page was read before.
    pub fn next_request(&mut self) -> (r: Option<String>)
        requires
            old(self)@.wf(),
        ensures
            final(self)@.wf(),
            text::opt_view(r) == old(self)@.wanted(),
            match r {
                Some(url) => final(self)@ == (LookupState {
                    next: None,
                    seen: old(self)@.seen.push(url@),
                    pages: old(self)@.pages + 1,
                    ..old(self)@
                }),
                None => final(self)@ == (LookupState { next: None, ..old(self)@ }),
            },
    {
        match self.next_url.take() {
            None => None,
            Some(url) => {
                if self.pages >= MAX_PAGES {
                    return None;
                }
                if text::list_holds(&self.seen, url.as_str()) {
                    return None;
                }
                let ghost before = text::texts(self.seen@);
                self.pages += 1;
                self.seen.push(url.clone());
                assert(text::texts(self.seen@) == before.push(url@));
                Some(url)
            },
        }
    }

    /// Takes in a page that was read. The first item that closes the issue ends
    /// the lookup; otherwise the page's own next page is the one to read.
    pub fn page_read(&mut self, items: &Vec<GhPrListItem>, next_url: Option<String>) -> (r: Option<
        FoundPr,
    >)
        ensures
            match first_closing(items@, old(self)@.issue, old(self)@.slug) {
                Some(item) => {
                    &&& r matches Some(found)
                    &&& found.number == item.number
                    &&& found.branch@ == item.head_ref_name@
                    &&& found.url@ == item.url@
                    &&& final(self)@ == old(self)@
                },
                None => {
                    &&& r is None
                    &&& final(self)@ == (LookupState { next: text::opt_view(next_url), ..old(
                        self,
                    )@ })
                },
            },
    {
        let ghost issue = self@.issue;
        let ghost slug = self@.slug;
        let mut i: usize = 0;
        assert(items@.skip(0) == items@);
        while i < items.len()
            invariant
                i <= items.len(),
                issue == self@.issue,
                slug == self@.slug,
                *self == *old(self),
                first_closing(items@, issue, slug) == first_closing(
                    items@.skip(i as int),
                    issue,
                    slug,
                ),
            decreases items.len() - i,
        {
            assert(items@.skip(i as int).drop_first() == items@.skip(i + 1));
            if closing::pr_claims_to_close_issue(
                &items[i],
                self.issue,
                Some(self.repo_slug.as_str()),
            ) {
                return Some(
                    FoundPr {
                        number: items[i].number,
                        branch: items[i].head_ref_name.clone(),
                        url: items[i].url.clone(),
                    },
                );
            }
            i += 1;
        }
        self.next_url = next_url;
        None
    }
}

/// A lookup reads a bounded number of pages, and no page twice, whatever the
/// pages link to: reading one more page leaves fewer pages to read, and the page
/// is a new one.
pub proof fn law_lookup_terminates(s: LookupState)
    requires
        s.wf(),
        s.wanted() is Some,
    ensures
        s.pages < MAX_PAGES,
        !s.seen.contains(s.wanted()->0),
        (LookupState { next: None, seen: s.seen.push(s.wanted()->0), pages: s.pages + 1, ..s }).wf(),
{
    let url = s.wanted()->0;
    let seen = s.seen.push(url);
    assert forall|i: int, j: int| 0 <= i < seen.len() && 0 <= j < seen.len() && i != j implies seen[i]
        != seen[j] by {
        if i < s.seen.len() && j < s.seen.len() {
        } else if i < s.seen.len() {
            assert(s.seen.contains(s.seen[i]));
        } else if j < s.seen.len() {
            assert(s.seen.contains(s.seen[j]));
        }
    }
}

/// The first page is asked for at the host that is given, with or without a slash at its
/// end, and names the repository whole.
pub proof fn law_first_page_is_of_the_repository(base: Seq<char>, slug: Seq<char>)
    ensures
        text::ends_with(
            pulls_url(base, slug),
            "/repos/"@ + slug + "/pulls?state=open&per_page=100"@,
        ),
        pulls_url(base.push('/'), slug) == pulls_url(base, slug),
        base.len() > 0 && base.last() != '/' ==> text::starts_with(pulls_url(base, slug), base),
{
    let host = text::trim_end(base, CharClass::Just('/'));
    let tail = "/repos/"@ + slug + "/pulls?state=open&per_page=100"@;
    assert(pulls_url(base, slug) == host + tail);
    text::lemma_ends(host, tail);
    assert(base.push('/').drop_last() == base);
    if base.len() > 0 && base.last() != '/' {
        assert(host == base);
        text::lemma_begins(base, tail);
    }
}

/// An error shows a body of at most three hundred characters whole, and of a longer one
/// exactly as many, with three dots behind them.
pub proof fn law_long_body_is_cut(body: Seq<char>)
    ensures
        body.len() <= 300 ==> snippet(body) == body,
        body.len() > 300 ==> snippet(body) == body.subrange(0, 300) + "..."@,
{
}

/// A request was refused for its rate where the status, a wait or the number of requests
/// left says so; that none are left counts only where access was refused.
pub proof fn law_rate_limits_are_told(
    status: u16,
    retry_after: Option<Seq<char>>,
    remaining: Option<Seq<char>>,
)
    ensures
        status == 429 ==> rate_limited(status, retry_after, remaining),
        retry_after is Some ==> rate_limited(status, retry_after, remaining),
        status == 403 && remaining == Some("0"@) ==> rate_limited(status, retry_after, remaining),
        retry_after is None && status != 429 && status != 403 ==> !rate_limited(
            status,
            retry_after,
            remaining,
        ),
        retry_after is None && status != 429 && remaining != Some("0"@) ==> !rate_limited(
            status,
            retry_after,
            remaining,
        ),
{
}

/// A parameter of a link names the next page exactly when its relation is `next`, in
/// whatever case.
pub proof fn law_relation_is_read(name: Seq<char>)
    requires
        name.len() > 0,
        forall|i: int|
            0 <= i < name.len() ==> #[trigger] name[i] != '"' && !text::ascii_white_space(name[i]),
    ensures
        names_next("rel=\""@ + name + "\""@) == (text::lower(name) == text::lower("next"@)),
{
    let s = "rel=\""@ + name + "\""@;
    reveal_strlit("rel=\"");
    reveal_strlit("\"");
    reveal_strlit("rel");
    reveal_with_fuel(text::index_from, 5);
    assert(text::index(s, CharClass::Just('=')) == Some(3nat));
    assert(s.take(3) == "rel"@);
    text::lemma_trim_same("rel"@, CharClass::White);
    let quoted = s.skip(4);
    assert(quoted == seq!['"'] + name + seq!['"']);
    text::lemma_trim_same(quoted, CharClass::White);
    let q = CharClass::Just('"');
    let right = name + seq!['"'];
    assert(quoted.drop_first() == right);
    assert(right[0] == name[0]);
    assert(text::trim_start(right, q) == right);
    assert(text::trim_start(quoted, q) == right);
    assert(right.drop_last() == name);
    assert(name.last() == name[name.len() - 1]);
    assert(text::trim_end(name, q) == name);
    assert(text::trim_end(right, q) == name);
    let k = CharClass::AsciiWhite;
    text::lemma_split_single(name, k);
    lemma_one_word(name);
    let ws = text::words(name, k);
    assert(ws == seq![name]);
    assert(ws[0] == name);
    assert(text::trim(text::trim(s.skip((3nat + 1) as int), CharClass::White), q) == name);
    let value = text::trim(text::trim(s.skip((3nat + 1) as int), CharClass::White), q);
    assert(text::trim(s.take(3nat as int), CharClass::White) == "rel"@);
    assert(text::words(value, k)[0] == name);
    if names_next(s) {
        let j = choose|j: int|
            0 <= j < text::words(value, k).len() && text::lower(#[trigger] text::words(value, k)[j])
                == text::lower("next"@);
        assert(text::words(value, k)[j] == name);
    }
}

proof fn lemma_one_word(word: Seq<char>)
    requires
        word.len() > 0,
    ensures
        text::nonempty(seq![word]) == seq![word],
{
    reveal(Seq::filter);
    let keep = |p: Seq<char>| p.len() > 0;
    let one = seq![word];
    assert(one.drop_last() == Seq::<Seq<char>>::empty());
    assert(one.drop_last().filter(keep) == Seq::<Seq<char>>::empty());
    assert(one.last() == word);
    assert(one.filter(keep) == Seq::<Seq<char>>::empty().push(word));
}

/// A link whose parameter names the next page leads to what stands between its brackets; a
/// link with another relation leads nowhere.
pub proof fn law_next_link_reads_back(url: Seq<char>, name: Seq<char>)
    requires
        name.len() > 0,
        forall|i: int| 0 <= i < url.len() ==> #[trigger] url[i] != ';',
        forall|i: int|
            0 <= i < name.len() ==> #[trigger] name[i] != '"' && name[i] != ';'
                && !text::ascii_white_space(name[i]),
    ensures
        next_target("<"@ + url + ">; rel=\""@ + name + "\""@) == (if text::lower(name)
            == text::lower("next"@) {
            Some(url)
        } else {
            None
        }),
{
    let part = "<"@ + url + ">; rel=\""@ + name + "\""@;
    reveal_strlit("<");
    reveal_strlit(">; rel=\"");
    reveal_strlit("\"");
    reveal_strlit("rel=\"");
    let k = CharClass::Just(';');
    let target = seq!['<'] + url + seq!['>'];
    let named = "rel=\""@ + name + "\""@;
    let param = seq![' '] + named;
    let a = target + seq![';'];
    assert(part == a + param);
    text::lemma_split_concat(a, param, k);
    assert(a.drop_last() == target);
    assert forall|i: int| 0 <= i < target.len() implies !k.has(#[trigger] target[i]) by {
        if 0 < i < target.len() - 1 {
            assert(target[i] == url[i - 1]);
        }
    }
    text::lemma_split_single(target, k);
    assert(text::split(a, k) == seq![target].push(Seq::<char>::empty()));
    assert(text::split(a, k).drop_last() == seq![target]);
    assert forall|i: int| 0 <= i < param.len() implies !k.has(#[trigger] param[i]) by {
        if 6 <= i < param.len() - 1 {
            assert(param[i] == name[i - 6]);
        }
    }
    text::lemma_split_single(param, k);
    let segments = text::split(part, k);
    assert(segments == seq![target, param]);
    text::lemma_trim_same(target, CharClass::White);
    assert(target.subrange(1, target.len() - 1) == url);
    assert(param.drop_first() == named);
    assert(named[0] == 'r');
    assert(text::trim_start(named, CharClass::White) == named);
    assert(text::trim_start(param, CharClass::White) == named);
    assert(text::trim(param, CharClass::White) == named);
    law_relation_is_read(name);
    assert(segments[1] == param);
    if text::lower(name) == text::lower("next"@) {
        assert(names_next(text::trim(segments[1], CharClass::White)));
    }
}

/// The first link to a next page counts, whatever stands before and behind it.
pub proof fn law_first_next_link_counts(
    before: Seq<Seq<char>>,
    part: Seq<char>,
    after: Seq<Seq<char>>,
)
    requires
        forall|i: int| 0 <= i < before.len() ==> next_target(#[trigger] before[i]) is None,
    ensures
        first_next(before) is None,
        next_target(part) is Some ==> first_next(before.push(part) + after) == next_target(part),
    decreases before.len(),
{
    let all = before.push(part) + after;
    if before.len() == 0 {
        assert(all[0] == part);
    } else {
        assert(all[0] == before[0]);
        assert(all.drop_first() == before.drop_first().push(part) + after);
        assert forall|i: int| 0 <= i < before.drop_first().len() implies next_target(
            #[trigger] before.drop_first()[i],
        ) is None by {
            assert(before.drop_first()[i] == before[i + 1]);
        }
        law_first_next_link_counts(before.drop_first(), part, after);
    }
}

/// The first pull request of a page that closes the issue is the one that is found; where
/// none closes it, none is.
pub proof fn law_first_closing_pull_request_is_found(
    before: Seq<GhPrListItem>,
    item: GhPrListItem,
    after: Seq<GhPrListItem>,
    issue: nat,
    slug: Seq<char>,
)
    requires
        forall|i: int|
            0 <= i < before.len() ==> !closing::item_closes(
                #[trigger] before[i],
                issue,
                Some(slug),
            ),
    ensures
        first_closing(before, issue, slug) is None,
        closing::item_closes(item, issue, Some(slug)) ==> first_closing(
            before.push(item) + after,
            issue,
            slug,
        ) == Some(item),
    decreases before.len(),
{
    let all = before.push(item) + after;
    if before.len() == 0 {
        assert(all[0] == item);
    } else {
        let less = before.drop_first();
        assert(all[0] == before[0]);
        assert(all.drop_first() == less.push(item) + after);
        assert forall|i: int| 0 <= i < less.len() implies !closing::item_closes(
            #[trigger] less[i],
            issue,
            Some(slug),
        ) by {
            assert(less[i] == before[i + 1]);
        }
        law_first_closing_pull_request_is_found(less, item, after, issue, slug);
    }
}

/// A page that was not read yet is read as long as fewer than twenty were.
pub proof fn law_twenty_pages_are_read(s: LookupState, url: Seq<char>)
    ensures
        s.next == Some(url) && s.pages < 20 && !s.seen.contains(url) ==> s.wanted() == Some(url),
        s.next is None ==> s.wanted() is None,
        s.pages >= 20 ==> s.wanted() is None,
        s.next == Some(url) && s.seen.contains(url) ==> s.wanted() is None,
{
}

} // verus!
