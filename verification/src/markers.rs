//! The lines by which an agent reports what it did, such as `PR_URL=…`.
//!
//! A marker is a line of its own; white space around it counts for nothing. Where a
//! marker is given twice the later line counts: an agent may correct itself.

use crate::text;
use crate::text::CharClass;
use vstd::prelude::*;
use vstd::string::*;

verus! {

/// What an agent did to bring a pull request's branch up to date.
#[derive(Debug, PartialEq, Eq)]
pub enum PrReviewPrepOutcome {
    RebasePushed,
    RebaseSkipped,
    RebaseConflict { paths: Vec<String> },
}

/// What a [`PrReviewPrepOutcome`] holds.
pub enum PrepView {
    RebasePushed,
    RebaseSkipped,
    RebaseConflict { paths: Seq<Seq<char>> },
}

impl View for PrReviewPrepOutcome {
    type V = PrepView;

    open spec fn view(&self) -> PrepView {
        match self {
            PrReviewPrepOutcome::RebasePushed => PrepView::RebasePushed,
            PrReviewPrepOutcome::RebaseSkipped => PrepView::RebaseSkipped,
            PrReviewPrepOutcome::RebaseConflict { paths } => PrepView::RebaseConflict {
                paths: text::texts(paths@),
            },
        }
    }
}

impl PrReviewPrepOutcome {
    /// A copy.
    pub fn copy(&self) -> (r: PrReviewPrepOutcome)
        ensures
            r@ == self@,
    {
        match self {
            PrReviewPrepOutcome::RebasePushed => PrReviewPrepOutcome::RebasePushed,
            PrReviewPrepOutcome::RebaseSkipped => PrReviewPrepOutcome::RebaseSkipped,
            PrReviewPrepOutcome::RebaseConflict { paths } => PrReviewPrepOutcome::RebaseConflict {
                paths: text::copy_list(paths.as_slice()),
            },
        }
    }
}

/// The view of an optional outcome.
pub open spec fn opt_prep(o: Option<PrReviewPrepOutcome>) -> Option<PrepView> {
    match o {
        None => None,
        Some(p) => Some(p@),
    }
}

/// The view of a borrowed optional outcome.
pub open spec fn prep_of(o: Option<&PrReviewPrepOutcome>) -> Option<PrepView> {
    match o {
        None => None,
        Some(p) => Some(p@),
    }
}

/// What stands behind `name` on the last of the lines that begins with it.
pub open spec fn last_value(rows: Seq<Seq<char>>, name: Seq<char>) -> Option<Seq<char>>
    decreases rows.len(),
{
    if rows.len() == 0 {
        None
    } else {
        let row = text::trim(rows.last(), CharClass::White);
        if text::starts_with(row, name) {
            Some(text::trim(row.skip(name.len() as int), CharClass::White))
        } else {
            last_value(rows.drop_last(), name)
        }
    }
}

/// A marker that is given again later counts; where it is not, the earlier one does.
pub proof fn law_later_marker_counts(
    earlier: Seq<Seq<char>>,
    later: Seq<Seq<char>>,
    name: Seq<char>,
)
    ensures
        last_value(earlier + later, name) == (if last_value(later, name) is Some {
            last_value(later, name)
        } else {
            last_value(earlier, name)
        }),
    decreases later.len(),
{
    if later.len() == 0 {
        assert(earlier + later == earlier);
    } else {
        assert((earlier + later).drop_last() == earlier + later.drop_last());
        law_later_marker_counts(earlier, later.drop_last(), name);
    }
}

/// What an output says behind `name`.
pub open spec fn marker(output: Seq<char>, name: Seq<char>) -> Option<Seq<char>> {
    last_value(text::lines(output), name)
}

/// The view of an optional row of characters.
pub open spec fn opt_chars(o: Option<Vec<char>>) -> Option<Seq<char>> {
    match o {
        None => None,
        Some(v) => Some(v@),
    }
}

fn copied(s: &[char]) -> (r: Vec<char>)
    ensures
        r@ == s@,
{
    let mut out: Vec<char> = Vec::new();
    let mut i: usize = 0;
    while i < s.len()
        invariant
            i <= s.len(),
            out@ == s@.take(i as int),
        decreases s.len() - i,
    {
        assert(s@.take(i + 1) == s@.take(i as int).push(s@[i as int]));
        out.push(s[i]);
        i += 1;
    }
    assert(s@.take(i as int) == s@);
    out
}

/// What an output says behind `name`.
pub fn marker_value(output: &str, name: &str) -> (r: Option<Vec<char>>)
    ensures
        opt_chars(r) == marker(output@, name@),
{
    let chars = text::chars_of(output);
    let prefix = text::chars_of(name);
    let all = text::line_list(chars.as_slice());
    let ghost rows = text::lines(output@);
    let mut n: usize = all.len();
    assert(rows.take(n as int) == rows);
    while n > 0
        invariant
            n <= all.len(),
            rows == text::rows(all@),
            rows == text::lines(output@),
            prefix@ == name@,
            last_value(rows, name@) == last_value(rows.take(n as int), name@),
        decreases n,
    {
        let row = text::trimmed(all[n - 1].as_slice(), CharClass::White);
        assert(rows.take(n as int).last() == all@[n - 1]@);
        assert(rows.take(n as int).drop_last() == rows.take(n - 1));
        if text::has_prefix(row, prefix.as_slice()) {
            let rest = vstd::slice::slice_subrange(row, prefix.len(), row.len());
            assert(rest@ == row@.skip(prefix@.len() as int));
            return Some(copied(text::trimmed(rest, CharClass::White)));
        }
        n -= 1;
    }
    None
}

/// What is wrong with the plan, if the agent says so.
pub open spec fn plan_issue(output: Seq<char>) -> Option<Seq<char>> {
    match marker(output, "PLAN_ISSUE="@) {
        Some(v) => if v.len() > 0 {
            Some(v)
        } else {
            None
        },
        None => None,
    }
}

/// What is wrong with the plan, if the agent says so.
pub fn parse_plan_issue(output: &str) -> (r: Option<String>)
    ensures
        text::opt_view(r) == plan_issue(output@),
{
    match marker_value(output, "PLAN_ISSUE=") {
        Some(v) => if v.len() > 0 {
            Some(text::text_of(v.as_slice()))
        } else {
            None
        },
        None => None,
    }
}

/// The pull request that the agent names.
pub open spec fn pr_url(output: Seq<char>) -> Option<Seq<char>> {
    match marker(output, "PR_URL="@) {
        Some(v) => if v.len() > 0 {
            Some(v)
        } else {
            None
        },
        None => None,
    }
}

/// The pull request that the agent names.
pub fn parse_pr_url(output: &str) -> (r: Option<String>)
    ensures
        text::opt_view(r) == pr_url(output@),
{
    match marker_value(output, "PR_URL=") {
        Some(v) => if v.len() > 0 {
            Some(text::text_of(v.as_slice()))
        } else {
            None
        },
        None => None,
    }
}

/// The part of `s` before the first character that ends a piece of an address.
pub open spec fn first_piece(s: Seq<char>) -> Seq<char>
    decreases s.len(),
{
    if s.len() == 0 || s[0] == '/' || s[0] == '?' || s[0] == '#' {
        Seq::empty()
    } else {
        seq![s[0]] + first_piece(s.skip(1))
    }
}

/// The number of the pull request that an address stands for: what follows `/pull/`.
pub open spec fn pr_number(url: Seq<char>) -> Option<nat> {
    match text::find(url, "/pull/"@) {
        Some(i) => text::parsed_number(first_piece(url.skip((i + 6) as int))),
        None => None,
    }
}

fn piece_len(s: &[char]) -> (r: usize)
    ensures
        r <= s@.len(),
        first_piece(s@) == s@.take(r as int),
{
    let mut n: usize = 0;
    assert(s@.skip(0) == s@);
    assert(s@.take(0) + first_piece(s@.skip(0)) == first_piece(s@));
    while n < s.len() && s[n] != '/' && s[n] != '?' && s[n] != '#'
        invariant
            n <= s.len(),
            first_piece(s@) == s@.take(n as int) + first_piece(s@.skip(n as int)),
        decreases s.len() - n,
    {
        assert(s@.skip(n as int).skip(1) == s@.skip(n + 1));
        assert(s@.take(n + 1) == s@.take(n as int) + seq![s@[n as int]]);
        assert(first_piece(s@) == s@.take(n + 1) + first_piece(s@.skip(n + 1)));
        n += 1;
    }
    assert(first_piece(s@.skip(n as int)) == Seq::<char>::empty());
    n
}

/// The number of the pull request that an address stands for.
pub fn extract_pr_number(url: &str) -> (r: Option<u64>)
    ensures
        text::opt_number(r) == pr_number(url@),
{
    let chars = text::chars_of(url);
    let needle = text::chars_of("/pull/");
    let len: usize = chars.len();
    proof {
        reveal_strlit("/pull/");
        text::law_find_is_first_occurrence(url@, "/pull/"@);
    }
    match text::position(chars.as_slice(), needle.as_slice()) {
        Some(i) => {
            let rest = vstd::slice::slice_subrange(chars.as_slice(), i + 6, len);
            assert(rest@ == url@.skip(i + 6));
            let n: usize = piece_len(rest);
            let piece = vstd::slice::slice_subrange(rest, 0, n);
            assert(piece@ == rest@.take(n as int));
            text::parse_number(piece)
        },
        None => None,
    }
}

/// The number behind `name` on the last of the lines that has one there.
pub open spec fn last_number(rows: Seq<Seq<char>>, name: Seq<char>) -> Option<nat>
    decreases rows.len(),
{
    if rows.len() == 0 {
        None
    } else {
        match line_number(rows.last(), name) {
            Some(n) => Some(n),
            None => last_number(rows.drop_last(), name),
        }
    }
}

/// The number behind `name` on a line that begins with it.
pub open spec fn line_number(line: Seq<char>, name: Seq<char>) -> Option<nat> {
    let row = text::trim(line, CharClass::White);
    if text::starts_with(row, name) {
        text::parsed_number(text::trim(row.skip(name.len() as int), CharClass::White))
    } else {
        None
    }
}

/// The issue that the agent made.
pub open spec fn created_issue(output: Seq<char>) -> Option<nat> {
    last_number(text::lines(output), "CREATED_ISSUE="@)
}

/// The issue that the agent made.
pub fn parse_created_issue_number(output: &str) -> (r: Option<u64>)
    ensures
        text::opt_number(r) == created_issue(output@),
{
    let name = text::chars_of("CREATED_ISSUE=");
    let chars = text::chars_of(output);
    let all = text::line_list(chars.as_slice());
    let ghost rows = text::lines(output@);
    let mut n: usize = all.len();
    assert(rows.take(n as int) == rows);
    while n > 0
        invariant
            n <= all.len(),
            rows == text::rows(all@),
            rows == text::lines(output@),
            name@ == "CREATED_ISSUE="@,
            last_number(rows, name@) == last_number(rows.take(n as int), name@),
        decreases n,
    {
        let row = text::trimmed(all[n - 1].as_slice(), CharClass::White);
        assert(rows.take(n as int).last() == all@[n - 1]@);
        assert(rows.take(n as int).drop_last() == rows.take(n - 1));
        if text::has_prefix(row, name.as_slice()) {
            let rest = vstd::slice::slice_subrange(row, name.len(), row.len());
            assert(rest@ == row@.skip(name@.len() as int));
            let number = text::parse_number(text::trimmed(rest, CharClass::White));
            if number.is_some() {
                return number;
            }
        }
        n -= 1;
    }
    None
}

proof fn lemma_last_number_concat(a: Seq<Seq<char>>, b: Seq<Seq<char>>, name: Seq<char>)
    ensures
        last_number(a + b, name) == (if last_number(b, name) is Some {
            last_number(b, name)
        } else {
            last_number(a, name)
        }),
    decreases b.len(),
{
    if b.len() == 0 {
        assert(a + b == a);
    } else {
        assert((a + b).drop_last() == a + b.drop_last());
        lemma_last_number_concat(a, b.drop_last(), name);
    }
}

/// An output can be searched for the issue in pieces that end with a line: the last
/// piece that names one counts.
pub proof fn law_issue_is_found_in_pieces(before: Seq<char>, piece: Seq<char>)
    requires
        before.len() == 0 || before.last() == '\n',
    ensures
        created_issue(before + piece) == (if created_issue(piece) is Some {
            created_issue(piece)
        } else {
            created_issue(before)
        }),
{
    text::lemma_lines_concat(before, piece);
    lemma_last_number_concat(text::lines(before), text::lines(piece), "CREATED_ISSUE="@);
}

/// Whether the agent says that it pushed a commit; an error where it says neither yes
/// nor no.
pub open spec fn pushed_commit(output: Seq<char>) -> Result<Option<bool>, Seq<char>> {
    match marker(output, "PUSHED_COMMIT="@) {
        None => Ok(None),
        Some(v) => if v == "true"@ {
            Ok(Some(true))
        } else if v == "false"@ {
            Ok(Some(false))
        } else {
            Err("invalid PUSHED_COMMIT value `"@ + v + "`; expected true or false"@)
        },
    }
}

/// The view of a result whose error is a string.
pub open spec fn flag_view(r: Result<Option<bool>, String>) -> Result<Option<bool>, Seq<char>> {
    match r {
        Ok(v) => Ok(v),
        Err(e) => Err(e@),
    }
}

/// Whether the agent says that it pushed a commit; an error where it says neither yes
/// nor no.
pub fn parse_pushed_commit(output: &str) -> (r: Result<Option<bool>, String>)
    ensures
        flag_view(r) == pushed_commit(output@),
{
    match marker_value(output, "PUSHED_COMMIT=") {
        None => Ok(None),
        Some(v) => {
            let value = text::text_of(v.as_slice());
            if text::str_eq(value.as_str(), "true") {
                return Ok(Some(true));
            }
            if text::str_eq(value.as_str(), "false") {
                return Ok(Some(false));
            }
            let mut e = "invalid PUSHED_COMMIT value `".to_owned();
            e.append(value.as_str());
            e.append("`; expected true or false");
            Err(e)
        },
    }
}

/// The paths of a list that commas separate.
pub open spec fn path_list(s: Seq<char>) -> Seq<Seq<char>> {
    let parts = text::split(s, CharClass::Just(','));
    text::nonempty(
        Seq::new(parts.len(), |i: int| text::trim(parts[i], CharClass::White)),
    )
}

/// The paths of a list that commas separate.
pub fn parse_paths(s: &[char]) -> (r: Vec<String>)
    ensures
        text::texts(r@) == path_list(s@),
{
    let parts = text::pieces(s, CharClass::Just(','));
    let ghost split = text::split(s@, CharClass::Just(','));
    let ghost all = Seq::new(split.len(), |i: int| text::trim(split[i], CharClass::White));
    let mut out: Vec<String> = Vec::new();
    let mut i: usize = 0;
    assert(all.take(0) == Seq::<Seq<char>>::empty());
    proof {
        reveal(Seq::filter);
    }
    while i < parts.len()
        invariant
            i <= parts.len(),
            split == text::rows(parts@),
            all == Seq::new(split.len(), |j: int| text::trim(split[j], CharClass::White)),
            text::texts(out@) == text::nonempty(all.take(i as int)),
        decreases parts.len() - i,
    {
        proof {
            reveal(Seq::filter);
            assert(all.take(i + 1).drop_last() == all.take(i as int));
            assert(split[i as int] == parts@[i as int]@);
        }
        let path = text::trimmed(parts[i].as_slice(), CharClass::White);
        if path.len() > 0 {
            let ghost before = text::texts(out@);
            out.push(text::text_of(path));
            assert(text::texts(out@) == before.push(all[i as int]));
        }
        i += 1;
    }
    assert(all.take(i as int) == all);
    out
}

/// What one line says of a rebase.
pub open spec fn prep_line(row: Seq<char>) -> Option<PrepView> {
    if row == "REBASE_PUSHED"@ {
        Some(PrepView::RebasePushed)
    } else if row == "REBASE_SKIPPED"@ {
        Some(PrepView::RebaseSkipped)
    } else if text::starts_with(row, "REBASE_CONFLICT paths="@) {
        Some(PrepView::RebaseConflict { paths: path_list(row.skip(22)) })
    } else {
        None
    }
}

/// What one line says of a rebase.
fn parse_prep_line(row: &[char]) -> (r: Option<PrReviewPrepOutcome>)
    ensures
        opt_prep(r) == prep_line(row@),
{
    let line = text::text_of(row);
    if text::str_eq(line.as_str(), "REBASE_PUSHED") {
        return Some(PrReviewPrepOutcome::RebasePushed);
    }
    if text::str_eq(line.as_str(), "REBASE_SKIPPED") {
        return Some(PrReviewPrepOutcome::RebaseSkipped);
    }
    let prefix = text::chars_of("REBASE_CONFLICT paths=");
    proof {
        reveal_strlit("REBASE_CONFLICT paths=");
    }
    if text::has_prefix(row, prefix.as_slice()) {
        let rest = vstd::slice::slice_subrange(row, 22, row.len());
        assert(rest@ == row@.skip(22));
        return Some(PrReviewPrepOutcome::RebaseConflict { paths: parse_paths(rest) });
    }
    None
}

/// What the last of the lines that speaks of a rebase says.
pub open spec fn last_prep(rows: Seq<Seq<char>>) -> Option<PrepView>
    decreases rows.len(),
{
    if rows.len() == 0 {
        None
    } else {
        let row = text::trim(rows.last(), CharClass::White);
        if prep_line(row) is Some {
            prep_line(row)
        } else {
            last_prep(rows.drop_last())
        }
    }
}

/// What an output says of a rebase.
pub open spec fn review_prep(output: Seq<char>) -> Option<PrepView> {
    last_prep(text::lines(output))
}

/// What an output says of a rebase.
pub fn parse_pr_review_prep_outcome(output: &str) -> (r: Option<PrReviewPrepOutcome>)
    ensures
        opt_prep(r) == review_prep(output@),
{
    let chars = text::chars_of(output);
    let all = text::line_list(chars.as_slice());
    let ghost rows = text::lines(output@);
    let mut n: usize = all.len();
    assert(rows.take(n as int) == rows);
    while n > 0
        invariant
            n <= all.len(),
            rows == text::rows(all@),
            rows == text::lines(output@),
            last_prep(rows) == last_prep(rows.take(n as int)),
        decreases n,
    {
        let row = text::trimmed(all[n - 1].as_slice(), CharClass::White);
        assert(rows.take(n as int).last() == all@[n - 1]@);
        assert(rows.take(n as int).drop_last() == rows.take(n - 1));
        let prep = parse_prep_line(row);
        if prep.is_some() {
            return prep;
        }
        n -= 1;
    }
    None
}

proof fn lemma_last_value(rows: Seq<Seq<char>>, name: Seq<char>, k: int)
    requires
        -1 <= k < rows.len(),
        k >= 0 ==> text::starts_with(text::trim(rows[k], CharClass::White), name),
        forall|j: int|
            k < j < rows.len() ==> !text::starts_with(
                text::trim(#[trigger] rows[j], CharClass::White),
                name,
            ),
    ensures
        k == -1 ==> last_value(rows, name) is None,
        k >= 0 ==> last_value(rows, name) == Some(
            text::trim(
                text::trim(rows[k], CharClass::White).skip(name.len() as int),
                CharClass::White,
            ),
        ),
    decreases rows.len(),
{
    if rows.len() > 0 && k < rows.len() - 1 {
        assert(!text::starts_with(text::trim(rows[rows.len() - 1], CharClass::White), name));
        lemma_last_value(rows.drop_last(), name, k);
    }
}

/// A marker stands on a line of its own, and the last line that begins with its name
/// counts, whatever other lines say; without such a line there is no marker.
pub proof fn law_last_marker_line_counts(output: Seq<char>, name: Seq<char>, k: int)
    requires
        -1 <= k < text::lines(output).len(),
        k >= 0 ==> text::starts_with(text::trim(text::lines(output)[k], CharClass::White), name),
        forall|j: int|
            k < j < text::lines(output).len() ==> !text::starts_with(
                text::trim(#[trigger] text::lines(output)[j], CharClass::White),
                name,
            ),
    ensures
        k == -1 ==> marker(output, name) is None,
        k >= 0 ==> marker(output, name) == Some(
            text::trim(
                text::trim(text::lines(output)[k], CharClass::White).skip(name.len() as int),
                CharClass::White,
            ),
        ),
{
    lemma_last_value(text::lines(output), name, k);
}

/// What an agent writes behind a name on its last line is read back, whatever it wrote
/// before.
pub proof fn law_marker_reads_back(before: Seq<char>, name: Seq<char>, value: Seq<char>)
    requires
        before.len() == 0 || before.last() == '\n',
        name.len() > 0,
        !text::white_space(name[0]),
        value.len() > 0,
        !text::white_space(value[0]),
        !text::white_space(value.last()),
        forall|i: int| 0 <= i < name.len() ==> #[trigger] name[i] != '\n',
        forall|i: int| 0 <= i < value.len() ==> #[trigger] value[i] != '\n',
    ensures
        marker(before + (name + value), name) == Some(value),
{
    let line = name + value;
    text::law_last_line_is_read_whole(before, line);
    text::lemma_trim_same(line, CharClass::White);
    assert(line.take(name.len() as int) == name);
    assert(line.skip(name.len() as int) == value);
    text::lemma_trim_same(value, CharClass::White);
    let rows = text::lines(before + line);
    assert(rows.last() == line);
}

/// The pull request, the fault of the plan and the pushed commit that an agent names on its
/// last line are taken as they stand there.
pub proof fn law_named_values_are_taken(before: Seq<char>, value: Seq<char>)
    requires
        before.len() == 0 || before.last() == '\n',
        value.len() > 0,
        !text::white_space(value[0]),
        !text::white_space(value.last()),
        forall|i: int| 0 <= i < value.len() ==> #[trigger] value[i] != '\n',
    ensures
        pr_url(before + ("PR_URL="@ + value)) == Some(value),
        plan_issue(before + ("PLAN_ISSUE="@ + value)) == Some(value),
        value != "true"@ && value != "false"@ ==> pushed_commit(
            before + ("PUSHED_COMMIT="@ + value),
        ) is Err,
{
    reveal_strlit("PR_URL=");
    reveal_strlit("PLAN_ISSUE=");
    reveal_strlit("PUSHED_COMMIT=");
    law_marker_reads_back(before, "PR_URL="@, value);
    law_marker_reads_back(before, "PLAN_ISSUE="@, value);
    law_marker_reads_back(before, "PUSHED_COMMIT="@, value);
}

/// An agent that says on its last line that it pushed a commit, or that it did not, is
/// taken at its word.
pub proof fn law_pushed_commit_is_taken_at_its_word(before: Seq<char>)
    requires
        before.len() == 0 || before.last() == '\n',
    ensures
        pushed_commit(before + ("PUSHED_COMMIT="@ + "true"@)) == Ok::<Option<bool>, Seq<char>>(
            Some(true),
        ),
        pushed_commit(before + ("PUSHED_COMMIT="@ + "false"@)) == Ok::<Option<bool>, Seq<char>>(
            Some(false),
        ),
{
    reveal_strlit("PUSHED_COMMIT=");
    reveal_strlit("true");
    reveal_strlit("false");
    assert("true"@.len() == 4 && "false"@.len() == 5);
    law_marker_reads_back(before, "PUSHED_COMMIT="@, "true"@);
    law_marker_reads_back(before, "PUSHED_COMMIT="@, "false"@);
}

/// An output without one of these markers names nothing by it; one whose marker is empty
/// names no pull request and no fault of the plan.
pub proof fn law_no_marker_names_nothing(output: Seq<char>)
    ensures
        marker(output, "PR_URL="@) is None ==> pr_url(output) is None,
        marker(output, "PLAN_ISSUE="@) is None ==> plan_issue(output) is None,
        marker(output, "PUSHED_COMMIT="@) is None ==> pushed_commit(output) == Ok::<
            Option<bool>,
            Seq<char>,
        >(None),
        marker(output, "PR_URL="@) matches Some(v) ==> (v.len() == 0 ==> pr_url(output) is None),
        marker(output, "PLAN_ISSUE="@) matches Some(v) ==> (v.len() == 0 ==> plan_issue(
            output,
        ) is None),
{
}

proof fn lemma_first_piece(digits: Seq<char>, rest: Seq<char>)
    requires
        forall|i: int|
            0 <= i < digits.len() ==> #[trigger] digits[i] != '/' && digits[i] != '?' && digits[i]
                != '#',
        rest.len() == 0 || rest[0] == '/' || rest[0] == '?' || rest[0] == '#',
    ensures
        first_piece(digits + rest) == digits,
    decreases digits.len(),
{
    let s = digits + rest;
    if digits.len() == 0 {
        assert(s == rest);
        assert(first_piece(s) == Seq::<char>::empty());
        assert(digits == Seq::<char>::empty());
    } else {
        assert(s[0] == digits[0]);
        assert(s.skip(1) == digits.skip(1) + rest);
        lemma_first_piece(digits.skip(1), rest);
        assert(seq![digits[0]] + digits.skip(1) == digits);
    }
}

/// The number of a pull request is what its address says behind the first `/pull/`, up to
/// the next part of the address.
pub proof fn law_pr_number_reads_back(base: Seq<char>, n: nat, rest: Seq<char>)
    requires
        !text::contains(base + "/pull"@, "/pull/"@),
        n <= u64::MAX,
        rest.len() == 0 || rest[0] == '/' || rest[0] == '?' || rest[0] == '#',
    ensures
        pr_number(base + "/pull/"@ + (text::decimal(n) + rest)) == Some(n),
{
    let tail = text::decimal(n) + rest;
    let url = base + "/pull/"@ + tail;
    lemma_first_pull(base, tail);
    reveal_strlit("/pull/");
    assert(url.skip((base.len() + 6) as int) == tail);
    text::law_decimal_reads_back(n);
    lemma_first_piece(text::decimal(n), rest);
}

proof fn lemma_first_pull(base: Seq<char>, tail: Seq<char>)
    requires
        !text::contains(base + "/pull"@, "/pull/"@),
    ensures
        text::find(base + "/pull/"@ + tail, "/pull/"@) == Some(base.len()),
{
    let mark = "/pull/"@;
    let url = base + mark + tail;
    reveal_strlit("/pull/");
    reveal_strlit("/pull");
    let head = base + "/pull"@;
    let at = base.len() as int;
    assert(mark.len() == 6 && "/pull"@.len() == 5);
    assert(mark.take(5) == "/pull"@);
    assert(url.subrange(at, at + 6) == mark);
    assert(text::occurs_at(url, mark, at));
    text::law_find_is_first_occurrence(url, mark);
    let i = text::find(url, mark)->0 as int;
    assert(url.take(at + 5) == head);
    if i < at {
        assert(url.take(at + 5).subrange(i, i + 6) == url.subrange(i, i + 6));
        assert(text::occurs_at(head, mark, i));
    }
}

/// An address without `/pull/` names no pull request.
pub proof fn law_no_pull_no_number(url: Seq<char>)
    requires
        !text::contains(url, "/pull/"@),
    ensures
        pr_number(url) is None,
{
    text::law_find_is_first_occurrence(url, "/pull/"@);
}

/// The issue that an agent names on its last line is taken as it stands there; a line that
/// names none leaves what was said before.
pub proof fn law_created_issue_reads_back(before: Seq<char>, n: nat, line: Seq<char>)
    requires
        before.len() == 0 || before.last() == '\n',
        n <= u64::MAX,
        line.len() > 0,
        forall|i: int| 0 <= i < line.len() ==> #[trigger] line[i] != '\n',
        !text::starts_with(text::trim(line, CharClass::White), "CREATED_ISSUE="@),
    ensures
        created_issue(before + ("CREATED_ISSUE="@ + text::decimal(n))) == Some(n),
        created_issue(before + line) == created_issue(before),
{
    let name = "CREATED_ISSUE="@;
    let digits = text::decimal(n);
    let row = name + digits;
    reveal_strlit("CREATED_ISSUE=");
    text::law_decimal_reads_back(n);
    assert(digits.last() == digits[digits.len() - 1]);
    text::law_last_line_is_read_whole(before, row);
    text::lemma_trim_same(row, CharClass::White);
    assert(row.take(name.len() as int) == name);
    assert(row.skip(name.len() as int) == digits);
    text::lemma_trim_same(digits, CharClass::White);
    let rows = text::lines(before + row);
    assert(rows.last() == row);
    text::law_last_line_is_read_whole(before, line);
    let others = text::lines(before + line);
    assert(others.last() == line);
    assert(others.drop_last() == text::lines(before));
}

/// What an agent says of a rebase: pushed, skipped, or stopped by conflicts in the files
/// that it names. The last such line counts.
pub proof fn law_last_rebase_line_counts(rows: Seq<Seq<char>>, k: int)
    requires
        -1 <= k < rows.len(),
        k >= 0 ==> prep_line(text::trim(rows[k], CharClass::White)) is Some,
        forall|j: int|
            k < j < rows.len() ==> prep_line(
                text::trim(#[trigger] rows[j], CharClass::White),
            ) is None,
    ensures
        k == -1 ==> last_prep(rows) is None,
        k >= 0 ==> last_prep(rows) == prep_line(text::trim(rows[k], CharClass::White)),
    decreases rows.len(),
{
    if rows.len() > 0 && k < rows.len() - 1 {
        assert(prep_line(text::trim(rows[rows.len() - 1], CharClass::White)) is None);
        law_last_rebase_line_counts(rows.drop_last(), k);
    }
}

/// The three lines by which an agent tells what became of a branch.
pub proof fn law_rebase_lines_mean_what_they_say(before: Seq<char>, paths: Seq<char>)
    requires
        before.len() == 0 || before.last() == '\n',
        paths.len() > 0,
        !text::white_space(paths.last()),
        forall|i: int| 0 <= i < paths.len() ==> #[trigger] paths[i] != '\n',
    ensures
        review_prep(before + "REBASE_PUSHED"@) == Some(PrepView::RebasePushed),
        review_prep(before + "REBASE_SKIPPED"@) == Some(PrepView::RebaseSkipped),
        review_prep(before + ("REBASE_CONFLICT paths="@ + paths)) == Some(
            PrepView::RebaseConflict { paths: path_list(paths) },
        ),
{
    reveal_strlit("REBASE_PUSHED");
    reveal_strlit("REBASE_SKIPPED");
    reveal_strlit("REBASE_CONFLICT paths=");
    let p = "REBASE_PUSHED"@;
    let s = "REBASE_SKIPPED"@;
    let n = "REBASE_CONFLICT paths="@;
    assert(p.len() == 13 && s.len() == 14 && n.len() == 22);
    let c = n + paths;
    text::law_last_line_is_read_whole(before, p);
    text::law_last_line_is_read_whole(before, s);
    text::law_last_line_is_read_whole(before, c);
    text::lemma_trim_same(p, CharClass::White);
    text::lemma_trim_same(s, CharClass::White);
    text::lemma_trim_same(c, CharClass::White);
    assert(text::lines(before + p).last() == p);
    assert(text::lines(before + s).last() == s);
    assert(text::lines(before + c).last() == c);
    assert(c.take(22) == n);
    assert(c.skip(22) == paths);
    assert(c[7] == 'C' && p[7] == 'P' && s[7] == 'S');
}

/// A list of paths is taken apart at its commas and read from left to right, without the
/// white space around them and without empty ones.
pub proof fn law_paths_are_taken_apart_at_commas(first: Seq<char>, rest: Seq<char>)
    requires
        forall|i: int| 0 <= i < first.len() ==> #[trigger] first[i] != ',',
    ensures
        path_list(first) == (if text::trim(first, CharClass::White).len() > 0 {
            seq![text::trim(first, CharClass::White)]
        } else {
            seq![]
        }),
        path_list(first + seq![','] + rest) == path_list(first) + path_list(rest),
{
    let k = CharClass::Just(',');
    text::lemma_split_single(first, k);
    let t = text::trim(first, CharClass::White);
    let one = text::split(first, k);
    let trimmed = Seq::new(one.len(), |i: int| text::trim(one[i], CharClass::White));
    assert(trimmed == seq![t]);
    reveal(Seq::filter);
    assert(trimmed.drop_last() == Seq::<Seq<char>>::empty());
    let keep = |p: Seq<char>| p.len() > 0;
    assert(Seq::<Seq<char>>::empty().filter(keep) == Seq::<Seq<char>>::empty());
    assert(trimmed.filter(keep) == (if t.len() > 0 {
        seq![t]
    } else {
        Seq::<Seq<char>>::empty()
    }));
    let a = first + seq![','];
    text::lemma_split_concat(a, rest, k);
    assert(a.drop_last() == first);
    assert(text::split(a, k) == seq![first, Seq::<char>::empty()]);
    let many = text::split(a + rest, k);
    let more = text::split(rest, k);
    assert(many == seq![first] + more);
    let all = Seq::new(many.len(), |i: int| text::trim(many[i], CharClass::White));
    let others = Seq::new(more.len(), |i: int| text::trim(more[i], CharClass::White));
    assert(all == seq![t] + others);
    assert(seq![t] == trimmed);
    Seq::filter_distributes_over_add(trimmed, others, keep);
}

} // verus!
