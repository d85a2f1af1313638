//! Commands that a comment gives by mentioning `@harness`.

use crate::text;
use crate::text::CharClass;
use vstd::prelude::*;
use vstd::slice::slice_subrange;

verus! {

/// What a comment that mentions the harness asks for.
#[derive(Clone, Copy, Debug, PartialEq, Eq, Structural)]
pub enum HarnessMentionCommand {
    /// A mention without a known command word.
    Mention,
    /// A review.
    Review,
    /// A repair of failing checks.
    FixCi,
}

/// The command that the words after a mention stand for.
pub open spec fn command_of(rest: Seq<char>) -> HarnessMentionCommand {
    if text::starts_with(rest, "fix ci"@) || text::starts_with(rest, "fix-ci"@) || text::starts_with(
        rest,
        "fix_ci"@,
    ) {
        HarnessMentionCommand::FixCi
    } else if text::starts_with(rest, "review"@) {
        HarnessMentionCommand::Review
    } else {
        HarnessMentionCommand::Mention
    }
}

/// The command of a line: that of its first mention, whatever the case of its
/// letters.
pub open spec fn line_command(line: Seq<char>) -> Option<HarnessMentionCommand> {
    let low = text::lower(text::trim(line, CharClass::White));
    match text::find(low, "@harness"@) {
        None => None,
        Some(i) => Some(
            command_of(text::trim_start(low.skip((i + "@harness"@.len()) as int), CharClass::Lead)),
        ),
    }
}

/// The command of the first line that has one.
pub open spec fn first_command(ls: Seq<Seq<char>>) -> Option<HarnessMentionCommand>
    decreases ls.len(),
{
    if ls.len() == 0 {
        None
    } else if line_command(ls[0]) is Some {
        line_command(ls[0])
    } else {
        first_command(ls.drop_first())
    }
}

fn classify_command(rest: &[char]) -> (r: HarnessMentionCommand)
    ensures
        r == command_of(rest@),
{
    let spaced = text::chars_of("fix ci");
    let dashed = text::chars_of("fix-ci");
    let joined = text::chars_of("fix_ci");
    let review = text::chars_of("review");
    if text::has_prefix(rest, spaced.as_slice()) || text::has_prefix(rest, dashed.as_slice()) || text::has_prefix(
        rest,
        joined.as_slice(),
    ) {
        HarnessMentionCommand::FixCi
    } else if text::has_prefix(rest, review.as_slice()) {
        HarnessMentionCommand::Review
    } else {
        HarnessMentionCommand::Mention
    }
}

fn command_in_line(line: &[char]) -> (r: Option<HarnessMentionCommand>)
    ensures
        r == line_command(line@),
{
    let low = text::to_lower(text::trimmed(line, CharClass::White));
    let name = text::chars_of("@harness");
    match text::position(low.as_slice(), name.as_slice()) {
        None => None,
        Some(i) => {
            assert(text::occurs_at(low@, name@, i as int));
            let len: usize = low.len();
            assert(i + name@.len() <= len);
            let rest = slice_subrange(low.as_slice(), i + name.len(), len);
            assert(rest@ == low@.skip(i + name@.len()));
            Some(classify_command(text::trimmed_start(rest, CharClass::Lead)))
        },
    }
}

/// The command of the first line of `body` that mentions `@harness`. Of each line
/// only the first mention counts.
pub fn parse_harness_mention_command(body: &str) -> (r: Option<HarnessMentionCommand>)
    ensures
        r == first_command(text::lines(body@)),
{
    let chars = text::chars_of(body);
    let ls = text::line_list(chars.as_slice());
    let ghost all = text::lines(body@);
    let mut i: usize = 0;
    assert(all.skip(0) == all);
    while i < ls.len()
        invariant
            i <= ls.len(),
            all == text::lines(body@),
            all == text::rows(ls@),
            first_command(all) == first_command(all.skip(i as int)),
        decreases ls.len() - i,
    {
        assert(all.skip(i as int)[0] == ls@[i as int]@);
        assert(all.skip(i as int).drop_first() == all.skip(i + 1));
        let found = command_in_line(ls[i].as_slice());
        if found.is_some() {
            return found;
        }
        i += 1;
    }
    None
}

/// A text without a line that mentions the harness gives no command, and every
/// other text gives one.
pub proof fn law_command_iff_mentioned(ls: Seq<Seq<char>>)
    ensures
        first_command(ls) is Some <==> exists|i: int|
            0 <= i < ls.len() && text::contains(text::lower(text::trim(#[trigger] ls[i], CharClass::White)), "@harness"@),
    decreases ls.len(),
{
    if ls.len() > 0 {
        let rest = ls.drop_first();
        law_command_iff_mentioned(rest);
        text::law_find_is_first_occurrence(text::lower(text::trim(ls[0], CharClass::White)), "@harness"@);
        assert(line_command(ls[0]) is Some <==> text::contains(
            text::lower(text::trim(ls[0], CharClass::White)),
            "@harness"@,
        ));
        if exists|i: int|
            0 <= i < rest.len() && text::contains(
                text::lower(text::trim(#[trigger] rest[i], CharClass::White)),
                "@harness"@,
            ) {
            let i = choose|i: int|
                0 <= i < rest.len() && text::contains(
                    text::lower(text::trim(#[trigger] rest[i], CharClass::White)),
                    "@harness"@,
                );
            assert(ls[i + 1] == rest[i]);
        }
        if exists|i: int|
            0 <= i < ls.len() && text::contains(
                text::lower(text::trim(#[trigger] ls[i], CharClass::White)),
                "@harness"@,
            ) {
            let i = choose|i: int|
                0 <= i < ls.len() && text::contains(
                    text::lower(text::trim(#[trigger] ls[i], CharClass::White)),
                    "@harness"@,
                );
            if i > 0 {
                assert(rest[i - 1] == ls[i]);
            }
        }
    }
}

/// The words behind a mention say what is asked for: `review` a review, `fix ci` in three
/// spellings a repair, and everything else neither.
pub proof fn law_command_words(rest: Seq<char>)
    ensures
        command_of("review"@ + rest) == HarnessMentionCommand::Review,
        command_of("fix ci"@ + rest) == HarnessMentionCommand::FixCi,
        command_of("fix-ci"@ + rest) == HarnessMentionCommand::FixCi,
        command_of("fix_ci"@ + rest) == HarnessMentionCommand::FixCi,
        command_of(rest) == HarnessMentionCommand::Review ==> text::starts_with(rest, "review"@),
        command_of(rest) == HarnessMentionCommand::FixCi ==> text::starts_with(rest, "fix"@)
            && text::contains(rest, "ci"@),
{
    text::lemma_begins("review"@, rest);
    text::lemma_begins("fix ci"@, rest);
    text::lemma_begins("fix-ci"@, rest);
    text::lemma_begins("fix_ci"@, rest);
    reveal_strlit("review");
    reveal_strlit("fix ci");
    reveal_strlit("fix-ci");
    reveal_strlit("fix_ci");
    reveal_strlit("fix");
    reveal_strlit("ci");
    let r = "review"@ + rest;
    assert(r[0] == 'r');
    assert(r.take(6)[0] == r[0]);
    assert("fix ci"@[0] == 'f' && "fix-ci"@[0] == 'f' && "fix_ci"@[0] == 'f');
    if command_of(rest) == HarnessMentionCommand::FixCi {
        let h = rest.take(6);
        assert(rest.take(3) == h.take(3));
        assert(h.take(3) == "fix"@);
        assert(rest.subrange(4, 6) == h.subrange(4, 6));
        assert(h.subrange(4, 6) == "ci"@);
        assert(text::occurs_at(rest, "ci"@, 4));
    }
}

/// A line that mentions the harness asks for what its words behind the first mention say,
/// whatever stands before that and between the two, and in whatever case.
pub proof fn law_mention_is_read(
    before: Seq<char>,
    name: Seq<char>,
    gap: Seq<char>,
    word: Seq<char>,
)
    requires
        text::lower(name) == "@harness"@,
        word.len() > 0,
        forall|i: int| 0 <= i < before.len() ==> #[trigger] before[i] != '@',
        before.len() > 0 ==> !text::white_space(before[0]),
        forall|i: int| 0 <= i < gap.len() ==> CharClass::Lead.has(#[trigger] gap[i]),
        !CharClass::Lead.has(text::lower(word)[0]),
        !text::white_space(word.last()),
    ensures
        line_command(before + name + gap + word) == Some(command_of(text::lower(word))),
{
    let line = before + name + gap + word;
    reveal_strlit("@harness");
    assert(name.len() == text::lower(name).len());
    assert(text::lower(name)[0] == '@');
    assert(text::lower_char(name[0]) == '@');
    assert(name[0] == '@');
    assert(line[0] == if before.len() > 0 {
        before[0]
    } else {
        name[0]
    });
    assert(line.last() == word.last());
    text::lemma_trim_same(line, CharClass::White);
    let low = text::lower(line);
    let n = before.len() as int;
    assert(low.subrange(n, n + 8) =~= text::lower(name)) by {
        assert forall|i: int| 0 <= i < 8 implies low[n + i] == #[trigger] text::lower(name)[i] by {
            assert(line[n + i] == name[i]);
        }
    }
    assert(text::occurs_at(low, "@harness"@, n));
    text::law_find_is_first_occurrence(low, "@harness"@);
    assert(text::contains(low, "@harness"@));
    let i = text::find(low, "@harness"@)->0;
    assert(i >= n) by {
        if i < n {
            assert(low.subrange(i as int, i as int + 8)[0] == low[i as int]);
            assert(line[i as int] == before[i as int]);
            assert(before[i as int] != '@');
        }
    }
    assert(i <= n);
    let rest = low.skip(n + 8);
    let g = text::lower(gap);
    let w = text::lower(word);
    assert(rest =~= g + w);
    assert forall|j: int| 0 <= j < g.len() implies CharClass::Lead.has(#[trigger] g[j]) by {
        assert(CharClass::Lead.has(gap[j]));
    }
    lemma_gap_is_skipped(g, w);
}

proof fn lemma_gap_is_skipped(gap: Seq<char>, word: Seq<char>)
    requires
        forall|i: int| 0 <= i < gap.len() ==> CharClass::Lead.has(#[trigger] gap[i]),
        word.len() > 0,
        !CharClass::Lead.has(word[0]),
    ensures
        text::trim_start(gap + word, CharClass::Lead) == word,
    decreases gap.len(),
{
    if gap.len() > 0 {
        let less = gap.drop_first();
        assert((gap + word)[0] == gap[0]);
        assert((gap + word).drop_first() == less + word);
        assert forall|i: int| 0 <= i < less.len() implies CharClass::Lead.has(
            #[trigger] less[i],
        ) by {
            assert(less[i] == gap[i + 1]);
        }
        lemma_gap_is_skipped(less, word);
    } else {
        assert(gap + word == word);
    }
}

/// The first line with a mention decides, whatever the lines behind it ask for.
pub proof fn law_first_mention_decides(
    before: Seq<Seq<char>>,
    line: Seq<char>,
    after: Seq<Seq<char>>,
)
    requires
        forall|i: int| 0 <= i < before.len() ==> line_command(#[trigger] before[i]) is None,
        line_command(line) is Some,
    ensures
        first_command(before.push(line) + after) == line_command(line),
    decreases before.len(),
{
    let all = before.push(line) + after;
    if before.len() == 0 {
        assert(all[0] == line);
    } else {
        let less = before.drop_first();
        assert(all[0] == before[0]);
        assert(all.drop_first() == less.push(line) + after);
        assert forall|i: int| 0 <= i < less.len() implies line_command(#[trigger] less[i]) is None by {
            assert(less[i] == before[i + 1]);
        }
        law_first_mention_decides(less, line, after);
    }
}

} // verus!
