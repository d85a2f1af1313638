//! The issues that a reviewing agent lists: their order, their repetition over rounds, and
//! how alike two outputs are.

use crate::text;
use crate::text::CharClass;
use vstd::prelude::*;
use vstd::relations::*;
use vstd::seq_lib::*;
use vstd::string::*;

verus! {

/// The order of strings: by the first character in which they differ, a prefix
/// first.
pub open spec fn lex_le(a: Seq<char>, b: Seq<char>) -> bool
    decreases a.len(),
{
    if a.len() == 0 {
        true
    } else if b.len() == 0 {
        false
    } else if a[0] != b[0] {
        a[0] < b[0]
    } else {
        lex_le(a.drop_first(), b.drop_first())
    }
}

/// [`lex_le`] as a relation.
pub open spec fn lex() -> spec_fn(Seq<char>, Seq<char>) -> bool {
    |a: Seq<char>, b: Seq<char>| lex_le(a, b)
}

proof fn lemma_lex_reflexive(a: Seq<char>)
    ensures
        lex_le(a, a),
    decreases a.len(),
{
    if a.len() > 0 {
        lemma_lex_reflexive(a.drop_first());
    }
}

proof fn lemma_lex_antisymmetric(a: Seq<char>, b: Seq<char>)
    requires
        lex_le(a, b),
        lex_le(b, a),
    ensures
        a == b,
    decreases a.len(),
{
    if a.len() > 0 && b.len() > 0 {
        lemma_lex_antisymmetric(a.drop_first(), b.drop_first());
        assert(a == seq![a[0]] + a.drop_first());
        assert(b == seq![b[0]] + b.drop_first());
    } else {
        assert(a == b);
    }
}

proof fn lemma_lex_transitive(a: Seq<char>, b: Seq<char>, c: Seq<char>)
    requires
        lex_le(a, b),
        lex_le(b, c),
    ensures
        lex_le(a, c),
    decreases a.len(),
{
    if a.len() > 0 && b.len() > 0 && c.len() > 0 && a[0] == b[0] && b[0] == c[0] {
        lemma_lex_transitive(a.drop_first(), b.drop_first(), c.drop_first());
    }
}

proof fn lemma_lex_total(a: Seq<char>, b: Seq<char>)
    ensures
        lex_le(a, b) || lex_le(b, a),
    decreases a.len(),
{
    if a.len() > 0 && b.len() > 0 && a[0] == b[0] {
        lemma_lex_total(a.drop_first(), b.drop_first());
    }
}

/// The order of strings is a total order.
pub proof fn lemma_lex_is_total_order()
    ensures
        total_ordering(lex()),
{
    let r = lex();
    assert forall|x: Seq<char>| #[trigger] r(x, x) by {
        lemma_lex_reflexive(x);
    }
    assert forall|x: Seq<char>, y: Seq<char>| #[trigger] r(x, y) && #[trigger] r(y, x) implies x
        == y by {
        lemma_lex_antisymmetric(x, y);
    }
    assert forall|x: Seq<char>, y: Seq<char>, z: Seq<char>| #[trigger]
        r(x, y) && #[trigger] r(y, z) implies r(x, z) by {
        lemma_lex_transitive(x, y, z);
    }
    assert forall|x: Seq<char>, y: Seq<char>| #[trigger] r(x, y) || #[trigger] r(y, x) by {
        lemma_lex_total(x, y);
    }
}

fn chars_le(a: &[char], b: &[char]) -> (r: bool)
    ensures
        r == lex_le(a@, b@),
{
    let mut i: usize = 0;
    assert(a@.skip(0) == a@);
    assert(b@.skip(0) == b@);
    while i < a.len() && i < b.len() && a[i] == b[i]
        invariant
            i <= a.len(),
            i <= b.len(),
            lex_le(a@, b@) == lex_le(a@.skip(i as int), b@.skip(i as int)),
        decreases a.len() - i,
    {
        assert(a@.skip(i as int).drop_first() == a@.skip(i + 1));
        assert(b@.skip(i as int).drop_first() == b@.skip(i + 1));
        i += 1;
    }
    if i >= a.len() {
        true
    } else if i >= b.len() {
        false
    } else {
        a[i] < b[i]
    }
}

/// Whether `a` is not after `b`.
pub fn str_le(a: &str, b: &str) -> (r: bool)
    ensures
        r == lex_le(a@, b@),
{
    let x = text::chars_of(a);
    let y = text::chars_of(b);
    chars_le(x.as_slice(), y.as_slice())
}

/// Whether `r` holds the items of `s`, each as often, in the order of strings.
pub open spec fn is_sorting_of(r: Seq<Seq<char>>, s: Seq<Seq<char>>) -> bool {
    sorted_by(r, lex()) && r.to_multiset() == s.to_multiset()
}

fn insert_sorted(list: &mut Vec<String>, item: String)
    requires
        sorted_by(text::texts(old(list)@), lex()),
    ensures
        sorted_by(text::texts(final(list)@), lex()),
        text::texts(final(list)@).to_multiset() == text::texts(old(list)@).to_multiset().insert(
            item@,
        ),
{
    broadcast use group_to_multiset_ensures;

    let ghost before = text::texts(list@);
    let mut at: usize = 0;
    while at < list.len() && str_le(list[at].as_str(), item.as_str())
        invariant
            at <= list.len(),
            before == text::texts(list@),
            forall|j: int| 0 <= j < at ==> lex_le(#[trigger] before[j], item@),
        decreases list.len() - at,
    {
        at += 1;
    }
    let ghost x = item@;
    proof {
        lemma_lex_is_total_order();
        if at < list.len() {
            lemma_lex_total(before[at as int], x);
            assert(lex_le(x, before[at as int]));
        }
    }
    list.insert(at, item);
    let ghost after = text::texts(list@);
    proof {
        assert(after == before.insert(at as int, x));
        let r = lex();
        assert forall|i: int, j: int| 0 <= i < j < after.len() implies #[trigger] r(
            after[i],
            after[j],
        ) by {
            if j < at {
                assert(r(before[i], before[j]));
            } else if j == at {
                assert(after[j] == x && after[i] == before[i]);
            } else if i < at {
                assert(after[j] == before[j - 1]);
                assert(r(before[i], before[j - 1]));
            } else if i == at {
                assert(after[j] == before[j - 1]);
                if j - 1 == at {
                } else {
                    assert(r(before[at as int], before[j - 1]));
                    lemma_lex_transitive(x, before[at as int], before[j - 1]);
                }
            } else {
                assert(after[i] == before[i - 1] && after[j] == before[j - 1]);
                assert(r(before[i - 1], before[j - 1]));
            }
        }
        to_multiset_insert(before, at as int, x);
    }
}

/// The issues in the order of strings, so that lists which differ in order alone
/// become equal.
pub fn normalize_issues(issues: &[String]) -> (r: Vec<String>)
    ensures
        is_sorting_of(text::texts(r@), text::texts(issues@)),
{
    broadcast use group_to_multiset_ensures;

    let ghost all = text::texts(issues@);
    let mut out: Vec<String> = Vec::new();
    let mut i: usize = 0;
    proof {
        assert(all.take(0) == Seq::<Seq<char>>::empty());
        assert(text::texts(out@) == Seq::<Seq<char>>::empty());
    }
    while i < issues.len()
        invariant
            i <= issues.len(),
            all == text::texts(issues@),
            is_sorting_of(text::texts(out@), all.take(i as int)),
        decreases issues.len() - i,
    {
        proof {
            assert(all.take(i + 1) == all.take(i as int).push(all[i as int]));
            to_multiset_build(all.take(i as int), all[i as int]);
        }
        insert_sorted(&mut out, issues[i].clone());
        i += 1;
    }
    assert(all.take(i as int) == all);
    out
}

/// A list has one normal form, whatever order its issues came in.
pub proof fn law_normal_form_ignores_order(
    a: Seq<Seq<char>>,
    b: Seq<Seq<char>>,
    na: Seq<Seq<char>>,
    nb: Seq<Seq<char>>,
)
    requires
        a.to_multiset() == b.to_multiset(),
        is_sorting_of(na, a),
        is_sorting_of(nb, b),
    ensures
        na == nb,
{
    lemma_lex_is_total_order();
    lemma_sorted_unique(na, nb, lex());
}

/// Lists whose normal forms are equal hold the same issues, each as often.
pub proof fn law_normal_form_keeps_issues(
    a: Seq<Seq<char>>,
    b: Seq<Seq<char>>,
    n: Seq<Seq<char>>,
)
    requires
        is_sorting_of(n, a),
        is_sorting_of(n, b),
    ensures
        a.to_multiset() == b.to_multiset(),
{
}

/// From this many rounds in a row with the same issues on, the implementor is
/// asked to intervene.
pub const INTERVENTION_ROUNDS: u32 = 3;

/// From this many rounds in a row with the same issues on, the review fails.
pub const HARD_FAIL_ROUNDS: u32 = 5;

/// How often the same issues have come back in a row.
pub struct ImpasseTracker {
    last: Option<(Vec<String>, u32)>,
}

/// What one more round means for an impasse.
#[derive(Clone, Copy, Debug, PartialEq, Eq, Structural)]
pub struct ImpasseState {
    /// How many rounds in a row have listed these issues.
    pub count: u32,
    /// Whether the implementor is to be asked to intervene.
    pub intervention: bool,
    /// Whether the review is to fail.
    pub fatal: bool,
}

/// How many rounds in a row have listed `issues`, when `last` is what the rounds
/// before it left.
pub open spec fn repeats(
    last: Option<(Seq<Seq<char>>, nat)>,
    issues: Seq<Seq<char>>,
) -> nat {
    match last {
        Some((seen, count)) => if seen.to_multiset() == issues.to_multiset() {
            count + 1
        } else {
            1
        },
        None => 1,
    }
}

fn lists_equal(a: &Vec<String>, b: &Vec<String>) -> (r: bool)
    ensures
        r == (text::texts(a@) == text::texts(b@)),
{
    let ghost x = text::texts(a@);
    let ghost y = text::texts(b@);
    if a.len() != b.len() {
        assert(x.len() != y.len());
        return false;
    }
    let mut i: usize = 0;
    while i < a.len()
        invariant
            i <= a.len(),
            a.len() == b.len(),
            x == text::texts(a@),
            y == text::texts(b@),
            forall|j: int| 0 <= j < i ==> x[j] == y[j],
        decreases a.len() - i,
    {
        if !text::str_eq(a[i].as_str(), b[i].as_str()) {
            assert(x[i as int] != y[i as int]);
            return false;
        }
        assert(x[i as int] == y[i as int]);
        i += 1;
    }
    assert(x == y);
    true
}

impl ImpasseTracker {
    /// The issues of the last round, in their normal form, and for how many rounds
    /// in a row they were listed.
    pub closed spec fn seen(&self) -> Option<(Seq<Seq<char>>, nat)> {
        match self.last {
            Some((list, count)) => Some((text::texts(list@), count as nat)),
            None => None,
        }
    }

    /// The issues are kept in their normal form.
    pub closed spec fn wf(&self) -> bool {
        self.seen() matches Some((list, _)) ==> sorted_by(list, lex())
    }

    /// A tracker that has seen no round.
    pub fn new() -> (r: ImpasseTracker)
        ensures
            r.wf(),
            r.seen() is None,
    {
        ImpasseTracker { last: None }
    }

    /// Takes in the issues of one more round.
    pub fn observe(&mut self, issues: &[String]) -> (r: ImpasseState)
        requires
            old(self).wf(),
            old(self).seen() matches Some((_, count)) ==> count < u32::MAX,
        ensures
            final(self).wf(),
            final(self).seen() matches Some((list, count)) && count == r.count && is_sorting_of(
                list,
                text::texts(issues@),
            ),
            r.count == repeats(old(self).seen(), text::texts(issues@)),
            r.intervention == (r.count >= INTERVENTION_ROUNDS),
            r.fatal == (r.count >= HARD_FAIL_ROUNDS),
    {
        let normal = normalize_issues(issues);
        let ghost now = text::texts(normal@);
        proof {
            if let Some((before, _)) = self.seen() {
                if before.to_multiset() == text::texts(issues@).to_multiset() {
                    law_normal_form_ignores_order(before, text::texts(issues@), before, now);
                }
            }
        }
        let count: u32 = match &self.last {
            Some((before, c)) => if lists_equal(before, &normal) {
                *c + 1
            } else {
                1
            },
            None => 1,
        };
        self.last = Some((normal, count));
        ImpasseState {
            count,
            intervention: count >= INTERVENTION_ROUNDS,
            fatal: count >= HARD_FAIL_ROUNDS,
        }
    }
}

/// The distinct words of `s`; what is not alphanumeric stands between words.
pub open spec fn word_set(s: Seq<char>) -> Set<Seq<char>> {
    text::words(s, CharClass::NotWord).to_set()
}

/// How the words of two texts overlap: the number of distinct words that both
/// hold, and the number that either holds.
#[derive(Clone, Copy, Debug, PartialEq, Eq, Structural)]
pub struct WordOverlap {
    pub common: usize,
    pub total: usize,
}

fn row_listed(list: &Vec<Vec<char>>, row: &Vec<char>) -> (r: bool)
    ensures
        r == text::rows(list@).contains(row@),
{
    let mut i: usize = 0;
    while i < list.len()
        invariant
            i <= list.len(),
            forall|j: int| 0 <= j < i ==> text::rows(list@)[j] != row@,
        decreases list.len() - i,
    {
        if text::same(list[i].as_slice(), row.as_slice()) {
            assert(text::rows(list@)[i as int] == row@);
            return true;
        }
        i += 1;
    }
    false
}

fn merge_distinct(out: &mut Vec<Vec<char>>, more: &Vec<Vec<char>>)
    requires
        text::rows(old(out)@).no_duplicates(),
    ensures
        text::rows(final(out)@).no_duplicates(),
        text::rows(final(out)@).to_set() == text::rows(old(out)@).to_set().union(
            text::rows(more@).to_set(),
        ),
{
    let ghost first = text::rows(out@).to_set();
    let ghost all = text::rows(more@);
    let mut i: usize = 0;
    assert(first.union(all.take(0).to_set()) == first);
    while i < more.len()
        invariant
            i <= more.len(),
            all == text::rows(more@),
            text::rows(out@).no_duplicates(),
            text::rows(out@).to_set() == first.union(all.take(i as int).to_set()),
        decreases more.len() - i,
    {
        let ghost before = text::rows(out@);
        let ghost x = all[i as int];
        assert(more@[i as int]@ == x);
        assert(all.take(i + 1) == all.take(i as int).push(x));
        proof {
            all.take(i as int).lemma_push_to_set_commute(x);
        }
        if !row_listed(out, &more[i]) {
            let word: Vec<char> = more[i].clone();
            assert(word@ == x);
            out.push(word);
            assert(text::rows(out@) == before.push(x));
            proof {
                before.lemma_push_to_set_commute(x);
            }
        } else {
            assert(before.to_set().contains(x));
        }
        assert(text::rows(out@).to_set() =~= first.union(all.take(i + 1).to_set()));
        i += 1;
    }
    assert(all.take(i as int) == all);
}

fn common_rows(a: &Vec<Vec<char>>, b: &Vec<Vec<char>>) -> (r: Vec<Vec<char>>)
    requires
        text::rows(a@).no_duplicates(),
    ensures
        text::rows(r@).no_duplicates(),
        text::rows(r@).to_set() == text::rows(a@).to_set().intersect(text::rows(b@).to_set()),
{
    let ghost all = text::rows(a@);
    let ghost other = text::rows(b@);
    let mut out: Vec<Vec<char>> = Vec::new();
    let mut i: usize = 0;
    assert(text::rows(out@).to_set() =~= all.take(0).to_set().intersect(other.to_set()));
    while i < a.len()
        invariant
            i <= a.len(),
            all == text::rows(a@),
            other == text::rows(b@),
            all.no_duplicates(),
            text::rows(out@).no_duplicates(),
            text::rows(out@).to_set() == all.take(i as int).to_set().intersect(other.to_set()),
        decreases a.len() - i,
    {
        let ghost before = text::rows(out@);
        let ghost x = all[i as int];
        assert(a@[i as int]@ == x);
        assert(all.take(i + 1) == all.take(i as int).push(x));
        proof {
            all.take(i as int).lemma_push_to_set_commute(x);
        }
        if row_listed(b, &a[i]) {
            assert(!before.contains(x)) by {
                if before.contains(x) {
                    assert(before.to_set().contains(x));
                    assert(all.take(i as int).contains(x));
                    let j = choose|j: int| 0 <= j < i && all.take(i as int)[j] == x;
                    assert(all[j] == x);
                }
            }
            let word: Vec<char> = a[i].clone();
            assert(word@ == x);
            out.push(word);
            assert(text::rows(out@) == before.push(x));
            proof {
                before.lemma_push_to_set_commute(x);
            }
        }
        assert(text::rows(out@).to_set() =~= all.take(i + 1).to_set().intersect(other.to_set()));
        i += 1;
    }
    assert(all.take(i as int) == all);
    out
}

/// How the words of two texts overlap. Their similarity is `common / total`, and 1
/// where neither holds a word.
pub fn jaccard_word_overlap(a: &str, b: &str) -> (r: WordOverlap)
    ensures
        r.common == word_set(a@).intersect(word_set(b@)).len(),
        r.total == word_set(a@).union(word_set(b@)).len(),
{
    let ca = text::chars_of(a);
    let cb = text::chars_of(b);
    let wa = text::word_list(ca.as_slice(), CharClass::NotWord);
    let wb = text::word_list(cb.as_slice(), CharClass::NotWord);
    let mut distinct: Vec<Vec<char>> = Vec::new();
    merge_distinct(&mut distinct, &wa);
    assert(text::rows(distinct@).to_set() =~= word_set(a@));
    let common = common_rows(&distinct, &wb);
    merge_distinct(&mut distinct, &wb);
    proof {
        text::rows(common@).unique_seq_to_set();
        text::rows(distinct@).unique_seq_to_set();
    }
    WordOverlap { common: common.len(), total: distinct.len() }
}

/// The overlap does not depend on which text comes first, and no more words are
/// common than there are.
pub proof fn law_overlap_is_symmetric(a: Seq<char>, b: Seq<char>)
    ensures
        word_set(a).intersect(word_set(b)).len() == word_set(b).intersect(word_set(a)).len(),
        word_set(a).union(word_set(b)).len() == word_set(b).union(word_set(a)).len(),
        word_set(a).intersect(word_set(b)).len() <= word_set(a).union(word_set(b)).len(),
{
    let x = word_set(a);
    let y = word_set(b);
    seq_to_set_is_finite(text::words(a, CharClass::NotWord));
    seq_to_set_is_finite(text::words(b, CharClass::NotWord));
    assert(x.intersect(y) =~= y.intersect(x));
    assert(x.union(y) =~= y.union(x));
    vstd::set_lib::lemma_len_subset(x.intersect(y), x.union(y));
}

/// Texts with the same words overlap in all of them.
pub proof fn law_overlap_of_same_words(a: Seq<char>, b: Seq<char>)
    requires
        word_set(a) == word_set(b),
    ensures
        word_set(a).intersect(word_set(b)).len() == word_set(a).union(word_set(b)).len(),
{
    assert(word_set(a).intersect(word_set(b)) =~= word_set(a));
    assert(word_set(a).union(word_set(b)) =~= word_set(a));
}

/// Strings are ordered by the first character in which they differ; one that is the
/// beginning of another comes first.
pub proof fn law_order_is_by_the_first_difference(
    same: Seq<char>,
    a: char,
    b: char,
    rest_a: Seq<char>,
    rest_b: Seq<char>,
)
    ensures
        a < b ==> lex_le(same + seq![a] + rest_a, same + seq![b] + rest_b),
        a > b ==> !lex_le(same + seq![a] + rest_a, same + seq![b] + rest_b),
        lex_le(same, same + rest_a),
        rest_a.len() > 0 ==> !lex_le(same + rest_a, same),
    decreases same.len(),
{
    let x = same + seq![a] + rest_a;
    let y = same + seq![b] + rest_b;
    if same.len() == 0 {
        assert(x[0] == a && y[0] == b);
    } else {
        let less = same.drop_first();
        law_order_is_by_the_first_difference(less, a, b, rest_a, rest_b);
        assert(x.drop_first() == less + seq![a] + rest_a);
        assert(y.drop_first() == less + seq![b] + rest_b);
        assert((same + rest_a).drop_first() == less + rest_a);
        assert(x[0] == same[0] && y[0] == same[0]);
    }
}

/// The same issues in a row are counted up, in whatever order they are listed; others, and
/// the first ones, count as one.
pub proof fn law_same_issues_are_counted_up(
    before: Seq<Seq<char>>,
    count: nat,
    listed: Seq<Seq<char>>,
)
    ensures
        repeats(None, listed) == 1,
        before.to_multiset() == listed.to_multiset() ==> repeats(Some((before, count)), listed)
            == count + 1,
        before.to_multiset() != listed.to_multiset() ==> repeats(Some((before, count)), listed)
            == 1,
        INTERVENTION_ROUNDS == 3,
        HARD_FAIL_ROUNDS == 5,
{
}

/// The words of a text are those of its parts, wherever it is cut at something that is
/// not alphanumeric; what is alphanumeric throughout is one word.
pub proof fn law_words_are_cut_at_what_is_no_word(a: Seq<char>, c: char, b: Seq<char>)
    requires
        !text::unicode_alphanumeric(c),
    ensures
        word_set(a + seq![c] + b) == word_set(a) + word_set(b),
        (a.len() > 0 && forall|i: int|
            0 <= i < a.len() ==> text::unicode_alphanumeric(#[trigger] a[i])) ==> word_set(a)
            == set![a],
        a.len() == 0 ==> word_set(a) == Set::<Seq<char>>::empty(),
{
    let k = CharClass::NotWord;
    let keep = |p: Seq<char>| p.len() > 0;
    let ac = a + seq![c];
    reveal(Seq::filter);
    text::lemma_split_concat(ac, b, k);
    text::lemma_split_nonempty(a, k);
    assert(ac.drop_last() == a);
    assert(text::split(ac, k) == text::split(a, k).push(Seq::<char>::empty()));
    assert(text::split(ac, k).drop_last() == text::split(a, k));
    assert(text::split(ac + b, k) == text::split(a, k) + text::split(b, k));
    Seq::filter_distributes_over_add(text::split(a, k), text::split(b, k), keep);
    let x = text::words(a, k);
    let y = text::words(b, k);
    assert(text::words(ac + b, k) == x + y);
    assert((x + y).to_set() =~= x.to_set() + y.to_set()) by {
        assert forall|w: Seq<char>| (x + y).contains(w) <==> x.contains(w) || y.contains(w) by {
            if x.contains(w) {
                let i = choose|i: int| 0 <= i < x.len() && x[i] == w;
                assert((x + y)[i] == w);
            }
            if y.contains(w) {
                let i = choose|i: int| 0 <= i < y.len() && y[i] == w;
                assert((x + y)[x.len() + i] == w);
            }
        }
    }
    if forall|i: int| 0 <= i < a.len() ==> text::unicode_alphanumeric(#[trigger] a[i]) {
        text::lemma_split_single(a, k);
        let one = seq![a];
        assert(one.drop_last() == Seq::<Seq<char>>::empty());
        assert(one.drop_last().filter(keep) == Seq::<Seq<char>>::empty());
        if a.len() > 0 {
            assert(one.filter(keep) == one);
            assert(one.to_set() =~= set![a]) by {
                assert(one[0] == a);
            }
        } else {
            assert(one.filter(keep) == Seq::<Seq<char>>::empty());
            assert(Seq::<Seq<char>>::empty().to_set() =~= Set::<Seq<char>>::empty());
        }
    }
}

} // verus!
