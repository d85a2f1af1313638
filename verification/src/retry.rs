//! Turns whose results are checked, and tried again when the check fails.

use crate::text;
use vstd::prelude::*;
use vstd::string::*;
use vstd::utf8::*;

verus! {

/// The milliseconds to wait before a retry: the base, doubled for each retry before,
/// and never more than the limit.
pub open spec fn backoff(base_ms: nat, max_ms: nat, attempt: nat) -> nat {
    let doublings: nat = if attempt == 0 {
        0
    } else {
        (attempt - 1) as nat
    };
    let wait = base_ms * vstd::arithmetic::power2::pow2(doublings);
    if wait <= max_ms {
        wait
    } else {
        max_ms
    }
}

/// The milliseconds to wait before retry number `attempt`, counted from one.
pub fn compute_backoff_ms(base_ms: u64, max_ms: u64, attempt: u32) -> (r: u64)
    ensures
        r == backoff(base_ms as nat, max_ms as nat, attempt as nat),
{
    let doublings: u64 = if attempt == 0 {
        0
    } else {
        (attempt - 1) as u64
    };
    if base_ms == 0 {
        assert(0 * vstd::arithmetic::power2::pow2(doublings as nat) == 0) by (nonlinear_arith);
        return 0;
    }
    if doublings >= 64 {
        proof {
            lemma_wait_too_long(base_ms as nat, doublings as nat);
        }
        return max_ms;
    }
    let factor: u64 = 1u64 << doublings;
    proof {
        vstd::bits::lemma_u64_pow2_no_overflow(doublings as nat);
        vstd::bits::lemma_u64_shl_is_mul(1, doublings);
    }
    match base_ms.checked_mul(factor) {
        Some(wait) => if wait <= max_ms {
            wait
        } else {
            max_ms
        },
        None => max_ms,
    }
}

proof fn lemma_wait_too_long(base_ms: nat, doublings: nat)
    requires
        base_ms >= 1,
        doublings >= 64,
    ensures
        base_ms * vstd::arithmetic::power2::pow2(doublings) > u64::MAX,
{
    vstd::arithmetic::power2::lemma2_to64();
    if doublings > 64 {
        vstd::arithmetic::power2::lemma_pow2_strictly_increases(64, doublings);
    }
    let p = vstd::arithmetic::power2::pow2(doublings);
    assert(base_ms * p >= p) by (nonlinear_arith)
        requires
            base_ms >= 1,
    ;
}

/// A retry waits the base first, each later one twice as long as the one before, up to
/// the limit; a wait is never longer than the limit.
pub proof fn law_backoff_doubles_up_to_its_limit(base_ms: nat, max_ms: nat, attempt: nat)
    ensures
        backoff(base_ms, max_ms, attempt) <= max_ms,
        base_ms <= max_ms ==> backoff(base_ms, max_ms, 1) == base_ms,
        1 <= attempt && 2 * backoff(base_ms, max_ms, attempt) <= max_ms ==> backoff(
            base_ms,
            max_ms,
            attempt + 1,
        ) == 2 * backoff(base_ms, max_ms, attempt),
        backoff(base_ms, max_ms, attempt) <= backoff(base_ms, max_ms, attempt + 1),
{
    vstd::arithmetic::power2::lemma2_to64();
    assert(base_ms * 1 == base_ms) by (nonlinear_arith);
    if 1 <= attempt {
        let n = (attempt - 1) as nat;
        let p = vstd::arithmetic::power2::pow2(n);
        vstd::arithmetic::power2::lemma_pow2_unfold(attempt);
        vstd::arithmetic::power2::lemma_pow2_pos(n);
        assert(base_ms * (2 * p) == 2 * (base_ms * p)) by (nonlinear_arith);
    }
}

/// The last place at or before byte `i` where a character begins.
pub open spec fn boundary(bytes: Seq<u8>, i: nat) -> nat
    decreases i,
{
    if i == 0 || is_char_boundary(bytes, i as int) {
        i
    } else {
        boundary(bytes, (i - 1) as nat)
    }
}

/// An error cut to `max` bytes, at the end of a character, with a note of its length.
pub open spec fn truncated(error: Seq<char>, max: nat) -> Seq<char> {
    let bytes = encode_utf8(error);
    if bytes.len() <= max {
        error
    } else {
        decode_utf8(bytes.take(boundary(bytes, max) as int)) + "\n\n... (output truncated, "@
            + text::decimal(bytes.len()) + " chars total)"@
    }
}

proof fn lemma_boundary(bytes: Seq<u8>, i: nat)
    requires
        valid_utf8(bytes),
        i <= bytes.len(),
    ensures
        boundary(bytes, i) <= i,
        is_char_boundary(bytes, boundary(bytes, i) as int),
    decreases i,
{
    is_char_boundary_start_end_of_seq(bytes);
    if i != 0 && !is_char_boundary(bytes, i as int) {
        lemma_boundary(bytes, (i - 1) as nat);
    }
}

/// Cuts an error so that it does not swell a prompt. Its beginning, which says most, is
/// kept. Lengths are in bytes.
pub fn truncate_validation_error(error: &str, max_chars: usize) -> (r: String)
    ensures
        r@ == truncated(error@, max_chars as nat),
{
    let total: usize = error.as_bytes().len();
    if total <= max_chars {
        return error.to_owned();
    }
    let ghost bytes = error.spec_bytes();
    let mut cut: usize = max_chars;
    proof {
        encode_utf8_valid_utf8(error@);
        lemma_boundary(bytes, max_chars as nat);
    }
    while cut > 0 && !error.is_char_boundary(cut)
        invariant
            bytes == error.spec_bytes(),
            boundary(bytes, cut as nat) == boundary(bytes, max_chars as nat),
        decreases cut,
    {
        cut -= 1;
    }
    let (kept, _rest) = error.split_at(cut);
    proof {
        assert(bytes.take(cut as int) == bytes.subrange(0, cut as int));
        encode_utf8_decode_utf8(kept@);
    }
    let mut out = kept.to_owned();
    out.append("\n\n... (output truncated, ");
    out.append(text::decimal_text(total as u64).as_str());
    out.append(" chars total)");
    out
}

/// A cut error begins with a part of the error that is no longer than the limit, and an
/// error within the limit is kept whole.
pub proof fn law_truncation_keeps_a_prefix(error: Seq<char>, max: nat) -> (kept: Seq<char>)
    ensures
        encode_utf8(kept).len() <= max,
        text::starts_with(error, kept),
        text::starts_with(truncated(error, max), kept),
        encode_utf8(error).len() <= max ==> kept == error && truncated(error, max) == error,
{
    let bytes = encode_utf8(error);
    if bytes.len() <= max {
        assert(error.take(error.len() as int) == error);
        error
    } else {
        encode_utf8_valid_utf8(error);
        encode_utf8_decode_utf8(error);
        lemma_boundary(bytes, max);
        let b = boundary(bytes, max) as int;
        valid_utf8_split(bytes, b);
        decode_utf8_split(bytes, b);
        let kept = decode_utf8(bytes.subrange(0, b));
        assert(bytes.take(b) == bytes.subrange(0, b));
        decode_utf8_encode_utf8(bytes.subrange(0, b));
        assert(error.take(kept.len() as int) == kept);
        assert(truncated(error, max).take(kept.len() as int) == kept);
        kept
    }
}

/// The first of three errors that there is.
pub open spec fn first_of(
    a: Option<Seq<char>>,
    b: Option<Seq<char>>,
    c: Option<Seq<char>>,
) -> Option<Seq<char>> {
    if a is Some {
        a
    } else if b is Some {
        b
    } else {
        c
    }
}

/// The error of a turn: a wrong tool comes first, then what a hook found, then what
/// the check of the result found.
pub fn first_error(
    violation: Option<String>,
    hook: Option<String>,
    post: Option<String>,
) -> (r: Option<String>)
    ensures
        text::opt_view(r) == first_of(
            text::opt_view(violation),
            text::opt_view(hook),
            text::opt_view(post),
        ),
{
    if violation.is_some() {
        violation
    } else if hook.is_some() {
        hook
    } else {
        post
    }
}

/// What is said of a turn that used tools it may not use.
pub open spec fn violation_text(used: Seq<Seq<char>>, allowed: Seq<Seq<char>>) -> Option<Seq<char>> {
    if used.len() == 0 {
        None
    } else {
        Some(
            "[VALIDATION ERROR] Tool isolation violation: agent used disallowed tools: ["@
                + text::join(used, ", "@) + "]. Only ["@ + text::join(allowed, ", "@)
                + "] are permitted."@,
        )
    }
}

/// What is said of a turn that used tools it may not use.
pub fn tool_violation(used: &Vec<String>, allowed: &Vec<String>) -> (r: Option<String>)
    ensures
        text::opt_view(r) == violation_text(text::texts(used@), text::texts(allowed@)),
{
    if used.len() == 0 {
        return None;
    }
    let mut out =
        "[VALIDATION ERROR] Tool isolation violation: agent used disallowed tools: [".to_owned();
    out.append(text::joined(used.as_slice(), ", ").as_str());
    out.append("]. Only [");
    out.append(text::joined(allowed.as_slice(), ", ").as_str());
    out.append("] are permitted.");
    Some(out)
}

/// The largest of the numbers that there are.
pub open spec fn largest(v: Seq<Option<u32>>) -> Option<u32>
    decreases v.len(),
{
    if v.len() == 0 {
        None
    } else {
        match (largest(v.drop_last()), v.last()) {
            (Some(a), Some(b)) => if a >= b {
                Some(a)
            } else {
                Some(b)
            },
            (Some(a), None) => Some(a),
            (None, b) => b,
        }
    }
}

/// How often a turn may be tried again: the largest number that an interceptor asks
/// for, and two where none asks. An interceptor that asks for none does not keep the
/// others from theirs.
pub open spec fn retry_limit(asked: Seq<Option<u32>>) -> u32 {
    match largest(asked) {
        Some(n) => n,
        None => 2,
    }
}

/// How often a turn may be tried again.
pub fn max_validation_retries(asked: &Vec<Option<u32>>) -> (r: u32)
    ensures
        r == retry_limit(asked@),
{
    let mut most: Option<u32> = None;
    let mut i: usize = 0;
    assert(asked@.take(0) == Seq::<Option<u32>>::empty());
    while i < asked.len()
        invariant
            i <= asked.len(),
            most == largest(asked@.take(i as int)),
        decreases asked.len() - i,
    {
        assert(asked@.take(i + 1).drop_last() == asked@.take(i as int));
        if let Some(n) = asked[i] {
            most = match most {
                Some(m) => if m >= n {
                    Some(m)
                } else {
                    Some(n)
                },
                None => Some(n),
            };
        }
        i += 1;
    }
    assert(asked@.take(i as int) == asked@);
    match most {
        Some(n) => n,
        None => 2,
    }
}

/// How turns are tried again.
#[derive(Clone, Copy, Debug, PartialEq, Eq, Structural)]
pub struct RetryPolicy {
    pub max_retries: u32,
    pub base_backoff_ms: u64,
    pub max_backoff_ms: u64,
    /// How many turns the task may take in all.
    pub max_turns: Option<u32>,
}

/// What is to be done with a turn's result.
#[derive(Debug)]
pub enum TurnVerdict {
    /// The result stands.
    Accept,
    /// Another turn is to be taken, with this prompt, after a wait.
    Retry { prompt: String, backoff_ms: u64 },
    /// The task fails, with this error; `cause` is what the check found.
    GiveUp { error: String, cause: String },
}

/// What a [`TurnVerdict`] holds.
pub enum VerdictView {
    Accept,
    Retry { prompt: Seq<char>, backoff_ms: nat },
    GiveUp { error: Seq<char>, cause: Seq<char> },
}

impl View for TurnVerdict {
    type V = VerdictView;

    open spec fn view(&self) -> VerdictView {
        match self {
            TurnVerdict::Accept => VerdictView::Accept,
            TurnVerdict::Retry { prompt, backoff_ms } => VerdictView::Retry {
                prompt: prompt@,
                backoff_ms: *backoff_ms as nat,
            },
            TurnVerdict::GiveUp { error, cause } => VerdictView::GiveUp {
                error: error@,
                cause: cause@,
            },
        }
    }
}

/// The prompt of a retry: the first prompt, and what was wrong.
pub open spec fn retry_prompt(first: Seq<char>, attempt: nat, max: nat, error: Seq<char>) -> Seq<
    char,
> {
    first + "\n\nPost-execution validation failed (attempt "@ + text::decimal(attempt) + "/"@
        + text::decimal(max) + "):\n"@ + truncated(error, 2000)
}

/// What is to be done with a result, after `attempt` retries.
pub open spec fn verdict(
    policy: RetryPolicy,
    attempt: nat,
    first: Seq<char>,
    error: Option<Seq<char>>,
) -> VerdictView {
    match error {
        None => VerdictView::Accept,
        Some(e) => if attempt < policy.max_retries {
            VerdictView::Retry {
                prompt: retry_prompt(first, attempt + 1, policy.max_retries as nat, e),
                backoff_ms: backoff(
                    policy.base_backoff_ms as nat,
                    policy.max_backoff_ms as nat,
                    attempt + 1,
                ),
            }
        } else {
            VerdictView::GiveUp {
                error: "Post-execution validation failed after "@ + text::decimal(
                    policy.max_retries as nat,
                ) + " attempts: "@ + e,
                cause: e,
            }
        },
    }
}

/// The error of a task that has no turn left.
pub open spec fn budget_error(used: nat, max: nat) -> Seq<char> {
    "Turn budget exhausted: used "@ + text::decimal(used) + " of "@ + text::decimal(max)
        + " allowed turns"@
}

/// A turn that is tried until its result stands, or no retry or turn is left.
#[derive(Clone, Copy, Debug, PartialEq, Eq, Structural)]
pub struct CheckedTurn {
    pub policy: RetryPolicy,
    /// Retries so far.
    pub attempt: u32,
    /// Turns that the task has taken.
    pub turns_used: u32,
}

impl CheckedTurn {
    /// Whether no more retries were made than there may be.
    pub open spec fn wf(self) -> bool {
        self.attempt <= self.policy.max_retries
    }

    /// Whether the task may take another turn.
    pub open spec fn may_begin(self) -> bool {
        match self.policy.max_turns {
            Some(max) => self.turns_used < max,
            None => true,
        }
    }

    /// A turn that was not tried yet.
    pub fn new(policy: RetryPolicy, turns_used: u32) -> (r: CheckedTurn)
        ensures
            r == (CheckedTurn { policy, attempt: 0, turns_used }),
            r.wf(),
    {
        CheckedTurn { policy, attempt: 0, turns_used }
    }

    /// Whether the task may take another turn; an error where it may not.
    pub fn begin(&self) -> (r: Option<String>)
        ensures
            r is None == self.may_begin(),
            r matches Some(e) ==> e@ == budget_error(
                self.turns_used as nat,
                self.policy.max_turns->0 as nat,
            ),
    {
        match self.policy.max_turns {
            Some(max) => {
                if self.turns_used < max {
                    return None;
                }
                let mut e = "Turn budget exhausted: used ".to_owned();
                e.append(text::decimal_text(self.turns_used as u64).as_str());
                e.append(" of ");
                e.append(text::decimal_text(max as u64).as_str());
                e.append(" allowed turns");
                Some(e)
            },
            None => None,
        }
    }

    /// Counts a turn.
    pub fn took_turn(&mut self)
        requires
            old(self).may_begin(),
            old(self).turns_used < u32::MAX,
        ensures
            *final(self) == (CheckedTurn {
                turns_used: (old(self).turns_used + 1) as u32,
                ..*old(self)
            }),
            final(self).policy.max_turns matches Some(max) ==> final(self).turns_used <= max,
    {
        self.turns_used = self.turns_used + 1;
    }

    /// Decides on a turn's result, and counts a retry.
    pub fn judge(&mut self, first_prompt: &str, error: Option<String>) -> (r: TurnVerdict)
        requires
            old(self).wf(),
        ensures
            r@ == verdict(
                old(self).policy,
                old(self).attempt as nat,
                first_prompt@,
                text::opt_view(error),
            ),
            final(self).wf(),
            final(self).policy == old(self).policy,
            final(self).turns_used == old(self).turns_used,
            final(self).attempt == old(self).attempt + (if r@ is Retry {
                1int
            } else {
                0int
            }),
    {
        match error {
            None => TurnVerdict::Accept,
            Some(e) => {
                if self.attempt < self.policy.max_retries {
                    self.attempt = self.attempt + 1;
                    let backoff_ms: u64 = compute_backoff_ms(
                        self.policy.base_backoff_ms,
                        self.policy.max_backoff_ms,
                        self.attempt,
                    );
                    let mut prompt = first_prompt.to_owned();
                    prompt.append("\n\nPost-execution validation failed (attempt ");
                    prompt.append(text::decimal_text(self.attempt as u64).as_str());
                    prompt.append("/");
                    prompt.append(text::decimal_text(self.policy.max_retries as u64).as_str());
                    prompt.append("):\n");
                    prompt.append(truncate_validation_error(e.as_str(), 2000).as_str());
                    TurnVerdict::Retry { prompt, backoff_ms }
                } else {
                    let mut error = "Post-execution validation failed after ".to_owned();
                    error.append(text::decimal_text(self.policy.max_retries as u64).as_str());
                    error.append(" attempts: ");
                    error.append(e.as_str());
                    TurnVerdict::GiveUp { error, cause: e }
                }
            },
        }
    }
}

/// A result with an error is never accepted, and a turn is tried again exactly as long
/// as a retry is left: the first retry, and each later one, brings the end nearer.
pub proof fn law_retries_end(
    policy: RetryPolicy,
    attempt: nat,
    first: Seq<char>,
    error: Option<Seq<char>>,
)
    requires
        attempt <= policy.max_retries,
    ensures
        verdict(policy, attempt, first, error) is Accept <==> error is None,
        verdict(policy, attempt, first, error) is Retry <==> error is Some && attempt
            < policy.max_retries,
        verdict(policy, attempt, first, error) is Retry ==> policy.max_retries - (attempt + 1)
            < policy.max_retries - attempt,
        verdict(policy, attempt, first, error) matches VerdictView::Retry { backoff_ms, .. }
            ==> backoff_ms <= policy.max_backoff_ms,
{
}

/// The first retry waits the base, the second twice that, the third four times that; with
/// no retry before it, the wait is the base too.
pub proof fn law_first_waits(base_ms: nat, max_ms: nat)
    requires
        4 * base_ms <= max_ms,
    ensures
        backoff(base_ms, max_ms, 0) == base_ms,
        backoff(base_ms, max_ms, 1) == base_ms,
        backoff(base_ms, max_ms, 2) == 2 * base_ms,
        backoff(base_ms, max_ms, 3) == 4 * base_ms,
{
    vstd::arithmetic::power2::lemma2_to64();
    assert(base_ms * 1 == base_ms) by (nonlinear_arith);
    assert(base_ms * 2 == 2 * base_ms) by (nonlinear_arith);
    assert(base_ms * 4 == 4 * base_ms) by (nonlinear_arith);
}

/// The largest number that is asked for is the limit: it is asked for by someone, and no
/// one asks for more. Where no one asks, it is two.
pub proof fn law_most_retries_that_are_asked_for(asked: Seq<Option<u32>>)
    ensures
        forall|i: int|
            0 <= i < asked.len() ==> (#[trigger] asked[i] matches Some(n) ==> retry_limit(asked)
                >= n),
        (exists|i: int| 0 <= i < asked.len() && #[trigger] asked[i] is Some) ==> exists|i: int|
            0 <= i < asked.len() && #[trigger] asked[i] == Some(retry_limit(asked)),
        (forall|i: int| 0 <= i < asked.len() ==> #[trigger] asked[i] is None) ==> retry_limit(asked)
            == 2,
{
    lemma_largest(asked);
}

proof fn lemma_largest(v: Seq<Option<u32>>)
    ensures
        forall|i: int|
            0 <= i < v.len() ==> (#[trigger] v[i] matches Some(n) ==> (largest(v) matches Some(m)
                && m >= n)),
        largest(v) matches Some(m) ==> exists|i: int| 0 <= i < v.len() && #[trigger] v[i] == Some(m),
    decreases v.len(),
{
    if v.len() > 0 {
        let less = v.drop_last();
        let k = v.len() - 1;
        lemma_largest(less);
        assert forall|i: int| 0 <= i < v.len() implies (#[trigger] v[i] matches Some(n) ==> (
        largest(v) matches Some(m) && m >= n)) by {
            if i < k {
                assert(less[i] == v[i]);
            }
        }
        if let Some(m) = largest(v) {
            if v[k] == Some(m) {
            } else {
                assert(largest(less) == Some(m));
                let i = choose|i: int| 0 <= i < less.len() && #[trigger] less[i] == Some(m);
                assert(v[i] == Some(m));
            }
        }
    }
}

/// Of the errors of a turn a wrong tool counts first, then what a hook found, then what the
/// check of the result found.
pub proof fn law_first_error_counts(
    a: Seq<char>,
    b: Option<Seq<char>>,
    c: Option<Seq<char>>,
)
    ensures
        first_of(Some(a), b, c) == Some(a),
        first_of(None, Some(a), c) == Some(a),
        first_of(None, None, c) == c,
{
}

/// A turn that used tools it may not use is told which, and which it may use; one that did
/// not is told nothing.
pub proof fn law_violation_names_the_tools(used: Seq<Seq<char>>, allowed: Seq<Seq<char>>)
    ensures
        violation_text(used, allowed) is None <==> used.len() == 0,
        violation_text(used, allowed) matches Some(e) ==> text::ends_with(
            e,
            text::join(used, ", "@) + "]. Only ["@ + text::join(allowed, ", "@)
                + "] are permitted."@,
        ),
{
    if used.len() > 0 {
        let lead =
            "[VALIDATION ERROR] Tool isolation violation: agent used disallowed tools: ["@;
        let part = text::join(used, ", "@) + "]. Only ["@ + text::join(allowed, ", "@)
            + "] are permitted."@;
        let e = violation_text(used, allowed)->0;
        assert(e == lead + part);
        assert(e.skip(e.len() - part.len()) == part);
    }
}

/// A retry asks the first prompt again, and tells what was wrong, which try it is and how
/// many there are; a task that gives up says what was wrong, whole.
pub proof fn law_retry_repeats_the_first_prompt(
    policy: RetryPolicy,
    attempt: nat,
    first: Seq<char>,
    e: Seq<char>,
)
    ensures
        attempt < policy.max_retries ==> (verdict(
            policy,
            attempt,
            first,
            Some(e),
        ) matches VerdictView::Retry { prompt, backoff_ms } && text::starts_with(prompt, first)
            && text::ends_with(prompt, truncated(e, 2000)) && text::contains(
            prompt,
            "(attempt "@ + text::decimal(attempt + 1) + "/"@ + text::decimal(
                policy.max_retries as nat,
            ) + ")"@,
        ) && backoff_ms == backoff(
            policy.base_backoff_ms as nat,
            policy.max_backoff_ms as nat,
            attempt + 1,
        )),
        attempt >= policy.max_retries ==> (verdict(
            policy,
            attempt,
            first,
            Some(e),
        ) matches VerdictView::GiveUp { error, cause } && cause == e && text::ends_with(error, e)
            && text::contains(error, text::decimal(policy.max_retries as nat) + " attempts: "@)),
{
    let max = text::decimal(policy.max_retries as nat);
    if attempt < policy.max_retries {
        let p = retry_prompt(first, attempt + 1, policy.max_retries as nat, e);
        let cut = truncated(e, 2000);
        assert(p.take(first.len() as int) == first);
        assert(p.skip(p.len() - cut.len()) == cut);
        reveal_strlit("\n\nPost-execution validation failed (attempt ");
        reveal_strlit("\n\nPost-execution validation failed ");
        reveal_strlit("(attempt ");
        reveal_strlit("):\n");
        reveal_strlit(")");
        reveal_strlit(":\n");
        let lead = first + "\n\nPost-execution validation failed "@;
        let part = "(attempt "@ + text::decimal(attempt + 1) + "/"@ + max + ")"@;
        let tail = ":\n"@ + cut;
        assert("\n\nPost-execution validation failed (attempt "@
            == "\n\nPost-execution validation failed "@ + "(attempt "@);
        assert("):\n"@ == ")"@ + ":\n"@);
        text::lemma_contains_part(lead, part, tail);
        assert(p == lead + part + tail);
    } else {
        let error = "Post-execution validation failed after "@ + max + " attempts: "@ + e;
        assert(error.skip(error.len() - e.len()) == e);
        text::lemma_contains_part(
            "Post-execution validation failed after "@,
            max + " attempts: "@,
            e,
        );
        assert(error == "Post-execution validation failed after "@ + (max + " attempts: "@) + e);
    }
}

/// A cut error tells how long it was; it keeps as many whole characters as the limit
/// allows.
pub proof fn law_cut_error_tells_its_length(error: Seq<char>, max: nat)
    requires
        encode_utf8(error).len() > max,
    ensures
        text::ends_with(
            truncated(error, max),
            "\n\n... (output truncated, "@ + text::decimal(encode_utf8(error).len())
                + " chars total)"@,
        ),
        boundary(encode_utf8(error), max) <= max,
        forall|j: int|
            boundary(encode_utf8(error), max) < j <= max ==> !#[trigger] is_char_boundary(
                encode_utf8(error),
                j,
            ),
{
    let bytes = encode_utf8(error);
    let t = truncated(error, max);
    let tail = "\n\n... (output truncated, "@ + text::decimal(bytes.len()) + " chars total)"@;
    assert(t.skip(t.len() - tail.len()) == tail);
    encode_utf8_valid_utf8(error);
    lemma_boundary(bytes, max);
    lemma_boundary_is_last(bytes, max);
}

proof fn lemma_boundary_is_last(bytes: Seq<u8>, i: nat)
    ensures
        forall|j: int| boundary(bytes, i) < j <= i ==> !#[trigger] is_char_boundary(bytes, j),
    decreases i,
{
    if i != 0 && !is_char_boundary(bytes, i as int) {
        lemma_boundary_is_last(bytes, (i - 1) as nat);
    }
}

/// A task may take another turn as long as it has taken fewer than it may, and always where no
/// limit is set; the error of one that may not tells both numbers.
pub proof fn law_turns_are_limited(t: CheckedTurn, used: nat, max: nat)
    ensures
        t.policy.max_turns is None ==> t.may_begin(),
        t.policy.max_turns matches Some(m) ==> (t.may_begin() <==> t.turns_used < m),
        budget_error(used, max) == "Turn budget exhausted: used "@ + text::decimal(used) + " of "@
            + text::decimal(max) + " allowed turns"@,
{
}

} // verus!
