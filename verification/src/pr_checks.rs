//! What GitHub has to say of a pull request before it counts as ready.

use crate::bots;
use crate::bots::{PrCheckRollupState, RollupView};
use crate::completion;
use crate::json;
use crate::json::{JsonObject, JsonValue, JsonView};
use crate::review_loop;
use crate::signals;
use crate::text;
use crate::text::CharClass;
use vstd::prelude::*;
use vstd::string::*;

verus! {

/// What is looked up of a pull request.
#[derive(Clone, Copy, Debug, PartialEq, Eq, Structural)]
pub enum PrQuestion {
    Checks,
    OpenState,
    Head,
}

impl PrQuestion {
    /// The words for what is looked up.
    pub open spec fn words(self) -> Seq<char> {
        match self {
            PrQuestion::Checks => "checks"@,
            PrQuestion::OpenState => "open-state"@,
            PrQuestion::Head => "head"@,
        }
    }
}

/// The error of a lookup that cannot be made for want of a token.
pub fn token_required_error(question: PrQuestion) -> (r: String)
    ensures
        r@ == "GitHub token is required to verify PR "@ + question.words()
            + " when hosted review is disabled; set server.github_token, GITHUB_TOKEN, or GH_TOKEN"@,
{
    let mut e = "GitHub token is required to verify PR ".to_owned();
    let words: &'static str = match question {
        PrQuestion::Checks => "checks",
        PrQuestion::OpenState => "open-state",
        PrQuestion::Head => "head",
    };
    e.append(words);
    e.append(
        " when hosted review is disabled; set server.github_token, GITHUB_TOKEN, or GH_TOKEN",
    );
    e
}

/// The address at which a pull request is looked up.
pub fn pull_url(repo_slug: &str, pr_num: u64) -> (r: String)
    ensures
        r@ == "https://api.github.com/repos/"@ + repo_slug@ + "/pulls/"@ + text::decimal(
            pr_num as nat,
        ),
{
    let mut url = "https://api.github.com/repos/".to_owned();
    url.append(repo_slug);
    url.append("/pulls/");
    url.append(text::decimal_text(pr_num).as_str());
    url
}

/// The address to which a comment on a pull request is sent, or an error where the
/// repository is not named by an owner and a name.
pub fn comment_url(repo_slug: &str, pr_num: u64) -> (r: Result<String, String>)
    ensures
        match signals::slug_parts(repo_slug@) {
            Some((owner, repo)) => r matches Ok(url) && url@ == "https://api.github.com/repos/"@
                + owner + "/"@ + repo + "/issues/"@ + text::decimal(pr_num as nat) + "/comments"@,
            None => r matches Err(e) && e@ == "invalid repo slug for review bot comment: "@
                + repo_slug@,
        },
{
    match signals::split_repo_slug(repo_slug) {
        Some((owner, repo)) => {
            let mut url = "https://api.github.com/repos/".to_owned();
            url.append(owner.as_str());
            url.append("/");
            url.append(repo.as_str());
            url.append("/issues/");
            url.append(text::decimal_text(pr_num).as_str());
            url.append("/comments");
            Ok(url)
        },
        None => {
            let mut e = "invalid repo slug for review bot comment: ".to_owned();
            e.append(repo_slug);
            Err(e)
        },
    }
}

/// What is sent as a comment.
pub fn comment_body(body: &str) -> (r: String)
    ensures
        r@ == json::object_text(json::no_fields().insert("body"@, JsonView::Text(body@))),
{
    JsonObject::new().with("body", JsonValue::Text(body.to_owned())).text()
}

/// What came of a look at a pull request's head.
#[derive(Debug)]
pub enum HeadLookup {
    /// The request failed.
    Failed { error: String },
    TimedOut,
    /// GitHub answered with an error.
    Refused { status: String },
    /// The answer could not be read.
    Unreadable { error: String },
    /// The answer, with the head's commit if it names one.
    Answered { sha: Option<String> },
}

/// What a [`HeadLookup`] holds.
pub enum HeadView {
    Failed { error: Seq<char> },
    TimedOut,
    Refused { status: Seq<char> },
    Unreadable { error: Seq<char> },
    Answered { sha: Option<Seq<char>> },
}

impl View for HeadLookup {
    type V = HeadView;

    open spec fn view(&self) -> HeadView {
        match self {
            HeadLookup::Failed { error } => HeadView::Failed { error: error@ },
            HeadLookup::TimedOut => HeadView::TimedOut,
            HeadLookup::Refused { status } => HeadView::Refused { status: status@ },
            HeadLookup::Unreadable { error } => HeadView::Unreadable { error: error@ },
            HeadLookup::Answered { sha } => HeadView::Answered { sha: text::opt_view(*sha) },
        }
    }
}

/// The head's commit, or why it is not known.
pub open spec fn head_sha(pr: Seq<char>, lookup: HeadView) -> Result<Seq<char>, Seq<char>> {
    match lookup {
        HeadView::Failed { error } => Err(
            "GitHub PR head lookup failed for "@ + pr + ": "@ + error,
        ),
        HeadView::TimedOut => Err("GitHub PR head lookup timed out for "@ + pr),
        HeadView::Refused { status } => Err(
            "GitHub PR head lookup failed for "@ + pr + " with status "@ + status,
        ),
        HeadView::Unreadable { error } => Err(
            "GitHub PR head response was not parseable for "@ + pr + ": "@ + error,
        ),
        HeadView::Answered { sha } => if sha is Some && text::trim(
            sha->0,
            CharClass::White,
        ).len() > 0 {
            Ok(sha->0)
        } else {
            Err("GitHub PR head lookup returned no head SHA for "@ + pr)
        },
    }
}

/// The head's commit, or why it is not known.
pub fn read_head_sha(repo_slug: &str, pr_num: u64, lookup: HeadLookup) -> (r: Result<
    String,
    String,
>)
    ensures
        completion::text_result(r) == head_sha(
            review_loop::pr_name(repo_slug@, pr_num as nat),
            lookup@,
        ),
{
    let pr = review_loop::pr_label(repo_slug, pr_num);
    match lookup {
        HeadLookup::Failed { error } => {
            let mut e = "GitHub PR head lookup failed for ".to_owned();
            e.append(pr.as_str());
            e.append(": ");
            e.append(error.as_str());
            Err(e)
        },
        HeadLookup::TimedOut => {
            let mut e = "GitHub PR head lookup timed out for ".to_owned();
            e.append(pr.as_str());
            Err(e)
        },
        HeadLookup::Refused { status } => {
            let mut e = "GitHub PR head lookup failed for ".to_owned();
            e.append(pr.as_str());
            e.append(" with status ");
            e.append(status.as_str());
            Err(e)
        },
        HeadLookup::Unreadable { error } => {
            let mut e = "GitHub PR head response was not parseable for ".to_owned();
            e.append(pr.as_str());
            e.append(": ");
            e.append(error.as_str());
            Err(e)
        },
        HeadLookup::Answered { sha } => {
            if let Some(s) = sha {
                let chars = text::chars_of(s.as_str());
                if text::trimmed(chars.as_slice(), CharClass::White).len() > 0 {
                    return Ok(s);
                }
            }
            let mut e = "GitHub PR head lookup returned no head SHA for ".to_owned();
            e.append(pr.as_str());
            Err(e)
        },
    }
}

/// A wait for a pull request's checks.
#[derive(Debug)]
pub struct CheckWatch {
    repo_slug: String,
    pr_num: u64,
    timeout_secs: u64,
    poll_secs: u64,
}

/// What follows from a look at the checks.
#[derive(Debug)]
pub enum WatchStep {
    /// The checks have passed.
    Green,
    /// They have not, or it cannot be found out.
    Fail { error: String },
    /// They are looked at again after a while.
    Poll { secs: u64 },
}

/// What a [`WatchStep`] holds.
pub enum WatchView {
    Green,
    Fail { error: Seq<char> },
    Poll { secs: nat },
}

impl View for WatchStep {
    type V = WatchView;

    open spec fn view(&self) -> WatchView {
        match self {
            WatchStep::Green => WatchView::Green,
            WatchStep::Fail { error } => WatchView::Fail { error: error@ },
            WatchStep::Poll { secs } => WatchView::Poll { secs: *secs as nat },
        }
    }
}

/// The state that a look at the checks gave, or why it gave none.
pub open spec fn looked_up(r: Result<Option<String>, String>) -> Result<
    Option<Seq<char>>,
    Seq<char>,
> {
    match r {
        Ok(s) => Ok(text::opt_view(s)),
        Err(e) => Err(e@),
    }
}

/// What follows from a look at the checks of `pr`, `elapsed` seconds after the first.
pub open spec fn watch_step(
    pr: Seq<char>,
    timeout: nat,
    poll: nat,
    state: Result<Option<Seq<char>>, Seq<char>>,
    elapsed: nat,
) -> WatchView {
    match state {
        Err(e) => WatchView::Fail {
            error: "GitHub PR check-status lookup failed for "@ + pr + ": "@ + e,
        },
        Ok(s) => match bots::rollup(s) {
            RollupView::Success => WatchView::Green,
            RollupView::Failed(state) => WatchView::Fail {
                error: "GitHub PR checks are not green for "@ + pr + ": "@ + state,
            },
            RollupView::Pending(state) => if elapsed >= timeout {
                WatchView::Fail {
                    error: "GitHub PR checks did not reach SUCCESS for "@ + pr + " within "@
                        + text::decimal(timeout) + "s; last state: "@ + state,
                }
            } else {
                WatchView::Poll { secs: poll }
            },
        },
    }
}

impl CheckWatch {
    /// The pull request, as messages name it.
    pub closed spec fn pr(self) -> Seq<char> {
        review_loop::pr_name(self.repo_slug@, self.pr_num as nat)
    }

    /// The seconds after which the wait ends.
    pub closed spec fn timeout(self) -> nat {
        self.timeout_secs as nat
    }

    /// The seconds between two looks.
    pub closed spec fn poll(self) -> nat {
        self.poll_secs as nat
    }

    /// A wait of at least a second, with a look at least once a minute and at most once
    /// a second.
    pub fn new(repo_slug: &str, pr_num: u64, timeout_secs: u64, poll_interval_secs: u64) -> (r:
        CheckWatch)
        ensures
            r.pr() == review_loop::pr_name(repo_slug@, pr_num as nat),
            r.timeout() == (if timeout_secs == 0 {
                1
            } else {
                timeout_secs as nat
            }),
            r.poll() == (if poll_interval_secs == 0 {
                1
            } else if poll_interval_secs > 60 {
                60
            } else {
                poll_interval_secs as nat
            }),
    {
        let timeout: u64 = if timeout_secs == 0 {
            1
        } else {
            timeout_secs
        };
        let poll: u64 = if poll_interval_secs == 0 {
            1
        } else if poll_interval_secs > 60 {
            60
        } else {
            poll_interval_secs
        };
        CheckWatch {
            repo_slug: repo_slug.to_owned(),
            pr_num,
            timeout_secs: timeout,
            poll_secs: poll,
        }
    }

    /// What follows from a look at the checks, `elapsed_secs` after the first.
    pub fn observe(&self, state: Result<Option<String>, String>, elapsed_secs: u64) -> (r:
        WatchStep)
        ensures
            r@ == watch_step(
                self.pr(),
                self.timeout(),
                self.poll(),
                looked_up(state),
                elapsed_secs as nat,
            ),
    {
        let pr = review_loop::pr_label(self.repo_slug.as_str(), self.pr_num);
        match state {
            Err(cause) => {
                let mut error = "GitHub PR check-status lookup failed for ".to_owned();
                error.append(pr.as_str());
                error.append(": ");
                error.append(cause.as_str());
                WatchStep::Fail { error }
            },
            Ok(s) => {
                let told: Option<&str> = match &s {
                    Some(t) => Some(t.as_str()),
                    None => None,
                };
                match bots::classify_pr_check_rollup_state(told) {
                    PrCheckRollupState::Success => WatchStep::Green,
                    PrCheckRollupState::Failed(state) => {
                        let mut error = "GitHub PR checks are not green for ".to_owned();
                        error.append(pr.as_str());
                        error.append(": ");
                        error.append(state.as_str());
                        WatchStep::Fail { error }
                    },
                    PrCheckRollupState::Pending(state) => {
                        if elapsed_secs < self.timeout_secs {
                            return WatchStep::Poll { secs: self.poll_secs };
                        }
                        let mut error = "GitHub PR checks did not reach SUCCESS for ".to_owned();
                        error.append(pr.as_str());
                        error.append(" within ");
                        error.append(text::decimal_text(self.timeout_secs).as_str());
                        error.append("s; last state: ");
                        error.append(state.as_str());
                        WatchStep::Fail { error }
                    },
                }
            },
        }
    }
}

/// Only checks that succeeded are green, and the wait ends: once its time is over, there
/// is no further look.
pub proof fn law_checks_are_green_or_the_wait_ends(
    pr: Seq<char>,
    timeout: nat,
    poll: nat,
    state: Result<Option<Seq<char>>, Seq<char>>,
    elapsed: nat,
)
    ensures
        watch_step(pr, timeout, poll, state, elapsed) is Green <==> (state is Ok && bots::rollup(
            state->Ok_0,
        ) is Success),
        elapsed >= timeout ==> watch_step(pr, timeout, poll, state, elapsed) !is Poll,
{
}

/// Checks that failed are something to act on, and are reported so that this is seen.
pub proof fn law_failed_checks_are_feedback(
    pr: Seq<char>,
    timeout: nat,
    poll: nat,
    state: Option<Seq<char>>,
    elapsed: nat,
)
    requires
        bots::rollup(state) is Failed,
    ensures
        watch_step(pr, timeout, poll, Ok(state), elapsed) matches WatchView::Fail { error }
            && completion::ci_actionable(error),
{
    let failed = bots::rollup(state)->Failed_0;
    let words = "GitHub PR checks are not green"@;
    let error = "GitHub PR checks are not green for "@ + pr + ": "@ + failed;
    reveal_strlit("GitHub PR checks are not green");
    reveal_strlit("GitHub PR checks are not green for ");
    assert("GitHub PR checks are not green for "@.take(30) == words);
    assert(error.subrange(0, 30) == words);
    assert(text::occurs_at(error, words, 0));
}

/// How long checks are waited for: pending ones are looked at again until the time is over,
/// failed ones end the wait at once, and so does a look that failed. Each failure names the
/// pull request and what was found.
pub proof fn law_wait_goes_on_only_for_pending_checks(
    pr: Seq<char>,
    timeout: nat,
    poll: nat,
    state: Option<Seq<char>>,
    elapsed: nat,
    e: Seq<char>,
)
    ensures
        watch_step(pr, timeout, poll, Ok(state), elapsed) == (WatchView::Poll { secs: poll }) <==> (
        bots::rollup(state) is Pending && elapsed < timeout),
        watch_step(pr, timeout, poll, Err(e), elapsed) == (WatchView::Fail {
            error: "GitHub PR check-status lookup failed for "@ + pr + ": "@ + e,
        }),
        bots::rollup(state) matches RollupView::Failed(s) ==> watch_step(
            pr,
            timeout,
            poll,
            Ok(state),
            elapsed,
        ) == (WatchView::Fail {
            error: "GitHub PR checks are not green for "@ + pr + ": "@ + s,
        }),
        bots::rollup(state) matches RollupView::Pending(s) ==> (elapsed >= timeout ==> watch_step(
            pr,
            timeout,
            poll,
            Ok(state),
            elapsed,
        ) == (WatchView::Fail {
            error: "GitHub PR checks did not reach SUCCESS for "@ + pr + " within "@
                + text::decimal(timeout) + "s; last state: "@ + s,
        })),
{
}

/// The head is known exactly where GitHub answered with a commit that is not blank, and it
/// is that commit.
pub proof fn law_head_is_known_by_its_commit(pr: Seq<char>, lookup: HeadView)
    ensures
        head_sha(pr, lookup) matches Ok(sha) ==> lookup == (HeadView::Answered { sha: Some(sha) })
            && text::trim(sha, CharClass::White).len() > 0,
        lookup matches HeadView::Answered { sha: Some(s) } ==> (text::trim(
            s,
            CharClass::White,
        ).len() > 0 ==> head_sha(pr, lookup) == Ok::<Seq<char>, Seq<char>>(s)),
        head_sha(pr, lookup) matches Err(e) ==> text::contains(e, pr),
{
    if let Err(e) = head_sha(pr, lookup) {
        let none = Seq::<char>::empty();
        match lookup {
            HeadView::Failed { error } => {
                text::lemma_contains_part("GitHub PR head lookup failed for "@, pr, ": "@ + error);
                assert(e == "GitHub PR head lookup failed for "@ + pr + (": "@ + error));
            },
            HeadView::TimedOut => {
                text::lemma_contains_part("GitHub PR head lookup timed out for "@, pr, none);
                assert(e == "GitHub PR head lookup timed out for "@ + pr + none);
            },
            HeadView::Refused { status } => {
                text::lemma_contains_part(
                    "GitHub PR head lookup failed for "@,
                    pr,
                    " with status "@ + status,
                );
                assert(e == "GitHub PR head lookup failed for "@ + pr + (" with status "@
                    + status));
            },
            HeadView::Unreadable { error } => {
                text::lemma_contains_part(
                    "GitHub PR head response was not parseable for "@,
                    pr,
                    ": "@ + error,
                );
                assert(e == "GitHub PR head response was not parseable for "@ + pr + (": "@
                    + error));
            },
            HeadView::Answered { .. } => {
                text::lemma_contains_part(
                    "GitHub PR head lookup returned no head SHA for "@,
                    pr,
                    none,
                );
                assert(e == "GitHub PR head lookup returned no head SHA for "@ + pr + none);
            },
        }
    }
}

} // verus!
