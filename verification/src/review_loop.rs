//! The hosted review: a pull request is watched until a reviewing agent approves it, its
//! rounds are used up, or something outside ends it.
//!
//! [`ReviewLoop`] decides. Its caller asks GitHub, runs the agent and the tests, sleeps,
//! and reports what came of it.

use crate::bots;
use crate::bots::{DescriptorView, ReviewBotDescriptor, ReviewBotKey, SilenceRule};
use crate::clock::Timestamp;
use crate::events;
use crate::events::{Decision, EventView, TaskEvent};
use crate::json;
use crate::json::{JsonObject, JsonValue, JsonView};
use crate::outcome::{LogEntry, LogView};
use crate::signals;
use crate::signals::{PullRequestSignals, ReviewFallbackState};
use crate::task;
use crate::task::{ChangeView, TaskChange, TaskStatus, TurnFailureKind};
use crate::telemetry;
use crate::telemetry::{TurnFailure, TurnMark, TurnTelemetry};
use crate::text;
use crate::wait_budget;
use crate::wait_budget::ReviewWaitBudget;
use vstd::prelude::*;
use vstd::string::*;

verus! {

/// After this many waits in a row a round is used up.
pub const MAX_CONSECUTIVE_WAITS: u32 = 10;

/// So few open issues may be left when the rounds are used up.
pub const GRADUATION_ISSUES: u32 = 2;

/// What GitHub says of a pull request.
#[derive(Clone, Copy, Debug, PartialEq, Eq, Structural)]
pub enum PrExternalState {
    Open,
    Merged,
    Closed,
    Unknown,
}

/// A pull request that is open or merged.
#[derive(Clone, Copy, Debug, PartialEq, Eq, Structural)]
pub enum PrOpenOrMergedState {
    Open,
    Merged,
}

/// The state that GitHub's answer stands for. A closed pull request with a merge time
/// was merged.
pub open spec fn external_state(state: Seq<char>, merged_at: Option<Seq<char>>) -> PrExternalState {
    let unmerged = match merged_at {
        None => true,
        Some(t) => text::trim(t, text::CharClass::White).len() == 0,
    };
    if state == "open"@ {
        PrExternalState::Open
    } else if state == "merged"@ {
        PrExternalState::Merged
    } else if state == "closed"@ {
        if unmerged {
            PrExternalState::Closed
        } else {
            PrExternalState::Merged
        }
    } else {
        PrExternalState::Unknown
    }
}

/// The state that GitHub's answer stands for.
pub fn classify_pr_state(state: &str, merged_at: Option<&str>) -> (r: PrExternalState)
    ensures
        r == external_state(state@, text::opt_text(merged_at)),
{
    let unmerged = match merged_at {
        None => true,
        Some(t) => {
            let chars = text::chars_of(t);
            text::trimmed(chars.as_slice(), text::CharClass::White).len() == 0
        },
    };
    if text::str_eq(state, "open") {
        PrExternalState::Open
    } else if text::str_eq(state, "merged") {
        PrExternalState::Merged
    } else if text::str_eq(state, "closed") {
        if unmerged {
            PrExternalState::Closed
        } else {
            PrExternalState::Merged
        }
    } else {
        PrExternalState::Unknown
    }
}

/// Pull request `number` of a repository, as messages name it.
pub open spec fn pr_name(slug: Seq<char>, number: nat) -> Seq<char> {
    slug + "#"@ + text::decimal(number)
}

/// The state of a pull request that has to be open or merged, or why it is not known
/// to be.
pub fn open_or_merged(state: PrExternalState, repo_slug: &str, pr_num: u64) -> (r: Result<
    PrOpenOrMergedState,
    String,
>)
    ensures
        state == PrExternalState::Open ==> r == Ok::<_, String>(PrOpenOrMergedState::Open),
        state == PrExternalState::Merged ==> r == Ok::<_, String>(PrOpenOrMergedState::Merged),
        state == PrExternalState::Closed ==> (r matches Err(e) && e@ == "GitHub PR "@ + pr_name(
            repo_slug@,
            pr_num as nat,
        ) + " is closed without merge"@),
        state == PrExternalState::Unknown ==> (r matches Err(e) && e@
            == "GitHub PR open-state lookup could not verify "@ + pr_name(
            repo_slug@,
            pr_num as nat,
        )),
{
    match state {
        PrExternalState::Open => Ok(PrOpenOrMergedState::Open),
        PrExternalState::Merged => Ok(PrOpenOrMergedState::Merged),
        PrExternalState::Closed => {
            let mut e = "GitHub PR ".to_owned();
            e.append(pr_label(repo_slug, pr_num).as_str());
            e.append(" is closed without merge");
            Err(e)
        },
        PrExternalState::Unknown => {
            let mut e = "GitHub PR open-state lookup could not verify ".to_owned();
            e.append(pr_label(repo_slug, pr_num).as_str());
            Err(e)
        },
    }
}

/// Pull request `number` of a repository, as messages name it.
pub fn pr_label(repo_slug: &str, pr_num: u64) -> (r: String)
    ensures
        r@ == pr_name(repo_slug@, pr_num as nat),
{
    let mut out = repo_slug.to_owned();
    out.append("#");
    out.append(text::decimal_text(pr_num).as_str());
    out
}

/// Whether the last three counts are known and the last is not below either of the
/// two before it.
pub open spec fn not_decreasing(counts: Seq<Option<u32>>) -> bool {
    let n = counts.len() as int;
    &&& n >= 3
    &&& counts[n - 3] matches Some(a) && counts[n - 2] matches Some(b) && counts[n - 1] matches Some(
        c,
    ) && c >= a && c >= b
}

/// Whether the number of issues has stopped falling over the last three rounds.
pub fn issue_count_not_decreasing(counts: &[Option<u32>]) -> (r: bool)
    ensures
        r == not_decreasing(counts@),
{
    let n: usize = counts.len();
    if n < 3 {
        return false;
    }
    match (counts[n - 3], counts[n - 2], counts[n - 1]) {
        (Some(a), Some(b), Some(c)) => c >= a && c >= b,
        _ => false,
    }
}

/// The last count that is known.
pub open spec fn last_known(counts: Seq<Option<u32>>) -> Option<u32>
    decreases counts.len(),
{
    if counts.len() == 0 {
        None
    } else if counts.last() is Some {
        counts.last()
    } else {
        last_known(counts.drop_last())
    }
}

fn last_known_count(counts: &Vec<Option<u32>>) -> (r: Option<u32>)
    ensures
        r == last_known(counts@),
{
    let mut i: usize = counts.len();
    assert(counts@.take(i as int) == counts@);
    while i > 0
        invariant
            i <= counts.len(),
            last_known(counts@) == last_known(counts@.take(i as int)),
        decreases i,
    {
        assert(counts@.take(i as int).drop_last() == counts@.take(i - 1));
        if counts[i - 1].is_some() {
            return counts[i - 1];
        }
        i -= 1;
    }
    None
}

/// Why a review loop ends.
#[derive(Clone, Copy, Debug, PartialEq, Eq, Structural)]
pub enum LoopEnd {
    /// The pull request was merged by someone else.
    MergedExternally { round: u32 },
    /// The pull request was closed by someone else.
    ClosedExternally { round: u32 },
    /// The task waited too long.
    WaitedTooLong { round: u32, elapsed_secs: u64, budget_secs: u64 },
    /// No bot is left to review.
    NoBotLeft { round: u32, fallback: ReviewFallbackState },
    /// No turn is left.
    NoTurnLeft { used: u32, max: u32 },
    /// The reviewing agent approved and the tests passed.
    Approved { round: u32 },
    /// The rounds are used up, with few issues left.
    Graduated { rounds: u32, remaining: u32 },
    /// The rounds are used up.
    Exhausted { rounds: u32, last_status: TaskStatus },
}

/// `n + 1`, as far as a `u32` goes.
pub open spec fn next_u32(n: u32) -> u32 {
    if n < u32::MAX {
        (n + 1) as u32
    } else {
        n
    }
}

/// How a status is called in records.
pub open spec fn status_name(s: TaskStatus) -> Seq<char> {
    match s {
        TaskStatus::Pending => "pending"@,
        TaskStatus::Implementing => "implementing"@,
        TaskStatus::AgentReview => "agent_review"@,
        TaskStatus::Waiting => "waiting"@,
        TaskStatus::Reviewing => "reviewing"@,
        TaskStatus::Done => "done"@,
        TaskStatus::Failed => "failed"@,
        TaskStatus::Cancelled => "cancelled"@,
    }
}

/// How a status is called in records.
pub fn status_label(s: TaskStatus) -> (r: &'static str)
    ensures
        r@ == status_name(s),
{
    match s {
        TaskStatus::Pending => "pending",
        TaskStatus::Implementing => "implementing",
        TaskStatus::AgentReview => "agent_review",
        TaskStatus::Waiting => "waiting",
        TaskStatus::Reviewing => "reviewing",
        TaskStatus::Done => "done",
        TaskStatus::Failed => "failed",
        TaskStatus::Cancelled => "cancelled",
    }
}

/// The fields of the record of a task whose rounds are used up.
pub open spec fn exhausted_fields(rounds: nat, last_status: TaskStatus) -> Map<
    Seq<char>,
    JsonView,
> {
    Map::<Seq<char>, JsonView>::empty().insert(
        "reason"@,
        JsonView::Text("round_budget_exhausted"@),
    ).insert("rounds_used"@, JsonView::Number(rounds as int)).insert(
        "last_status"@,
        JsonView::Text(status_name(last_status)),
    ).insert("waiting_on"@, JsonView::Text("local_review_gate"@))
}

/// The change that the end of a loop makes to its task. `approval` is the word by which
/// a pull request is approved.
pub open spec fn end_view(end: LoopEnd, approval: Seq<char>) -> ChangeView {
    match end {
        LoopEnd::MergedExternally { round } => task::moved(
            TaskStatus::Done,
            Some(round as nat),
            Some("PR merged externally; review loop exited without waiting for "@ + approval),
        ),
        LoopEnd::ClosedExternally { round } => task::moved(
            TaskStatus::Cancelled,
            Some(round as nat),
            Some("PR closed externally without merge; review loop exited"@),
        ),
        LoopEnd::WaitedTooLong { round, elapsed_secs, budget_secs } => task::moved(
            TaskStatus::Failed,
            Some(round as nat),
            Some(wait_budget::exceeded_text(elapsed_secs as nat, budget_secs as nat)),
        ),
        LoopEnd::NoBotLeft { round, fallback } => task::moved(
            TaskStatus::Done,
            Some(round as nat),
            Some(fallback.detail_text()),
        ).and_round(
            round as nat,
            "review"@,
            "ready_to_merge"@,
            Some(fallback.detail_text()),
        ),
        LoopEnd::NoTurnLeft { used, max } => task::moved(
            TaskStatus::Failed,
            None,
            Some(
                "Turn budget exhausted: used "@ + text::decimal(used as nat) + " of "@
                    + text::decimal(max as nat) + " allowed turns"@,
            ),
        ),
        LoopEnd::Approved { round } => task::moved(
            TaskStatus::Done,
            Some(next_u32(round) as nat),
            None,
        ),
        LoopEnd::Graduated { rounds, remaining } => task::moved(
            TaskStatus::Done,
            Some(next_u32(rounds) as nat),
            Some(
                "Graduated: "@ + approval + " not received after "@ + text::decimal(rounds as nat)
                    + " rounds but only "@ + text::decimal(remaining as nat) + " issues remain."@,
            ),
        ),
        LoopEnd::Exhausted { rounds, last_status } => task::moved(
            TaskStatus::Failed,
            Some(next_u32(rounds) as nat),
            Some(json::object_text(exhausted_fields(rounds as nat, last_status))),
        ),
    }
}

fn exhausted_record(rounds: u32, last_status: TaskStatus) -> (r: String)
    ensures
        r@ == json::object_text(exhausted_fields(rounds as nat, last_status)),
{
    JsonObject::new().with(
        "reason",
        JsonValue::Text("round_budget_exhausted".to_owned()),
    ).with("rounds_used", JsonValue::Number(rounds as u64)).with(
        "last_status",
        JsonValue::Text(status_label(last_status).to_owned()),
    ).with("waiting_on", JsonValue::Text("local_review_gate".to_owned())).text()
}

/// The change that the end of a loop makes to its task. `approval` is the word by which
/// a pull request is approved.
pub fn end_change(end: LoopEnd, approval: &str) -> (r: TaskChange)
    ensures
        r@ == end_view(end, approval@),
{
    match end {
        LoopEnd::MergedExternally { round } => {
            let mut e = "PR merged externally; review loop exited without waiting for ".to_owned();
            e.append(approval);
            TaskChange::to(TaskStatus::Done, Some(round), Some(e))
        },
        LoopEnd::ClosedExternally { round } => TaskChange::to(
            TaskStatus::Cancelled,
            Some(round),
            Some("PR closed externally without merge; review loop exited".to_owned()),
        ),
        LoopEnd::WaitedTooLong { round, elapsed_secs, budget_secs } => wait_budget::exceeded_change(
            elapsed_secs,
            budget_secs,
            round,
        ),
        LoopEnd::NoBotLeft { round, fallback } => TaskChange::to(
            TaskStatus::Done,
            Some(round),
            Some(fallback.detail()),
        ).with_round(round, "review", "ready_to_merge", Some(fallback.detail())),
        LoopEnd::NoTurnLeft { used, max } => {
            let mut e = "Turn budget exhausted: used ".to_owned();
            e.append(text::decimal_text(used as u64).as_str());
            e.append(" of ");
            e.append(text::decimal_text(max as u64).as_str());
            e.append(" allowed turns");
            TaskChange::to(TaskStatus::Failed, None, Some(e))
        },
        LoopEnd::Approved { round } => TaskChange::to(
            TaskStatus::Done,
            Some(round.saturating_add(1)),
            None,
        ),
        LoopEnd::Graduated { rounds, remaining } => {
            let mut e = "Graduated: ".to_owned();
            e.append(approval);
            e.append(" not received after ");
            e.append(text::decimal_text(rounds as u64).as_str());
            e.append(" rounds but only ");
            e.append(text::decimal_text(remaining as u64).as_str());
            e.append(" issues remain.");
            TaskChange::to(TaskStatus::Done, Some(rounds.saturating_add(1)), Some(e))
        },
        LoopEnd::Exhausted { rounds, last_status } => TaskChange::to(
            TaskStatus::Failed,
            Some(rounds.saturating_add(1)),
            Some(exhausted_record(rounds, last_status)),
        ),
    }
}

/// What the end of a loop adds to the log of tasks.
pub open spec fn end_entry(end: LoopEnd) -> Option<LogView> {
    match end {
        LoopEnd::MergedExternally { .. } => Some(LogView::Completed),
        LoopEnd::NoBotLeft { .. } => Some(LogView::Completed),
        LoopEnd::Approved { .. } => Some(LogView::Completed),
        LoopEnd::Exhausted { rounds, last_status } => Some(
            LogView::Failed {
                reason: json::object_text(exhausted_fields(rounds as nat, last_status)),
            },
        ),
        _ => None,
    }
}

/// What the end of a loop adds to the log of tasks.
pub fn end_log(end: LoopEnd) -> (r: Option<LogEntry>)
    ensures
        match r {
            None => end_entry(end) is None,
            Some(e) => end_entry(end) == Some(e@),
        },
{
    match end {
        LoopEnd::MergedExternally { .. } => Some(LogEntry::Completed),
        LoopEnd::NoBotLeft { .. } => Some(LogEntry::Completed),
        LoopEnd::Approved { .. } => Some(LogEntry::Completed),
        LoopEnd::Exhausted { rounds, last_status } => Some(
            LogEntry::Failed { reason: exhausted_record(rounds, last_status) },
        ),
        _ => None,
    }
}

/// What a step of the loop tells the workflow that tracks the pull request.
#[derive(Clone, Copy, Debug, PartialEq, Eq, Structural)]
pub enum FeedbackNote {
    BotNotYet,
    KeepWaiting,
    Approved,
    TestsFailed,
    Actionable,
    Graduated,
}

/// What is known of a pull request's feedback.
#[derive(Clone, Copy, Debug, PartialEq, Eq, Structural)]
pub enum PrFeedbackOutcome {
    ReadyToMerge,
    NoActionableFeedback,
    BlockingFeedback,
}

impl FeedbackNote {
    /// What the note says of the pull request.
    pub open spec fn meaning(self) -> PrFeedbackOutcome {
        match self {
            FeedbackNote::BotNotYet => PrFeedbackOutcome::NoActionableFeedback,
            FeedbackNote::KeepWaiting => PrFeedbackOutcome::NoActionableFeedback,
            FeedbackNote::Approved => PrFeedbackOutcome::ReadyToMerge,
            FeedbackNote::TestsFailed => PrFeedbackOutcome::BlockingFeedback,
            FeedbackNote::Actionable => PrFeedbackOutcome::BlockingFeedback,
            FeedbackNote::Graduated => PrFeedbackOutcome::ReadyToMerge,
        }
    }

    /// The words of the note. `judge` is what whoever approves is called.
    pub open spec fn words(self, judge: Seq<char>) -> Seq<char> {
        match self {
            FeedbackNote::BotNotYet => "Review bot has not produced actionable feedback yet."@,
            FeedbackNote::KeepWaiting =>
                "Review output asked the workflow to keep waiting for fresh feedback."@,
            FeedbackNote::Approved => judge + " approved and validation passed."@,
            FeedbackNote::TestsFailed => judge
                + " approved, but local validation failed and must be addressed."@,
            FeedbackNote::Actionable =>
                "Review round produced actionable feedback that requires another pass."@,
            FeedbackNote::Graduated => "Review loop graduated with few remaining issues."@,
        }
    }

    /// What the note says of the pull request.
    pub fn outcome(self) -> (r: PrFeedbackOutcome)
        ensures
            r == self.meaning(),
    {
        match self {
            FeedbackNote::BotNotYet => PrFeedbackOutcome::NoActionableFeedback,
            FeedbackNote::KeepWaiting => PrFeedbackOutcome::NoActionableFeedback,
            FeedbackNote::Approved => PrFeedbackOutcome::ReadyToMerge,
            FeedbackNote::TestsFailed => PrFeedbackOutcome::BlockingFeedback,
            FeedbackNote::Actionable => PrFeedbackOutcome::BlockingFeedback,
            FeedbackNote::Graduated => PrFeedbackOutcome::ReadyToMerge,
        }
    }

    /// The words of the note. `judge` is what whoever approves is called, as it begins a
    /// sentence.
    pub fn summary(self, judge: &str) -> (r: String)
        ensures
            r@ == self.words(judge@),
    {
        match self {
            FeedbackNote::BotNotYet =>
                "Review bot has not produced actionable feedback yet.".to_owned(),
            FeedbackNote::KeepWaiting =>
                "Review output asked the workflow to keep waiting for fresh feedback.".to_owned(),
            FeedbackNote::Approved => {
                let mut s = judge.to_owned();
                s.append(" approved and validation passed.");
                s
            },
            FeedbackNote::TestsFailed => {
                let mut s = judge.to_owned();
                s.append(" approved, but local validation failed and must be addressed.");
                s
            },
            FeedbackNote::Actionable =>
                "Review round produced actionable feedback that requires another pass.".to_owned(),
            FeedbackNote::Graduated =>
                "Review loop graduated with few remaining issues.".to_owned(),
        }
    }
}

/// The issue that feedback on a pull request belongs to: the task's own, or the one
/// that the workflow knows.
pub fn resolve_runtime_feedback_issue_number(
    explicit_issue: Option<u64>,
    known_issue: Option<u64>,
) -> (r: Option<u64>)
    ensures
        r == if explicit_issue is Some {
            explicit_issue
        } else {
            known_issue
        },
{
    if explicit_issue.is_some() {
        explicit_issue
    } else {
        known_issue
    }
}

/// A review loop in progress.
pub struct ReviewLoop {
    max_rounds: u32,
    max_turns: Option<u32>,
    budget: ReviewWaitBudget,
    round: u32,
    waiting_count: u32,
    turns_used: u32,
    prev_fixed: bool,
    issue_counts: Vec<Option<u32>>,
    impasse: bool,
    pending_failure: Option<String>,
    gate_rejected: bool,
    prev_output: Option<String>,
    silence_rounds: u32,
    last_activity: Option<Timestamp>,
    waiting_on: Option<ReviewBotKey>,
    status: TaskStatus,
}

/// What a review loop is determined by.
pub struct LoopState {
    pub max_rounds: u32,
    pub max_turns: Option<u32>,
    pub budget: ReviewWaitBudget,
    /// The current round.
    pub round: u32,
    /// How often in a row the loop has waited.
    pub waiting_count: u32,
    /// The turns that the task has taken.
    pub turns_used: u32,
    /// Whether the last round left something to be looked at anew.
    pub prev_fixed: bool,
    /// The number of issues of each round, where it is known.
    pub issue_counts: Seq<Option<u32>>,
    /// Whether the number of issues has stopped falling.
    pub impasse: bool,
    /// A failure that the next prompt has to report.
    pub pending_failure: Option<Seq<char>>,
    /// Whether the tests ever failed after an approval.
    pub gate_rejected: bool,
    /// The last output that found issues.
    pub prev_output: Option<Seq<char>>,
    /// Looks in a row without bot activity.
    pub silence_rounds: u32,
    /// The last bot activity that is known.
    pub last_activity: Option<Timestamp>,
    /// The bot that was summoned and has not answered.
    pub waiting_on: Option<ReviewBotKey>,
    /// The status that the loop last gave the task.
    pub status: TaskStatus,
}

impl View for ReviewLoop {
    type V = LoopState;

    closed spec fn view(&self) -> LoopState {
        LoopState {
            max_rounds: self.max_rounds,
            max_turns: self.max_turns,
            budget: self.budget,
            round: self.round,
            waiting_count: self.waiting_count,
            turns_used: self.turns_used,
            prev_fixed: self.prev_fixed,
            issue_counts: self.issue_counts@,
            impasse: self.impasse,
            pending_failure: text::opt_view(self.pending_failure),
            gate_rejected: self.gate_rejected,
            prev_output: text::opt_view(self.prev_output),
            silence_rounds: self.silence_rounds,
            last_activity: self.last_activity,
            waiting_on: self.waiting_on,
            status: self.status,
        }
    }
}

impl LoopState {
    /// A further round is allowed.
    pub open spec fn ongoing(self) -> bool {
        1 <= self.round <= self.max_rounds && self.max_rounds <= u32::MAX - 2
    }

    /// Whether another turn is within the budget.
    pub open spec fn has_turn(self) -> bool {
        self.max_turns matches Some(max) ==> self.turns_used < max
    }

    /// The end of a loop that waited too long, if it did.
    pub open spec fn overdue(self, elapsed: u64) -> Option<LoopEnd> {
        if self.budget.exceeded(elapsed) {
            Some(
                LoopEnd::WaitedTooLong {
                    round: self.round,
                    elapsed_secs: elapsed,
                    budget_secs: self.budget.budget_secs,
                },
            )
        } else {
            None
        }
    }

    /// How the loop ends when its rounds are used up.
    pub open spec fn used_up(self) -> LoopEnd {
        match last_known(self.issue_counts) {
            Some(n) if n <= GRADUATION_ISSUES && !self.gate_rejected => LoopEnd::Graduated {
                rounds: self.max_rounds,
                remaining: n,
            },
            _ => LoopEnd::Exhausted { rounds: self.max_rounds, last_status: self.status },
        }
    }

    /// The state after waiting for a bot once more. Too many waits use up a round.
    pub open spec fn waited_for_bot(self) -> LoopState {
        let n = next_u32(self.waiting_count);
        if n >= MAX_CONSECUTIVE_WAITS {
            LoopState {
                round: (self.round + 1) as u32,
                waiting_count: 0,
                status: TaskStatus::Waiting,
                ..self
            }
        } else {
            LoopState { waiting_count: n, status: TaskStatus::Waiting, ..self }
        }
    }
}

/// What follows from the signals of a pull request.
#[derive(Debug)]
pub enum SignalStep {
    /// Stop.
    End { end: LoopEnd, fallback: Option<ReviewFallbackState> },
    /// Wait for the bot; summon it first where asked to.
    Wait { bot: ReviewBotDescriptor, summon: bool, fallback: Option<ReviewFallbackState> },
    /// Let the agent look at the bot's review.
    Review { bot: ReviewBotDescriptor, fallback: Option<ReviewFallbackState> },
}

/// What a [`SignalStep`] holds.
pub enum SignalView {
    End { end: LoopEnd, fallback: Option<ReviewFallbackState> },
    Wait { bot: DescriptorView, summon: bool, fallback: Option<ReviewFallbackState> },
    Review { bot: DescriptorView, fallback: Option<ReviewFallbackState> },
}

impl View for SignalStep {
    type V = SignalView;

    open spec fn view(&self) -> SignalView {
        match self {
            SignalStep::End { end, fallback } => SignalView::End {
                end: *end,
                fallback: *fallback,
            },
            SignalStep::Wait { bot, summon, fallback } => SignalView::Wait {
                bot: bot@,
                summon: *summon,
                fallback: *fallback,
            },
            SignalStep::Review { bot, fallback } => SignalView::Review {
                bot: bot@,
                fallback: *fallback,
            },
        }
    }
}

impl SignalView {
    /// The fallback that has to be noted, whatever comes next.
    pub open spec fn noted(self) -> Option<ReviewFallbackState> {
        match self {
            SignalView::End { fallback, .. } => fallback,
            SignalView::Wait { fallback, .. } => fallback,
            SignalView::Review { fallback, .. } => fallback,
        }
    }
}

impl SignalStep {
    /// The fallback that has to be noted, whatever comes next.
    pub fn fallback(&self) -> (r: Option<ReviewFallbackState>)
        ensures
            r == self@.noted(),
    {
        match self {
            SignalStep::End { fallback, .. } => *fallback,
            SignalStep::Wait { fallback, .. } => *fallback,
            SignalStep::Review { fallback, .. } => *fallback,
        }
    }
}

/// The state after a look at the signals, as far as the count of silent looks goes.
pub open spec fn looked(s: LoopState, activity: Option<Timestamp>) -> LoopState {
    let (rounds, at) = signals::silence_after(s.silence_rounds, s.last_activity, activity);
    LoopState { silence_rounds: rounds, last_activity: at, ..s }
}

/// What follows from a decision on the bots, in the state after the look.
pub open spec fn signal_step(
    s: LoopState,
    d: signals::DecisionView,
    elapsed: u64,
) -> SignalView {
    if d.fallback matches Some(f) && f.terminal() {
        match s.overdue(elapsed) {
            Some(end) => SignalView::End { end, fallback: d.fallback },
            None => SignalView::End {
                end: LoopEnd::NoBotLeft { round: s.round, fallback: d.fallback->0 },
                fallback: d.fallback,
            },
        }
    } else if d.wait_for_bot {
        match s.overdue(elapsed) {
            Some(end) => SignalView::End { end, fallback: d.fallback },
            None => SignalView::Wait {
                bot: d.active_bot,
                summon: d.active_bot.key == ReviewBotKey::Codex && s.waiting_on != Some(
                    d.active_bot.key,
                ),
                fallback: d.fallback,
            },
        }
    } else {
        SignalView::Review { bot: d.active_bot, fallback: d.fallback }
    }
}

/// The state after that step.
pub open spec fn signal_state(s: LoopState, step: SignalView) -> LoopState {
    match step {
        SignalView::End { .. } => s,
        SignalView::Wait { .. } => s.waited_for_bot(),
        SignalView::Review { .. } => LoopState { waiting_on: None, ..s },
    }
}

/// What the next prompt is made of.
#[derive(Debug)]
pub struct PromptInputs {
    pub round: u32,
    pub prev_fixed: bool,
    pub impasse: bool,
    pub failure: Option<String>,
}

/// What an agent's output says.
#[derive(Clone, Copy, Debug, PartialEq, Eq, Structural)]
pub struct OutputVerdict {
    /// It approves.
    pub lgtm: bool,
    /// It asks to wait.
    pub waiting: bool,
    /// How many issues it counts.
    pub issues: Option<u32>,
    /// It is as similar to the output before as makes a repetition.
    pub similar: bool,
}

/// What follows from an agent's output.
#[derive(Clone, Copy, Debug, PartialEq, Eq, Structural)]
pub enum OutputStep {
    /// The output repeats the one before, and the number of issues does not fall.
    Repetition,
    /// Stop.
    End(LoopEnd),
    /// Sleep, and begin the round anew.
    Wait,
    /// Record the round. After an approval the tests have to pass.
    Record { round: u32, lgtm: bool },
}

/// Whether the number of issues has fallen since the round before.
pub open spec fn progressing(counts: Seq<Option<u32>>, now: Option<u32>) -> bool {
    &&& counts.len() > 0
    &&& counts.last() matches Some(before) && now matches Some(n) && n < before
}

/// Whether the output repeats the one before without progress.
pub open spec fn repeats(s: LoopState, v: OutputVerdict) -> bool {
    !v.waiting && !v.lgtm && s.prev_output is Some && v.similar && !progressing(
        s.issue_counts,
        v.issues,
    )
}

/// The state after an output was taken in, before it is acted on.
pub open spec fn noted(s: LoopState, v: OutputVerdict, output: Seq<char>) -> LoopState {
    let counts = if v.waiting {
        s.issue_counts
    } else {
        s.issue_counts.push(v.issues)
    };
    LoopState {
        prev_output: if !v.waiting && !v.lgtm {
            Some(output)
        } else if v.lgtm {
            None
        } else {
            s.prev_output
        },
        issue_counts: counts,
        impasse: s.impasse || not_decreasing(counts),
        ..s
    }
}

/// What follows from an output, and the state then.
pub open spec fn output_step(
    s: LoopState,
    v: OutputVerdict,
    output: Seq<char>,
    elapsed: u64,
) -> (OutputStep, LoopState) {
    let n = noted(s, v, output);
    let lgtm = v.lgtm && s.pending_failure is None;
    let fixed = !lgtm && !v.waiting;
    if repeats(s, v) {
        (OutputStep::Repetition, s)
    } else if v.waiting && n.overdue(elapsed) is Some {
        (OutputStep::End(n.overdue(elapsed)->0), n)
    } else if v.waiting && n.waiting_count < MAX_CONSECUTIVE_WAITS {
        (
            OutputStep::Wait,
            LoopState {
                waiting_count: (n.waiting_count + 1) as u32,
                status: TaskStatus::Waiting,
                ..n
            },
        )
    } else if v.waiting {
        let after = LoopState {
            round: (n.round + 1) as u32,
            waiting_count: 0,
            prev_fixed: fixed,
            ..n
        };
        (OutputStep::Record { round: after.round, lgtm }, after)
    } else {
        (OutputStep::Record { round: n.round, lgtm }, LoopState { prev_fixed: fixed, ..n })
    }
}

/// What follows at the end of a round, and the state then.
pub open spec fn round_end(s: LoopState, elapsed: u64) -> (Option<LoopEnd>, LoopState) {
    let n = LoopState { prev_fixed: s.prev_fixed || s.pending_failure is Some, ..s };
    if n.round < n.max_rounds {
        if n.overdue(elapsed) is Some {
            (n.overdue(elapsed), n)
        } else {
            (
                None,
                LoopState {
                    waiting_count: next_u32(n.waiting_count),
                    status: TaskStatus::Waiting,
                    round: (n.round + 1) as u32,
                    ..n
                },
            )
        }
    } else {
        (None, LoopState { round: (n.round + 1) as u32, ..n })
    }
}

impl ReviewLoop {
    /// A loop that begins. `fresh_push` tells whether a commit was just pushed,
    /// `turns_used` how many turns the task has taken, `status` where it stands.
    pub fn new(
        max_rounds: u32,
        max_turns: Option<u32>,
        budget_secs: u64,
        fresh_push: bool,
        turns_used: u32,
        status: TaskStatus,
    ) -> (r: ReviewLoop)
        ensures
            r@ == (LoopState {
                max_rounds,
                max_turns,
                budget: (ReviewWaitBudget { budget_secs }),
                round: 1,
                waiting_count: 1,
                turns_used,
                prev_fixed: fresh_push,
                issue_counts: seq![],
                impasse: false,
                pending_failure: None,
                gate_rejected: false,
                prev_output: None,
                silence_rounds: 0,
                last_activity: None,
                waiting_on: None,
                status,
            }),
    {
        let r = ReviewLoop {
            max_rounds,
            max_turns,
            budget: ReviewWaitBudget::new(budget_secs),
            round: 1,
            waiting_count: 1,
            turns_used,
            prev_fixed: fresh_push,
            issue_counts: Vec::new(),
            impasse: false,
            pending_failure: None,
            gate_rejected: false,
            prev_output: None,
            silence_rounds: 0,
            last_activity: None,
            waiting_on: None,
            status,
        };
        assert(r@.issue_counts == Seq::<Option<u32>>::empty());
        r
    }

    /// The turns that the task has taken.
    pub fn turns_used(&self) -> (r: u32)
        ensures
            r == self@.turns_used,
    {
        self.turns_used
    }

    /// How often in a row the loop has waited.
    pub fn waiting_count(&self) -> (r: u32)
        ensures
            r == self@.waiting_count,
    {
        self.waiting_count
    }

    /// The seconds to sleep when `wait_secs` are wanted.
    pub fn sleep_secs(&self, wait_secs: u64, elapsed_secs: u64) -> (r: u64)
        ensures
            r == self@.budget.sleep(wait_secs, elapsed_secs),
    {
        self.budget.sleep_secs(wait_secs, elapsed_secs)
    }

    /// The round to begin now, or how the loop ends because none is left.
    pub fn begin_round(&self) -> (r: Result<u32, LoopEnd>)
        ensures
            r == if self@.round <= self@.max_rounds {
                Ok::<u32, LoopEnd>(self@.round)
            } else {
                Err(self@.used_up())
            },
    {
        if self.round <= self.max_rounds {
            return Ok(self.round);
        }
        if let Some(n) = last_known_count(&self.issue_counts) {
            if n <= GRADUATION_ISSUES && !self.gate_rejected {
                return Err(LoopEnd::Graduated { rounds: self.max_rounds, remaining: n });
            }
        }
        Err(LoopEnd::Exhausted { rounds: self.max_rounds, last_status: self.status })
    }

    /// Takes in what GitHub says of the pull request. One that was merged or closed
    /// elsewhere ends the loop.
    pub fn pr_state(&self, state: PrExternalState) -> (r: Option<LoopEnd>)
        ensures
            r == match state {
                PrExternalState::Merged => Some(
                    LoopEnd::MergedExternally { round: self@.round },
                ),
                PrExternalState::Closed => Some(
                    LoopEnd::ClosedExternally { round: self@.round },
                ),
                _ => None,
            },
    {
        match state {
            PrExternalState::Merged => Some(LoopEnd::MergedExternally { round: self.round }),
            PrExternalState::Closed => Some(LoopEnd::ClosedExternally { round: self.round }),
            _ => None,
        }
    }

    fn overdue(&self, elapsed_secs: u64) -> (r: Option<LoopEnd>)
        ensures
            r == self@.overdue(elapsed_secs),
    {
        if self.budget.is_exceeded(elapsed_secs) {
            Some(
                LoopEnd::WaitedTooLong {
                    round: self.round,
                    elapsed_secs,
                    budget_secs: self.budget.budget_secs,
                },
            )
        } else {
            None
        }
    }

    /// Takes in the signals of the pull request, and decides which bot to turn to.
    /// `gemini_notice` is what Gemini writes, in lower case, where it has no quota left.
    pub fn signals_read(
        &mut self,
        chain: &[ReviewBotDescriptor],
        pr: &PullRequestSignals,
        now: Timestamp,
        gemini_notice: &str,
        rule: SilenceRule,
        elapsed_secs: u64,
    ) -> (r: Result<SignalStep, String>)
        requires
            old(self)@.ongoing(),
        ensures
            r is Err == (chain@.len() == 0),
            r matches Err(e) ==> e@ == "review fallback chain is empty"@,
            r matches Ok(step) ==> {
                let s = looked(old(self)@, pr.latest_bot_activity_at);
                let d = signals::decision(
                    bots::descriptors(chain@),
                    pr.bots@,
                    gemini_notice@,
                    signals::setting_of(*pr, now, s.silence_rounds, rule),
                );
                &&& step@ == signal_step(s, d, elapsed_secs)
                &&& final(self)@ == signal_state(s, step@)
            },
    {
        let (silent, at) = signals::update_silence_rounds(
            self.silence_rounds,
            self.last_activity,
            pr.latest_bot_activity_at,
        );
        self.silence_rounds = silent;
        self.last_activity = at;
        let decided =
            signals::decide_review_loop_action(chain, pr, now, silent, gemini_notice, rule);
        let d = match decided {
            Ok(d) => d,
            Err(e) => {
                return Err(e);
            },
        };
        if let Some(f) = d.fallback {
            if f.is_terminal() {
                let end = match self.overdue(elapsed_secs) {
                    Some(end) => end,
                    None => LoopEnd::NoBotLeft { round: self.round, fallback: f },
                };
                return Ok(SignalStep::End { end, fallback: d.fallback });
            }
        }
        if d.wait_for_bot {
            if let Some(end) = self.overdue(elapsed_secs) {
                return Ok(SignalStep::End { end, fallback: d.fallback });
            }
            let summoned = match self.waiting_on {
                Some(key) => key == d.active_bot.key,
                None => false,
            };
            let summon = matches!(d.active_bot.key, ReviewBotKey::Codex) && !summoned;
            self.waiting_count = self.waiting_count.saturating_add(1);
            if self.waiting_count >= MAX_CONSECUTIVE_WAITS {
                self.round += 1;
                self.waiting_count = 0;
            }
            self.status = TaskStatus::Waiting;
            return Ok(SignalStep::Wait { bot: d.active_bot, summon, fallback: d.fallback });
        }
        self.waiting_on = None;
        Ok(SignalStep::Review { bot: d.active_bot, fallback: d.fallback })
    }

    /// Notes that the bot was summoned.
    pub fn summoned(&mut self, bot: ReviewBotKey)
        ensures
            final(self)@ == (LoopState { waiting_on: Some(bot), ..old(self)@ }),
    {
        self.waiting_on = Some(bot);
    }

    /// Notes that the signals could not be read. The agent then looks for itself,
    /// unless the task has waited too long.
    pub fn signals_failed(&mut self, elapsed_secs: u64) -> (r: Option<LoopEnd>)
        ensures
            r == old(self)@.overdue(elapsed_secs),
            final(self)@ == (LoopState { waiting_on: None, ..old(self)@ }),
    {
        self.waiting_on = None;
        self.overdue(elapsed_secs)
    }

    /// Begins the agent's look at the review, and gives what its prompt is made of. A
    /// failure is reported once.
    pub fn begin_review(&mut self) -> (r: PromptInputs)
        ensures
            r.round == old(self)@.round,
            r.prev_fixed == old(self)@.prev_fixed,
            r.impasse == old(self)@.impasse,
            text::opt_view(r.failure) == old(self)@.pending_failure,
            final(self)@ == (LoopState {
                pending_failure: None,
                status: TaskStatus::Reviewing,
                ..old(self)@
            }),
    {
        self.status = TaskStatus::Reviewing;
        let failure = self.pending_failure.take();
        PromptInputs {
            round: self.round,
            prev_fixed: self.prev_fixed,
            impasse: self.impasse,
            failure,
        }
    }

    /// Asks for one more turn. `None` grants it, and counts it.
    pub fn take_turn(&mut self) -> (r: Option<LoopEnd>)
        requires
            old(self)@.has_turn() ==> old(self)@.turns_used < u32::MAX,
        ensures
            r == if old(self)@.has_turn() {
                None
            } else {
                Some(
                    LoopEnd::NoTurnLeft {
                        used: old(self)@.turns_used,
                        max: old(self)@.max_turns->0,
                    },
                )
            },
            final(self)@ == if old(self)@.has_turn() {
                LoopState { turns_used: (old(self)@.turns_used + 1) as u32, ..old(self)@ }
            } else {
                old(self)@
            },
    {
        if let Some(max) = self.max_turns {
            if self.turns_used >= max {
                return Some(LoopEnd::NoTurnLeft { used: self.turns_used, max });
            }
        }
        self.turns_used += 1;
        None
    }

    /// Notes that the agent's turn did not pass validation. The next prompt reports
    /// it, and an approval does not count.
    pub fn validation_failed(&mut self, error: &str)
        ensures
            final(self)@ == (LoopState {
                pending_failure: Some("Post-execution validation failed:\n"@ + error@),
                ..old(self)@
            }),
    {
        let mut message = "Post-execution validation failed:\n".to_owned();
        message.append(error);
        self.pending_failure = Some(message);
    }

    /// The last output that found issues.
    pub fn previous_output(&self) -> (r: Option<&str>)
        ensures
            text::opt_text(r) == self@.prev_output,
    {
        match &self.prev_output {
            None => None,
            Some(s) => Some(s.as_str()),
        }
    }

    /// Takes in an agent's output.
    pub fn output_read(&mut self, verdict: OutputVerdict, output: &str, elapsed_secs: u64) -> (r:
        OutputStep)
        requires
            old(self)@.ongoing(),
        ensures
            (r, final(self)@) == output_step(old(self)@, verdict, output@, elapsed_secs),
    {
        if !verdict.waiting && !verdict.lgtm {
            if self.prev_output.is_some() && verdict.similar {
                let count: usize = self.issue_counts.len();
                let progress = if count == 0 {
                    false
                } else {
                    match (self.issue_counts[count - 1], verdict.issues) {
                        (Some(before), Some(n)) => n < before,
                        _ => false,
                    }
                };
                if !progress {
                    return OutputStep::Repetition;
                }
            }
            self.prev_output = Some(output.to_owned());
        } else if verdict.lgtm {
            self.prev_output = None;
        }
        let lgtm = verdict.lgtm && self.pending_failure.is_none();
        if !verdict.waiting {
            self.issue_counts.push(verdict.issues);
        }
        if !self.impasse && issue_count_not_decreasing(self.issue_counts.as_slice()) {
            self.impasse = true;
        }
        if verdict.waiting {
            if let Some(end) = self.overdue(elapsed_secs) {
                return OutputStep::End(end);
            }
            if self.waiting_count < MAX_CONSECUTIVE_WAITS {
                self.waiting_count += 1;
                self.status = TaskStatus::Waiting;
                return OutputStep::Wait;
            }
            self.round += 1;
            self.waiting_count = 0;
        }
        self.prev_fixed = !lgtm && !verdict.waiting;
        OutputStep::Record { round: self.round, lgtm }
    }

    /// The reviewing agent approved and the tests passed.
    pub fn gate_passed(&self) -> (r: LoopEnd)
        ensures
            r == (LoopEnd::Approved { round: self@.round }),
    {
        LoopEnd::Approved { round: self.round }
    }

    /// The reviewing agent approved and the tests failed with `output`: the approval does not
    /// count, and the next prompt reports the failure.
    pub fn gate_failed(&mut self, output: String)
        ensures
            final(self)@ == (LoopState {
                gate_rejected: true,
                pending_failure: Some(output@),
                ..old(self)@
            }),
    {
        self.gate_rejected = true;
        self.pending_failure = Some(output);
    }

    /// Ends the round. `None` goes on with the next one, after a sleep where it is one
    /// of those allowed.
    pub fn end_round(&mut self, elapsed_secs: u64) -> (r: Option<LoopEnd>)
        requires
            1 <= old(self)@.round < u32::MAX,
        ensures
            (r, final(self)@) == round_end(old(self)@, elapsed_secs),
    {
        self.prev_fixed = self.prev_fixed || self.pending_failure.is_some();
        if self.round < self.max_rounds {
            if let Some(end) = self.overdue(elapsed_secs) {
                return Some(end);
            }
            self.waiting_count = self.waiting_count.saturating_add(1);
            self.status = TaskStatus::Waiting;
        }
        self.round += 1;
        None
    }
}

/// The result under which a round is recorded: the word of approval in lower case, or
/// that something was fixed.
pub open spec fn round_result(approved: bool, approval: Seq<char>) -> Seq<char> {
    if approved {
        text::lower(approval)
    } else {
        "fixed"@
    }
}

/// The result of a round, in one word.
fn round_label(approved: bool, approval: &str) -> (r: String)
    ensures
        r@ == round_result(approved, approval@),
{
    if approved {
        let word = text::chars_of(approval);
        text::text_of(text::to_lower(word.as_slice()).as_slice())
    } else {
        "fixed".to_owned()
    }
}

/// The record of a round. `approval` is the word by which a pull request is approved.
pub fn round_record(
    round: u32,
    approved: bool,
    approval: &str,
    telemetry: TurnTelemetry,
) -> (r: TaskChange)
    ensures
        r@ == task::unchanged().and_round(
            round as nat,
            "review"@,
            round_result(approved, approval@),
            None,
        ).marked(telemetry::timed(telemetry)),
{
    let mark = TurnMark::timed(telemetry);
    let label = round_label(approved, approval);
    TaskChange::none().with_round(round, "review", label.as_str(), None).marked(mark)
}

/// What a round adds to the log of tasks once it is recorded.
pub fn round_log(round: u32, approved: bool, approval: &str) -> (r: LogEntry)
    ensures
        r@ == (LogView::RoundCompleted {
            round: round as nat,
            result: round_result(approved, approval@),
        }),
{
    LogEntry::RoundCompleted { round, result: round_label(approved, approval) }
}

/// A note about a round of the review of pull request `pr_num`.
pub open spec fn review_event(
    hook: Seq<char>,
    round: nat,
    decision: Decision,
    reason: Seq<char>,
    pr_num: nat,
    content: Option<Seq<char>>,
) -> EventView {
    EventView {
        turn: Some(round),
        phase: Some("review"@),
        hook,
        decision,
        reason: Some(reason),
        detail: Some("pr="@ + text::decimal(pr_num)),
        content,
        mark: telemetry::no_mark(),
    }
}

fn note(
    hook: &str,
    round: u32,
    decision: Decision,
    reason: String,
    pr_num: u64,
    content: Option<String>,
) -> (r: TaskEvent)
    ensures
        r@ == review_event(
            hook@,
            round as nat,
            decision,
            reason@,
            pr_num as nat,
            text::opt_view(content),
        ),
{
    let mut detail = "pr=".to_owned();
    detail.append(text::decimal_text(pr_num).as_str());
    events::build_task_event(round, "review", hook, decision, Some(reason), Some(detail), content)
}

/// The note about a fallback from one bot to another.
pub fn fallback_event(round: u32, fallback: ReviewFallbackState, pr_num: u64) -> (r: TaskEvent)
    ensures
        r@ == review_event(
            "pr_review_fallback"@,
            round as nat,
            Decision::Warn,
            fallback.detail_text(),
            pr_num as nat,
            None,
        ),
{
    note("pr_review_fallback", round, Decision::Warn, fallback.detail(), pr_num, None)
}

/// The note about a round. `approval` is the word by which a pull request is approved.
pub fn round_event(
    round: u32,
    approved: bool,
    approval: &str,
    pr_num: u64,
    output: String,
    telemetry: TurnTelemetry,
) -> (r: TaskEvent)
    ensures
        r@ == review_event(
            "pr_review"@,
            round as nat,
            if approved {
                Decision::Complete
            } else {
                Decision::Warn
            },
            "round "@ + text::decimal(round as nat) + ": "@ + round_result(approved, approval@),
            pr_num as nat,
            Some(output@),
        ).marked(telemetry::timed(telemetry)),
{
    let mark = TurnMark::timed(telemetry);
    let mut reason = "round ".to_owned();
    reason.append(text::decimal_text(round as u64).as_str());
    reason.append(": ");
    reason.append(round_label(approved, approval).as_str());
    let decision = if approved {
        Decision::Complete
    } else {
        Decision::Warn
    };
    note("pr_review", round, decision, reason, pr_num, Some(output)).marked(mark)
}

/// The note about a turn that failed or ran out of time.
pub fn failed_turn_event(
    round: u32,
    timed_out: bool,
    pr_num: u64,
    mark: TurnMark,
) -> (r: TaskEvent)
    ensures
        r@ == review_event(
            "pr_review"@,
            round as nat,
            Decision::Block,
            if timed_out {
                "review round timed out"@
            } else {
                "review round failed"@
            },
            pr_num as nat,
            None,
        ).marked(mark@),
{
    let reason = if timed_out {
        "review round timed out"
    } else {
        "review round failed"
    };
    note("pr_review", round, Decision::Block, reason.to_owned(), pr_num, None).marked(mark)
}

/// The change for a loop whose outputs repeat. `score` and `threshold` are the
/// similarity and its limit, with two decimals.
pub fn repetition_change(score: &str, threshold: &str) -> (r: TaskChange)
    ensures
        r@ == task::moved(
            TaskStatus::Failed,
            None,
            Some(
                "review loop detected: output similarity "@ + score@ + " >= threshold "@
                    + threshold@,
            ),
        ),
{
    let mut e = "review loop detected: output similarity ".to_owned();
    e.append(score);
    e.append(" >= threshold ");
    e.append(threshold);
    TaskChange::to(TaskStatus::Failed, None, Some(e))
}

/// What follows from an agent's turn that failed with `error`: the change to the task,
/// and whether the error is handed on. An agent without quota or billing fails the
/// task; every other error is recorded and handed on.
pub fn turn_failed(round: u32, failure: &TurnFailure, error: &str, telemetry: TurnTelemetry) -> (r: (
    TaskChange,
    bool,
))
    ensures
        r.1 == !failure.kind.about_account(),
        r.0@ == (if failure.kind.about_account() {
            task::moved(TaskStatus::Failed, None, Some(error@)).and_round(
                round as nat,
                "review"@,
                failure.kind.label(),
                None,
            )
        } else {
            task::unchanged().and_round(round as nat, "review"@, "failed"@, None)
        }).marked(telemetry::failed(telemetry, failure@)),
{
    let mark = TurnMark::failed(telemetry, failure.copy());
    if failure.kind.is_about_account() {
        let change = TaskChange::to(TaskStatus::Failed, None, Some(error.to_owned())).with_round(
            round,
            "review",
            failure.kind.result_label(),
            None,
        );
        (change.marked(mark), false)
    } else {
        let change = TaskChange::none().with_round(round, "review", "failed", None);
        (change.marked(mark), true)
    }
}

/// The error of a turn that ran out of time.
pub open spec fn timeout_text(round: nat, limit_secs: nat) -> Seq<char> {
    "Review check round "@ + text::decimal(round) + " timed out after "@ + text::decimal(limit_secs)
        + "s"@
}

/// The record of a turn of `agent` that ran out of time, the error that is handed on, and
/// what a note about the turn says of it.
pub fn turn_timed_out(round: u32, limit_secs: u64, agent: &str, telemetry: TurnTelemetry) -> (r: (
    TaskChange,
    String,
    TurnMark,
))
    ensures
        r.0@ == task::unchanged().and_round(round as nat, "review"@, "timeout"@, None).marked(r.2@),
        r.1@ == timeout_text(round as nat, limit_secs as nat),
        r.2@ == telemetry::failed(
            telemetry,
            telemetry::plain_failure(
                TurnFailureKind::Timeout,
                Some(agent@),
                timeout_text(round as nat, limit_secs as nat),
            ),
        ),
{
    let mut e = "Review check round ".to_owned();
    e.append(text::decimal_text(round as u64).as_str());
    e.append(" timed out after ");
    e.append(text::decimal_text(limit_secs).as_str());
    e.append("s");
    let failure = TurnFailure::plain(TurnFailureKind::Timeout, Some(agent.to_owned()), e.as_str());
    let mark = TurnMark::failed(telemetry, failure);
    let change = TaskChange::none().with_round(round, "review", "timeout", None).marked(
        mark.copy(),
    );
    (change, e, mark)
}

/// The error for an agent that used tools it was not given.
pub fn tool_violation_error(round: u32, tools: &[String]) -> (r: String)
    ensures
        r@ == "Tool isolation violation in review check round "@ + text::decimal(round as nat)
            + ": agent used disallowed tools: ["@ + text::join(text::texts(tools@), ", "@) + "]"@,
{
    let mut e = "Tool isolation violation in review check round ".to_owned();
    e.append(text::decimal_text(round as u64).as_str());
    e.append(": agent used disallowed tools: [");
    e.append(text::joined(tools, ", ").as_str());
    e.append("]");
    e
}

/// How much waiting and how many rounds a loop has left.
pub open spec fn work_left(s: LoopState) -> int {
    let waits = if s.waiting_count < MAX_CONSECUTIVE_WAITS {
        MAX_CONSECUTIVE_WAITS - s.waiting_count
    } else {
        0
    };
    (s.max_rounds + 2 - s.round) * (MAX_CONSECUTIVE_WAITS + 1) + waits
}

/// A loop ends: each wait for a bot, each wait that an agent asks for and each round
/// that ends leaves less to do, and there is never less than nothing to do.
pub proof fn law_loop_terminates(
    s: LoopState,
    v: OutputVerdict,
    output: Seq<char>,
    elapsed: u64,
)
    requires
        s.ongoing(),
    ensures
        work_left(s) > 0,
        0 <= work_left(s.waited_for_bot()) < work_left(s),
        output_step(s, v, output, elapsed).0 is Wait ==> 0 <= work_left(
            output_step(s, v, output, elapsed).1,
        ) < work_left(s),
        output_step(s, v, output, elapsed).0 is Record ==> 0 <= work_left(
            round_end(output_step(s, v, output, elapsed).1, elapsed).1,
        ) < work_left(s) || round_end(output_step(s, v, output, elapsed).1, elapsed).0 is Some,
{
}

/// An approval counts only where nothing failed in the turn that gave it.
pub proof fn law_approval_needs_clean_turn(
    s: LoopState,
    v: OutputVerdict,
    output: Seq<char>,
    elapsed: u64,
)
    ensures
        output_step(s, v, output, elapsed).0 matches OutputStep::Record { lgtm, .. } ==> (lgtm
            <==> v.lgtm && s.pending_failure is None),
{
}

/// Tests that failed after an approval rule out that the loop ends well by having few
/// issues left; no later step forgets them.
pub proof fn law_rejected_approval_never_graduates(
    s: LoopState,
    v: OutputVerdict,
    output: Seq<char>,
    elapsed: u64,
    activity: Option<Timestamp>,
    step: SignalView,
)
    requires
        s.gate_rejected,
    ensures
        s.used_up() is Exhausted,
        looked(s, activity).gate_rejected,
        signal_state(s, step).gate_rejected,
        output_step(s, v, output, elapsed).1.gate_rejected,
        round_end(s, elapsed).1.gate_rejected,
{
}

/// A task is done only where its pull request was merged or approved, no bot was left
/// to review it, or few issues were left when its rounds were used up.
pub proof fn law_done_only_for_cause(end: LoopEnd, approval: Seq<char>)
    requires
        end_view(end, approval).status == Some(TaskStatus::Done),
    ensures
        end is MergedExternally || end is Approved || end is NoBotLeft || end is Graduated,
{
}

/// Every end of a loop ends its task.
pub proof fn law_every_end_is_terminal(end: LoopEnd, approval: Seq<char>)
    ensures
        end_view(end, approval).status matches Some(status) && status.terminal(),
{
}

/// A fallback is noted whatever follows from it, also where the loop has waited too long.
pub proof fn law_every_fallback_is_noted(s: LoopState, d: signals::DecisionView, elapsed: u64)
    ensures
        signal_step(s, d, elapsed).noted() == d.fallback,
{
}

/// A loop whose wait was limited never waits for anyone once the limit is reached.
pub proof fn law_no_wait_past_budget(
    s: LoopState,
    d: signals::DecisionView,
    v: OutputVerdict,
    output: Seq<char>,
    elapsed: u64,
)
    requires
        s.budget.exceeded(elapsed),
    ensures
        !(signal_step(s, d, elapsed) is Wait),
        !(output_step(s, v, output, elapsed).0 is Wait),
{
}

proof fn lemma_last_known(counts: Seq<Option<u32>>, i: int)
    requires
        0 <= i < counts.len(),
        counts[i] is Some,
        forall|j: int| i < j < counts.len() ==> (#[trigger] counts[j]) is None,
    ensures
        last_known(counts) == counts[i],
    decreases counts.len(),
{
    if i < counts.len() - 1 {
        assert(counts.last() is None);
        lemma_last_known(counts.drop_last(), i);
    }
}

proof fn lemma_none_known(counts: Seq<Option<u32>>)
    requires
        forall|j: int| 0 <= j < counts.len() ==> (#[trigger] counts[j]) is None,
    ensures
        last_known(counts) is None,
    decreases counts.len(),
{
    if counts.len() > 0 {
        assert(counts.last() is None);
        lemma_none_known(counts.drop_last());
    }
}

/// When the rounds are used up, the latest count that is known decides, whatever came
/// before it: with at most two issues left the loop ends well, unless tests failed after
/// an approval.
pub proof fn law_latest_count_decides(s: LoopState, i: int)
    requires
        0 <= i < s.issue_counts.len(),
        s.issue_counts[i] is Some,
        forall|j: int| i < j < s.issue_counts.len() ==> (#[trigger] s.issue_counts[j]) is None,
    ensures
        s.issue_counts[i]->0 <= 2 && !s.gate_rejected ==> s.used_up() == (LoopEnd::Graduated {
            rounds: s.max_rounds,
            remaining: s.issue_counts[i]->0,
        }),
        s.issue_counts[i]->0 > 2 || s.gate_rejected ==> s.used_up() == (LoopEnd::Exhausted {
            rounds: s.max_rounds,
            last_status: s.status,
        }),
{
    lemma_last_known(s.issue_counts, i);
}

/// A loop of which no count is known never ends well by its counts.
pub proof fn law_unknown_counts_never_graduate(s: LoopState)
    requires
        forall|j: int| 0 <= j < s.issue_counts.len() ==> (#[trigger] s.issue_counts[j]) is None,
    ensures
        s.used_up() == (LoopEnd::Exhausted { rounds: s.max_rounds, last_status: s.status }),
{
    lemma_none_known(s.issue_counts);
}

/// The count of the last round's output decides how a loop ends after that round.
pub proof fn law_last_round_decides(
    s: LoopState,
    v: OutputVerdict,
    output: Seq<char>,
    elapsed: u64,
    later: u64,
)
    requires
        s.ongoing(),
        s.round == s.max_rounds,
        !v.waiting,
        v.issues is Some,
        output_step(s, v, output, elapsed).0 is Record,
    ensures
        ({
            let end = round_end(output_step(s, v, output, elapsed).1, later);
            &&& end.0 is None
            &&& end.1.round > end.1.max_rounds
            &&& v.issues->0 <= 2 && !s.gate_rejected ==> end.1.used_up() == (LoopEnd::Graduated {
                rounds: s.max_rounds,
                remaining: v.issues->0,
            })
            &&& v.issues->0 > 2 || s.gate_rejected ==> end.1.used_up() is Exhausted
        }),
{
    let end = round_end(output_step(s, v, output, elapsed).1, later).1;
    assert(end.issue_counts == s.issue_counts.push(v.issues));
    lemma_last_known(end.issue_counts, s.issue_counts.len() as int);
}

/// An output that asks to wait counts no issues; every other one adds its own count to
/// those of the rounds before, and is kept for comparison unless it approves.
pub proof fn law_outputs_are_counted_once(
    s: LoopState,
    v: OutputVerdict,
    output: Seq<char>,
    elapsed: u64,
)
    requires
        !(output_step(s, v, output, elapsed).0 is Repetition),
    ensures
        ({
            let after = output_step(s, v, output, elapsed).1;
            let n = s.issue_counts.len() as int;
            &&& v.waiting ==> after.issue_counts == s.issue_counts
            &&& !v.waiting ==> after.issue_counts.len() == n + 1 && after.issue_counts.take(n)
                == s.issue_counts && after.issue_counts[n] == v.issues
            &&& v.lgtm ==> after.prev_output is None
            &&& !v.lgtm && !v.waiting ==> after.prev_output == Some(output)
            &&& !v.lgtm && v.waiting ==> after.prev_output == s.prev_output
        }),
{
    let after = output_step(s, v, output, elapsed).1;
    let n = s.issue_counts.len() as int;
    if !v.waiting {
        assert(after.issue_counts.take(n) == s.issue_counts);
    }
}

/// An output stops the loop as a repetition exactly where it neither approves nor asks to
/// wait, is similar to one before, and its count is not known to be below the count of the
/// round before. It leaves everything as it was.
pub proof fn law_repetition_needs_no_progress(
    s: LoopState,
    v: OutputVerdict,
    output: Seq<char>,
    elapsed: u64,
)
    ensures
        v.lgtm || v.waiting || !v.similar || s.prev_output is None ==> !(output_step(
            s,
            v,
            output,
            elapsed,
        ).0 is Repetition),
        output_step(s, v, output, elapsed).0 is Repetition ==> output_step(
            s,
            v,
            output,
            elapsed,
        ).1 == s,
        !v.lgtm && !v.waiting && v.similar && s.prev_output is Some ==> (output_step(
            s,
            v,
            output,
            elapsed,
        ).0 is Repetition <==> (s.issue_counts.len() == 0 || s.issue_counts.last() is None
            || v.issues is None || v.issues->0 >= s.issue_counts.last()->0)),
{
}

/// The loop is stuck once the counts of three rounds in a row are known and the last is
/// below neither of the two before it. It stays stuck.
pub proof fn law_impasse_is_three_counts_without_fall(
    s: LoopState,
    v: OutputVerdict,
    output: Seq<char>,
    elapsed: u64,
)
    requires
        !v.waiting,
        !(output_step(s, v, output, elapsed).0 is Repetition),
    ensures
        ({
            let after = output_step(s, v, output, elapsed).1;
            let n = s.issue_counts.len() as int;
            &&& s.impasse ==> after.impasse
            &&& !s.impasse && n < 2 ==> !after.impasse
            &&& !s.impasse && n >= 2 ==> (after.impasse <==> (s.issue_counts[n - 2] is Some
                && s.issue_counts[n - 1] is Some && v.issues is Some && v.issues->0
                >= s.issue_counts[n - 2]->0 && v.issues->0 >= s.issue_counts[n - 1]->0))
        }),
{
}

/// What an output never touches: the limits, the turns, the failures and the bots.
pub proof fn law_output_leaves_the_rest(
    s: LoopState,
    v: OutputVerdict,
    output: Seq<char>,
    elapsed: u64,
)
    ensures
        ({
            let after = output_step(s, v, output, elapsed).1;
            &&& after.max_rounds == s.max_rounds && after.max_turns == s.max_turns
            &&& after.budget == s.budget && after.turns_used == s.turns_used
            &&& after.gate_rejected == s.gate_rejected
            &&& after.pending_failure == s.pending_failure
            &&& after.silence_rounds == s.silence_rounds && after.last_activity == s.last_activity
            &&& after.waiting_on == s.waiting_on
        }),
{
}

/// An output that asks to wait is waited for ten times in a row; then it uses up a round,
/// and the count begins anew. It never approves by itself unless it says so too.
pub proof fn law_ten_waits_use_up_a_round(
    s: LoopState,
    v: OutputVerdict,
    output: Seq<char>,
    elapsed: u64,
)
    requires
        s.ongoing(),
        v.waiting,
    ensures
        ({
            let (step, after) = output_step(s, v, output, elapsed);
            if s.budget.budget_secs != 0 && elapsed >= s.budget.budget_secs {
                step == OutputStep::End(
                    LoopEnd::WaitedTooLong {
                        round: s.round,
                        elapsed_secs: elapsed,
                        budget_secs: s.budget.budget_secs,
                    },
                )
            } else if s.waiting_count < 10 {
                step is Wait && after.waiting_count == s.waiting_count + 1 && after.round == s.round
                    && after.status == TaskStatus::Waiting
            } else {
                step is Record && after.waiting_count == 0 && after.round == s.round + 1
                    && !after.prev_fixed && step->round == s.round + 1
            }
        }),
{
}

/// An output that does not ask to wait is recorded under the round that it was made in,
/// and what it found has to be looked at again unless it was approved.
pub proof fn law_answers_are_recorded_in_their_round(
    s: LoopState,
    v: OutputVerdict,
    output: Seq<char>,
    elapsed: u64,
)
    requires
        !v.waiting,
        !(output_step(s, v, output, elapsed).0 is Repetition),
    ensures
        output_step(s, v, output, elapsed).0 == (OutputStep::Record {
            round: s.round,
            lgtm: v.lgtm && s.pending_failure is None,
        }),
        output_step(s, v, output, elapsed).1.round == s.round,
        output_step(s, v, output, elapsed).1.waiting_count == s.waiting_count,
        output_step(s, v, output, elapsed).1.prev_fixed == !(v.lgtm && s.pending_failure is None),
        output_step(s, v, output, elapsed).1.status == s.status,
{
}

/// A wait for a bot is one of ten in a row; the tenth uses up a round.
pub proof fn law_tenth_wait_for_a_bot_uses_up_a_round(s: LoopState)
    requires
        s.ongoing(),
    ensures
        s.waiting_count < 9 ==> s.waited_for_bot().waiting_count == s.waiting_count + 1
            && s.waited_for_bot().round == s.round,
        s.waiting_count >= 9 ==> s.waited_for_bot().waiting_count == 0 && s.waited_for_bot().round
            == s.round + 1,
        s.waited_for_bot().status == TaskStatus::Waiting,
        s.waited_for_bot().issue_counts == s.issue_counts,
        s.waited_for_bot().waiting_on == s.waiting_on,
        s.waited_for_bot().pending_failure == s.pending_failure,
        s.waited_for_bot().max_rounds == s.max_rounds,
        s.waited_for_bot().prev_output == s.prev_output,
        s.waited_for_bot().prev_fixed == s.prev_fixed,
{
}

/// The end of a round goes on to the next one, with one wait more before each that is
/// allowed, unless the task has waited too long. Nothing that was found is forgotten.
pub proof fn law_rounds_follow_each_other(s: LoopState, elapsed: u64)
    requires
        1 <= s.round < u32::MAX,
    ensures
        ({
            let (end, after) = round_end(s, elapsed);
            let late = s.budget.budget_secs != 0 && elapsed >= s.budget.budget_secs;
            &&& end is Some <==> s.round < s.max_rounds && late
            &&& end matches Some(e) ==> e == (LoopEnd::WaitedTooLong {
                round: s.round,
                elapsed_secs: elapsed,
                budget_secs: s.budget.budget_secs,
            })
            &&& end is None ==> after.round == s.round + 1
            &&& end is None && s.round < s.max_rounds ==> after.status == TaskStatus::Waiting
                && after.waiting_count == (if s.waiting_count < u32::MAX {
                s.waiting_count + 1
            } else {
                s.waiting_count as int
            })
            &&& end is None && s.round >= s.max_rounds ==> after.status == s.status
                && after.waiting_count == s.waiting_count
            &&& after.prev_fixed == (s.prev_fixed || s.pending_failure is Some)
            &&& after.issue_counts == s.issue_counts && after.max_rounds == s.max_rounds
            &&& after.pending_failure == s.pending_failure && after.prev_output == s.prev_output
            &&& after.impasse == s.impasse && after.turns_used == s.turns_used
            &&& after.waiting_on == s.waiting_on && after.silence_rounds == s.silence_rounds
        }),
{
}

/// From the signals the loop ends only where no bot is left or the task has waited too
/// long; it waits only where the decision says so, and summons Codex once, Gemini never.
pub proof fn law_signals_lead_where_they_say(s: LoopState, d: signals::DecisionView, elapsed: u64)
    ensures
        ({
            let late = s.budget.budget_secs != 0 && elapsed >= s.budget.budget_secs;
            let over = d.fallback matches Some(f) && f.tier == signals::ReviewFallbackTier::C;
            let step = signal_step(s, d, elapsed);
            &&& step is End <==> over || (d.wait_for_bot && late)
            &&& step is Wait <==> !over && d.wait_for_bot && !late
            &&& step is Review <==> !over && !d.wait_for_bot
            &&& step matches SignalView::End { end, .. } ==> if late {
                end == (LoopEnd::WaitedTooLong {
                    round: s.round,
                    elapsed_secs: elapsed,
                    budget_secs: s.budget.budget_secs,
                })
            } else {
                end == (LoopEnd::NoBotLeft { round: s.round, fallback: d.fallback->0 })
            }
            &&& step matches SignalView::Wait { bot, summon, .. } ==> bot == d.active_bot && (summon
                <==> bot.key == ReviewBotKey::Codex && s.waiting_on != Some(ReviewBotKey::Codex))
            &&& step matches SignalView::Review { bot, .. } ==> bot == d.active_bot
        }),
{
}

/// A review ends the wait for a bot; a wait keeps what was summoned, and an end changes
/// nothing.
pub proof fn law_review_ends_the_wait(s: LoopState, step: SignalView)
    ensures
        step is Review ==> signal_state(s, step).waiting_on is None && signal_state(s, step).round
            == s.round && signal_state(s, step).waiting_count == s.waiting_count && signal_state(
            s,
            step,
        ).issue_counts == s.issue_counts,
        step is Wait ==> signal_state(s, step).waiting_on == s.waiting_on && signal_state(
            s,
            step,
        ).status == TaskStatus::Waiting,
        step is End ==> signal_state(s, step) == s,
{
}

/// A look that finds new activity of a bot begins the count of silent looks anew; one that
/// finds none adds to it.
pub proof fn law_silence_is_counted(s: LoopState, activity: Option<Timestamp>)
    ensures
        activity != s.last_activity ==> looked(s, activity).silence_rounds == 0,
        activity == s.last_activity && s.silence_rounds < u32::MAX ==> looked(
            s,
            activity,
        ).silence_rounds == s.silence_rounds + 1,
        looked(s, activity).last_activity == activity,
        looked(s, activity).round == s.round,
        looked(s, activity).waiting_on == s.waiting_on,
        looked(s, activity).budget == s.budget,
        looked(s, activity).waiting_count == s.waiting_count,
        looked(s, activity).issue_counts == s.issue_counts,
{
}

/// What each end of a loop makes of its task, and in which turn.
pub proof fn law_ends_move_the_task(end: LoopEnd, approval: Seq<char>)
    ensures
        ({
            let c = end_view(end, approval);
            match end {
                LoopEnd::MergedExternally { round } => c.status == Some(TaskStatus::Done) && c.turn
                    == Some(round as nat),
                LoopEnd::ClosedExternally { round } => c.status == Some(TaskStatus::Cancelled)
                    && c.turn == Some(round as nat),
                LoopEnd::WaitedTooLong { round, .. } => c.status == Some(TaskStatus::Failed)
                    && c.turn == Some(round as nat),
                LoopEnd::NoBotLeft { round, .. } => c.status == Some(TaskStatus::Done) && c.turn
                    == Some(round as nat) && c.rounds.len() == 1 && c.rounds[0].result
                    == "ready_to_merge"@ && c.rounds[0].turn == round as nat,
                LoopEnd::NoTurnLeft { .. } => c.status == Some(TaskStatus::Failed) && c.turn is None,
                LoopEnd::Approved { round } => c.status == Some(TaskStatus::Done) && c.error is None
                    && (round < u32::MAX ==> c.turn == Some((round + 1) as nat)),
                LoopEnd::Graduated { rounds, .. } => c.status == Some(TaskStatus::Done) && (rounds
                    < u32::MAX ==> c.turn == Some((rounds + 1) as nat)),
                LoopEnd::Exhausted { rounds, .. } => c.status == Some(TaskStatus::Failed) && (rounds
                    < u32::MAX ==> c.turn == Some((rounds + 1) as nat)),
            }
        }),
        !(end is Approved) ==> end_view(end, approval).error is Some,
        !(end is NoBotLeft) ==> end_view(end, approval).rounds.len() == 0,
        end_view(end, approval).pr_url is None,
        end_view(end, approval).failure_kind is None,
{
}

/// The error of an end names what it is about: the word that was waited for, the numbers of
/// rounds, issues, turns and seconds.
pub proof fn law_ends_say_why(end: LoopEnd, approval: Seq<char>)
    ensures
        end matches LoopEnd::MergedExternally { .. } ==> text::ends_with(
            end_view(end, approval).error->0,
            approval,
        ),
        end matches LoopEnd::Graduated { rounds, remaining } ==> text::contains(
            end_view(end, approval).error->0,
            approval + " not received after "@ + text::decimal(rounds as nat)
                + " rounds but only "@ + text::decimal(remaining as nat) + " issues remain."@,
        ),
        end matches LoopEnd::NoTurnLeft { used, max } ==> text::contains(
            end_view(end, approval).error->0,
            "used "@ + text::decimal(used as nat) + " of "@ + text::decimal(max as nat),
        ),
        end matches LoopEnd::NoBotLeft { fallback, .. } ==> end_view(end, approval).error == Some(
            fallback.detail_text(),
        ) && end_view(end, approval).rounds[0].detail == Some(fallback.detail_text()),
{
    match end {
        LoopEnd::MergedExternally { .. } => {
            let e = end_view(end, approval).error->0;
            assert(e.skip(e.len() - approval.len()) == approval);
        },
        LoopEnd::Graduated { rounds, remaining } => {
            let part = approval + " not received after "@ + text::decimal(rounds as nat)
                + " rounds but only "@ + text::decimal(remaining as nat) + " issues remain."@;
            let e = end_view(end, approval).error->0;
            assert(e == "Graduated: "@ + part + ""@) by {
                reveal_strlit("");
            }
            text::lemma_contains_part("Graduated: "@, part, ""@);
        },
        LoopEnd::NoTurnLeft { used, max } => {
            reveal_strlit("Turn budget exhausted: used ");
            reveal_strlit("used ");
            reveal_strlit("Turn budget exhausted: ");
            let part = "used "@ + text::decimal(used as nat) + " of "@ + text::decimal(max as nat);
            let e = end_view(end, approval).error->0;
            assert("Turn budget exhausted: used "@ == "Turn budget exhausted: "@ + "used "@);
            assert(e == "Turn budget exhausted: "@ + part + " allowed turns"@);
            text::lemma_contains_part("Turn budget exhausted: "@, part, " allowed turns"@);
        },
        _ => {},
    }
}

/// The log of tasks hears of a loop that ended well by an approval, a merge or for want of
/// bots, and of one whose rounds are used up; it then says what the task's error says.
pub proof fn law_log_follows_the_end(end: LoopEnd, approval: Seq<char>)
    ensures
        end is MergedExternally || end is NoBotLeft || end is Approved ==> end_entry(end) == Some(
            LogView::Completed,
        ),
        end is Exhausted ==> end_entry(end) == Some(
            LogView::Failed { reason: end_view(end, approval).error->0 },
        ),
        end is ClosedExternally || end is WaitedTooLong || end is NoTurnLeft || end is Graduated
            ==> end_entry(end) is None,
{
}

/// A pull request counts as merged exactly where GitHub says so, or calls it closed and
/// gives a time of the merge.
pub proof fn law_pr_state_is_read_as_told(state: Seq<char>, merged_at: Option<Seq<char>>)
    ensures
        external_state("open"@, merged_at) == PrExternalState::Open,
        external_state("merged"@, merged_at) == PrExternalState::Merged,
        external_state("closed"@, None) == PrExternalState::Closed,
        merged_at matches Some(t) && t.len() > 0 && !text::white_space(t[0]) ==> external_state(
            "closed"@,
            merged_at,
        ) == PrExternalState::Merged,
        merged_at matches Some(t) && t.len() == 0 ==> external_state("closed"@, merged_at)
            == PrExternalState::Closed,
        state != "open"@ && state != "merged"@ && state != "closed"@ ==> external_state(
            state,
            merged_at,
        ) == PrExternalState::Unknown,
{
    reveal_strlit("open");
    reveal_strlit("merged");
    reveal_strlit("closed");
    assert("open"@.len() == 4 && "merged"@[0] == 'm' && "closed"@[0] == 'c');
    if let Some(t) = merged_at {
        if t.len() > 0 && !text::white_space(t[0]) {
            text::lemma_trim_keeps_first(t, text::CharClass::White);
        }
    }
}

/// The words by which a status is recorded tell all of them apart.
pub proof fn law_status_names_are_distinct(a: TaskStatus, b: TaskStatus)
    ensures
        status_name(a) == status_name(b) ==> a == b,
        status_name(TaskStatus::Waiting) == "waiting"@,
        status_name(TaskStatus::Reviewing) == "reviewing"@,
        status_name(TaskStatus::Done) == "done"@,
        status_name(TaskStatus::Failed) == "failed"@,
        status_name(TaskStatus::Cancelled) == "cancelled"@,
        status_name(TaskStatus::Pending) == "pending"@,
        status_name(TaskStatus::Implementing) == "implementing"@,
        status_name(TaskStatus::AgentReview) == "agent_review"@,
{
    reveal_strlit("pending");
    reveal_strlit("implementing");
    reveal_strlit("agent_review");
    reveal_strlit("waiting");
    reveal_strlit("reviewing");
    reveal_strlit("done");
    reveal_strlit("failed");
    reveal_strlit("cancelled");
    assert("pending"@.len() == 7 && "implementing"@.len() == 12 && "agent_review"@.len() == 12);
    assert("waiting"@.len() == 7 && "reviewing"@.len() == 9 && "done"@.len() == 4);
    assert("failed"@.len() == 6 && "cancelled"@.len() == 9);
    assert("pending"@[0] == 'p' && "waiting"@[0] == 'w');
    assert("implementing"@[0] == 'i' && "agent_review"@[0] == 'a');
    assert("reviewing"@[0] == 'r' && "cancelled"@[0] == 'c');
}

/// What a task is told of the feedback on its pull request: only an approval that passed
/// the tests and a loop that ended well are ready to merge; failed tests and findings block.
pub proof fn law_notes_mean_what_happened(judge: Seq<char>)
    ensures
        FeedbackNote::Approved.meaning() == PrFeedbackOutcome::ReadyToMerge,
        FeedbackNote::Graduated.meaning() == PrFeedbackOutcome::ReadyToMerge,
        FeedbackNote::TestsFailed.meaning() == PrFeedbackOutcome::BlockingFeedback,
        FeedbackNote::Actionable.meaning() == PrFeedbackOutcome::BlockingFeedback,
        FeedbackNote::BotNotYet.meaning() == PrFeedbackOutcome::NoActionableFeedback,
        FeedbackNote::KeepWaiting.meaning() == PrFeedbackOutcome::NoActionableFeedback,
        text::starts_with(FeedbackNote::Approved.words(judge), judge),
        text::starts_with(FeedbackNote::TestsFailed.words(judge), judge),
        FeedbackNote::Approved.words(judge).skip(judge.len() as int)
            == " approved and validation passed."@,
        FeedbackNote::TestsFailed.words(judge).skip(judge.len() as int)
            == " approved, but local validation failed and must be addressed."@,
{
    let a = FeedbackNote::Approved.words(judge);
    let t = FeedbackNote::TestsFailed.words(judge);
    assert(a.take(judge.len() as int) == judge);
    assert(t.take(judge.len() as int) == judge);
    assert(a.skip(judge.len() as int) == " approved and validation passed."@);
    assert(t.skip(judge.len() as int)
        == " approved, but local validation failed and must be addressed."@);
}

/// A round is recorded under the approving word in lower case exactly where it was
/// approved.
pub proof fn law_round_result_tells_approval(approval: Seq<char>)
    ensures
        round_result(true, approval).len() == approval.len(),
        forall|i: int|
            0 <= i < approval.len() ==> #[trigger] round_result(true, approval)[i]
                == text::lower_char(approval[i]),
        round_result(false, approval) == "fixed"@,
{
}

/// Another turn is within the budget as long as fewer were taken than may be, and always where
/// no limit is set; the loop is overdue exactly when its wait is, and then says how long it
/// waited and how long it might.
pub proof fn law_loop_keeps_its_limits(s: LoopState, elapsed: u64)
    ensures
        s.max_turns is None ==> s.has_turn(),
        s.max_turns matches Some(max) ==> (s.has_turn() <==> s.turns_used < max),
        s.budget.budget_secs == 0 || elapsed < s.budget.budget_secs ==> s.overdue(elapsed) is None,
        s.budget.budget_secs > 0 && elapsed >= s.budget.budget_secs ==> s.overdue(elapsed) == Some(
            LoopEnd::WaitedTooLong {
                round: s.round,
                elapsed_secs: elapsed,
                budget_secs: s.budget.budget_secs,
            },
        ),
{
}

/// The error of a loop whose rounds are used up tells, in its fields, how many there were, where
/// the loop stood, and what for it waited; the task fails in the turn behind the last round.
pub proof fn law_used_up_rounds_are_told(
    rounds: u32,
    last_status: TaskStatus,
    approval: Seq<char>,
) -> (m: Map<Seq<char>, JsonView>)
    ensures
        ({
            let c = end_view(LoopEnd::Exhausted { rounds, last_status }, approval);
            &&& c.error == Some(json::object_text(m))
            &&& rounds < u32::MAX ==> c.turn == Some((rounds + 1) as nat)
            &&& c.status == Some(TaskStatus::Failed)
        }),
        m["reason"@] == JsonView::Text("round_budget_exhausted"@),
        m["rounds_used"@] == JsonView::Number(rounds as int),
        m["last_status"@] == JsonView::Text(status_name(last_status)),
        m["waiting_on"@] == JsonView::Text("local_review_gate"@),
        m.dom() == set!["reason"@, "rounds_used"@, "last_status"@, "waiting_on"@],
{
    let m = exhausted_fields(rounds as nat, last_status);
    reveal_strlit("reason");
    reveal_strlit("rounds_used");
    reveal_strlit("last_status");
    reveal_strlit("waiting_on");
    assert("reason"@.len() == 6 && "rounds_used"@.len() == 11 && "waiting_on"@.len() == 10);
    assert("rounds_used"@[0] != "last_status"@[0]);
    assert("last_status"@.len() == 11);
    assert(m.dom() =~= set!["reason"@, "rounds_used"@, "last_status"@, "waiting_on"@]);
    m
}

/// A pull request is named by its repository and its number.
pub proof fn law_pull_request_is_named_by_its_number(slug: Seq<char>, a: nat, b: nat)
    ensures
        pr_name(slug, a) == slug + "#"@ + text::decimal(a),
        pr_name(slug, a) == pr_name(slug, b) ==> a == b,
{
    if pr_name(slug, a) == pr_name(slug, b) {
        let lead = slug + "#"@;
        assert((lead + text::decimal(a)).skip(lead.len() as int) == text::decimal(a));
        assert((lead + text::decimal(b)).skip(lead.len() as int) == text::decimal(b));
        text::law_decimal_tells_numbers_apart(a, b);
    }
}

/// A further round is allowed from the first to the last of those that may be taken.
pub proof fn law_rounds_are_allowed_up_to_the_last(s: LoopState)
    requires
        s.max_rounds <= u32::MAX - 2,
    ensures
        s.ongoing() <==> s.round >= 1 && s.round <= s.max_rounds,
{
}

} // verus!
