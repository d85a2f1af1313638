//! The local review: a reviewing agent and an implementor agent take turns until the
//! reviewing agent approves or the review fails.
//!
//! [`AgentReview`] decides; its caller runs the turns and reports what came of them.

use crate::events;
use crate::events::{Decision, EventView, TaskEvent};
use crate::issues;
use crate::issues::ImpasseTracker;
use crate::task;
use crate::task::{TaskChange, TaskStatus, TurnFailureKind};
use crate::telemetry;
use crate::telemetry::{MarkView, TurnFailure, TurnMark, TurnTelemetry};
use crate::text;
use vstd::prelude::*;
use vstd::string::*;

verus! {

/// The sandbox that a reviewing agent's turn asks for.
#[derive(Clone, Copy, Debug, PartialEq, Eq, Structural)]
pub enum SandboxMode {
    /// Reading and the network, no writing.
    ReadOnlyWithNetwork,
}

/// The sandbox that a turn of the reviewing agent `name` asks for. The agent that brings
/// its own sandbox, `own_sandbox_agent` in whatever case, keeps the one that it is
/// configured with.
pub fn reviewer_sandbox_override(name: &str, own_sandbox_agent: &str) -> (r: Option<SandboxMode>)
    ensures
        r == if text::lower(name@) == text::lower(own_sandbox_agent@) {
            None
        } else {
            Some(SandboxMode::ReadOnlyWithNetwork)
        },
{
    let given = text::chars_of(name);
    let own = text::chars_of(own_sandbox_agent);
    if text::eq_ignore_case(given.as_slice(), own.as_slice()) {
        None
    } else {
        Some(SandboxMode::ReadOnlyWithNetwork)
    }
}

/// Why a local review fails.
#[derive(Clone, Copy, Debug, PartialEq, Eq, Structural)]
pub enum ReviewFailure {
    /// No review round is allowed.
    NoRounds,
    /// The last allowed round did not approve.
    Exhausted { rounds: u32 },
    /// The reviewing agent neither approved nor listed an issue.
    Protocol { round: u32 },
    /// The same issues came back too often.
    Impasse { count: u32 },
    /// A fix round changed the workspace and reported that it pushed nothing.
    FalseNoop { round: u32 },
}

/// How a local review ends.
#[derive(Clone, Copy, Debug, PartialEq, Eq, Structural)]
pub struct ReviewEnd {
    /// Whether the reviewing agent approved.
    pub approved: bool,
    /// Whether a fix round pushed a commit, so that the pull request's head may have
    /// moved.
    pub fix_pushed: bool,
    /// Why the review failed, if it did.
    pub failure: Option<ReviewFailure>,
}

/// What is to be done next in a local review.
#[derive(Clone, Copy, Debug, PartialEq, Eq, Structural)]
pub enum ReviewStep {
    /// Let the reviewing agent judge the pull request.
    Review { round: u32 },
    /// Let the implementor fix what the reviewing agent listed.
    Fix { round: u32, intervention: bool },
    /// Stop.
    End(ReviewEnd),
}

/// The error text of a failed review.
pub open spec fn failure_text(f: ReviewFailure) -> Seq<char> {
    match f {
        ReviewFailure::NoRounds => "Agent review is enabled but max_rounds is 0."@,
        ReviewFailure::Exhausted { rounds } => "Agent review exhausted "@ + text::decimal(
            rounds as nat,
        ) + " rounds without approval."@,
        ReviewFailure::Protocol { round } => "Agent review round "@ + text::decimal(round as nat)
            + " returned neither APPROVED nor ISSUE lines."@,
        ReviewFailure::Impasse { count } => "Impasse detected: identical issues repeated "@
            + text::decimal(count as nat) + " consecutive rounds."@,
        ReviewFailure::FalseNoop { round } => "Agent review fix round "@ + text::decimal(
            round as nat,
        ) + " changed the workspace but reported PUSHED_COMMIT=false."@,
    }
}

fn numbered(before: &str, n: u32, after: &str) -> (r: String)
    ensures
        r@ == before@ + text::decimal(n as nat) + after@,
{
    let mut out = before.to_owned();
    out.append(text::decimal_text(n as u64).as_str());
    out.append(after);
    out
}

fn failure_message(f: ReviewFailure) -> (r: String)
    ensures
        r@ == failure_text(f),
{
    match f {
        ReviewFailure::NoRounds => "Agent review is enabled but max_rounds is 0.".to_owned(),
        ReviewFailure::Exhausted { rounds } => numbered(
            "Agent review exhausted ",
            rounds,
            " rounds without approval.",
        ),
        ReviewFailure::Protocol { round } => numbered(
            "Agent review round ",
            round,
            " returned neither APPROVED nor ISSUE lines.",
        ),
        ReviewFailure::Impasse { count } => numbered(
            "Impasse detected: identical issues repeated ",
            count,
            " consecutive rounds.",
        ),
        ReviewFailure::FalseNoop { round } => numbered(
            "Agent review fix round ",
            round,
            " changed the workspace but reported PUSHED_COMMIT=false.",
        ),
    }
}

/// The change that a failed review makes to its task.
pub fn failure_change(f: ReviewFailure) -> (r: TaskChange)
    ensures
        r@ == task::moved(TaskStatus::Failed, None, Some(failure_text(f))),
{
    TaskChange::to(TaskStatus::Failed, None, Some(failure_message(f)))
}

/// The turns that a local review takes.
#[derive(Clone, Copy, Debug, PartialEq, Eq, Structural)]
pub enum ReviewTurn {
    Review,
    Fix,
}

/// How a turn is called in messages.
pub open spec fn turn_name(turn: ReviewTurn) -> Seq<char> {
    match turn {
        ReviewTurn::Review => "review round "@,
        ReviewTurn::Fix => "review fix round "@,
    }
}

fn turn_text(turn: ReviewTurn) -> (r: &'static str)
    ensures
        r@ == turn_name(turn),
{
    match turn {
        ReviewTurn::Review => "review round ",
        ReviewTurn::Fix => "review fix round ",
    }
}

/// The action under which a turn is recorded.
pub open spec fn turn_action(turn: ReviewTurn) -> Seq<char> {
    match turn {
        ReviewTurn::Review => "agent_review"@,
        ReviewTurn::Fix => "agent_review_fix"@,
    }
}

fn action_text(turn: ReviewTurn) -> (r: &'static str)
    ensures
        r@ == turn_action(turn),
{
    match turn {
        ReviewTurn::Review => "agent_review",
        ReviewTurn::Fix => "agent_review_fix",
    }
}

/// The tools that a reviewing agent may use.
pub open spec fn review_tool_names() -> Seq<Seq<char>> {
    seq!["Read"@, "Grep"@, "Glob"@, "Bash"@]
}

/// The tools that a reviewing agent may use.
pub fn review_tools() -> (r: Vec<String>)
    ensures
        text::texts(r@) == review_tool_names(),
{
    let tools = vec!["Read".to_owned(), "Grep".to_owned(), "Glob".to_owned(), "Bash".to_owned()];
    assert(text::texts(tools@) =~= review_tool_names());
    tools
}

/// What follows from a turn that failed.
pub struct FailedTurn {
    /// The change to the task.
    pub change: TaskChange,
    /// Whether the error is handed on. Otherwise the review ends without approval.
    pub propagate: bool,
}

/// A turn of the agent failed with `error`. A reviewing agent without quota or billing ends
/// the review and fails the task; every other error is recorded and handed on.
pub fn turn_failed(
    turn: ReviewTurn,
    failure: &TurnFailure,
    error: &str,
    telemetry: TurnTelemetry,
) -> (r: FailedTurn)
    ensures
        if turn == ReviewTurn::Review && failure.kind.about_account() {
            &&& !r.propagate
            &&& r.change@ == task::moved(TaskStatus::Failed, None, Some(error@)).and_round(
                0,
                turn_action(turn),
                failure.kind.label(),
                None,
            ).marked(telemetry::failed(telemetry, failure@))
        } else {
            &&& r.propagate
            &&& r.change@ == task::unchanged().and_round(
                0,
                turn_action(turn),
                "failed"@,
                None,
            ).marked(telemetry::failed(telemetry, failure@))
        },
{
    let kind = failure.kind;
    let mark = TurnMark::failed(telemetry, failure.copy());
    if matches!(turn, ReviewTurn::Review) && kind.is_about_account() {
        let change = TaskChange::to(TaskStatus::Failed, None, Some(error.to_owned())).with_round(
            0,
            action_text(turn),
            kind.result_label(),
            None,
        );
        FailedTurn { change: change.marked(mark), propagate: false }
    } else {
        let change = TaskChange::none().with_round(0, action_text(turn), "failed", None);
        FailedTurn { change: change.marked(mark), propagate: true }
    }
}

/// The error of a turn that ran out of time.
pub open spec fn timeout_text(turn: ReviewTurn, round: nat, limit_secs: nat) -> Seq<char> {
    "Agent "@ + turn_name(turn) + text::decimal(round) + " timed out after "@ + text::decimal(
        limit_secs,
    ) + "s"@
}

/// How a turn of `agent` went that ran out of time.
pub open spec fn timeout_mark(
    turn: ReviewTurn,
    round: nat,
    limit_secs: nat,
    agent: Seq<char>,
    telemetry: TurnTelemetry,
) -> MarkView {
    telemetry::failed(
        telemetry,
        telemetry::plain_failure(
            TurnFailureKind::Timeout,
            Some(agent),
            timeout_text(turn, round, limit_secs),
        ),
    )
}

/// The record of a turn of `agent` that ran out of time, the error that is handed on, and
/// what a note about the turn says of it.
pub fn turn_timed_out(
    turn: ReviewTurn,
    round: u32,
    limit_secs: u64,
    agent: &str,
    telemetry: TurnTelemetry,
) -> (r: (TaskChange, String, TurnMark))
    ensures
        r.0@ == task::unchanged().and_round(0, turn_action(turn), "timeout"@, None).marked(r.2@),
        r.1@ == timeout_text(turn, round as nat, limit_secs as nat),
        r.2@ == timeout_mark(turn, round as nat, limit_secs as nat, agent@, telemetry),
{
    let mut message = "Agent ".to_owned();
    message.append(turn_text(turn));
    message.append(text::decimal_text(round as u64).as_str());
    message.append(" timed out after ");
    message.append(text::decimal_text(limit_secs).as_str());
    message.append("s");
    let failure = TurnFailure::plain(
        TurnFailureKind::Timeout,
        Some(agent.to_owned()),
        message.as_str(),
    );
    let mark = TurnMark::failed(telemetry, failure);
    let change = TaskChange::none().with_round(0, action_text(turn), "timeout", None).marked(
        mark.copy(),
    );
    (change, message, mark)
}

/// The error for a reviewing agent that used tools it was not given.
pub fn tool_violation_error(round: u32, tools: &[String]) -> (r: String)
    ensures
        r@ == "Tool isolation violation in agent review round "@ + text::decimal(round as nat)
            + ": agent used disallowed tools: ["@ + text::join(text::texts(tools@), ", "@) + "]"@,
{
    let mut out = numbered(
        "Tool isolation violation in agent review round ",
        round,
        ": agent used disallowed tools: [",
    );
    out.append(text::joined(tools, ", ").as_str());
    out.append("]");
    out
}

/// The result under which a reviewing agent's verdict is recorded.
pub open spec fn verdict_label(approved: bool, issue_count: nat) -> Seq<char> {
    if approved {
        "approved"@
    } else {
        text::decimal(issue_count) + " issues"@
    }
}

/// The record of a reviewing agent's verdict.
pub fn verdict_record(
    approved: bool,
    issue_count: u32,
    output: String,
    telemetry: TurnTelemetry,
) -> (r: TaskChange)
    ensures
        r@ == task::unchanged().and_round(
            0,
            "agent_review"@,
            verdict_label(approved, issue_count as nat),
            Some(output@),
        ).marked(telemetry::timed(telemetry)),
{
    let mark = TurnMark::timed(telemetry);
    if approved {
        TaskChange::none().with_round(0, "agent_review", "approved", Some(output)).marked(mark)
    } else {
        let mut label = text::decimal_text(issue_count as u64);
        label.append(" issues");
        TaskChange::none().with_round(0, "agent_review", label.as_str(), Some(output)).marked(mark)
    }
}

/// The record of a fix round that ran to its end.
pub fn fix_record(telemetry: TurnTelemetry) -> (r: TaskChange)
    ensures
        r@ == task::unchanged().and_round(0, "agent_review_fix"@, "fixed"@, None).marked(
            telemetry::timed(telemetry),
        ),
{
    TaskChange::none().with_round(0, "agent_review_fix", "fixed", None).marked(
        TurnMark::timed(telemetry),
    )
}

/// A note about a turn of the review of the pull request at `pr_url`.
pub open spec fn review_event(
    turn: nat,
    decision: Decision,
    reason: Seq<char>,
    pr_url: Seq<char>,
    content: Option<Seq<char>>,
) -> EventView {
    EventView {
        turn: Some(turn),
        phase: Some("agent_review"@),
        hook: "agent_review"@,
        decision,
        reason: Some(reason),
        detail: Some("pr="@ + pr_url),
        content,
        mark: telemetry::no_mark(),
    }
}

fn note(
    turn: u32,
    decision: Decision,
    reason: String,
    pr_url: &str,
    content: Option<String>,
) -> (r: TaskEvent)
    ensures
        r@ == review_event(turn as nat, decision, reason@, pr_url@, text::opt_view(content)),
{
    let mut detail = "pr=".to_owned();
    detail.append(pr_url);
    events::build_task_event(
        turn,
        "agent_review",
        "agent_review",
        decision,
        Some(reason),
        Some(detail),
        content,
    )
}

/// The note about the reviewing agent's verdict in `round`.
pub fn verdict_event(
    round: u32,
    approved: bool,
    issue_count: u32,
    pr_url: &str,
    output: String,
    telemetry: TurnTelemetry,
) -> (r: TaskEvent)
    ensures
        r@ == review_event(
            0,
            if approved {
                Decision::Complete
            } else {
                Decision::Warn
            },
            "round "@ + text::decimal(round as nat) + ": "@ + verdict_label(
                approved,
                issue_count as nat,
            ),
            pr_url@,
            Some(output@),
        ).marked(telemetry::timed(telemetry)),
{
    let mark = TurnMark::timed(telemetry);
    let mut reason = numbered("round ", round, ": ");
    if approved {
        reason.append("approved");
        note(0, Decision::Complete, reason, pr_url, Some(output)).marked(mark)
    } else {
        let mut label = text::decimal_text(issue_count as u64);
        label.append(" issues");
        reason.append(label.as_str());
        note(0, Decision::Warn, reason, pr_url, Some(output)).marked(mark)
    }
}

/// The note about a turn of the reviewing agent that failed or ran out of time. `role` is
/// what the agent is called in this part.
pub fn failed_turn_event(timed_out: bool, role: &str, pr_url: &str, mark: TurnMark) -> (r:
    TaskEvent)
    ensures
        r@ == review_event(
            0,
            Decision::Block,
            "agent "@ + role@ + if timed_out {
                " timed out"@
            } else {
                " failed"@
            },
            pr_url@,
            None,
        ).marked(mark@),
{
    let mut reason = "agent ".to_owned();
    reason.append(role);
    reason.append(if timed_out {
        " timed out"
    } else {
        " failed"
    });
    note(0, Decision::Block, reason, pr_url, None).marked(mark)
}

/// The turn that the note about a failed review is about. Of an impasse there is none.
pub open spec fn failure_turn(f: ReviewFailure) -> Option<nat> {
    match f {
        ReviewFailure::NoRounds => Some(0),
        ReviewFailure::Exhausted { rounds } => Some(rounds as nat),
        ReviewFailure::Protocol { round } => Some(round as nat),
        ReviewFailure::Impasse { .. } => None,
        ReviewFailure::FalseNoop { round } => Some(round as nat),
    }
}

/// The note about a failed review. `content` is what is known beyond the error.
pub fn failure_event(f: ReviewFailure, pr_url: &str, content: Option<String>) -> (r: Option<
    TaskEvent,
>)
    ensures
        match r {
            None => failure_turn(f) is None,
            Some(e) => failure_turn(f) matches Some(turn) && e@ == review_event(
                turn,
                Decision::Block,
                failure_text(f),
                pr_url@,
                text::opt_view(content),
            ),
        },
{
    let turn: u32 = match f {
        ReviewFailure::NoRounds => 0,
        ReviewFailure::Exhausted { rounds } => rounds,
        ReviewFailure::Protocol { round } => round,
        ReviewFailure::Impasse { .. } => {
            return None;
        },
        ReviewFailure::FalseNoop { round } => round,
    };
    Some(note(turn, Decision::Block, failure_message(f), pr_url, content))
}

/// A local review in progress.
pub struct AgentReview {
    max_rounds: u32,
    max_turns: Option<u32>,
    round: u32,
    turns_used: u32,
    pushed: bool,
    tracker: ImpasseTracker,
    last_issues: Vec<String>,
}

/// What a local review is determined by.
pub struct AgentReviewState {
    pub max_rounds: u32,
    pub max_turns: Option<u32>,
    pub round: u32,
    pub turns_used: u32,
    pub pushed: bool,
    pub seen: Option<(Seq<Seq<char>>, nat)>,
    pub last_issues: Seq<Seq<char>>,
}

impl View for AgentReview {
    type V = AgentReviewState;

    closed spec fn view(&self) -> AgentReviewState {
        AgentReviewState {
            max_rounds: self.max_rounds,
            max_turns: self.max_turns,
            round: self.round,
            turns_used: self.turns_used,
            pushed: self.pushed,
            seen: self.tracker.seen(),
            last_issues: text::texts(self.last_issues@),
        }
    }
}

impl AgentReviewState {
    /// The round is one that is allowed, and the same issues have not come back so
    /// often that the review has failed.
    pub open spec fn ongoing(self) -> bool {
        &&& 1 <= self.round <= self.max_rounds
        &&& self.seen matches Some((_, count)) ==> count < issues::HARD_FAIL_ROUNDS
    }

    /// Whether another turn is within the budget.
    pub open spec fn has_turn(self) -> bool {
        self.max_turns matches Some(max) ==> self.turns_used < max
    }
}

/// The end of a review that failed.
pub open spec fn failed(pushed: bool, failure: ReviewFailure) -> ReviewStep {
    ReviewStep::End(
        ReviewEnd { approved: false, fix_pushed: pushed, failure: Some(failure) },
    )
}

/// What follows from the reviewing agent's verdict in state `s`.
pub open spec fn verdict_step(
    s: AgentReviewState,
    approved: bool,
    listed: Seq<Seq<char>>,
) -> ReviewStep {
    let count = issues::repeats(s.seen, listed);
    if approved {
        ReviewStep::End(
            ReviewEnd { approved: true, fix_pushed: s.pushed, failure: None },
        )
    } else if listed.len() == 0 {
        failed(s.pushed, ReviewFailure::Protocol { round: s.round })
    } else if count >= issues::HARD_FAIL_ROUNDS {
        failed(false, ReviewFailure::Impasse { count: count as u32 })
    } else if s.round == s.max_rounds {
        failed(s.pushed, ReviewFailure::Exhausted { rounds: s.max_rounds })
    } else {
        ReviewStep::Fix {
            round: s.round,
            intervention: count >= issues::INTERVENTION_ROUNDS,
        }
    }
}

/// What follows from a fix round in state `s`. `marker` is what the implementor
/// reported of having pushed a commit.
pub open spec fn fix_step(
    s: AgentReviewState,
    workspace_changed: bool,
    marker: Option<bool>,
) -> ReviewStep {
    if workspace_changed && marker == Some(false) {
        failed(false, ReviewFailure::FalseNoop { round: s.round })
    } else {
        ReviewStep::Review { round: (s.round + 1) as u32 }
    }
}

impl AgentReview {
    /// The review holds what it has to hold.
    pub closed spec fn wf(&self) -> bool {
        self.tracker.wf()
    }

    /// A review with at most `max_rounds` rounds, and what is to be done first.
    /// `turns_used` counts the turns that the task took before it.
    pub fn start(max_rounds: u32, max_turns: Option<u32>, turns_used: u32) -> (r: (
        AgentReview,
        ReviewStep,
    ))
        ensures
            r.0.wf(),
            r.0@ == (AgentReviewState {
                max_rounds,
                max_turns,
                round: 1,
                turns_used,
                pushed: false,
                seen: None,
                last_issues: seq![],
            }),
            max_rounds == 0 ==> r.1 == failed(false, ReviewFailure::NoRounds),
            max_rounds > 0 ==> r.1 == (ReviewStep::Review { round: 1 }) && r.0@.ongoing(),
    {
        let review = AgentReview {
            max_rounds,
            max_turns,
            round: 1,
            turns_used,
            pushed: false,
            tracker: ImpasseTracker::new(),
            last_issues: Vec::new(),
        };
        assert(review@.last_issues == Seq::<Seq<char>>::empty());
        let step = if max_rounds == 0 {
            ReviewStep::End(
                ReviewEnd {
                    approved: false,
                    fix_pushed: false,
                    failure: Some(ReviewFailure::NoRounds),
                },
            )
        } else {
            ReviewStep::Review { round: 1 }
        };
        (review, step)
    }

    /// The turns that the task has taken.
    pub fn turns_used(&self) -> (r: u32)
        ensures
            r == self@.turns_used,
    {
        self.turns_used
    }

    /// Asks for one more turn. The error is that of a task without a turn left;
    /// otherwise the turn is counted, whatever comes of it.
    pub fn take_turn(&mut self, turn: ReviewTurn) -> (r: Result<(), String>)
        requires
            old(self).wf(),
            old(self)@.has_turn() ==> old(self)@.turns_used < u32::MAX,
        ensures
            final(self).wf(),
            r is Ok == old(self)@.has_turn(),
            r is Ok ==> final(self)@ == (AgentReviewState {
                turns_used: (old(self)@.turns_used + 1) as u32,
                ..old(self)@
            }),
            r matches Err(e) ==> final(self)@ == old(self)@ && e@
                == "Turn budget exhausted before agent "@ + turn_name(turn) + text::decimal(
                old(self)@.round as nat,
            ) + ": used "@ + text::decimal(old(self)@.turns_used as nat) + " of "@ + text::decimal(
                old(self)@.max_turns->0 as nat,
            ) + " allowed turns"@,
    {
        if let Some(max) = self.max_turns {
            if self.turns_used >= max {
                let mut e = "Turn budget exhausted before agent ".to_owned();
                e.append(turn_text(turn));
                e.append(text::decimal_text(self.round as u64).as_str());
                e.append(": used ");
                e.append(text::decimal_text(self.turns_used as u64).as_str());
                e.append(" of ");
                e.append(text::decimal_text(max as u64).as_str());
                e.append(" allowed turns");
                return Err(e);
            }
        }
        self.turns_used += 1;
        Ok(())
    }

    /// Takes in what the reviewing agent says: whether it approves, and the issues that it
    /// listed.
    ///
    /// The last allowed round is never followed by a fix, so that no fix goes
    /// unreviewed.
    pub fn verdict(&mut self, approved: bool, listed: Vec<String>) -> (r: ReviewStep)
        requires
            old(self).wf(),
            old(self)@.ongoing(),
        ensures
            final(self).wf(),
            r == verdict_step(old(self)@, approved, text::texts(listed@)),
            final(self)@.last_issues == text::texts(listed@),
            if approved || listed@.len() == 0 {
                final(self)@.seen == old(self)@.seen
            } else {
                final(self)@.seen matches Some((list, count)) && count == issues::repeats(
                    old(self)@.seen,
                    text::texts(listed@),
                ) && list.to_multiset() == text::texts(listed@).to_multiset()
            },
            final(self)@ == (AgentReviewState {
                seen: final(self)@.seen,
                last_issues: final(self)@.last_issues,
                ..old(self)@
            }),
            r is Fix ==> final(self)@.ongoing(),
    {
        let count = listed.len();
        self.last_issues = listed;
        if approved {
            return ReviewStep::End(
                ReviewEnd { approved: true, fix_pushed: self.pushed, failure: None },
            );
        }
        if count == 0 {
            return ReviewStep::End(
                ReviewEnd {
                    approved: false,
                    fix_pushed: self.pushed,
                    failure: Some(ReviewFailure::Protocol { round: self.round }),
                },
            );
        }
        let impasse = self.tracker.observe(self.last_issues.as_slice());
        if impasse.fatal {
            return ReviewStep::End(
                ReviewEnd {
                    approved: false,
                    fix_pushed: false,
                    failure: Some(ReviewFailure::Impasse { count: impasse.count }),
                },
            );
        }
        if self.round == self.max_rounds {
            return ReviewStep::End(
                ReviewEnd {
                    approved: false,
                    fix_pushed: self.pushed,
                    failure: Some(ReviewFailure::Exhausted { rounds: self.max_rounds }),
                },
            );
        }
        ReviewStep::Fix { round: self.round, intervention: impasse.intervention }
    }

    /// Takes in a fix round that ran to its end: whether the workspace is not what
    /// it was before, and what the implementor reported of having pushed a commit.
    ///
    /// A round counts as pushed unless it reported that it pushed nothing. To report
    /// that and to have changed the workspace fails the review.
    pub fn fixed(&mut self, workspace_changed: bool, marker: Option<bool>) -> (r: ReviewStep)
        requires
            old(self).wf(),
            old(self)@.ongoing(),
            old(self)@.round < old(self)@.max_rounds,
        ensures
            final(self).wf(),
            r == fix_step(old(self)@, workspace_changed, marker),
            r is End ==> final(self)@ == old(self)@,
            r is Review ==> final(self)@.ongoing() && final(self)@ == (AgentReviewState {
                round: (old(self)@.round + 1) as u32,
                pushed: old(self)@.pushed || marker != Some(false),
                ..old(self)@
            }),
    {
        let pushed_nothing = match marker {
            Some(p) => !p,
            None => false,
        };
        if workspace_changed && pushed_nothing {
            return ReviewStep::End(
                ReviewEnd {
                    approved: false,
                    fix_pushed: false,
                    failure: Some(ReviewFailure::FalseNoop { round: self.round }),
                },
            );
        }
        if !pushed_nothing {
            self.pushed = true;
        }
        self.round += 1;
        ReviewStep::Review { round: self.round }
    }

    /// The issues that the last verdict left open, as the detail of a failure.
    pub fn unresolved_detail(&self) -> (r: Option<String>)
        ensures
            text::opt_view(r) == if self@.last_issues.len() == 0 {
                None
            } else {
                Some(
                    "Unresolved local review issues:\n"@ + text::join(
                        self@.last_issues,
                        "\n"@,
                    ),
                )
            },
    {
        if self.last_issues.len() == 0 {
            None
        } else {
            let mut out = "Unresolved local review issues:\n".to_owned();
            out.append(text::joined(self.last_issues.as_slice(), "\n").as_str());
            Some(out)
        }
    }
}

/// No fix goes unreviewed: a fix is asked for only where another review round is
/// allowed, and it is that round which follows.
pub proof fn law_every_fix_is_reviewed(
    s: AgentReviewState,
    approved: bool,
    listed: Seq<Seq<char>>,
    workspace_changed: bool,
    marker: Option<bool>,
)
    requires
        s.ongoing(),
        verdict_step(s, approved, listed) is Fix,
    ensures
        s.round < s.max_rounds,
        fix_step(s, workspace_changed, marker) == (ReviewStep::Review {
            round: (s.round + 1) as u32,
        }) || fix_step(s, workspace_changed, marker) is End,
{
}

/// A review ends approved only on the reviewing agent's word.
pub proof fn law_approval_comes_from_reviewer(
    s: AgentReviewState,
    approved: bool,
    listed: Seq<Seq<char>>,
)
    ensures
        verdict_step(s, approved, listed) matches ReviewStep::End(end) ==> (end.approved
            <==> approved) && (end.failure is None <==> approved),
        approved ==> verdict_step(s, approved, listed) is End,
{
}

/// Issues that differ from those of the round before begin a new count, so that
/// neither an intervention nor a failure follows from them.
pub proof fn law_new_issues_reset_impasse(
    s: AgentReviewState,
    before: Seq<Seq<char>>,
    count: nat,
    listed: Seq<Seq<char>>,
)
    requires
        s.ongoing(),
        s.seen == Some((before, count)),
        before.to_multiset() != listed.to_multiset(),
        listed.len() > 0,
        s.round < s.max_rounds,
    ensures
        issues::repeats(s.seen, listed) == 1,
        verdict_step(s, false, listed) == (ReviewStep::Fix {
            round: s.round,
            intervention: false,
        }),
{
}

/// The same issues `n` times in a row are counted as `n`, whatever order they are
/// listed in; the review fails when the count reaches its limit.
pub proof fn law_repeated_issues_fail(
    s: AgentReviewState,
    before: Seq<Seq<char>>,
    listed: Seq<Seq<char>>,
    n: nat,
)
    requires
        s.seen == Some((before, n)),
        before.to_multiset() == listed.to_multiset(),
        listed.len() > 0,
    ensures
        issues::repeats(s.seen, listed) == n + 1,
        n + 1 >= issues::HARD_FAIL_ROUNDS ==> verdict_step(s, false, listed) == failed(
            false,
            ReviewFailure::Impasse { count: (n + 1) as u32 },
        ),
        n + 1 < issues::INTERVENTION_ROUNDS && s.round < s.max_rounds ==> verdict_step(
            s,
            false,
            listed,
        ) == (ReviewStep::Fix { round: s.round, intervention: false }),
        issues::INTERVENTION_ROUNDS <= n + 1 < issues::HARD_FAIL_ROUNDS && s.round < s.max_rounds
            ==> verdict_step(s, false, listed) == (ReviewStep::Fix {
            round: s.round,
            intervention: true,
        }),
{
}

/// What follows from a verdict. An approval ends the review well; a verdict without issues
/// fails it; the same issues for the fifth time in a row fail it; issues in the last round
/// fail it; and any others are to be fixed, from the third time on with an intervention.
pub proof fn law_verdict_leads_on(s: AgentReviewState, listed: Seq<Seq<char>>)
    requires
        s.ongoing(),
    ensures
        verdict_step(s, true, listed) == ReviewStep::End(
            ReviewEnd { approved: true, fix_pushed: s.pushed, failure: None },
        ),
        listed.len() == 0 ==> verdict_step(s, false, listed) == ReviewStep::End(
            ReviewEnd {
                approved: false,
                fix_pushed: s.pushed,
                failure: Some(ReviewFailure::Protocol { round: s.round }),
            },
        ),
        listed.len() > 0 ==> ({
            let again = match s.seen {
                Some((before, n)) => if before.to_multiset() == listed.to_multiset() {
                    n + 1
                } else {
                    1
                },
                None => 1,
            };
            let step = verdict_step(s, false, listed);
            if again >= 5 {
                step == ReviewStep::End(
                    ReviewEnd {
                        approved: false,
                        fix_pushed: false,
                        failure: Some(ReviewFailure::Impasse { count: 5 }),
                    },
                )
            } else if s.round == s.max_rounds {
                step == ReviewStep::End(
                    ReviewEnd {
                        approved: false,
                        fix_pushed: s.pushed,
                        failure: Some(ReviewFailure::Exhausted { rounds: s.max_rounds }),
                    },
                )
            } else {
                step == (ReviewStep::Fix { round: s.round, intervention: again >= 3 })
            }
        }),
{
}

/// A fix is followed by the next round of the review, unless it changed the workspace and
/// said that it pushed nothing; that fails the review.
pub proof fn law_fix_leads_to_the_next_round(s: AgentReviewState, changed: bool, said: bool)
    requires
        s.ongoing(),
        s.round < s.max_rounds,
    ensures
        fix_step(s, changed, None) == (ReviewStep::Review { round: (s.round + 1) as u32 }),
        fix_step(s, changed, Some(true)) == (ReviewStep::Review { round: (s.round + 1) as u32 }),
        fix_step(s, false, Some(said)) == (ReviewStep::Review { round: (s.round + 1) as u32 }),
        fix_step(s, true, Some(false)) == ReviewStep::End(
            ReviewEnd {
                approved: false,
                fix_pushed: false,
                failure: Some(ReviewFailure::FalseNoop { round: s.round }),
            },
        ),
{
}

/// Why a review failed is told in words that name the round or the count; it is noted for
/// that turn, but for an impasse, which is not noted.
pub proof fn law_failures_say_when(f: ReviewFailure, n: u32)
    ensures
        failure_text(ReviewFailure::Exhausted { rounds: n }) == "Agent review exhausted "@
            + text::decimal(n as nat) + " rounds without approval."@,
        failure_text(ReviewFailure::Protocol { round: n }) == "Agent review round "@
            + text::decimal(n as nat) + " returned neither APPROVED nor ISSUE lines."@,
        failure_text(ReviewFailure::Impasse { count: n })
            == "Impasse detected: identical issues repeated "@ + text::decimal(n as nat)
            + " consecutive rounds."@,
        failure_text(ReviewFailure::FalseNoop { round: n }) == "Agent review fix round "@
            + text::decimal(n as nat) + " changed the workspace but reported PUSHED_COMMIT=false."@,
        failure_text(ReviewFailure::NoRounds) == "Agent review is enabled but max_rounds is 0."@,
        failure_turn(ReviewFailure::Exhausted { rounds: n }) == Some(n as nat),
        failure_turn(ReviewFailure::Protocol { round: n }) == Some(n as nat),
        failure_turn(ReviewFailure::FalseNoop { round: n }) == Some(n as nat),
        failure_turn(ReviewFailure::NoRounds) == Some(0nat),
        failure_turn(f) is None <==> f is Impasse,
{
}

/// A verdict is recorded as approved, or by the number of its issues; the two kinds of turns
/// are recorded apart, and only reading tools are given to the one who judges.
pub proof fn law_verdicts_are_recorded(n: nat)
    ensures
        verdict_label(true, n) == "approved"@,
        verdict_label(false, n) == text::decimal(n) + " issues"@,
        turn_action(ReviewTurn::Review) == "agent_review"@,
        turn_action(ReviewTurn::Fix) == "agent_review_fix"@,
        turn_name(ReviewTurn::Review) == "review round "@,
        turn_name(ReviewTurn::Fix) == "review fix round "@,
        review_tool_names() == seq!["Read"@, "Grep"@, "Glob"@, "Bash"@],
{
}

/// A turn that ran out of time tells its kind, its round and the limit.
pub proof fn law_timeouts_tell_the_limit(
    turn: ReviewTurn,
    round: nat,
    limit: nat,
    agent: Seq<char>,
    telemetry: TurnTelemetry,
)
    ensures
        timeout_text(ReviewTurn::Review, round, limit) == "Agent "@ + "review round "@
            + text::decimal(round) + " timed out after "@ + text::decimal(limit) + "s"@,
        timeout_text(ReviewTurn::Fix, round, limit) == "Agent "@ + "review fix round "@
            + text::decimal(round) + " timed out after "@ + text::decimal(limit) + "s"@,
        timeout_mark(turn, round, limit, agent, telemetry).telemetry == Some(telemetry),
        timeout_mark(turn, round, limit, agent, telemetry).failure matches Some(f) && f.kind
            == TurnFailureKind::Timeout && f.provider == Some(agent) && f.message == Some(
            timeout_text(turn, round, limit),
        ),
{
}

/// A note about the review names its pull request, and is about the given turn.
pub proof fn law_review_notes_name_the_pull_request(
    turn: nat,
    decision: Decision,
    reason: Seq<char>,
    pr_url: Seq<char>,
    content: Option<Seq<char>>,
)
    ensures
        ({
            let e = review_event(turn, decision, reason, pr_url, content);
            &&& e.turn == Some(turn) && e.decision == decision && e.reason == Some(reason)
            &&& e.detail == Some("pr="@ + pr_url) && e.content == content
            &&& e.hook == "agent_review"@ && e.phase == Some("agent_review"@)
        }),
{
}

/// Another turn is within the budget as long as fewer were taken than may be, and always where
/// no limit is set.
pub proof fn law_review_turns_are_limited(s: AgentReviewState)
    ensures
        s.max_turns is None ==> s.has_turn(),
        s.max_turns matches Some(max) ==> (s.has_turn() <==> s.turns_used < max),
{
}

/// A review goes on from its first round to its last, as long as the same issues have not come
/// back five times.
pub proof fn law_review_goes_on_up_to_its_last_round(s: AgentReviewState)
    ensures
        s.seen is None ==> (s.ongoing() <==> s.round >= 1 && s.round <= s.max_rounds),
        s.seen matches Some((_, count)) ==> (s.ongoing() <==> s.round >= 1 && s.round <= s.max_rounds
            && count < 5),
{
}

} // verus!
