//! The completion of a task after a local review, without a hosted review bot: the
//! tests have to pass, and the pull request has to be open, at the head that was
//! reviewed, and green.
//!
//! [`advance`] decides; its caller makes the checks in the order of the [`Stage`]s.

use crate::outcome::{LogEntry, LogView};
use crate::review_loop;
use crate::review_loop::{PrFeedbackOutcome, PrOpenOrMergedState};
use crate::task;
use crate::task::{ChangeView, TaskChange, TaskStatus};
use crate::text;
use vstd::prelude::*;
use vstd::string::*;

verus! {

/// Whether failed checks are something to act on, and not a failed lookup.
pub fn pr_ci_failure_is_actionable_feedback(failure: &str) -> (r: bool)
    ensures
        r == ci_actionable(failure@),
{
    text::str_contains(failure, "GitHub PR checks are not green")
}

/// Whether failed checks are something to act on.
pub open spec fn ci_actionable(failure: Seq<char>) -> bool {
    text::contains(failure, "GitHub PR checks are not green"@)
}

/// Whether a wrong head is something to act on.
pub open spec fn head_actionable(failure: Seq<char>) -> bool {
    text::contains(failure, "GitHub PR head did not advance"@) || text::contains(
        failure,
        "GitHub PR head changed"@,
    )
}

/// Whether a wrong head is something to act on, and not a failed lookup.
pub fn pr_head_failure_is_actionable_feedback(failure: &str) -> (r: bool)
    ensures
        r == head_actionable(failure@),
{
    text::str_contains(failure, "GitHub PR head did not advance") || text::str_contains(
        failure,
        "GitHub PR head changed",
    )
}

/// The error of a task whose pull request is not at the approved head.
pub open spec fn head_error(failure: Seq<char>) -> Seq<char> {
    if text::contains(failure, "GitHub PR head changed"@) {
        "Local review passed, but the PR head changed after local approval while hosted review was disabled: "@
            + failure
    } else {
        "Local review passed, but Harness could not verify the PR head after approval while hosted review was disabled: "@
            + failure
    }
}

fn with_failure(before: &str, failure: &str) -> (r: String)
    ensures
        r@ == before@ + failure@,
{
    let mut out = before.to_owned();
    out.append(failure);
    out
}

/// The error of a task whose pull request is not at the approved head.
pub fn pr_head_after_approval_user_error(failure: &str) -> (r: String)
    ensures
        r@ == head_error(failure@),
{
    if text::str_contains(failure, "GitHub PR head changed") {
        with_failure(
            "Local review passed, but the PR head changed after local approval while hosted review was disabled: ",
            failure,
        )
    } else {
        with_failure(
            "Local review passed, but Harness could not verify the PR head after approval while hosted review was disabled: ",
            failure,
        )
    }
}

/// What is known of a pull request's head before and after its local review.
#[derive(Debug)]
pub struct LocalReviewPrHead {
    pub repo_slug: String,
    pub before_review_sha: Option<String>,
    pub before_review_error: Option<String>,
    pub approved_review_sha: Option<String>,
    pub approved_review_error: Option<String>,
    /// Whether the local review tried to fix something.
    pub local_fix_attempted: bool,
}

/// The view of a result that holds a string in both cases.
pub open spec fn text_result(r: Result<String, String>) -> Result<Seq<char>, Seq<char>> {
    match r {
        Ok(s) => Ok(s@),
        Err(e) => Err(e@),
    }
}

/// The view of a result that holds a string where it failed.
pub open spec fn unit_result(r: Result<(), String>) -> Result<(), Seq<char>> {
    match r {
        Ok(_) => Ok(()),
        Err(e) => Err(e@),
    }
}

impl LocalReviewPrHead {
    /// The head that the reviewing agent approved.
    pub open spec fn approved(self) -> Result<Seq<char>, Seq<char>> {
        if self.approved_review_error is Some {
            Err(
                "GitHub PR head approval lookup failed after local review: "@
                    + self.approved_review_error->0@,
            )
        } else if self.approved_review_sha is None {
            Err("GitHub PR head approval SHA is missing after local review"@)
        } else {
            Ok(self.approved_review_sha->0@)
        }
    }

    /// The head before the review.
    pub open spec fn before(self) -> Result<Seq<char>, Seq<char>> {
        if self.before_review_error is Some {
            Err(
                "GitHub PR head baseline lookup failed before local review fix: "@
                    + self.before_review_error->0@,
            )
        } else if self.before_review_sha is None {
            Err("GitHub PR head baseline is missing before local review fix"@)
        } else {
            Ok(self.before_review_sha->0@)
        }
    }

    /// Whether the review left the head as it may: without an attempted fix it is the
    /// head from before.
    pub open spec fn fix_verdict(self, pr_num: nat) -> Result<(), Seq<char>> {
        if self.before() is Err {
            Err(self.before()->Err_0)
        } else if self.approved() is Err {
            Err(self.approved()->Err_0)
        } else if !self.local_fix_attempted && self.approved()->Ok_0 != self.before()->Ok_0 {
            Err(
                "GitHub PR head changed during local review without a local fix for "@
                    + review_loop::pr_name(self.repo_slug@, pr_num) + "; before "@
                    + self.before()->Ok_0 + ", approved "@ + self.approved()->Ok_0,
            )
        } else {
            Ok(())
        }
    }

    /// Whether the head is still the one that was approved.
    pub open spec fn still_verdict(
        self,
        pr_num: nat,
        current: Result<Seq<char>, Seq<char>>,
    ) -> Result<(), Seq<char>> {
        if self.approved() is Err {
            Err(self.approved()->Err_0)
        } else if current is Err {
            Err(current->Err_0)
        } else if current->Ok_0 != self.approved()->Ok_0 {
            Err(
                "GitHub PR head changed after local review approval for "@ + review_loop::pr_name(
                    self.repo_slug@,
                    pr_num,
                ) + "; approved "@ + self.approved()->Ok_0 + ", current "@ + current->Ok_0,
            )
        } else {
            Ok(())
        }
    }

    /// The head that the reviewing agent approved.
    pub fn approved_sha(&self) -> (r: Result<String, String>)
        ensures
            text_result(r) == self.approved(),
    {
        if let Some(error) = &self.approved_review_error {
            return Err(
                with_failure(
                    "GitHub PR head approval lookup failed after local review: ",
                    error.as_str(),
                ),
            );
        }
        match &self.approved_review_sha {
            Some(sha) => Ok(sha.clone()),
            None => Err("GitHub PR head approval SHA is missing after local review".to_owned()),
        }
    }

    fn before_sha(&self) -> (r: Result<String, String>)
        ensures
            text_result(r) == self.before(),
    {
        if let Some(error) = &self.before_review_error {
            return Err(
                with_failure(
                    "GitHub PR head baseline lookup failed before local review fix: ",
                    error.as_str(),
                ),
            );
        }
        match &self.before_review_sha {
            Some(sha) => Ok(sha.clone()),
            None => Err("GitHub PR head baseline is missing before local review fix".to_owned()),
        }
    }

    /// Whether the review left the head as it may.
    pub fn verify_local_fix(&self, pr_num: u64) -> (r: Result<(), String>)
        ensures
            unit_result(r) == self.fix_verdict(pr_num as nat),
    {
        let before = match self.before_sha() {
            Ok(sha) => sha,
            Err(e) => {
                return Err(e);
            },
        };
        let approved = match self.approved_sha() {
            Ok(sha) => sha,
            Err(e) => {
                return Err(e);
            },
        };
        if !self.local_fix_attempted && !text::str_eq(approved.as_str(), before.as_str()) {
            let mut e =
                "GitHub PR head changed during local review without a local fix for ".to_owned();
            e.append(review_loop::pr_label(self.repo_slug.as_str(), pr_num).as_str());
            e.append("; before ");
            e.append(before.as_str());
            e.append(", approved ");
            e.append(approved.as_str());
            return Err(e);
        }
        Ok(())
    }

    /// Whether the head is still the one that was approved. `current` is what a lookup
    /// of the head gave.
    pub fn verify_still_reviewed_head(&self, pr_num: u64, current: Result<String, String>) -> (r:
        Result<(), String>)
        ensures
            unit_result(r) == self.still_verdict(pr_num as nat, text_result(current)),
    {
        let approved = match self.approved_sha() {
            Ok(sha) => sha,
            Err(e) => {
                return Err(e);
            },
        };
        let now = match current {
            Ok(sha) => sha,
            Err(e) => {
                return Err(e);
            },
        };
        if !text::str_eq(now.as_str(), approved.as_str()) {
            let mut e = "GitHub PR head changed after local review approval for ".to_owned();
            e.append(review_loop::pr_label(self.repo_slug.as_str(), pr_num).as_str());
            e.append("; approved ");
            e.append(approved.as_str());
            e.append(", current ");
            e.append(now.as_str());
            return Err(e);
        }
        Ok(())
    }
}

/// The check that a completion waits for.
#[derive(Debug)]
pub enum Stage {
    /// The tests.
    Tests,
    /// The state of the pull request, after the tests failed.
    StateAfterFailedTests(String),
    /// The state of the pull request.
    State,
    /// The head that the review left.
    Head,
    /// The checks of the pull request.
    Checks,
    /// The state of the pull request, after its checks failed.
    StateAfterFailedChecks(String),
    /// The state of the pull request, after its checks passed.
    StateAfterChecks,
    /// The head as it is now.
    HeadAfterChecks,
}

/// What a [`Stage`] holds.
pub enum StageView {
    Tests,
    StateAfterFailedTests(Seq<char>),
    State,
    Head,
    Checks,
    StateAfterFailedChecks(Seq<char>),
    StateAfterChecks,
    HeadAfterChecks,
}

impl View for Stage {
    type V = StageView;

    open spec fn view(&self) -> StageView {
        match self {
            Stage::Tests => StageView::Tests,
            Stage::StateAfterFailedTests(s) => StageView::StateAfterFailedTests(s@),
            Stage::State => StageView::State,
            Stage::Head => StageView::Head,
            Stage::Checks => StageView::Checks,
            Stage::StateAfterFailedChecks(s) => StageView::StateAfterFailedChecks(s@),
            Stage::StateAfterChecks => StageView::StateAfterChecks,
            Stage::HeadAfterChecks => StageView::HeadAfterChecks,
        }
    }
}

impl StageView {
    /// Whether the stage waits for the state of the pull request.
    pub open spec fn wants_state(self) -> bool {
        ||| self is StateAfterFailedTests
        ||| self is State
        ||| self is StateAfterFailedChecks
        ||| self is StateAfterChecks
    }
}

/// What a check gave.
#[derive(Debug)]
pub enum CheckResult {
    /// The tests, the checks or a head: fine, or why not.
    Plain(Result<(), String>),
    /// The state of the pull request.
    State(Result<PrOpenOrMergedState, String>),
}

/// What a [`CheckResult`] holds.
pub enum CheckView {
    /// Why the check did not pass, or `None` where it did.
    Plain(Option<Seq<char>>),
    State(Result<PrOpenOrMergedState, Seq<char>>),
}

impl View for CheckResult {
    type V = CheckView;

    open spec fn view(&self) -> CheckView {
        match self {
            CheckResult::Plain(Ok(_)) => CheckView::Plain(None),
            CheckResult::Plain(Err(e)) => CheckView::Plain(Some(e@)),
            CheckResult::State(Ok(s)) => CheckView::State(Ok(*s)),
            CheckResult::State(Err(e)) => CheckView::State(Err(e@)),
        }
    }
}

/// How a completion ends.
#[derive(Debug)]
pub struct CompletionEnd {
    /// The change to the task.
    pub change: TaskChange,
    /// What the workflow that tracks the pull request is told.
    pub note: Option<(PrFeedbackOutcome, &'static str)>,
    /// What that workflow is told of a merge.
    pub merged: Option<&'static str>,
    /// Why the task failed, if it did.
    pub failure: Option<String>,
}

/// What a [`CompletionEnd`] holds.
pub struct EndView {
    pub change: ChangeView,
    pub note: Option<(PrFeedbackOutcome, Seq<char>)>,
    pub merged: Option<Seq<char>>,
    pub failure: Option<Seq<char>>,
}

impl View for CompletionEnd {
    type V = EndView;

    open spec fn view(&self) -> EndView {
        EndView {
            change: self.change@,
            note: match self.note {
                None => None,
                Some((o, s)) => Some((o, s@)),
            },
            merged: match self.merged {
                None => None,
                Some(s) => Some(s@),
            },
            failure: text::opt_view(self.failure),
        }
    }
}

impl EndView {
    /// What the end adds to the log of tasks.
    pub open spec fn entry(self) -> LogView {
        match self.failure {
            Some(reason) => LogView::Failed { reason },
            None => LogView::Completed,
        }
    }
}

impl CompletionEnd {
    /// What the end adds to the log of tasks.
    pub fn log(&self) -> (r: LogEntry)
        ensures
            r@ == self@.entry(),
    {
        match &self.failure {
            Some(reason) => LogEntry::Failed { reason: reason.clone() },
            None => LogEntry::Completed,
        }
    }
}

/// The end for a pull request that someone else merged.
pub open spec fn merged_end(turns: nat, validation: Seq<char>, summary: Seq<char>) -> EndView {
    EndView {
        change: task::moved(
            TaskStatus::Done,
            Some(turns),
            Some("PR merged externally; local review completion gate exited as done."@),
        ).and_round(turns, "local_review_validation"@, validation, None).and_round(
            turns,
            "pr_open_gate"@,
            "merged"@,
            Some("PR was already merged externally."@),
        ),
        note: None,
        merged: Some(summary),
        failure: None,
    }
}

/// The end at a gate that did not pass.
pub open spec fn gate_end(
    turns: nat,
    action: Seq<char>,
    error: Seq<char>,
    failure: Seq<char>,
    summary: Seq<char>,
    told: bool,
) -> EndView {
    EndView {
        change: task::moved(TaskStatus::Failed, Some(turns), Some(error)).and_round(
            turns,
            action,
            "failed"@,
            Some(failure),
        ),
        note: if told {
            Some((PrFeedbackOutcome::BlockingFeedback, summary))
        } else {
            None
        },
        merged: None,
        failure: Some(failure),
    }
}

/// The end of a task that is complete.
pub open spec fn ready_end(turns: nat, has_pr: bool) -> EndView {
    EndView {
        change: task::moved(TaskStatus::Done, Some(turns), None).and_round(
            turns,
            "local_review_validation"@,
            "passed"@,
            None,
        ),
        note: if has_pr {
            Some(
                (
                    PrFeedbackOutcome::ReadyToMerge,
                    "Local agent review approved, validation passed, and PR checks are green."@,
                ),
            )
        } else {
            None
        },
        merged: None,
        failure: None,
    }
}

/// The end of a task whose tests failed.
pub open spec fn tests_failed_end(turns: nat, has_pr: bool, failure: Seq<char>) -> EndView {
    let error =
        "Local review passed, but validation failed while hosted review was disabled: "@
        + failure;
    EndView {
        change: task::moved(TaskStatus::Failed, Some(turns), Some(error)).and_round(
            turns,
            "local_review_validation"@,
            "failed"@,
            Some(failure),
        ),
        note: if has_pr {
            Some(
                (
                    PrFeedbackOutcome::BlockingFeedback,
                    "Local agent review approved, but local validation failed."@,
                ),
            )
        } else {
            None
        },
        merged: None,
        failure: Some(error),
    }
}

/// What the workflow is told of a merge after the tests passed.
pub const MERGED_SUMMARY: &'static str =
    "Local agent review approved, validation passed, and PR was already merged externally.";

/// What the workflow is told of a merge after the tests failed.
pub const MERGED_UNTESTED_SUMMARY: &'static str =
    "Local agent review approved and PR was already merged externally; local validation failed after merge.";

/// The next stage, or the end. `has_pr` tells whether the task has a pull request,
/// `turns` how many turns it has taken.
pub open spec fn progress(
    stage: StageView,
    check: CheckView,
    turns: nat,
    has_pr: bool,
) -> Result<StageView, EndView> {
    match (stage, check) {
        (StageView::Tests, CheckView::Plain(None)) => if has_pr {
            Ok(StageView::State)
        } else {
            Err(ready_end(turns, false))
        },
        (StageView::Tests, CheckView::Plain(Some(failure))) => if has_pr {
            Ok(StageView::StateAfterFailedTests(failure))
        } else {
            Err(tests_failed_end(turns, false, failure))
        },
        (StageView::StateAfterFailedTests(failure), CheckView::State(state)) => if state == Ok::<
            _,
            Seq<char>,
        >(PrOpenOrMergedState::Merged) {
            Err(merged_end(turns, "skipped_merged"@, MERGED_UNTESTED_SUMMARY@))
        } else {
            Err(tests_failed_end(turns, true, failure))
        },
        (_, CheckView::State(Ok(PrOpenOrMergedState::Merged))) => Err(
            merged_end(turns, "passed"@, MERGED_SUMMARY@),
        ),
        (StageView::State, CheckView::State(Ok(_))) => Ok(StageView::Head),
        (StageView::State, CheckView::State(Err(failure))) => Err(
            gate_end(
                turns,
                "pr_open_gate"@,
                "Local review passed, but the PR is not open while hosted review was disabled: "@
                    + failure,
                failure,
                "Local agent review approved, but the PR is not open."@,
                false,
            ),
        ),
        (StageView::Head, CheckView::Plain(None)) => Ok(StageView::Checks),
        (StageView::Head, CheckView::Plain(Some(failure))) => Err(
            gate_end(
                turns,
                "pr_head_gate"@,
                "Local review passed, but Harness could not prove the reviewed PR head is valid while hosted review was disabled: "@
                    + failure,
                failure,
                "Local agent review approved, but Harness could not prove the reviewed PR head is valid."@,
                head_actionable(failure),
            ),
        ),
        (StageView::Checks, CheckView::Plain(None)) => Ok(StageView::StateAfterChecks),
        (StageView::Checks, CheckView::Plain(Some(failure))) => Ok(
            StageView::StateAfterFailedChecks(failure),
        ),
        (StageView::StateAfterFailedChecks(failure), CheckView::State(Ok(_))) => Err(
            gate_end(
                turns,
                "pr_ci_gate"@,
                "Local review passed, but PR CI checks are not green while hosted review was disabled: "@
                    + failure,
                failure,
                "Local agent review approved, but PR CI checks are not green."@,
                ci_actionable(failure),
            ),
        ),
        (StageView::StateAfterChecks, CheckView::State(Ok(_))) => Ok(StageView::HeadAfterChecks),
        (_, CheckView::State(Err(failure))) => Err(
            gate_end(
                turns,
                "pr_open_gate"@,
                "Local review passed, but the PR is not open after CI polling while hosted review was disabled: "@
                    + failure,
                failure,
                "Local agent review approved, but the PR is not open after CI polling."@,
                false,
            ),
        ),
        (_, CheckView::Plain(Some(failure))) => Err(
            gate_end(
                turns,
                "pr_head_gate"@,
                head_error(failure),
                failure,
                "Local agent review approved, but the PR head changed after approval."@,
                head_actionable(failure),
            ),
        ),
        (_, _) => Err(ready_end(turns, true)),
    }
}

fn end_merged(turns_used: u32, validation: &str, summary: &'static str) -> (r: CompletionEnd)
    ensures
        r@ == merged_end(turns_used as nat, validation@, summary@),
{
    let change = TaskChange::to(
        TaskStatus::Done,
        Some(turns_used),
        Some("PR merged externally; local review completion gate exited as done.".to_owned()),
    ).with_round(turns_used, "local_review_validation", validation, None).with_round(
        turns_used,
        "pr_open_gate",
        "merged",
        Some("PR was already merged externally.".to_owned()),
    );
    CompletionEnd { change, note: None, merged: Some(summary), failure: None }
}

fn end_at_gate(
    turns_used: u32,
    action: &str,
    error: String,
    failure: String,
    summary: &'static str,
    told: bool,
) -> (r: CompletionEnd)
    ensures
        r@ == gate_end(turns_used as nat, action@, error@, failure@, summary@, told),
{
    let change = TaskChange::to(TaskStatus::Failed, Some(turns_used), Some(error)).with_round(
        turns_used,
        action,
        "failed",
        Some(failure.clone()),
    );
    let note = if told {
        Some((PrFeedbackOutcome::BlockingFeedback, summary))
    } else {
        None
    };
    CompletionEnd { change, note, merged: None, failure: Some(failure) }
}

fn end_ready(turns_used: u32, has_pr: bool) -> (r: CompletionEnd)
    ensures
        r@ == ready_end(turns_used as nat, has_pr),
{
    let change = TaskChange::to(TaskStatus::Done, Some(turns_used), None).with_round(
        turns_used,
        "local_review_validation",
        "passed",
        None,
    );
    let note = if has_pr {
        Some(
            (
                PrFeedbackOutcome::ReadyToMerge,
                "Local agent review approved, validation passed, and PR checks are green.",
            ),
        )
    } else {
        None
    };
    CompletionEnd { change, note, merged: None, failure: None }
}

fn end_tests_failed(turns_used: u32, has_pr: bool, failure: String) -> (r: CompletionEnd)
    ensures
        r@ == tests_failed_end(turns_used as nat, has_pr, failure@),
{
    let error = with_failure(
        "Local review passed, but validation failed while hosted review was disabled: ",
        failure.as_str(),
    );
    let change = TaskChange::to(
        TaskStatus::Failed,
        Some(turns_used),
        Some(error.clone()),
    ).with_round(turns_used, "local_review_validation", "failed", Some(failure));
    let note = if has_pr {
        Some(
            (
                PrFeedbackOutcome::BlockingFeedback,
                "Local agent review approved, but local validation failed.",
            ),
        )
    } else {
        None
    };
    CompletionEnd { change, note, merged: None, failure: Some(error) }
}

/// Takes in what a check gave: the next stage, or how the completion ends.
pub fn advance(stage: Stage, check: CheckResult, turns_used: u32, has_pr: bool) -> (r: Result<
    Stage,
    CompletionEnd,
>)
    requires
        stage@.wants_state() == (check@ is State),
    ensures
        match r {
            Ok(next) => progress(stage@, check@, turns_used as nat, has_pr) == Ok::<_, EndView>(
                next@,
            ),
            Err(end) => progress(stage@, check@, turns_used as nat, has_pr) == Err::<StageView, _>(
                end@,
            ),
        },
{
    match check {
        CheckResult::State(state) => match stage {
            Stage::StateAfterFailedTests(failure) => match state {
                Ok(PrOpenOrMergedState::Merged) => Err(
                    end_merged(turns_used, "skipped_merged", MERGED_UNTESTED_SUMMARY),
                ),
                _ => Err(end_tests_failed(turns_used, true, failure)),
            },
            _ => match state {
                Ok(PrOpenOrMergedState::Merged) => Err(
                    end_merged(turns_used, "passed", MERGED_SUMMARY),
                ),
                Ok(PrOpenOrMergedState::Open) => match stage {
                    Stage::State => Ok(Stage::Head),
                    Stage::StateAfterFailedChecks(failure) => {
                        let told = pr_ci_failure_is_actionable_feedback(failure.as_str());
                        let error = with_failure(
                            "Local review passed, but PR CI checks are not green while hosted review was disabled: ",
                            failure.as_str(),
                        );
                        Err(
                            end_at_gate(
                                turns_used,
                                "pr_ci_gate",
                                error,
                                failure,
                                "Local agent review approved, but PR CI checks are not green.",
                                told,
                            ),
                        )
                    },
                    _ => Ok(Stage::HeadAfterChecks),
                },
                Err(failure) => {
                    let (before, summary) = match stage {
                        Stage::State => (
                            "Local review passed, but the PR is not open while hosted review was disabled: ",
                            "Local agent review approved, but the PR is not open.",
                        ),
                        _ => (
                            "Local review passed, but the PR is not open after CI polling while hosted review was disabled: ",
                            "Local agent review approved, but the PR is not open after CI polling.",
                        ),
                    };
                    let error = with_failure(before, failure.as_str());
                    Err(end_at_gate(turns_used, "pr_open_gate", error, failure, summary, false))
                },
            },
        },
        CheckResult::Plain(Ok(_)) => match stage {
            Stage::Tests => if has_pr {
                Ok(Stage::State)
            } else {
                Err(end_ready(turns_used, false))
            },
            Stage::Head => Ok(Stage::Checks),
            Stage::Checks => Ok(Stage::StateAfterChecks),
            _ => Err(end_ready(turns_used, true)),
        },
        CheckResult::Plain(Err(failure)) => match stage {
            Stage::Tests => if has_pr {
                Ok(Stage::StateAfterFailedTests(failure))
            } else {
                Err(end_tests_failed(turns_used, false, failure))
            },
            Stage::Checks => Ok(Stage::StateAfterFailedChecks(failure)),
            Stage::Head => {
                let told = pr_head_failure_is_actionable_feedback(failure.as_str());
                let error = with_failure(
                    "Local review passed, but Harness could not prove the reviewed PR head is valid while hosted review was disabled: ",
                    failure.as_str(),
                );
                Err(
                    end_at_gate(
                        turns_used,
                        "pr_head_gate",
                        error,
                        failure,
                        "Local agent review approved, but Harness could not prove the reviewed PR head is valid.",
                        told,
                    ),
                )
            },
            _ => {
                let told = pr_head_failure_is_actionable_feedback(failure.as_str());
                let error = pr_head_after_approval_user_error(failure.as_str());
                Err(
                    end_at_gate(
                        turns_used,
                        "pr_head_gate",
                        error,
                        failure,
                        "Local agent review approved, but the PR head changed after approval.",
                        told,
                    ),
                )
            },
        },
    }
}

/// The error of a task that no local review approved while there is no hosted one.
pub const MISSING_LOCAL_REVIEW: &'static str =
    "Hosted review is disabled, but no local agent review approved the PR. Enable agents.review with a registered reviewer_agent or set review_bot_auto_trigger=true.";

/// The change to a task that no local review approved while there is no hosted one.
pub fn missing_local_review_change(turns_used: u32, pr_url: Option<&str>) -> (r: TaskChange)
    ensures
        r@ == task::moved(
            TaskStatus::Failed,
            Some(turns_used as nat),
            Some(MISSING_LOCAL_REVIEW@),
        ).and_round(
            turns_used as nat,
            "review_gate_config"@,
            "failed"@,
            Some("pr="@ + url_text(pr_url)),
        ),
{
    let error = MISSING_LOCAL_REVIEW.to_owned();
    TaskChange::to(TaskStatus::Failed, Some(turns_used), Some(error)).with_round(
        turns_used,
        "review_gate_config",
        "failed",
        Some(pr_detail(pr_url)),
    )
}

/// What the log of tasks is to hold of a task that no local review approved while there is
/// no hosted one.
pub fn missing_local_review_log() -> (r: LogEntry)
    ensures
        r@ == (LogView::Failed { reason: MISSING_LOCAL_REVIEW@ }),
{
    LogEntry::Failed { reason: MISSING_LOCAL_REVIEW.to_owned() }
}

/// An address, or nothing where there is none.
pub open spec fn url_text(url: Option<&str>) -> Seq<char> {
    match url {
        Some(u) => u@,
        None => ""@,
    }
}

fn pr_detail(pr_url: Option<&str>) -> (r: String)
    ensures
        r@ == "pr="@ + url_text(pr_url),
{
    let mut out = "pr=".to_owned();
    out.append(
        match pr_url {
            Some(u) => u,
            None => "",
        },
    );
    out
}

/// The change to a task that a review provider blocks.
pub fn blocked_provider_change(
    turns_used: u32,
    pr_url: Option<&str>,
    provider_id: Option<&str>,
    summary: &str,
) -> (r: TaskChange)
    ensures
        r@ == task::moved(
            TaskStatus::Failed,
            Some(turns_used as nat),
            Some(
                "Review provider gate blocked by "@ + (match provider_id {
                    Some(id) => id@,
                    None => "unknown provider"@,
                }) + ": "@ + summary@,
            ),
        ).and_round(
            turns_used as nat,
            "review_provider_gate"@,
            "failed"@,
            Some("pr="@ + url_text(pr_url)),
        ),
{
    let mut error = "Review provider gate blocked by ".to_owned();
    error.append(
        match provider_id {
            Some(id) => id,
            None => "unknown provider",
        },
    );
    error.append(": ");
    error.append(summary);
    TaskChange::to(TaskStatus::Failed, Some(turns_used), Some(error)).with_round(
        turns_used,
        "review_provider_gate",
        "failed",
        Some(pr_detail(pr_url)),
    )
}

/// Where a completion stands after these checks, made one after the other. `None` if
/// it has ended, or a check was not the one that was waited for.
pub open spec fn stage_after(checks: Seq<CheckView>, turns: nat, has_pr: bool) -> Option<StageView>
    decreases checks.len(),
{
    if checks.len() == 0 {
        Some(StageView::Tests)
    } else {
        match stage_after(checks.drop_last(), turns, has_pr) {
            None => None,
            Some(stage) => if stage.wants_state() == (checks.last() is State) {
                match progress(stage, checks.last(), turns, has_pr) {
                    Ok(next) => Some(next),
                    Err(_) => None,
                }
            } else {
                None
            },
        }
    }
}

/// The checks that a task with a pull request has to pass, in their order.
pub open spec fn all_checks() -> Seq<CheckView> {
    seq![
        CheckView::Plain(None),
        CheckView::State(Ok(PrOpenOrMergedState::Open)),
        CheckView::Plain(None),
        CheckView::Plain(None),
        CheckView::State(Ok(PrOpenOrMergedState::Open)),
        CheckView::Plain(None),
    ]
}

proof fn lemma_stage_determines_checks(checks: Seq<CheckView>, turns: nat)
    ensures
        stage_after(checks, turns, true) matches Some(stage) ==> {
            &&& stage is Tests ==> checks == all_checks().take(0)
            &&& stage is State ==> checks == all_checks().take(1)
            &&& stage is Head ==> checks == all_checks().take(2)
            &&& stage is Checks ==> checks == all_checks().take(3)
            &&& stage is StateAfterChecks ==> checks == all_checks().take(4)
            &&& stage is HeadAfterChecks ==> checks == all_checks().take(5)
        },
    decreases checks.len(),
{
    if checks.len() == 0 {
        assert(checks == all_checks().take(0));
    } else {
        lemma_stage_determines_checks(checks.drop_last(), turns);
        assert(checks == checks.drop_last().push(checks.last()));
        assert(all_checks().take(1) == all_checks().take(0).push(all_checks()[0]));
        assert(all_checks().take(2) == all_checks().take(1).push(all_checks()[1]));
        assert(all_checks().take(3) == all_checks().take(2).push(all_checks()[2]));
        assert(all_checks().take(4) == all_checks().take(3).push(all_checks()[3]));
        assert(all_checks().take(5) == all_checks().take(4).push(all_checks()[4]));
    }
}

/// A task with a pull request is ready to merge only after every check has passed:
/// the tests, twice that the pull request is open, its checks, and twice its head.
pub proof fn law_ready_needs_every_check(
    checks: Seq<CheckView>,
    last: CheckView,
    turns: nat,
)
    requires
        stage_after(checks, turns, true) matches Some(stage) && stage.wants_state() == (
        last is State) && progress(stage, last, turns, true) == Err::<StageView, EndView>(
            ready_end(turns, true),
        ),
    ensures
        checks.push(last) == all_checks(),
{
    lemma_stage_determines_checks(checks, turns);
    let stage = stage_after(checks, turns, true)->0;
    let end = progress(stage, last, turns, true)->Err_0;
    assert(end.change.status == Some(TaskStatus::Done));
    assert(end.merged is None);
    assert(stage is HeadAfterChecks);
    assert(checks.push(last) == all_checks());
}

/// A pull request that was merged elsewhere ends the task as done at every stage that
/// asks for its state.
pub proof fn law_merged_pr_is_done(stage: StageView, turns: nat, has_pr: bool)
    requires
        stage.wants_state(),
    ensures
        progress(
            stage,
            CheckView::State(Ok(PrOpenOrMergedState::Merged)),
            turns,
            has_pr,
        ) matches Err(end) && end.change.status == Some(TaskStatus::Done) && end.merged is Some,
{
}

/// A failed lookup is not reported as feedback on the pull request: what is reported
/// as blocking after the tests passed is red checks or a wrong head.
pub proof fn law_lookup_failure_is_no_feedback(
    stage: StageView,
    check: CheckView,
    turns: nat,
    has_pr: bool,
)
    requires
        !(stage is Tests),
        !(stage is StateAfterFailedTests),
        stage.wants_state() == (check is State),
        progress(stage, check, turns, has_pr) matches Err(end) && end.note matches Some(
            (outcome, _),
        ) && outcome == PrFeedbackOutcome::BlockingFeedback,
    ensures
        progress(stage, check, turns, has_pr)->Err_0.failure matches Some(failure) && (
        ci_actionable(failure) || head_actionable(failure)),
{
}

/// The log of tasks agrees with the task at every end: the task is done where the log says
/// that it was completed, and failed, with an error, where the log says that it failed.
pub proof fn law_log_agrees_with_status(
    stage: StageView,
    check: CheckView,
    turns: nat,
    has_pr: bool,
)
    requires
        progress(stage, check, turns, has_pr) is Err,
    ensures
        ({
            let end = progress(stage, check, turns, has_pr)->Err_0;
            match end.entry() {
                LogView::Completed => end.change.status == Some(TaskStatus::Done),
                LogView::Failed { .. } => end.change.status == Some(TaskStatus::Failed)
                    && end.change.error is Some,
                _ => false,
            }
        }),
{
}

/// The way through the checks. Without a pull request the tests decide alone. With one, its
/// state is asked for after the tests, then the head, then its checks, its state again and
/// its head again; the first that is not in order ends the task.
pub proof fn law_checks_come_in_their_order(turns: nat, failure: Seq<char>)
    ensures
        progress(StageView::Tests, CheckView::Plain(None), turns, true) == Ok::<StageView, EndView>(
            StageView::State,
        ),
        progress(StageView::Tests, CheckView::Plain(None), turns, false) == Err::<
            StageView,
            EndView,
        >(ready_end(turns, false)),
        progress(StageView::Tests, CheckView::Plain(Some(failure)), turns, true) == Ok::<
            StageView,
            EndView,
        >(StageView::StateAfterFailedTests(failure)),
        progress(
            StageView::State,
            CheckView::State(Ok(PrOpenOrMergedState::Open)),
            turns,
            true,
        ) == Ok::<StageView, EndView>(StageView::Head),
        progress(StageView::Head, CheckView::Plain(None), turns, true) == Ok::<StageView, EndView>(
            StageView::Checks,
        ),
        progress(StageView::Checks, CheckView::Plain(None), turns, true) == Ok::<
            StageView,
            EndView,
        >(StageView::StateAfterChecks),
        progress(StageView::Checks, CheckView::Plain(Some(failure)), turns, true) == Ok::<
            StageView,
            EndView,
        >(StageView::StateAfterFailedChecks(failure)),
        progress(
            StageView::StateAfterChecks,
            CheckView::State(Ok(PrOpenOrMergedState::Open)),
            turns,
            true,
        ) == Ok::<StageView, EndView>(StageView::HeadAfterChecks),
        progress(StageView::HeadAfterChecks, CheckView::Plain(None), turns, true) == Err::<
            StageView,
            EndView,
        >(ready_end(turns, true)),
{
}

/// What fails a completion, and how it is recorded: tests that failed, a pull request that
/// is not open, a wrong head, red checks. The error holds what was found, the entry is the
/// one of that check, and the task fails in the turn that it has reached.
pub proof fn law_failed_check_fails_the_task(
    stage: StageView,
    check: CheckView,
    turns: nat,
    has_pr: bool,
)
    requires
        stage.wants_state() == (check is State),
        progress(stage, check, turns, has_pr) is Err,
        progress(stage, check, turns, has_pr)->Err_0.failure is Some,
    ensures
        ({
            let end = progress(stage, check, turns, has_pr)->Err_0;
            let round = end.change.rounds[0];
            let found = match (stage, check) {
                (StageView::StateAfterFailedTests(f), _) => f,
                (StageView::StateAfterFailedChecks(f), CheckView::State(Ok(_))) => f,
                (_, CheckView::State(Err(f))) => f,
                (_, CheckView::Plain(Some(f))) => f,
                _ => seq![],
            };
            &&& end.change.status == Some(TaskStatus::Failed) && end.change.turn == Some(turns)
            &&& end.change.rounds.len() == 1 && round.turn == turns && round.result == "failed"@
            &&& round.detail == Some(found)
            &&& end.merged is None
            &&& end.change.error matches Some(e) && text::ends_with(e, found)
            &&& round.action == (match stage {
                StageView::Tests => "local_review_validation"@,
                StageView::StateAfterFailedTests(_) => "local_review_validation"@,
                StageView::Head => "pr_head_gate"@,
                StageView::HeadAfterChecks => "pr_head_gate"@,
                StageView::StateAfterFailedChecks(_) => if check is State && check->State_0 is Ok {
                    "pr_ci_gate"@
                } else {
                    "pr_open_gate"@
                },
                _ => "pr_open_gate"@,
            })
        }),
{
    let end = progress(stage, check, turns, has_pr)->Err_0;
    let found = match (stage, check) {
        (StageView::StateAfterFailedTests(f), _) => f,
        (StageView::StateAfterFailedChecks(f), CheckView::State(Ok(_))) => f,
        (_, CheckView::State(Err(f))) => f,
        (_, CheckView::Plain(Some(f))) => f,
        _ => seq![],
    };
    let e = end.change.error->0;
    assert(e.skip(e.len() - found.len()) == found);
}

/// What the workflow of the pull request is told. Failed tests block it; a wrong head and
/// red checks block it where they are something to act on; a pull request that is not open
/// is not told of; and only after all checks it is ready to merge.
pub proof fn law_workflow_is_told(stage: StageView, check: CheckView, turns: nat, has_pr: bool)
    requires
        stage.wants_state() == (check is State),
        progress(stage, check, turns, has_pr) is Err,
    ensures
        ({
            let end = progress(stage, check, turns, has_pr)->Err_0;
            let ready = end.note matches Some((o, _)) && o == PrFeedbackOutcome::ReadyToMerge;
            let blocks = end.note matches Some((o, _)) && o == PrFeedbackOutcome::BlockingFeedback;
            &&& end.note is Some <==> ready || blocks
            &&& ready <==> stage is HeadAfterChecks && check == CheckView::Plain(None)
            &&& stage is Tests ==> end.note is None
            &&& stage is StateAfterFailedTests && end.failure is Some ==> blocks
            &&& stage is State ==> end.note is None
            &&& stage is StateAfterChecks ==> end.note is None
            &&& (stage is Head || stage is HeadAfterChecks) && end.failure is Some ==> (blocks
                <==> text::contains(end.failure->0, "GitHub PR head did not advance"@)
                || text::contains(end.failure->0, "GitHub PR head changed"@))
            &&& stage is StateAfterFailedChecks && check == CheckView::State(
                Ok(PrOpenOrMergedState::Open),
            ) ==> (blocks <==> text::contains(
                end.failure->0,
                "GitHub PR checks are not green"@,
            ))
            &&& end.merged is Some ==> end.note is None && end.failure is None
        }),
{
}

/// A pull request that someone merged ends the task as done, with two entries: how its tests
/// went, and that it was merged. The workflow hears whether the tests had passed.
pub proof fn law_merge_is_recorded(stage: StageView, turns: nat, has_pr: bool)
    requires
        stage.wants_state(),
    ensures
        ({
            let end = progress(
                stage,
                CheckView::State(Ok(PrOpenOrMergedState::Merged)),
                turns,
                has_pr,
            )->Err_0;
            &&& end.failure is None && end.change.turn == Some(turns)
            &&& end.change.rounds.len() == 2
            &&& end.change.rounds[0].action == "local_review_validation"@
            &&& end.change.rounds[1].action == "pr_open_gate"@ && end.change.rounds[1].result
                == "merged"@
            &&& stage is StateAfterFailedTests ==> end.change.rounds[0].result
                == "skipped_merged"@ && end.merged == Some(
                "Local agent review approved and PR was already merged externally; local validation failed after merge."@,
            )
            &&& !(stage is StateAfterFailedTests) ==> end.change.rounds[0].result == "passed"@
                && end.merged == Some(
                "Local agent review approved, validation passed, and PR was already merged externally."@,
            )
        }),
{
}

/// A completed task is done in the turn that it has reached, without an error, and its one
/// entry says that the tests passed.
pub proof fn law_completed_task_is_done(turns: nat, has_pr: bool)
    ensures
        ({
            let end = ready_end(turns, has_pr);
            &&& end.change.status == Some(TaskStatus::Done) && end.change.turn == Some(turns)
            &&& end.change.error is None && end.failure is None && end.merged is None
            &&& end.change.rounds.len() == 1 && end.change.rounds[0].action
                == "local_review_validation"@ && end.change.rounds[0].result == "passed"@
            &&& end.note is Some <==> has_pr
        }),
{
}

/// The head that a review left is in order where both heads are known and, unless a fix was
/// tried, are the same. The error tells which lookup failed, or both heads.
pub proof fn law_head_may_move_only_by_a_fix(head: LocalReviewPrHead, pr_num: nat)
    ensures
        head.fix_verdict(pr_num) is Ok <==> {
            &&& head.before_review_error is None && head.before_review_sha is Some
            &&& head.approved_review_error is None && head.approved_review_sha is Some
            &&& head.local_fix_attempted || head.approved_review_sha->0@
                == head.before_review_sha->0@
        },
        head.approved_review_error matches Some(e) ==> (head.approved() matches Err(m)
            && text::ends_with(m, e@)),
        head.before_review_error matches Some(e) ==> (head.fix_verdict(pr_num) matches Err(m)
            && text::ends_with(m, e@)),
        head.approved_review_error is None && head.approved_review_sha is Some ==> head.approved()
            == Ok::<Seq<char>, Seq<char>>(head.approved_review_sha->0@),
{
    if let Some(e) = head.approved_review_error {
        let m = head.approved()->Err_0;
        assert(m.skip(m.len() - e@.len()) == e@);
    }
    if let Some(e) = head.before_review_error {
        let m = head.before()->Err_0;
        assert(m.skip(m.len() - e@.len()) == e@);
    }
}

/// The head is still the approved one exactly where that is known, the present one is known,
/// and they are the same. A head that has changed is something to act on.
pub proof fn law_head_is_still_the_approved_one(
    head: LocalReviewPrHead,
    pr_num: nat,
    current: Result<Seq<char>, Seq<char>>,
)
    ensures
        head.still_verdict(pr_num, current) is Ok <==> {
            &&& head.approved_review_error is None && head.approved_review_sha is Some
            &&& current == Ok::<Seq<char>, Seq<char>>(head.approved_review_sha->0@)
        },
        head.approved() is Ok && current is Err ==> head.still_verdict(pr_num, current) == Err::<
            (),
            Seq<char>,
        >(current->Err_0),
        head.approved() is Ok && current is Ok && current->Ok_0 != head.approved()->Ok_0 ==> (
        head.still_verdict(pr_num, current) matches Err(e) && head_actionable(e)),
{
    if head.approved() is Ok && current is Ok && current->Ok_0 != head.approved()->Ok_0 {
        let e = head.still_verdict(pr_num, current)->Err_0;
        let words = "GitHub PR head changed"@;
        reveal_strlit("GitHub PR head changed");
        reveal_strlit("GitHub PR head changed after local review approval for ");
        assert("GitHub PR head changed after local review approval for "@.take(22) == words);
        assert(e.subrange(0, 22) == words);
        assert(text::occurs_at(e, words, 0));
    }
}

/// What counts as something to act on is told in these words and no others.
pub proof fn law_actionable_failures_are_told_in_words(failure: Seq<char>)
    ensures
        ci_actionable(failure) <==> text::contains(failure, "GitHub PR checks are not green"@),
        head_actionable(failure) <==> text::contains(failure, "GitHub PR head did not advance"@)
            || text::contains(failure, "GitHub PR head changed"@),
        text::ends_with(head_error(failure), failure),
{
    let e = head_error(failure);
    assert(e.skip(e.len() - failure.len()) == failure);
}

/// The head before the review is the one that was looked up; a failed lookup comes first, and
/// a head that is missing is an error too.
pub proof fn law_head_before_is_the_one_looked_up(head: LocalReviewPrHead)
    ensures
        head.before_review_error matches Some(e) ==> head.before() == Err::<Seq<char>, Seq<char>>(
            "GitHub PR head baseline lookup failed before local review fix: "@ + e@,
        ),
        head.before_review_error is None && head.before_review_sha is None ==> head.before()
            == Err::<Seq<char>, Seq<char>>(
            "GitHub PR head baseline is missing before local review fix"@,
        ),
        head.before_review_error is None ==> (head.before_review_sha matches Some(sha)
            ==> head.before() == Ok::<Seq<char>, Seq<char>>(sha@)),
        head.approved_review_error matches Some(e) ==> head.approved() == Err::<
            Seq<char>,
            Seq<char>,
        >("GitHub PR head approval lookup failed after local review: "@ + e@),
        head.approved_review_error is None && head.approved_review_sha is None ==> head.approved()
            == Err::<Seq<char>, Seq<char>>(
            "GitHub PR head approval SHA is missing after local review"@,
        ),
        head.approved_review_error is None ==> (head.approved_review_sha matches Some(sha)
            ==> head.approved() == Ok::<Seq<char>, Seq<char>>(sha@)),
{
}

/// Results are seen as they are, and an address that is not known is an empty text.
pub proof fn law_results_are_seen_as_they_are(s: String, e: String, url: &str)
    ensures
        text_result(Ok(s)) == Ok::<Seq<char>, Seq<char>>(s@),
        text_result(Err(e)) == Err::<Seq<char>, Seq<char>>(e@),
        unit_result(Ok(())) is Ok,
        unit_result(Err(e)) == Err::<(), Seq<char>>(e@),
        url_text(Some(url)) == url@,
        url_text(None).len() == 0,
{
    reveal_strlit("");
}

/// The error tells a head that has changed from one that could not be verified, and ends in the
/// failure itself.
pub proof fn law_changed_head_is_told_apart(before: Seq<char>, after: Seq<char>, other: Seq<char>)
    ensures
        head_error(before + "GitHub PR head changed"@ + after)
            == "Local review passed, but the PR head changed after local approval while hosted review was disabled: "@
            + (before + "GitHub PR head changed"@ + after),
        !text::contains(other, "GitHub PR head changed"@) ==> head_error(other)
            == "Local review passed, but Harness could not verify the PR head after approval while hosted review was disabled: "@
            + other,
{
    text::lemma_contains_part(before, "GitHub PR head changed"@, after);
}

} // verus!
