//! What follows from the output of an implementation.

use crate::events;
use crate::events::{Decision, EventView, TaskEvent};
use crate::gates;
use crate::implement;
use crate::implement::{ImplementationOutcome, OutcomeView};
use crate::markers;
use crate::markers::{PrReviewPrepOutcome, PrepView};
use crate::request;
use crate::task;
use crate::task::{ChangeView, TaskChange, TaskFailureKind, TaskStatus};
use crate::telemetry;
use crate::telemetry::{MarkView, TurnMark, TurnTelemetry};
use crate::text;
use crate::text::CharClass;
use vstd::prelude::*;
use vstd::string::*;

verus! {

/// What is known of a task when its implementation has been made.
#[derive(Debug)]
pub struct ImplementedTask {
    /// The issue that the task is to resolve.
    pub issue: Option<u64>,
    /// The pull request that the task is to bring to its end.
    pub pr: Option<u64>,
    /// Where the task comes from.
    pub source: Option<String>,
    /// What the task is known by outside.
    pub external_id: Option<String>,
    /// The plan that was followed.
    pub plan_output: Option<String>,
}

/// What an [`ImplementedTask`] holds.
pub struct TaskView {
    pub issue: Option<nat>,
    pub pr: Option<nat>,
    pub source: Option<Seq<char>>,
    pub external_id: Option<Seq<char>>,
    pub plan_output: Option<Seq<char>>,
}

impl View for ImplementedTask {
    type V = TaskView;

    open spec fn view(&self) -> TaskView {
        TaskView {
            issue: text::opt_number(self.issue),
            pr: text::opt_number(self.pr),
            source: text::opt_view(self.source),
            external_id: text::opt_view(self.external_id),
            plan_output: text::opt_view(self.plan_output),
        }
    }
}

impl TaskView {
    /// Whether the task gives a report and no pull request.
    pub open spec fn reports(self) -> bool {
        request::report_source(self.source)
    }

    /// Whether the task has to name a pull request.
    pub open spec fn needs_pr(self) -> bool {
        self.issue is Some || self.pr is Some
    }

    /// Whether the task makes issues of its own and resolves them.
    pub open spec fn makes_issues(self) -> bool {
        self.source == Some("auto-fix"@)
    }
}

impl ImplementedTask {
    /// Whether the task makes issues of its own and resolves them.
    pub fn makes_issues(&self) -> (r: bool)
        ensures
            r == self@.makes_issues(),
    {
        match &self.source {
            Some(source) => text::str_eq(source.as_str(), "auto-fix"),
            None => false,
        }
    }
}

/// What goes into the log from which tasks are recovered after a crash.
#[derive(Debug)]
pub enum LogEntry {
    Completed,
    Failed { reason: String },
    PrDetected { pr_url: String },
    RoundCompleted { round: u32, result: String },
}

/// What a [`LogEntry`] holds.
pub enum LogView {
    Completed,
    Failed { reason: Seq<char> },
    PrDetected { pr_url: Seq<char> },
    RoundCompleted { round: nat, result: Seq<char> },
}

impl View for LogEntry {
    type V = LogView;

    open spec fn view(&self) -> LogView {
        match self {
            LogEntry::Completed => LogView::Completed,
            LogEntry::Failed { reason } => LogView::Failed { reason: reason@ },
            LogEntry::PrDetected { pr_url } => LogView::PrDetected { pr_url: pr_url@ },
            LogEntry::RoundCompleted { round, result } => LogView::RoundCompleted {
                round: *round as nat,
                result: result@,
            },
        }
    }
}

/// The contents of a list of log entries.
pub open spec fn log_views(v: Seq<LogEntry>) -> Seq<LogView> {
    Seq::new(v.len(), |i: int| v[i]@)
}

/// A pull request that was found to belong to an issue.
#[derive(Debug)]
pub struct PrBinding {
    pub issue: u64,
    pub pr_num: u64,
    pub pr_url: String,
}

/// What a [`PrBinding`] holds.
pub struct BindingView {
    pub issue: nat,
    pub pr_num: nat,
    pub pr_url: Seq<char>,
}

impl View for PrBinding {
    type V = BindingView;

    open spec fn view(&self) -> BindingView {
        BindingView {
            issue: self.issue as nat,
            pr_num: self.pr_num as nat,
            pr_url: self.pr_url@,
        }
    }
}

/// The view of an optional binding.
pub open spec fn opt_binding(o: Option<PrBinding>) -> Option<BindingView> {
    match o {
        None => None,
        Some(b) => Some(b@),
    }
}

/// A point from which a task can be resumed.
#[derive(Debug)]
pub struct Checkpoint {
    pub pr_url: String,
    pub phase: &'static str,
}

/// What a [`Checkpoint`] holds.
pub struct CheckpointView {
    pub pr_url: Seq<char>,
    pub phase: Seq<char>,
}

impl View for Checkpoint {
    type V = CheckpointView;

    open spec fn view(&self) -> CheckpointView {
        CheckpointView { pr_url: self.pr_url@, phase: self.phase@ }
    }
}

/// The view of an optional checkpoint.
pub open spec fn opt_checkpoint(o: Option<Checkpoint>) -> Option<CheckpointView> {
    match o {
        None => None,
        Some(c) => Some(c@),
    }
}

/// How a task goes on after its implementation.
#[derive(Debug)]
pub enum ImplementEnd {
    /// It does not: whatever became of it is stored.
    Done,
    /// The plan is to be made again.
    Replan { issue: u64, plan_issue: String, prior_plan: Option<String> },
    /// The pull request is to be reviewed.
    Proceed {
        pr_url: Option<String>,
        pr_num: u64,
        pushed_commit: bool,
        review_prep: Option<PrReviewPrepOutcome>,
    },
}

/// What an [`ImplementEnd`] holds.
pub enum EndView {
    Done,
    Replan { issue: nat, plan_issue: Seq<char>, prior_plan: Option<Seq<char>> },
    Proceed {
        pr_url: Option<Seq<char>>,
        pr_num: nat,
        pushed_commit: bool,
        review_prep: Option<PrepView>,
    },
}

impl View for ImplementEnd {
    type V = EndView;

    open spec fn view(&self) -> EndView {
        match self {
            ImplementEnd::Done => EndView::Done,
            ImplementEnd::Replan { issue, plan_issue, prior_plan } => EndView::Replan {
                issue: *issue as nat,
                plan_issue: plan_issue@,
                prior_plan: text::opt_view(*prior_plan),
            },
            ImplementEnd::Proceed { pr_url, pr_num, pushed_commit, review_prep } =>
                EndView::Proceed {
                pr_url: text::opt_view(*pr_url),
                pr_num: *pr_num as nat,
                pushed_commit: *pushed_commit,
                review_prep: markers::opt_prep(*review_prep),
            },
        }
    }
}

/// All that follows from the output of an implementation.
#[derive(Debug)]
pub struct Processed {
    pub end: ImplementEnd,
    /// What is stored of the task.
    pub change: TaskChange,
    /// What is noted of the turn.
    pub event: Option<TaskEvent>,
    /// What is logged, in this order.
    pub log: Vec<LogEntry>,
    /// The checkpoint that is written.
    pub checkpoint: Option<Checkpoint>,
    /// What the task is known by outside from now on.
    pub external_id: Option<String>,
    /// The pull request that was found to belong to the task's issue.
    pub binding: Option<PrBinding>,
}

/// What a [`Processed`] holds.
pub struct ProcessedView {
    pub end: EndView,
    pub change: ChangeView,
    pub event: Option<EventView>,
    pub log: Seq<LogView>,
    pub checkpoint: Option<CheckpointView>,
    pub external_id: Option<Seq<char>>,
    pub binding: Option<BindingView>,
}

/// The view of an optional event.
pub open spec fn opt_event(o: Option<TaskEvent>) -> Option<EventView> {
    match o {
        None => None,
        Some(e) => Some(e@),
    }
}

impl View for Processed {
    type V = ProcessedView;

    open spec fn view(&self) -> ProcessedView {
        ProcessedView {
            end: self.end@,
            change: self.change@,
            event: opt_event(self.event),
            log: log_views(self.log@),
            checkpoint: opt_checkpoint(self.checkpoint),
            external_id: text::opt_view(self.external_id),
            binding: opt_binding(self.binding),
        }
    }
}

impl ProcessedView {
    /// The same, with the last entry and the note saying how the turn went.
    pub open spec fn marked(self, mark: MarkView) -> ProcessedView {
        ProcessedView {
            change: self.change.marked(mark),
            event: match self.event {
                Some(e) => Some(e.marked(mark)),
                None => None,
            },
            ..self
        }
    }
}

impl Processed {
    /// The same, with the last entry and the note saying how the turn went.
    pub fn marked(self, mark: TurnMark) -> (r: Processed)
        ensures
            r@ == self@.marked(mark@),
    {
        let event = match self.event {
            Some(e) => Some(e.marked(mark.copy())),
            None => None,
        };
        Processed {
            end: self.end,
            change: self.change.marked(mark),
            event,
            log: self.log,
            checkpoint: self.checkpoint,
            external_id: self.external_id,
            binding: self.binding,
        }
    }
}

/// The end of a task, with nothing but a stored change, a note and a log entry.
pub open spec fn ended(
    change: ChangeView,
    event: EventView,
    log: Seq<LogView>,
) -> ProcessedView {
    ProcessedView {
        end: EndView::Done,
        change,
        event: Some(event),
        log,
        checkpoint: None,
        external_id: None,
        binding: None,
    }
}

fn end_task(change: TaskChange, event: TaskEvent, log: Vec<LogEntry>) -> (r: Processed)
    ensures
        r@ == ended(change@, event@, log_views(log@)),
{
    Processed {
        end: ImplementEnd::Done,
        change,
        event: Some(event),
        log,
        checkpoint: None,
        external_id: None,
        binding: None,
    }
}

/// The failure of a task by what its implementation said.
pub open spec fn failed(
    error: Seq<char>,
    result: Seq<char>,
    reason: Seq<char>,
    output: Seq<char>,
    log: Seq<LogView>,
) -> ProcessedView {
    ended(
        task::moved(TaskStatus::Failed, Some(2), Some(error)).and_round(
            1,
            "implement"@,
            result,
            events::kept(output),
        ),
        implement::implement_event(Decision::Block, reason, None, events::kept(output)),
        log,
    )
}

fn fail_task(error: String, result: &str, reason: String, output: &str, log: Vec<LogEntry>) -> (r:
    Processed)
    ensures
        r@ == failed(error@, result@, reason@, output@, log_views(log@)),
{
    let change = TaskChange::to(TaskStatus::Failed, Some(2), Some(error)).with_round(
        1,
        "implement",
        result,
        events::kept_output(output),
    );
    let event = events::build_task_event(
        1,
        "implement",
        "task_implement",
        Decision::Block,
        Some(reason),
        None,
        events::kept_output(output),
    );
    end_task(change, event, log)
}

/// The pull request that is still named by an output from a place that belongs to
/// another session, so that it can be cleaned up.
pub open spec fn collision_pr(output: Seq<char>) -> Option<Seq<char>> {
    match implement::outcome(output) {
        Ok(OutcomeView::ParsedPr { pr_url, .. }) => pr_url,
        _ => None,
    }
}

/// What follows when the agent worked in a place that belongs to another session.
pub open spec fn collided(output: Seq<char>) -> ProcessedView {
    let url = collision_pr(output);
    ended(
        task::moved(
            TaskStatus::Failed,
            Some(1),
            Some(
                "WorktreeCollision: agent observed worktree managed by another harness session; reconciliation required"@,
            ),
        ).and_kind(TaskFailureKind::WorkspaceLifecycle).and_pr(url).and_round(
            1,
            "implement"@,
            "worktree_collision"@,
            events::kept(output),
        ),
        implement::implement_event(
            Decision::Block,
            "worktree collision detected"@,
            match url {
                Some(u) => Some("pr_url="@ + u),
                None => None,
            },
            events::kept(output),
        ),
        seq![],
    )
}

fn no_log() -> (r: Vec<LogEntry>)
    ensures
        log_views(r@) == Seq::<LogView>::empty(),
{
    let r: Vec<LogEntry> = Vec::new();
    assert(log_views(r@) == Seq::<LogView>::empty());
    r
}

fn logged(entry: LogEntry) -> (r: Vec<LogEntry>)
    ensures
        log_views(r@) == seq![entry@],
{
    let mut r: Vec<LogEntry> = Vec::new();
    r.push(entry);
    assert(log_views(r@) == seq![entry@]);
    r
}

fn report_collision(output: &str) -> (r: Processed)
    ensures
        r@ == collided(output@),
{
    let url = match implement::parse_implementation_outcome(output) {
        Ok(ImplementationOutcome::ParsedPr { pr_url, .. }) => pr_url,
        _ => None,
    };
    let detail = match &url {
        Some(u) => {
            let mut d = "pr_url=".to_owned();
            d.append(u.as_str());
            Some(d)
        },
        None => None,
    };
    let error =
        "WorktreeCollision: agent observed worktree managed by another harness session; reconciliation required".to_owned();
    let change = TaskChange::to(TaskStatus::Failed, Some(1), Some(error)).with_kind(
        TaskFailureKind::WorkspaceLifecycle,
    ).with_pr(url).with_round(
        1,
        "implement",
        "worktree_collision",
        events::kept_output(output),
    );
    let event = events::build_task_event(
        1,
        "implement",
        "task_implement",
        Decision::Block,
        Some("worktree collision detected".to_owned()),
        detail,
        events::kept_output(output),
    );
    end_task(change, event, no_log())
}

/// What follows when the task was to give a report.
pub open spec fn reported(output: Seq<char>) -> ProcessedView {
    ended(
        task::moved(TaskStatus::Done, Some(1), None).and_round(
            1,
            "review"@,
            "completed"@,
            events::kept(output),
        ),
        EventView {
            turn: Some(1),
            phase: Some("review"@),
            hook: "task_review"@,
            decision: Decision::Complete,
            reason: Some("review-only task completed"@),
            detail: None,
            content: events::kept(output),
            mark: telemetry::no_mark(),
        },
        seq![LogView::Completed],
    )
}

fn report_review(output: &str) -> (r: Processed)
    ensures
        r@ == reported(output@),
{
    let change = TaskChange::to(TaskStatus::Done, Some(1), None).with_round(
        1,
        "review",
        "completed",
        events::kept_output(output),
    );
    let event = events::build_task_event(
        1,
        "review",
        "task_review",
        Decision::Complete,
        Some("review-only task completed".to_owned()),
        None,
        events::kept_output(output),
    );
    end_task(change, event, logged(LogEntry::Completed))
}

/// What follows when the plan is not good enough: a task for an issue gets a new plan,
/// any other fails.
pub open spec fn replanned(t: TaskView, plan_issue: Seq<char>, output: Seq<char>) -> ProcessedView {
    match t.issue {
        Some(issue) => ProcessedView {
            end: EndView::Replan { issue, plan_issue, prior_plan: t.plan_output },
            change: task::unchanged(),
            event: None,
            log: seq![],
            checkpoint: None,
            external_id: None,
            binding: None,
        },
        None => failed(plan_issue, "plan_issue"@, plan_issue, output, seq![]),
    }
}

fn report_plan_issue(t: &ImplementedTask, plan_issue: String, output: &str) -> (r: Processed)
    ensures
        r@ == replanned(t@, plan_issue@, output@),
{
    match t.issue {
        Some(issue) => Processed {
            end: ImplementEnd::Replan {
                issue,
                plan_issue,
                prior_plan: text::copy_opt(&t.plan_output),
            },
            change: TaskChange::none(),
            event: None,
            log: no_log(),
            checkpoint: None,
            external_id: None,
            binding: None,
        },
        None => {
            let error = plan_issue.clone();
            fail_task(error, "plan_issue", plan_issue, output, no_log())
        },
    }
}

/// What an output says besides that the plan is not good enough.
pub struct Said {
    pub pr_url: Option<Seq<char>>,
    pub pr_num: Option<nat>,
    pub created_issue_num: Option<nat>,
    pub review_prep: Option<PrepView>,
}

/// The word by which an implementation is recorded.
pub open spec fn result_word(s: Said) -> Seq<char> {
    match s.review_prep {
        Some(prep) => gates::prep_word(prep),
        None => if s.pr_num is Some {
            "pr_created"@
        } else {
            "no_pr"@
        },
    }
}

/// The checkpoint that is written as soon as there is a pull request, so that no second
/// one is made when the task is resumed.
pub open spec fn written_checkpoint(s: Said) -> Option<CheckpointView> {
    match s.pr_url {
        Some(pr_url) => Some(
            CheckpointView {
                pr_url,
                phase: match s.review_prep {
                    Some(prep) => gates::prep_word(prep),
                    None => "pr_created"@,
                },
            },
        ),
        None => None,
    }
}

/// What the task is known by outside once it has made an issue; nothing where that is
/// known already.
pub open spec fn new_external_id(t: TaskView, s: Said) -> Option<Seq<char>> {
    match s.created_issue_num {
        Some(n) => {
            let id = "issue:"@ + text::decimal(n);
            if t.makes_issues() && t.external_id != Some(id) {
                Some(id)
            } else {
                None
            }
        },
        None => None,
    }
}

/// The pull request that belongs to the task's issue.
pub open spec fn new_binding(t: TaskView, s: Said) -> Option<BindingView> {
    match (s.pr_url, t.issue, s.pr_num) {
        (Some(pr_url), Some(issue), Some(pr_num)) => Some(BindingView { issue, pr_num, pr_url }),
        _ => None,
    }
}

/// What is logged of a pull request.
pub open spec fn pr_log(s: Said) -> Seq<LogView> {
    match s.pr_url {
        Some(pr_url) => seq![LogView::PrDetected { pr_url }],
        None => seq![],
    }
}

/// What becomes of a task that named no pull request.
pub open spec fn without_pr(t: TaskView, output: Seq<char>) -> (ChangeView, EventView) {
    if text::trim(output, CharClass::White).len() == 0 {
        (
            task::moved(
                TaskStatus::Failed,
                Some(2),
                Some("empty agent output: no PR created and no output"@),
            ),
            implement::implement_event(
                Decision::Block,
                "implementation produced no output"@,
                None,
                None,
            ),
        )
    } else if t.needs_pr() {
        (
            task::moved(
                TaskStatus::Failed,
                Some(2),
                Some("no PR number found in agent output; task requires PR_URL"@),
            ),
            implement::implement_event(
                Decision::Block,
                "task required PR_URL but none was produced"@,
                None,
                Some(output),
            ),
        )
    } else {
        (
            task::moved(TaskStatus::Done, Some(2), None),
            implement::implement_event(
                Decision::Complete,
                "implementation completed without PR"@,
                None,
                Some(output),
            ),
        )
    }
}

/// What follows from an output that is in order.
pub open spec fn carried_on(t: TaskView, s: Said, pushed: bool, output: Seq<char>) -> ProcessedView {
    let (change, event) = match s.pr_num {
        Some(n) => (
            task::unchanged(),
            implement::implement_event(
                Decision::Complete,
                "implementation completed"@,
                Some(gates::pr_detail(n)),
                events::kept(output),
            ),
        ),
        None => without_pr(t, output),
    };
    ProcessedView {
        end: match s.pr_num {
            Some(pr_num) => EndView::Proceed {
                pr_url: s.pr_url,
                pr_num,
                pushed_commit: pushed,
                review_prep: s.review_prep,
            },
            None => EndView::Done,
        },
        change: change.and_pr(s.pr_url).and_round(
            1,
            "implement"@,
            result_word(s),
            events::kept(output),
        ),
        event: Some(event),
        log: if s.pr_num is Some {
            pr_log(s)
        } else {
            pr_log(s).push(LogView::Completed)
        },
        checkpoint: written_checkpoint(s),
        external_id: new_external_id(t, s),
        binding: new_binding(t, s),
    }
}

fn report_without_pr(t: &ImplementedTask, output: &str) -> (r: (TaskChange, TaskEvent))
    ensures
        (r.0@, r.1@) == without_pr(t@, output@),
{
    let chars = text::chars_of(output);
    if text::trimmed(chars.as_slice(), CharClass::White).len() == 0 {
        (
            TaskChange::to(
                TaskStatus::Failed,
                Some(2),
                Some("empty agent output: no PR created and no output".to_owned()),
            ),
            events::build_task_event(
                1,
                "implement",
                "task_implement",
                Decision::Block,
                Some("implementation produced no output".to_owned()),
                None,
                None,
            ),
        )
    } else if t.issue.is_some() || t.pr.is_some() {
        (
            TaskChange::to(
                TaskStatus::Failed,
                Some(2),
                Some("no PR number found in agent output; task requires PR_URL".to_owned()),
            ),
            events::build_task_event(
                1,
                "implement",
                "task_implement",
                Decision::Block,
                Some("task required PR_URL but none was produced".to_owned()),
                None,
                Some(output.to_owned()),
            ),
        )
    } else {
        (
            TaskChange::to(TaskStatus::Done, Some(2), None),
            events::build_task_event(
                1,
                "implement",
                "task_implement",
                Decision::Complete,
                Some("implementation completed without PR".to_owned()),
                None,
                Some(output.to_owned()),
            ),
        )
    }
}

fn changed_external_id(t: &ImplementedTask, created_issue_num: Option<u64>) -> (r: Option<String>)
    ensures
        forall|s: Said|
            s.created_issue_num == text::opt_number(created_issue_num) ==> text::opt_view(r)
                == #[trigger] new_external_id(t@, s),
{
    match created_issue_num {
        Some(n) => {
            if !t.makes_issues() {
                return None;
            }
            let mut id = "issue:".to_owned();
            id.append(text::decimal_text(n).as_str());
            if let Some(known) = &t.external_id {
                if text::str_eq(known.as_str(), id.as_str()) {
                    return None;
                }
            }
            Some(id)
        },
        None => None,
    }
}

fn carry_on(
    t: &ImplementedTask,
    pr_url: Option<String>,
    pr_num: Option<u64>,
    created_issue_num: Option<u64>,
    pushed: bool,
    review_prep: Option<PrReviewPrepOutcome>,
    output: &str,
) -> (r: Processed)
    ensures
        r@ == carried_on(
            t@,
            (Said {
                pr_url: text::opt_view(pr_url),
                pr_num: text::opt_number(pr_num),
                created_issue_num: text::opt_number(created_issue_num),
                review_prep: markers::opt_prep(review_prep),
            }),
            pushed,
            output@,
        ),
{
    let ghost s = Said {
        pr_url: text::opt_view(pr_url),
        pr_num: text::opt_number(pr_num),
        created_issue_num: text::opt_number(created_issue_num),
        review_prep: markers::opt_prep(review_prep),
    };
    let result: &'static str = match &review_prep {
        Some(prep) => gates::review_prep_label(prep),
        None => if pr_num.is_some() {
            "pr_created"
        } else {
            "no_pr"
        },
    };
    let (change, event) = match pr_num {
        Some(n) => {
            let mut detail = "pr=".to_owned();
            detail.append(text::decimal_text(n).as_str());
            (
                TaskChange::none(),
                events::build_task_event(
                    1,
                    "implement",
                    "task_implement",
                    Decision::Complete,
                    Some("implementation completed".to_owned()),
                    Some(detail),
                    events::kept_output(output),
                ),
            )
        },
        None => report_without_pr(t, output),
    };
    let change = change.with_pr(text::copy_opt(&pr_url)).with_round(
        1,
        "implement",
        result,
        events::kept_output(output),
    );
    let mut log = match &pr_url {
        Some(url) => logged(LogEntry::PrDetected { pr_url: url.clone() }),
        None => no_log(),
    };
    assert(log_views(log@) == pr_log(s));
    if pr_num.is_none() {
        let ghost before = log_views(log@);
        log.push(LogEntry::Completed);
        assert(log_views(log@) == before.push(LogView::Completed));
    }
    let checkpoint = match &pr_url {
        Some(url) => {
            let phase: &'static str = match &review_prep {
                Some(prep) => gates::review_prep_label(prep),
                None => "pr_created",
            };
            Some(Checkpoint { pr_url: url.clone(), phase })
        },
        None => None,
    };
    let binding = match (&pr_url, t.issue, pr_num) {
        (Some(url), Some(issue), Some(n)) => Some(
            PrBinding { issue, pr_num: n, pr_url: url.clone() },
        ),
        _ => None,
    };
    let external_id = changed_external_id(t, created_issue_num);
    assert(text::opt_view(external_id) == new_external_id(t@, s));
    let end = match pr_num {
        Some(n) => ImplementEnd::Proceed {
            pr_url,
            pr_num: n,
            pushed_commit: pushed,
            review_prep,
        },
        None => ImplementEnd::Done,
    };
    Processed { end, change, event: Some(event), log, checkpoint, external_id, binding }
}

/// The error of a task for a pull request whose output does not say what became of the
/// branch.
pub open spec fn no_rebase_error(pr: nat) -> Seq<char> {
    "PR #"@ + text::decimal(pr) + " preparation produced no rebase outcome sentinel"@
}

/// All that follows from the output of an implementation.
pub open spec fn processed(t: TaskView, output: Seq<char>) -> ProcessedView {
    if implement::collision(output) {
        collided(output)
    } else if t.reports() {
        reported(output)
    } else {
        match implement::outcome(output) {
            Err(e) => failed(
                "implementation returned malformed structured output: "@ + e,
                "malformed_output"@,
                "malformed structured output: "@ + e,
                output,
                seq![],
            ),
            Ok(OutcomeView::PlanIssue(plan_issue)) => replanned(t, plan_issue, output),
            Ok(
                OutcomeView::ParsedPr {
                    pr_url,
                    pr_num,
                    created_issue_num,
                    pushed_commit,
                    review_prep,
                },
            ) => if t.pr is Some && review_prep is None {
                failed(
                    no_rebase_error(t.pr->0),
                    "missing_rebase_outcome"@,
                    no_rebase_error(t.pr->0),
                    output,
                    seq![LogView::Failed { reason: "missing_rebase_outcome"@ }],
                )
            } else {
                match implement::pushed_flag(t.pr is Some, pushed_commit, review_prep) {
                    Err(e) => failed(e, "malformed_output"@, e, output, seq![]),
                    Ok(pushed) => carried_on(
                        t,
                        Said { pr_url, pr_num, created_issue_num, review_prep },
                        pushed,
                        output,
                    ),
                }
            },
        }
    }
}

/// All that follows from the output of an implementation, and how long that took.
pub fn process_implementation_output(
    t: &ImplementedTask,
    output: &str,
    telemetry: TurnTelemetry,
) -> (r: Processed)
    ensures
        r@ == processed(t@, output@).marked(telemetry::timed(telemetry)),
{
    process_output(t, output).marked(TurnMark::timed(telemetry))
}

/// All that follows from the output of an implementation.
fn process_output(t: &ImplementedTask, output: &str) -> (r: Processed)
    ensures
        r@ == processed(t@, output@),
{
    if implement::contains_worktree_collision_sentinel(output) {
        return report_collision(output);
    }
    if request::is_report_source(&t.source) {
        return report_review(output);
    }
    match implement::parse_implementation_outcome(output) {
        Err(e) => {
            let mut error = "implementation returned malformed structured output: ".to_owned();
            error.append(e.as_str());
            let mut reason = "malformed structured output: ".to_owned();
            reason.append(e.as_str());
            fail_task(error, "malformed_output", reason, output, no_log())
        },
        Ok(ImplementationOutcome::PlanIssue(plan_issue)) => {
            report_plan_issue(t, plan_issue, output)
        },
        Ok(
            ImplementationOutcome::ParsedPr {
                pr_url,
                pr_num,
                created_issue_num,
                pushed_commit,
                review_prep,
            },
        ) => {
            if let Some(pr) = t.pr {
                if review_prep.is_none() {
                    let mut error = "PR #".to_owned();
                    error.append(text::decimal_text(pr).as_str());
                    error.append(" preparation produced no rebase outcome sentinel");
                    let reason = error.clone();
                    let entry = LogEntry::Failed { reason: "missing_rebase_outcome".to_owned() };
                    return fail_task(
                        error,
                        "missing_rebase_outcome",
                        reason,
                        output,
                        logged(entry),
                    );
                }
            }
            let flag = implement::resolve_pushed_commit_flag(
                t.pr.is_some(),
                pushed_commit,
                review_prep.as_ref(),
            );
            match flag {
                Err(e) => {
                    let error = e.clone();
                    fail_task(error, "malformed_output", e, output, no_log())
                },
                Ok(pushed) => carry_on(
                    t,
                    pr_url,
                    pr_num,
                    created_issue_num,
                    pushed,
                    review_prep,
                    output,
                ),
            }
        },
    }
}

/// An output from a place that belongs to another session fails the task, whatever else
/// it says, so that nothing is done to the wrong pull request.
pub proof fn law_collision_stops_the_task(t: TaskView, output: Seq<char>)
    requires
        implement::collision(output),
    ensures
        processed(t, output).end is Done,
        processed(t, output).change.status == Some(TaskStatus::Failed),
        processed(t, output).change.failure_kind == Some(TaskFailureKind::WorkspaceLifecycle),
        processed(t, output).checkpoint is None,
        processed(t, output).binding is None,
{
}

/// Whatever an output says, one entry and one note are kept of it, and both say how long the
/// turn took. Only where the plan is made again is nothing kept.
pub proof fn law_every_output_is_recorded_once(
    t: TaskView,
    output: Seq<char>,
    telemetry: TurnTelemetry,
)
    ensures
        ({
            let kept = processed(t, output).marked(telemetry::timed(telemetry));
            if kept.end is Replan {
                kept.change.rounds.len() == 0 && kept.event is None
            } else {
                &&& kept.change.rounds.len() == 1
                &&& kept.change.rounds[0].mark == telemetry::timed(telemetry)
                &&& kept.event matches Some(e) && e.mark == telemetry::timed(telemetry)
            }
        }),
{
}

/// A review begins only with the pull request that the output names, and only after a
/// checkpoint and a log entry from which the task finds it again.
pub proof fn law_review_needs_a_recorded_pr(t: TaskView, output: Seq<char>)
    ensures
        processed(t, output).end matches EndView::Proceed { pr_url, pr_num, .. } ==> {
            &&& pr_url is Some && pr_url == markers::pr_url(output)
            &&& implement::named_pr(output) == Some(pr_num)
            &&& processed(t, output).checkpoint matches Some(c) && c.pr_url == pr_url->0
            &&& processed(t, output).log == seq![LogView::PrDetected { pr_url: pr_url->0 }]
            &&& processed(t, output).change.status is None
            &&& processed(t, output).change.pr_url == Some(pr_url)
        },
{
}

/// A task that has to name a pull request is never done without one: unless its plan is
/// made again, or it only reports, it fails.
pub proof fn law_required_pr_is_never_missing(t: TaskView, output: Seq<char>)
    requires
        t.needs_pr(),
        !t.reports(),
    ensures
        processed(t, output).end is Done ==> processed(t, output).change.status == Some(
            TaskStatus::Failed,
        ),
{
}

/// The check of a pull request goes on to a review only if it says what became of the
/// branch, and then it is known whether a commit was pushed.
pub proof fn law_pr_check_says_what_became_of_the_branch(t: TaskView, output: Seq<char>)
    requires
        t.pr is Some,
    ensures
        processed(t, output).end matches EndView::Proceed { review_prep, pushed_commit, .. } ==> {
            &&& review_prep is Some && review_prep == markers::review_prep(output)
            &&& implement::pushed_flag(
                true,
                markers::pushed_commit(output)->Ok_0,
                review_prep,
            ) == Ok::<bool, Seq<char>>(pushed_commit)
        },
{
}

/// A task that goes on to a review knows whether a commit was pushed: what the agent says of
/// it counts; where it says nothing, only a rebase that was pushed is one.
pub proof fn law_review_knows_whether_a_commit_was_pushed(t: TaskView, output: Seq<char>)
    ensures
        processed(t, output).end matches EndView::Proceed { pushed_commit, review_prep, .. } ==> {
            &&& markers::pushed_commit(output) is Ok
            &&& markers::pushed_commit(output) == Ok::<Option<bool>, Seq<char>>(Some(true))
                ==> pushed_commit
            &&& markers::pushed_commit(output) == Ok::<Option<bool>, Seq<char>>(Some(false))
                ==> !pushed_commit
            &&& markers::pushed_commit(output) == Ok::<Option<bool>, Seq<char>>(None) ==> (
            pushed_commit <==> markers::review_prep(output) == Some(PrepView::RebasePushed))
            &&& review_prep == markers::review_prep(output)
        },
{
}

/// When a task goes on to a review: its agent kept to its own place, the task does not only
/// report, the plan was good enough, the markers are in order, a pull request is named, and
/// the check of a pull request says what became of the branch.
pub proof fn law_review_begins_exactly_then(t: TaskView, output: Seq<char>)
    ensures
        processed(t, output).end is Proceed <==> {
            &&& !text::contains(output, "managed by another harness session"@)
            &&& !t.reports()
            &&& markers::plan_issue(output) is None
            &&& markers::pushed_commit(output) is Ok
            &&& markers::pr_url(output) is Some
            &&& markers::pr_number(markers::pr_url(output)->0) is Some
            &&& t.pr is Some ==> markers::review_prep(output) is Some
        },
{
}

/// A plan that is not good enough is made again for an issue, with what is wrong and the
/// plan that was followed; without an issue the task fails for it.
pub proof fn law_bad_plan_is_made_again(t: TaskView, output: Seq<char>)
    requires
        !text::contains(output, "managed by another harness session"@),
        !t.reports(),
        markers::plan_issue(output) is Some,
    ensures
        t.issue matches Some(issue) ==> processed(t, output).end == (EndView::Replan {
            issue,
            plan_issue: markers::plan_issue(output)->0,
            prior_plan: t.plan_output,
        }) && processed(t, output).change.status is None && processed(t, output).log.len() == 0,
        t.issue is None ==> processed(t, output).end is Done && processed(t, output).change.status
            == Some(TaskStatus::Failed) && processed(t, output).change.error
            == markers::plan_issue(output) && processed(t, output).change.rounds[0].result
            == "plan_issue"@,
        processed(t, output).checkpoint is None,
        processed(t, output).binding is None,
        processed(t, output).external_id is None,
{
}

/// What is stored beside the task, where the output is in order: a checkpoint and a log
/// entry for the pull request, its bond to the issue, and the issue that the agent made.
pub proof fn law_finds_are_stored(t: TaskView, output: Seq<char>)
    requires
        !text::contains(output, "managed by another harness session"@),
        !t.reports(),
        markers::plan_issue(output) is None,
        markers::pushed_commit(output) is Ok,
        t.pr is Some ==> markers::review_prep(output) is Some,
    ensures
        ({
            let p = processed(t, output);
            let url = markers::pr_url(output);
            let number = match url {
                Some(u) => markers::pr_number(u),
                None => None,
            };
            &&& p.change.pr_url == Some(url)
            &&& p.checkpoint is Some <==> url is Some
            &&& p.checkpoint matches Some(c) ==> c.pr_url == url->0 && c.phase == (
            match markers::review_prep(output) {
                None => "pr_created"@,
                Some(PrepView::RebasePushed) => "rebase_pushed"@,
                Some(PrepView::RebaseSkipped) => "rebase_skipped"@,
                Some(PrepView::RebaseConflict { .. }) => "rebase_conflict"@,
            })
            &&& p.binding is Some <==> t.issue is Some && number is Some
            &&& p.binding matches Some(b) ==> b.issue == t.issue->0 && b.pr_num == number->0
                && b.pr_url == url->0
            &&& p.external_id is Some ==> t.source == Some("auto-fix"@) && markers::created_issue(
                output,
            ) is Some && p.external_id == Some(
                "issue:"@ + text::decimal(markers::created_issue(output)->0),
            ) && t.external_id != p.external_id
            &&& t.source == Some("auto-fix"@) && (markers::created_issue(output) matches Some(n)
                && t.external_id != Some("issue:"@ + text::decimal(n))) ==> p.external_id is Some
            &&& p.log.len() == (if url is Some {
                1int
            } else {
                0
            }) + (if number is None {
                1int
            } else {
                0
            })
            &&& url matches Some(u) ==> p.log[0] == (LogView::PrDetected { pr_url: u })
            &&& number is None ==> p.log.last() == LogView::Completed
        }),
{
}

/// A task that named no pull request fails where its agent said nothing at all or the task
/// has to name one; else it is done. Either way its turn is the second.
pub proof fn law_without_a_pull_request(t: TaskView, output: Seq<char>)
    ensures
        ({
            let silent = text::trim(output, CharClass::White).len() == 0;
            let (change, event) = without_pr(t, output);
            &&& silent || t.issue is Some || t.pr is Some ==> change.status == Some(
                TaskStatus::Failed,
            ) && change.error is Some && event.decision == Decision::Block
            &&& !silent && t.issue is None && t.pr is None ==> change.status == Some(
                TaskStatus::Done,
            ) && change.error is None && event.decision == Decision::Complete
            &&& change.turn == Some(2nat)
            &&& event.content == (if silent {
                None
            } else {
                Some(output)
            })
        }),
{
}

/// An output whose markers are out of order fails the task with the reason, and begins no
/// review.
pub proof fn law_malformed_output_fails(t: TaskView, output: Seq<char>)
    requires
        !text::contains(output, "managed by another harness session"@),
        !t.reports(),
        markers::plan_issue(output) is None,
        markers::pushed_commit(output) is Err,
    ensures
        processed(t, output).end is Done,
        processed(t, output).change.status == Some(TaskStatus::Failed),
        processed(t, output).change.error == Some(
            "implementation returned malformed structured output: "@ + markers::pushed_commit(
                output,
            )->Err_0,
        ),
        processed(t, output).change.rounds[0].result == "malformed_output"@,
        processed(t, output).checkpoint is None,
{
}

/// A task that only reports is done with whatever its agent says, and logged as completed.
pub proof fn law_report_is_done(t: TaskView, output: Seq<char>)
    requires
        !text::contains(output, "managed by another harness session"@),
        t.reports(),
    ensures
        processed(t, output).end is Done,
        processed(t, output).change.status == Some(TaskStatus::Done),
        processed(t, output).change.turn == Some(1nat),
        processed(t, output).change.rounds[0].action == "review"@,
        processed(t, output).change.rounds[0].result == "completed"@,
        processed(t, output).log == seq![LogView::Completed],
        output.len() > 0 ==> processed(t, output).change.rounds[0].detail == Some(output),
{
}

/// An implementation is recorded by what became of the branch, or by whether there is a
/// pull request, and with all that its agent said.
pub proof fn law_result_tells_what_was_made(s: Said)
    ensures
        s.review_prep == Some(PrepView::RebasePushed) ==> result_word(s) == "rebase_pushed"@,
        s.review_prep == Some(PrepView::RebaseSkipped) ==> result_word(s) == "rebase_skipped"@,
        s.review_prep matches Some(PrepView::RebaseConflict { .. }) ==> result_word(s)
            == "rebase_conflict"@,
        s.review_prep is None && s.pr_num is Some ==> result_word(s) == "pr_created"@,
        s.review_prep is None && s.pr_num is None ==> result_word(s) == "no_pr"@,
{
}

/// The pull request that a strayed agent names is kept for cleaning up, unless its output
/// speaks of the plan or its markers are out of order.
pub proof fn law_strayed_agent_keeps_its_pull_request(t: TaskView, output: Seq<char>)
    requires
        text::contains(output, "managed by another harness session"@),
    ensures
        processed(t, output).change.turn == Some(1nat),
        processed(t, output).change.rounds[0].result == "worktree_collision"@,
        markers::plan_issue(output) is None && markers::pushed_commit(output) is Ok ==> processed(
            t,
            output,
        ).change.pr_url == Some(markers::pr_url(output)),
        markers::plan_issue(output) is Some || markers::pushed_commit(output) is Err ==> processed(
            t,
            output,
        ).change.pr_url == Some(None::<Seq<char>>),
        processed(t, output).log.len() == 0,
{
}

/// Tasks that repair what they find make issues of their own; what is stored is seen as it is.
pub proof fn law_stored_things_are_seen_as_they_are(
    t: TaskView,
    log: Seq<LogEntry>,
    i: int,
    b: PrBinding,
    c: Checkpoint,
    e: TaskEvent,
)
    ensures
        t.makes_issues() <==> t.source == Some("auto-fix"@),
        t.needs_pr() <==> t.issue is Some || t.pr is Some,
        t.reports() <==> t.source == Some("periodic_review"@) || t.source == Some(
            "sprint_planner"@,
        ),
        log_views(log).len() == log.len(),
        0 <= i < log.len() ==> log_views(log)[i] == log[i]@,
        opt_binding(Some(b)) == Some(b@),
        opt_binding(None) is None,
        b@.issue == b.issue,
        b@.pr_num == b.pr_num,
        b@.pr_url == b.pr_url@,
        opt_checkpoint(Some(c)) == Some(c@),
        opt_checkpoint(None) is None,
        c@.pr_url == c.pr_url@,
        c@.phase == c.phase@,
        opt_event(Some(e)) == Some(e@),
        opt_event(None) is None,
{
}

/// What came of an implementation is recorded in the first turn, with what was written; a task
/// that ends by it does so in the second.
pub proof fn law_implementation_is_recorded_in_its_turn(
    t: TaskView,
    s: Said,
    pushed: bool,
    error: Seq<char>,
    result: Seq<char>,
    reason: Seq<char>,
    output: Seq<char>,
    log: Seq<LogView>,
)
    ensures
        ({
            let f = failed(error, result, reason, output, log);
            &&& f.end == EndView::Done
            &&& f.change.status == Some(TaskStatus::Failed)
            &&& f.change.turn == Some(2nat)
            &&& f.change.error == Some(error)
            &&& f.change.rounds.len() == 1
            &&& f.change.rounds[0].turn == 1
            &&& f.change.rounds[0].action == "implement"@
            &&& f.change.rounds[0].result == result
            &&& f.change.rounds[0].detail == events::kept(output)
            &&& f.event matches Some(e) && e.turn == Some(1nat) && e.decision == Decision::Block
                && e.reason == Some(reason) && e.content == events::kept(output)
            &&& f.log == log
            &&& f.checkpoint is None && f.external_id is None && f.binding is None
        }),
        ({
            let c = carried_on(t, s, pushed, output).change;
            &&& c.rounds.len() == 1
            &&& c.rounds[0].turn == 1
            &&& c.rounds[0].action == "implement"@
            &&& c.rounds[0].result == result_word(s)
            &&& c.rounds[0].detail == events::kept(output)
            &&& c.pr_url == Some(s.pr_url)
            &&& s.pr_num is None ==> c.turn == Some(2nat) && c.status is Some
            &&& s.pr_num is Some ==> c.turn is None && c.status is None && c.error is None
        }),
{
}

} // verus!
