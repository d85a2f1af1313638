//! What comes before an implementation: a look at the issue, and a plan.

use crate::settings::TriageComplexity;
use crate::task;
use crate::task::{ChangeView, TaskChange, TaskStatus};
use crate::text;
use vstd::prelude::*;
use vstd::string::*;

verus! {

/// How far a task is.
#[derive(Clone, Copy, Debug, PartialEq, Eq, Structural)]
pub enum TaskPhase {
    Triage,
    Plan,
    Implement,
    Terminal,
}

/// What a look at an issue came to.
#[derive(Clone, Copy, Debug, PartialEq, Eq, Structural)]
pub enum TriageDecision {
    Skip,
    NeedsClarification,
    Proceed,
    ProceedWithPlan,
}

/// What is stored of a task on its way to an implementation.
#[derive(Debug)]
pub struct PlanChange {
    pub change: TaskChange,
    pub phase: Option<TaskPhase>,
    pub triage_output: Option<String>,
    pub plan_output: Option<String>,
    /// The checkpoint that is written.
    pub checkpoint: Option<&'static str>,
}

/// What a [`PlanChange`] holds.
pub struct PlanChangeView {
    pub change: ChangeView,
    pub phase: Option<TaskPhase>,
    pub triage_output: Option<Seq<char>>,
    pub plan_output: Option<Seq<char>>,
    pub checkpoint: Option<Seq<char>>,
}

impl View for PlanChange {
    type V = PlanChangeView;

    open spec fn view(&self) -> PlanChangeView {
        PlanChangeView {
            change: self.change@,
            phase: self.phase,
            triage_output: text::opt_view(self.triage_output),
            plan_output: text::opt_view(self.plan_output),
            checkpoint: text::opt_text(self.checkpoint),
        }
    }
}

/// Where a plan comes from.
#[derive(Debug)]
pub enum PlanSource {
    /// There is none, and none is needed.
    NoPlan,
    /// One was made before.
    Saved { plan: String },
    /// The issue is looked at first.
    Triage { issue: u64 },
    /// One is made for a text.
    PromptPlan,
}

/// What a [`PlanSource`] holds.
pub enum SourceView {
    NoPlan,
    Saved { plan: Seq<char> },
    Triage { issue: nat },
    PromptPlan,
}

impl View for PlanSource {
    type V = SourceView;

    open spec fn view(&self) -> SourceView {
        match self {
            PlanSource::NoPlan => SourceView::NoPlan,
            PlanSource::Saved { plan } => SourceView::Saved { plan: plan@ },
            PlanSource::Triage { issue } => SourceView::Triage { issue: *issue as nat },
            PlanSource::PromptPlan => SourceView::PromptPlan,
        }
    }
}

/// Where a plan comes from. A task with a pull request needs none; a plan that was made
/// before is used again; an issue without a pull request is looked at first; a text gets
/// a plan where one was asked for.
pub open spec fn plan_source(
    has_resumed_pr: bool,
    resumed_plan: Option<Seq<char>>,
    issue: Option<nat>,
    pr: Option<nat>,
    has_existing_pr: bool,
    forced_plan: bool,
) -> SourceView {
    if has_resumed_pr {
        SourceView::NoPlan
    } else if resumed_plan is Some {
        SourceView::Saved { plan: resumed_plan->0 }
    } else if issue is Some {
        if has_existing_pr {
            SourceView::NoPlan
        } else {
            SourceView::Triage { issue: issue->0 }
        }
    } else if forced_plan && pr is None {
        SourceView::PromptPlan
    } else {
        SourceView::NoPlan
    }
}

/// Where a plan comes from. `has_existing_pr` tells whether a pull request was found for
/// the issue; a search that failed found none.
pub fn resolve_plan(
    has_resumed_pr: bool,
    resumed_plan: Option<String>,
    issue: Option<u64>,
    pr: Option<u64>,
    has_existing_pr: bool,
    forced_plan: bool,
) -> (r: PlanSource)
    ensures
        r@ == plan_source(
            has_resumed_pr,
            text::opt_view(resumed_plan),
            text::opt_number(issue),
            text::opt_number(pr),
            has_existing_pr,
            forced_plan,
        ),
{
    if has_resumed_pr {
        return PlanSource::NoPlan;
    }
    if let Some(plan) = resumed_plan {
        return PlanSource::Saved { plan };
    }
    match issue {
        Some(issue) => if has_existing_pr {
            PlanSource::NoPlan
        } else {
            PlanSource::Triage { issue }
        },
        None => if forced_plan && pr.is_none() {
            PlanSource::PromptPlan
        } else {
            PlanSource::NoPlan
        },
    }
}

/// What follows from a look at an issue.
#[derive(Debug)]
pub enum TriageStep {
    /// The task ends, with this error.
    Stop { error: String },
    /// The issue is implemented without a plan.
    Implement,
    /// A plan is made.
    Plan,
}

/// What a [`TriageStep`] holds.
pub enum TriageStepView {
    Stop { error: Seq<char> },
    Implement,
    Plan,
}

impl View for TriageStep {
    type V = TriageStepView;

    open spec fn view(&self) -> TriageStepView {
        match self {
            TriageStep::Stop { error } => TriageStepView::Stop { error: error@ },
            TriageStep::Implement => TriageStepView::Implement,
            TriageStep::Plan => TriageStepView::Plan,
        }
    }
}

/// What follows from a look at an issue. `decision` is `None` where the answer could not
/// be understood.
pub open spec fn triage_step(issue: nat, decision: Option<TriageDecision>) -> TriageStepView {
    match decision {
        None => TriageStepView::Stop {
            error: "triage output unparseable \u{2014} agent did not produce TRIAGE=<decision>"@,
        },
        Some(TriageDecision::Skip) => TriageStepView::Stop {
            error: "triage decided to skip issue #"@ + text::decimal(issue),
        },
        Some(TriageDecision::NeedsClarification) => TriageStepView::Stop {
            error: "triage requires clarification on issue #"@ + text::decimal(issue),
        },
        Some(TriageDecision::Proceed) => TriageStepView::Implement,
        Some(TriageDecision::ProceedWithPlan) => TriageStepView::Plan,
    }
}

/// What is stored after a look at an issue.
pub open spec fn triage_change(output: Seq<char>, decision: Option<TriageDecision>) -> PlanChangeView {
    PlanChangeView {
        change: match decision {
            Some(TriageDecision::Skip) => task::moved(
                TaskStatus::Done,
                None,
                Some("Triage: skipped \u{2014} not worth implementing"@),
            ),
            Some(TriageDecision::NeedsClarification) => task::moved(
                TaskStatus::Failed,
                None,
                Some("Triage: needs clarification before implementation"@),
            ),
            _ => task::unchanged(),
        },
        phase: match decision {
            Some(TriageDecision::Skip) => Some(TaskPhase::Terminal),
            Some(TriageDecision::NeedsClarification) => Some(TaskPhase::Terminal),
            Some(TriageDecision::ProceedWithPlan) => Some(TaskPhase::Plan),
            _ => None,
        },
        triage_output: Some(output),
        plan_output: None,
        checkpoint: Some("triage_done"@),
    }
}

/// What follows from a look at an issue, and what is stored of it.
pub fn triage_answered(issue: u64, output: String, decision: Option<TriageDecision>) -> (r: (
    TriageStep,
    PlanChange,
))
    ensures
        r.0@ == triage_step(issue as nat, decision),
        r.1@ == triage_change(output@, decision),
{
    let (step, change, phase) = match decision {
        None => {
            let error =
                "triage output unparseable \u{2014} agent did not produce TRIAGE=<decision>".to_owned();
            (TriageStep::Stop { error }, TaskChange::none(), None)
        },
        Some(TriageDecision::Skip) => {
            let mut error = "triage decided to skip issue #".to_owned();
            error.append(text::decimal_text(issue).as_str());
            let stored = "Triage: skipped \u{2014} not worth implementing".to_owned();
            (
                TriageStep::Stop { error },
                TaskChange::to(TaskStatus::Done, None, Some(stored)),
                Some(TaskPhase::Terminal),
            )
        },
        Some(TriageDecision::NeedsClarification) => {
            let mut error = "triage requires clarification on issue #".to_owned();
            error.append(text::decimal_text(issue).as_str());
            let stored = "Triage: needs clarification before implementation".to_owned();
            (
                TriageStep::Stop { error },
                TaskChange::to(TaskStatus::Failed, None, Some(stored)),
                Some(TaskPhase::Terminal),
            )
        },
        Some(TriageDecision::Proceed) => (TriageStep::Implement, TaskChange::none(), None),
        Some(TriageDecision::ProceedWithPlan) => (
            TriageStep::Plan,
            TaskChange::none(),
            Some(TaskPhase::Plan),
        ),
    };
    let stored = PlanChange {
        change,
        phase,
        triage_output: Some(output),
        plan_output: None,
        checkpoint: Some("triage_done"),
    };
    (step, stored)
}

/// What is stored of a plan. One for an issue has a checkpoint.
pub open spec fn plan_change(plan: Seq<char>, for_issue: bool) -> PlanChangeView {
    PlanChangeView {
        change: task::unchanged(),
        phase: Some(TaskPhase::Implement),
        triage_output: None,
        plan_output: Some(plan),
        checkpoint: if for_issue {
            Some("plan_done"@)
        } else {
            None
        },
    }
}

/// What is stored of a plan.
pub fn plan_answered(plan: String, for_issue: bool) -> (r: PlanChange)
    ensures
        r@ == plan_change(plan@, for_issue),
{
    let checkpoint: Option<&'static str> = if for_issue {
        Some("plan_done")
    } else {
        None
    };
    PlanChange {
        change: TaskChange::none(),
        phase: Some(TaskPhase::Implement),
        triage_output: None,
        plan_output: Some(plan),
        checkpoint,
    }
}

/// What is stored when a phase begins.
pub fn begin_phase(phase: TaskPhase) -> (r: PlanChange)
    ensures
        r@ == (PlanChangeView {
            change: task::unchanged(),
            phase: Some(phase),
            triage_output: None,
            plan_output: None,
            checkpoint: None,
        }),
{
    PlanChange {
        change: TaskChange::none(),
        phase: Some(phase),
        triage_output: None,
        plan_output: None,
        checkpoint: None,
    }
}

/// A look at an issue always says how the task goes on: it ends, with an error, or it
/// goes on, and then nothing of its status has changed.
pub proof fn law_triage_never_fails_silently(
    issue: nat,
    output: Seq<char>,
    decision: Option<TriageDecision>,
)
    ensures
        triage_step(issue, decision) is Stop <==> decision is None || decision == Some(
            TriageDecision::Skip,
        ) || decision == Some(TriageDecision::NeedsClarification),
        triage_step(issue, decision) !is Stop ==> triage_change(output, decision).change
            == task::unchanged(),
        triage_change(output, decision).change.status matches Some(s) ==> s.terminal(),
        triage_change(output, decision).change.status is Some ==> triage_step(
            issue,
            decision,
        ) is Stop,
{
}

/// The prompt for a plan.
pub open spec fn plan_prompt(task: Seq<char>) -> Seq<char> {
    "Before implementing, produce a concise implementation plan for the following task.\nList the files to change, the approach, and any non-obvious design decisions.\nDo NOT write code yet \u{2014} planning only.\n\nTask:\n"@
        + task
}

/// The prompt for a plan.
pub fn plan_prompt_for_task(task: &str) -> (r: String)
    ensures
        r@ == plan_prompt(task@),
{
    let mut out =
        "Before implementing, produce a concise implementation plan for the following task.\nList the files to change, the approach, and any non-obvious design decisions.\nDo NOT write code yet \u{2014} planning only.\n\nTask:\n".to_owned();
    out.append(task);
    out
}

/// What went wrong in a phase.
#[derive(Debug)]
pub enum PhaseFault {
    TimedOut { secs: u64 },
    Failed { error: String },
}

/// The error of a phase, by its name.
pub open spec fn phase_error(name: Seq<char>, fault: PhaseFault) -> Seq<char> {
    match fault {
        PhaseFault::TimedOut { secs } => name + " phase timed out after "@ + text::decimal(
            secs as nat,
        ) + "s"@,
        PhaseFault::Failed { error } => name + " phase agent error: "@ + error@,
    }
}

/// The error of a phase, by its name.
pub fn phase_error_text(name: &str, fault: PhaseFault) -> (r: String)
    ensures
        r@ == phase_error(name@, fault),
{
    let mut e = name.to_owned();
    match fault {
        PhaseFault::TimedOut { secs } => {
            e.append(" phase timed out after ");
            e.append(text::decimal_text(secs).as_str());
            e.append("s");
        },
        PhaseFault::Failed { error } => {
            e.append(" phase agent error: ");
            e.append(error.as_str());
        },
    }
    e
}

/// What a task is resumed with.
#[derive(Debug)]
pub struct ResumeState {
    pub pr_url: Option<String>,
    pub plan: Option<String>,
    pub repo_slug: String,
}

/// What a task is resumed with: the pull request that is stored with it, else that of
/// its checkpoint; and the checkpoint's plan.
pub fn resume_state(
    stored_pr_url: Option<String>,
    checkpoint_pr_url: Option<String>,
    checkpoint_plan: Option<String>,
    detected_slug: Option<String>,
) -> (r: ResumeState)
    ensures
        text::opt_view(r.pr_url) == (if stored_pr_url is Some {
            text::opt_view(stored_pr_url)
        } else {
            text::opt_view(checkpoint_pr_url)
        }),
        text::opt_view(r.plan) == text::opt_view(checkpoint_plan),
        r.repo_slug@ == (match detected_slug {
            Some(s) => s@,
            None => "{owner}/{repo}"@,
        }),
{
    let pr_url = if stored_pr_url.is_some() {
        stored_pr_url
    } else {
        checkpoint_pr_url
    };
    let repo_slug = match detected_slug {
        Some(s) => s,
        None => "{owner}/{repo}".to_owned(),
    };
    ResumeState { pr_url, plan: checkpoint_plan, repo_slug }
}

/// The error of a task whose project cannot be read.
pub fn project_config_error(task_id: &str, project: &str) -> (r: String)
    ensures
        r@ == "failed to load project config for task "@ + task_id@ + " at "@ + project@,
{
    let mut e = "failed to load project config for task ".to_owned();
    e.append(task_id);
    e.append(" at ");
    e.append(project);
    e
}

/// What comes after an implementation.
#[derive(Debug)]
pub enum NextStep {
    /// The agents review the pull request.
    AgentReview,
    /// The hosted review is waited for.
    HostedReview { wait_secs: u64, max_rounds: u32, agent_pushed_commit: bool },
    /// The task is over.
    Over { change: TaskChange },
}

/// What a [`NextStep`] holds.
pub enum NextView {
    AgentReview,
    HostedReview { wait_secs: u64, max_rounds: u32, agent_pushed_commit: bool },
    Over { change: ChangeView },
}

impl View for NextStep {
    type V = NextView;

    open spec fn view(&self) -> NextView {
        match self {
            NextStep::AgentReview => NextView::AgentReview,
            NextStep::HostedReview { wait_secs, max_rounds, agent_pushed_commit } =>
                NextView::HostedReview {
                wait_secs: *wait_secs,
                max_rounds: *max_rounds,
                agent_pushed_commit: *agent_pushed_commit,
            },
            NextStep::Over { change } => NextView::Over { change: change@ },
        }
    }
}

/// How a pull request is reviewed.
#[derive(Clone, Copy, Debug, PartialEq, Eq, Structural)]
pub struct ReviewPlan {
    /// Whether the agents review, and an agent is there for it.
    pub enabled: bool,
    pub has_reviewer: bool,
    /// Whether a hosted review is waited for.
    pub hosted: bool,
    pub wait_secs: u64,
    pub max_rounds: u32,
}

/// What comes after the agents' review, or in its place.
pub open spec fn after_review(plan: ReviewPlan, pushed: bool) -> NextView {
    if plan.hosted {
        NextView::HostedReview {
            wait_secs: plan.wait_secs,
            max_rounds: plan.max_rounds,
            agent_pushed_commit: pushed,
        }
    } else {
        NextView::Over { change: task::moved(TaskStatus::Done, Some(2), None) }
    }
}

/// What comes after an implementation.
pub open spec fn after_implement(plan: ReviewPlan) -> NextView {
    if plan.enabled && plan.has_reviewer {
        NextView::AgentReview
    } else {
        after_review(plan, false)
    }
}

impl ReviewPlan {
    /// The plan by what the configuration, the project and the request say.
    pub fn new(
        enabled: bool,
        has_reviewer: bool,
        hosted: bool,
        project_wait_secs: Option<u64>,
        request_wait_secs: u64,
        project_max_rounds: Option<u32>,
        request_max_rounds: Option<u32>,
        complexity: TriageComplexity,
    ) -> (r: ReviewPlan)
        ensures
            r.enabled == enabled,
            r.has_reviewer == has_reviewer,
            r.hosted == hosted,
            r.wait_secs == (match project_wait_secs {
                Some(n) => n,
                None => request_wait_secs,
            }),
            r.max_rounds == (match (project_max_rounds, request_max_rounds) {
                (Some(n), _) => n,
                (None, Some(n)) => n,
                (None, None) => complexity.rounds(),
            }),
    {
        let wait_secs: u64 = match project_wait_secs {
            Some(n) => n,
            None => request_wait_secs,
        };
        let max_rounds: u32 = match project_max_rounds {
            Some(n) => n,
            None => match request_max_rounds {
                Some(n) => n,
                None => complexity.default_rounds(),
            },
        };
        ReviewPlan { enabled, has_reviewer, hosted, wait_secs, max_rounds }
    }

    /// What comes after an implementation.
    pub fn after_implementation(self) -> (r: NextStep)
        ensures
            r@ == after_implement(self),
    {
        if self.enabled && self.has_reviewer {
            NextStep::AgentReview
        } else {
            self.after_agent_review(false)
        }
    }

    /// What comes after the agents' review, or in its place.
    pub fn after_agent_review(self, agent_pushed_commit: bool) -> (r: NextStep)
        ensures
            r@ == after_review(self, agent_pushed_commit),
    {
        if self.hosted {
            NextStep::HostedReview {
                wait_secs: self.wait_secs,
                max_rounds: self.max_rounds,
                agent_pushed_commit,
            }
        } else {
            NextStep::Over { change: TaskChange::to(TaskStatus::Done, Some(2), None) }
        }
    }
}

/// Every review that is configured is made before the task is done, the agents' before
/// the hosted one.
pub proof fn law_configured_reviews_come_first(plan: ReviewPlan, pushed: bool)
    ensures
        plan.enabled && plan.has_reviewer ==> after_implement(plan) is AgentReview,
        plan.hosted ==> after_implement(plan) !is Over && after_review(plan, pushed) !is Over,
        after_implement(plan) is Over ==> !plan.hosted && !(plan.enabled && plan.has_reviewer),
{
}

/// The turns that a task has taken, over all its attempts: those of the attempts before,
/// and those of this attempt's triage and plan.
pub fn carried_turns(before: u32, pipeline_turns: u32) -> (r: u32)
    requires
        before + pipeline_turns <= u32::MAX,
    ensures
        r == before + pipeline_turns,
{
    before + pipeline_turns
}

/// The error of a task whose project is not there.
pub fn missing_project_error(project: &str) -> (r: String)
    ensures
        r@ == "project_root does not exist: "@ + project@,
{
    let mut e = "project_root does not exist: ".to_owned();
    e.append(project);
    e
}

/// Where a plan comes from. A pull request to go on with, given or found, needs none; a plan
/// that was made before is used before the issue is looked at again; a text gets a plan
/// only where one was asked for and no pull request is given.
pub proof fn law_plan_is_made_only_where_needed(
    plan: Option<Seq<char>>,
    issue: nat,
    pr: Option<nat>,
    existing: bool,
    forced: bool,
    any: Option<nat>,
)
    ensures
        plan_source(true, plan, any, pr, existing, forced) is NoPlan,
        plan matches Some(p) ==> plan_source(false, plan, any, pr, existing, forced) == (
        SourceView::Saved { plan: p }),
        plan_source(false, None, Some(issue), pr, false, forced) == (SourceView::Triage { issue }),
        plan_source(false, None, Some(issue), pr, true, forced) is NoPlan,
        plan_source(false, None, None, None, existing, true) is PromptPlan,
        plan_source(false, None, None, pr, existing, false) is NoPlan,
        pr is Some ==> plan_source(false, None, None, pr, existing, forced) is NoPlan,
{
}

/// A look at an issue decides: go on, make a plan, or stop, and then the issue is named.
/// What the agent said of it is kept in every case, and a checkpoint is written.
pub proof fn law_triage_decides(issue: nat, output: Seq<char>, decision: Option<TriageDecision>)
    ensures
        triage_step(issue, Some(TriageDecision::Proceed)) is Implement,
        triage_step(issue, Some(TriageDecision::ProceedWithPlan)) is Plan,
        triage_step(issue, Some(TriageDecision::Skip)) == (TriageStepView::Stop {
            error: "triage decided to skip issue #"@ + text::decimal(issue),
        }),
        triage_step(issue, Some(TriageDecision::NeedsClarification)) == (TriageStepView::Stop {
            error: "triage requires clarification on issue #"@ + text::decimal(issue),
        }),
        triage_step(issue, None) is Stop,
        triage_change(output, decision).triage_output == Some(output),
        triage_change(output, decision).plan_output is None,
        triage_change(output, decision).checkpoint == Some("triage_done"@),
        triage_change(output, Some(TriageDecision::Skip)).change.status == Some(TaskStatus::Done),
        triage_change(output, Some(TriageDecision::NeedsClarification)).change.status == Some(
            TaskStatus::Failed,
        ),
        triage_change(output, None).change.status is None,
        triage_change(output, Some(TriageDecision::Skip)).phase == Some(TaskPhase::Terminal),
        triage_change(output, Some(TriageDecision::NeedsClarification)).phase == Some(
            TaskPhase::Terminal,
        ),
        triage_change(output, Some(TriageDecision::ProceedWithPlan)).phase == Some(TaskPhase::Plan),
        triage_change(output, Some(TriageDecision::Proceed)).phase is None,
        triage_change(output, None).phase is None,
{
}

/// A plan is kept as the agent gave it, and the implementation comes next; only a plan for
/// an issue leaves a checkpoint.
pub proof fn law_plan_is_kept(plan: Seq<char>, for_issue: bool)
    ensures
        plan_change(plan, for_issue).plan_output == Some(plan),
        plan_change(plan, for_issue).triage_output is None,
        plan_change(plan, for_issue).phase == Some(TaskPhase::Implement),
        plan_change(plan, true).checkpoint == Some("plan_done"@),
        plan_change(plan, false).checkpoint is None,
        plan_change(plan, for_issue).change.status is None,
        plan_change(plan, for_issue).change.rounds.len() == 0,
{
}

/// The prompt for a plan ends in the task itself; the error of a phase begins with its name.
pub proof fn law_plan_prompt_ends_in_the_task(task: Seq<char>, name: Seq<char>, fault: PhaseFault)
    ensures
        text::ends_with(plan_prompt(task), task),
        plan_prompt(task).len() > task.len(),
        text::starts_with(phase_error(name, fault), name),
        fault matches PhaseFault::TimedOut { secs } ==> phase_error(name, fault) == name
            + " phase timed out after "@ + text::decimal(secs as nat) + "s"@,
        fault matches PhaseFault::Failed { error } ==> phase_error(name, fault) == name
            + " phase agent error: "@ + error@,
{
    let p = plan_prompt(task);
    assert(p.skip(p.len() - task.len()) == task);
    let e = phase_error(name, fault);
    assert(e.take(name.len() as int) == name);
    reveal_strlit("Before implementing, produce a concise implementation plan for the following task.\nList the files to change, the approach, and any non-obvious design decisions.\nDo NOT write code yet \u{2014} planning only.\n\nTask:\n");
}

/// The hosted review is waited for exactly where it is configured, as long and as often as
/// the plan says; else the task is done.
pub proof fn law_review_plan_is_followed(plan: ReviewPlan, pushed: bool)
    ensures
        plan.hosted ==> after_review(plan, pushed) == (NextView::HostedReview {
            wait_secs: plan.wait_secs,
            max_rounds: plan.max_rounds,
            agent_pushed_commit: pushed,
        }),
        !plan.hosted ==> (after_review(plan, pushed) matches NextView::Over { change }
            && change.status == Some(TaskStatus::Done) && change.turn == Some(2nat)
            && change.error is None),
        after_implement(plan) is AgentReview <==> plan.enabled && plan.has_reviewer,
        !(plan.enabled && plan.has_reviewer) ==> after_implement(plan) == after_review(plan, false),
{
}

/// A look at an issue that came to nothing says so, and so does one that ends the task: what
/// cannot be read, what is not worth doing, what has to be cleared up first.
pub proof fn law_triage_says_why_it_stops(issue: nat, output: Seq<char>)
    ensures
        triage_step(issue, None) == (TriageStepView::Stop {
            error: "triage output unparseable \u{2014} agent did not produce TRIAGE=<decision>"@,
        }),
        triage_change(output, Some(TriageDecision::Skip)).change.error == Some(
            "Triage: skipped \u{2014} not worth implementing"@,
        ),
        triage_change(output, Some(TriageDecision::NeedsClarification)).change.error == Some(
            "Triage: needs clarification before implementation"@,
        ),
        triage_change(output, Some(TriageDecision::Proceed)).change.status is None,
        triage_change(output, Some(TriageDecision::ProceedWithPlan)).change.status is None,
        triage_change(output, Some(TriageDecision::Proceed)).change.error is None,
        triage_change(output, Some(TriageDecision::ProceedWithPlan)).change.error is None,
{
}

} // verus!
