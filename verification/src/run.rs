//! The way of a task from its request to its end.
//!
//! [`TaskRun`] decides what is done next; its caller does it, and says what came of it.

use crate::gates;
use crate::gates::{ConflictGateOutcome, EntryView, ReviewEntryDecision};
use crate::markers;
use crate::outcome::ImplementEnd;
use crate::pipeline::{NextStep, PlanSource, ReviewPlan, SourceView};
use crate::plan_run::{PlanStage, PlanStep, PlanStepView};
use crate::task;
use crate::task::{TaskChange, TaskStatus};
use vstd::prelude::*;

verus! {

/// What is done with a task.
#[derive(Clone, Copy, Debug, PartialEq, Eq, Structural)]
pub enum RunStage {
    /// It is found out what there is to begin with.
    Begin,
    /// The issue is looked at.
    Triage { issue: u64 },
    /// A plan is made.
    Plan { for_issue: bool },
    /// The task is implemented.
    Implement,
    /// A pull request that an earlier attempt left is looked at for conflicts.
    ConflictGate { pr_num: u64, pushed_commit: bool },
    /// The agents review the pull request.
    AgentReview { pr_num: u64, pushed_commit: bool },
    /// The hosted review is waited for.
    HostedReview { pr_num: u64, agent_pushed_commit: bool },
    /// The pull request that the agents approved has to pass the local checks.
    LocalChecks { pr_num: u64 },
    /// No review was made of the pull request, so that the task fails.
    NoLocalReview { pr_num: u64 },
    /// The task's end is stored.
    Done,
    /// The task stopped with an error.
    Stopped,
}

/// What came of a stage.
#[derive(Clone, Copy, Debug, PartialEq, Eq, Structural)]
pub enum RunEvent {
    /// The stage failed with an error.
    Failed,
    /// There is nothing to plan, or a plan already.
    NoPlanNeeded,
    /// The issue has to be looked at.
    TriageNeeded { issue: u64 },
    /// A plan is wanted, though there is no issue.
    PlanNeeded,
    /// The issue can be implemented without a plan.
    TriagedWithoutPlan,
    /// The issue needs a plan.
    TriagedWithPlan,
    /// The plan is made.
    Planned,
    /// The implementation ended the task.
    ImplementationOver,
    /// The plan was not good enough. It is made again, or followed all the same.
    PlanRejected { plan_again: bool },
    /// The implementation has a pull request whose branch has conflicts.
    PrConflicts,
    /// The implementation has a pull request.
    PrReady { pr_num: u64, pushed_commit: bool },
    /// An earlier attempt left a pull request.
    PrResumed { pr_num: u64, pushed_commit: bool },
    /// The look for conflicts is over; where it failed, the task's end is stored.
    Gated { outcome: ConflictGateOutcome },
    /// The agents' review is over; where it failed, the task's end is stored.
    Reviewed { passed: bool, pushed_commit: bool },
    /// The hosted review ended the task.
    HostedReviewOver,
    /// The end without a hosted review is stored.
    LocalEndStored,
}

/// How far a stage is from the beginning.
pub open spec fn rank(stage: RunStage) -> nat {
    match stage {
        RunStage::Begin => 0,
        RunStage::Triage { .. } => 1,
        RunStage::Plan { .. } => 2,
        RunStage::Implement => 3,
        RunStage::ConflictGate { .. } => 4,
        RunStage::AgentReview { .. } => 5,
        RunStage::HostedReview { .. } => 6,
        RunStage::LocalChecks { .. } => 6,
        RunStage::NoLocalReview { .. } => 6,
        RunStage::Done => 7,
        RunStage::Stopped => 7,
    }
}

/// Whether a stage is the last one.
pub open spec fn is_end(stage: RunStage) -> bool {
    stage is Done || stage is Stopped
}

/// Whether something can come of a stage.
pub open spec fn fits(stage: RunStage, event: RunEvent) -> bool {
    match event {
        RunEvent::Failed => !is_end(stage),
        RunEvent::NoPlanNeeded => stage is Begin,
        RunEvent::TriageNeeded { .. } => stage is Begin,
        RunEvent::PlanNeeded => stage is Begin,
        RunEvent::TriagedWithoutPlan => stage is Triage,
        RunEvent::TriagedWithPlan => stage is Triage,
        RunEvent::Planned => stage is Plan,
        RunEvent::ImplementationOver => stage is Implement,
        RunEvent::PlanRejected { .. } => stage is Implement,
        RunEvent::PrConflicts => stage is Implement,
        RunEvent::PrReady { .. } => stage is Implement,
        RunEvent::PrResumed { .. } => stage is Implement,
        RunEvent::Gated { .. } => stage is ConflictGate,
        RunEvent::Reviewed { .. } => stage is AgentReview,
        RunEvent::HostedReviewOver => stage is HostedReview,
        RunEvent::LocalEndStored => stage is LocalChecks || stage is NoLocalReview,
    }
}

/// The stage after a review by the agents, or in its place.
pub open spec fn reviewed_stage(
    plan: ReviewPlan,
    local_gate: bool,
    pr_num: u64,
    pushed: bool,
    reviewed: bool,
) -> RunStage {
    if plan.hosted {
        RunStage::HostedReview { pr_num, agent_pushed_commit: pushed }
    } else if !local_gate {
        RunStage::Done
    } else if reviewed {
        RunStage::LocalChecks { pr_num }
    } else {
        RunStage::NoLocalReview { pr_num }
    }
}

/// The stage in which the review of a pull request begins.
pub open spec fn review_stage(
    plan: ReviewPlan,
    local_gate: bool,
    pr_num: u64,
    pushed: bool,
) -> RunStage {
    if plan.enabled && plan.has_reviewer {
        RunStage::AgentReview { pr_num, pushed_commit: pushed }
    } else {
        reviewed_stage(plan, local_gate, pr_num, pushed, false)
    }
}

/// The next stage.
pub open spec fn next_stage(
    plan: ReviewPlan,
    local_gate: bool,
    stage: RunStage,
    event: RunEvent,
) -> RunStage {
    match event {
        RunEvent::Failed => RunStage::Stopped,
        RunEvent::NoPlanNeeded => RunStage::Implement,
        RunEvent::TriageNeeded { issue } => RunStage::Triage { issue },
        RunEvent::PlanNeeded => RunStage::Plan { for_issue: false },
        RunEvent::TriagedWithoutPlan => RunStage::Implement,
        RunEvent::TriagedWithPlan => RunStage::Plan { for_issue: true },
        RunEvent::Planned => RunStage::Implement,
        RunEvent::ImplementationOver => RunStage::Done,
        RunEvent::PlanRejected { plan_again } => if plan_again {
            RunStage::Plan { for_issue: true }
        } else {
            RunStage::Implement
        },
        RunEvent::PrConflicts => RunStage::Done,
        RunEvent::PrReady { pr_num, pushed_commit } => review_stage(
            plan,
            local_gate,
            pr_num,
            pushed_commit,
        ),
        RunEvent::PrResumed { pr_num, pushed_commit } => RunStage::ConflictGate {
            pr_num,
            pushed_commit,
        },
        RunEvent::Gated { outcome } => match (stage, outcome) {
            (RunStage::ConflictGate { pr_num, pushed_commit }, ConflictGateOutcome::Clean) =>
                review_stage(plan, local_gate, pr_num, pushed_commit),
            (RunStage::ConflictGate { pr_num, .. }, ConflictGateOutcome::RebasePushed) =>
                review_stage(plan, local_gate, pr_num, true),
            _ => RunStage::Done,
        },
        RunEvent::Reviewed { passed, pushed_commit: fixed } => match stage {
            RunStage::AgentReview { pr_num, pushed_commit } if passed => reviewed_stage(
                plan,
                local_gate,
                pr_num,
                pushed_commit || fixed,
                true,
            ),
            _ => RunStage::Done,
        },
        RunEvent::HostedReviewOver => RunStage::Done,
        RunEvent::LocalEndStored => RunStage::Done,
    }
}

/// Whether the pull request is ready for what comes after the agents' review.
pub open spec fn ready_for_review(event: RunEvent) -> bool {
    match event {
        RunEvent::PrReady { .. } => true,
        RunEvent::Gated { outcome } => outcome != ConflictGateOutcome::Failed,
        RunEvent::Reviewed { passed, .. } => passed,
        _ => false,
    }
}

/// A task on its way.
#[derive(Clone, Copy, Debug, PartialEq, Eq, Structural)]
pub struct TaskRun {
    pub plan: ReviewPlan,
    pub stage: RunStage,
    /// Whether a pull request that no hosted review is waited for has to be reviewed by
    /// the agents and pass the local checks.
    pub local_gate: bool,
}

impl TaskRun {
    /// A task that nothing was done for. One whose project is not there stops at once.
    pub fn new(plan: ReviewPlan, project_exists: bool, local_gate: bool) -> (r: TaskRun)
        ensures
            r.plan == plan,
            r.local_gate == local_gate,
            r.stage == (if project_exists {
                RunStage::Begin
            } else {
                RunStage::Stopped
            }),
    {
        if project_exists {
            TaskRun { plan, stage: RunStage::Begin, local_gate }
        } else {
            TaskRun { plan, stage: RunStage::Stopped, local_gate }
        }
    }

    /// Goes on after a review by the agents, or in its place.
    fn end_review(&mut self, pr_num: u64, pushed: bool, reviewed: bool) -> (r: Option<TaskChange>)
        ensures
            final(self).plan == old(self).plan,
            final(self).local_gate == old(self).local_gate,
            final(self).stage == reviewed_stage(
                old(self).plan,
                old(self).local_gate,
                pr_num,
                pushed,
                reviewed,
            ),
            r is Some == final(self).stage is Done,
            r matches Some(c) ==> c@ == task::moved(TaskStatus::Done, Some(2), None),
    {
        match self.plan.after_agent_review(pushed) {
            NextStep::Over { change } => {
                if !self.local_gate {
                    self.stage = RunStage::Done;
                    return Some(change);
                }
                self.stage =
                if reviewed {
                    RunStage::LocalChecks { pr_num }
                } else {
                    RunStage::NoLocalReview { pr_num }
                };
                None
            },
            _ => {
                self.stage = RunStage::HostedReview { pr_num, agent_pushed_commit: pushed };
                None
            },
        }
    }

    /// Begins the review of a pull request.
    fn begin_review(&mut self, pr_num: u64, pushed: bool) -> (r: Option<TaskChange>)
        ensures
            final(self).plan == old(self).plan,
            final(self).local_gate == old(self).local_gate,
            final(self).stage == review_stage(
                old(self).plan,
                old(self).local_gate,
                pr_num,
                pushed,
            ),
            r is Some == final(self).stage is Done,
            r matches Some(c) ==> c@ == task::moved(TaskStatus::Done, Some(2), None),
    {
        if let NextStep::AgentReview = self.plan.after_implementation() {
            self.stage = RunStage::AgentReview { pr_num, pushed_commit: pushed };
            return None;
        }
        self.end_review(pr_num, pushed, false)
    }

    /// Goes on by what came of the stage. The change is to be stored: it is the end of a
    /// task that no review is made for any more.
    pub fn advance(&mut self, event: RunEvent) -> (r: Option<TaskChange>)
        requires
            fits(old(self).stage, event),
        ensures
            final(self).plan == old(self).plan,
            final(self).local_gate == old(self).local_gate,
            final(self).stage == next_stage(
                old(self).plan,
                old(self).local_gate,
                old(self).stage,
                event,
            ),
            r is Some == (final(self).stage is Done && ready_for_review(event)),
            r matches Some(c) ==> c@ == task::moved(TaskStatus::Done, Some(2), None),
    {
        let next = match event {
            RunEvent::Failed => RunStage::Stopped,
            RunEvent::NoPlanNeeded => RunStage::Implement,
            RunEvent::TriagedWithoutPlan => RunStage::Implement,
            RunEvent::Planned => RunStage::Implement,
            RunEvent::TriageNeeded { issue } => RunStage::Triage { issue },
            RunEvent::PlanNeeded => RunStage::Plan { for_issue: false },
            RunEvent::TriagedWithPlan => RunStage::Plan { for_issue: true },
            RunEvent::ImplementationOver => RunStage::Done,
            RunEvent::PrConflicts => RunStage::Done,
            RunEvent::HostedReviewOver => RunStage::Done,
            RunEvent::LocalEndStored => RunStage::Done,
            RunEvent::PlanRejected { plan_again } => if plan_again {
                RunStage::Plan { for_issue: true }
            } else {
                RunStage::Implement
            },
            RunEvent::PrResumed { pr_num, pushed_commit } => RunStage::ConflictGate {
                pr_num,
                pushed_commit,
            },
            RunEvent::PrReady { pr_num, pushed_commit } => {
                return self.begin_review(pr_num, pushed_commit);
            },
            RunEvent::Gated { outcome } => match (self.stage, outcome) {
                (RunStage::ConflictGate { pr_num, pushed_commit }, ConflictGateOutcome::Clean) => {
                    return self.begin_review(pr_num, pushed_commit);
                },
                (RunStage::ConflictGate { pr_num, .. }, ConflictGateOutcome::RebasePushed) => {
                    return self.begin_review(pr_num, true);
                },
                _ => RunStage::Done,
            },
            RunEvent::Reviewed { passed, pushed_commit: fixed } => {
                if let RunStage::AgentReview { pr_num, pushed_commit } = self.stage {
                    if passed {
                        return self.end_review(pr_num, pushed_commit || fixed, true);
                    }
                }
                RunStage::Done
            },
        };
        self.stage = next;
        None
    }
}

/// What comes of the beginning, by where a plan comes from.
pub fn plan_event(source: &PlanSource) -> (r: RunEvent)
    ensures
        fits(RunStage::Begin, r),
        r == (match source@ {
            SourceView::NoPlan => RunEvent::NoPlanNeeded,
            SourceView::Saved { .. } => RunEvent::NoPlanNeeded,
            SourceView::Triage { issue } => RunEvent::TriageNeeded { issue: issue as u64 },
            SourceView::PromptPlan => RunEvent::PlanNeeded,
        }),
{
    match source {
        PlanSource::NoPlan => RunEvent::NoPlanNeeded,
        PlanSource::Saved { .. } => RunEvent::NoPlanNeeded,
        PlanSource::Triage { issue } => RunEvent::TriageNeeded { issue: *issue },
        PlanSource::PromptPlan => RunEvent::PlanNeeded,
    }
}

/// What comes of a step on the way to a plan.
pub open spec fn step_event(stage: PlanStage, step: PlanStepView) -> RunEvent {
    match step {
        PlanStepView::Stop { .. } => RunEvent::Failed,
        PlanStepView::Plan => RunEvent::TriagedWithPlan,
        PlanStepView::Ready { .. } => if stage is Triage {
            RunEvent::TriagedWithoutPlan
        } else {
            RunEvent::Planned
        },
    }
}

/// What comes of a step on the way to a plan. Only a look at an issue leads to a plan.
pub fn planning_event(stage: PlanStage, step: &PlanStep) -> (r: RunEvent)
    ensures
        r == step_event(stage, step@),
        stage is Triage ==> forall|issue: u64| fits(RunStage::Triage { issue }, r),
        stage !is Triage && step !is Plan ==> forall|for_issue: bool|
            fits(RunStage::Plan { for_issue }, r),
{
    match step {
        PlanStep::Stop { .. } => RunEvent::Failed,
        PlanStep::Plan => RunEvent::TriagedWithPlan,
        PlanStep::Ready { .. } => match stage {
            PlanStage::Triage { .. } => RunEvent::TriagedWithoutPlan,
            _ => RunEvent::Planned,
        },
    }
}

/// What comes of an implementation. `plan_again` tells what is done about a plan that was
/// not good enough, and `resumed` whether the pull request is an earlier attempt's.
pub open spec fn end_event(end: ImplementEnd, plan_again: bool, resumed: bool) -> RunEvent {
    match end {
        ImplementEnd::Done => RunEvent::ImplementationOver,
        ImplementEnd::Replan { .. } => RunEvent::PlanRejected { plan_again },
        ImplementEnd::Proceed { pr_num, pushed_commit, review_prep, .. } => match gates::entry(
            pr_num as nat,
            markers::opt_prep(review_prep),
        ) {
            EntryView::FailConflict { .. } => RunEvent::PrConflicts,
            EntryView::Proceed { rebase_pushed } => if resumed {
                RunEvent::PrResumed { pr_num, pushed_commit: pushed_commit || rebase_pushed }
            } else {
                RunEvent::PrReady { pr_num, pushed_commit: pushed_commit || rebase_pushed }
            },
        },
    }
}

/// What comes of an implementation.
pub fn implement_event(end: &ImplementEnd, plan_again: bool, resumed: bool) -> (r: RunEvent)
    ensures
        fits(RunStage::Implement, r),
        r == end_event(*end, plan_again, resumed),
{
    match end {
        ImplementEnd::Done => RunEvent::ImplementationOver,
        ImplementEnd::Replan { .. } => RunEvent::PlanRejected { plan_again },
        ImplementEnd::Proceed { pr_num, pushed_commit, review_prep, .. } => {
            match gates::review_entry_decision(*pr_num, review_prep.as_ref()) {
                ReviewEntryDecision::FailConflict { .. } => RunEvent::PrConflicts,
                ReviewEntryDecision::Proceed { rebase_pushed } => {
                    let pushed_commit = *pushed_commit || rebase_pushed;
                    if resumed {
                        RunEvent::PrResumed { pr_num: *pr_num, pushed_commit }
                    } else {
                        RunEvent::PrReady { pr_num: *pr_num, pushed_commit }
                    }
                },
            }
        },
    }
}

/// A task only goes forward, but for a plan that was not good enough; once it is over,
/// nothing can come of it any more.
pub proof fn law_task_goes_forward(
    plan: ReviewPlan,
    local_gate: bool,
    stage: RunStage,
    event: RunEvent,
)
    requires
        fits(stage, event),
    ensures
        event !is PlanRejected ==> rank(next_stage(plan, local_gate, stage, event)) > rank(stage),
        !is_end(stage),
{
}

/// A hosted review is only waited for where one is configured, and for the pull request
/// that the implementation gave; a configured review by the agents comes before it.
pub proof fn law_hosted_review_follows_the_agents(
    plan: ReviewPlan,
    local_gate: bool,
    stage: RunStage,
    event: RunEvent,
)
    requires
        fits(stage, event),
    ensures
        next_stage(plan, local_gate, stage, event) is HostedReview ==> {
            let pr_num = next_stage(plan, local_gate, stage, event)->HostedReview_pr_num;
            &&& plan.hosted
            &&& stage is AgentReview || stage is ConflictGate || stage is Implement
            &&& stage is AgentReview ==> pr_num == stage->AgentReview_pr_num
            &&& stage is ConflictGate ==> pr_num == stage->ConflictGate_pr_num
            &&& stage is Implement ==> event is PrReady && pr_num == event->PrReady_pr_num
            &&& stage !is AgentReview ==> !(plan.enabled && plan.has_reviewer)
        },
{
}

/// No review begins of a branch with conflicts: not where the implementation reports them,
/// and not where the look at an earlier attempt's pull request failed.
pub proof fn law_conflicts_keep_reviews_out(
    plan: ReviewPlan,
    local_gate: bool,
    pr_num: u64,
    pushed_commit: bool,
)
    ensures
        next_stage(plan, local_gate, RunStage::Implement, RunEvent::PrConflicts) is Done,
        next_stage(
            plan,
            local_gate,
            RunStage::ConflictGate { pr_num, pushed_commit },
            RunEvent::Gated { outcome: ConflictGateOutcome::Failed },
        ) is Done,
{
}

/// Where the local checks have to pass, they are only made of a pull request that the agents
/// approved, and nothing but a stored end ends a task with a pull request that is ready.
pub proof fn law_local_checks_need_an_approval(plan: ReviewPlan, stage: RunStage, event: RunEvent)
    requires
        fits(stage, event),
    ensures
        next_stage(plan, true, stage, event) is LocalChecks ==> {
            &&& stage is AgentReview && event is Reviewed && event->passed
            &&& !plan.hosted
        },
        ready_for_review(event) ==> next_stage(plan, true, stage, event) !is Done,
{
}

/// Where each event leads. Planning leads to the implementation, a pull request to its
/// reviews, and a resumed one first to the look for conflicts; a rejected plan is made
/// again or followed all the same, and a failure stops the task.
pub proof fn law_events_lead_on(
    plan: ReviewPlan,
    gate: bool,
    stage: RunStage,
    issue: u64,
    pr_num: u64,
    pushed: bool,
)
    ensures
        next_stage(plan, gate, stage, RunEvent::Failed) is Stopped,
        next_stage(plan, gate, RunStage::Begin, RunEvent::NoPlanNeeded) is Implement,
        next_stage(plan, gate, RunStage::Begin, RunEvent::TriageNeeded { issue }) == (
        RunStage::Triage { issue }),
        next_stage(plan, gate, RunStage::Begin, RunEvent::PlanNeeded) == (RunStage::Plan {
            for_issue: false,
        }),
        next_stage(plan, gate, RunStage::Triage { issue }, RunEvent::TriagedWithoutPlan)
            is Implement,
        next_stage(plan, gate, RunStage::Triage { issue }, RunEvent::TriagedWithPlan) == (
        RunStage::Plan { for_issue: true }),
        next_stage(plan, gate, RunStage::Plan { for_issue: true }, RunEvent::Planned) is Implement,
        next_stage(plan, gate, RunStage::Plan { for_issue: false }, RunEvent::Planned) is Implement,
        next_stage(plan, gate, RunStage::Implement, RunEvent::PlanRejected { plan_again: true }) == (
        RunStage::Plan { for_issue: true }),
        next_stage(plan, gate, RunStage::Implement, RunEvent::PlanRejected { plan_again: false })
            is Implement,
        next_stage(plan, gate, RunStage::Implement, RunEvent::ImplementationOver) is Done,
        next_stage(
            plan,
            gate,
            RunStage::Implement,
            RunEvent::PrResumed { pr_num, pushed_commit: pushed },
        ) == (RunStage::ConflictGate { pr_num, pushed_commit: pushed }),
        next_stage(
            plan,
            gate,
            RunStage::HostedReview { pr_num, agent_pushed_commit: pushed },
            RunEvent::HostedReviewOver,
        ) is Done,
        next_stage(plan, gate, RunStage::LocalChecks { pr_num }, RunEvent::LocalEndStored) is Done,
        next_stage(plan, gate, RunStage::NoLocalReview { pr_num }, RunEvent::LocalEndStored) is Done,
{
}

/// How a pull request is reviewed. The agents come first where they can; then the hosted
/// review where one is configured; without it a pull request that the agents approved goes
/// to the local checks, and one that they did not review fails, where these are wanted.
/// Whether a commit was pushed is carried along: by the implementation, by a pushed rebase
/// or by a fix.
pub proof fn law_pull_request_goes_through_its_reviews(
    plan: ReviewPlan,
    gate: bool,
    pr_num: u64,
    pushed: bool,
    fixed: bool,
)
    ensures
        ({
            let agents = plan.enabled && plan.has_reviewer;
            let unreviewed = if plan.hosted {
                RunStage::HostedReview { pr_num, agent_pushed_commit: pushed }
            } else if gate {
                RunStage::NoLocalReview { pr_num }
            } else {
                RunStage::Done
            };
            let ready = next_stage(
                plan,
                gate,
                RunStage::Implement,
                RunEvent::PrReady { pr_num, pushed_commit: pushed },
            );
            let clean = next_stage(
                plan,
                gate,
                RunStage::ConflictGate { pr_num, pushed_commit: pushed },
                RunEvent::Gated { outcome: ConflictGateOutcome::Clean },
            );
            let rebased = next_stage(
                plan,
                gate,
                RunStage::ConflictGate { pr_num, pushed_commit: pushed },
                RunEvent::Gated { outcome: ConflictGateOutcome::RebasePushed },
            );
            let approved = next_stage(
                plan,
                gate,
                RunStage::AgentReview { pr_num, pushed_commit: pushed },
                RunEvent::Reviewed { passed: true, pushed_commit: fixed },
            );
            let refused = next_stage(
                plan,
                gate,
                RunStage::AgentReview { pr_num, pushed_commit: pushed },
                RunEvent::Reviewed { passed: false, pushed_commit: fixed },
            );
            &&& ready == clean
            &&& agents ==> ready == (RunStage::AgentReview { pr_num, pushed_commit: pushed })
            &&& !agents ==> ready == unreviewed
            &&& agents ==> rebased == (RunStage::AgentReview { pr_num, pushed_commit: true })
            &&& !agents && plan.hosted ==> rebased == (RunStage::HostedReview {
                pr_num,
                agent_pushed_commit: true,
            })
            &&& plan.hosted ==> approved == (RunStage::HostedReview {
                pr_num,
                agent_pushed_commit: pushed || fixed,
            })
            &&& !plan.hosted && gate ==> approved == (RunStage::LocalChecks { pr_num })
            &&& !plan.hosted && !gate ==> approved is Done
            &&& refused is Done
        }),
{
}

/// What comes of an implementation: conflicts keep its pull request out, a resumed one is
/// looked at for conflicts first, and a commit counts as pushed where the agent said so or
/// the rebase was pushed.
pub proof fn law_implementation_hands_its_pull_request_on(
    end: ImplementEnd,
    again: bool,
    resumed: bool,
)
    ensures
        end is Done ==> end_event(end, again, resumed) is ImplementationOver,
        end is Replan ==> end_event(end, again, resumed) == (RunEvent::PlanRejected {
            plan_again: again,
        }),
        end matches ImplementEnd::Proceed { pr_num, pushed_commit, review_prep, .. } ==> {
            let prep = markers::opt_prep(review_prep);
            let event = end_event(end, again, resumed);
            let pushed = pushed_commit || prep == Some(markers::PrepView::RebasePushed);
            &&& event is PrConflicts <==> (prep matches Some(p) && p is RebaseConflict)
            &&& !(event is PrConflicts) && resumed ==> event == (RunEvent::PrResumed {
                pr_num,
                pushed_commit: pushed,
            })
            &&& !(event is PrConflicts) && !resumed ==> event == (RunEvent::PrReady {
                pr_num,
                pushed_commit: pushed,
            })
        },
{
}

/// What comes of a step on the way to a plan.
pub proof fn law_planning_steps_are_told(issue: u64, for_issue: bool, step: PlanStepView)
    ensures
        step is Stop ==> step_event(PlanStage::Triage { issue }, step) is Failed,
        step is Stop ==> step_event(PlanStage::Plan { for_issue }, step) is Failed,
        step is Plan ==> step_event(PlanStage::Triage { issue }, step) is TriagedWithPlan,
        step is Ready ==> step_event(PlanStage::Triage { issue }, step) is TriagedWithoutPlan,
        step is Ready ==> step_event(PlanStage::Plan { for_issue }, step) is Planned,
{
}

/// Only at an end can nothing come of a stage; each event belongs to its own stages.
pub proof fn law_events_belong_to_their_stages(stage: RunStage, event: RunEvent)
    ensures
        fits(stage, RunEvent::Failed) <==> !(stage is Done) && !(stage is Stopped),
        fits(stage, event) && !(event is Failed) ==> match stage {
            RunStage::Begin => event is NoPlanNeeded || event is TriageNeeded || event
                is PlanNeeded,
            RunStage::Triage { .. } => event is TriagedWithoutPlan || event is TriagedWithPlan,
            RunStage::Plan { .. } => event is Planned,
            RunStage::Implement => event is ImplementationOver || event is PlanRejected || event
                is PrConflicts || event is PrReady || event is PrResumed,
            RunStage::ConflictGate { .. } => event is Gated,
            RunStage::AgentReview { .. } => event is Reviewed,
            RunStage::HostedReview { .. } => event is HostedReviewOver,
            RunStage::LocalChecks { .. } => event is LocalEndStored,
            RunStage::NoLocalReview { .. } => event is LocalEndStored,
            RunStage::Done => false,
            RunStage::Stopped => false,
        },
        ready_for_review(event) <==> event is PrReady || (event matches RunEvent::Gated { outcome }
            && outcome != ConflictGateOutcome::Failed) || (event matches RunEvent::Reviewed {
            passed,
            ..
        } && passed),
{
}

/// Every event can happen in the stages that it belongs to.
pub proof fn law_stages_take_their_events(stage: RunStage, event: RunEvent)
    ensures
        stage is Begin && (event is NoPlanNeeded || event is TriageNeeded || event is PlanNeeded)
            ==> fits(stage, event),
        stage is Triage && (event is TriagedWithoutPlan || event is TriagedWithPlan) ==> fits(
            stage,
            event,
        ),
        stage is Plan && event is Planned ==> fits(stage, event),
        stage is Implement && (event is ImplementationOver || event is PlanRejected || event
            is PrConflicts || event is PrReady || event is PrResumed) ==> fits(stage, event),
        stage is ConflictGate && event is Gated ==> fits(stage, event),
        stage is AgentReview && event is Reviewed ==> fits(stage, event),
        stage is HostedReview && event is HostedReviewOver ==> fits(stage, event),
        (stage is LocalChecks || stage is NoLocalReview) && event is LocalEndStored ==> fits(
            stage,
            event,
        ),
{
}

} // verus!
