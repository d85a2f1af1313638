//! The way to a plan: a look at the issue, then the plan itself.
//!
//! [`PlanRun`] decides what follows and counts the turns; its caller asks the agent.

use crate::pipeline;
use crate::pipeline::{PhaseFault, PlanChange, PlanChangeView, TriageDecision, TriageStep};
use crate::text;
use vstd::prelude::*;
use vstd::string::*;

verus! {

/// What came of a call of the agent.
#[derive(Debug)]
pub enum PhaseCall {
    Answered { output: String },
    Fault(PhaseFault),
}

/// Whether a call counts as a turn: one that the agent answered does, whatever the
/// phase makes of the answer.
pub open spec fn call_turns(call: PhaseCall) -> nat {
    if call is Answered {
        1
    } else {
        0
    }
}

/// Where the way to a plan stands.
#[derive(Clone, Copy, Debug, PartialEq, Eq, Structural)]
pub enum PlanStage {
    /// The issue is looked at.
    Triage { issue: u64 },
    /// A plan is made. One for an issue has a checkpoint.
    Plan { for_issue: bool },
    /// It has ended.
    Over,
}

/// How the way to a plan goes on.
#[derive(Debug)]
pub enum PlanStep {
    /// A plan is made next.
    Plan,
    /// The implementation follows, with a plan or without.
    Ready { plan: Option<String> },
    /// The task stops.
    Stop { error: String },
}

/// What a [`PlanStep`] holds.
pub enum PlanStepView {
    Plan,
    Ready { plan: Option<Seq<char>> },
    Stop { error: Seq<char> },
}

impl View for PlanStep {
    type V = PlanStepView;

    open spec fn view(&self) -> PlanStepView {
        match self {
            PlanStep::Plan => PlanStepView::Plan,
            PlanStep::Ready { plan } => PlanStepView::Ready { plan: text::opt_view(*plan) },
            PlanStep::Stop { error } => PlanStepView::Stop { error: error@ },
        }
    }
}

/// A way to a plan, with the turns that the task has taken.
#[derive(Clone, Copy, Debug, PartialEq, Eq, Structural)]
pub struct PlanRun {
    pub stage: PlanStage,
    pub turns_used: u32,
}

/// What follows from the call of a stage. `decision` is what the look at an issue came
/// to.
pub open spec fn plan_step(
    stage: PlanStage,
    call: PhaseCall,
    decision: Option<TriageDecision>,
) -> PlanStepView {
    match (stage, call) {
        (PlanStage::Triage { issue }, PhaseCall::Answered { .. }) => match pipeline::triage_step(
            issue as nat,
            decision,
        ) {
            pipeline::TriageStepView::Stop { error } => PlanStepView::Stop { error },
            pipeline::TriageStepView::Implement => PlanStepView::Ready { plan: None },
            pipeline::TriageStepView::Plan => PlanStepView::Plan,
        },
        (PlanStage::Triage { .. }, PhaseCall::Fault(fault)) => PlanStepView::Stop {
            error: pipeline::phase_error("triage"@, fault),
        },
        (_, PhaseCall::Answered { output }) => PlanStepView::Ready { plan: Some(output@) },
        (_, PhaseCall::Fault(fault)) => PlanStepView::Stop {
            error: pipeline::phase_error("plan"@, fault),
        },
    }
}

/// What is stored after the call of a stage.
pub open spec fn plan_stored(
    stage: PlanStage,
    call: PhaseCall,
    decision: Option<TriageDecision>,
) -> Option<PlanChangeView> {
    match (stage, call) {
        (_, PhaseCall::Fault(_)) => None,
        (PlanStage::Triage { .. }, PhaseCall::Answered { output }) => Some(
            pipeline::triage_change(output@, decision),
        ),
        (PlanStage::Plan { for_issue }, PhaseCall::Answered { output }) => Some(
            pipeline::plan_change(output@, for_issue),
        ),
        (PlanStage::Over, PhaseCall::Answered { output }) => Some(
            pipeline::plan_change(output@, false),
        ),
    }
}

/// The run after the call of its stage.
pub open spec fn after_call(
    run: PlanRun,
    call: PhaseCall,
    decision: Option<TriageDecision>,
) -> PlanRun {
    PlanRun {
        stage: if plan_step(run.stage, call, decision) is Plan {
            PlanStage::Plan { for_issue: true }
        } else {
            PlanStage::Over
        },
        turns_used: (run.turns_used + call_turns(call)) as u32,
    }
}

/// The view of an optional change.
pub open spec fn opt_change(o: Option<PlanChange>) -> Option<PlanChangeView> {
    match o {
        None => None,
        Some(c) => Some(c@),
    }
}

impl PlanRun {
    /// The way to a plan for an issue.
    pub fn for_issue(issue: u64, turns_used: u32) -> (r: PlanRun)
        ensures
            r == (PlanRun { stage: PlanStage::Triage { issue }, turns_used }),
    {
        PlanRun { stage: PlanStage::Triage { issue }, turns_used }
    }

    /// The way to a plan for a text.
    pub fn for_prompt(turns_used: u32) -> (r: PlanRun)
        ensures
            r == (PlanRun { stage: PlanStage::Plan { for_issue: false }, turns_used }),
    {
        PlanRun { stage: PlanStage::Plan { for_issue: false }, turns_used }
    }

    /// Takes in the call of the stage, and says what follows and what is stored.
    /// `decision` is what the look at an issue came to.
    pub fn called(&mut self, call: PhaseCall, decision: Option<TriageDecision>) -> (r: (
        PlanStep,
        Option<PlanChange>,
    ))
        requires
            old(self).stage !is Over,
            old(self).turns_used < u32::MAX,
        ensures
            r.0@ == plan_step(old(self).stage, call, decision),
            opt_change(r.1) == plan_stored(old(self).stage, call, decision),
            *final(self) == after_call(*old(self), call, decision),
            final(self).turns_used == old(self).turns_used + call_turns(call),
    {
        let stage = self.stage;
        self.stage = PlanStage::Over;
        match call {
            PhaseCall::Fault(fault) => {
                let name = match stage {
                    PlanStage::Triage { .. } => "triage",
                    _ => "plan",
                };
                (PlanStep::Stop { error: pipeline::phase_error_text(name, fault) }, None)
            },
            PhaseCall::Answered { output } => {
                self.turns_used = self.turns_used + 1;
                match stage {
                    PlanStage::Triage { issue } => {
                        let (step, change) = pipeline::triage_answered(issue, output, decision);
                        let next = match step {
                            TriageStep::Stop { error } => PlanStep::Stop { error },
                            TriageStep::Implement => PlanStep::Ready { plan: None },
                            TriageStep::Plan => {
                                self.stage = PlanStage::Plan { for_issue: true };
                                PlanStep::Plan
                            },
                        };
                        (next, Some(change))
                    },
                    PlanStage::Plan { for_issue } => {
                        let change = pipeline::plan_answered(output.clone(), for_issue);
                        (PlanStep::Ready { plan: Some(output) }, Some(change))
                    },
                    PlanStage::Over => {
                        let change = pipeline::plan_answered(output.clone(), false);
                        (PlanStep::Ready { plan: Some(output) }, Some(change))
                    },
                }
            },
        }
    }
}

/// A look at an issue takes one turn and leads to the implementation without a plan
/// exactly where it decided to proceed. With a plan it takes two, and the plan is what
/// the agent answered. What the agent answered counts even where the task then stops;
/// what it did not answer does not.
pub proof fn law_answered_calls_are_counted(
    issue: u64,
    turns_used: u32,
    triage: PhaseCall,
    decision: Option<TriageDecision>,
    plan: PhaseCall,
)
    requires
        turns_used + 2 <= u32::MAX,
    ensures
        ({
            let begun = PlanRun { stage: PlanStage::Triage { issue }, turns_used };
            let looked = after_call(begun, triage, decision);
            let planned = after_call(looked, plan, None);
            let first = plan_step(begun.stage, triage, decision);
            let second = plan_step(looked.stage, plan, None);
            &&& triage is Answered ==> looked.turns_used == turns_used + 1
            &&& triage !is Answered ==> looked.turns_used == turns_used && first is Stop
            &&& first == (PlanStepView::Ready { plan: None }) <==> triage is Answered && decision
                == Some(TriageDecision::Proceed)
            &&& first is Plan <==> triage is Answered && decision == Some(
                TriageDecision::ProceedWithPlan,
            )
            &&& first is Plan && plan is Answered ==> planned.turns_used == turns_used + 2
                && second == (PlanStepView::Ready { plan: Some(plan->output@) })
            &&& first is Plan && plan !is Answered ==> planned.turns_used == turns_used + 1
                && second is Stop
        }),
{
}

/// What a stage on the way to a plan leads to. An answer to the plan's prompt is the plan,
/// an answer about an issue is judged, and a call that failed stops the task with an error
/// of its stage; what was answered is stored, and nothing else.
pub proof fn law_stage_leads_on(
    issue: u64,
    for_issue: bool,
    call: PhaseCall,
    decision: Option<TriageDecision>,
)
    ensures
        call matches PhaseCall::Answered { output } ==> {
            &&& plan_step(PlanStage::Plan { for_issue }, call, decision) == (PlanStepView::Ready {
                plan: Some(output@),
            })
            &&& plan_stored(PlanStage::Plan { for_issue }, call, decision) matches Some(c)
                && c.plan_output == Some(output@) && (c.checkpoint is Some <==> for_issue)
            &&& plan_stored(PlanStage::Triage { issue }, call, decision) matches Some(c)
                && c.triage_output == Some(output@) && c.plan_output is None
            &&& decision == Some(TriageDecision::Proceed) ==> plan_step(
                PlanStage::Triage { issue },
                call,
                decision,
            ) == (PlanStepView::Ready { plan: None })
            &&& decision == Some(TriageDecision::ProceedWithPlan) ==> plan_step(
                PlanStage::Triage { issue },
                call,
                decision,
            ) is Plan
            &&& decision is None || decision == Some(TriageDecision::Skip) || decision == Some(
                TriageDecision::NeedsClarification,
            ) ==> plan_step(PlanStage::Triage { issue }, call, decision) is Stop
        },
        call matches PhaseCall::Fault(fault) ==> {
            &&& plan_step(PlanStage::Triage { issue }, call, decision) == (PlanStepView::Stop {
                error: pipeline::phase_error("triage"@, fault),
            })
            &&& plan_step(PlanStage::Plan { for_issue }, call, decision) == (PlanStepView::Stop {
                error: pipeline::phase_error("plan"@, fault),
            })
            &&& plan_stored(PlanStage::Triage { issue }, call, decision) is None
            &&& plan_stored(PlanStage::Plan { for_issue }, call, decision) is None
        },
        call is Answered ==> call_turns(call) == 1,
        call is Fault ==> call_turns(call) == 0,
{
}

/// After a call the way to a plan is over, unless a plan is to be made for the issue.
pub proof fn law_way_to_a_plan_ends(run: PlanRun, call: PhaseCall, decision: Option<TriageDecision>)
    ensures
        plan_step(run.stage, call, decision) is Plan ==> after_call(run, call, decision).stage == (
        PlanStage::Plan { for_issue: true }),
        !(plan_step(run.stage, call, decision) is Plan) ==> after_call(
            run,
            call,
            decision,
        ).stage is Over,
        run.stage is Plan ==> after_call(run, call, decision).stage is Over,
{
}

} // verus!
