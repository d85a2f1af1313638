//! The implementation of a task: the agent's turn, and what its output means.

use crate::events;
use crate::events::{Decision, EventView, Report, ReportView, TaskEvent};
use crate::markers;
use crate::markers::{PrReviewPrepOutcome, PrepView};
use crate::request::CreateTaskRequest;
use crate::task;
use crate::task::{TaskChange, TurnFailureKind};
use crate::telemetry;
use crate::telemetry::{FailureView, TurnFailure, TurnMark, TurnTelemetry};
use crate::text;
use vstd::prelude::*;
use vstd::string::*;

verus! {

/// What the output of an implementation says.
#[derive(Debug, PartialEq, Eq)]
pub enum ImplementationOutcome {
    /// The plan is not good enough.
    PlanIssue(String),
    /// Whatever else the output says.
    ParsedPr {
        pr_url: Option<String>,
        pr_num: Option<u64>,
        created_issue_num: Option<u64>,
        pushed_commit: Option<bool>,
        review_prep: Option<PrReviewPrepOutcome>,
    },
}

/// What an [`ImplementationOutcome`] holds.
pub enum OutcomeView {
    PlanIssue(Seq<char>),
    ParsedPr {
        pr_url: Option<Seq<char>>,
        pr_num: Option<nat>,
        created_issue_num: Option<nat>,
        pushed_commit: Option<bool>,
        review_prep: Option<PrepView>,
    },
}

impl View for ImplementationOutcome {
    type V = OutcomeView;

    open spec fn view(&self) -> OutcomeView {
        match self {
            ImplementationOutcome::PlanIssue(s) => OutcomeView::PlanIssue(s@),
            ImplementationOutcome::ParsedPr {
                pr_url,
                pr_num,
                created_issue_num,
                pushed_commit,
                review_prep,
            } => OutcomeView::ParsedPr {
                pr_url: text::opt_view(*pr_url),
                pr_num: text::opt_number(*pr_num),
                created_issue_num: text::opt_number(*created_issue_num),
                pushed_commit: *pushed_commit,
                review_prep: markers::opt_prep(*review_prep),
            },
        }
    }
}

/// The number of the pull request that an output names.
pub open spec fn named_pr(output: Seq<char>) -> Option<nat> {
    match markers::pr_url(output) {
        Some(url) => markers::pr_number(url),
        None => None,
    }
}

/// What the output of an implementation says. That the plan is not good enough comes
/// before everything else.
pub open spec fn outcome(output: Seq<char>) -> Result<OutcomeView, Seq<char>> {
    if markers::plan_issue(output) is Some {
        Ok(OutcomeView::PlanIssue(markers::plan_issue(output)->0))
    } else {
        match markers::pushed_commit(output) {
            Err(e) => Err(e),
            Ok(pushed_commit) => Ok(
                OutcomeView::ParsedPr {
                    pr_url: markers::pr_url(output),
                    pr_num: named_pr(output),
                    created_issue_num: markers::created_issue(output),
                    pushed_commit,
                    review_prep: markers::review_prep(output),
                },
            ),
        }
    }
}

/// The view of a result.
pub open spec fn outcome_result(r: Result<ImplementationOutcome, String>) -> Result<
    OutcomeView,
    Seq<char>,
> {
    match r {
        Ok(o) => Ok(o@),
        Err(e) => Err(e@),
    }
}

/// What the output of an implementation says.
pub fn parse_implementation_outcome(output: &str) -> (r: Result<ImplementationOutcome, String>)
    ensures
        outcome_result(r) == outcome(output@),
{
    if let Some(issue) = markers::parse_plan_issue(output) {
        return Ok(ImplementationOutcome::PlanIssue(issue));
    }
    let pr_url = markers::parse_pr_url(output);
    let pr_num = match &pr_url {
        Some(url) => markers::extract_pr_number(url.as_str()),
        None => None,
    };
    let created_issue_num = markers::parse_created_issue_number(output);
    let pushed_commit = match markers::parse_pushed_commit(output) {
        Ok(flag) => flag,
        Err(e) => {
            return Err(e);
        },
    };
    let review_prep = markers::parse_pr_review_prep_outcome(output);
    Ok(
        ImplementationOutcome::ParsedPr {
            pr_url,
            pr_num,
            created_issue_num,
            pushed_commit,
            review_prep,
        },
    )
}

/// Whether a commit was pushed. The agent's own word counts most, then what it did to
/// the branch; the check of a pull request has to say one or the other.
pub open spec fn pushed_flag(
    is_direct_pr_check: bool,
    pushed_commit: Option<bool>,
    review_prep: Option<PrepView>,
) -> Result<bool, Seq<char>> {
    match (pushed_commit, review_prep) {
        (Some(pushed), _) => Ok(pushed),
        (None, Some(prep)) => Ok(prep is RebasePushed),
        (None, None) => if is_direct_pr_check {
            Err(
                "missing required PUSHED_COMMIT marker in PR-check output; refusing to skip freshness gate"@,
            )
        } else {
            Ok(false)
        },
    }
}

/// The view of a result.
pub open spec fn flag_result(r: Result<bool, String>) -> Result<bool, Seq<char>> {
    match r {
        Ok(b) => Ok(b),
        Err(e) => Err(e@),
    }
}

/// Whether a commit was pushed.
pub fn resolve_pushed_commit_flag(
    is_direct_pr_check: bool,
    pushed_commit: Option<bool>,
    review_prep: Option<&PrReviewPrepOutcome>,
) -> (r: Result<bool, String>)
    ensures
        flag_result(r) == pushed_flag(
            is_direct_pr_check,
            pushed_commit,
            markers::prep_of(review_prep),
        ),
{
    if let Some(pushed) = pushed_commit {
        return Ok(pushed);
    }
    match review_prep {
        Some(PrReviewPrepOutcome::RebasePushed) => Ok(true),
        Some(PrReviewPrepOutcome::RebaseSkipped) => Ok(false),
        Some(PrReviewPrepOutcome::RebaseConflict { .. }) => Ok(false),
        None => {
            if is_direct_pr_check {
                Err(
                    "missing required PUSHED_COMMIT marker in PR-check output; refusing to skip freshness gate".to_owned(),
                )
            } else {
                Ok(false)
            }
        },
    }
}

/// Whether the agent worked in a place that belongs to another session.
pub open spec fn collision(output: Seq<char>) -> bool {
    text::contains(output, "managed by another harness session"@)
}

/// Whether the agent worked in a place that belongs to another session.
pub fn contains_worktree_collision_sentinel(output: &str) -> (r: bool)
    ensures
        r == collision(output@),
{
    text::str_contains(output, "managed by another harness session")
}

/// A prompt with the project's principles before it, where that is wanted.
pub open spec fn with_constitution(
    constitution: Seq<char>,
    prompt: Seq<char>,
    enabled: bool,
) -> Seq<char> {
    if enabled {
        constitution + "\n\n"@ + prompt
    } else {
        prompt
    }
}

/// Puts the project's principles before a prompt, where that is wanted.
pub fn prepend_constitution(constitution: &str, prompt: String, enabled: bool) -> (r: String)
    ensures
        r@ == with_constitution(constitution@, prompt@, enabled),
{
    if enabled {
        let mut out = constitution.to_owned();
        out.append("\n\n");
        out.append(prompt.as_str());
        out
    } else {
        prompt
    }
}

/// Switched off, the principles leave a prompt as it is. Switched on, they put the same text
/// in front of every prompt: one that ends in an empty line and holds all the principles.
pub proof fn law_constitution_only_prepends(
    constitution: Seq<char>,
    prompt: Seq<char>,
    principle: Seq<char>,
)
    requires
        text::contains(constitution, principle),
    ensures
        with_constitution(constitution, prompt, false) == prompt,
        with_constitution(constitution, prompt, true) == with_constitution(
            constitution,
            seq![],
            true,
        ) + prompt,
        with_constitution(constitution, seq![], true) == constitution + "\n\n"@,
        text::contains(with_constitution(constitution, prompt, true), principle),
{
    let before = with_constitution(constitution, seq![], true);
    assert(before == constitution + "\n\n"@);
    assert(before + prompt == with_constitution(constitution, prompt, true));
    let at = choose|i: int| text::occurs_at(constitution, principle, i);
    let all = with_constitution(constitution, prompt, true);
    assert(all.subrange(at, at + principle.len()) == constitution.subrange(
        at,
        at + principle.len(),
    ));
    assert(text::occurs_at(all, principle, at));
}

/// Whether a task has to name a pull request: one for an issue or a pull request has to;
/// one that is only a prompt may end without.
pub fn task_needs_pr_url(req: &CreateTaskRequest) -> (r: bool)
    ensures
        r == req.kind().needs_pr(),
        r == (req.issue is Some || req.pr is Some),
{
    req.task_kind().requires_pr_url()
}

/// The result that is recorded for an implementation that failed in this way.
pub open spec fn failure_word(kind: TurnFailureKind) -> Seq<char> {
    match kind {
        TurnFailureKind::Timeout => "timeout"@,
        TurnFailureKind::Quota => "quota_exhausted"@,
        TurnFailureKind::Billing => "billing_failed"@,
        TurnFailureKind::Upstream => "upstream_failure"@,
        TurnFailureKind::LocalProcess => "local_process_failure"@,
        TurnFailureKind::Protocol => "protocol_failure"@,
        TurnFailureKind::Unknown => "failed"@,
    }
}

/// The result that is recorded for an implementation that failed in this way.
pub fn implementation_failure_result(kind: TurnFailureKind) -> (r: &'static str)
    ensures
        r@ == failure_word(kind),
{
    match kind {
        TurnFailureKind::Timeout => "timeout",
        TurnFailureKind::Quota => "quota_exhausted",
        TurnFailureKind::Billing => "billing_failed",
        TurnFailureKind::Upstream => "upstream_failure",
        TurnFailureKind::LocalProcess => "local_process_failure",
        TurnFailureKind::Protocol => "protocol_failure",
        TurnFailureKind::Unknown => "failed",
    }
}

/// What is noted of an implementation.
pub open spec fn implement_event(
    decision: Decision,
    reason: Seq<char>,
    detail: Option<Seq<char>>,
    content: Option<Seq<char>>,
) -> EventView {
    EventView {
        turn: Some(1),
        phase: Some("implement"@),
        hook: "task_implement"@,
        decision,
        reason: Some(reason),
        detail,
        content,
        mark: telemetry::no_mark(),
    }
}

fn implement_note(
    decision: Decision,
    reason: String,
    detail: Option<String>,
    content: Option<String>,
) -> (r: TaskEvent)
    ensures
        r@ == implement_event(
            decision,
            reason@,
            text::opt_view(detail),
            text::opt_view(content),
        ),
{
    events::build_task_event(
        1,
        "implement",
        "task_implement",
        decision,
        Some(reason),
        detail,
        content,
    )
}

/// How a turn of the implementation failed.
#[derive(Debug)]
pub enum TurnFault {
    /// Its result was not accepted, and no retry is left.
    Rejected { output: String, error: String },
    /// The agent failed.
    Failed { failure: TurnFailure },
    /// The agent did not answer in time.
    TimedOut { secs: u64 },
}

/// What a [`TurnFault`] holds.
pub enum FaultView {
    Rejected { output: Seq<char>, error: Seq<char> },
    Failed { failure: FailureView },
    TimedOut { secs: nat },
}

impl View for TurnFault {
    type V = FaultView;

    open spec fn view(&self) -> FaultView {
        match self {
            TurnFault::Rejected { output, error } => FaultView::Rejected {
                output: output@,
                error: error@,
            },
            TurnFault::Failed { failure } => FaultView::Failed { failure: failure@ },
            TurnFault::TimedOut { secs } => FaultView::TimedOut { secs: *secs as nat },
        }
    }
}

/// The failure behind a fault of the given agent.
pub open spec fn fault_failure(fault: FaultView, agent: Seq<char>) -> FailureView {
    match fault {
        FaultView::Rejected { error, .. } => telemetry::plain_failure(
            TurnFailureKind::Protocol,
            Some(agent),
            error,
        ),
        FaultView::Failed { failure } => failure,
        FaultView::TimedOut { secs } => telemetry::plain_failure(
            TurnFailureKind::Timeout,
            Some(agent),
            timeout_text(secs),
        ),
    }
}

/// What is stored and noted of a failed turn, but for how it went.
pub open spec fn fault_entry(fault: FaultView) -> ReportView {
    match fault {
        FaultView::Rejected { output, .. } => ReportView {
            change: task::unchanged().and_round(
                1,
                "implement"@,
                failure_word(TurnFailureKind::Protocol),
                Some(output),
            ),
            event: implement_event(
                Decision::Block,
                "implementation validation failed"@,
                None,
                Some(output),
            ),
        },
        FaultView::Failed { failure } => ReportView {
            change: task::unchanged().and_round(1, "implement"@, failure_word(failure.kind), None),
            event: implement_event(Decision::Block, "implementation failed"@, None, None),
        },
        FaultView::TimedOut { .. } => ReportView {
            change: task::unchanged().and_round(1, "implement"@, "timeout"@, None),
            event: implement_event(Decision::Block, "implementation timed out"@, None, None),
        },
    }
}

/// What is stored and noted of a failed turn of the given agent.
pub open spec fn fault_report(
    fault: FaultView,
    agent: Seq<char>,
    telemetry: TurnTelemetry,
) -> ReportView {
    fault_entry(fault).marked(telemetry::failed(telemetry, fault_failure(fault, agent)))
}

/// What is stored and noted of a failed turn of the given agent.
pub fn report_fault(fault: TurnFault, agent: &str, telemetry: TurnTelemetry) -> (r: Report)
    ensures
        r@ == fault_report(fault@, agent@, telemetry),
{
    let provider = Some(agent.to_owned());
    match fault {
        TurnFault::Rejected { output, error } => {
            let change = TaskChange::none().with_round(
                1,
                "implement",
                implementation_failure_result(TurnFailureKind::Protocol),
                Some(output.clone()),
            );
            let event = implement_note(
                Decision::Block,
                "implementation validation failed".to_owned(),
                None,
                Some(output),
            );
            let failure = TurnFailure::plain(TurnFailureKind::Protocol, provider, error.as_str());
            Report { change, event }.marked(TurnMark::failed(telemetry, failure))
        },
        TurnFault::Failed { failure } => {
            let change = TaskChange::none().with_round(
                1,
                "implement",
                implementation_failure_result(failure.kind),
                None,
            );
            let event = implement_note(
                Decision::Block,
                "implementation failed".to_owned(),
                None,
                None,
            );
            Report { change, event }.marked(TurnMark::failed(telemetry, failure))
        },
        TurnFault::TimedOut { secs } => {
            let change = TaskChange::none().with_round(1, "implement", "timeout", None);
            let event = implement_note(
                Decision::Block,
                "implementation timed out".to_owned(),
                None,
                None,
            );
            let message = timeout_error(secs);
            let failure = TurnFailure::plain(TurnFailureKind::Timeout, provider, message.as_str());
            Report { change, event }.marked(TurnMark::failed(telemetry, failure))
        },
    }
}

/// The error of a turn that took too long.
pub open spec fn timeout_text(secs: nat) -> Seq<char> {
    "Implementation turn timed out after "@ + text::decimal(secs) + "s"@
}

/// The error of a turn that took too long.
pub fn timeout_error(turn_timeout_secs: u64) -> (r: String)
    ensures
        r@ == timeout_text(turn_timeout_secs as nat),
{
    let mut e = "Implementation turn timed out after ".to_owned();
    e.append(text::decimal_text(turn_timeout_secs).as_str());
    e.append("s");
    e
}

/// An agent's output with what it wrote to its error stream, so that a marker is found
/// in either.
pub open spec fn whole_output(output: Seq<char>, stderr: Seq<char>) -> Seq<char> {
    if stderr.len() == 0 {
        output
    } else {
        output + "\n--- stderr ---\n"@ + stderr
    }
}

/// An agent's output with what it wrote to its error stream.
pub fn combined_output(output: String, stderr: &str) -> (r: String)
    ensures
        r@ == whole_output(output@, stderr@),
{
    if stderr.is_empty() {
        return output;
    }
    let mut out = output;
    out.append("\n--- stderr ---\n");
    out.append(stderr);
    out
}

/// Whether a commit was pushed: what the agent says of it counts, whatever became of the
/// branch; where it says nothing, a pushed rebase is a pushed commit and nothing else is;
/// and where nothing is said at all, only the check of a pull request has to know.
pub proof fn law_pushed_flag_follows_the_agent(pushed: bool, prep: Option<PrepView>, check: bool)
    ensures
        pushed_flag(check, Some(pushed), prep) == Ok::<bool, Seq<char>>(pushed),
        pushed_flag(check, None, Some(PrepView::RebasePushed)) == Ok::<bool, Seq<char>>(true),
        pushed_flag(check, None, Some(PrepView::RebaseSkipped)) == Ok::<bool, Seq<char>>(false),
        prep matches Some(PrepView::RebaseConflict { .. }) ==> pushed_flag(check, None, prep)
            == Ok::<bool, Seq<char>>(false),
        pushed_flag(false, None, None) == Ok::<bool, Seq<char>>(false),
        pushed_flag(true, None, None) is Err,
{
}

/// What an output says is read from its markers, each for itself; a fault of the plan comes
/// before them, and a marker that says neither yes nor no is an error.
pub proof fn law_outcome_is_what_the_markers_say(output: Seq<char>)
    ensures
        markers::plan_issue(output) matches Some(fault) ==> outcome(output) == Ok::<
            OutcomeView,
            Seq<char>,
        >(OutcomeView::PlanIssue(fault)),
        markers::plan_issue(output) is None && markers::pushed_commit(output) is Err
            ==> outcome(output) == Err::<OutcomeView, Seq<char>>(
            markers::pushed_commit(output)->Err_0,
        ),
        markers::plan_issue(output) is None && markers::pushed_commit(output) is Ok ==> (
        outcome(output) matches Ok(
            OutcomeView::ParsedPr {
                pr_url,
                pr_num,
                created_issue_num,
                pushed_commit,
                review_prep,
            },
        ) && pr_url == markers::pr_url(output) && created_issue_num == markers::created_issue(
            output,
        ) && pushed_commit == markers::pushed_commit(output)->Ok_0 && review_prep
            == markers::review_prep(output) && (pr_url is None ==> pr_num is None) && (
        pr_url matches Some(url) ==> pr_num == markers::pr_number(url))),
{
}

/// An agent has strayed into another session's place where its output says so, and nowhere
/// else.
pub proof fn law_collision_is_told_in_words(before: Seq<char>, after: Seq<char>, output: Seq<char>)
    ensures
        collision(before + "managed by another harness session"@ + after),
        collision(output) ==> text::contains(output, "managed by another harness session"@),
{
    text::lemma_contains_part(before, "managed by another harness session"@, after);
}

/// Each kind of failure is recorded under a word of its own.
pub proof fn law_failures_are_recorded_apart(a: TurnFailureKind, b: TurnFailureKind)
    ensures
        failure_word(a) == failure_word(b) ==> a == b,
        failure_word(TurnFailureKind::Timeout) == "timeout"@,
        failure_word(TurnFailureKind::Quota) == "quota_exhausted"@,
        failure_word(TurnFailureKind::Billing) == "billing_failed"@,
        failure_word(TurnFailureKind::Upstream) == "upstream_failure"@,
        failure_word(TurnFailureKind::LocalProcess) == "local_process_failure"@,
        failure_word(TurnFailureKind::Protocol) == "protocol_failure"@,
        failure_word(TurnFailureKind::Unknown) == "failed"@,
{
    reveal_strlit("timeout");
    reveal_strlit("quota_exhausted");
    reveal_strlit("billing_failed");
    reveal_strlit("upstream_failure");
    reveal_strlit("local_process_failure");
    reveal_strlit("protocol_failure");
    reveal_strlit("failed");
    assert("timeout"@.len() == 7 && "quota_exhausted"@.len() == 15 && "billing_failed"@.len() == 14);
    assert("upstream_failure"@.len() == 16 && "local_process_failure"@.len() == 21);
    assert("protocol_failure"@.len() == 16 && "failed"@.len() == 6);
    assert("upstream_failure"@[0] == 'u' && "protocol_failure"@[0] == 'p');
}

/// A failed turn leaves the status of its task alone; it is recorded once, with its times
/// and its failure, and noted as blocking.
pub proof fn law_failed_turn_is_recorded(
    fault: FaultView,
    agent: Seq<char>,
    telemetry: TurnTelemetry,
)
    ensures
        ({
            let r = fault_report(fault, agent, telemetry);
            let round = r.change.rounds[0];
            &&& r.change.status is None && r.change.error is None && r.change.turn is None
            &&& r.change.rounds.len() == 1
            &&& round.turn == 1 && round.action == "implement"@
            &&& round.mark == r.event.mark && round.mark.telemetry == Some(telemetry)
            &&& r.event.decision == Decision::Block && r.event.hook == "task_implement"@
            &&& round.mark.failure matches Some(f) && match fault {
                FaultView::Rejected { output, error } => f.kind == TurnFailureKind::Protocol
                    && f.provider == Some(agent) && f.message == Some(error) && round.result
                    == "protocol_failure"@ && round.detail == Some(output) && r.event.content
                    == Some(output),
                FaultView::Failed { failure } => f == failure && round.result == failure_word(
                    failure.kind,
                ) && round.detail is None,
                FaultView::TimedOut { .. } => f.kind == TurnFailureKind::Timeout && f.provider
                    == Some(agent) && round.result == "timeout"@,
            }
        }),
{
}

/// Nothing that an agent wrote is lost: its output comes first and is whole, and what it
/// wrote to its error stream comes last and is whole.
pub proof fn law_whole_output_keeps_both_streams(output: Seq<char>, stderr: Seq<char>)
    ensures
        text::starts_with(whole_output(output, stderr), output),
        text::ends_with(whole_output(output, stderr), stderr),
        stderr.len() == 0 ==> whole_output(output, stderr) == output,
        stderr.len() > 0 ==> whole_output(output, stderr).len() > output.len() + stderr.len(),
        stderr.len() > 0 ==> whole_output(output, stderr)[output.len() as int] == '\n',
{
    let w = whole_output(output, stderr);
    reveal_strlit("\n--- stderr ---\n");
    assert(w.take(output.len() as int) == output);
    assert(w.skip(w.len() - stderr.len()) == stderr);
}

/// Results are seen as they are.
pub proof fn law_results_are_seen_as_they_are(o: ImplementationOutcome, b: bool, e: String)
    ensures
        outcome_result(Ok(o)) == Ok::<OutcomeView, Seq<char>>(o@),
        outcome_result(Err(e)) == Err::<OutcomeView, Seq<char>>(e@),
        flag_result(Ok(b)) == Ok::<bool, Seq<char>>(b),
        flag_result(Err(e)) == Err::<bool, Seq<char>>(e@),
{
}

/// A note about the implementation is about the first turn, and says what it was given.
pub proof fn law_implementation_is_the_first_turn(
    decision: Decision,
    reason: Seq<char>,
    detail: Option<Seq<char>>,
    content: Option<Seq<char>>,
)
    ensures
        ({
            let e = implement_event(decision, reason, detail, content);
            &&& e.turn == Some(1nat)
            &&& e.phase == Some("implement"@)
            &&& e.hook == "task_implement"@
            &&& e.decision == decision
            &&& e.reason == Some(reason)
            &&& e.detail == detail
            &&& e.content == content
            &&& e.mark.telemetry is None
            &&& e.mark.failure is None
        }),
{
}

} // verus!
