//! The way into a review: whether the pull request's branch is up to date.

use crate::events;
use crate::events::{Decision, EventView, Report, ReportView};
use crate::markers;
use crate::markers::{PrReviewPrepOutcome, PrepView};
use crate::outcome::{LogEntry, LogView};
use crate::task;
use crate::task::{RoundResult, RoundView, TaskChange, TaskStatus, TurnFailureKind};
use crate::telemetry;
use crate::telemetry::{FailureView, MarkView, TurnFailure, TurnMark, TurnTelemetry};
use crate::text;
use crate::text::CharClass;
use vstd::prelude::*;
use vstd::string::*;

verus! {

/// The words by which the intake of issues tells that a person has to act, so that the
/// task is not tried again.
pub const MANUAL_RESOLUTION_REQUIRED: &'static str = "manual resolution required";

/// Whether the review may begin.
#[derive(Debug, PartialEq, Eq)]
pub enum ReviewEntryDecision {
    Proceed { rebase_pushed: bool },
    FailConflict { error: String, paths_csv: String },
}

/// What a [`ReviewEntryDecision`] holds.
pub enum EntryView {
    Proceed { rebase_pushed: bool },
    FailConflict { error: Seq<char>, paths_csv: Seq<char> },
}

impl View for ReviewEntryDecision {
    type V = EntryView;

    open spec fn view(&self) -> EntryView {
        match self {
            ReviewEntryDecision::Proceed { rebase_pushed } => EntryView::Proceed {
                rebase_pushed: *rebase_pushed,
            },
            ReviewEntryDecision::FailConflict { error, paths_csv } => EntryView::FailConflict {
                error: error@,
                paths_csv: paths_csv@,
            },
        }
    }
}

/// The paths in conflict, as they are reported.
pub open spec fn paths_text(paths: Seq<Seq<char>>) -> Seq<char> {
    if paths.len() == 0 {
        "unknown paths"@
    } else {
        text::join(paths, ", "@)
    }
}

/// The error of a task whose pull request has conflicts.
pub open spec fn conflict_error(pr_num: nat, paths: Seq<Seq<char>>) -> Seq<char> {
    "PR #"@ + text::decimal(pr_num) + " has rebase conflicts: "@ + paths_text(paths) + "; "@
        + MANUAL_RESOLUTION_REQUIRED@
}

/// Whether the review may begin, by what was done to the branch.
pub open spec fn entry(pr_num: nat, prep: Option<PrepView>) -> EntryView {
    match prep {
        Some(PrepView::RebaseConflict { paths }) => EntryView::FailConflict {
            error: conflict_error(pr_num, paths),
            paths_csv: paths_text(paths),
        },
        _ => EntryView::Proceed { rebase_pushed: prep == Some(PrepView::RebasePushed) },
    }
}

/// Whether the review may begin, by what was done to the branch.
pub fn review_entry_decision(pr_num: u64, review_prep: Option<&PrReviewPrepOutcome>) -> (r:
    ReviewEntryDecision)
    ensures
        r@ == entry(pr_num as nat, markers::prep_of(review_prep)),
{
    match review_prep {
        Some(PrReviewPrepOutcome::RebasePushed) => ReviewEntryDecision::Proceed {
            rebase_pushed: true,
        },
        Some(PrReviewPrepOutcome::RebaseSkipped) | None => ReviewEntryDecision::Proceed {
            rebase_pushed: false,
        },
        Some(PrReviewPrepOutcome::RebaseConflict { paths }) => {
            let paths_csv = if paths.len() == 0 {
                "unknown paths".to_owned()
            } else {
                text::joined(paths.as_slice(), ", ")
            };
            let mut error = "PR #".to_owned();
            error.append(text::decimal_text(pr_num).as_str());
            error.append(" has rebase conflicts: ");
            error.append(paths_csv.as_str());
            error.append("; ");
            error.append(MANUAL_RESOLUTION_REQUIRED);
            ReviewEntryDecision::FailConflict { error, paths_csv }
        },
    }
}

/// The word by which an outcome is recorded.
pub open spec fn prep_word(prep: PrepView) -> Seq<char> {
    match prep {
        PrepView::RebasePushed => "rebase_pushed"@,
        PrepView::RebaseSkipped => "rebase_skipped"@,
        PrepView::RebaseConflict { .. } => "rebase_conflict"@,
    }
}

/// The word by which an outcome is recorded, in the record and in a checkpoint.
pub fn review_prep_label(prep: &PrReviewPrepOutcome) -> (r: &'static str)
    ensures
        r@ == prep_word(prep@),
{
    match prep {
        PrReviewPrepOutcome::RebasePushed => "rebase_pushed",
        PrReviewPrepOutcome::RebaseSkipped => "rebase_skipped",
        PrReviewPrepOutcome::RebaseConflict { .. } => "rebase_conflict",
    }
}

/// The outcome that a checkpoint tells of.
pub open spec fn checkpoint_prep(phase: Seq<char>) -> Option<PrepView> {
    if phase == "rebase_pushed"@ {
        Some(PrepView::RebasePushed)
    } else if phase == "rebase_skipped"@ {
        Some(PrepView::RebaseSkipped)
    } else if phase == "rebase_conflict"@ {
        Some(PrepView::RebaseConflict { paths: seq![] })
    } else {
        None
    }
}

/// The outcome that a checkpoint tells of.
pub fn review_prep_from_checkpoint_phase(last_phase: &str) -> (r: Option<PrReviewPrepOutcome>)
    ensures
        markers::opt_prep(r) == checkpoint_prep(last_phase@),
{
    if text::str_eq(last_phase, "rebase_pushed") {
        Some(PrReviewPrepOutcome::RebasePushed)
    } else if text::str_eq(last_phase, "rebase_skipped") {
        Some(PrReviewPrepOutcome::RebaseSkipped)
    } else if text::str_eq(last_phase, "rebase_conflict") {
        let paths: Vec<String> = Vec::new();
        assert(text::texts(paths@) == Seq::<Seq<char>>::empty());
        Some(PrReviewPrepOutcome::RebaseConflict { paths })
    } else {
        None
    }
}

/// What an entry of a task's record tells of the branch.
pub open spec fn round_prep(round: RoundView) -> Option<PrepView> {
    if round.result != "rebase_conflict"@ {
        checkpoint_prep(round.result)
    } else if round.detail is Some && markers::review_prep(round.detail->0) is Some {
        markers::review_prep(round.detail->0)
    } else {
        Some(PrepView::RebaseConflict { paths: seq![] })
    }
}

/// What a task's record tells of the branch: the last entry of an implementation
/// counts.
pub open spec fn rounds_prep(rounds: Seq<RoundView>) -> Option<PrepView>
    decreases rounds.len(),
{
    if rounds.len() == 0 {
        None
    } else if rounds.last().action == "implement"@ {
        round_prep(rounds.last())
    } else {
        rounds_prep(rounds.drop_last())
    }
}

fn prep_from_round(round: &RoundResult) -> (r: Option<PrReviewPrepOutcome>)
    ensures
        markers::opt_prep(r) == round_prep(round@),
{
    if text::str_eq(round.result.as_str(), "rebase_conflict") {
        if let Some(detail) = &round.detail {
            let told = markers::parse_pr_review_prep_outcome(detail.as_str());
            if told.is_some() {
                return told;
            }
        }
        let paths: Vec<String> = Vec::new();
        assert(text::texts(paths@) == Seq::<Seq<char>>::empty());
        return Some(PrReviewPrepOutcome::RebaseConflict { paths });
    }
    review_prep_from_checkpoint_phase(round.result.as_str())
}

/// What a task's record tells of the branch.
pub fn review_prep_from_rounds(rounds: &Vec<RoundResult>) -> (r: Option<PrReviewPrepOutcome>)
    ensures
        markers::opt_prep(r) == rounds_prep(task::round_views(rounds@)),
{
    let ghost all = task::round_views(rounds@);
    let mut n: usize = rounds.len();
    assert(all.take(n as int) == all);
    while n > 0
        invariant
            n <= rounds.len(),
            all == task::round_views(rounds@),
            rounds_prep(all) == rounds_prep(all.take(n as int)),
        decreases n,
    {
        let round = &rounds[n - 1];
        assert(all.take(n as int).last() == round@);
        assert(all.take(n as int).drop_last() == all.take(n - 1));
        if text::str_eq(round.action.as_str(), "implement") {
            return prep_from_round(round);
        }
        n -= 1;
    }
    None
}

/// The `name=number` by which an event names a pull request.
pub open spec fn pr_detail(pr_num: nat) -> Seq<char> {
    "pr="@ + text::decimal(pr_num)
}

fn pr_detail_text(pr_num: u64) -> (r: String)
    ensures
        r@ == pr_detail(pr_num as nat),
{
    let mut s = "pr=".to_owned();
    s.append(text::decimal_text(pr_num).as_str());
    s
}

/// What is stored and noted of a task whose pull request has conflicts, and what the log of
/// tasks is to hold of it.
pub fn fail_rebase_conflict(
    task_id: &str,
    pr_num: u64,
    error: String,
    paths_csv: String,
) -> (r: (Report, LogEntry))
    ensures
        r.1@ == (LogView::Failed { reason: error@ }),
        r.0@.change == task::moved(TaskStatus::Failed, None, Some(error@)),
        r.0@.event == (EventView {
            turn: None,
            phase: None,
            hook: "pr_rebase_conflict"@,
            decision: Decision::Block,
            reason: Some(paths_csv@),
            detail: Some("task_id="@ + task_id@ + " pr="@ + text::decimal(pr_num as nat)),
            content: None,
            mark: telemetry::no_mark(),
        }),
{
    let mut detail = "task_id=".to_owned();
    detail.append(task_id);
    detail.append(" pr=");
    detail.append(text::decimal_text(pr_num).as_str());
    let entry = LogEntry::Failed { reason: error.as_str().to_owned() };
    let report = Report {
        change: TaskChange::to(TaskStatus::Failed, None, Some(error)),
        event: events::build_event(
            "pr_rebase_conflict",
            Decision::Block,
            Some(paths_csv),
            Some(detail),
        ),
    };
    (report, entry)
}

/// What an agent found of a resumed pull request.
#[derive(Clone, Copy, Debug, PartialEq, Eq, Structural)]
pub enum ConflictCheckOutcome {
    CleanPr,
    RebasePushed,
    ManualResolutionRequired,
}

/// The last of the lines that holds more than white space, trimmed.
pub open spec fn last_line(rows: Seq<Seq<char>>) -> Option<Seq<char>>
    decreases rows.len(),
{
    if rows.len() == 0 {
        None
    } else if text::trim(rows.last(), CharClass::White).len() > 0 {
        Some(text::trim(rows.last(), CharClass::White))
    } else {
        last_line(rows.drop_last())
    }
}

/// What an output says of a resumed pull request. Only its last line counts, and only
/// one of three words is understood there.
pub open spec fn conflict_check(output: Seq<char>) -> Result<ConflictCheckOutcome, Seq<char>> {
    match last_line(text::lines(output)) {
        None => Err("missing terminal conflict gate token"@),
        Some(line) => if line == "CLEAN_PR"@ {
            Ok(ConflictCheckOutcome::CleanPr)
        } else if line == "REBASE_PUSHED"@ {
            Ok(ConflictCheckOutcome::RebasePushed)
        } else if line == "MANUAL_RESOLUTION_REQUIRED"@ {
            Ok(ConflictCheckOutcome::ManualResolutionRequired)
        } else {
            Err("unexpected conflict gate terminal token `"@ + line + "`"@)
        },
    }
}

/// The view of a result whose error is a string.
pub open spec fn check_view(r: Result<ConflictCheckOutcome, String>) -> Result<
    ConflictCheckOutcome,
    Seq<char>,
> {
    match r {
        Ok(o) => Ok(o),
        Err(e) => Err(e@),
    }
}

fn last_line_text(output: &str) -> (r: Option<String>)
    ensures
        text::opt_view(r) == last_line(text::lines(output@)),
{
    let chars = text::chars_of(output);
    let all = text::line_list(chars.as_slice());
    let ghost rows = text::lines(output@);
    let mut n: usize = all.len();
    assert(rows.take(n as int) == rows);
    while n > 0
        invariant
            n <= all.len(),
            rows == text::rows(all@),
            rows == text::lines(output@),
            last_line(rows) == last_line(rows.take(n as int)),
        decreases n,
    {
        let row = text::trimmed(all[n - 1].as_slice(), CharClass::White);
        assert(rows.take(n as int).last() == all@[n - 1]@);
        assert(rows.take(n as int).drop_last() == rows.take(n - 1));
        if row.len() > 0 {
            return Some(text::text_of(row));
        }
        n -= 1;
    }
    None
}

/// What an output says of a resumed pull request. Only its last line counts, and only
/// one of three words is understood there.
pub fn parse_conflict_check_output(output: &str) -> (r: Result<ConflictCheckOutcome, String>)
    ensures
        check_view(r) == conflict_check(output@),
{
    match last_line_text(output) {
        None => Err("missing terminal conflict gate token".to_owned()),
        Some(line) => {
            if text::str_eq(line.as_str(), "CLEAN_PR") {
                return Ok(ConflictCheckOutcome::CleanPr);
            }
            if text::str_eq(line.as_str(), "REBASE_PUSHED") {
                return Ok(ConflictCheckOutcome::RebasePushed);
            }
            if text::str_eq(line.as_str(), "MANUAL_RESOLUTION_REQUIRED") {
                return Ok(ConflictCheckOutcome::ManualResolutionRequired);
            }
            let mut e = "unexpected conflict gate terminal token `".to_owned();
            e.append(line.as_str());
            e.append("`");
            Err(e)
        },
    }
}

/// How the conflict gate before the review of a resumed pull request ended.
#[derive(Clone, Copy, Debug, PartialEq, Eq, Structural)]
pub enum ConflictGateOutcome {
    Clean,
    RebasePushed,
    Failed,
}

/// What came of the agent's turn at the conflict gate.
#[derive(Debug)]
pub enum GateTurn {
    /// No turn was left.
    NoTurnLeft { used: u32, max: u32 },
    /// The agent failed.
    Failed { error: String, failure: TurnFailure, telemetry: TurnTelemetry },
    /// The agent did not answer in time.
    TimedOut { secs: u64, agent: String, telemetry: TurnTelemetry },
    /// The agent answered, and the answer was not accepted.
    Invalid { error: String, output: String, telemetry: TurnTelemetry },
    /// The agent answered.
    Answered { output: String, telemetry: TurnTelemetry },
}

/// What a [`GateTurn`] holds.
pub enum GateTurnView {
    NoTurnLeft { used: nat, max: nat },
    Failed { error: Seq<char>, failure: FailureView, telemetry: TurnTelemetry },
    TimedOut { secs: nat, agent: Seq<char>, telemetry: TurnTelemetry },
    Invalid { error: Seq<char>, output: Seq<char>, telemetry: TurnTelemetry },
    Answered { output: Seq<char>, telemetry: TurnTelemetry },
}

impl View for GateTurn {
    type V = GateTurnView;

    open spec fn view(&self) -> GateTurnView {
        match self {
            GateTurn::NoTurnLeft { used, max } => GateTurnView::NoTurnLeft {
                used: *used as nat,
                max: *max as nat,
            },
            GateTurn::Failed { error, failure, telemetry } => GateTurnView::Failed {
                error: error@,
                failure: failure@,
                telemetry: *telemetry,
            },
            GateTurn::TimedOut { secs, agent, telemetry } => GateTurnView::TimedOut {
                secs: *secs as nat,
                agent: agent@,
                telemetry: *telemetry,
            },
            GateTurn::Invalid { error, output, telemetry } => GateTurnView::Invalid {
                error: error@,
                output: output@,
                telemetry: *telemetry,
            },
            GateTurn::Answered { output, telemetry } => GateTurnView::Answered {
                output: output@,
                telemetry: *telemetry,
            },
        }
    }
}

/// Whether a turn is left.
pub open spec fn turn_left(used: u32, max: Option<u32>) -> bool {
    match max {
        Some(m) => used < m,
        None => true,
    }
}

/// What happens at the conflict gate when no turn is left.
pub fn gate_without_turn(turns_used: u32, max_turns: Option<u32>) -> (r: Option<GateTurn>)
    ensures
        r is None == turn_left(turns_used, max_turns),
        r matches Some(t) ==> t@ == (GateTurnView::NoTurnLeft {
            used: turns_used as nat,
            max: max_turns->0 as nat,
        }),
{
    match max_turns {
        Some(max) => if turns_used >= max {
            Some(GateTurn::NoTurnLeft { used: turns_used, max })
        } else {
            None
        },
        None => None,
    }
}

/// The number of the conflict gate's turn.
pub open spec fn gate_turn_number(used: u32) -> u32 {
    if used == u32::MAX {
        used
    } else {
        (used + 1) as u32
    }
}

/// The number of the conflict gate's turn.
pub fn gate_turn(turns_used: u32) -> (r: u32)
    ensures
        r == gate_turn_number(turns_used),
{
    if turns_used == u32::MAX {
        turns_used
    } else {
        turns_used + 1
    }
}

/// How the conflict gate ends after a turn.
pub open spec fn gate_outcome(turn: GateTurnView) -> ConflictGateOutcome {
    match turn {
        GateTurnView::Answered { output, .. } => match conflict_check(output) {
            Ok(ConflictCheckOutcome::CleanPr) => ConflictGateOutcome::Clean,
            Ok(ConflictCheckOutcome::RebasePushed) => ConflictGateOutcome::RebasePushed,
            _ => ConflictGateOutcome::Failed,
        },
        _ => ConflictGateOutcome::Failed,
    }
}

/// The word by which the conflict gate's turn is recorded.
pub open spec fn gate_word(turn: GateTurnView) -> Seq<char> {
    match turn {
        GateTurnView::NoTurnLeft { .. } => "turn_budget_exhausted"@,
        GateTurnView::Failed { .. } => "failed"@,
        GateTurnView::TimedOut { .. } => "timeout"@,
        GateTurnView::Invalid { .. } => "validation_failed"@,
        GateTurnView::Answered { output, .. } => match conflict_check(output) {
            Ok(ConflictCheckOutcome::CleanPr) => "clean"@,
            Ok(ConflictCheckOutcome::RebasePushed) => "rebase_pushed"@,
            Ok(ConflictCheckOutcome::ManualResolutionRequired) => "manual_resolution_required"@,
            Err(_) => "malformed_output"@,
        },
    }
}

/// Why the conflict gate ended as it did. A failure's reason is the task's error.
pub open spec fn gate_reason(pr_num: nat, turn: GateTurnView) -> Seq<char> {
    let pr = "pr:"@ + text::decimal(pr_num);
    let closed = pr + " conflict gate failed closed; "@ + MANUAL_RESOLUTION_REQUIRED@;
    match turn {
        GateTurnView::NoTurnLeft { used, max } => pr
            + " conflict gate could not run before review; "@ + MANUAL_RESOLUTION_REQUIRED@
            + ": turn budget exhausted after "@ + text::decimal(used) + " of "@ + text::decimal(max)
            + " allowed turns"@,
        GateTurnView::Failed { error, .. } => closed + ": "@ + error,
        GateTurnView::TimedOut { secs, .. } => pr + " conflict gate timed out; "@
            + MANUAL_RESOLUTION_REQUIRED@ + " after "@ + text::decimal(secs) + "s"@,
        GateTurnView::Invalid { error, .. } => closed + ": post-execution validation failed: "@
            + error,
        GateTurnView::Answered { output, .. } => match conflict_check(output) {
            Ok(ConflictCheckOutcome::CleanPr) => "resumed PR conflict gate passed cleanly"@,
            Ok(ConflictCheckOutcome::RebasePushed) =>
                "resumed PR conflict gate rebased and pushed"@,
            Ok(ConflictCheckOutcome::ManualResolutionRequired) => pr
                + " is conflicting and rebase was not pushed; "@ + MANUAL_RESOLUTION_REQUIRED@,
            Err(e) => closed + ": malformed output ("@ + e + ")"@,
        },
    }
}

/// What is kept of the agent's answer.
pub open spec fn gate_output(turn: GateTurnView) -> Option<Seq<char>> {
    match turn {
        GateTurnView::Invalid { output, .. } => events::kept(output),
        GateTurnView::Answered { output, .. } => events::kept(output),
        _ => None,
    }
}

/// How the conflict gate's turn went.
pub open spec fn gate_mark(pr_num: nat, turn: GateTurnView) -> MarkView {
    match turn {
        GateTurnView::NoTurnLeft { .. } => telemetry::no_mark(),
        GateTurnView::Failed { failure, telemetry, .. } => telemetry::failed(telemetry, failure),
        GateTurnView::TimedOut { agent, telemetry, .. } => telemetry::failed(
            telemetry,
            telemetry::plain_failure(
                TurnFailureKind::Timeout,
                Some(agent),
                gate_reason(pr_num, turn),
            ),
        ),
        GateTurnView::Invalid { telemetry, .. } => telemetry::timed(telemetry),
        GateTurnView::Answered { telemetry, .. } => telemetry::timed(telemetry),
    }
}

/// What is stored and noted of the conflict gate.
pub open spec fn gate_report(pr_num: nat, number: nat, turn: GateTurnView) -> ReportView {
    gate_entry(pr_num, number, turn).marked(gate_mark(pr_num, turn))
}

/// What is stored and noted of the conflict gate, but for how its turn went.
pub open spec fn gate_entry(pr_num: nat, number: nat, turn: GateTurnView) -> ReportView {
    let reason = gate_reason(pr_num, turn);
    let failed = gate_outcome(turn) == ConflictGateOutcome::Failed;
    ReportView {
        change: (if failed {
            task::moved(TaskStatus::Failed, Some(number), Some(reason))
        } else {
            task::unchanged()
        }).and_round(number, "conflict_gate"@, gate_word(turn), gate_output(turn)),
        event: EventView {
            turn: Some(number),
            phase: Some("conflict_gate"@),
            hook: "pr_conflict_gate"@,
            decision: if failed {
                Decision::Block
            } else {
                Decision::Complete
            },
            reason: Some(reason),
            detail: Some(pr_detail(pr_num)),
            content: gate_output(turn),
            mark: telemetry::no_mark(),
        },
    }
}

fn gate_failure(number: u32, pr_num: u64, result: &str, reason: String, output: Option<String>) -> (r:
    Report)
    ensures
        r@.change == task::moved(TaskStatus::Failed, Some(number as nat), Some(reason@)).and_round(
            number as nat,
            "conflict_gate"@,
            result@,
            text::opt_view(output),
        ),
        r@.event == (EventView {
            turn: Some(number as nat),
            phase: Some("conflict_gate"@),
            hook: "pr_conflict_gate"@,
            decision: Decision::Block,
            reason: Some(reason@),
            detail: Some(pr_detail(pr_num as nat)),
            content: text::opt_view(output),
            mark: telemetry::no_mark(),
        }),
{
    let kept = text::copy_opt(&output);
    let change = TaskChange::to(TaskStatus::Failed, Some(number), Some(reason.clone())).with_round(
        number,
        "conflict_gate",
        result,
        output,
    );
    let event = events::build_task_event(
        number,
        "conflict_gate",
        "pr_conflict_gate",
        Decision::Block,
        Some(reason),
        Some(pr_detail_text(pr_num)),
        kept,
    );
    Report { change, event }
}

fn gate_success(number: u32, pr_num: u64, result: &str, reason: &str, output: Option<String>) -> (r:
    Report)
    ensures
        r@.change == task::unchanged().and_round(
            number as nat,
            "conflict_gate"@,
            result@,
            text::opt_view(output),
        ),
        r@.event == (EventView {
            turn: Some(number as nat),
            phase: Some("conflict_gate"@),
            hook: "pr_conflict_gate"@,
            decision: Decision::Complete,
            reason: Some(reason@),
            detail: Some(pr_detail(pr_num as nat)),
            content: text::opt_view(output),
            mark: telemetry::no_mark(),
        }),
{
    let kept = text::copy_opt(&output);
    let change = TaskChange::none().with_round(number, "conflict_gate", result, output);
    let event = events::build_task_event(
        number,
        "conflict_gate",
        "pr_conflict_gate",
        Decision::Complete,
        Some(reason.to_owned()),
        Some(pr_detail_text(pr_num)),
        kept,
    );
    Report { change, event }
}

fn gate_closed(pr_num: u64, words: &str) -> (r: String)
    ensures
        r@ == "pr:"@ + text::decimal(pr_num as nat) + words@ + MANUAL_RESOLUTION_REQUIRED@,
{
    let mut s = "pr:".to_owned();
    s.append(text::decimal_text(pr_num).as_str());
    s.append(words);
    s.append(MANUAL_RESOLUTION_REQUIRED);
    s
}

/// Ends the conflict gate before the review of a resumed pull request, by what came of its turn.
/// Whatever is not a clear answer fails the task.
pub fn end_conflict_gate(pr_num: u64, number: u32, turn: GateTurn) -> (r: (
    ConflictGateOutcome,
    Report,
))
    ensures
        r.0 == gate_outcome(turn@),
        r.1@ == gate_report(pr_num as nat, number as nat, turn@),
{
    match turn {
        GateTurn::NoTurnLeft { used, max } => {
            let mut reason = gate_closed(pr_num, " conflict gate could not run before review; ");
            reason.append(": turn budget exhausted after ");
            reason.append(text::decimal_text(used as u64).as_str());
            reason.append(" of ");
            reason.append(text::decimal_text(max as u64).as_str());
            reason.append(" allowed turns");
            let report = gate_failure(number, pr_num, "turn_budget_exhausted", reason, None).marked(
                TurnMark::none(),
            );
            (ConflictGateOutcome::Failed, report)
        },
        GateTurn::Failed { error, failure, telemetry } => {
            let mut reason = gate_closed(pr_num, " conflict gate failed closed; ");
            reason.append(": ");
            reason.append(error.as_str());
            let report = gate_failure(number, pr_num, "failed", reason, None).marked(
                TurnMark::failed(telemetry, failure),
            );
            (ConflictGateOutcome::Failed, report)
        },
        GateTurn::TimedOut { secs, agent, telemetry } => {
            let mut reason = gate_closed(pr_num, " conflict gate timed out; ");
            reason.append(" after ");
            reason.append(text::decimal_text(secs).as_str());
            reason.append("s");
            let failure = TurnFailure::plain(
                TurnFailureKind::Timeout,
                Some(agent),
                reason.as_str(),
            );
            let report = gate_failure(number, pr_num, "timeout", reason, None).marked(
                TurnMark::failed(telemetry, failure),
            );
            (ConflictGateOutcome::Failed, report)
        },
        GateTurn::Invalid { error, output, telemetry } => {
            let mut reason = gate_closed(pr_num, " conflict gate failed closed; ");
            reason.append(": post-execution validation failed: ");
            reason.append(error.as_str());
            let kept = events::kept_output(output.as_str());
            let report = gate_failure(number, pr_num, "validation_failed", reason, kept).marked(
                TurnMark::timed(telemetry),
            );
            (ConflictGateOutcome::Failed, report)
        },
        GateTurn::Answered { output, telemetry } => {
            let mark = TurnMark::timed(telemetry);
            let kept = events::kept_output(output.as_str());
            match parse_conflict_check_output(output.as_str()) {
                Ok(ConflictCheckOutcome::CleanPr) => {
                    let report = gate_success(
                        number,
                        pr_num,
                        "clean",
                        "resumed PR conflict gate passed cleanly",
                        kept,
                    );
                    (ConflictGateOutcome::Clean, report.marked(mark))
                },
                Ok(ConflictCheckOutcome::RebasePushed) => {
                    let report = gate_success(
                        number,
                        pr_num,
                        "rebase_pushed",
                        "resumed PR conflict gate rebased and pushed",
                        kept,
                    );
                    (ConflictGateOutcome::RebasePushed, report.marked(mark))
                },
                Ok(ConflictCheckOutcome::ManualResolutionRequired) => {
                    let reason = gate_closed(
                        pr_num,
                        " is conflicting and rebase was not pushed; ",
                    );
                    let report = gate_failure(
                        number,
                        pr_num,
                        "manual_resolution_required",
                        reason,
                        kept,
                    );
                    (ConflictGateOutcome::Failed, report.marked(mark))
                },
                Err(e) => {
                    let mut reason = gate_closed(pr_num, " conflict gate failed closed; ");
                    reason.append(": malformed output (");
                    reason.append(e.as_str());
                    reason.append(")");
                    let report = gate_failure(number, pr_num, "malformed_output", reason, kept);
                    (ConflictGateOutcome::Failed, report.marked(mark))
                },
            }
        },
    }
}

/// The conflict gate opens only for an answer whose last line says that the branch is clean or
/// was rebased; everything else fails the task.
pub proof fn law_gate_fails_closed(pr_num: nat, number: nat, turn: GateTurnView)
    ensures
        gate_outcome(turn) == ConflictGateOutcome::Clean <==> (turn is Answered && last_line(
            text::lines(turn->Answered_output),
        ) == Some("CLEAN_PR"@)),
        gate_outcome(turn) == ConflictGateOutcome::RebasePushed <==> (turn is Answered && last_line(
            text::lines(turn->Answered_output),
        ) == Some("REBASE_PUSHED"@)),
        gate_outcome(turn) == ConflictGateOutcome::Failed <==> gate_report(
            pr_num,
            number,
            turn,
        ).change.status == Some(TaskStatus::Failed),
{
    reveal_strlit("CLEAN_PR");
    reveal_strlit("REBASE_PUSHED");
    assert("CLEAN_PR"@.len() != "REBASE_PUSHED"@.len());
}

/// Every failure at the way into a review tells that a person has to act.
pub proof fn law_conflict_failures_ask_for_a_person(
    pr_num: nat,
    number: nat,
    turn: GateTurnView,
    paths: Seq<Seq<char>>,
)
    ensures
        text::contains(conflict_error(pr_num, paths), MANUAL_RESOLUTION_REQUIRED@),
        gate_report(pr_num, number, turn).change.error matches Some(e) ==> text::contains(
            e,
            MANUAL_RESOLUTION_REQUIRED@,
        ),
{
    let m = MANUAL_RESOLUTION_REQUIRED@;
    let none = Seq::<char>::empty();
    let before = "PR #"@ + text::decimal(pr_num) + " has rebase conflicts: "@ + paths_text(paths)
        + "; "@;
    text::lemma_contains_part(before, m, none);
    assert(before + m + none == conflict_error(pr_num, paths));
    if gate_report(pr_num, number, turn).change.error is Some {
        let e = gate_reason(pr_num, turn);
        let pr = "pr:"@ + text::decimal(pr_num);
        let closed = pr + " conflict gate failed closed; "@;
        match turn {
            GateTurnView::NoTurnLeft { used, max } => {
                let b = pr + " conflict gate could not run before review; "@;
                let a = ": turn budget exhausted after "@ + text::decimal(used) + " of "@
                    + text::decimal(max) + " allowed turns"@;
                text::lemma_contains_part(b, m, a);
                assert(b + m + a == e);
            },
            GateTurnView::Failed { error, .. } => {
                let a = ": "@ + error;
                text::lemma_contains_part(closed, m, a);
                assert(closed + m + a == e);
            },
            GateTurnView::TimedOut { secs, .. } => {
                let b = pr + " conflict gate timed out; "@;
                let a = " after "@ + text::decimal(secs) + "s"@;
                text::lemma_contains_part(b, m, a);
                assert(b + m + a == e);
            },
            GateTurnView::Invalid { error, .. } => {
                let a = ": post-execution validation failed: "@ + error;
                text::lemma_contains_part(closed, m, a);
                assert(closed + m + a == e);
            },
            GateTurnView::Answered { output, .. } => {
                match conflict_check(output) {
                    Err(p) => {
                        let a = ": malformed output ("@ + p + ")"@;
                        text::lemma_contains_part(closed, m, a);
                        assert(closed + m + a == e);
                    },
                    _ => {
                        let b = pr + " is conflicting and rebase was not pushed; "@;
                        text::lemma_contains_part(b, m, none);
                        assert(b + m + none == e);
                    },
                }
            },
        }
    }
}

/// A checkpoint gives back the outcome that it was written for, but for the paths of a
/// conflict; so the review is let in, or kept out, as it was before.
pub proof fn law_checkpoint_recovers_prep(pr_num: nat, prep: PrepView)
    ensures
        checkpoint_prep(prep_word(prep)) matches Some(p) && {
            &&& prep !is RebaseConflict ==> p == prep
            &&& prep is RebaseConflict ==> p is RebaseConflict
            &&& entry(pr_num, Some(p)) is Proceed == entry(pr_num, Some(prep)) is Proceed
        },
{
    reveal_strlit("rebase_pushed");
    reveal_strlit("rebase_skipped");
    reveal_strlit("rebase_conflict");
    assert("rebase_pushed"@.len() != "rebase_skipped"@.len());
    assert("rebase_conflict"@.len() != "rebase_skipped"@.len());
    assert("rebase_conflict"@.len() != "rebase_pushed"@.len());
}

/// A review is kept out by conflicts alone, and then names the pull request and the files;
/// a commit counts as pushed exactly where the rebase was.
pub proof fn law_only_conflicts_keep_a_review_out(pr_num: nat, paths: Seq<Seq<char>>)
    ensures
        entry(pr_num, None) == (EntryView::Proceed { rebase_pushed: false }),
        entry(pr_num, Some(PrepView::RebaseSkipped)) == (EntryView::Proceed {
            rebase_pushed: false,
        }),
        entry(pr_num, Some(PrepView::RebasePushed)) == (EntryView::Proceed { rebase_pushed: true }),
        entry(pr_num, Some(PrepView::RebaseConflict { paths })) matches EntryView::FailConflict {
            error,
            paths_csv,
        } && text::contains(error, "PR #"@ + text::decimal(pr_num) + " has rebase conflicts: "@)
            && text::contains(error, paths_csv) && paths_csv == (if paths.len() == 0 {
            "unknown paths"@
        } else {
            text::join(paths, ", "@)
        }) && text::ends_with(error, "manual resolution required"@),
{
    let csv = paths_text(paths);
    let a = "PR #"@ + text::decimal(pr_num) + " has rebase conflicts: "@;
    let b = "; "@ + "manual resolution required"@;
    let e = conflict_error(pr_num, paths);
    let none = Seq::<char>::empty();
    assert(e == none + a + (csv + b));
    text::lemma_contains_part(none, a, csv + b);
    assert(e == a + csv + b);
    text::lemma_contains_part(a, csv, b);
    assert(e.skip(e.len() - "manual resolution required"@.len()) == "manual resolution required"@);
}

/// What a record tells of the branch is what the last entry of an implementation tells; the
/// entries of other steps do not count, and earlier ones do not either.
pub proof fn law_last_implementation_tells_of_the_branch(rounds: Seq<RoundView>, k: int)
    requires
        -1 <= k < rounds.len(),
        k >= 0 ==> rounds[k].action == "implement"@,
        forall|j: int| k < j < rounds.len() ==> (#[trigger] rounds[j]).action != "implement"@,
    ensures
        k == -1 ==> rounds_prep(rounds) is None,
        k >= 0 && rounds[k].result == "rebase_pushed"@ ==> rounds_prep(rounds) == Some(
            PrepView::RebasePushed,
        ),
        k >= 0 && rounds[k].result == "rebase_skipped"@ ==> rounds_prep(rounds) == Some(
            PrepView::RebaseSkipped,
        ),
        k >= 0 && rounds[k].result == "rebase_conflict"@ ==> (match rounds[k].detail {
            Some(d) => if markers::review_prep(d) is Some {
                rounds_prep(rounds) == markers::review_prep(d)
            } else {
                rounds_prep(rounds) == Some(PrepView::RebaseConflict { paths: seq![] })
            },
            None => rounds_prep(rounds) == Some(PrepView::RebaseConflict { paths: seq![] }),
        }),
        k >= 0 && rounds[k].result != "rebase_pushed"@ && rounds[k].result != "rebase_skipped"@
            && rounds[k].result != "rebase_conflict"@ ==> rounds_prep(rounds) is None,
    decreases rounds.len(),
{
    reveal_strlit("rebase_pushed");
    reveal_strlit("rebase_skipped");
    reveal_strlit("rebase_conflict");
    assert("rebase_pushed"@.len() == 13 && "rebase_skipped"@.len() == 14
        && "rebase_conflict"@.len() == 15);
    if rounds.len() > 0 && k < rounds.len() - 1 {
        assert(rounds[rounds.len() - 1].action != "implement"@);
        law_last_implementation_tells_of_the_branch(rounds.drop_last(), k);
    }
}

proof fn lemma_last_line(rows: Seq<Seq<char>>, k: int)
    requires
        -1 <= k < rows.len(),
        k >= 0 ==> text::trim(rows[k], CharClass::White).len() > 0,
        forall|j: int|
            k < j < rows.len() ==> text::trim(#[trigger] rows[j], CharClass::White).len() == 0,
    ensures
        k == -1 ==> last_line(rows) is None,
        k >= 0 ==> last_line(rows) == Some(text::trim(rows[k], CharClass::White)),
    decreases rows.len(),
{
    if rows.len() > 0 && k < rows.len() - 1 {
        assert(text::trim(rows[rows.len() - 1], CharClass::White).len() == 0);
        lemma_last_line(rows.drop_last(), k);
    }
}

/// What an agent says of a resumed pull request stands on the last line that holds anything
/// at all; empty lines behind it do not matter, and without such a line it said nothing.
pub proof fn law_last_words_count_at_the_gate(output: Seq<char>, k: int)
    requires
        -1 <= k < text::lines(output).len(),
        k >= 0 ==> text::trim(text::lines(output)[k], CharClass::White).len() > 0,
        forall|j: int|
            k < j < text::lines(output).len() ==> text::trim(
                #[trigger] text::lines(output)[j],
                CharClass::White,
            ).len() == 0,
    ensures
        ({
            let word = text::trim(text::lines(output)[k], CharClass::White);
            let told = conflict_check(output);
            &&& k == -1 ==> told is Err
            &&& k >= 0 && word == "CLEAN_PR"@ ==> told == Ok::<_, Seq<char>>(
                ConflictCheckOutcome::CleanPr,
            )
            &&& k >= 0 && word == "REBASE_PUSHED"@ ==> told == Ok::<_, Seq<char>>(
                ConflictCheckOutcome::RebasePushed,
            )
            &&& k >= 0 && word == "MANUAL_RESOLUTION_REQUIRED"@ ==> told == Ok::<_, Seq<char>>(
                ConflictCheckOutcome::ManualResolutionRequired,
            )
            &&& k >= 0 && word != "CLEAN_PR"@ && word != "REBASE_PUSHED"@ && word
                != "MANUAL_RESOLUTION_REQUIRED"@ ==> (told matches Err(e) && text::contains(e, word))
        }),
{
    lemma_last_line(text::lines(output), k);
    reveal_strlit("CLEAN_PR");
    reveal_strlit("REBASE_PUSHED");
    reveal_strlit("MANUAL_RESOLUTION_REQUIRED");
    assert("CLEAN_PR"@.len() == 8 && "REBASE_PUSHED"@.len() == 13
        && "MANUAL_RESOLUTION_REQUIRED"@.len() == 26);
    if k >= 0 {
        let word = text::trim(text::lines(output)[k], CharClass::White);
        text::lemma_contains_part("unexpected conflict gate terminal token `"@, word, "`"@);
    }
}

/// How the conflict gate is recorded: under the turn that it took, by a word that tells what came
/// of it, with the agent's answer; a gate that did not open fails the task in that turn and is
/// noted as blocking.
pub proof fn law_gate_is_recorded_as_it_ended(pr_num: nat, number: nat, turn: GateTurnView)
    ensures
        ({
            let r = gate_report(pr_num, number, turn);
            let round = r.change.rounds[0];
            let failed = gate_outcome(turn) == ConflictGateOutcome::Failed;
            &&& r.change.rounds.len() == 1 && round.turn == number && round.action
                == "conflict_gate"@
            &&& failed ==> r.change.status == Some(TaskStatus::Failed) && r.change.turn == Some(
                number,
            ) && r.change.error == r.event.reason && r.event.decision == Decision::Block
            &&& !failed ==> r.change.status is None && r.change.error is None && r.change.turn is None
                && r.event.decision == Decision::Complete
            &&& r.event.turn == Some(number) && r.event.content == round.detail && r.event.mark
                == round.mark
            &&& r.event.detail == Some("pr="@ + text::decimal(pr_num))
            &&& match turn {
                GateTurnView::NoTurnLeft { .. } => round.result == "turn_budget_exhausted"@
                    && round.detail is None && round.mark.telemetry is None,
                GateTurnView::Failed { failure, telemetry, .. } => round.result == "failed"@
                    && round.mark.failure == Some(failure) && round.mark.telemetry == Some(
                    telemetry,
                ),
                GateTurnView::TimedOut { agent, telemetry, .. } => round.result == "timeout"@
                    && round.mark.telemetry == Some(telemetry) && (round.mark.failure matches Some(
                    f,
                ) && f.kind == TurnFailureKind::Timeout && f.provider == Some(agent) && f.message
                    == r.event.reason),
                GateTurnView::Invalid { output, telemetry, .. } => round.result
                    == "validation_failed"@ && (output.len() > 0 ==> round.detail == Some(output))
                    && round.mark.telemetry == Some(telemetry) && round.mark.failure is None,
                GateTurnView::Answered { output, telemetry } => (output.len() > 0 ==> round.detail
                    == Some(output)) && round.mark.telemetry == Some(telemetry)
                    && round.mark.failure is None && match conflict_check(output) {
                    Ok(ConflictCheckOutcome::CleanPr) => round.result == "clean"@,
                    Ok(ConflictCheckOutcome::RebasePushed) => round.result == "rebase_pushed"@,
                    Ok(ConflictCheckOutcome::ManualResolutionRequired) => round.result
                        == "manual_resolution_required"@,
                    Err(_) => round.result == "malformed_output"@,
                },
            }
        }),
{
}

/// A turn is left where no limit is set or it is not reached; the conflict gate takes the next one.
pub proof fn law_gate_takes_the_next_turn(used: u32, max: u32)
    ensures
        turn_left(used, None),
        turn_left(used, Some(max)) <==> used < max,
        used < u32::MAX ==> gate_turn_number(used) == used + 1,
{
}

/// What is told of the conflict gate says which pull request it is about wherever it did not
/// open, and why it did not: the turns, the error, the time, the answer.
pub proof fn law_closed_gate_says_why(
    pr_num: nat,
    used: nat,
    max: nat,
    error: Seq<char>,
    output: Seq<char>,
    agent: Seq<char>,
    failure: FailureView,
    telemetry: TurnTelemetry,
    secs: nat,
)
    ensures
        gate_reason(pr_num, GateTurnView::NoTurnLeft { used, max }) == "pr:"@ + text::decimal(
            pr_num,
        ) + " conflict gate could not run before review; "@ + "manual resolution required"@
            + ": turn budget exhausted after "@ + text::decimal(used) + " of "@ + text::decimal(max)
            + " allowed turns"@,
        text::ends_with(
            gate_reason(pr_num, GateTurnView::Failed { error, failure, telemetry }),
            "manual resolution required"@ + ": "@ + error,
        ),
        text::ends_with(
            gate_reason(pr_num, GateTurnView::Invalid { error, output, telemetry }),
            ": post-execution validation failed: "@ + error,
        ),
        gate_reason(pr_num, GateTurnView::TimedOut { secs, agent, telemetry }) == "pr:"@
            + text::decimal(pr_num) + " conflict gate timed out; "@ + "manual resolution required"@
            + " after "@ + text::decimal(secs) + "s"@,
{
    let lead = "pr:"@ + text::decimal(pr_num) + " conflict gate failed closed; "@;
    let a = "manual resolution required"@ + ": "@ + error;
    assert(gate_reason(pr_num, GateTurnView::Failed { error, failure, telemetry }) == lead + a);
    text::lemma_ends(lead, a);
    let more = lead + "manual resolution required"@;
    let b = ": post-execution validation failed: "@ + error;
    assert(gate_reason(pr_num, GateTurnView::Invalid { error, output, telemetry }) == more + b);
    text::lemma_ends(more, b);
}

/// The paths of a conflict are listed in their order, and are unknown where none are named.
pub proof fn law_conflicting_paths_are_listed(paths: Seq<Seq<char>>, r: ConflictCheckOutcome, e: String)
    ensures
        paths.len() == 0 ==> paths_text(paths) == "unknown paths"@,
        paths.len() > 0 ==> paths_text(paths) == text::join(paths, ", "@),
        check_view(Ok(r)) == Ok::<ConflictCheckOutcome, Seq<char>>(r),
        check_view(Err(e)) == Err::<ConflictCheckOutcome, Seq<char>>(e@),
{
}

} // verus!
