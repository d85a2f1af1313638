//! Tasks that give a report and change nothing: reviews and plans.

use crate::events;
use crate::events::{Decision, EventView, TaskEvent};
use crate::implement;
use crate::outcome;
use crate::outcome::{LogEntry, LogView};
use crate::phase;
use crate::request::TaskKind;
use crate::task;
use crate::task::{ChangeView, TaskChange, TaskStatus};
use crate::telemetry;
use crate::telemetry::{TurnMark, TurnTelemetry};
use crate::text;
use vstd::prelude::*;
use vstd::string::*;

verus! {

/// The error of a task that cannot be begun again, because it is not known what it was
/// to do.
pub fn missing_input_error(kind: TaskKind) -> (r: String)
    ensures
        r@ == kind.word() + " task is missing restart-safe input metadata"@,
{
    let mut e = kind.as_str().to_owned();
    e.append(" task is missing restart-safe input metadata");
    e
}

/// The error of a task whose turn took too long.
pub fn timeout_error(kind: TaskKind, turn_timeout_secs: u64) -> (r: String)
    ensures
        r@ == kind.word() + " timed out after "@ + text::decimal(turn_timeout_secs as nat) + "s"@,
{
    let mut e = kind.as_str().to_owned();
    e.append(" timed out after ");
    e.append(text::decimal_text(turn_timeout_secs).as_str());
    e.append("s");
    e
}

/// A prompt with a note before it, where there is one.
pub open spec fn with_note(note: Option<Seq<char>>, prompt: Seq<char>) -> Seq<char> {
    match note {
        Some(n) => n + "\n\n"@ + prompt,
        None => prompt,
    }
}

/// The prompt of a report: a note on what the agent may do, what it is to do, the
/// project's instructions, the skills.
pub fn build_report_prompt(
    note: Option<&str>,
    task_prompt: String,
    files: &str,
    scope: &str,
    project_context: &str,
    skills: &str,
) -> (r: String)
    ensures
        r@ == with_note(
            text::opt_text(note),
            phase::full_prompt(task_prompt@, files@, scope@, project_context@, skills@),
        ),
{
    let full = phase::build_full_prompt(task_prompt, files, scope, project_context, skills);
    match note {
        Some(n) => {
            let mut out = n.to_owned();
            out.append("\n\n");
            out.append(full.as_str());
            out
        },
        None => full,
    }
}

/// The end of a report.
#[derive(Debug)]
pub struct ReportEnd {
    pub change: TaskChange,
    pub log: Option<LogEntry>,
    pub event: Option<TaskEvent>,
}

/// What a [`ReportEnd`] holds.
pub struct ReportEndView {
    pub change: ChangeView,
    pub log: Option<LogView>,
    pub event: Option<EventView>,
}

/// The view of an optional log entry.
pub open spec fn opt_log(o: Option<LogEntry>) -> Option<LogView> {
    match o {
        None => None,
        Some(e) => Some(e@),
    }
}

impl View for ReportEnd {
    type V = ReportEndView;

    open spec fn view(&self) -> ReportEndView {
        ReportEndView {
            change: self.change@,
            log: opt_log(self.log),
            event: outcome::opt_event(self.event),
        }
    }
}

/// What follows from a report, and how long that took.
pub open spec fn report_end(
    kind: TaskKind,
    task_id: Seq<char>,
    output: Seq<char>,
    telemetry: TurnTelemetry,
) -> ReportEndView {
    if implement::collision(output) {
        ReportEndView {
            change: task::moved(
                TaskStatus::Failed,
                Some(1),
                Some(
                    "WorktreeCollision: agent observed worktree managed by another harness session"@,
                ),
            ).and_round(1, kind.word(), "worktree_collision"@, events::kept(output)).marked(
                telemetry::timed(telemetry),
            ),
            log: None,
            event: None,
        }
    } else {
        ReportEndView {
            change: task::moved(TaskStatus::Done, Some(1), None).and_round(
                1,
                kind.word(),
                "completed"@,
                events::kept(output),
            ).marked(telemetry::timed(telemetry)),
            log: Some(LogView::Completed),
            event: Some(
                EventView {
                    turn: None,
                    phase: None,
                    hook: "task_"@ + kind.word(),
                    decision: Decision::Complete,
                    reason: None,
                    detail: Some("task_id="@ + task_id),
                    content: None,
                    mark: telemetry::no_mark(),
                },
            ),
        }
    }
}

/// What follows from a report.
pub fn finish_report(
    kind: TaskKind,
    task_id: &str,
    output: &str,
    telemetry: TurnTelemetry,
) -> (r: ReportEnd)
    ensures
        r@ == report_end(kind, task_id@, output@, telemetry),
{
    let mark = TurnMark::timed(telemetry);
    if implement::contains_worktree_collision_sentinel(output) {
        let error =
            "WorktreeCollision: agent observed worktree managed by another harness session".to_owned();
        let change = TaskChange::to(TaskStatus::Failed, Some(1), Some(error)).with_round(
            1,
            kind.as_str(),
            "worktree_collision",
            events::kept_output(output),
        ).marked(mark);
        return ReportEnd { change, log: None, event: None };
    }
    let change = TaskChange::to(TaskStatus::Done, Some(1), None).with_round(
        1,
        kind.as_str(),
        "completed",
        events::kept_output(output),
    ).marked(mark);
    let mut hook = "task_".to_owned();
    hook.append(kind.as_str());
    let mut detail = "task_id=".to_owned();
    detail.append(task_id);
    let event = events::build_event(hook.as_str(), Decision::Complete, None, Some(detail));
    ReportEnd { change, log: Some(LogEntry::Completed), event: Some(event) }
}

/// A report ends its task in any case: done, or failed where the agent worked in a place
/// that belongs to another session.
pub proof fn law_report_ends_its_task(
    kind: TaskKind,
    task_id: Seq<char>,
    output: Seq<char>,
    telemetry: TurnTelemetry,
)
    ensures
        report_end(kind, task_id, output, telemetry).change.status == Some(
            if implement::collision(output) {
                TaskStatus::Failed
            } else {
                TaskStatus::Done
            },
        ),
        report_end(kind, task_id, output, telemetry).change.rounds.len() == 1,
{
}

/// A report that was given is stored whole, in one entry of the first turn under the kind of
/// its task, and nothing is said of an error; those who watch hear that it is complete.
pub proof fn law_report_is_stored_whole(
    kind: TaskKind,
    task_id: Seq<char>,
    output: Seq<char>,
    telemetry: TurnTelemetry,
)
    requires
        !implement::collision(output),
    ensures
        ({
            let e = report_end(kind, task_id, output, telemetry);
            &&& e.change.error is None
            &&& e.change.turn == Some(1nat)
            &&& e.change.pr_url is None
            &&& e.change.rounds[0].turn == 1
            &&& e.change.rounds[0].action == kind.word()
            &&& e.change.rounds[0].result == "completed"@
            &&& output.len() > 0 ==> e.change.rounds[0].detail == Some(output)
            &&& e.change.rounds[0].mark.telemetry == Some(telemetry)
            &&& e.change.rounds[0].mark.failure is None
            &&& e.log is Some
            &&& e.event matches Some(n) && n.hook == "task_"@ + kind.word() && n.decision
                == Decision::Complete && n.detail == Some("task_id="@ + task_id) && n.turn is None
        }),
{
}

/// A report from a place that belongs to another session fails and says so; what was written
/// is stored all the same, and nobody hears that it is complete.
pub proof fn law_strayed_report_fails(
    kind: TaskKind,
    task_id: Seq<char>,
    output: Seq<char>,
    telemetry: TurnTelemetry,
)
    requires
        implement::collision(output),
    ensures
        ({
            let e = report_end(kind, task_id, output, telemetry);
            &&& e.change.error == Some(
                "WorktreeCollision: agent observed worktree managed by another harness session"@,
            )
            &&& e.change.turn == Some(1nat)
            &&& e.change.rounds[0].turn == 1
            &&& e.change.rounds[0].action == kind.word()
            &&& e.change.rounds[0].result == "worktree_collision"@
            &&& output.len() > 0 ==> e.change.rounds[0].detail == Some(output)
            &&& e.change.rounds[0].mark.telemetry == Some(telemetry)
            &&& e.log is None
            &&& e.event is None
        }),
{
}

/// A note comes before the prompt, which stays whole.
pub proof fn law_note_comes_first(note: Seq<char>, prompt: Seq<char>)
    ensures
        with_note(None, prompt) == prompt,
        with_note(Some(note), prompt) == note + "\n\n"@ + prompt,
{
}

} // verus!
