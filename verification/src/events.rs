//! What is noted of a task's turns, for those who watch it.

use crate::task;
use crate::task::{ChangeView, TaskChange};
use crate::telemetry;
use crate::telemetry::{MarkView, TurnMark};
use crate::text;
use vstd::prelude::*;
use vstd::string::*;

verus! {

/// How a turn went.
#[derive(Clone, Copy, Debug, PartialEq, Eq, Structural)]
pub enum Decision {
    Pass,
    Warn,
    Complete,
    Block,
}

/// A note about a task. One about a turn says which turn, and in which phase.
#[derive(Debug)]
pub struct TaskEvent {
    pub turn: Option<u32>,
    pub phase: Option<String>,
    pub hook: String,
    pub decision: Decision,
    pub reason: Option<String>,
    pub detail: Option<String>,
    pub content: Option<String>,
    pub mark: TurnMark,
}

/// What a [`TaskEvent`] holds.
pub struct EventView {
    pub turn: Option<nat>,
    pub phase: Option<Seq<char>>,
    pub hook: Seq<char>,
    pub decision: Decision,
    pub reason: Option<Seq<char>>,
    pub detail: Option<Seq<char>>,
    pub content: Option<Seq<char>>,
    pub mark: MarkView,
}

impl View for TaskEvent {
    type V = EventView;

    open spec fn view(&self) -> EventView {
        EventView {
            turn: task::opt_nat(self.turn),
            phase: text::opt_view(self.phase),
            hook: self.hook@,
            decision: self.decision,
            reason: text::opt_view(self.reason),
            detail: text::opt_view(self.detail),
            content: text::opt_view(self.content),
            mark: self.mark@,
        }
    }
}

/// A note about one turn.
pub fn build_task_event(
    turn: u32,
    phase: &str,
    hook: &str,
    decision: Decision,
    reason: Option<String>,
    detail: Option<String>,
    content: Option<String>,
) -> (r: TaskEvent)
    ensures
        r@ == (EventView {
            turn: Some(turn as nat),
            phase: Some(phase@),
            hook: hook@,
            decision,
            reason: text::opt_view(reason),
            detail: text::opt_view(detail),
            content: text::opt_view(content),
            mark: telemetry::no_mark(),
        }),
{
    TaskEvent {
        turn: Some(turn),
        phase: Some(phase.to_owned()),
        hook: hook.to_owned(),
        decision,
        reason,
        detail,
        content,
        mark: TurnMark::none(),
    }
}

/// A note that is about no turn.
pub fn build_event(
    hook: &str,
    decision: Decision,
    reason: Option<String>,
    detail: Option<String>,
) -> (r: TaskEvent)
    ensures
        r@ == (EventView {
            turn: None,
            phase: None,
            hook: hook@,
            decision,
            reason: text::opt_view(reason),
            detail: text::opt_view(detail),
            content: None,
            mark: telemetry::no_mark(),
        }),
{
    TaskEvent {
        turn: None,
        phase: None,
        hook: hook.to_owned(),
        decision,
        reason,
        detail,
        content: None,
        mark: TurnMark::none(),
    }
}

impl EventView {
    /// This note, which says how its turn went.
    pub open spec fn marked(self, mark: MarkView) -> EventView {
        EventView { mark, ..self }
    }
}

impl TaskEvent {
    /// This note, which says how its turn went.
    pub fn marked(self, mark: TurnMark) -> (r: TaskEvent)
        ensures
            r@ == self@.marked(mark@),
    {
        TaskEvent {
            turn: self.turn,
            phase: self.phase,
            hook: self.hook,
            decision: self.decision,
            reason: self.reason,
            detail: self.detail,
            content: self.content,
            mark,
        }
    }
}

/// What is stored and noted when a decision has been made.
#[derive(Debug)]
pub struct Report {
    pub change: TaskChange,
    pub event: TaskEvent,
}

/// What a [`Report`] holds.
pub struct ReportView {
    pub change: ChangeView,
    pub event: EventView,
}

impl View for Report {
    type V = ReportView;

    open spec fn view(&self) -> ReportView {
        ReportView { change: self.change@, event: self.event@ }
    }
}

impl ReportView {
    /// This report, whose entry and note say how the turn went.
    pub open spec fn marked(self, mark: MarkView) -> ReportView {
        ReportView { change: self.change.marked(mark), event: self.event.marked(mark) }
    }
}

impl Report {
    /// This report, whose entry and note say how the turn went.
    pub fn marked(self, mark: TurnMark) -> (r: Report)
        ensures
            r@ == self@.marked(mark@),
    {
        let copy = mark.copy();
        Report { change: self.change.marked(mark), event: self.event.marked(copy) }
    }
}

/// What is kept of an output: nothing where it is empty.
pub open spec fn kept(output: Seq<char>) -> Option<Seq<char>> {
    if output.len() == 0 {
        None
    } else {
        Some(output)
    }
}

/// What is kept of an output: nothing where it is empty.
pub fn kept_output(output: &str) -> (r: Option<String>)
    ensures
        text::opt_view(r) == kept(output@),
{
    if output.is_empty() {
        None
    } else {
        Some(output.to_owned())
    }
}

/// What was written is kept whole, and nothing is kept of nothing.
pub proof fn law_output_is_kept_whole(output: Seq<char>)
    ensures
        output.len() > 0 ==> kept(output) == Some(output),
        output.len() == 0 ==> kept(output) is None,
{
}

/// How a turn went is noted beside what else is said of it, which stays as it is, and the
/// same is noted of the entry and of the note.
pub proof fn law_mark_changes_nothing_else(r: ReportView, mark: MarkView)
    ensures
        r.marked(mark).event.mark == mark,
        r.marked(mark).change == r.change.marked(mark),
        r.event.marked(mark).turn == r.event.turn,
        r.event.marked(mark).phase == r.event.phase,
        r.event.marked(mark).hook == r.event.hook,
        r.event.marked(mark).decision == r.event.decision,
        r.event.marked(mark).reason == r.event.reason,
        r.event.marked(mark).detail == r.event.detail,
        r.event.marked(mark).content == r.event.content,
{
}

/// A note is seen with all that it says.
pub proof fn law_note_is_seen_whole(e: TaskEvent)
    ensures
        e@.turn is Some == e.turn is Some,
        e.turn matches Some(n) ==> e@.turn == Some(n as nat),
        e@.phase is Some == e.phase is Some,
        e.phase matches Some(p) ==> e@.phase == Some(p@),
        e@.hook == e.hook@,
        e@.decision == e.decision,
        e.reason matches Some(s) ==> e@.reason == Some(s@),
        e.reason is None ==> e@.reason is None,
        e.detail matches Some(s) ==> e@.detail == Some(s@),
        e.detail is None ==> e@.detail is None,
        e.content matches Some(s) ==> e@.content == Some(s@),
        e.content is None ==> e@.content is None,
        e@.mark == e.mark@,
{
}

} // verus!
