//! A turn of a thread, from its beginning to its end.
//!
//! [`TurnRun`] takes what happens; its caller waits for it.

use crate::items::{Item, ItemView, NoticeView, Notification, TokenUsage};
use crate::stream;
use vstd::prelude::*;
use vstd::string::*;

verus! {

/// What has to be done at the end of a turn.
#[derive(Debug)]
pub enum TurnClosing {
    /// The turn is marked as complete.
    Complete,
    /// The turn gets an error, and is marked as failed.
    Fail { item: Item, notify: Notification },
}

/// What a [`TurnClosing`] holds.
pub enum ClosingView {
    Complete,
    Fail { item: ItemView, notify: NoticeView },
}

impl View for TurnClosing {
    type V = ClosingView;

    open spec fn view(&self) -> ClosingView {
        match self {
            TurnClosing::Complete => ClosingView::Complete,
            TurnClosing::Fail { item, notify } => ClosingView::Fail {
                item: item@,
                notify: notify@,
            },
        }
    }
}

/// The failure of a turn: an error in the turn, and word of it to those who watch.
pub open spec fn failure(message: Seq<char>) -> ClosingView {
    ClosingView::Fail {
        item: ItemView::Error { code: -1, message },
        notify: NoticeView::TurnCompleted {
            failed: true,
            usage: TokenUsage { input_tokens: 0, output_tokens: 0, total_tokens: 0 },
        },
    }
}

/// The failure of a turn.
pub fn fail_turn(message: String) -> (r: TurnClosing)
    ensures
        r@ == failure(message@),
{
    TurnClosing::Fail {
        item: Item::Error { code: -1, message },
        notify: Notification::TurnCompleted {
            failed: true,
            usage: TokenUsage { input_tokens: 0, output_tokens: 0, total_tokens: 0 },
        },
    }
}

/// The failure of a turn whose agent is not known.
pub fn unknown_agent(agent_name: &str) -> (r: TurnClosing)
    ensures
        r@ == failure("agent `"@ + agent_name@ + "` not found in registry"@),
{
    let mut message = "agent `".to_owned();
    message.append(agent_name);
    message.append("` not found in registry");
    fail_turn(message)
}

/// What those who watch are told of a turn that was marked as complete. `usage` is what
/// the turn used, or nothing where it was over already.
pub fn completed_notice(usage: Option<TokenUsage>) -> (r: Option<Notification>)
    ensures
        r is Some == usage is Some,
        r matches Some(n) ==> n@ == (NoticeView::TurnCompleted { failed: false, usage: usage->0 }),
{
    match usage {
        Some(usage) => Some(Notification::TurnCompleted { failed: false, usage }),
        None => None,
    }
}

/// What came of the agent's work.
#[derive(Debug)]
pub enum WorkResult {
    Succeeded,
    Failed { error: String },
}

/// What a [`WorkResult`] holds.
pub enum WorkView {
    Succeeded,
    Failed { error: Seq<char> },
}

impl View for WorkResult {
    type V = WorkView;

    open spec fn view(&self) -> WorkView {
        match self {
            WorkResult::Succeeded => WorkView::Succeeded,
            WorkResult::Failed { error } => WorkView::Failed { error: error@ },
        }
    }
}

/// A turn on its way.
#[derive(Debug)]
pub struct TurnRun {
    result: Option<WorkResult>,
    stream_closed: bool,
    stalled: bool,
}

/// What a [`TurnRun`] holds.
pub struct TurnView {
    pub result: Option<WorkView>,
    pub stream_closed: bool,
    /// Whether nothing came for too long.
    pub stalled: bool,
}

impl View for TurnRun {
    type V = TurnView;

    closed spec fn view(&self) -> TurnView {
        TurnView {
            result: match self.result {
                Some(r) => Some(r@),
                None => None,
            },
            stream_closed: self.stream_closed,
            stalled: self.stalled,
        }
    }
}

/// Whether a turn is over.
pub open spec fn turn_over(t: TurnView) -> bool {
    t.stalled || (t.result is Some && t.stream_closed)
}

/// What has to be done at the end of a turn.
pub open spec fn closing(t: TurnView) -> ClosingView {
    match t.result {
        Some(WorkView::Succeeded) => ClosingView::Complete,
        Some(WorkView::Failed { error }) => failure(error),
        None => failure("turn execution ended without agent result"@),
    }
}

impl TurnRun {
    /// A turn that has just begun.
    pub fn new() -> (r: TurnRun)
        ensures
            r@ == (TurnView { result: None, stream_closed: false, stalled: false }),
    {
        TurnRun { result: None, stream_closed: false, stalled: false }
    }

    /// Whether the turn is over: the agent's work and its stream have ended, or nothing
    /// came for too long.
    pub fn is_over(&self) -> (r: bool)
        ensures
            r == turn_over(self@),
    {
        self.stalled || (self.result.is_some() && self.stream_closed)
    }

    /// Notes what came of the agent's work.
    pub fn executed(&mut self, result: WorkResult)
        requires
            !turn_over(old(self)@),
        ensures
            final(self)@ == (TurnView { result: Some(result@), ..old(self)@ }),
    {
        self.result = Some(result);
    }

    /// Notes that the stream has ended.
    pub fn stream_ended(&mut self)
        requires
            !turn_over(old(self)@),
        ensures
            final(self)@ == (TurnView { stream_closed: true, ..old(self)@ }),
    {
        self.stream_closed = true;
    }

    /// Notes that nothing came for too long: the turn fails for that reason, whatever
    /// was known of it.
    pub fn stalled(&mut self, stall_timeout_secs: u64)
        requires
            !turn_over(old(self)@),
        ensures
            final(self)@ == (TurnView {
                result: Some(
                    WorkView::Failed { error: stream::stall_text(stall_timeout_secs as nat) },
                ),
                stalled: true,
                ..old(self)@
            }),
    {
        self.result = Some(WorkResult::Failed { error: stream::stall_message(stall_timeout_secs) });
        self.stalled = true;
    }

    /// What has to be done at the end of the turn.
    pub fn close(self) -> (r: TurnClosing)
        ensures
            r@ == closing(self@),
    {
        match self.result {
            Some(WorkResult::Succeeded) => TurnClosing::Complete,
            Some(WorkResult::Failed { error }) => fail_turn(error),
            None => fail_turn("turn execution ended without agent result".to_owned()),
        }
    }
}

/// A turn that is over is either complete, by the agent's success, or failed, and then
/// those who watch are told so.
pub proof fn law_every_turn_is_closed(t: TurnView)
    requires
        turn_over(t),
        t.stalled ==> t.result matches Some(WorkView::Failed { .. }),
    ensures
        closing(t) is Complete <==> t.result == Some(WorkView::Succeeded) && t.stream_closed
            && !t.stalled,
        closing(t) matches ClosingView::Fail { notify, .. } ==> notify matches
            NoticeView::TurnCompleted { failed, .. } && failed,
{
}

/// A turn goes on until its work and its stream have both ended, unless nothing came for too
/// long.
pub proof fn law_turn_waits_for_both_ends(t: TurnView)
    ensures
        t.stalled ==> turn_over(t),
        !t.stalled && t.result is None ==> !turn_over(t),
        !t.stalled && !t.stream_closed ==> !turn_over(t),
        t.result is Some && t.stream_closed ==> turn_over(t),
{
}

/// A turn that failed keeps its own words in its error, and counts no tokens; one without a
/// result says so.
pub proof fn law_failure_keeps_its_words(t: TurnView, error: Seq<char>)
    ensures
        t.result == Some(WorkView::Failed { error }) ==> closing(t) == failure(error),
        t.result is None ==> closing(t) == failure("turn execution ended without agent result"@),
        failure(error) == (ClosingView::Fail {
            item: ItemView::Error { code: -1, message: error },
            notify: NoticeView::TurnCompleted {
                failed: true,
                usage: TokenUsage { input_tokens: 0, output_tokens: 0, total_tokens: 0 },
            },
        }),
{
}

} // verus!
