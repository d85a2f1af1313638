//! A turn of an agent, as its stream tells it.
//!
//! [`StreamRun`] takes the pieces of the stream and what came of the agent's work; its
//! caller waits for them, and stores what is to be stored.

use crate::clock;
use crate::clock::Timestamp;
use crate::items;
use crate::items::{Artifact, ArtifactView, Item, ItemView, StreamItem, StreamView, TokenUsage};
use crate::markers;
use crate::task::TurnFailureKind;
use crate::telemetry;
use crate::telemetry::{FailureView, TurnFailure, TurnTelemetry};
use crate::text;
use vstd::prelude::*;
use vstd::slice::slice_subrange;
use vstd::string::*;

verus! {

/// How a stream is taken.
#[derive(Clone, Copy, Debug, PartialEq, Eq, Structural)]
pub struct RunAgentStreamingOptions {
    /// Whether finished work is kept.
    pub persist_artifacts: bool,
    /// Whether the output is searched for an issue that the agent made. A reviewing agent's
    /// output is not: it may speak of an issue that is not the task's.
    pub backfill_auto_fix_issue: bool,
}

impl Default for RunAgentStreamingOptions {
    fn default() -> (r: RunAgentStreamingOptions)
        ensures
            r.persist_artifacts,
            !r.backfill_auto_fix_issue,
    {
        RunAgentStreamingOptions { persist_artifacts: true, backfill_auto_fix_issue: false }
    }
}

/// What came of an agent's work.
#[derive(Debug)]
pub enum RunResult {
    Succeeded,
    /// It failed. What is known of the failure may be more than its error.
    Failed { error: String, failure: Option<TurnFailure> },
}

/// What a [`RunResult`] holds.
pub enum RunResultView {
    Succeeded,
    Failed { error: Seq<char>, failure: Option<FailureView> },
}

impl View for RunResult {
    type V = RunResultView;

    open spec fn view(&self) -> RunResultView {
        match self {
            RunResult::Succeeded => RunResultView::Succeeded,
            RunResult::Failed { error, failure } => RunResultView::Failed {
                error: error@,
                failure: telemetry::opt_failure(*failure),
            },
        }
    }
}

/// The view of an optional result.
pub open spec fn opt_result(o: Option<RunResult>) -> Option<RunResultView> {
    match o {
        None => None,
        Some(r) => Some(r@),
    }
}

/// The error of an agent that says nothing any more.
pub open spec fn stall_text(secs: nat) -> Seq<char> {
    "Agent stream stalled: no output for "@ + text::decimal(secs) + "s"@
}

/// The error of an agent that says nothing any more.
pub fn stall_message(stall_timeout_secs: u64) -> (r: String)
    ensures
        r@ == stall_text(stall_timeout_secs as nat),
{
    let mut s = "Agent stream stalled: no output for ".to_owned();
    s.append(text::decimal_text(stall_timeout_secs).as_str());
    s.append("s");
    s
}

/// Where the last complete line of `s` ends.
pub open spec fn line_end(s: Seq<char>) -> nat
    decreases s.len(),
{
    if s.len() == 0 || s.last() == '\n' {
        s.len()
    } else {
        line_end(s.drop_last())
    }
}

fn find_line_end(s: &[char]) -> (r: usize)
    ensures
        r == line_end(s@),
        r <= s@.len(),
{
    let mut n: usize = s.len();
    assert(s@.take(n as int) == s@);
    while n > 0 && s[n - 1] != '\n'
        invariant
            n <= s.len(),
            line_end(s@) == line_end(s@.take(n as int)),
        decreases n,
    {
        assert(s@.take(n as int).drop_last() == s@.take(n - 1));
        n -= 1;
    }
    assert(n > 0 ==> s@.take(n as int).last() == '\n');
    n
}

/// A turn on its way.
#[derive(Debug)]
pub struct StreamRun {
    output: Vec<char>,
    scanned: usize,
    known_issue: Option<u64>,
    usage: TokenUsage,
    closed: bool,
    result: Option<RunResult>,
    first_output_at: Option<Timestamp>,
    first_token_latency_ms: Option<u64>,
    search: bool,
    persist: bool,
}

/// What a [`StreamRun`] holds.
pub struct RunView {
    /// What the agent has said.
    pub output: Seq<char>,
    /// How much of it has been searched for an issue.
    pub scanned: nat,
    /// The issue that is stored with the task.
    pub known_issue: Option<nat>,
    pub usage: TokenUsage,
    /// Whether the stream has ended.
    pub closed: bool,
    pub result: Option<RunResultView>,
    pub first_output_at: Option<Timestamp>,
    pub first_token_latency_ms: Option<u64>,
    /// Whether the output is searched for an issue.
    pub search: bool,
    /// Whether finished work is kept.
    pub persist: bool,
}

/// What is to be stored after a piece of the stream.
#[derive(Debug)]
pub struct StreamStep {
    /// The issue by which the task is known from now on.
    pub issue: Option<u64>,
    /// The work that is kept.
    pub artifact: Option<Artifact>,
}

/// What a [`StreamStep`] holds.
pub struct StepView {
    pub issue: Option<nat>,
    pub artifact: Option<ArtifactView>,
}

impl View for StreamStep {
    type V = StepView;

    open spec fn view(&self) -> StepView {
        StepView {
            issue: text::opt_number(self.issue),
            artifact: items::opt_artifact(self.artifact),
        }
    }
}

/// Nothing is to be stored.
pub open spec fn no_step() -> StepView {
    StepView { issue: None, artifact: None }
}

/// The issue to be stored: what was found, where it is not known yet.
pub open spec fn fresh_issue(found: Option<nat>, known: Option<nat>) -> Option<nat> {
    if found is Some && found != known {
        found
    } else {
        None
    }
}

/// How far the output has been searched once `text` is added: to the end of its last
/// complete line, where `text` completes one.
pub open spec fn searched_to(s: RunView, text: Seq<char>) -> nat {
    let end = line_end(s.output + text);
    if s.search && text.contains('\n') && end > s.scanned {
        end
    } else {
        s.scanned
    }
}

/// The state after a piece of the stream.
pub open spec fn after_item(s: RunView, item: StreamView, now: Timestamp, elapsed_ms: u64) -> RunView {
    match item {
        StreamView::MessageDelta { text } => RunView {
            output: s.output + text,
            scanned: searched_to(s, text),
            first_output_at: if s.first_token_latency_ms is None {
                Some(now)
            } else {
                s.first_output_at
            },
            first_token_latency_ms: if s.first_token_latency_ms is None {
                Some(elapsed_ms)
            } else {
                s.first_token_latency_ms
            },
            ..s
        },
        StreamView::ItemCompleted { item: ItemView::AgentReasoning { content } } => RunView {
            output: content,
            scanned: content.len(),
            first_output_at: if s.first_output_at is None && content.len() > 0 {
                Some(now)
            } else {
                s.first_output_at
            },
            ..s
        },
        StreamView::TokenUsage { usage } => RunView { usage, ..s },
        StreamView::Done => RunView { closed: true, ..s },
        _ => s,
    }
}

/// What is to be stored after a piece of the stream.
pub open spec fn item_step(s: RunView, item: StreamView) -> StepView {
    match item {
        StreamView::MessageDelta { text } => {
            let to = searched_to(s, text);
            if to > s.scanned {
                StepView {
                    issue: fresh_issue(
                        markers::created_issue(
                            (s.output + text).subrange(s.scanned as int, to as int),
                        ),
                        s.known_issue,
                    ),
                    artifact: None,
                }
            } else {
                no_step()
            }
        },
        StreamView::ItemCompleted { item } => match item {
            ItemView::AgentReasoning { content } => StepView {
                issue: if s.search {
                    fresh_issue(markers::created_issue(content), s.known_issue)
                } else {
                    None
                },
                artifact: None,
            },
            _ => StepView {
                issue: None,
                artifact: if s.persist {
                    items::artifact(item)
                } else {
                    None
                },
            },
        },
        _ => no_step(),
    }
}

fn push_text(output: &mut Vec<char>, text: &[char])
    ensures
        final(output)@ == old(output)@ + text@,
{
    let ghost before = output@;
    let mut i: usize = 0;
    assert(before + text@.take(0) == before);
    while i < text.len()
        invariant
            i <= text.len(),
            output@ == before + text@.take(i as int),
        decreases text.len() - i,
    {
        assert(text@.take(i + 1) == text@.take(i as int).push(text@[i as int]));
        output.push(text[i]);
        i += 1;
    }
    assert(text@.take(i as int) == text@);
}

fn holds_line_end(s: &[char]) -> (r: bool)
    ensures
        r == s@.contains('\n'),
{
    let mut i: usize = 0;
    while i < s.len()
        invariant
            i <= s.len(),
            forall|j: int| 0 <= j < i ==> s@[j] != '\n',
        decreases s.len() - i,
    {
        if s[i] == '\n' {
            return true;
        }
        i += 1;
    }
    false
}

fn unknown_issue(found: Option<u64>, known: Option<u64>) -> (r: Option<u64>)
    ensures
        text::opt_number(r) == fresh_issue(text::opt_number(found), text::opt_number(known)),
{
    match (found, known) {
        (Some(n), Some(k)) => if n == k {
            None
        } else {
            found
        },
        _ => found,
    }
}

/// How a turn ended.
#[derive(Debug)]
pub enum TurnEnd {
    Succeeded { output: String, usage: TokenUsage, telemetry: TurnTelemetry },
    Failed { error: String, failure: TurnFailure, telemetry: TurnTelemetry },
}

/// What a [`TurnEnd`] holds.
pub enum TurnEndView {
    Succeeded { output: Seq<char>, usage: TokenUsage, telemetry: TurnTelemetry },
    Failed { error: Seq<char>, failure: FailureView, telemetry: TurnTelemetry },
}

impl View for TurnEnd {
    type V = TurnEndView;

    open spec fn view(&self) -> TurnEndView {
        match self {
            TurnEnd::Succeeded { output, usage, telemetry } => TurnEndView::Succeeded {
                output: output@,
                usage: *usage,
                telemetry: *telemetry,
            },
            TurnEnd::Failed { error, failure, telemetry } => TurnEndView::Failed {
                error: error@,
                failure: failure@,
                telemetry: *telemetry,
            },
        }
    }
}

/// The times of a turn.
pub open spec fn telemetry_of(
    s: RunView,
    prompt_built_at: Timestamp,
    agent_started_at: Timestamp,
    completed_at: Timestamp,
    exit_code: Option<i32>,
) -> TurnTelemetry {
    TurnTelemetry {
        prompt_built_at,
        agent_started_at,
        first_output_at: s.first_output_at,
        completed_at,
        first_token_latency_ms: s.first_token_latency_ms,
        completed_latency_ms: clock::elapsed_ms(agent_started_at, completed_at) as u64,
        retry_count: None,
        exit_code,
    }
}

/// The failure of a turn: what the agent told of it, or no more than its error.
pub open spec fn known_failure(error: Seq<char>, failure: Option<FailureView>) -> FailureView {
    match failure {
        Some(f) => f,
        None => telemetry::plain_failure(TurnFailureKind::Unknown, None, error),
    }
}

/// How a turn ended.
pub open spec fn turn_end(
    s: RunView,
    prompt_built_at: Timestamp,
    agent_started_at: Timestamp,
    completed_at: Timestamp,
) -> TurnEndView {
    match s.result {
        Some(RunResultView::Succeeded) => TurnEndView::Succeeded {
            output: s.output,
            usage: s.usage,
            telemetry: telemetry_of(s, prompt_built_at, agent_started_at, completed_at, Some(0)),
        },
        Some(RunResultView::Failed { error, failure }) => TurnEndView::Failed {
            error,
            failure: known_failure(error, failure),
            telemetry: telemetry_of(s, prompt_built_at, agent_started_at, completed_at, None),
        },
        None => TurnEndView::Failed {
            error: "agent execution completed without result"@,
            failure: known_failure("agent execution completed without result"@, None),
            telemetry: telemetry_of(s, prompt_built_at, agent_started_at, completed_at, None),
        },
    }
}

impl StreamRun {
    #[verifier::type_invariant]
    spec fn valid(self) -> bool {
        self.scanned <= self.output@.len()
    }
}

impl View for StreamRun {
    type V = RunView;

    closed spec fn view(&self) -> RunView {
        RunView {
            output: self.output@,
            scanned: self.scanned as nat,
            known_issue: text::opt_number(self.known_issue),
            usage: self.usage,
            closed: self.closed,
            result: opt_result(self.result),
            first_output_at: self.first_output_at,
            first_token_latency_ms: self.first_token_latency_ms,
            search: self.search,
            persist: self.persist,
        }
    }
}

/// The state after nothing came for too long. An agent that has ended its work is not
/// hurt by that.
pub open spec fn after_stall(s: RunView, secs: nat) -> RunView {
    if s.result is Some {
        s
    } else {
        RunView {
            result: Some(
                RunResultView::Failed {
                    error: stall_text(secs),
                    failure: Some(
                        telemetry::plain_failure(
                            TurnFailureKind::Timeout,
                            None,
                            stall_text(secs),
                        ),
                    ),
                },
            ),
            closed: true,
            ..s
        }
    }
}

/// A turn of which nothing is known yet.
pub open spec fn fresh_run(options: RunAgentStreamingOptions, is_auto_fix: bool) -> RunView {
    RunView {
        output: seq![],
        scanned: 0,
        known_issue: None,
        usage: TokenUsage { input_tokens: 0, output_tokens: 0, total_tokens: 0 },
        closed: false,
        result: None,
        first_output_at: None,
        first_token_latency_ms: None,
        search: options.backfill_auto_fix_issue && is_auto_fix,
        persist: options.persist_artifacts,
    }
}

impl StreamRun {
    /// A turn of which nothing is known yet.
    pub fn new(options: RunAgentStreamingOptions, is_auto_fix: bool) -> (r: StreamRun)
        ensures
            r@ == fresh_run(options, is_auto_fix),
    {
        let r = StreamRun {
            output: Vec::new(),
            scanned: 0,
            known_issue: None,
            usage: TokenUsage { input_tokens: 0, output_tokens: 0, total_tokens: 0 },
            closed: false,
            result: None,
            first_output_at: None,
            first_token_latency_ms: None,
            search: options.backfill_auto_fix_issue && is_auto_fix,
            persist: options.persist_artifacts,
        };
        assert(r@.output == Seq::<char>::empty());
        r
    }

    fn message(&mut self, text: &str, now: Timestamp, elapsed_ms: u64) -> (r: Option<u64>)
        ensures
            final(self)@ == after_item(
                old(self)@,
                StreamView::MessageDelta { text: text@ },
                now,
                elapsed_ms,
            ),
            text::opt_number(r) == item_step(
                old(self)@,
                StreamView::MessageDelta { text: text@ },
            ).issue,
    {
        proof {
            use_type_invariant(&*self);
        }
        let ghost s = self@;
        let more = text::chars_of(text);
        let mut output: Vec<char> = Vec::new();
        push_text(&mut output, self.output.as_slice());
        push_text(&mut output, more.as_slice());
        assert(output@ == s.output + text@);
        if self.first_token_latency_ms.is_none() {
            self.first_output_at = Some(now);
            self.first_token_latency_ms = Some(elapsed_ms);
        }
        let end: usize = find_line_end(output.as_slice());
        let from: usize = self.scanned;
        self.output = output;
        if self.search && holds_line_end(more.as_slice()) && end > from {
            let piece = slice_subrange(self.output.as_slice(), from, end);
            let found = markers::parse_created_issue_number(text::text_of(piece).as_str());
            self.scanned = end;
            return unknown_issue(found, self.known_issue);
        }
        None
    }

    fn reasoning(&mut self, content: &str, now: Timestamp) -> (r: Option<u64>)
        ensures
            forall|elapsed_ms: u64|
                final(self)@ == #[trigger] after_item(
                    old(self)@,
                    StreamView::ItemCompleted {
                        item: ItemView::AgentReasoning { content: content@ },
                    },
                    now,
                    elapsed_ms,
                ),
            text::opt_number(r) == item_step(
                old(self)@,
                StreamView::ItemCompleted { item: ItemView::AgentReasoning { content: content@ } },
            ).issue,
    {
        let output = text::chars_of(content);
        self.scanned = 0;
        self.output = output;
        self.scanned = self.output.len();
        if self.first_output_at.is_none() && !content.is_empty() {
            self.first_output_at = Some(now);
        }
        if self.search {
            let found = markers::parse_created_issue_number(content);
            return unknown_issue(found, self.known_issue);
        }
        None
    }

    /// Takes a piece of the stream. `elapsed_ms` is how long the turn has run.
    pub fn item(&mut self, item: StreamItem, now: Timestamp, elapsed_ms: u64) -> (r: StreamStep)
        ensures
            final(self)@ == after_item(old(self)@, item@, now, elapsed_ms),
            r@ == item_step(old(self)@, item@),
    {
        proof {
            use_type_invariant(&*self);
        }
        match item {
            StreamItem::MessageDelta { text } => {
                let issue = self.message(text.as_str(), now, elapsed_ms);
                StreamStep { issue, artifact: None }
            },
            StreamItem::ItemCompleted { item } => {
                if let Item::AgentReasoning { content } = &item {
                    let issue = self.reasoning(content.as_str(), now);
                    return StreamStep { issue, artifact: None };
                }
                if self.persist {
                    StreamStep { issue: None, artifact: items::artifact_of(&item) }
                } else {
                    StreamStep { issue: None, artifact: None }
                }
            },
            StreamItem::TokenUsage { usage } => {
                self.usage = usage;
                StreamStep { issue: None, artifact: None }
            },
            StreamItem::Done => {
                self.closed = true;
                StreamStep { issue: None, artifact: None }
            },
            _ => StreamStep { issue: None, artifact: None },
        }
    }

    /// Notes that the stream has ended.
    pub fn stream_closed(&mut self)
        ensures
            final(self)@ == (RunView { closed: true, ..old(self)@ }),
    {
        proof {
            use_type_invariant(&*self);
        }
        self.closed = true;
    }

    /// Notes what came of the agent's work.
    pub fn executed(&mut self, result: RunResult)
        ensures
            final(self)@ == (RunView { result: Some(result@), ..old(self)@ }),
    {
        proof {
            use_type_invariant(&*self);
        }
        self.result = Some(result);
    }

    /// Notes that nothing came for too long. An agent that has ended its work is not
    /// hurt by that.
    pub fn stalled(&mut self, stall_timeout_secs: u64)
        ensures
            final(self)@ == after_stall(old(self)@, stall_timeout_secs as nat),
    {
        proof {
            use_type_invariant(&*self);
        }
        if self.result.is_none() {
            let error = stall_message(stall_timeout_secs);
            let failure = TurnFailure::plain(TurnFailureKind::Timeout, None, error.as_str());
            self.result = Some(RunResult::Failed { error, failure: Some(failure) });
            self.closed = true;
        }
    }

    /// Whether the turn is over: the agent's work and the stream have ended.
    pub fn is_over(&self) -> (r: bool)
        ensures
            r == (self@.result is Some && self@.closed),
    {
        self.result.is_some() && self.closed
    }

    /// Notes that an issue was stored with the task.
    pub fn issue_stored(&mut self, issue: u64)
        ensures
            final(self)@ == (RunView { known_issue: Some(issue as nat), ..old(self)@ }),
    {
        proof {
            use_type_invariant(&*self);
        }
        self.known_issue = Some(issue);
    }

    /// The issue to be stored at the end: what stands in a last line that was never
    /// completed.
    pub fn trailing_issue(&self) -> (r: Option<u64>)
        ensures
            text::opt_number(r) == (if self@.search && self@.output.len() > self@.scanned {
                fresh_issue(
                    markers::created_issue(self@.output.skip(self@.scanned as int)),
                    self@.known_issue,
                )
            } else {
                None
            }),
    {
        proof {
            use_type_invariant(self);
        }
        let len: usize = self.output.len();
        if self.search && len > self.scanned {
            let piece = slice_subrange(self.output.as_slice(), self.scanned, len);
            assert(piece@ == self.output@.skip(self.scanned as int));
            let found = markers::parse_created_issue_number(text::text_of(piece).as_str());
            return unknown_issue(found, self.known_issue);
        }
        None
    }

    /// How the turn ended.
    pub fn end(
        self,
        prompt_built_at: Timestamp,
        agent_started_at: Timestamp,
        completed_at: Timestamp,
    ) -> (r: TurnEnd)
        ensures
            r@ == turn_end(self@, prompt_built_at, agent_started_at, completed_at),
    {
        let completed_latency_ms: u64 = clock::elapsed_millis(agent_started_at, completed_at);
        let telemetry = TurnTelemetry {
            prompt_built_at,
            agent_started_at,
            first_output_at: self.first_output_at,
            completed_at,
            first_token_latency_ms: self.first_token_latency_ms,
            completed_latency_ms,
            retry_count: None,
            exit_code: None,
        };
        match self.result {
            Some(RunResult::Succeeded) => TurnEnd::Succeeded {
                output: text::text_of(self.output.as_slice()),
                usage: self.usage,
                telemetry: TurnTelemetry { exit_code: Some(0), ..telemetry },
            },
            Some(RunResult::Failed { error, failure }) => {
                let failure = match failure {
                    Some(f) => f,
                    None => TurnFailure::plain(TurnFailureKind::Unknown, None, error.as_str()),
                };
                TurnEnd::Failed { error, failure, telemetry }
            },
            None => {
                let error = "agent execution completed without result".to_owned();
                let failure = TurnFailure::plain(TurnFailureKind::Unknown, None, error.as_str());
                TurnEnd::Failed { error, failure, telemetry }
            },
        }
    }
}

proof fn lemma_line_end(s: Seq<char>)
    ensures
        line_end(s) <= s.len(),
        line_end(s) > 0 ==> s[line_end(s) - 1] == '\n',
    decreases s.len(),
{
    if s.len() > 0 && s.last() != '\n' {
        lemma_line_end(s.drop_last());
    }
}

/// Whether what was searched of the output is a row of complete lines.
pub open spec fn searched_lines(s: RunView) -> bool {
    s.scanned <= s.output.len() && (s.scanned == 0 || s.output[s.scanned - 1] == '\n')
}

/// As an agent's messages come in, each complete line is searched once, and what is
/// found in the pieces is what a search of all of them at once would find.
pub proof fn law_pieces_find_what_the_whole_holds(
    s: RunView,
    text: Seq<char>,
    now: Timestamp,
    elapsed_ms: u64,
)
    requires
        searched_lines(s),
    ensures
        ({
            let t = after_item(s, StreamView::MessageDelta { text }, now, elapsed_ms);
            let found = markers::created_issue(
                t.output.subrange(s.scanned as int, t.scanned as int),
            );
            &&& searched_lines(t)
            &&& t.scanned >= s.scanned
            &&& t.scanned > s.scanned ==> markers::created_issue(t.output.take(t.scanned as int))
                == (if found is Some {
                found
            } else {
                markers::created_issue(s.output.take(s.scanned as int))
            })
            &&& t.scanned == s.scanned ==> t.output.take(t.scanned as int) == s.output.take(
                s.scanned as int,
            )
        }),
{
    let t = after_item(s, StreamView::MessageDelta { text }, now, elapsed_ms);
    lemma_line_end(s.output + text);
    let before = s.output.take(s.scanned as int);
    assert(t.output.take(s.scanned as int) == before);
    if t.scanned > s.scanned {
        let piece = t.output.subrange(s.scanned as int, t.scanned as int);
        assert(t.output.take(t.scanned as int) == before + piece);
        markers::law_issue_is_found_in_pieces(before, piece);
    }
}

/// At the end nothing is left that was not searched: what the searched lines and the
/// rest name is what the whole output names.
pub proof fn law_search_leaves_nothing_out(s: RunView)
    requires
        searched_lines(s),
    ensures
        ({
            let rest = markers::created_issue(s.output.skip(s.scanned as int));
            markers::created_issue(s.output) == (if rest is Some {
                rest
            } else {
                markers::created_issue(s.output.take(s.scanned as int))
            })
        }),
{
    let before = s.output.take(s.scanned as int);
    let rest = s.output.skip(s.scanned as int);
    assert(before + rest == s.output);
    markers::law_issue_is_found_in_pieces(before, rest);
}

/// A turn whose work has ended keeps its result, however long its stream takes to end;
/// one that says nothing before it has ended fails for that reason.
pub proof fn law_stall_hurts_only_unfinished_work(
    s: RunView,
    secs: nat,
    built: Timestamp,
    started: Timestamp,
    completed: Timestamp,
)
    ensures
        s.result is Some ==> turn_end(after_stall(s, secs), built, started, completed) == turn_end(
            s,
            built,
            started,
            completed,
        ),
        s.result is None ==> (turn_end(
            after_stall(s, secs),
            built,
            started,
            completed,
        ) matches TurnEndView::Failed { failure, .. } && failure.kind == TurnFailureKind::Timeout
            && failure.message == Some(stall_text(secs))),
{
}

/// The state after several pieces of the stream, each with the time when it came and how
/// long the turn had run.
pub open spec fn after_items(s: RunView, pieces: Seq<(StreamView, Timestamp, u64)>) -> RunView
    decreases pieces.len(),
{
    if pieces.len() == 0 {
        s
    } else {
        let (item, now, elapsed_ms) = pieces.last();
        after_item(after_items(s, pieces.drop_last()), item, now, elapsed_ms)
    }
}

/// The texts of the message pieces among these, in their order.
pub open spec fn message_text(pieces: Seq<(StreamView, Timestamp, u64)>) -> Seq<char>
    decreases pieces.len(),
{
    if pieces.len() == 0 {
        seq![]
    } else {
        match pieces.last().0 {
            StreamView::MessageDelta { text } => message_text(pieces.drop_last()) + text,
            _ => message_text(pieces.drop_last()),
        }
    }
}

/// Whether a piece of the stream is a message of the agent, complete.
pub open spec fn complete_message(item: StreamView) -> bool {
    item matches StreamView::ItemCompleted { item: i } && i is AgentReasoning
}

/// The output is the last complete message of the agent and the message pieces that came
/// after it, in their order: a complete message replaces whatever was said before.
pub proof fn law_complete_message_replaces_the_output(
    s: RunView,
    pieces: Seq<(StreamView, Timestamp, u64)>,
    k: int,
    content: Seq<char>,
)
    requires
        0 <= k < pieces.len(),
        pieces[k].0 == (StreamView::ItemCompleted { item: ItemView::AgentReasoning { content } }),
        forall|j: int| k < j < pieces.len() ==> !complete_message((#[trigger] pieces[j]).0),
    ensures
        after_items(s, pieces).output == content + message_text(pieces.skip(k + 1)),
    decreases pieces.len(),
{
    let less = pieces.drop_last();
    if k == pieces.len() - 1 {
        assert(pieces.skip(k + 1).len() == 0);
        assert(content + message_text(pieces.skip(k + 1)) == content);
    } else {
        law_complete_message_replaces_the_output(s, less, k, content);
        assert(!complete_message(pieces[pieces.len() - 1].0));
        assert(pieces.skip(k + 1).drop_last() == less.skip(k + 1));
        assert(pieces.skip(k + 1).last() == pieces.last());
        match pieces.last().0 {
            StreamView::MessageDelta { text } => {
                assert(content + message_text(less.skip(k + 1)) + text == content + (message_text(
                    less.skip(k + 1),
                ) + text));
            },
            _ => {},
        }
    }
}

/// Without a complete message the output is what was said before and all message pieces, in
/// their order.
pub proof fn law_message_pieces_add_up(s: RunView, pieces: Seq<(StreamView, Timestamp, u64)>)
    requires
        forall|j: int| 0 <= j < pieces.len() ==> !complete_message((#[trigger] pieces[j]).0),
    ensures
        after_items(s, pieces).output == s.output + message_text(pieces),
    decreases pieces.len(),
{
    if pieces.len() == 0 {
        assert(s.output + message_text(pieces) == s.output);
    } else {
        let less = pieces.drop_last();
        law_message_pieces_add_up(s, less);
        assert(!complete_message(pieces[pieces.len() - 1].0));
        match pieces.last().0 {
            StreamView::MessageDelta { text } => {
                assert(s.output + message_text(less) + text == s.output + (message_text(less)
                    + text));
            },
            _ => {},
        }
    }
}

/// The usage of a turn is the last that was told, and none where none was told.
pub proof fn law_last_usage_counts(
    s: RunView,
    pieces: Seq<(StreamView, Timestamp, u64)>,
    k: int,
    usage: TokenUsage,
)
    requires
        -1 <= k < pieces.len(),
        k == -1 ==> usage == s.usage,
        k >= 0 ==> pieces[k].0 == (StreamView::TokenUsage { usage }),
        forall|j: int| k < j < pieces.len() ==> !((#[trigger] pieces[j]).0 is TokenUsage),
    ensures
        after_items(s, pieces).usage == usage,
    decreases pieces.len(),
{
    if pieces.len() > 0 && k < pieces.len() - 1 {
        assert(!(pieces[pieces.len() - 1].0 is TokenUsage));
        law_last_usage_counts(s, pieces.drop_last(), k, usage);
    }
}

/// The stream has ended exactly where it said so. Pieces of it never change the result, the
/// known issue, or what is searched and kept.
pub proof fn law_stream_ends_when_it_says_so(s: RunView, pieces: Seq<(StreamView, Timestamp, u64)>)
    ensures
        after_items(s, pieces).closed <==> s.closed || exists|j: int|
            0 <= j < pieces.len() && (#[trigger] pieces[j]).0 is Done,
        after_items(s, pieces).result == s.result,
        after_items(s, pieces).known_issue == s.known_issue,
        after_items(s, pieces).search == s.search,
        after_items(s, pieces).persist == s.persist,
    decreases pieces.len(),
{
    if pieces.len() > 0 {
        let less = pieces.drop_last();
        law_stream_ends_when_it_says_so(s, less);
        let n = pieces.len() - 1;
        if pieces[n].0 is Done {
            assert(after_items(s, pieces).closed);
        } else if after_items(s, less).closed && !s.closed {
            let j = choose|j: int| 0 <= j < less.len() && (#[trigger] less[j]).0 is Done;
            assert(pieces[j].0 is Done);
        }
        if exists|j: int| 0 <= j < pieces.len() && (#[trigger] pieces[j]).0 is Done {
            let j = choose|j: int| 0 <= j < pieces.len() && (#[trigger] pieces[j]).0 is Done;
            if j < n {
                assert(less[j].0 is Done);
            }
        }
    }
}

/// How long the agent took to say something is told by its first message piece, and by no
/// later one.
pub proof fn law_first_piece_gives_the_latency(
    s: RunView,
    pieces: Seq<(StreamView, Timestamp, u64)>,
    k: int,
)
    requires
        s.first_token_latency_ms is None,
        0 <= k < pieces.len(),
        pieces[k].0 is MessageDelta,
        forall|j: int| 0 <= j < k ==> !((#[trigger] pieces[j]).0 is MessageDelta),
    ensures
        after_items(s, pieces).first_token_latency_ms == Some(pieces[k].2),
        after_items(s, pieces).first_output_at == Some(pieces[k].1),
    decreases pieces.len(),
{
    let less = pieces.drop_last();
    if k == pieces.len() - 1 {
        lemma_no_latency(s, less);
    } else {
        law_first_piece_gives_the_latency(s, less, k);
    }
}

proof fn lemma_no_latency(s: RunView, pieces: Seq<(StreamView, Timestamp, u64)>)
    requires
        s.first_token_latency_ms is None,
        forall|j: int| 0 <= j < pieces.len() ==> !((#[trigger] pieces[j]).0 is MessageDelta),
    ensures
        after_items(s, pieces).first_token_latency_ms is None,
    decreases pieces.len(),
{
    if pieces.len() > 0 {
        assert(!(pieces[pieces.len() - 1].0 is MessageDelta));
        lemma_no_latency(s, pieces.drop_last());
    }
}

/// A turn that succeeded gives the agent's output and usage as the stream told them; one
/// that failed gives its error, and one without a result fails too.
pub proof fn law_turn_ends_by_its_result(
    options: RunAgentStreamingOptions,
    is_auto_fix: bool,
    pieces: Seq<(StreamView, Timestamp, u64)>,
    result: Option<RunResultView>,
    built: Timestamp,
    started: Timestamp,
    completed: Timestamp,
)
    ensures
        ({
            let told = after_items(fresh_run(options, is_auto_fix), pieces);
            let end = turn_end(RunView { result, ..told }, built, started, completed);
            match result {
                Some(RunResultView::Succeeded) => end matches TurnEndView::Succeeded {
                    output,
                    usage,
                    telemetry,
                } && output == told.output && usage == told.usage && telemetry.exit_code == Some(
                    0i32,
                ) && telemetry.first_output_at == told.first_output_at
                    && telemetry.first_token_latency_ms == told.first_token_latency_ms
                    && telemetry.prompt_built_at == built && telemetry.agent_started_at == started
                    && telemetry.completed_at == completed && telemetry.retry_count is None,
                Some(RunResultView::Failed { error, failure }) => end matches TurnEndView::Failed {
                    error: e,
                    failure: f,
                    telemetry,
                } && e == error && (failure matches Some(known) ==> f == known) && (failure is None
                    ==> f.kind == TurnFailureKind::Unknown && f.message == Some(error)
                    && f.provider is None) && telemetry.exit_code is None,
                None => end matches TurnEndView::Failed { error: e, failure: f, .. } && e
                    == "agent execution completed without result"@ && f.kind
                    == TurnFailureKind::Unknown,
            }
        }),
        ({
            let s = fresh_run(options, is_auto_fix);
            &&& s.output.len() == 0 && s.scanned == 0 && s.known_issue is None
            &&& s.usage.input_tokens == 0 && s.usage.output_tokens == 0
            &&& !s.closed && s.result is None && s.first_output_at is None
            &&& s.first_token_latency_ms is None
            &&& s.search <==> options.backfill_auto_fix_issue && is_auto_fix
            &&& s.persist == options.persist_artifacts
        }),
{
}

/// An issue is stored only where the output is searched and names one that is not known
/// yet; work is kept only where that is wanted, and a message of the agent never is.
pub proof fn law_only_news_is_stored(s: RunView, item: StreamView)
    ensures
        item_step(s, item).issue matches Some(n) ==> s.search && s.known_issue != Some(n),
        item_step(s, item).artifact is Some ==> s.persist && item is ItemCompleted
            && !complete_message(item),
        item matches StreamView::ItemCompleted { item: i } ==> (s.persist && !(i is AgentReasoning)
            ==> item_step(s, item).artifact == items::artifact(i)),
        item matches StreamView::ItemCompleted { item: ItemView::AgentReasoning { content } } ==> (
        s.search && markers::created_issue(content) is Some && markers::created_issue(content)
            != s.known_issue ==> item_step(s, item).issue == markers::created_issue(content)),
        item matches StreamView::MessageDelta { text } ==> (!text.contains('\n')
            ==> item_step(s, item) == no_step()),
{
    if let StreamView::MessageDelta { text } = item {
        if !text.contains('\n') {
            assert(searched_to(s, text) == s.scanned);
        }
    }
}

/// The last complete line of a text ends behind its last line break.
pub proof fn law_line_ends_at_the_last_break(s: Seq<char>)
    ensures
        line_end(s) <= s.len(),
        line_end(s) > 0 ==> s[line_end(s) - 1] == '\n',
        forall|i: int| line_end(s) <= i < s.len() ==> #[trigger] s[i] != '\n',
    decreases s.len(),
{
    if s.len() > 0 && s.last() != '\n' {
        let less = s.drop_last();
        law_line_ends_at_the_last_break(less);
        assert forall|i: int| line_end(s) <= i < s.len() implies #[trigger] s[i] != '\n' by {
            if i < less.len() {
                assert(less[i] == s[i]);
            }
        }
    }
}

/// A piece of a message that ends a line has all that is complete by then searched, from where
/// the last search ended up to its last line break; an issue that is named there and is not
/// known yet is told, and the next search begins behind it. Without a search nothing moves.
pub proof fn law_finished_lines_are_searched(
    s: RunView,
    head: Seq<char>,
    rest: Seq<char>,
    now: Timestamp,
    elapsed_ms: u64,
)
    requires
        s.scanned <= s.output.len(),
        forall|i: int| 0 <= i < rest.len() ==> #[trigger] rest[i] != '\n',
    ensures
        ({
            let item = StreamView::MessageDelta { text: head + seq!['\n'] + rest };
            let lines = (s.output + head + seq!['\n']).skip(s.scanned as int);
            let found = markers::created_issue(lines);
            &&& s.search ==> after_item(s, item, now, elapsed_ms).scanned == s.output.len()
                + head.len() + 1
            &&& s.search && found is Some && found != s.known_issue ==> item_step(s, item).issue
                == found
            &&& s.search && (found is None || found == s.known_issue) ==> item_step(
                s,
                item,
            ).issue is None
            &&& !s.search ==> after_item(s, item, now, elapsed_ms).scanned == s.scanned
                && item_step(s, item).issue is None
        }),
{
    let text = head + seq!['\n'] + rest;
    let lines = s.output + head + seq!['\n'];
    let all = s.output + text;
    assert(all == lines + rest);
    assert(lines.last() == '\n');
    lemma_line_end_behind(lines, rest);
    assert(text[head.len() as int] == '\n');
    assert(text.contains('\n'));
    let end = lines.len();
    assert(all.subrange(s.scanned as int, end as int) == lines.skip(s.scanned as int));
}

proof fn lemma_line_end_behind(lines: Seq<char>, rest: Seq<char>)
    requires
        lines.len() > 0,
        lines.last() == '\n',
        forall|i: int| 0 <= i < rest.len() ==> #[trigger] rest[i] != '\n',
    ensures
        line_end(lines + rest) == lines.len(),
    decreases rest.len(),
{
    let all = lines + rest;
    if rest.len() == 0 {
        assert(all == lines);
    } else {
        assert(all.last() == rest[rest.len() - 1]);
        assert(all.drop_last() == lines + rest.drop_last());
        assert forall|i: int| 0 <= i < rest.drop_last().len() implies #[trigger] rest.drop_last()[i]
            != '\n' by {
            assert(rest.drop_last()[i] == rest[i]);
        }
        lemma_line_end_behind(lines, rest.drop_last());
    }
}

/// The times of a turn end with how long it took from its start, and a result is seen as it
/// was told.
pub proof fn law_turn_tells_how_long_it_took(
    s: RunView,
    built: Timestamp,
    started: Timestamp,
    completed: Timestamp,
    r: RunResult,
)
    ensures
        s.result == Some(RunResultView::Succeeded) ==> (turn_end(
            s,
            built,
            started,
            completed,
        ) matches TurnEndView::Succeeded { telemetry, .. } && telemetry.completed_latency_ms
            == clock::elapsed_ms(started, completed) as u64),
        s.result != Some(RunResultView::Succeeded) ==> (turn_end(
            s,
            built,
            started,
            completed,
        ) matches TurnEndView::Failed { telemetry, .. } && telemetry.completed_latency_ms
            == clock::elapsed_ms(started, completed) as u64 && telemetry.first_output_at
            == s.first_output_at && telemetry.agent_started_at == started
            && telemetry.completed_at == completed && telemetry.prompt_built_at == built),
        opt_result(Some(r)) == Some(r@),
        opt_result(None) is None,
{
}

/// The first output is noted when it comes: with the first piece of a message, or with a
/// complete message that is not empty where nothing came before; nothing else moves it.
pub proof fn law_first_output_is_noted(
    s: RunView,
    item: StreamView,
    now: Timestamp,
    elapsed_ms: u64,
)
    ensures
        item matches StreamView::ItemCompleted { item: ItemView::AgentReasoning { content } } ==> (
        after_item(s, item, now, elapsed_ms).first_output_at == (if s.first_output_at is None
            && content.len() != 0 {
            Some(now)
        } else {
            s.first_output_at
        }) && after_item(s, item, now, elapsed_ms).first_token_latency_ms
            == s.first_token_latency_ms),
        item is MessageDelta && s.first_token_latency_ms is Some ==> after_item(
            s,
            item,
            now,
            elapsed_ms,
        ).first_output_at == s.first_output_at && after_item(
            s,
            item,
            now,
            elapsed_ms,
        ).first_token_latency_ms == s.first_token_latency_ms,
        !(item is MessageDelta) && !complete_message(item) ==> after_item(
            s,
            item,
            now,
            elapsed_ms,
        ).first_output_at == s.first_output_at,
{
}

} // verus!
