//! How a turn went: its times, and its failure.

use crate::clock;
use crate::clock::Timestamp;
use crate::task::TurnFailureKind;
use crate::text;
use vstd::prelude::*;
use vstd::string::*;

verus! {

/// When a turn's steps were, and how long they took.
#[derive(Clone, Copy, Debug, PartialEq, Eq, Structural)]
pub struct TurnTelemetry {
    pub prompt_built_at: Timestamp,
    pub agent_started_at: Timestamp,
    pub first_output_at: Option<Timestamp>,
    pub completed_at: Timestamp,
    pub first_token_latency_ms: Option<u64>,
    pub completed_latency_ms: u64,
    pub retry_count: Option<u32>,
    pub exit_code: Option<i32>,
}

/// The times of a turn that took too long.
pub fn telemetry_for_timeout(
    prompt_built_at: Timestamp,
    agent_started_at: Timestamp,
    completed_at: Timestamp,
    retry_count: Option<u32>,
) -> (r: TurnTelemetry)
    ensures
        r == (TurnTelemetry {
            prompt_built_at,
            agent_started_at,
            first_output_at: None,
            completed_at,
            first_token_latency_ms: None,
            completed_latency_ms: clock::elapsed_ms(agent_started_at, completed_at) as u64,
            retry_count,
            exit_code: None,
        }),
        r.completed_latency_ms == clock::elapsed_ms(agent_started_at, completed_at),
{
    let completed_latency_ms: u64 = clock::elapsed_millis(agent_started_at, completed_at);
    TurnTelemetry {
        prompt_built_at,
        agent_started_at,
        first_output_at: None,
        completed_at,
        first_token_latency_ms: None,
        completed_latency_ms,
        retry_count,
        exit_code: None,
    }
}

/// The failure of a turn.
#[derive(Debug)]
pub struct TurnFailure {
    pub kind: TurnFailureKind,
    /// The agent that failed.
    pub provider: Option<String>,
    /// What the service behind the agent answered.
    pub upstream_status: Option<u16>,
    pub message: Option<String>,
    /// The beginning of what the service answered.
    pub body_excerpt: Option<String>,
}

/// What a [`TurnFailure`] holds.
pub struct FailureView {
    pub kind: TurnFailureKind,
    pub provider: Option<Seq<char>>,
    pub upstream_status: Option<u16>,
    pub message: Option<Seq<char>>,
    pub body_excerpt: Option<Seq<char>>,
}

impl View for TurnFailure {
    type V = FailureView;

    open spec fn view(&self) -> FailureView {
        FailureView {
            kind: self.kind,
            provider: text::opt_view(self.provider),
            upstream_status: self.upstream_status,
            message: text::opt_view(self.message),
            body_excerpt: text::opt_view(self.body_excerpt),
        }
    }
}

/// The view of an optional failure.
pub open spec fn opt_failure(o: Option<TurnFailure>) -> Option<FailureView> {
    match o {
        None => None,
        Some(f) => Some(f@),
    }
}

/// A failure of which no more than its kind, its agent and its message is known.
pub open spec fn plain_failure(
    kind: TurnFailureKind,
    provider: Option<Seq<char>>,
    message: Seq<char>,
) -> FailureView {
    FailureView {
        kind,
        provider,
        upstream_status: None,
        message: Some(message),
        body_excerpt: None,
    }
}

impl TurnFailure {
    /// A failure of which no more than its kind, its agent and its message is known.
    pub fn plain(kind: TurnFailureKind, provider: Option<String>, message: &str) -> (r: TurnFailure)
        ensures
            r@ == plain_failure(kind, text::opt_view(provider), message@),
    {
        TurnFailure {
            kind,
            provider,
            upstream_status: None,
            message: Some(message.to_owned()),
            body_excerpt: None,
        }
    }

    /// A copy.
    pub fn copy(&self) -> (r: TurnFailure)
        ensures
            r@ == self@,
    {
        TurnFailure {
            kind: self.kind,
            provider: text::copy_opt(&self.provider),
            upstream_status: self.upstream_status,
            message: text::copy_opt(&self.message),
            body_excerpt: text::copy_opt(&self.body_excerpt),
        }
    }
}

/// What an entry or a note says of the turn that it is about.
#[derive(Debug)]
pub struct TurnMark {
    pub telemetry: Option<TurnTelemetry>,
    pub failure: Option<TurnFailure>,
}

/// What a [`TurnMark`] holds.
pub struct MarkView {
    pub telemetry: Option<TurnTelemetry>,
    pub failure: Option<FailureView>,
}

impl View for TurnMark {
    type V = MarkView;

    open spec fn view(&self) -> MarkView {
        MarkView { telemetry: self.telemetry, failure: opt_failure(self.failure) }
    }
}

/// Nothing is said of a turn.
pub open spec fn no_mark() -> MarkView {
    MarkView { telemetry: None, failure: None }
}

/// The times of a turn that did not fail.
pub open spec fn timed(telemetry: TurnTelemetry) -> MarkView {
    MarkView { telemetry: Some(telemetry), failure: None }
}

/// The times and the failure of a turn.
pub open spec fn failed(telemetry: TurnTelemetry, failure: FailureView) -> MarkView {
    MarkView { telemetry: Some(telemetry), failure: Some(failure) }
}

impl TurnMark {
    /// Nothing is said of a turn.
    pub fn none() -> (r: TurnMark)
        ensures
            r@ == no_mark(),
    {
        TurnMark { telemetry: None, failure: None }
    }

    /// The times of a turn that did not fail.
    pub fn timed(telemetry: TurnTelemetry) -> (r: TurnMark)
        ensures
            r@ == timed(telemetry),
    {
        TurnMark { telemetry: Some(telemetry), failure: None }
    }

    /// The times and the failure of a turn.
    pub fn failed(telemetry: TurnTelemetry, failure: TurnFailure) -> (r: TurnMark)
        ensures
            r@ == failed(telemetry, failure@),
    {
        TurnMark { telemetry: Some(telemetry), failure: Some(failure) }
    }

    /// A copy.
    pub fn copy(&self) -> (r: TurnMark)
        ensures
            r@ == self@,
    {
        let failure = match &self.failure {
            Some(f) => Some(f.copy()),
            None => None,
        };
        TurnMark { telemetry: self.telemetry, failure }
    }
}

/// A turn that did not fail has its times and no failure, one that failed has both, and
/// nothing is said of a turn that is not marked.
pub proof fn law_marks_say_how_the_turn_went(
    telemetry: TurnTelemetry,
    kind: TurnFailureKind,
    provider: Option<Seq<char>>,
    message: Seq<char>,
)
    ensures
        ({
            let f = plain_failure(kind, provider, message);
            &&& f.kind == kind
            &&& f.provider == provider
            &&& f.message == Some(message)
            &&& f.upstream_status is None
            &&& f.body_excerpt is None
            &&& failed(telemetry, f).telemetry == Some(telemetry)
            &&& failed(telemetry, f).failure == Some(f)
        }),
        timed(telemetry).telemetry == Some(telemetry),
        timed(telemetry).failure is None,
        no_mark().telemetry is None,
        no_mark().failure is None,
{
}

/// A failure and a mark are seen with all that they say.
pub proof fn law_failure_is_seen_whole(f: TurnFailure, m: TurnMark)
    ensures
        f@.kind == f.kind,
        f.provider matches Some(s) ==> f@.provider == Some(s@),
        f.provider is None ==> f@.provider is None,
        f@.upstream_status == f.upstream_status,
        f.message matches Some(s) ==> f@.message == Some(s@),
        f.message is None ==> f@.message is None,
        f.body_excerpt matches Some(s) ==> f@.body_excerpt == Some(s@),
        f.body_excerpt is None ==> f@.body_excerpt is None,
        m@.telemetry == m.telemetry,
        m.failure matches Some(x) ==> m@.failure == Some(x@),
        m.failure is None ==> m@.failure is None,
{
}

} // verus!
