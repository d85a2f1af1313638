//! What is noted of the prompts that agents get and the tokens that they use.

use crate::clock;
use crate::clock::Timestamp;
use crate::items::TokenUsage;
use crate::json;
use crate::json::{JsonObject, JsonValue, JsonView};
use crate::text;
use vstd::prelude::*;
use vstd::string::*;
use vstd::utf8::*;

verus! {

/// In what part of a task a prompt is sent.
#[derive(Clone, Copy, Debug, PartialEq, Eq, Structural)]
pub enum ExecutionPhase {
    Planning,
    Execution,
    Validation,
    SimpleReview,
}

impl ExecutionPhase {
    /// The word for this part.
    pub open spec fn word(self) -> Seq<char> {
        match self {
            ExecutionPhase::Planning => "planning"@,
            ExecutionPhase::Execution => "execution"@,
            ExecutionPhase::Validation => "validation"@,
            ExecutionPhase::SimpleReview => "simple_review"@,
        }
    }

    /// The word for this part.
    pub fn label(self) -> (r: &'static str)
        ensures
            r@ == self.word(),
    {
        match self {
            ExecutionPhase::Planning => "planning",
            ExecutionPhase::Execution => "execution",
            ExecutionPhase::Validation => "validation",
            ExecutionPhase::SimpleReview => "simple_review",
        }
    }
}

/// The word for a part of a task, if it is known.
pub fn execution_phase_label(phase: Option<ExecutionPhase>) -> (r: String)
    ensures
        r@ == (match phase {
            Some(p) => p.word(),
            None => "unknown"@,
        }),
{
    match phase {
        Some(p) => p.label().to_owned(),
        None => "unknown".to_owned(),
    }
}

/// The project that a turn is counted for: the task's own, else the place where the
/// agent works.
pub fn usage_project_label(task_project_root: Option<&str>, request_project_root: &str) -> (r:
    String)
    ensures
        r@ == (match task_project_root {
            Some(root) => root@,
            None => request_project_root@,
        }),
{
    match task_project_root {
        Some(root) => root.to_owned(),
        None => request_project_root.to_owned(),
    }
}

/// Whether the prompts of an agent are measured: those of `measured_agent` are.
pub fn measures_prompts_of(agent: &str, measured_agent: &str) -> (r: bool)
    ensures
        r == (agent@ == measured_agent@),
{
    text::str_eq(agent, measured_agent)
}

/// A note about what an agent used.
#[derive(Debug)]
pub struct UsageEvent {
    pub hook: &'static str,
    pub agent: String,
    pub turn: u32,
    pub phase: String,
    pub detail: String,
    pub content: String,
}

/// What a [`UsageEvent`] holds.
pub struct UsageView {
    pub hook: Seq<char>,
    pub agent: Seq<char>,
    pub turn: nat,
    pub phase: Seq<char>,
    pub detail: Seq<char>,
    pub content: Seq<char>,
}

impl View for UsageEvent {
    type V = UsageView;

    open spec fn view(&self) -> UsageView {
        UsageView {
            hook: self.hook@,
            agent: self.agent@,
            turn: self.turn as nat,
            phase: self.phase@,
            detail: self.detail@,
            content: self.content@,
        }
    }
}

/// Which turn a note is about.
#[derive(Debug)]
pub struct TurnInfo {
    pub task_id: String,
    pub turn: u32,
    pub phase: String,
    pub agent: String,
    pub model: Option<String>,
    pub project: String,
}

impl TurnInfo {
    /// The model, if it is known.
    pub open spec fn model_name(self) -> Seq<char> {
        match self.model {
            Some(m) => m@,
            None => "unknown"@,
        }
    }

    /// The model, if it is known.
    pub fn model_text(&self) -> (r: String)
        ensures
            r@ == self.model_name(),
    {
        match &self.model {
            Some(m) => m.clone(),
            None => "unknown".to_owned(),
        }
    }

    /// The fields that every note has.
    pub open spec fn common_fields(self, ts: Seq<char>) -> Map<Seq<char>, JsonView> {
        json::no_fields().insert("agent"@, JsonView::Text(self.agent@)).insert(
            "model"@,
            JsonView::Text(self.model_name()),
        ).insert("task_id"@, JsonView::Text(self.task_id@)).insert(
            "project"@,
            JsonView::Text(self.project@),
        ).insert("ts"@, JsonView::Text(ts))
    }

    fn common(&self, reported_at: Timestamp) -> (r: JsonObject)
        ensures
            r.fields() == self.common_fields(
                clock::rfc3339_text(reported_at.secs(), reported_at.nanos()),
            ),
    {
        JsonObject::new().with("agent", JsonValue::Text(self.agent.clone())).with(
            "model",
            JsonValue::Text(self.model_text()),
        ).with("task_id", JsonValue::Text(self.task_id.clone())).with(
            "project",
            JsonValue::Text(self.project.clone()),
        ).with("ts", JsonValue::Text(clock::rfc3339(reported_at)))
    }

    /// The beginning of every note's detail.
    pub open spec fn detail_start(self) -> Seq<char> {
        "task_id="@ + self.task_id@ + " project="@ + self.project@ + " model="@ + self.model_name()
    }

    fn detail(&self) -> (r: String)
        ensures
            r@ == self.detail_start(),
    {
        let mut d = "task_id=".to_owned();
        d.append(self.task_id.as_str());
        d.append(" project=");
        d.append(self.project.as_str());
        d.append(" model=");
        d.append(self.model_text().as_str());
        d
    }
}

/// The note about a prompt.
pub open spec fn prompt_note(
    info: TurnInfo,
    prompt: Seq<char>,
    context_items: nat,
    ts: Seq<char>,
) -> UsageView {
    let bytes = encode_utf8(prompt).len();
    UsageView {
        hook: "llm_prompt_input"@,
        agent: info.agent@,
        turn: info.turn as nat,
        phase: info.phase@,
        detail: info.detail_start() + " prompt_chars="@ + text::decimal(prompt.len())
            + " prompt_bytes="@ + text::decimal(bytes),
        content: json::object_text(
            info.common_fields(ts).insert("phase"@, JsonView::Text(info.phase@)).insert(
                "turn"@,
                JsonView::Number(info.turn as int),
            ).insert("prompt_chars"@, JsonView::Number(prompt.len() as int)).insert(
                "prompt_bytes"@,
                JsonView::Number(bytes as int),
            ).insert("context_items"@, JsonView::Number(context_items as int)),
        ),
    }
}

/// The note about a prompt: how long it is, in characters and in bytes.
pub fn build_prompt_input_event(
    info: &TurnInfo,
    prompt: &str,
    context_items: usize,
    reported_at: Timestamp,
) -> (r: UsageEvent)
    ensures
        r@ == prompt_note(
            *info,
            prompt@,
            context_items as nat,
            clock::rfc3339_text(reported_at.secs(), reported_at.nanos()),
        ),
{
    let chars: usize = text::chars_of(prompt).len();
    let bytes: usize = prompt.as_bytes().len();
    let content = info.common(reported_at).with(
        "phase",
        JsonValue::Text(info.phase.clone()),
    ).with("turn", JsonValue::Number(info.turn as u64)).with(
        "prompt_chars",
        JsonValue::Number(chars as u64),
    ).with("prompt_bytes", JsonValue::Number(bytes as u64)).with(
        "context_items",
        JsonValue::Number(context_items as u64),
    ).text();
    let mut detail = info.detail();
    detail.append(" prompt_chars=");
    detail.append(text::decimal_text(chars as u64).as_str());
    detail.append(" prompt_bytes=");
    detail.append(text::decimal_text(bytes as u64).as_str());
    UsageEvent {
        hook: "llm_prompt_input",
        agent: info.agent.clone(),
        turn: info.turn,
        phase: info.phase.clone(),
        detail,
        content,
    }
}

/// The tokens that were read from a cache. An agent does not report them by themselves, so
/// they are taken to be what the total counts besides input and output.
pub open spec fn cached_tokens(usage: TokenUsage) -> nat {
    if usage.input_tokens + usage.output_tokens <= usage.total_tokens {
        (usage.total_tokens - usage.input_tokens - usage.output_tokens) as nat
    } else {
        0
    }
}

/// The tokens that were read from a cache.
pub fn cache_read_tokens(usage: TokenUsage) -> (r: u64)
    ensures
        r == cached_tokens(usage),
{
    if usage.input_tokens <= usage.total_tokens {
        let rest: u64 = usage.total_tokens - usage.input_tokens;
        if usage.output_tokens <= rest {
            return rest - usage.output_tokens;
        }
    }
    0
}

/// The note about the tokens of a turn.
pub open spec fn usage_note(info: TurnInfo, usage: TokenUsage, ts: Seq<char>) -> UsageView {
    UsageView {
        hook: "llm_usage"@,
        agent: info.agent@,
        turn: info.turn as nat,
        phase: info.phase@,
        detail: info.detail_start() + " tokens="@ + text::decimal(usage.total_tokens as nat),
        content: json::object_text(
            info.common_fields(ts).insert(
                "input_tokens"@,
                JsonView::Number(usage.input_tokens as int),
            ).insert("output_tokens"@, JsonView::Number(usage.output_tokens as int)).insert(
                "cache_read_input_tokens"@,
                JsonView::Number(cached_tokens(usage) as int),
            ).insert("cache_creation_input_tokens"@, JsonView::Number(0)).insert(
                "reported_total_tokens"@,
                JsonView::Number(usage.total_tokens as int),
            ),
        ),
    }
}

/// The note about the tokens of a turn; none where no tokens are counted.
pub fn build_llm_usage_event(info: &TurnInfo, usage: TokenUsage, reported_at: Timestamp) -> (r:
    Option<UsageEvent>)
    ensures
        r is None == usage.is_zero(),
        r matches Some(e) ==> e@ == usage_note(
            *info,
            usage,
            clock::rfc3339_text(reported_at.secs(), reported_at.nanos()),
        ),
{
    if usage.input_tokens == 0 && usage.output_tokens == 0 && usage.total_tokens == 0 {
        return None;
    }
    let content = info.common(reported_at).with(
        "input_tokens",
        JsonValue::Number(usage.input_tokens),
    ).with("output_tokens", JsonValue::Number(usage.output_tokens)).with(
        "cache_read_input_tokens",
        JsonValue::Number(cache_read_tokens(usage)),
    ).with("cache_creation_input_tokens", JsonValue::Number(0)).with(
        "reported_total_tokens",
        JsonValue::Number(usage.total_tokens),
    ).text();
    let mut detail = info.detail();
    detail.append(" tokens=");
    detail.append(text::decimal_text(usage.total_tokens).as_str());
    Some(
        UsageEvent {
            hook: "llm_usage",
            agent: info.agent.clone(),
            turn: info.turn,
            phase: info.phase.clone(),
            detail,
            content,
        },
    )
}

/// No token is counted twice: what a note says of input, output and cache adds up to
/// the reported total, where that is no less than input and output.
pub proof fn law_tokens_add_up(usage: TokenUsage)
    requires
        usage.input_tokens + usage.output_tokens <= usage.total_tokens,
    ensures
        usage.input_tokens + usage.output_tokens + cached_tokens(usage) == usage.total_tokens,
{
}

/// The fields that every note has say whose turn it was, with which model, for which task and
/// project, and when.
pub proof fn law_notes_say_whose_turn_it_was(info: TurnInfo, ts: Seq<char>)
    ensures
        info.common_fields(ts)["agent"@] == JsonView::Text(info.agent@),
        info.common_fields(ts)["task_id"@] == JsonView::Text(info.task_id@),
        info.common_fields(ts)["project"@] == JsonView::Text(info.project@),
        info.common_fields(ts)["ts"@] == JsonView::Text(ts),
        info.model matches Some(m) ==> info.common_fields(ts)["model"@] == JsonView::Text(m@),
        info.model is None ==> info.common_fields(ts)["model"@] == JsonView::Text("unknown"@),
        info.common_fields(ts).dom() == set!["agent"@, "model"@, "task_id"@, "project"@, "ts"@],
{
    reveal_strlit("agent");
    reveal_strlit("model");
    reveal_strlit("task_id");
    reveal_strlit("project");
    reveal_strlit("ts");
    assert("agent"@[0] != "model"@[0]);
    assert("task_id"@[0] != "project"@[0]);
    assert("agent"@.len() == 5 && "task_id"@.len() == 7 && "ts"@.len() == 2);
    assert(info.common_fields(ts).dom() =~= set!["agent"@, "model"@, "task_id"@, "project"@, "ts"@]);
}

/// The note about a prompt says how long the prompt is, in characters and in bytes, in words
/// and in its fields, besides the fields that every note has.
pub proof fn law_prompt_is_measured(
    info: TurnInfo,
    prompt: Seq<char>,
    context_items: nat,
    ts: Seq<char>,
) -> (m: Map<Seq<char>, JsonView>)
    ensures
        ({
            let n = prompt_note(info, prompt, context_items, ts);
            &&& n.hook == "llm_prompt_input"@
            &&& n.agent == info.agent@
            &&& n.turn == info.turn
            &&& n.phase == info.phase@
            &&& text::ends_with(
                n.detail,
                " prompt_chars="@ + text::decimal(prompt.len()) + " prompt_bytes="@
                    + text::decimal(encode_utf8(prompt).len()),
            )
            &&& text::starts_with(n.detail, "task_id="@ + info.task_id@ + " project="@ + info.project@)
            &&& n.content == json::object_text(m)
        }),
        m["prompt_chars"@] == JsonView::Number(prompt.len() as int),
        m["prompt_bytes"@] == JsonView::Number(encode_utf8(prompt).len() as int),
        m["context_items"@] == JsonView::Number(context_items as int),
        m["phase"@] == JsonView::Text(info.phase@),
        m["turn"@] == JsonView::Number(info.turn as int),
        m["agent"@] == info.common_fields(ts)["agent"@],
        m["model"@] == info.common_fields(ts)["model"@],
        m["task_id"@] == info.common_fields(ts)["task_id"@],
        m["project"@] == info.common_fields(ts)["project"@],
        m["ts"@] == info.common_fields(ts)["ts"@],
{
    let bytes = encode_utf8(prompt).len();
    let m = info.common_fields(ts).insert("phase"@, JsonView::Text(info.phase@)).insert(
        "turn"@,
        JsonView::Number(info.turn as int),
    ).insert("prompt_chars"@, JsonView::Number(prompt.len() as int)).insert(
        "prompt_bytes"@,
        JsonView::Number(bytes as int),
    ).insert("context_items"@, JsonView::Number(context_items as int));
    let n = prompt_note(info, prompt, context_items, ts);
    let start = "task_id="@ + info.task_id@ + " project="@ + info.project@;
    let middle = " model="@ + info.model_name();
    let end = " prompt_chars="@ + text::decimal(prompt.len()) + " prompt_bytes="@ + text::decimal(
        bytes,
    );
    assert(n.detail == (start + middle) + end);
    assert(n.detail == start + (middle + end));
    text::lemma_ends(start + middle, end);
    text::lemma_begins(start, middle + end);
    lemma_prompt_names();
    let names = seq![
        "agent"@,
        "model"@,
        "task_id"@,
        "project"@,
        "ts"@,
        "phase"@,
        "turn"@,
        "prompt_chars"@,
        "prompt_bytes"@,
        "context_items"@,
    ];
    assert forall|i: int, j: int| 0 <= i < j < 10 implies names[i] != names[j] by {}
    assert(names[0] == "agent"@ && names[1] == "model"@ && names[2] == "task_id"@);
    assert(names[3] == "project"@ && names[4] == "ts"@ && names[5] == "phase"@);
    assert(names[6] == "turn"@ && names[7] == "prompt_chars"@);
    assert(names[8] == "prompt_bytes"@ && names[9] == "context_items"@);
    m
}

proof fn lemma_prompt_names()
    ensures
        seq![
            "agent"@,
            "model"@,
            "task_id"@,
            "project"@,
            "ts"@,
            "phase"@,
            "turn"@,
            "prompt_chars"@,
            "prompt_bytes"@,
            "context_items"@,
        ].no_duplicates(),
{
    reveal_strlit("agent");
    reveal_strlit("model");
    reveal_strlit("task_id");
    reveal_strlit("project");
    reveal_strlit("ts");
    reveal_strlit("phase");
    reveal_strlit("turn");
    reveal_strlit("prompt_chars");
    reveal_strlit("prompt_bytes");
    reveal_strlit("context_items");
    assert("agent"@[0] != "model"@[0] && "agent"@[0] != "phase"@[0] && "model"@[0] != "phase"@[0]);
    assert("task_id"@[0] != "project"@[0]);
    assert("prompt_chars"@[7] != "prompt_bytes"@[7]);
    assert("agent"@.len() == 5 && "model"@.len() == 5 && "phase"@.len() == 5);
    assert("task_id"@.len() == 7 && "project"@.len() == 7 && "ts"@.len() == 2);
    assert("turn"@.len() == 4 && "prompt_chars"@.len() == 12 && "prompt_bytes"@.len() == 12);
    assert("context_items"@.len() == 13);
}

/// The note about the tokens of a turn says what was reported of them, and takes what the
/// total counts besides input and output to come from a cache; none are said to be new
/// there.
pub proof fn law_tokens_are_noted(info: TurnInfo, usage: TokenUsage, ts: Seq<char>) -> (m: Map<
    Seq<char>,
    JsonView,
>)
    ensures
        ({
            let n = usage_note(info, usage, ts);
            &&& n.hook == "llm_usage"@
            &&& n.agent == info.agent@
            &&& n.turn == info.turn
            &&& n.phase == info.phase@
            &&& text::ends_with(n.detail, " tokens="@ + text::decimal(usage.total_tokens as nat))
            &&& n.content == json::object_text(m)
        }),
        m["input_tokens"@] == JsonView::Number(usage.input_tokens as int),
        m["output_tokens"@] == JsonView::Number(usage.output_tokens as int),
        m["cache_read_input_tokens"@] == JsonView::Number(cached_tokens(usage) as int),
        m["cache_creation_input_tokens"@] == JsonView::Number(0),
        m["reported_total_tokens"@] == JsonView::Number(usage.total_tokens as int),
        m["agent"@] == info.common_fields(ts)["agent"@],
        m["model"@] == info.common_fields(ts)["model"@],
        m["task_id"@] == info.common_fields(ts)["task_id"@],
        m["project"@] == info.common_fields(ts)["project"@],
        m["ts"@] == info.common_fields(ts)["ts"@],
        usage.input_tokens + usage.output_tokens > usage.total_tokens ==> cached_tokens(usage) == 0,
{
    let m = info.common_fields(ts).insert(
        "input_tokens"@,
        JsonView::Number(usage.input_tokens as int),
    ).insert("output_tokens"@, JsonView::Number(usage.output_tokens as int)).insert(
        "cache_read_input_tokens"@,
        JsonView::Number(cached_tokens(usage) as int),
    ).insert("cache_creation_input_tokens"@, JsonView::Number(0)).insert(
        "reported_total_tokens"@,
        JsonView::Number(usage.total_tokens as int),
    );
    text::lemma_ends(info.detail_start(), " tokens="@ + text::decimal(usage.total_tokens as nat));
    assert(usage_note(info, usage, ts).detail == info.detail_start() + (" tokens="@
        + text::decimal(usage.total_tokens as nat)));
    reveal_strlit("agent");
    reveal_strlit("model");
    reveal_strlit("task_id");
    reveal_strlit("project");
    reveal_strlit("ts");
    reveal_strlit("input_tokens");
    reveal_strlit("output_tokens");
    reveal_strlit("cache_read_input_tokens");
    reveal_strlit("cache_creation_input_tokens");
    reveal_strlit("reported_total_tokens");
    assert("agent"@.len() == 5 && "model"@.len() == 5 && "task_id"@.len() == 7 && "project"@.len()
        == 7 && "ts"@.len() == 2);
    assert("input_tokens"@.len() == 12 && "output_tokens"@.len() == 13);
    assert("cache_read_input_tokens"@.len() == 23 && "cache_creation_input_tokens"@.len() == 27);
    assert("reported_total_tokens"@.len() == 21);
    m
}

/// Every part of a task has a word of its own.
pub proof fn law_parts_have_words_of_their_own()
    ensures
        ExecutionPhase::Planning.word() == "planning"@,
        ExecutionPhase::Execution.word() == "execution"@,
        ExecutionPhase::Validation.word() == "validation"@,
        ExecutionPhase::SimpleReview.word() == "simple_review"@,
{
}

} // verus!
