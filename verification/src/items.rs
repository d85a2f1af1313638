//! What an agent's stream carries, and what is done with each piece of it.

use crate::json;
use crate::json::{JsonObject, JsonValue, JsonView};
use crate::text;
use vstd::prelude::*;
use vstd::string::*;

verus! {

/// The tokens that a turn used.
#[derive(Clone, Copy, Debug, PartialEq, Eq, Structural)]
pub struct TokenUsage {
    pub input_tokens: u64,
    pub output_tokens: u64,
    pub total_tokens: u64,
}

impl TokenUsage {
    /// Whether no tokens are counted.
    pub open spec fn is_zero(self) -> bool {
        self.input_tokens == 0 && self.output_tokens == 0 && self.total_tokens == 0
    }
}

impl Default for TokenUsage {
    fn default() -> (r: TokenUsage)
        ensures
            r.is_zero(),
    {
        TokenUsage { input_tokens: 0, output_tokens: 0, total_tokens: 0 }
    }
}

/// Something that an agent did.
#[derive(Debug)]
pub enum Item {
    ShellCommand { command: String, exit_code: Option<i32>, stdout: String, stderr: String },
    FileEdit { path: String, before: String, after: String },
    ToolCall { name: String, input: serde_json::Value, output: Option<serde_json::Value> },
    AgentReasoning { content: String },
    ApprovalRequest { id: Option<String>, action: String, approved: Option<bool> },
    Error { code: i32, message: String },
}

/// What an [`Item`] holds.
pub enum ItemView {
    ShellCommand {
        command: Seq<char>,
        exit_code: Option<i32>,
        stdout: Seq<char>,
        stderr: Seq<char>,
    },
    FileEdit { path: Seq<char>, before: Seq<char>, after: Seq<char> },
    ToolCall { name: Seq<char>, input: JsonView, output: Option<JsonView> },
    AgentReasoning { content: Seq<char> },
    ApprovalRequest { id: Option<Seq<char>>, action: Seq<char>, approved: Option<bool> },
    Error { code: int, message: Seq<char> },
}

impl View for Item {
    type V = ItemView;

    open spec fn view(&self) -> ItemView {
        match self {
            Item::ShellCommand { command, exit_code, stdout, stderr } => ItemView::ShellCommand {
                command: command@,
                exit_code: *exit_code,
                stdout: stdout@,
                stderr: stderr@,
            },
            Item::FileEdit { path, before, after } => ItemView::FileEdit {
                path: path@,
                before: before@,
                after: after@,
            },
            Item::ToolCall { name, input, output } => ItemView::ToolCall {
                name: name@,
                input: json::value_view(*input),
                output: json::opt_value(*output),
            },
            Item::AgentReasoning { content } => ItemView::AgentReasoning { content: content@ },
            Item::ApprovalRequest { id, action, approved } => ItemView::ApprovalRequest {
                id: text::opt_view(*id),
                action: action@,
                approved: *approved,
            },
            Item::Error { code, message } => ItemView::Error {
                code: *code as int,
                message: message@,
            },
        }
    }
}

impl Item {
    /// A copy.
    pub fn copy(&self) -> (r: Item)
        ensures
            r@ == self@,
    {
        match self {
            Item::ShellCommand { command, exit_code, stdout, stderr } => Item::ShellCommand {
                command: command.clone(),
                exit_code: *exit_code,
                stdout: stdout.clone(),
                stderr: stderr.clone(),
            },
            Item::FileEdit { path, before, after } => Item::FileEdit {
                path: path.clone(),
                before: before.clone(),
                after: after.clone(),
            },
            Item::ToolCall { name, input, output } => Item::ToolCall {
                name: name.clone(),
                input: json::copy_value(input),
                output: json::copy_opt(output),
            },
            Item::AgentReasoning { content } => Item::AgentReasoning { content: content.clone() },
            Item::ApprovalRequest { id, action, approved } => Item::ApprovalRequest {
                id: text::copy_opt(id),
                action: action.clone(),
                approved: *approved,
            },
            Item::Error { code, message } => Item::Error { code: *code, message: message.clone() },
        }
    }
}

/// A piece of an agent's stream.
#[derive(Debug)]
pub enum StreamItem {
    ItemStarted { item: Item },
    ItemCompleted { item: Item },
    TokenUsage { usage: TokenUsage },
    Error { message: String },
    MessageDelta { text: String },
    ToolOutputDelta { item_id: String, text: String },
    ApprovalRequest { id: String, command: String },
    Warning { message: String },
    Done,
}

/// What a [`StreamItem`] holds.
pub enum StreamView {
    ItemStarted { item: ItemView },
    ItemCompleted { item: ItemView },
    TokenUsage { usage: TokenUsage },
    Error { message: Seq<char> },
    MessageDelta { text: Seq<char> },
    ToolOutputDelta { item_id: Seq<char>, text: Seq<char> },
    ApprovalRequest { id: Seq<char>, command: Seq<char> },
    Warning { message: Seq<char> },
    Done,
}

impl View for StreamItem {
    type V = StreamView;

    open spec fn view(&self) -> StreamView {
        match self {
            StreamItem::ItemStarted { item } => StreamView::ItemStarted { item: item@ },
            StreamItem::ItemCompleted { item } => StreamView::ItemCompleted { item: item@ },
            StreamItem::TokenUsage { usage } => StreamView::TokenUsage { usage: *usage },
            StreamItem::Error { message } => StreamView::Error { message: message@ },
            StreamItem::MessageDelta { text } => StreamView::MessageDelta { text: text@ },
            StreamItem::ToolOutputDelta { item_id, text } => StreamView::ToolOutputDelta {
                item_id: item_id@,
                text: text@,
            },
            StreamItem::ApprovalRequest { id, command } => StreamView::ApprovalRequest {
                id: id@,
                command: command@,
            },
            StreamItem::Warning { message } => StreamView::Warning { message: message@ },
            StreamItem::Done => StreamView::Done,
        }
    }
}

/// What those who watch a turn are told.
#[derive(Debug)]
pub enum Notification {
    ItemStarted { item: Item },
    ItemCompleted { item: Item },
    TokenUsageUpdated { usage: TokenUsage },
    MessageDelta { text: String },
    ToolOutputDelta { item_id: String, text: String },
    ApprovalRequest { request_id: String, command: String },
    Warning { message: String },
    TurnCompleted { failed: bool, usage: TokenUsage },
}

/// What a [`Notification`] holds.
pub enum NoticeView {
    ItemStarted { item: ItemView },
    ItemCompleted { item: ItemView },
    TokenUsageUpdated { usage: TokenUsage },
    MessageDelta { text: Seq<char> },
    ToolOutputDelta { item_id: Seq<char>, text: Seq<char> },
    ApprovalRequest { request_id: Seq<char>, command: Seq<char> },
    Warning { message: Seq<char> },
    TurnCompleted { failed: bool, usage: TokenUsage },
}

impl View for Notification {
    type V = NoticeView;

    open spec fn view(&self) -> NoticeView {
        match self {
            Notification::ItemStarted { item } => NoticeView::ItemStarted { item: item@ },
            Notification::ItemCompleted { item } => NoticeView::ItemCompleted { item: item@ },
            Notification::TokenUsageUpdated { usage } => NoticeView::TokenUsageUpdated {
                usage: *usage,
            },
            Notification::MessageDelta { text } => NoticeView::MessageDelta { text: text@ },
            Notification::ToolOutputDelta { item_id, text } => NoticeView::ToolOutputDelta {
                item_id: item_id@,
                text: text@,
            },
            Notification::ApprovalRequest { request_id, command } =>
                NoticeView::ApprovalRequest { request_id: request_id@, command: command@ },
            Notification::Warning { message } => NoticeView::Warning { message: message@ },
            Notification::TurnCompleted { failed, usage } => NoticeView::TurnCompleted {
                failed: *failed,
                usage: *usage,
            },
        }
    }
}

/// What is done with a piece of a stream.
#[derive(Debug)]
pub struct ItemEffect {
    /// What is added to the turn.
    pub append: Option<Item>,
    /// The tokens that the turn used so far.
    pub usage: Option<TokenUsage>,
    /// What those who watch are told.
    pub notify: Option<Notification>,
}

/// What an [`ItemEffect`] holds.
pub struct EffectView {
    pub append: Option<ItemView>,
    pub usage: Option<TokenUsage>,
    pub notify: Option<NoticeView>,
}

impl View for ItemEffect {
    type V = EffectView;

    open spec fn view(&self) -> EffectView {
        EffectView {
            append: match self.append {
                Some(i) => Some(i@),
                None => None,
            },
            usage: self.usage,
            notify: match self.notify {
                Some(n) => Some(n@),
                None => None,
            },
        }
    }
}

/// What is done with a piece of a stream: finished work is added to the turn, text in
/// the making is only passed on, and an error is only added.
pub open spec fn item_effect(item: StreamView) -> EffectView {
    match item {
        StreamView::ItemStarted { item } => EffectView {
            append: Some(item),
            usage: None,
            notify: Some(NoticeView::ItemStarted { item }),
        },
        StreamView::ItemCompleted { item } => EffectView {
            append: Some(item),
            usage: None,
            notify: Some(NoticeView::ItemCompleted { item }),
        },
        StreamView::TokenUsage { usage } => EffectView {
            append: None,
            usage: Some(usage),
            notify: Some(NoticeView::TokenUsageUpdated { usage }),
        },
        StreamView::Error { message } => EffectView {
            append: Some(ItemView::Error { code: -1, message }),
            usage: None,
            notify: None,
        },
        StreamView::MessageDelta { text } => EffectView {
            append: None,
            usage: None,
            notify: Some(NoticeView::MessageDelta { text }),
        },
        StreamView::ToolOutputDelta { item_id, text } => EffectView {
            append: None,
            usage: None,
            notify: Some(NoticeView::ToolOutputDelta { item_id, text }),
        },
        StreamView::ApprovalRequest { id, command } => EffectView {
            append: Some(
                ItemView::ApprovalRequest { id: Some(id), action: command, approved: None },
            ),
            usage: None,
            notify: Some(NoticeView::ApprovalRequest { request_id: id, command }),
        },
        StreamView::Warning { message } => EffectView {
            append: None,
            usage: None,
            notify: Some(NoticeView::Warning { message }),
        },
        StreamView::Done => EffectView { append: None, usage: None, notify: None },
    }
}

/// What is done with a piece of a stream.
pub fn process_stream_item(item: StreamItem) -> (r: ItemEffect)
    ensures
        r@ == item_effect(item@),
{
    match item {
        StreamItem::ItemStarted { item } => {
            let copy = item.copy();
            ItemEffect {
                append: Some(copy),
                usage: None,
                notify: Some(Notification::ItemStarted { item }),
            }
        },
        StreamItem::ItemCompleted { item } => {
            let copy = item.copy();
            ItemEffect {
                append: Some(copy),
                usage: None,
                notify: Some(Notification::ItemCompleted { item }),
            }
        },
        StreamItem::TokenUsage { usage } => ItemEffect {
            append: None,
            usage: Some(usage),
            notify: Some(Notification::TokenUsageUpdated { usage }),
        },
        StreamItem::Error { message } => ItemEffect {
            append: Some(Item::Error { code: -1, message }),
            usage: None,
            notify: None,
        },
        StreamItem::MessageDelta { text } => ItemEffect {
            append: None,
            usage: None,
            notify: Some(Notification::MessageDelta { text }),
        },
        StreamItem::ToolOutputDelta { item_id, text } => ItemEffect {
            append: None,
            usage: None,
            notify: Some(Notification::ToolOutputDelta { item_id, text }),
        },
        StreamItem::ApprovalRequest { id, command } => ItemEffect {
            append: Some(
                Item::ApprovalRequest {
                    id: Some(id.clone()),
                    action: command.clone(),
                    approved: None,
                },
            ),
            usage: None,
            notify: Some(Notification::ApprovalRequest { request_id: id, command }),
        },
        StreamItem::Warning { message } => ItemEffect {
            append: None,
            usage: None,
            notify: Some(Notification::Warning { message }),
        },
        StreamItem::Done => ItemEffect { append: None, usage: None, notify: None },
    }
}

/// Something that is kept when an agent's context is lost: a kind and its text.
#[derive(Debug)]
pub struct Artifact {
    pub kind: &'static str,
    pub content: String,
}

/// What an [`Artifact`] holds.
pub struct ArtifactView {
    pub kind: Seq<char>,
    pub content: Seq<char>,
}

/// The view of an optional artifact.
pub open spec fn opt_artifact(o: Option<Artifact>) -> Option<ArtifactView> {
    match o {
        None => None,
        Some(a) => Some(ArtifactView { kind: a.kind@, content: a.content@ }),
    }
}

/// The fields of a command's artifact.
pub open spec fn command_fields(
    command: Seq<char>,
    exit_code: Option<i32>,
    stdout: Seq<char>,
    stderr: Seq<char>,
) -> Map<Seq<char>, JsonView> {
    json::no_fields().insert("command"@, JsonView::Text(command)).insert(
        "exit_code"@,
        match exit_code {
            Some(n) => JsonView::Number(n as int),
            None => JsonView::Null,
        },
    ).insert("stdout"@, JsonView::Text(stdout)).insert("stderr"@, JsonView::Text(stderr))
}

/// The fields of an edit's artifact.
pub open spec fn edit_fields(path: Seq<char>, before: Seq<char>, after: Seq<char>) -> Map<
    Seq<char>,
    JsonView,
> {
    json::no_fields().insert("path"@, JsonView::Text(path)).insert(
        "before"@,
        JsonView::Text(before),
    ).insert("after"@, JsonView::Text(after))
}

/// The fields of a tool call's artifact.
pub open spec fn call_fields(name: Seq<char>, input: JsonView, output: Option<JsonView>) -> Map<
    Seq<char>,
    JsonView,
> {
    json::no_fields().insert("name"@, JsonView::Text(name)).insert("input"@, input).insert(
        "output"@,
        match output {
            Some(v) => v,
            None => JsonView::Null,
        },
    )
}

/// What is kept of something that an agent did: commands, edits and tool calls are, and
/// nothing else.
pub open spec fn artifact(item: ItemView) -> Option<ArtifactView> {
    match item {
        ItemView::ShellCommand { command, exit_code, stdout, stderr } => Some(
            ArtifactView {
                kind: "shell_command"@,
                content: json::object_text(command_fields(command, exit_code, stdout, stderr)),
            },
        ),
        ItemView::FileEdit { path, before, after } => Some(
            ArtifactView {
                kind: "file_edit"@,
                content: json::object_text(edit_fields(path, before, after)),
            },
        ),
        ItemView::ToolCall { name, input, output } => Some(
            ArtifactView {
                kind: "tool_call"@,
                content: json::object_text(call_fields(name, input, output)),
            },
        ),
        _ => None,
    }
}

/// What is kept of something that an agent did.
pub fn artifact_of(item: &Item) -> (r: Option<Artifact>)
    ensures
        opt_artifact(r) == artifact(item@),
{
    match item {
        Item::ShellCommand { command, exit_code, stdout, stderr } => {
            let code = match exit_code {
                Some(n) => JsonValue::Signed(*n as i64),
                None => JsonValue::Null,
            };
            let content = JsonObject::new().with(
                "command",
                JsonValue::Text(command.clone()),
            ).with("exit_code", code).with("stdout", JsonValue::Text(stdout.clone())).with(
                "stderr",
                JsonValue::Text(stderr.clone()),
            ).text();
            Some(Artifact { kind: "shell_command", content })
        },
        Item::FileEdit { path, before, after } => {
            let content = JsonObject::new().with("path", JsonValue::Text(path.clone())).with(
                "before",
                JsonValue::Text(before.clone()),
            ).with("after", JsonValue::Text(after.clone())).text();
            Some(Artifact { kind: "file_edit", content })
        },
        Item::ToolCall { name, input, output } => {
            let given = match output {
                Some(v) => JsonValue::Given(json::copy_value(v)),
                None => JsonValue::Null,
            };
            let content = JsonObject::new().with("name", JsonValue::Text(name.clone())).with(
                "input",
                JsonValue::Given(json::copy_value(input)),
            ).with("output", given).text();
            Some(Artifact { kind: "tool_call", content })
        },
        _ => None,
    }
}

/// Finished and begun work, errors and requests are added to a turn, as they were told;
/// text in the making, warnings and usage are not. Whoever watches hears of everything but
/// errors and the end, and hears what was told.
pub proof fn law_watchers_hear_what_was_told(item: StreamView)
    ensures
        match item {
            StreamView::ItemStarted { item: i } => item_effect(item).append == Some(i)
                && item_effect(item).notify == Some(NoticeView::ItemStarted { item: i }),
            StreamView::ItemCompleted { item: i } => item_effect(item).append == Some(i)
                && item_effect(item).notify == Some(NoticeView::ItemCompleted { item: i }),
            StreamView::TokenUsage { usage } => item_effect(item).append is None && item_effect(
                item,
            ).notify == Some(NoticeView::TokenUsageUpdated { usage }),
            StreamView::Error { message } => item_effect(item).append == Some(
                ItemView::Error { code: -1, message },
            ) && item_effect(item).notify is None,
            StreamView::MessageDelta { text } => item_effect(item).append is None && item_effect(
                item,
            ).notify == Some(NoticeView::MessageDelta { text }),
            StreamView::ToolOutputDelta { item_id, text } => item_effect(item).append is None
                && item_effect(item).notify == Some(
                NoticeView::ToolOutputDelta { item_id, text },
            ),
            StreamView::ApprovalRequest { id, command } => item_effect(item).append == Some(
                ItemView::ApprovalRequest { id: Some(id), action: command, approved: None },
            ) && item_effect(item).notify == Some(
                NoticeView::ApprovalRequest { request_id: id, command },
            ),
            StreamView::Warning { message } => item_effect(item).append is None && item_effect(
                item,
            ).notify == Some(NoticeView::Warning { message }),
            StreamView::Done => item_effect(item).append is None && item_effect(item).notify is None,
        },
        item matches StreamView::TokenUsage { usage } ==> item_effect(item).usage == Some(usage),
        !(item is TokenUsage) ==> item_effect(item).usage is None,
{
}

/// Commands, edits and tool calls are kept, each under its kind and with all that is known
/// of it; nothing else is.
pub proof fn law_work_is_kept_whole(item: ItemView)
    ensures
        artifact(item) is Some <==> item is ShellCommand || item is FileEdit || item is ToolCall,
        item matches ItemView::ShellCommand { command, exit_code, stdout, stderr } ==> {
            let f = command_fields(command, exit_code, stdout, stderr);
            &&& artifact(item)->0.kind == "shell_command"@
            &&& artifact(item)->0.content == json::object_text(f)
            &&& f.dom() == set!["command"@, "exit_code"@, "stdout"@, "stderr"@]
            &&& f["command"@] == JsonView::Text(command) && f["stdout"@] == JsonView::Text(stdout)
                && f["stderr"@] == JsonView::Text(stderr)
            &&& f["exit_code"@] == (match exit_code {
                Some(n) => JsonView::Number(n as int),
                None => JsonView::Null,
            })
        },
        item matches ItemView::FileEdit { path, before, after } ==> {
            let f = edit_fields(path, before, after);
            &&& artifact(item)->0.kind == "file_edit"@
            &&& artifact(item)->0.content == json::object_text(f)
            &&& f.dom() == set!["path"@, "before"@, "after"@]
            &&& f["path"@] == JsonView::Text(path) && f["before"@] == JsonView::Text(before)
                && f["after"@] == JsonView::Text(after)
        },
        item matches ItemView::ToolCall { name, input, output } ==> {
            let f = call_fields(name, input, output);
            &&& artifact(item)->0.kind == "tool_call"@
            &&& artifact(item)->0.content == json::object_text(f)
            &&& f.dom() == set!["name"@, "input"@, "output"@]
            &&& f["name"@] == JsonView::Text(name) && f["input"@] == input
            &&& f["output"@] == (match output {
                Some(v) => v,
                None => JsonView::Null,
            })
        },
{
    reveal_strlit("command");
    reveal_strlit("exit_code");
    reveal_strlit("stdout");
    reveal_strlit("stderr");
    reveal_strlit("path");
    reveal_strlit("before");
    reveal_strlit("after");
    reveal_strlit("name");
    reveal_strlit("input");
    reveal_strlit("output");
    assert("command"@.len() == 7 && "exit_code"@.len() == 9 && "stdout"@[3] == 'o'
        && "stderr"@[3] == 'e' && "stdout"@.len() == 6 && "stderr"@.len() == 6);
    assert("path"@.len() == 4 && "before"@.len() == 6 && "after"@.len() == 5);
    assert("name"@.len() == 4 && "input"@.len() == 5 && "output"@.len() == 6);
    match item {
        ItemView::ShellCommand { command, exit_code, stdout, stderr } => {
            assert(command_fields(command, exit_code, stdout, stderr).dom() =~= set![
                "command"@,
                "exit_code"@,
                "stdout"@,
                "stderr"@,
            ]);
        },
        ItemView::FileEdit { path, before, after } => {
            assert(edit_fields(path, before, after).dom() =~= set!["path"@, "before"@, "after"@]);
        },
        ItemView::ToolCall { name, input, output } => {
            assert(call_fields(name, input, output).dom() =~= set!["name"@, "input"@, "output"@]);
        },
        _ => {},
    }
}

/// Usage is zero where nothing at all was counted, and an artifact is seen as it is.
pub proof fn law_nothing_counted_is_zero(u: TokenUsage, a: Artifact)
    ensures
        u.is_zero() <==> u.input_tokens == 0 && u.output_tokens == 0 && u.total_tokens == 0,
        opt_artifact(None) is None,
        opt_artifact(Some(a)) matches Some(v) && v.kind == a.kind@ && v.content == a.content@,
{
}

} // verus!
