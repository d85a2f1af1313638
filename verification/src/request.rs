//! What is asked of the executor.

use crate::text;
use vstd::prelude::*;
use vstd::string::*;

verus! {

/// What a task is about.
#[derive(Clone, Copy, Debug, PartialEq, Eq, Structural)]
pub enum TaskKind {
    Issue,
    Pr,
    Review,
    Planner,
    Prompt,
}

impl TaskKind {
    /// Whether a task of this kind has to name a pull request.
    pub open spec fn needs_pr(self) -> bool {
        self == TaskKind::Issue || self == TaskKind::Pr
    }

    /// Whether a task of this kind has to name a pull request.
    pub fn requires_pr_url(self) -> (r: bool)
        ensures
            r == self.needs_pr(),
    {
        matches!(self, TaskKind::Issue | TaskKind::Pr)
    }

    /// The word for this kind.
    pub open spec fn word(self) -> Seq<char> {
        match self {
            TaskKind::Issue => "issue"@,
            TaskKind::Pr => "pr"@,
            TaskKind::Review => "review"@,
            TaskKind::Planner => "planner"@,
            TaskKind::Prompt => "prompt"@,
        }
    }

    /// The word for this kind.
    pub fn as_str(self) -> (r: &'static str)
        ensures
            r@ == self.word(),
    {
        match self {
            TaskKind::Issue => "issue",
            TaskKind::Pr => "pr",
            TaskKind::Review => "review",
            TaskKind::Planner => "planner",
            TaskKind::Prompt => "prompt",
        }
    }
}

/// A request for a task.
#[derive(Debug)]
pub struct CreateTaskRequest {
    /// The issue that the task is to resolve.
    pub issue: Option<u64>,
    /// The pull request that the task is to bring to its end.
    pub pr: Option<u64>,
    /// What is to be done, in words.
    pub prompt: Option<String>,
    /// Where the task comes from.
    pub source: Option<String>,
    /// How many rounds a review may take.
    pub max_rounds: Option<u32>,
    /// How many turns agents may take.
    pub max_turns: Option<u32>,
}

impl Default for CreateTaskRequest {
    fn default() -> (r: CreateTaskRequest)
        ensures
            r.issue is None,
            r.pr is None,
            r.prompt is None,
            r.source is None,
            r.max_rounds is None,
            r.max_turns is None,
    {
        CreateTaskRequest {
            issue: None,
            pr: None,
            prompt: None,
            source: None,
            max_rounds: None,
            max_turns: None,
        }
    }
}

/// Whether tasks from a source give a report and no pull request.
pub open spec fn report_source(source: Option<Seq<char>>) -> bool {
    source == Some("periodic_review"@) || source == Some("sprint_planner"@)
}

/// Whether tasks from a source give a report and no pull request.
pub fn is_report_source(source: &Option<String>) -> (r: bool)
    ensures
        r == report_source(text::opt_view(*source)),
{
    match source {
        Some(s) => text::str_eq(s.as_str(), "periodic_review") || text::str_eq(
            s.as_str(),
            "sprint_planner",
        ),
        None => false,
    }
}

/// What a task with these inputs is about. An issue comes before a pull request, and
/// that before where the task comes from.
pub open spec fn kind_of(issue: Option<u64>, pr: Option<u64>, source: Option<Seq<char>>) -> TaskKind {
    if issue is Some {
        TaskKind::Issue
    } else if pr is Some {
        TaskKind::Pr
    } else if source == Some("periodic_review"@) {
        TaskKind::Review
    } else if source == Some("sprint_planner"@) {
        TaskKind::Planner
    } else {
        TaskKind::Prompt
    }
}

impl CreateTaskRequest {
    /// What the task is about.
    pub open spec fn kind(self) -> TaskKind {
        kind_of(self.issue, self.pr, text::opt_view(self.source))
    }

    /// What the task is about.
    pub fn task_kind(&self) -> (r: TaskKind)
        ensures
            r == self.kind(),
    {
        if self.issue.is_some() {
            return TaskKind::Issue;
        }
        if self.pr.is_some() {
            return TaskKind::Pr;
        }
        if let Some(s) = &self.source {
            if text::str_eq(s.as_str(), "periodic_review") {
                return TaskKind::Review;
            }
            if text::str_eq(s.as_str(), "sprint_planner") {
                return TaskKind::Planner;
            }
        }
        TaskKind::Prompt
    }
}

/// What is kept of a request, so that its task can be begun again.
#[derive(Debug)]
pub struct PersistedRequestSettings {
    /// What a prompt that the server wrote is written from.
    pub system_prompt_restart_bundle: Option<String>,
}

impl Default for PersistedRequestSettings {
    fn default() -> (r: PersistedRequestSettings)
        ensures
            r.system_prompt_restart_bundle is None,
    {
        PersistedRequestSettings { system_prompt_restart_bundle: None }
    }
}

/// A stored task, as far as its prompts are concerned.
#[derive(Debug)]
pub struct StoredTask {
    pub issue: Option<u64>,
    pub pr: Option<u64>,
    pub description: Option<String>,
    pub request_settings: Option<PersistedRequestSettings>,
}

impl StoredTask {
    /// Whether the task is a person's prompt and nothing else.
    pub open spec fn prompt_only(self) -> bool {
        &&& self.issue is None
        &&& self.pr is None
        &&& (self.request_settings matches Some(s) ==> s.system_prompt_restart_bundle is None)
    }
}

/// Whether a stored task is a person's prompt and nothing else.
pub fn is_prompt_only_task(task: Option<&StoredTask>) -> (r: bool)
    ensures
        r == (task matches Some(t) && t.prompt_only()),
{
    match task {
        None => false,
        Some(t) => {
            let written_by_server = match &t.request_settings {
                Some(s) => s.system_prompt_restart_bundle.is_some(),
                None => false,
            };
            t.issue.is_none() && t.pr.is_none() && !written_by_server
        },
    }
}

/// Whether a task's prompts are kept out of the store: a person's words are.
pub fn should_skip_prompt_persistence(task: Option<&StoredTask>) -> (r: bool)
    ensures
        r == (task matches Some(t) && t.prompt_only()),
{
    is_prompt_only_task(task)
}

/// What a task is about is told by what its request names: an issue before a pull request,
/// and either before where the task comes from.
pub proof fn law_request_tells_what_it_is_about(
    issue: Option<u64>,
    pr: Option<u64>,
    source: Option<Seq<char>>,
)
    ensures
        kind_of(issue, pr, source) == TaskKind::Issue <==> issue is Some,
        kind_of(issue, pr, source) == TaskKind::Pr <==> issue is None && pr is Some,
        kind_of(None, None, Some("periodic_review"@)) == TaskKind::Review,
        kind_of(None, None, Some("sprint_planner"@)) == TaskKind::Planner,
        kind_of(None, None, None) == TaskKind::Prompt,
        kind_of(issue, pr, source) == TaskKind::Review ==> source == Some("periodic_review"@),
        kind_of(issue, pr, source) == TaskKind::Planner ==> source == Some("sprint_planner"@),
{
    reveal_strlit("periodic_review");
    reveal_strlit("sprint_planner");
    assert("periodic_review"@.len() != "sprint_planner"@.len());
}

/// A task whose source asks for a report, and that names neither an issue nor a pull request,
/// needs no pull request; one that names either needs one.
pub proof fn law_reports_need_no_pull_request(
    issue: Option<u64>,
    pr: Option<u64>,
    source: Option<Seq<char>>,
)
    ensures
        kind_of(issue, pr, source).needs_pr() <==> issue is Some || pr is Some,
        report_source(source) <==> kind_of(None, None, source) == TaskKind::Review || kind_of(
            None,
            None,
            source,
        ) == TaskKind::Planner,
{
}

/// No two kinds share a word.
pub proof fn law_kinds_have_words_of_their_own(a: TaskKind, b: TaskKind)
    ensures
        a.word() == b.word() ==> a == b,
        TaskKind::Issue.word() == "issue"@,
        TaskKind::Pr.word() == "pr"@,
        TaskKind::Review.word() == "review"@,
        TaskKind::Planner.word() == "planner"@,
        TaskKind::Prompt.word() == "prompt"@,
{
    reveal_strlit("issue");
    reveal_strlit("pr");
    reveal_strlit("review");
    reveal_strlit("planner");
    reveal_strlit("prompt");
    assert("review"@[0] != "prompt"@[0]);
    assert("issue"@.len() == 5 && "pr"@.len() == 2 && "review"@.len() == 6);
    assert("planner"@.len() == 7 && "prompt"@.len() == 6);
}

/// A stored task is a person's prompt exactly when it names nothing else and no prompt of
/// the server's stands behind it.
pub proof fn law_named_work_is_no_prompt(t: StoredTask)
    ensures
        t.issue is Some || t.pr is Some ==> !t.prompt_only(),
        t.request_settings matches Some(s) && s.system_prompt_restart_bundle is Some
            ==> !t.prompt_only(),
        t.issue is None && t.pr is None && t.request_settings is None ==> t.prompt_only(),
        t.issue is None && t.pr is None && (t.request_settings matches Some(s)
            && s.system_prompt_restart_bundle is None) ==> t.prompt_only(),
{
}

} // verus!
