//! The beginning of an implementation: the prompt, and the checkpoint that makes one
//! needless.

use crate::events;
use crate::events::{Decision, EventView, TaskEvent};
use crate::implement;
use crate::lookup::FoundPr;
use crate::markers;
use crate::markers::{PrReviewPrepOutcome, PrepView};
use crate::outcome::{EndView, ImplementEnd};
use crate::prompt_builder;
use crate::settings;
use crate::task;
use crate::task::{ChangeView, TaskChange, TaskStatus};
use crate::telemetry;
use crate::text;
use crate::text::CharClass;
use vstd::prelude::*;
use vstd::string::*;

verus! {

/// What the agent is asked to do.
#[derive(Debug)]
pub enum BasePrompt {
    /// Go on with a pull request that was found for the issue.
    ContinuePr { issue: u64, pr_num: u64, branch: String, repo_slug: String },
    /// Implement an issue.
    Issue { issue: u64 },
    /// Prepare a pull request for its review.
    PreparePr { pr: u64, repo_slug: String },
    /// Do what a text asks for.
    Text { prompt: String },
}

/// What a [`BasePrompt`] holds.
pub enum BaseView {
    ContinuePr { issue: nat, pr_num: nat, branch: Seq<char>, repo_slug: Seq<char> },
    Issue { issue: nat },
    PreparePr { pr: nat, repo_slug: Seq<char> },
    Text { prompt: Seq<char> },
}

impl View for BasePrompt {
    type V = BaseView;

    open spec fn view(&self) -> BaseView {
        match self {
            BasePrompt::ContinuePr { issue, pr_num, branch, repo_slug } => BaseView::ContinuePr {
                issue: *issue as nat,
                pr_num: *pr_num as nat,
                branch: branch@,
                repo_slug: repo_slug@,
            },
            BasePrompt::Issue { issue } => BaseView::Issue { issue: *issue as nat },
            BasePrompt::PreparePr { pr, repo_slug } => BaseView::PreparePr {
                pr: *pr as nat,
                repo_slug: repo_slug@,
            },
            BasePrompt::Text { prompt } => BaseView::Text { prompt: prompt@ },
        }
    }
}

/// What a search for a pull request found.
pub struct FoundView {
    pub number: nat,
    pub branch: Seq<char>,
    pub url: Seq<char>,
}

/// The view of a search's result.
pub open spec fn found_view(r: Result<Option<FoundPr>, String>) -> Result<
    Option<FoundView>,
    Seq<char>,
> {
    match r {
        Err(e) => Err(e@),
        Ok(None) => Ok(None),
        Ok(Some(f)) => Ok(
            Some(FoundView { number: f.number as nat, branch: f.branch@, url: f.url@ }),
        ),
    }
}

/// The error of a task whose issue may have a pull request that could not be looked for.
pub open spec fn lookup_error(issue: nat) -> Seq<char> {
    "failed to check for an existing PR for issue #"@ + text::decimal(issue)
        + "; refusing to create a duplicate PR while lookup is unavailable"@
}

/// What the agent is asked to do. An issue comes before a pull request, and that before
/// a text. `found` is what a search for the issue's pull request gave.
pub open spec fn base(
    issue: Option<nat>,
    pr: Option<nat>,
    prompt: Option<Seq<char>>,
    found: Result<Option<FoundView>, Seq<char>>,
    repo_slug: Seq<char>,
) -> Result<BaseView, Seq<char>> {
    match issue {
        Some(issue) => match found {
            Ok(Some(f)) => Ok(
                BaseView::ContinuePr {
                    issue,
                    pr_num: f.number,
                    branch: f.branch,
                    repo_slug: match settings::pr_slug(f.url) {
                        Some(slug) => slug,
                        None => "{owner}/{repo}"@,
                    },
                },
            ),
            Ok(None) => Ok(BaseView::Issue { issue }),
            Err(_) => Err(lookup_error(issue)),
        },
        None => match pr {
            Some(pr) => Ok(BaseView::PreparePr { pr, repo_slug }),
            None => Ok(
                BaseView::Text {
                    prompt: match prompt {
                        Some(p) => p,
                        None => seq![],
                    },
                },
            ),
        },
    }
}

/// The view of a result.
pub open spec fn base_result(r: Result<BasePrompt, String>) -> Result<BaseView, Seq<char>> {
    match r {
        Ok(b) => Ok(b@),
        Err(e) => Err(e@),
    }
}

/// What the agent is asked to do.
pub fn choose_base_prompt(
    issue: Option<u64>,
    pr: Option<u64>,
    prompt: Option<String>,
    found: Result<Option<FoundPr>, String>,
    repo_slug: &str,
) -> (r: Result<BasePrompt, String>)
    ensures
        base_result(r) == base(
            text::opt_number(issue),
            text::opt_number(pr),
            text::opt_view(prompt),
            found_view(found),
            repo_slug@,
        ),
{
    match issue {
        Some(issue) => match found {
            Ok(Some(f)) => {
                let slug = settings::review_repo_slug(Some(f.url.as_str()), "{owner}/{repo}");
                Ok(
                    BasePrompt::ContinuePr {
                        issue,
                        pr_num: f.number,
                        branch: f.branch,
                        repo_slug: slug,
                    },
                )
            },
            Ok(None) => Ok(BasePrompt::Issue { issue }),
            Err(_) => {
                let mut e = "failed to check for an existing PR for issue #".to_owned();
                e.append(text::decimal_text(issue).as_str());
                e.append("; refusing to create a duplicate PR while lookup is unavailable");
                Err(e)
            },
        },
        None => match pr {
            Some(pr) => Ok(BasePrompt::PreparePr { pr, repo_slug: repo_slug.to_owned() }),
            None => match prompt {
                Some(p) => Ok(BasePrompt::Text { prompt: p }),
                None => {
                    let empty = String::new();
                    assert(empty@ == Seq::<char>::empty());
                    Ok(BasePrompt::Text { prompt: empty })
                },
            },
        },
    }
}

/// A pull request for an issue is only begun when it is known that there is none.
pub proof fn law_no_duplicate_pr(
    issue: nat,
    pr: Option<nat>,
    prompt: Option<Seq<char>>,
    found: Result<Option<FoundView>, Seq<char>>,
    repo_slug: Seq<char>,
)
    ensures
        base(Some(issue), pr, prompt, found, repo_slug) == Ok::<BaseView, Seq<char>>(
            BaseView::Issue { issue },
        ) <==> found == Ok::<Option<FoundView>, Seq<char>>(None),
        found is Err ==> base(Some(issue), pr, prompt, found, repo_slug) is Err,
{
}

/// What tells a compressor what the plan is wanted for.
pub fn compression_summary(issue: u64, repo_slug: &str) -> (r: String)
    ensures
        r@ == "implementation phase for issue #"@ + text::decimal(issue as nat) + " in "@
            + repo_slug@,
{
    let mut s = "implementation phase for issue #".to_owned();
    s.append(text::decimal_text(issue).as_str());
    s.append(" in ");
    s.append(repo_slug);
    s
}

/// What a compressor made of a text.
#[derive(Debug)]
pub enum Compression {
    /// There is no compressor.
    Inactive,
    /// The text was compressed; where the check of the result failed, what is given
    /// back is the text itself.
    Compressed { text: String },
    /// The text is too small to gain anything.
    TooSmall,
    /// Too many checks failed before, so nothing is compressed any more.
    BreakerOpen,
    /// The compressor failed.
    Failed,
}

/// The text that goes into the next prompt: the compressed one where there is one, else
/// the text itself.
pub fn compress_observation_for_prompt(compression: Compression, raw: &str) -> (r: String)
    ensures
        r@ == (match compression {
            Compression::Compressed { text } => text@,
            _ => raw@,
        }),
{
    match compression {
        Compression::Compressed { text } => text,
        _ => raw.to_owned(),
    }
}

/// A prompt with what the caller says besides the issue.
pub open spec fn with_hint(base: Seq<char>, hint: Option<Seq<char>>) -> Seq<char> {
    match hint {
        Some(h) => if h.len() == 0 {
            base
        } else {
            base + "\n\nAdditional context from caller:\n"@ + prompt_builder::wrapped(h)
        },
        None => base,
    }
}

/// Adds what the caller says besides the issue, marked as data.
pub fn add_caller_context(base: String, hint: Option<&str>) -> (r: String)
    ensures
        r@ == with_hint(base@, text::opt_text(hint)),
{
    match hint {
        Some(h) => {
            if h.is_empty() {
                return base;
            }
            let mut out = base;
            out.append("\n\nAdditional context from caller:\n");
            out.append(prompt_builder::wrap_external_data(h).as_str());
            out
        },
        None => base,
    }
}

/// A prompt with a further section, where there is one.
pub open spec fn with_section(prompt: Seq<char>, section: Seq<char>) -> Seq<char> {
    if section.len() == 0 {
        prompt
    } else {
        prompt + "\n\n"@ + section
    }
}

/// Adds how the agent is to check its work, where the project does not say how it is
/// checked.
pub fn add_validation_instructions(
    prompt: String,
    project_has_checks: bool,
    instructions: &str,
) -> (r: String)
    ensures
        r@ == (if project_has_checks {
            prompt@
        } else {
            with_section(prompt@, instructions@)
        }),
{
    if project_has_checks || instructions.is_empty() {
        return prompt;
    }
    let mut out = prompt;
    out.append("\n\n");
    out.append(instructions);
    out
}

/// Another task on the same project.
#[derive(Debug)]
pub struct Sibling {
    pub issue: Option<u64>,
    pub description: Option<String>,
}

/// What a [`Sibling`] holds.
pub struct SiblingView {
    pub issue: Option<nat>,
    pub description: Option<Seq<char>>,
}

impl View for Sibling {
    type V = SiblingView;

    open spec fn view(&self) -> SiblingView {
        SiblingView {
            issue: text::opt_number(self.issue),
            description: text::opt_view(self.description),
        }
    }
}

/// The contents of a list of siblings.
pub open spec fn sibling_views(v: Seq<Sibling>) -> Seq<SiblingView> {
    Seq::new(v.len(), |i: int| v[i]@)
}

/// Whether anything is known of what a sibling does.
pub open spec fn described(s: SiblingView) -> bool {
    s.description matches Some(d) && d.len() > 0
}

/// The siblings of which it is known what they do.
pub open spec fn described_siblings(v: Seq<SiblingView>) -> Seq<SiblingView> {
    v.filter(|s: SiblingView| described(s))
}

/// The siblings of which it is known what they do, in their order.
pub fn sibling_tasks(siblings: Vec<Sibling>) -> (r: Vec<Sibling>)
    ensures
        sibling_views(r@) == described_siblings(sibling_views(siblings@)),
{
    let ghost all = sibling_views(siblings@);
    let mut out: Vec<Sibling> = Vec::new();
    let mut i: usize = 0;
    assert(all.take(0) == Seq::<SiblingView>::empty());
    proof {
        reveal(Seq::filter);
    }
    while i < siblings.len()
        invariant
            i <= siblings.len(),
            all == sibling_views(siblings@),
            sibling_views(out@) == described_siblings(all.take(i as int)),
        decreases siblings.len() - i,
    {
        proof {
            reveal(Seq::filter);
            assert(all.take(i + 1).drop_last() == all.take(i as int));
        }
        let s = &siblings[i];
        let keep = match &s.description {
            Some(d) => !d.as_str().is_empty(),
            None => false,
        };
        assert(keep == described(all[i as int]));
        if keep {
            let ghost before = sibling_views(out@);
            let copy = Sibling { issue: s.issue, description: text::copy_opt(&s.description) };
            assert(copy@ == all[i as int]);
            out.push(copy);
            assert(sibling_views(out@) == before.push(all[i as int]));
        }
        i += 1;
    }
    assert(all.take(i as int) == all);
    out
}

/// Adds what other agents do on the same project, where there are any, so that none
/// reaches into another's files.
pub fn add_sibling_context(prompt: String, any_siblings: bool, context: &str) -> (r: String)
    ensures
        r@ == (if any_siblings {
            prompt@ + "\n\n"@ + context@
        } else {
            prompt@
        }),
{
    if !any_siblings {
        return prompt;
    }
    let mut out = prompt;
    out.append("\n\n");
    out.append(context);
    out
}

/// A prompt with the project's instructions.
pub open spec fn with_project(
    prompt: Seq<char>,
    files: Seq<char>,
    scope: Seq<char>,
    project_context: Seq<char>,
) -> Seq<char> {
    if text::trim(project_context, CharClass::White).len() == 0 {
        prompt
    } else {
        prompt
            + "\n\n## Project Instructions\nThe following trusted project instructions were loaded from "@
            + files + " files. Follow them for "@ + scope + ".\n\n"@ + project_context
    }
}

/// Adds the project's instructions. `files` names its instruction files, `scope` what
/// they are to be followed for, and `project_context` is what they hold.
pub fn inject_project_context_into_prompt(
    files: &str,
    scope: &str,
    project_context: &str,
    prompt: String,
) -> (r: String)
    ensures
        r@ == with_project(prompt@, files@, scope@, project_context@),
{
    let chars = text::chars_of(project_context);
    if text::trimmed(chars.as_slice(), CharClass::White).len() == 0 {
        return prompt;
    }
    let mut out = prompt;
    out.append(
        "\n\n## Project Instructions\nThe following trusted project instructions were loaded from ",
    );
    out.append(files);
    out.append(" files. Follow them for ");
    out.append(scope);
    out.append(".\n\n");
    out.append(project_context);
    out
}

/// What the prompt is put together from.
#[derive(Debug)]
pub struct PromptParts {
    /// The text of the [`BasePrompt`].
    pub base: String,
    /// What the caller says besides the issue.
    pub caller_context: Option<String>,
    /// Whether the project says how work on it is checked.
    pub project_has_checks: bool,
    /// How the agent is to check its work.
    pub instructions: String,
    /// Whether other agents work on the same project.
    pub any_siblings: bool,
    /// What other agents do on the same project.
    pub sibling_context: String,
    /// The project's principles.
    pub constitution: String,
    pub constitution_enabled: bool,
}

/// The prompt by which skills are chosen: all of it but the project's instructions and
/// the skills.
pub open spec fn task_prompt(p: PromptParts) -> Seq<char> {
    let asked = with_hint(p.base@, text::opt_view(p.caller_context));
    let checked = if p.project_has_checks {
        asked
    } else {
        with_section(asked, p.instructions@)
    };
    let aware = if p.any_siblings {
        checked + "\n\n"@ + p.sibling_context@
    } else {
        checked
    };
    implement::with_constitution(p.constitution@, aware, p.constitution_enabled)
}

/// The prompt by which skills are chosen.
pub fn build_task_prompt(p: PromptParts) -> (r: String)
    ensures
        r@ == task_prompt(p),
{
    let hint: Option<&str> = match &p.caller_context {
        Some(s) => Some(s.as_str()),
        None => None,
    };
    let asked = add_caller_context(p.base, hint);
    let checked = add_validation_instructions(
        asked,
        p.project_has_checks,
        p.instructions.as_str(),
    );
    let aware = add_sibling_context(checked, p.any_siblings, p.sibling_context.as_str());
    implement::prepend_constitution(p.constitution.as_str(), aware, p.constitution_enabled)
}

/// The whole prompt: the task's own, the project's instructions, the skills.
pub open spec fn full_prompt(
    task_prompt: Seq<char>,
    files: Seq<char>,
    scope: Seq<char>,
    project_context: Seq<char>,
    skills: Seq<char>,
) -> Seq<char> {
    with_project(task_prompt, files, scope, project_context) + skills
}

/// The whole prompt. `skills` is what the skills chosen for the task's own prompt say,
/// and may be empty.
pub fn build_full_prompt(
    task_prompt: String,
    files: &str,
    scope: &str,
    project_context: &str,
    skills: &str,
) -> (r: String)
    ensures
        r@ == full_prompt(task_prompt@, files@, scope@, project_context@, skills@),
{
    let mut out = inject_project_context_into_prompt(files, scope, project_context, task_prompt);
    out.append(skills);
    out
}

/// The whole prompt begins with the task's own, whatever the project's instructions and
/// the skills say: these are added behind it and choose no skill.
pub proof fn law_task_prompt_comes_first(
    task_prompt: Seq<char>,
    files: Seq<char>,
    scope: Seq<char>,
    project_context: Seq<char>,
    skills: Seq<char>,
)
    ensures
        text::starts_with(full_prompt(task_prompt, files, scope, project_context, skills), task_prompt),
        text::trim(project_context, CharClass::White).len() == 0 && skills.len() == 0
            ==> full_prompt(task_prompt, files, scope, project_context, skills) == task_prompt,
{
    let all = full_prompt(task_prompt, files, scope, project_context, skills);
    assert(all.take(task_prompt.len() as int) == task_prompt);
}

/// The skills that go into a prompt: a list of all of them, and the chosen ones in full.
pub fn join_skill_sections(listing: String, matched: &str) -> (r: String)
    ensures
        r@ == listing@ + matched@,
{
    let mut out = listing;
    out.append(matched);
    out
}

/// What is noted of a skill that was chosen.
pub fn skill_used_event(task_id: &str, skill_id: &str, skill_name: &str) -> (r: TaskEvent)
    ensures
        r@ == (EventView {
            turn: None,
            phase: None,
            hook: "skill_used"@,
            decision: Decision::Pass,
            reason: Some(skill_name@),
            detail: Some("task_id="@ + task_id@ + " skill_id="@ + skill_id@),
            content: None,
            mark: telemetry::no_mark(),
        }),
{
    let mut detail = "task_id=".to_owned();
    detail.append(task_id);
    detail.append(" skill_id=");
    detail.append(skill_id);
    events::build_event("skill_used", Decision::Pass, Some(skill_name.to_owned()), Some(detail))
}

/// Something that is told to an agent besides its prompt.
#[derive(Debug)]
pub enum ContextItem {
    Skill { id: String, content: String },
    AgentsMd { content: String },
}

/// What a [`ContextItem`] holds.
pub enum ContextView {
    Skill { id: Seq<char>, content: Seq<char> },
    AgentsMd { content: Seq<char> },
}

impl View for ContextItem {
    type V = ContextView;

    open spec fn view(&self) -> ContextView {
        match self {
            ContextItem::Skill { id, content } => ContextView::Skill {
                id: id@,
                content: content@,
            },
            ContextItem::AgentsMd { content } => ContextView::AgentsMd { content: content@ },
        }
    }
}

/// The contents of a list of items.
pub open spec fn context_views(v: Seq<ContextItem>) -> Seq<ContextView> {
    Seq::new(v.len(), |i: int| v[i]@)
}

/// The items for chosen skills, each with its name and its text.
pub open spec fn skill_items(skills: Seq<(String, String)>) -> Seq<ContextView> {
    Seq::new(
        skills.len(),
        |i: int| ContextView::Skill { id: skills[i].0@, content: skills[i].1@ },
    )
}

/// What is told to an agent besides its prompt: the chosen skills, and the project's
/// instructions where there are any.
pub fn collect_context_items(skills: &Vec<(String, String)>, agents_md: &str) -> (r: Vec<
    ContextItem,
>)
    ensures
        context_views(r@) == (if agents_md@.len() == 0 {
            skill_items(skills@)
        } else {
            skill_items(skills@).push(ContextView::AgentsMd { content: agents_md@ })
        }),
{
    let mut items: Vec<ContextItem> = Vec::new();
    let mut i: usize = 0;
    while i < skills.len()
        invariant
            i <= skills.len(),
            context_views(items@) == skill_items(skills@).take(i as int),
        decreases skills.len() - i,
    {
        let item = ContextItem::Skill { id: skills[i].0.clone(), content: skills[i].1.clone() };
        assert(item@ == skill_items(skills@)[i as int]);
        let ghost before = context_views(items@);
        items.push(item);
        assert(context_views(items@) == before.push(skill_items(skills@)[i as int]));
        assert(skill_items(skills@).take(i + 1) == skill_items(skills@).take(i as int).push(
            skill_items(skills@)[i as int],
        ));
        i += 1;
    }
    assert(skill_items(skills@).take(i as int) == skill_items(skills@));
    if !agents_md.is_empty() {
        let ghost before = context_views(items@);
        items.push(ContextItem::AgentsMd { content: agents_md.to_owned() });
        assert(context_views(items@) == before.push(
            ContextView::AgentsMd { content: agents_md@ },
        ));
    }
    items
}

/// What follows when a checkpoint tells of a pull request: its review, without another
/// implementation.
pub open spec fn resumed(pr_url: Seq<char>, prep: Option<PrepView>) -> (EndView, ChangeView) {
    match markers::pr_number(pr_url) {
        Some(pr_num) => (
            EndView::Proceed {
                pr_url: Some(pr_url),
                pr_num,
                pushed_commit: false,
                review_prep: prep,
            },
            task::unchanged().and_pr(Some(pr_url)).and_round(
                1,
                "implement"@,
                "resumed_checkpoint"@,
                None,
            ),
        ),
        None => (
            EndView::Done,
            task::moved(
                TaskStatus::Failed,
                Some(1),
                Some("checkpoint resume: no PR number in "@ + pr_url),
            ),
        ),
    }
}

/// What follows when a checkpoint tells of a pull request.
pub fn resume_from_checkpoint(pr_url: String, review_prep: Option<PrReviewPrepOutcome>) -> (r: (
    ImplementEnd,
    TaskChange,
))
    ensures
        (r.0@, r.1@) == resumed(pr_url@, markers::opt_prep(review_prep)),
{
    match markers::extract_pr_number(pr_url.as_str()) {
        Some(pr_num) => {
            let change = TaskChange::none().with_pr(Some(pr_url.clone())).with_round(
                1,
                "implement",
                "resumed_checkpoint",
                None,
            );
            let end = ImplementEnd::Proceed {
                pr_url: Some(pr_url),
                pr_num,
                pushed_commit: false,
                review_prep,
            };
            (end, change)
        },
        None => {
            let mut error = "checkpoint resume: no PR number in ".to_owned();
            error.append(pr_url.as_str());
            (ImplementEnd::Done, TaskChange::to(TaskStatus::Failed, Some(1), Some(error)))
        },
    }
}

/// A task that is resumed with a pull request never makes another: it goes on to the
/// review of that one, or fails.
pub proof fn law_resumed_task_keeps_its_pr(pr_url: Seq<char>, prep: Option<PrepView>)
    ensures
        match resumed(pr_url, prep).0 {
            EndView::Proceed { pr_url: url, pr_num, pushed_commit, review_prep } => {
                &&& url == Some(pr_url)
                &&& markers::pr_number(pr_url) == Some(pr_num)
                &&& !pushed_commit
                &&& review_prep == prep
                &&& resumed(pr_url, prep).1.status is None
            },
            EndView::Done => resumed(pr_url, prep).1.status == Some(TaskStatus::Failed),
            EndView::Replan { .. } => false,
        },
{
}

/// What an agent is asked to do: to go on with the pull request that was found for its
/// issue, else to implement the issue; without an issue to prepare the pull request; and
/// without that to do what the text says.
pub proof fn law_issue_comes_before_all(
    issue: nat,
    pr: Option<nat>,
    prompt: Option<Seq<char>>,
    f: FoundView,
    found: Result<Option<FoundView>, Seq<char>>,
    slug: Seq<char>,
)
    ensures
        base(Some(issue), pr, prompt, Ok(Some(f)), slug) matches Ok(BaseView::ContinuePr {
            issue: i,
            pr_num,
            branch,
            repo_slug,
        }) && i == issue && pr_num == f.number && branch == f.branch && repo_slug == (
        match settings::pr_slug(f.url) {
            Some(s) => s,
            None => "{owner}/{repo}"@,
        }),
        base(Some(issue), pr, prompt, Ok(None), slug) == Ok::<BaseView, Seq<char>>(
            BaseView::Issue { issue },
        ),
        found is Err ==> (base(Some(issue), pr, prompt, found, slug) matches Err(e) && e
            == "failed to check for an existing PR for issue #"@ + text::decimal(issue)
            + "; refusing to create a duplicate PR while lookup is unavailable"@),
        pr matches Some(n) ==> base(None, pr, prompt, found, slug) == Ok::<BaseView, Seq<char>>(
            BaseView::PreparePr { pr: n, repo_slug: slug },
        ),
        prompt matches Some(p) ==> base(None, None, prompt, found, slug) == Ok::<
            BaseView,
            Seq<char>,
        >(BaseView::Text { prompt: p }),
        base(None, None, None, found, slug) == Ok::<BaseView, Seq<char>>(
            BaseView::Text { prompt: seq![] },
        ),
{
}

/// A prompt is only ever added to: what the caller says and how to check the work come
/// behind it, whole, and only where there is any.
pub proof fn law_prompt_is_only_added_to(prompt: Seq<char>, part: Seq<char>)
    ensures
        with_hint(prompt, None) == prompt,
        with_hint(prompt, Some(seq![])) == prompt,
        part.len() > 0 ==> with_hint(prompt, Some(part)) == prompt
            + "\n\nAdditional context from caller:\n"@ + prompt_builder::wrapped(part),
        with_section(prompt, seq![]) == prompt,
        part.len() > 0 ==> with_section(prompt, part) == prompt + "\n\n"@ + part,
{
}

/// What the project says comes behind the prompt, whole, with the names of its files and
/// what they are to be followed for; where it says nothing, the prompt stays as it is.
pub proof fn law_project_speaks_last(
    prompt: Seq<char>,
    files: Seq<char>,
    scope: Seq<char>,
    part: Seq<char>,
)
    ensures
        text::starts_with(with_project(prompt, files, scope, part), prompt),
        text::trim(part, CharClass::White).len() == 0 ==> with_project(prompt, files, scope, part)
            == prompt,
        text::trim(part, CharClass::White).len() > 0 ==> text::ends_with(
            with_project(prompt, files, scope, part),
            files + " files. Follow them for "@ + scope + ".\n\n"@ + part,
        ),
{
    let w = with_project(prompt, files, scope, part);
    if text::trim(part, CharClass::White).len() > 0 {
        let title =
            "\n\n## Project Instructions\nThe following trusted project instructions were loaded from "@;
        let tail = files + " files. Follow them for "@ + scope + ".\n\n"@ + part;
        assert(w == prompt + title + tail);
        assert(w.skip(w.len() - tail.len()) == tail);
        assert(w.take(prompt.len() as int) == prompt);
    } else {
        assert(w.take(prompt.len() as int) == prompt);
    }
}

/// The prompt of a task holds what was asked in every case, behind the principles where they
/// are wanted, and at its beginning where they are not.
pub proof fn law_task_prompt_holds_what_was_asked(p: PromptParts)
    ensures
        text::contains(task_prompt(p), p.base@),
        p.constitution_enabled ==> text::starts_with(
            task_prompt(p),
            p.constitution@ + "\n\n"@ + p.base@,
        ),
        !p.constitution_enabled ==> text::starts_with(task_prompt(p), p.base@),
{
    let rest = lemma_task_prompt_grows(p);
    let b = p.base@;
    if p.constitution_enabled {
        let lead = p.constitution@ + "\n\n"@;
        text::lemma_contains_part(lead, b, rest);
        text::lemma_begins(lead + b, rest);
        assert(lead + (b + rest) == lead + b + rest);
    } else {
        text::lemma_contains_part(seq![], b, rest);
        text::lemma_begins(b, rest);
        assert(Seq::<char>::empty() + b + rest == b + rest);
    }
}

proof fn lemma_task_prompt_grows(p: PromptParts) -> (rest: Seq<char>)
    ensures
        task_prompt(p) == (if p.constitution_enabled {
            p.constitution@ + "\n\n"@ + (p.base@ + rest)
        } else {
            p.base@ + rest
        }),
{
    let b = p.base@;
    let asked = with_hint(b, text::opt_view(p.caller_context));
    let a = asked.skip(b.len() as int);
    assert(asked == b + a);
    let checked = if p.project_has_checks {
        asked
    } else {
        with_section(asked, p.instructions@)
    };
    let c = checked.skip(asked.len() as int);
    assert(checked == b + (a + c));
    let aware = if p.any_siblings {
        checked + "\n\n"@ + p.sibling_context@
    } else {
        checked
    };
    let rest = a + c + aware.skip(checked.len() as int);
    assert(aware == b + rest);
    rest
}

/// The prompt of a task ends in what others do, where there are others; else in how to check
/// the work, where that is said; else in what was asked, where the caller adds nothing.
pub proof fn law_task_prompt_ends_in_its_last_part(p: PromptParts)
    ensures
        p.any_siblings ==> text::ends_with(task_prompt(p), p.sibling_context@),
        !p.any_siblings && !p.project_has_checks && p.instructions@.len() > 0 ==> text::ends_with(
            task_prompt(p),
            p.instructions@,
        ),
        !p.any_siblings && (p.project_has_checks || p.instructions@.len() == 0)
            && p.caller_context is None ==> text::ends_with(task_prompt(p), p.base@),
{
    let b = p.base@;
    let asked = with_hint(b, text::opt_view(p.caller_context));
    if p.any_siblings {
        let checked = if p.project_has_checks {
            asked
        } else {
            with_section(asked, p.instructions@)
        };
        lemma_led(p, checked + "\n\n"@, p.sibling_context@);
    } else if !p.project_has_checks && p.instructions@.len() > 0 {
        lemma_led(p, asked + "\n\n"@, p.instructions@);
    } else if p.caller_context is None {
        assert(asked == Seq::<char>::empty() + b);
        lemma_led(p, seq![], b);
    }
}

proof fn lemma_led(p: PromptParts, before: Seq<char>, last: Seq<char>)
    ensures
        text::ends_with(
            implement::with_constitution(p.constitution@, before + last, p.constitution_enabled),
            last,
        ),
{
    if p.constitution_enabled {
        let lead = p.constitution@ + "\n\n"@ + before;
        assert(p.constitution@ + "\n\n"@ + (before + last) == lead + last);
        text::lemma_ends(lead, last);
    } else {
        text::lemma_ends(before, last);
    }
}

/// Of the other tasks those are told of which it is known what they do, in their order; no
/// others are, and none is left out.
pub proof fn law_described_siblings_are_told(
    v: Seq<SiblingView>,
    w: Seq<SiblingView>,
    s: SiblingView,
)
    ensures
        described(s) <==> (s.description matches Some(d) && d.len() > 0),
        described_siblings(v + w) == described_siblings(v) + described_siblings(w),
        described(s) ==> described_siblings(seq![s]) == seq![s],
        !described(s) ==> described_siblings(seq![s]).len() == 0,
{
    let keep = |x: SiblingView| described(x);
    Seq::filter_distributes_over_add(v, w, keep);
    reveal(Seq::filter);
    assert(seq![s].drop_last() == Seq::<SiblingView>::empty());
    assert(Seq::<SiblingView>::empty().filter(keep) == Seq::<SiblingView>::empty());
    if described(s) {
        assert(seq![s].filter(keep) == seq![s]);
    }
}

/// A task whose checkpoint names no pull request fails, and says which text it was; one
/// that goes on is recorded as resumed.
pub proof fn law_resumed_task_is_recorded(pr_url: Seq<char>, prep: Option<PrepView>)
    ensures
        markers::pr_number(pr_url) is None ==> resumed(pr_url, prep).0 is Done && resumed(
            pr_url,
            prep,
        ).1.error == Some("checkpoint resume: no PR number in "@ + pr_url) && resumed(
            pr_url,
            prep,
        ).1.turn == Some(1nat),
        markers::pr_number(pr_url) is Some ==> resumed(pr_url, prep).0 is Proceed && resumed(
            pr_url,
            prep,
        ).1.rounds.len() == 1 && resumed(pr_url, prep).1.rounds[0].result
            == "resumed_checkpoint"@ && resumed(pr_url, prep).1.rounds[0].action == "implement"@
            && resumed(pr_url, prep).1.pr_url == Some(Some(pr_url)),
{
}

/// Without knowing whether a pull request exists none is made: the error says for which issue.
/// What was found and what others do is seen as it is.
pub proof fn law_unknown_pull_request_is_not_made_twice(
    issue: nat,
    error: Seq<char>,
    pr: Option<nat>,
    prompt: Option<Seq<char>>,
    repo_slug: Seq<char>,
    f: FoundPr,
    e: String,
)
    ensures
        base(Some(issue), pr, prompt, Err(error), repo_slug) == Err::<BaseView, Seq<char>>(
            "failed to check for an existing PR for issue #"@ + text::decimal(issue)
                + "; refusing to create a duplicate PR while lookup is unavailable"@,
        ),
        found_view(Err(e)) == Err::<Option<FoundView>, Seq<char>>(e@),
        found_view(Ok(None)) == Ok::<Option<FoundView>, Seq<char>>(None),
        found_view(Ok(Some(f))) matches Ok(Some(v)) && v.number == f.number && v.branch == f.branch@
            && v.url == f.url@,
{
}

/// What others do and which skills are given is seen in its order and whole.
pub proof fn law_lists_are_seen_whole(
    siblings: Seq<Sibling>,
    items: Seq<ContextItem>,
    skills: Seq<(String, String)>,
    i: int,
)
    ensures
        sibling_views(siblings).len() == siblings.len(),
        0 <= i < siblings.len() ==> sibling_views(siblings)[i] == siblings[i]@,
        context_views(items).len() == items.len(),
        0 <= i < items.len() ==> context_views(items)[i] == items[i]@,
        skill_items(skills).len() == skills.len(),
        0 <= i < skills.len() ==> skill_items(skills)[i] == (ContextView::Skill {
            id: skills[i].0@,
            content: skills[i].1@,
        }),
{
}

/// A task that goes on from a checkpoint does so with the pull request and the state of its
/// branch that were stored, in its first turn, and nothing was pushed by it yet; one whose pull
/// request cannot be told fails in that turn.
pub proof fn law_resumed_task_goes_on_with_what_was_stored(
    pr_url: Seq<char>,
    prep: Option<PrepView>,
)
    ensures
        markers::pr_number(pr_url) matches Some(n) ==> resumed(pr_url, prep).0 == (
        EndView::Proceed {
            pr_url: Some(pr_url),
            pr_num: n,
            pushed_commit: false,
            review_prep: prep,
        }) && resumed(pr_url, prep).1.rounds[0].turn == 1 && resumed(
            pr_url,
            prep,
        ).1.rounds[0].detail is None && resumed(pr_url, prep).1.status is None && resumed(
            pr_url,
            prep,
        ).1.turn is None && resumed(pr_url, prep).1.error is None,
        markers::pr_number(pr_url) is None ==> resumed(pr_url, prep).1.status == Some(
            TaskStatus::Failed,
        ) && resumed(pr_url, prep).1.rounds.len() == 0,
{
}

} // verus!
