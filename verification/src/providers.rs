//! The providers of reviews, and what their reports count for.

use crate::agent_review::SandboxMode;
use crate::clock;
use crate::clock::Timestamp;
use crate::task;
use crate::task::TaskChange;
use crate::text;
use crate::usage::ExecutionPhase;
use vstd::prelude::*;
use vstd::string::*;

verus! {

/// The name of the provider that is a command.
pub const CODEX_CLI_REVIEW_PROVIDER_ID: &'static str = "codex_cli_review";

/// The name of the provider that is an agent.
pub const CODEX_AGENT_REVIEW_PROVIDER_ID: &'static str = "codex_agent_review";

/// How an answer is asked for in JSON.
pub const JSON_FORMAT: &'static str =
    "\nReturn exactly one fenced `harness-review-report` JSON block with this shape:\n```harness-review-report\n{\"decision\":\"approved|changes_requested|failed|timed_out|skipped\",\"summary\":\"concise summary\",\"findings\":[{\"severity\":\"critical|high|medium|low\",\"category\":\"security|correctness|data_integrity|concurrency|performance|test_gap|maintainability|other\",\"path\":\"optional path or null\",\"line\":123,\"message\":\"finding\",\"evidence\":\"optional evidence or null\",\"recommendation\":\"optional recommendation or null\",\"blocking\":true,\"confidence\":0.9}]}\n```";

/// How an answer is asked for in words.
pub const PLAIN_FORMAT: &'static str =
    "\nIf everything is safe, put APPROVED on the last line. Otherwise list each blocking issue on its own line prefixed with ISSUE:.";

/// What a provider is asked for in any case.
pub const REQUIREMENTS: &'static str =
    ".\n\nRequirements:\n- Inspect the PR intent, diff, and changed files before deciding.\n- Focus on security, logic, data integrity, error handling, and missing tests.\n- Do not modify files, commit, push, or mark review threads resolved.\n- Treat unparseable or incomplete evidence as a failed provider review.\n";

/// The settings of the provider that is a command.
#[derive(Debug)]
pub struct CodexCliReview {
    pub enabled: bool,
    pub model: String,
    pub reasoning_effort: String,
    pub base_ref: String,
    pub output_format: String,
    pub timeout_secs: u64,
}

/// The settings of the provider that is an agent.
#[derive(Clone, Copy, Debug, PartialEq, Eq, Structural)]
pub struct CodexAgentReview {
    pub enabled: bool,
    pub max_rounds: u32,
}

/// How pull requests are reviewed.
#[derive(Debug)]
pub struct AgentReviewConfig {
    pub max_rounds: u32,
    /// Whether a hosted bot is asked for a review.
    pub review_bot_auto_trigger: bool,
    /// Whether a report from outside has to be there.
    pub external_required: bool,
    /// The providers whose reports have to be good.
    pub required_providers: Vec<String>,
    /// The providers whose reports are only looked at.
    pub advisory_providers: Vec<String>,
    pub codex_cli_review: CodexCliReview,
    pub codex_agent_review: CodexAgentReview,
}

impl AgentReviewConfig {
    /// Whether a provider is named at all.
    pub open spec fn names(self, provider: Seq<char>) -> bool {
        text::texts(self.required_providers@).contains(provider) || text::texts(
            self.advisory_providers@,
        ).contains(provider)
    }
}

/// Whether a provider is named at all.
pub fn provider_policy_references(config: &AgentReviewConfig, provider_id: &str) -> (r: bool)
    ensures
        r == config.names(provider_id@),
{
    text::list_holds(&config.required_providers, provider_id) || text::list_holds(
        &config.advisory_providers,
        provider_id,
    )
}

/// Whether the command reviews: it has to be switched on and named.
pub fn should_run_codex_cli_review(config: &AgentReviewConfig) -> (r: bool)
    ensures
        r == (config.codex_cli_review.enabled && config.names(CODEX_CLI_REVIEW_PROVIDER_ID@)),
{
    config.codex_cli_review.enabled && provider_policy_references(
        config,
        CODEX_CLI_REVIEW_PROVIDER_ID,
    )
}

/// Whether the agent reviews: it has to be switched on or named.
pub fn should_run_codex_agent_review(config: &AgentReviewConfig) -> (r: bool)
    ensures
        r == (config.codex_agent_review.enabled || config.names(CODEX_AGENT_REVIEW_PROVIDER_ID@)),
{
    config.codex_agent_review.enabled || provider_policy_references(
        config,
        CODEX_AGENT_REVIEW_PROVIDER_ID,
    )
}

/// Whether a hosted bot is waited for. That a report from outside has to be there does
/// not mean that one is asked for.
pub fn requires_hosted_review_loop(config: &AgentReviewConfig) -> (r: bool)
    ensures
        r == config.review_bot_auto_trigger,
{
    config.review_bot_auto_trigger
}

/// The configuration of the agent's review: its own limit of rounds counts, not the
/// general one.
pub fn codex_agent_review_config(config: AgentReviewConfig) -> (r: AgentReviewConfig)
    ensures
        r == (AgentReviewConfig { max_rounds: config.codex_agent_review.max_rounds, ..config }),
{
    let mut config = config;
    config.max_rounds = config.codex_agent_review.max_rounds;
    config
}

/// What a provider's report counts for.
#[derive(Clone, Copy, Debug, PartialEq, Eq, Structural)]
pub enum ReviewProviderRole {
    Required,
    Advisory,
}

/// What a provider is.
#[derive(Clone, Copy, Debug, PartialEq, Eq, Structural)]
pub enum ReviewProviderKind {
    LocalCli,
    LocalAgent,
}

/// What a provider's report counts for: whoever is not required only advises.
pub open spec fn role_of(config: AgentReviewConfig, provider: Seq<char>) -> ReviewProviderRole {
    if text::texts(config.required_providers@).contains(provider) {
        ReviewProviderRole::Required
    } else {
        ReviewProviderRole::Advisory
    }
}

/// What a provider's report counts for.
pub fn configured_review_provider_role(config: &AgentReviewConfig, provider_id: &str) -> (r:
    ReviewProviderRole)
    ensures
        r == role_of(*config, provider_id@),
{
    if text::list_holds(&config.required_providers, provider_id) {
        ReviewProviderRole::Required
    } else {
        ReviewProviderRole::Advisory
    }
}

/// What a provider is.
pub fn configured_local_review_provider_kind(provider_id: &str) -> (r: ReviewProviderKind)
    ensures
        r == (if provider_id@ == CODEX_CLI_REVIEW_PROVIDER_ID@ {
            ReviewProviderKind::LocalCli
        } else {
            ReviewProviderKind::LocalAgent
        }),
{
    if text::str_eq(provider_id, CODEX_CLI_REVIEW_PROVIDER_ID) {
        ReviewProviderKind::LocalCli
    } else {
        ReviewProviderKind::LocalAgent
    }
}

/// What a provider came to.
#[derive(Clone, Copy, Debug, PartialEq, Eq, Structural)]
pub enum ReviewDecision {
    Approved,
    ChangesRequested,
    Failed,
    TimedOut,
    Skipped,
}

impl ReviewDecision {
    /// The word for a decision.
    pub open spec fn word(self) -> Seq<char> {
        match self {
            ReviewDecision::Approved => "approved"@,
            ReviewDecision::ChangesRequested => "changes_requested"@,
            ReviewDecision::Failed => "failed"@,
            ReviewDecision::TimedOut => "timed_out"@,
            ReviewDecision::Skipped => "skipped"@,
        }
    }
}

/// The word for a decision.
pub fn review_decision_label(decision: ReviewDecision) -> (r: &'static str)
    ensures
        r@ == decision.word(),
{
    match decision {
        ReviewDecision::Approved => "approved",
        ReviewDecision::ChangesRequested => "changes_requested",
        ReviewDecision::Failed => "failed",
        ReviewDecision::TimedOut => "timed_out",
        ReviewDecision::Skipped => "skipped",
    }
}

/// The prompt for the provider that is a command.
pub open spec fn cli_prompt(
    pr_url: Seq<char>,
    project_type: Seq<char>,
    base_ref: Seq<char>,
    output_format: Seq<char>,
) -> Seq<char> {
    "You are the configured codex_cli_review provider for PR "@ + pr_url
        + ".\nReview the local workspace against base ref `"@ + base_ref
        + "` as a read-only provider.\nProject type: "@ + project_type + REQUIREMENTS@ + (
    if text::lower(output_format) == text::lower("json"@) {
        JSON_FORMAT@
    } else {
        PLAIN_FORMAT@
    })
}

/// The prompt for the provider that is a command.
pub fn codex_cli_review_prompt(
    pr_url: &str,
    project_type: &str,
    base_ref: &str,
    output_format: &str,
) -> (r: String)
    ensures
        r@ == cli_prompt(pr_url@, project_type@, base_ref@, output_format@),
{
    let mut out = "You are the configured codex_cli_review provider for PR ".to_owned();
    out.append(pr_url);
    out.append(".\nReview the local workspace against base ref `");
    out.append(base_ref);
    out.append("` as a read-only provider.\nProject type: ");
    out.append(project_type);
    out.append(REQUIREMENTS);
    let format = text::chars_of(output_format);
    let json = text::chars_of("json");
    if text::eq_ignore_case(format.as_slice(), json.as_slice()) {
        out.append(JSON_FORMAT);
    } else {
        out.append(PLAIN_FORMAT);
    }
    out
}

/// What the command is called with.
#[derive(Debug)]
pub struct CliReviewRequest {
    pub prompt: String,
    pub model: String,
    pub reasoning_effort: String,
    pub sandbox_mode: SandboxMode,
    pub approval_policy: &'static str,
    pub execution_phase: ExecutionPhase,
    pub timeout_secs: u64,
}

/// What the command is called with: it may read and nothing else, asks for nothing, and
/// has at least a second.
pub fn cli_review_request(config: &AgentReviewConfig, pr_url: &str, project_type: &str) -> (r:
    CliReviewRequest)
    ensures
        r.prompt@ == cli_prompt(
            pr_url@,
            project_type@,
            config.codex_cli_review.base_ref@,
            config.codex_cli_review.output_format@,
        ),
        r.model@ == config.codex_cli_review.model@,
        r.reasoning_effort@ == config.codex_cli_review.reasoning_effort@,
        r.sandbox_mode == SandboxMode::ReadOnlyWithNetwork,
        r.approval_policy@ == "never"@,
        r.execution_phase == ExecutionPhase::SimpleReview,
        r.timeout_secs == least_timeout(config.codex_cli_review.timeout_secs),
{
    let cli = &config.codex_cli_review;
    let timeout_secs: u64 = if cli.timeout_secs == 0 {
        1
    } else {
        cli.timeout_secs
    };
    CliReviewRequest {
        prompt: codex_cli_review_prompt(
            pr_url,
            project_type,
            cli.base_ref.as_str(),
            cli.output_format.as_str(),
        ),
        model: cli.model.clone(),
        reasoning_effort: cli.reasoning_effort.clone(),
        sandbox_mode: SandboxMode::ReadOnlyWithNetwork,
        approval_policy: "never",
        execution_phase: ExecutionPhase::SimpleReview,
        timeout_secs,
    }
}

/// The seconds that the command has.
pub open spec fn least_timeout(secs: u64) -> u64 {
    if secs == 0 {
        1
    } else {
        secs
    }
}

/// What came of the command. `F` is what a single finding is.
#[derive(Debug)]
pub enum CliReviewTurn<F> {
    /// It answered; what its answer says has been read.
    Answered { decision: ReviewDecision, summary: String, findings: Vec<F>, output: String },
    Failed { error: String },
    TimedOut { secs: u64 },
}

/// A provider's report. `F` is what a single finding is.
#[derive(Debug)]
pub struct ReviewReport<F> {
    pub role: ReviewProviderRole,
    pub provider_id: &'static str,
    pub provider_kind: ReviewProviderKind,
    pub decision: ReviewDecision,
    pub summary: String,
    pub findings: Vec<F>,
    pub raw_output: String,
    pub started_at: Timestamp,
    pub completed_at: Timestamp,
    pub elapsed_ms: u64,
}

/// What a [`ReviewReport`] holds.
pub struct ReportView<F> {
    pub role: ReviewProviderRole,
    pub provider_id: Seq<char>,
    pub provider_kind: ReviewProviderKind,
    pub decision: ReviewDecision,
    pub summary: Seq<char>,
    pub findings: Seq<F>,
    pub raw_output: Seq<char>,
    pub started_at: Timestamp,
    pub completed_at: Timestamp,
    pub elapsed_ms: nat,
}

impl<F> View for ReviewReport<F> {
    type V = ReportView<F>;

    open spec fn view(&self) -> ReportView<F> {
        ReportView {
            role: self.role,
            provider_id: self.provider_id@,
            provider_kind: self.provider_kind,
            decision: self.decision,
            summary: self.summary@,
            findings: self.findings@,
            raw_output: self.raw_output@,
            started_at: self.started_at,
            completed_at: self.completed_at,
            elapsed_ms: self.elapsed_ms as nat,
        }
    }
}

/// What the command's report says: its decision, a summary, and what it wrote.
pub open spec fn cli_verdict<F>(turn: CliReviewTurn<F>) -> (ReviewDecision, Seq<char>, Seq<char>) {
    match turn {
        CliReviewTurn::Answered { decision, summary, output, .. } => (decision, summary@, output@),
        CliReviewTurn::Failed { error } => {
            let s = "Codex CLI review provider failed: "@ + error@;
            (ReviewDecision::Failed, s, s)
        },
        CliReviewTurn::TimedOut { secs } => {
            let s = "Codex CLI review provider timed out after "@ + text::decimal(secs as nat)
                + "s."@;
            (ReviewDecision::TimedOut, s, s)
        },
    }
}

/// What the command found: nothing where it did not answer.
pub open spec fn cli_findings<F>(turn: CliReviewTurn<F>) -> Seq<F> {
    match turn {
        CliReviewTurn::Answered { findings, .. } => findings@,
        _ => seq![],
    }
}

/// The turns that were taken, with one more.
pub open spec fn one_more(turns: u32) -> u32 {
    if turns == u32::MAX {
        turns
    } else {
        (turns + 1) as u32
    }
}

/// The command's report.
pub open spec fn cli_report<F>(
    config: AgentReviewConfig,
    turn: CliReviewTurn<F>,
    started_at: Timestamp,
    completed_at: Timestamp,
) -> ReportView<F> {
    let (decision, summary, raw_output) = cli_verdict(turn);
    ReportView {
        role: role_of(config, CODEX_CLI_REVIEW_PROVIDER_ID@),
        provider_id: CODEX_CLI_REVIEW_PROVIDER_ID@,
        provider_kind: ReviewProviderKind::LocalCli,
        decision,
        summary,
        findings: cli_findings(turn),
        raw_output,
        started_at,
        completed_at,
        elapsed_ms: clock::elapsed_ms(started_at, completed_at),
    }
}

/// The report of the provider that is a command, and what is stored of it. Counts its
/// turn.
pub fn report_cli_review<F>(
    config: &AgentReviewConfig,
    turn: CliReviewTurn<F>,
    started_at: Timestamp,
    completed_at: Timestamp,
    turns_used: &mut u32,
) -> (r: (ReviewReport<F>, TaskChange))
    ensures
        *final(turns_used) == one_more(*old(turns_used)),
        r.0@ == cli_report(*config, turn, started_at, completed_at),
        r.1@ == task::unchanged().and_round(
            one_more(*old(turns_used)) as nat,
            CODEX_CLI_REVIEW_PROVIDER_ID@,
            cli_verdict(turn).0.word(),
            Some(cli_verdict(turn).1),
        ),
{
    if *turns_used < u32::MAX {
        *turns_used = *turns_used + 1;
    }
    let none: Vec<F> = Vec::new();
    let (decision, summary, findings, raw_output) = match turn {
        CliReviewTurn::Answered { decision, summary, findings, output } => {
            (decision, summary, findings, output)
        },
        CliReviewTurn::Failed { error } => {
            let mut s = "Codex CLI review provider failed: ".to_owned();
            s.append(error.as_str());
            let copy = s.clone();
            (ReviewDecision::Failed, s, none, copy)
        },
        CliReviewTurn::TimedOut { secs } => {
            let mut s = "Codex CLI review provider timed out after ".to_owned();
            s.append(text::decimal_text(secs).as_str());
            s.append("s.");
            let copy = s.clone();
            (ReviewDecision::TimedOut, s, none, copy)
        },
    };
    let change = TaskChange::none().with_round(
        *turns_used,
        CODEX_CLI_REVIEW_PROVIDER_ID,
        review_decision_label(decision),
        Some(summary.clone()),
    );
    let elapsed_ms: u64 = clock::elapsed_millis(started_at, completed_at);
    let report = ReviewReport {
        role: configured_review_provider_role(config, CODEX_CLI_REVIEW_PROVIDER_ID),
        provider_id: CODEX_CLI_REVIEW_PROVIDER_ID,
        provider_kind: ReviewProviderKind::LocalCli,
        decision,
        summary,
        findings,
        raw_output,
        started_at,
        completed_at,
        elapsed_ms,
    };
    (report, change)
}

/// The report of the provider that is an agent, by what its answer says.
pub fn report_agent_review<F>(
    config: &AgentReviewConfig,
    decision: ReviewDecision,
    summary: String,
    findings: Vec<F>,
    raw_output: String,
    started_at: Timestamp,
    completed_at: Timestamp,
) -> (r: ReviewReport<F>)
    ensures
        r@ == (ReportView {
            role: role_of(*config, CODEX_AGENT_REVIEW_PROVIDER_ID@),
            provider_id: CODEX_AGENT_REVIEW_PROVIDER_ID@,
            provider_kind: ReviewProviderKind::LocalAgent,
            decision,
            summary: summary@,
            findings: findings@,
            raw_output: raw_output@,
            started_at,
            completed_at,
            elapsed_ms: clock::elapsed_ms(started_at, completed_at),
        }),
{
    let elapsed_ms: u64 = clock::elapsed_millis(started_at, completed_at);
    ReviewReport {
        role: configured_review_provider_role(config, CODEX_AGENT_REVIEW_PROVIDER_ID),
        provider_id: CODEX_AGENT_REVIEW_PROVIDER_ID,
        provider_kind: ReviewProviderKind::LocalAgent,
        decision,
        summary,
        findings,
        raw_output,
        started_at,
        completed_at,
        elapsed_ms,
    }
}

/// A command that fails or takes too long never counts as an approval, and neither does
/// one that is not answered for.
pub proof fn law_silent_reviewer_never_approves<F>(turn: CliReviewTurn<F>)
    ensures
        cli_verdict(turn).0 == ReviewDecision::Approved ==> turn is Answered,
        turn is Failed ==> cli_verdict(turn).0 == ReviewDecision::Failed,
        turn is TimedOut ==> cli_verdict(turn).0 == ReviewDecision::TimedOut,
        !(turn is Answered) ==> cli_findings(turn).len() == 0,
{
}

/// Only the providers that the configuration requires have to approve; all others advise.
pub proof fn law_required_providers_are_required(
    config: AgentReviewConfig,
    provider: Seq<char>,
    i: int,
)
    ensures
        0 <= i < config.required_providers@.len() && config.required_providers@[i]@ == provider
            ==> role_of(config, provider) == ReviewProviderRole::Required && config.names(provider),
        0 <= i < config.advisory_providers@.len() && config.advisory_providers@[i]@ == provider
            ==> config.names(provider),
        (forall|j: int|
            0 <= j < config.required_providers@.len() ==> (
            #[trigger] config.required_providers@[j])@ != provider) ==> role_of(config, provider)
            == ReviewProviderRole::Advisory,
{
    let required = text::texts(config.required_providers@);
    let advisory = text::texts(config.advisory_providers@);
    if 0 <= i < config.required_providers@.len() && config.required_providers@[i]@ == provider {
        assert(required[i] == provider);
    }
    if 0 <= i < config.advisory_providers@.len() && config.advisory_providers@[i]@ == provider {
        assert(advisory[i] == provider);
    }
    if required.contains(provider) {
        let j = choose|j: int| 0 <= j < required.len() && required[j] == provider;
        assert(config.required_providers@[j]@ == provider);
    }
}

/// Every decision has a word of its own.
pub proof fn law_decisions_have_words_of_their_own()
    ensures
        ReviewDecision::Approved.word() == "approved"@,
        ReviewDecision::ChangesRequested.word() == "changes_requested"@,
        ReviewDecision::Failed.word() == "failed"@,
        ReviewDecision::TimedOut.word() == "timed_out"@,
        ReviewDecision::Skipped.word() == "skipped"@,
        CODEX_CLI_REVIEW_PROVIDER_ID@ == "codex_cli_review"@,
        CODEX_AGENT_REVIEW_PROVIDER_ID@ == "codex_agent_review"@,
{
}

/// The command's prompt names the pull request first, and what it is reviewed against, and
/// ends in how the answer is wanted: in JSON exactly when the format says so, in whatever
/// case.
pub proof fn law_prompt_asks_for_the_wanted_format(
    pr_url: Seq<char>,
    project_type: Seq<char>,
    base_ref: Seq<char>,
    format: Seq<char>,
)
    ensures
        text::starts_with(
            cli_prompt(pr_url, project_type, base_ref, format),
            "You are the configured codex_cli_review provider for PR "@ + pr_url
                + ".\nReview the local workspace against base ref `"@ + base_ref
                + "` as a read-only provider.\nProject type: "@ + project_type,
        ),
        text::lower(format) == text::lower("json"@) ==> text::ends_with(
            cli_prompt(pr_url, project_type, base_ref, format),
            JSON_FORMAT@,
        ),
        text::lower(format) != text::lower("json"@) ==> text::ends_with(
            cli_prompt(pr_url, project_type, base_ref, format),
            PLAIN_FORMAT@,
        ),
{
    let head = "You are the configured codex_cli_review provider for PR "@ + pr_url
        + ".\nReview the local workspace against base ref `"@ + base_ref
        + "` as a read-only provider.\nProject type: "@ + project_type;
    let tail = if text::lower(format) == text::lower("json"@) {
        JSON_FORMAT@
    } else {
        PLAIN_FORMAT@
    };
    let p = cli_prompt(pr_url, project_type, base_ref, format);
    assert(p == head + (REQUIREMENTS@ + tail));
    text::lemma_begins(head, REQUIREMENTS@ + tail);
    assert(p == (head + REQUIREMENTS@) + tail);
    text::lemma_ends(head + REQUIREMENTS@, tail);
}

/// The command has at least a second, and all the time that it is given; its turn is counted
/// once, as long as turns can be counted.
pub proof fn law_command_has_its_time(secs: u64, turns: u32)
    ensures
        least_timeout(secs) >= 1,
        secs >= 1 ==> least_timeout(secs) == secs,
        secs == 0 ==> least_timeout(secs) == 1,
        turns < u32::MAX ==> one_more(turns) == turns + 1,
        one_more(u32::MAX) == u32::MAX,
{
}

/// A report says what the command said, word for word; where it did not answer, it says why.
pub proof fn law_report_says_what_came_of_it<F>(
    config: AgentReviewConfig,
    turn: CliReviewTurn<F>,
    started_at: Timestamp,
    completed_at: Timestamp,
)
    ensures
        ({
            let r = cli_report(config, turn, started_at, completed_at);
            &&& r.provider_id == "codex_cli_review"@
            &&& r.provider_kind == ReviewProviderKind::LocalCli
            &&& r.role == role_of(config, "codex_cli_review"@)
            &&& r.started_at == started_at
            &&& r.completed_at == completed_at
            &&& turn matches CliReviewTurn::Answered { decision, summary, findings, output }
                ==> r.decision == decision && r.summary == summary@ && r.findings == findings@
                && r.raw_output == output@
            &&& turn matches CliReviewTurn::Failed { error } ==> r.decision
                == ReviewDecision::Failed && r.summary == "Codex CLI review provider failed: "@
                + error@ && r.raw_output == r.summary && r.findings.len() == 0
            &&& turn matches CliReviewTurn::TimedOut { secs } ==> r.decision
                == ReviewDecision::TimedOut && r.summary
                == "Codex CLI review provider timed out after "@ + text::decimal(secs as nat)
                + "s."@ && r.raw_output == r.summary && r.findings.len() == 0
        }),
{
}

} // verus!
