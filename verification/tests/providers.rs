use task_executor::agent_review::SandboxMode;
use task_executor::clock::Timestamp;
use task_executor::providers::{
    cli_review_request, codex_agent_review_config, codex_cli_review_prompt,
    configured_local_review_provider_kind, configured_review_provider_role, report_agent_review, report_cli_review,
    requires_hosted_review_loop, review_decision_label, should_run_codex_agent_review,
    should_run_codex_cli_review, AgentReviewConfig, CliReviewTurn, CodexAgentReview,
    CodexCliReview, ReviewDecision, ReviewProviderKind, ReviewProviderRole,
    CODEX_AGENT_REVIEW_PROVIDER_ID, CODEX_CLI_REVIEW_PROVIDER_ID,
};

fn config() -> AgentReviewConfig {
    AgentReviewConfig {
        max_rounds: 3,
        review_bot_auto_trigger: false,
        external_required: false,
        required_providers: vec![CODEX_CLI_REVIEW_PROVIDER_ID.to_string()],
        advisory_providers: vec![],
        codex_cli_review: CodexCliReview {
            enabled: true,
            model: "model".to_string(),
            reasoning_effort: "high".to_string(),
            base_ref: "origin/main".to_string(),
            output_format: "json".to_string(),
            timeout_secs: 600,
        },
        codex_agent_review: CodexAgentReview { enabled: false, max_rounds: 3 },
    }
}

fn at(secs: i64) -> Timestamp {
    Timestamp::new(secs, 0).unwrap()
}

#[test]
fn codex_cli_review_provider_uses_configured_request() {
    let mut config = config();
    config.codex_cli_review.model = "gpt-test".to_string();
    config.codex_cli_review.reasoning_effort = "xhigh".to_string();
    config.codex_cli_review.base_ref = "origin/main".to_string();
    config.codex_cli_review.timeout_secs = 5;
    let request = cli_review_request(&config, "https://github.com/owner/repo/pull/1", "rust");
    assert_eq!(request.model, "gpt-test");
    assert_eq!(request.reasoning_effort, "xhigh");
    assert_eq!(request.sandbox_mode, SandboxMode::ReadOnlyWithNetwork);
    assert_eq!(request.approval_policy, "never");
    assert_eq!(request.timeout_secs, 5);
    assert!(request.prompt.contains("origin/main"));
    let mut turns_used = 0;
    let (report, change) = report_cli_review(
        &config,
        CliReviewTurn::Answered {
            decision: ReviewDecision::Approved,
            summary: "fine".to_string(),
            findings: vec![("low", 1), ("high", 2)],
            output: "APPROVED".to_string(),
        },
        at(10),
        at(12),
        &mut turns_used,
    );
    assert_eq!(turns_used, 1);
    assert_eq!(report.role, ReviewProviderRole::Required);
    assert_eq!(report.provider_id, CODEX_CLI_REVIEW_PROVIDER_ID);
    assert_eq!(report.decision, ReviewDecision::Approved);
    assert_eq!(report.findings, vec![("low", 1), ("high", 2)]);
    assert_eq!(report.elapsed_ms, 2000);
    assert!(change
        .rounds
        .iter()
        .any(|round| round.action == CODEX_CLI_REVIEW_PROVIDER_ID && round.result == "approved"));
}

#[test]
fn silent_provider_does_not_approve() {
    let mut turns_used = u32::MAX;
    let late: CliReviewTurn<u8> = CliReviewTurn::TimedOut { secs: 5 };
    let (late, _) = report_cli_review(&config(), late, at(0), at(5), &mut turns_used);
    assert!(late.findings.is_empty());
    assert_eq!(late.decision, ReviewDecision::TimedOut);
    let (broken, change) = report_cli_review(
        &config(),
        CliReviewTurn::<u8>::Failed { error: "gone".to_string() },
        at(5),
        at(4),
        &mut turns_used,
    );
    assert_eq!(broken.decision, ReviewDecision::Failed);
    assert_eq!(broken.elapsed_ms, 0);
    assert!(broken.summary.contains("gone"));
    assert_eq!(change.rounds[0].result, "failed");
    assert_eq!(turns_used, u32::MAX);
}

#[test]
fn codex_cli_review_prompt_uses_parseable_report_fence() {
    let prompt = codex_cli_review_prompt(
        "https://github.com/owner/repo/pull/1",
        "rust",
        "origin/main",
        "json",
    );

    assert!(prompt.contains("```harness-review-report"));
    assert!(!prompt.contains("```review_report"));
}

#[test]
fn codex_agent_review_runs_only_when_configured_or_referenced() {
    let mut config = config();
    assert!(!should_run_codex_agent_review(&config));
    config.codex_agent_review.enabled = true;
    assert!(should_run_codex_agent_review(&config));
}

#[test]
fn providers_run_where_they_are_named() {
    let mut config = config();
    assert!(should_run_codex_cli_review(&config));
    config.codex_cli_review.enabled = false;
    assert!(!should_run_codex_cli_review(&config));
    config.codex_cli_review.enabled = true;
    config.required_providers.clear();
    assert!(!should_run_codex_cli_review(&config));
    config.advisory_providers.push(CODEX_AGENT_REVIEW_PROVIDER_ID.to_string());
    assert!(should_run_codex_agent_review(&config));
    assert_eq!(
        configured_review_provider_role(&config, CODEX_AGENT_REVIEW_PROVIDER_ID),
        ReviewProviderRole::Advisory
    );
}

#[test]
fn external_required_does_not_enable_legacy_hosted_review_loop() {
    let mut config = AgentReviewConfig { external_required: true, ..config() };

    assert!(!requires_hosted_review_loop(&config));
    config.review_bot_auto_trigger = true;
    assert!(requires_hosted_review_loop(&config));
}

#[test]
fn codex_agent_review_config_uses_provider_round_limit() {
    let mut given = AgentReviewConfig { max_rounds: 8, ..config() };
    given.codex_agent_review.max_rounds = 2;

    let provider_config = codex_agent_review_config(given);

    assert_eq!(provider_config.max_rounds, 2);
    assert_eq!(provider_config.required_providers, config().required_providers);
}

#[test]
fn agent_review_is_reported_as_what_it_is() {
    let report = report_agent_review(
        &config(),
        ReviewDecision::ChangesRequested,
        "two issues".to_string(),
        vec!["one", "two"],
        "raw".to_string(),
        at(0),
        at(1),
    );
    assert_eq!(report.decision, ReviewDecision::ChangesRequested);
    assert_eq!(report.provider_id, CODEX_AGENT_REVIEW_PROVIDER_ID);
    assert_eq!(report.provider_kind, ReviewProviderKind::LocalAgent);
    assert_eq!(report.elapsed_ms, 1000);
    assert_eq!(report.findings, vec!["one", "two"]);
    assert_eq!(report.raw_output, "raw");
}

#[test]
fn providers_have_their_kinds() {
    assert_eq!(
        configured_local_review_provider_kind(CODEX_CLI_REVIEW_PROVIDER_ID),
        ReviewProviderKind::LocalCli
    );
    assert_eq!(
        configured_local_review_provider_kind(CODEX_AGENT_REVIEW_PROVIDER_ID),
        ReviewProviderKind::LocalAgent
    );
}

#[test]
fn every_decision_has_its_word() {
    let words = [
        (ReviewDecision::Approved, "approved"),
        (ReviewDecision::ChangesRequested, "changes_requested"),
        (ReviewDecision::Failed, "failed"),
        (ReviewDecision::TimedOut, "timed_out"),
        (ReviewDecision::Skipped, "skipped"),
    ];
    for (decision, word) in words {
        assert_eq!(review_decision_label(decision), word);
    }
}
