use task_executor::mention::{parse_harness_mention_command, HarnessMentionCommand};
use task_executor::prompt_builder::{
    build_fix_ci_prompt, build_pr_approved_prompt, build_pr_rework_prompt, canonical_pr_url,
    wrap_external_data, PromptBuilder,
};
use task_executor::settings::{
    effective_agent_review_round_limit, effective_hosted_review_round_limit, effective_max_turns,
    initial_hosted_review_wait_secs, local_review_pr_check_timeout_secs, repo_slug_of_pr,
    restricted_tools, review_repo_slug, should_run_issue_triage, CapabilityProfile,
    TriageComplexity,
};

#[test]
fn periodic_review_source_uses_standard_allowed_tools() {
    let tools = restricted_tools(CapabilityProfile::Standard).unwrap_or_default();
    assert_eq!(tools, CapabilityProfile::Standard.tools().unwrap_or_default());
    assert!(!tools.is_empty());
}

#[test]
fn standard_implementation_turn_uses_full_profile() {
    let implementation_allowed_tools: Option<Vec<String>> = CapabilityProfile::Full.tools();
    assert!(implementation_allowed_tools.is_none());
}

#[test]
fn effective_agent_review_round_limit_prefers_request_over_server() {
    assert_eq!(effective_agent_review_round_limit(Some(1), 3, 5), 1);
}

#[test]
fn effective_agent_review_round_limit_uses_server_before_triage_default() {
    assert_eq!(effective_agent_review_round_limit(None, 3, 8), 3);
}

#[test]
fn effective_hosted_review_round_limit_prefers_request_over_project() {
    assert_eq!(effective_hosted_review_round_limit(Some(1), Some(8), 3, 5), 1);
}

#[test]
fn effective_hosted_review_round_limit_uses_project_before_server() {
    assert_eq!(effective_hosted_review_round_limit(None, Some(8), 3, 5), 8);
}

#[test]
fn effective_hosted_review_round_limit_uses_server_before_triage_default() {
    assert_eq!(effective_hosted_review_round_limit(None, None, 3, 8), 3);
}

#[test]
fn local_review_pr_check_timeout_uses_hosted_review_budget() {
    assert_eq!(local_review_pr_check_timeout_secs(30, 8), 480);
}

#[test]
fn local_review_pr_check_timeout_saturates() {
    assert_eq!(local_review_pr_check_timeout_secs(90, 2), 180);
    assert_eq!(local_review_pr_check_timeout_secs(u64::MAX, 2), u64::MAX);
}

#[test]
fn initial_hosted_review_wait_respects_wait_budget() {
    assert_eq!(initial_hosted_review_wait_secs(300, 60), 60);
    assert_eq!(initial_hosted_review_wait_secs(30, 60), 30);
}

#[test]
fn initial_hosted_review_wait_zero_budget_keeps_poll_interval() {
    assert_eq!(initial_hosted_review_wait_secs(300, 0), 300);
}

#[test]
fn review_repo_slug_prefers_parseable_pr_url() {
    assert_eq!(
        review_repo_slug(Some("https://github.com/from-url/repo/pull/77"), "from-checkout/repo"),
        "from-url/repo"
    );
}

#[test]
fn review_repo_slug_falls_back_to_detected_slug() {
    assert_eq!(
        review_repo_slug(Some("https://git.example.com/from-url/repo/pull/77"), "owner/repo"),
        "owner/repo"
    );
}

#[test]
fn review_repo_slug_without_address() {
    assert_eq!(review_repo_slug(None, "owner/repo"), "owner/repo");
    assert_eq!(repo_slug_of_pr("https://github.com/owner/repo/issues/1"), None);
}

#[test]
fn turn_limit_of_the_request_counts_first() {
    assert_eq!(effective_max_turns(Some(2), Some(9)), Some(2));
    assert_eq!(effective_max_turns(None, Some(9)), Some(9));
    assert_eq!(effective_max_turns(None, None), None);
}

#[test]
fn complexity_sets_the_default_rounds() {
    assert_eq!(TriageComplexity::Low.default_rounds(), 2);
    assert_eq!(TriageComplexity::Medium.default_rounds(), 8);
    assert_eq!(TriageComplexity::High.default_rounds(), 8);
}

#[test]
fn parse_harness_review_command() {
    let cmd = parse_harness_mention_command("@harness review");
    assert_eq!(cmd, Some(HarnessMentionCommand::Review));
}

#[test]
fn parse_harness_fix_ci_command_case_insensitive() {
    let cmd = parse_harness_mention_command("please @Harness FIX CI");
    assert_eq!(cmd, Some(HarnessMentionCommand::FixCi));
}

#[test]
fn parse_harness_plain_mention_command() {
    let cmd = parse_harness_mention_command("hello @harness can you help?");
    assert_eq!(cmd, Some(HarnessMentionCommand::Mention));
}

#[test]
fn parse_harness_command_returns_none_without_mention() {
    let cmd = parse_harness_mention_command("no command here");
    assert_eq!(cmd, None);
}

#[test]
fn parse_harness_first_mention_per_line_is_used() {
    let cmd = parse_harness_mention_command("@harness review then @harness fix ci");
    assert_eq!(cmd, Some(HarnessMentionCommand::Review));
}

#[test]
fn prompt_builder_no_sections_adds_trailing_newline() {
    let result = PromptBuilder::new("Title line.").build();
    assert_eq!(result, "Title line.\n");
}

#[test]
fn prompt_builder_optional_url_absent_is_skipped() {
    let result = PromptBuilder::new("Title.").add_optional_url("Link", None).build();
    assert_eq!(result, "Title.\n");
}

#[test]
fn prompt_builder_optional_url_present_appears_in_output() {
    let result =
        PromptBuilder::new("Title.").add_optional_url("Link", Some("https://example.com")).build();
    assert!(result.contains("- Link: "));
    assert!(result.contains("https://example.com"));
    assert!(result.ends_with('\n'));
}

#[test]
fn prompt_builder_add_section_wraps_external_data() {
    let result = PromptBuilder::new("Title.").add_section("Payload", "content here").build();
    assert!(result.contains("Payload:\n"));
    assert!(result.contains("<external_data>"));
    assert!(result.contains("content here"));
    assert_eq!(
        wrap_external_data("content here"),
        "<external_data>\ncontent here\n</external_data>"
    );
}

#[test]
fn prompt_builder_multiple_urls_all_appear() {
    let result = PromptBuilder::new("Title.")
        .add_optional_url("First", Some("url1"))
        .add_optional_url("Second", None)
        .add_optional_url("Third", Some("url3"))
        .build();
    assert!(result.contains("- First: "));
    assert!(result.contains("url1"));
    assert!(!result.contains("Second"));
    assert!(result.contains("- Third: "));
    assert!(result.contains("url3"));
}

#[test]
fn build_fix_ci_prompt_contains_context() {
    let prompt = build_fix_ci_prompt(
        "majiayu000/harness",
        42,
        "@harness fix CI",
        Some("https://github.com/majiayu000/harness/issues/42#issuecomment-1"),
        Some("https://github.com/majiayu000/harness/pull/42"),
    );

    assert!(prompt.contains("CI failure repair requested for PR #42"));
    assert!(prompt.contains("majiayu000/harness"));
    assert!(prompt.contains("<external_data>"));
    assert!(prompt.contains("PR_URL=https://github.com/majiayu000/harness/pull/42"));
}

#[test]
fn prompts_end_with_the_canonical_address() {
    let address = canonical_pr_url("o/r", 7);
    assert_eq!(address, "https://github.com/o/r/pull/7");
    let end = format!("PR_URL={address}");
    let rework = build_pr_rework_prompt("o/r", 7, "CHANGES_REQUESTED", "please", None, None);
    assert!(rework.trim_end().ends_with(&end), "{rework}");
    let approved = build_pr_approved_prompt("o/r", 7, "judge", None);
    assert!(approved.starts_with("PR #7 in `o/r` has been approved by a judge.\n"), "{approved}");
    assert!(approved.trim_end().ends_with(&end), "{approved}");
    let fix = build_fix_ci_prompt("o/r", 7, "fix", None, None);
    assert!(fix.trim_end().ends_with(&end), "{fix}");
}

#[test]
fn review_check_turn_uses_readonly_profile() {
    let tools = restricted_tools(CapabilityProfile::ReadOnly).unwrap();
    assert!(tools.contains(&"Read".to_string()));
    assert!(tools.contains(&"Grep".to_string()));
    assert!(tools.contains(&"Glob".to_string()));
    assert!(!tools.contains(&"Write".to_string()));
    assert!(!tools.contains(&"Edit".to_string()));
    assert!(!tools.contains(&"Bash".to_string()));
}

#[test]
fn periodic_review_turn_uses_standard_profile_with_bash() {
    let tools = restricted_tools(CapabilityProfile::Standard).unwrap();
    assert!(tools.contains(&"Bash".to_string()));
    assert!(tools.contains(&"Read".to_string()));
    assert!(tools.contains(&"Write".to_string()));
    assert!(tools.contains(&"Edit".to_string()));
    assert!(!tools.contains(&"Grep".to_string()));
}

#[test]
fn implementation_turn_uses_full_profile_no_restriction() {
    assert!(CapabilityProfile::Full.tools().is_none());
    assert!(restricted_tools(CapabilityProfile::Full).is_err());
}

#[test]
fn issue_triage_runs_only_when_not_skipped_and_no_existing_pr() {
    assert!(should_run_issue_triage(false, false));
    assert!(!should_run_issue_triage(true, false));
    assert!(!should_run_issue_triage(false, true));
}
