use task_executor::closing::{pr_claims_to_close_issue, word_boundary_before, GhPrListItem};
use task_executor::lookup::parse_next_link;
use task_executor::mention::{parse_harness_mention_command, HarnessMentionCommand};
use task_executor::remotes::{parse_remote_urls_from_git_config, parse_repo_slug_from_remote_url};

fn item(title: &str, body: &str) -> GhPrListItem {
    GhPrListItem {
        number: 1,
        head_ref_name: "feat/x".to_string(),
        url: "https://example.test/pr/1".to_string(),
        title: title.to_string(),
        body: body.to_string(),
    }
}

#[test]
fn pr_detection_tests_parse_next_link_extracts_next_relation() {
    let link = r#"<https://api.github.com/repos/o/r/pulls?page=2>; rel="next", <https://api.github.com/repos/o/r/pulls?page=4>; rel="last""#;
    assert_eq!(
        parse_next_link(link),
        Some("https://api.github.com/repos/o/r/pulls?page=2".to_string())
    );
}

#[test]
fn pr_detection_tests_parse_next_link_returns_none_without_next_relation() {
    let link = r#"<https://api.github.com/repos/o/r/pulls?page=4>; rel="last""#;
    assert_eq!(parse_next_link(link), None);
}

#[test]
fn pr_detection_tests_parse_next_link_accepts_whitespace_around_rel_equals() {
    let link = r#"<https://api.github.com/repos/o/r/pulls?page=2>; rel = "next""#;
    assert_eq!(
        parse_next_link(link),
        Some("https://api.github.com/repos/o/r/pulls?page=2".to_string())
    );
}

#[test]
fn pr_detection_tests_title_suffix_alone_does_not_match() {
    let it = item("fix(dedup): guard against closed PRs (#791)", "");
    assert!(!pr_claims_to_close_issue(&it, 791, None));
}

#[test]
fn pr_detection_tests_title_suffix_with_close_keyword_matches() {
    let it = item("fix(dedup): guard against closed PRs (#791)", "Fixes #791");
    assert!(pr_claims_to_close_issue(&it, 791, None));
}

#[test]
fn pr_detection_tests_closes_keyword_in_body_matches() {
    let it = item("some PR", "This PR closes #791 as agreed.");
    assert!(pr_claims_to_close_issue(&it, 791, None));
}

#[test]
fn pr_detection_tests_fixes_keyword_in_body_matches() {
    let it = item("some PR", "Fixes #791");
    assert!(pr_claims_to_close_issue(&it, 791, None));
}

#[test]
fn pr_detection_tests_resolves_keyword_case_insensitive() {
    let it = item("RESOLVES #791 finally", "");
    assert!(pr_claims_to_close_issue(&it, 791, None));
}

#[test]
fn pr_detection_tests_closes_with_colon_between_keyword_and_number() {
    let it = item("", "closes: #791");
    assert!(pr_claims_to_close_issue(&it, 791, None));
}

#[test]
fn pr_detection_tests_plain_mention_does_not_match() {
    let it = item(
        "feat(scheduler): add periodic retry (#794)",
        "depends on #791 being fixed first",
    );
    assert!(!pr_claims_to_close_issue(&it, 791, None));
}

#[test]
fn pr_detection_tests_relates_to_does_not_match() {
    let it = item("some PR", "relates to #791");
    assert!(!pr_claims_to_close_issue(&it, 791, None));
}

#[test]
fn pr_detection_tests_see_also_does_not_match() {
    let it = item("some PR", "See also #791 for context.");
    assert!(!pr_claims_to_close_issue(&it, 791, None));
}

#[test]
fn pr_detection_tests_word_boundary_prefixes_does_not_match_fix() {
    let it = item("some PR", "prefixes #791 with a label");
    assert!(!pr_claims_to_close_issue(&it, 791, None));
}

#[test]
fn pr_detection_tests_different_issue_number_in_close_keyword_does_not_match() {
    let it = item("", "closes #100, mentions #791");
    assert!(!pr_claims_to_close_issue(&it, 791, None));
}

#[test]
fn pr_detection_tests_title_suffix_for_other_issue_does_not_match() {
    let it = item("fix: something (#100)", "passing reference to #791");
    assert!(!pr_claims_to_close_issue(&it, 791, None));
}

#[test]
fn pr_detection_tests_title_suffix_not_trailing_does_not_match() {
    let it = item("follow-up to prior fix (#791) (#812)", "");
    assert!(!pr_claims_to_close_issue(&it, 791, None));
}

#[test]
fn pr_detection_tests_title_suffix_not_trailing_context_mention_does_not_match() {
    let it = item("docs: mention prior fix (#791) and move on (#812)", "");
    assert!(!pr_claims_to_close_issue(&it, 791, None));
}

#[test]
fn pr_detection_tests_prefix_number_does_not_match_longer_issue() {
    let it = item("", "closes #791");
    assert!(!pr_claims_to_close_issue(&it, 79, None));
}

#[test]
fn pr_detection_tests_exact_issue_still_matches_even_when_prefix_of_another() {
    let it = item("", "closes #79 and also mentions #791");
    assert!(pr_claims_to_close_issue(&it, 79, None));
}

#[test]
fn pr_detection_tests_repo_qualified_fixes_matches() {
    let it = item("", "Fixes majiayu000/harness#791");
    assert!(pr_claims_to_close_issue(&it, 791, None));
}

#[test]
fn pr_detection_tests_repo_qualified_closes_matches() {
    let it = item("", "closes owner/repo#791 in this body");
    assert!(pr_claims_to_close_issue(&it, 791, None));
}

#[test]
fn pr_detection_tests_repo_qualified_plain_mention_does_not_match() {
    let it = item("", "related to majiayu000/harness#791");
    assert!(!pr_claims_to_close_issue(&it, 791, None));
}

#[test]
fn pr_detection_tests_repo_qualified_boundary_guards_longer_number() {
    let it = item("", "fixes owner/repo#791");
    assert!(!pr_claims_to_close_issue(&it, 79, None));
}

#[test]
fn pr_detection_tests_repo_qualified_cross_repo_does_not_match() {
    let it = item("", "Fixes rust-lang/rust#791");
    assert!(!pr_claims_to_close_issue(
        &it,
        791,
        Some("majiayu000/harness")
    ));
}

#[test]
fn pr_detection_tests_repo_qualified_same_repo_matches_with_slug() {
    let it = item("", "Fixes majiayu000/harness#791");
    assert!(pr_claims_to_close_issue(
        &it,
        791,
        Some("majiayu000/harness")
    ));
}

#[test]
fn pr_detection_tests_cross_field_keyword_does_not_match() {
    let it = item("CI fixes", "#791 is the main bug");
    assert!(!pr_claims_to_close_issue(&it, 791, None));
}

#[test]
fn pr_detection_tests_trailing_alpha_after_issue_number_does_not_match() {
    let it = item("", "fixes #791abc");
    assert!(!pr_claims_to_close_issue(&it, 791, None));
}

#[test]
fn pr_detection_tests_word_boundary_before_at_start_is_boundary() {
    assert!(word_boundary_before("fix", 3));
}

#[test]
fn pr_detection_tests_word_boundary_before_space_is_boundary() {
    assert!(word_boundary_before(" fix", 3));
}

#[test]
fn pr_detection_tests_word_boundary_before_alnum_is_not_boundary() {
    assert!(!word_boundary_before("prefix", 3));
}

#[test]
fn pr_detection_tests_word_boundary_before_multibyte_unicode_alnum_is_not_boundary() {
    assert!(!word_boundary_before("éfix", 3));
}

#[test]
fn pr_detection_tests_unicode_prefix_does_not_match_keyword() {
    let it = item("", "éfixes #791");
    assert!(!pr_claims_to_close_issue(&it, 791, None));
}

#[test]
fn pr_detection_tests_unicode_letter_prefix_does_not_match_keyword() {
    let it = item("", "éfixes #791");
    assert!(!pr_claims_to_close_issue(&it, 791, None));
}

#[test]
fn pr_detection_tests_parses_fix_ci_command() {
    assert_eq!(
        parse_harness_mention_command("@harness fix ci please"),
        Some(HarnessMentionCommand::FixCi)
    );
}

#[test]
fn pr_detection_tests_parses_review_command() {
    assert_eq!(
        parse_harness_mention_command("@harness review"),
        Some(HarnessMentionCommand::Review)
    );
}

#[test]
fn pr_detection_tests_parses_plain_mention() {
    assert_eq!(
        parse_harness_mention_command("hey @harness, take a look"),
        Some(HarnessMentionCommand::Mention)
    );
}

#[test]
fn pr_detection_tests_no_mention_returns_none() {
    assert_eq!(parse_harness_mention_command("nothing here"), None);
}

#[test]
fn pr_detection_tests_parses_ssh_remote() {
    assert_eq!(
        parse_repo_slug_from_remote_url("git@github.com:owner/repo.git"),
        Some("owner/repo".to_string())
    );
}

#[test]
fn pr_detection_tests_parses_https_remote() {
    assert_eq!(
        parse_repo_slug_from_remote_url("https://github.com/owner/repo.git"),
        Some("owner/repo".to_string())
    );
}

#[test]
fn pr_detection_tests_parses_https_remote_without_git_suffix() {
    assert_eq!(
        parse_repo_slug_from_remote_url("https://github.com/owner/repo"),
        Some("owner/repo".to_string())
    );
}

#[test]
fn pr_detection_tests_parses_ssh_scheme_remote() {
    assert_eq!(
        parse_repo_slug_from_remote_url("ssh://git@github.com/owner/repo.git"),
        Some("owner/repo".to_string())
    );
}

#[test]
fn pr_detection_tests_rejects_unknown_remote() {
    assert_eq!(
        parse_repo_slug_from_remote_url("https://gitlab.com/owner/repo.git"),
        None
    );
}

#[test]
fn pr_detection_tests_parse_git_config_accepts_dotted_remote_section() {
    let config = r#"
        [remote.origin]
            url = https://github.com/owner/repo.git
    "#;
    assert_eq!(
        parse_remote_urls_from_git_config(config),
        vec![(
            "origin".to_string(),
            "https://github.com/owner/repo.git".to_string()
        )]
    );
}

#[test]
fn pr_detection_tests_parse_git_config_accepts_quoted_remote_with_spacing_and_comments() {
    let config = r#"
        # ignored
        [remote "upstream"]
            fetch = +refs/heads/*:refs/remotes/upstream/*
            url=git@github.com:owner/repo.git ; mirror used by tests
        [branch "main"]
            remote = upstream
    "#;
    assert_eq!(
        parse_remote_urls_from_git_config(config),
        vec![(
            "upstream".to_string(),
            "git@github.com:owner/repo.git".to_string()
        )]
    );
}
