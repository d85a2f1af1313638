use task_executor::closing::{
    field_claims_to_close_issue, strip_trailing_repo_qualifier, word_boundary_before,
};
use task_executor::json::{JsonObject, JsonValue};
use task_executor::lookup::link_segment_has_next_rel;
use task_executor::remotes::{
    config_candidates_from_gitdir_file, join_path, linked_gitdir, parse_remote_section_name,
    trim_git_config_value,
};
use task_executor::request::{is_report_source, TaskKind};
use task_executor::task::{TaskChange, TaskRecord, TaskStatus};
use task_executor::text::{
    chars_of, decimal_text, eq_ignore_case, is_white_space, line_list, parse_number,
    signed_decimal_text, text_of, trimmed, word_list, CharClass,
};

#[test]
fn white_space_is_what_unicode_calls_it() {
    for code in 0..=0x10_ffff_u32 {
        if let Some(c) = char::from_u32(code) {
            assert_eq!(is_white_space(c), c.is_whitespace(), "{code:x}");
            assert_eq!(CharClass::White.contains(c), c.is_whitespace(), "{code:x}");
            assert_eq!(CharClass::AsciiWhite.contains(c), c.is_ascii_whitespace(), "{code:x}");
        }
    }
}

#[test]
fn texts_are_split_as_the_standard_library_does() {
    for s in ["", "\n", "a\r\nb\n\nc", "a\r", " x \u{2003}y\tz ", "é\u{85}q"] {
        let chars = chars_of(s);
        let lines: Vec<String> = line_list(&chars).iter().map(|l| text_of(l)).collect();
        assert_eq!(lines, s.lines().map(str::to_string).collect::<Vec<_>>());
        let words: Vec<String> =
            word_list(&chars, CharClass::White).iter().map(|w| text_of(w)).collect();
        assert_eq!(words, s.split_whitespace().map(str::to_string).collect::<Vec<_>>());
        assert_eq!(text_of(trimmed(&chars, CharClass::White)), s.trim());
    }
}

#[test]
fn numbers_are_written_and_read() {
    for n in [0, 7, 10, 1_000_000, u64::MAX] {
        assert_eq!(decimal_text(n), n.to_string());
        assert_eq!(parse_number(&chars_of(&n.to_string())), Some(n));
    }
    for s in ["", "+", "-1", "1 ", "x", "18446744073709551616"] {
        assert_eq!(parse_number(&chars_of(s)), s.parse::<u64>().ok(), "{s}");
    }
    assert_eq!(parse_number(&chars_of("007")), Some(7));
    for n in [0, -1, 7, i32::MIN, i32::MAX] {
        assert_eq!(signed_decimal_text(n), n.to_string());
    }
}

#[test]
fn case_is_ignored_for_ascii_letters_alone() {
    assert!(eq_ignore_case(&chars_of("AbC"), &chars_of("aBc")));
    assert!(!eq_ignore_case(&chars_of("É"), &chars_of("é")));
    assert!(!eq_ignore_case(&chars_of("ab"), &chars_of("a")));
}

#[test]
fn objects_are_written_as_json() {
    assert_eq!(JsonObject::new().text(), "{}");
    let object = JsonObject::new()
        .with("b", JsonValue::Text("x\"\u{1}é".to_string()))
        .with("a", JsonValue::Number(u64::MAX))
        .with("d", JsonValue::Null)
        .with("c", JsonValue::Signed(-3))
        .with("a", JsonValue::Number(1));
    assert_eq!(
        object.text(),
        "{\"a\":1,\"b\":\"x\\\"\\u0001é\",\"c\":-3,\"d\":null}"
    );
}

#[test]
fn records_only_grow() {
    let mut record = TaskRecord::new();
    assert_eq!(record.status, TaskStatus::Pending);
    record.apply(
        TaskChange::to(TaskStatus::Failed, Some(3), Some("bad".to_string()))
            .with_round(1, "implement", "failed", None)
            .with_pr(Some("u".to_string())),
    );
    record.apply(TaskChange::none().with_round(2, "review", "ok", Some("d".to_string())));
    assert_eq!(record.status, TaskStatus::Failed);
    assert_eq!(record.turn, 3);
    assert_eq!(record.error.as_deref(), Some("bad"));
    assert_eq!(record.pr_url.as_deref(), Some("u"));
    assert_eq!(record.rounds.len(), 2);
    assert_eq!(record.rounds[1].detail.as_deref(), Some("d"));
    assert!(TaskStatus::Failed.is_terminal() && !TaskStatus::Waiting.is_terminal());
}

#[test]
fn reports_come_from_their_sources() {
    assert!(is_report_source(&Some("periodic_review".to_string())));
    assert!(is_report_source(&Some("sprint_planner".to_string())));
    assert!(!is_report_source(&Some("github".to_string())));
    assert!(!is_report_source(&None));
    assert_eq!(TaskKind::Planner.as_str(), "planner");
}

#[test]
fn linked_checkouts_are_followed() {
    assert_eq!(linked_gitdir("/w", "gitdir: /r/.git/worktrees/w\n").as_deref(), Some("/r/.git/worktrees/w"));
    assert_eq!(linked_gitdir("/w", "gitdir: ../r/.git").as_deref(), Some("/w/../r/.git"));
    assert_eq!(linked_gitdir("/w", "something else"), None);
    assert_eq!(
        config_candidates_from_gitdir_file("/r/.git/worktrees/w", Some("../..\n"), Some("/r/.git")),
        vec![
            "/r/.git/worktrees/w/config".to_string(),
            "/r/.git/worktrees/w/../../config".to_string(),
            "/r/.git/config".to_string(),
        ]
    );
    assert_eq!(
        config_candidates_from_gitdir_file("/r/.git", None, None),
        vec!["/r/.git/config".to_string()]
    );
    for (base, path) in [("/a", "b"), ("/a/", "b"), ("", "b"), ("/a", "/b"), ("a", "")] {
        let expected = std::path::Path::new(base).join(path);
        assert_eq!(join_path(base, path), expected.to_str().unwrap());
    }
}

#[test]
fn references_are_taken_apart() {
    assert_eq!(strip_trailing_repo_qualifier("fixes owner/repo").as_deref(), Some("fixes "));
    assert_eq!(strip_trailing_repo_qualifier("owner/repo").as_deref(), Some(""));
    assert_eq!(strip_trailing_repo_qualifier("fixes /repo"), None);
    assert_eq!(strip_trailing_repo_qualifier("fixes owner/"), None);
    assert_eq!(strip_trailing_repo_qualifier("fixes"), None);
    assert!(field_claims_to_close_issue("this fixes #5.", 5, None));
    assert!(!field_claims_to_close_issue("this fixes #55", 5, None));
    assert!(field_claims_to_close_issue("closes o/r#5", 5, Some("o/r")));
    assert!(!field_claims_to_close_issue("closes x/y#5", 5, Some("o/r")));
    assert!(word_boundary_before("fix", 3));
    assert!(!word_boundary_before("prefix", 3));
    assert!(word_boundary_before("a fix", 3));
}

#[test]
fn git_configurations_are_read_by_line() {
    assert_eq!(parse_remote_section_name("remote \"origin\"").as_deref(), Some("origin"));
    assert_eq!(parse_remote_section_name("remote.origin").as_deref(), Some("origin"));
    assert_eq!(parse_remote_section_name("remotes \"origin\""), None);
    assert_eq!(parse_remote_section_name("remote \"\""), None);
    assert_eq!(parse_remote_section_name("core"), None);
    assert_eq!(trim_git_config_value(" url # note"), "url");
    assert_eq!(trim_git_config_value(" url#part ; note"), "url#part");
    assert!(link_segment_has_next_rel("rel = \"prev NEXT\""));
    assert!(!link_segment_has_next_rel("rel=\"prev\""));
    assert!(!link_segment_has_next_rel("title=\"next\""));
}
