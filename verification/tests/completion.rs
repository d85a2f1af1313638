use task_executor::completion::{
    advance, blocked_provider_change, missing_local_review_change, missing_local_review_log,
    pr_ci_failure_is_actionable_feedback, pr_head_failure_is_actionable_feedback, CheckResult,
    CompletionEnd, LocalReviewPrHead, Stage, MERGED_SUMMARY, MERGED_UNTESTED_SUMMARY,
    MISSING_LOCAL_REVIEW,
};
use task_executor::outcome::LogEntry;
use task_executor::pr_checks::{
    comment_body, comment_url, pull_url, read_head_sha, token_required_error, CheckWatch,
    HeadLookup, PrQuestion, WatchStep,
};
use task_executor::review_loop::{PrFeedbackOutcome, PrOpenOrMergedState};
use task_executor::task::{TaskRecord, TaskStatus};

fn passed() -> CheckResult {
    CheckResult::Plain(Ok(()))
}

fn refused(failure: &str) -> CheckResult {
    CheckResult::Plain(Err(failure.to_string()))
}

fn open() -> CheckResult {
    CheckResult::State(Ok(PrOpenOrMergedState::Open))
}

fn merged() -> CheckResult {
    CheckResult::State(Ok(PrOpenOrMergedState::Merged))
}

fn not_open(failure: &str) -> CheckResult {
    CheckResult::State(Err(failure.to_string()))
}

fn completed(checks: Vec<CheckResult>, has_pr: bool) -> CompletionEnd {
    let mut stage = Stage::Tests;
    for check in checks {
        stage = match advance(stage, check, 4, has_pr) {
            Ok(next) => next,
            Err(end) => return end,
        };
    }
    panic!("no end was reached");
}

fn record(end: CompletionEnd) -> TaskRecord {
    let mut record = TaskRecord::new();
    record.apply(end.change);
    record
}

fn has_round(record: &TaskRecord, action: &str, result: &str) -> bool {
    record.rounds.iter().any(|round| round.action == action && round.result == result)
}

fn says(record: &TaskRecord, words: &str) -> bool {
    record.error.as_deref().unwrap_or_default().contains(words)
}

#[test]
fn hosted_bot_disabled_completion_requires_validation_pass() {
    let record = record(completed(vec![passed()], false));
    assert_eq!(record.status, TaskStatus::Done);
    assert!(has_round(&record, "local_review_validation", "passed"));
}

#[test]
fn hosted_bot_disabled_completion_blocks_validation_failure() {
    let record = record(completed(vec![refused("exit 1")], false));
    assert_eq!(record.status, TaskStatus::Failed);
    assert!(says(&record, "validation failed"), "unexpected error: {:?}", record.error);
    assert!(has_round(&record, "local_review_validation", "failed"));
}

#[test]
fn hosted_bot_disabled_completion_records_ready_to_merge_feedback() {
    let end = completed(vec![passed(), open(), passed(), passed(), open(), passed()], true);
    assert_eq!(
        end.note,
        Some((
            PrFeedbackOutcome::ReadyToMerge,
            "Local agent review approved, validation passed, and PR checks are green."
        ))
    );
    assert!(end.failure.is_none() && end.merged.is_none());
    let record = record(end);
    assert_eq!(record.status, TaskStatus::Done);
    assert_eq!(record.turn, 4);
    assert_eq!(record.rounds[0].action, "local_review_validation");
    assert_eq!(record.rounds[0].result, "passed");
}

#[test]
fn completion_without_a_pull_request_gives_no_feedback() {
    assert!(completed(vec![passed()], false).note.is_none());
    assert!(completed(vec![refused("red")], false).note.is_none());
}

#[test]
fn hosted_bot_disabled_validation_failure_records_blocking_feedback() {
    let end = completed(vec![refused("exit 1"), open()], true);
    assert_eq!(
        end.note,
        Some((
            PrFeedbackOutcome::BlockingFeedback,
            "Local agent review approved, but local validation failed."
        ))
    );
    let record = record(end);
    assert_eq!(record.status, TaskStatus::Failed);
    assert_eq!(
        record.error.as_deref(),
        Some("Local review passed, but validation failed while hosted review was disabled: exit 1")
    );
}

#[test]
fn hosted_bot_disabled_validation_failure_treats_merged_pr_as_done() {
    let end = completed(vec![refused("exit 1"), merged()], true);
    assert_eq!(end.merged, Some(MERGED_UNTESTED_SUMMARY));
    let record = record(end);
    assert_eq!(record.status, TaskStatus::Done);
    assert!(says(&record, "merged externally"), "unexpected error: {:?}", record.error);
    assert!(has_round(&record, "local_review_validation", "skipped_merged"));
    assert!(has_round(&record, "pr_open_gate", "merged"));
}

#[test]
fn failed_tests_fail_where_the_state_is_not_known() {
    let end = completed(vec![refused("exit 1"), not_open("timeout")], true);
    assert!(end.failure.unwrap().ends_with("exit 1"));
}

#[test]
fn hosted_bot_disabled_completion_treats_merged_pr_as_done() {
    let end = completed(vec![passed(), merged()], true);
    assert_eq!(end.merged, Some(MERGED_SUMMARY));
    let record = record(end);
    assert_eq!(record.status, TaskStatus::Done);
    assert!(says(&record, "merged externally"), "unexpected error: {:?}", record.error);
    assert!(has_round(&record, "pr_open_gate", "merged"));
    assert!(!has_round(&record, "pr_ci_gate", "failed"));
}

#[test]
fn completions_are_logged_as_they_end() {
    let ready = completed(vec![passed(), open(), passed(), passed(), open(), passed()], true);
    assert!(matches!(ready.log(), LogEntry::Completed));
    assert!(matches!(completed(vec![passed(), merged()], true).log(), LogEntry::Completed));
    match completed(vec![refused("exit 1"), open()], true).log() {
        LogEntry::Failed { reason } => assert_eq!(
            reason,
            "Local review passed, but validation failed while hosted review was disabled: exit 1"
        ),
        other => panic!("unexpected {other:?}"),
    }
    match completed(vec![passed(), not_open("closed")], true).log() {
        LogEntry::Failed { reason } => assert_eq!(reason, "closed"),
        other => panic!("unexpected {other:?}"),
    }
    match missing_local_review_log() {
        LogEntry::Failed { reason } => {
            assert_eq!(reason, MISSING_LOCAL_REVIEW);
            assert_eq!(missing_local_review_change(4, None).error, Some(reason));
        }
        other => panic!("unexpected {other:?}"),
    }
}

#[test]
fn hosted_bot_disabled_completion_blocks_closed_pr() {
    let failure = "GitHub PR owner/repo#77 is closed without merge";
    let end = completed(vec![passed(), not_open(failure)], true);
    assert!(
        end.note.is_none(),
        "PR open-state gate failures must not become PR feedback remediation workflows"
    );
    assert_eq!(end.failure.as_deref(), Some(failure));
    let record = record(end);
    assert_eq!(record.status, TaskStatus::Failed);
    assert!(says(&record, "PR is not open"), "unexpected error: {:?}", record.error);
    assert!(has_round(&record, "pr_open_gate", "failed"));
}

#[test]
fn hosted_bot_disabled_completion_blocks_pr_ci_failure() {
    let failure = "GitHub PR checks are not green";
    let end = completed(vec![passed(), open(), passed(), refused(failure), open()], true);
    assert_eq!(end.note.is_some(), pr_ci_failure_is_actionable_feedback(failure));
    let record = record(end);
    assert_eq!(record.status, TaskStatus::Failed);
    assert!(says(&record, "PR CI checks are not green"), "unexpected error: {:?}", record.error);
    assert!(has_round(&record, "pr_ci_gate", "failed"));
}

#[test]
fn hosted_bot_disabled_treats_merged_pr_as_done_after_ci_failure() {
    let failure = "GitHub PR checks are not green";
    let record =
        record(completed(vec![passed(), open(), passed(), refused(failure), merged()], true));
    assert_eq!(record.status, TaskStatus::Done);
    assert!(says(&record, "merged externally"), "unexpected error: {:?}", record.error);
    assert!(has_round(&record, "pr_open_gate", "merged"));
    assert!(!has_round(&record, "pr_ci_gate", "failed"));
}

#[test]
fn hosted_bot_disabled_rechecks_pr_state_after_ci_polling() {
    let record = record(completed(vec![passed(), open(), passed(), passed(), merged()], true));
    assert_eq!(record.status, TaskStatus::Done);
    assert!(says(&record, "merged externally"), "unexpected error: {:?}", record.error);
    assert!(has_round(&record, "pr_open_gate", "merged"));
}

#[test]
fn pull_request_that_was_closed_meanwhile_fails() {
    let end = completed(vec![passed(), open(), passed(), passed(), not_open("closed")], true);
    assert_eq!(
        record(end).error.as_deref(),
        Some("Local review passed, but the PR is not open after CI polling while hosted review was disabled: closed")
    );
}

fn head(before: &str, approved: &str, local_fix_attempted: bool) -> LocalReviewPrHead {
    LocalReviewPrHead {
        repo_slug: "owner/repo".to_string(),
        before_review_sha: Some(before.to_string()),
        before_review_error: None,
        approved_review_sha: Some(approved.to_string()),
        approved_review_error: None,
        local_fix_attempted,
    }
}

#[test]
fn hosted_bot_disabled_blocks_pr_head_change_after_local_approval() {
    let failure = "GitHub PR head changed after local review approval for owner/repo#77";
    let end =
        completed(vec![passed(), open(), passed(), passed(), open(), refused(failure)], true);
    assert_eq!(
        end.note,
        Some((
            PrFeedbackOutcome::BlockingFeedback,
            "Local agent review approved, but the PR head changed after approval."
        ))
    );
    let record = record(end);
    assert_eq!(record.status, TaskStatus::Failed);
    assert!(
        says(&record, "PR head changed after local approval"),
        "unexpected error: {:?}",
        record.error
    );
    assert!(has_round(&record, "pr_head_gate", "failed"));
}

#[test]
fn head_has_to_stay_the_approved_one() {
    let head = head("a", "b", true);
    assert_eq!(head.verify_local_fix(1), Ok(()));
    assert_eq!(head.verify_still_reviewed_head(1, Ok("b".to_string())), Ok(()));
    let failure = head.verify_still_reviewed_head(1, Ok("c".to_string())).unwrap_err();
    assert_eq!(
        failure,
        "GitHub PR head changed after local review approval for owner/repo#1; approved b, current c"
    );
    assert!(pr_head_failure_is_actionable_feedback(&failure), "{failure}");
}

#[test]
fn hosted_bot_disabled_completion_blocks_stale_pr_head_after_local_fix() {
    let failure = "GitHub PR head did not advance after local review fix for owner/repo#77";
    let end = completed(vec![passed(), open(), refused(failure)], true);
    assert!(end.note.is_some());
    let record = record(end);
    assert_eq!(record.status, TaskStatus::Failed);
    assert!(says(&record, "could not prove the reviewed PR head is valid"));
    assert!(has_round(&record, "pr_head_gate", "failed"));
    assert!(!record.rounds.iter().any(|round| round.action == "pr_ci_gate"));
}

#[test]
fn hosted_bot_disabled_blocks_pr_head_change_during_no_fix_review() {
    let failure = head("base-sha", "new-sha", false).verify_local_fix(77).unwrap_err();
    assert_eq!(
        failure,
        "GitHub PR head changed during local review without a local fix for owner/repo#77; before base-sha, approved new-sha"
    );
    let record = record(completed(vec![passed(), open(), refused(&failure)], true));
    assert_eq!(record.status, TaskStatus::Failed);
    assert!(
        says(&record, "could not prove the reviewed PR head is valid"),
        "unexpected error: {:?}",
        record.error
    );
    assert!(record.rounds.iter().any(|round| {
        round.action == "pr_head_gate"
            && round.result == "failed"
            && round
                .detail
                .as_deref()
                .is_some_and(|detail| detail.contains("changed during local review"))
    }));
    assert!(!record.rounds.iter().any(|round| round.action == "pr_ci_gate"));
}

#[test]
fn pr_head_gate_allows_noop_local_fix_round() {
    assert!(head("same-sha", "same-sha", true).verify_local_fix(77).is_ok());
    assert!(head("same-sha", "same-sha", false).verify_local_fix(77).is_ok());
}

#[test]
fn hosted_bot_disabled_pr_head_lookup_failure_does_not_record_feedback() {
    let failure = "GitHub token is required to verify PR head when hosted review is disabled";
    let end = completed(vec![passed(), open(), refused(failure)], true);
    assert!(
        end.note.is_none(),
        "PR head lookup failures must not become PR feedback remediation workflows"
    );
    let record = record(end);
    assert_eq!(record.status, TaskStatus::Failed);
    assert!(has_round(&record, "pr_head_gate", "failed"));
}

#[test]
fn heads_that_could_not_be_looked_up_are_no_feedback() {
    let mut unknown = head("a", "b", true);
    unknown.before_review_error = Some("no answer".to_string());
    let failure = unknown.verify_local_fix(1).unwrap_err();
    assert!(!pr_head_failure_is_actionable_feedback(&failure), "{failure}");
}

#[test]
fn hosted_bot_disabled_requires_local_review_approval() {
    let change = missing_local_review_change(4, Some("https://github.com/owner/repo/pull/1"));
    let mut record = TaskRecord::new();
    record.apply(change);
    assert_eq!(record.status, TaskStatus::Failed);
    assert!(
        says(&record, "no local agent review approved"),
        "unexpected error: {:?}",
        record.error
    );
    assert!(has_round(&record, "review_gate_config", "failed"));
    assert_eq!(
        record.rounds[0].detail.as_deref(),
        Some("pr=https://github.com/owner/repo/pull/1")
    );
}

#[test]
fn hosted_bot_disabled_blocks_missing_required_provider_report() {
    let change = blocked_provider_change(
        4,
        Some("https://github.com/owner/repo/pull/1"),
        Some("codex_cli_review"),
        "Required review provider did not produce a report.",
    );
    let mut record = TaskRecord::new();
    record.apply(change);
    assert_eq!(record.status, TaskStatus::Failed);
    assert!(says(&record, "codex_cli_review"), "unexpected error: {:?}", record.error);
    assert!(has_round(&record, "review_provider_gate", "failed"));
    let change = blocked_provider_change(2, None, None, "no report");
    assert_eq!(
        change.error.as_deref(),
        Some("Review provider gate blocked by unknown provider: no report")
    );
    assert_eq!(change.rounds[0].detail.as_deref(), Some("pr="));
}

fn watched(watch: &CheckWatch, state: Option<&str>, elapsed: u64) -> WatchStep {
    watch.observe(Ok(state.map(str::to_string)), elapsed)
}

#[test]
fn checks_are_watched_until_they_end() {
    let watch = CheckWatch::new("o/r", 1, 60, 30);
    assert!(matches!(watched(&watch, Some("SUCCESS"), 0), WatchStep::Green));
    match watched(&watch, Some("FAILURE"), 0) {
        WatchStep::Fail { error } => {
            assert!(error.contains("FAILURE"), "{error}");
            assert!(pr_ci_failure_is_actionable_feedback(&error), "{error}");
        }
        other => panic!("unexpected {other:?}"),
    }
    assert!(matches!(watched(&watch, Some("PENDING"), 0), WatchStep::Poll { secs: 30 }));
    assert!(matches!(watched(&watch, None, 45), WatchStep::Poll { secs: 30 }));
    match watched(&watch, None, 60) {
        WatchStep::Fail { error } => {
            assert!(!pr_ci_failure_is_actionable_feedback(&error), "{error}");
        }
        other => panic!("unexpected {other:?}"),
    }
}

#[test]
fn heads_are_read_from_answers_alone() {
    let read = |lookup| read_head_sha("o/r", 1, lookup);
    assert_eq!(
        read(HeadLookup::Answered { sha: Some("abc".to_string()) }),
        Ok("abc".to_string())
    );
    for lookup in [
        HeadLookup::Answered { sha: None },
        HeadLookup::TimedOut,
        HeadLookup::Failed { error: "x".to_string() },
        HeadLookup::Refused { status: "404".to_string() },
        HeadLookup::Unreadable { error: "x".to_string() },
    ] {
        let error = read(lookup).unwrap_err();
        assert!(!pr_head_failure_is_actionable_feedback(&error), "{error}");
    }
}

#[test]
fn requests_go_to_the_service() {
    assert_eq!(pull_url("o/r", 7), "https://api.github.com/repos/o/r/pulls/7");
    assert_eq!(
        comment_url("o/r", 7),
        Ok("https://api.github.com/repos/o/r/issues/7/comments".to_string())
    );
    assert!(comment_url("repo", 7).is_err());
    assert_eq!(comment_body("a \"b\"\n"), "{\"body\":\"a \\\"b\\\"\\n\"}");
    assert!(token_required_error(PrQuestion::Head).contains("GITHUB_TOKEN"));
}
