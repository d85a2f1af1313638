use task_executor::clock::Timestamp;
use task_executor::events::Decision;
use task_executor::implement::{
    combined_output, contains_worktree_collision_sentinel, implementation_failure_result,
    parse_implementation_outcome, prepend_constitution, report_fault, resolve_pushed_commit_flag,
    task_needs_pr_url, timeout_error, ImplementationOutcome, TurnFault,
};
use task_executor::markers::{
    extract_pr_number, parse_created_issue_number, parse_pr_review_prep_outcome, parse_pr_url,
    PrReviewPrepOutcome,
};
use task_executor::outcome::{
    process_implementation_output, ImplementEnd, ImplementedTask, LogEntry,
};
use task_executor::request::{
    is_prompt_only_task, should_skip_prompt_persistence, CreateTaskRequest,
    PersistedRequestSettings, StoredTask, TaskKind,
};
use task_executor::retry::{
    compute_backoff_ms, first_error, max_validation_retries, tool_violation, CheckedTurn,
    RetryPolicy, TurnVerdict,
};
use task_executor::task::{TaskFailureKind, TaskRecord, TaskStatus, TurnFailureKind};
use task_executor::telemetry::{telemetry_for_timeout, TurnFailure, TurnTelemetry};

const PRINCIPLES: &str = "# Principles\nGP-01 one\nGP-02 two\nGP-03 three\nGP-04 four\nGP-05 five";

#[test]
fn exponential_backoff_three_consecutive_retries() {
    let base_ms: u64 = 10_000;
    let max_ms: u64 = 300_000;
    assert_eq!(compute_backoff_ms(base_ms, max_ms, 1), 10_000);
    assert_eq!(compute_backoff_ms(base_ms, max_ms, 2), 20_000);
    assert_eq!(compute_backoff_ms(base_ms, max_ms, 3), 40_000);
}

#[test]
fn exponential_backoff_capped_at_max() {
    let base_ms: u64 = 10_000;
    let max_ms: u64 = 300_000;
    assert_eq!(compute_backoff_ms(base_ms, max_ms, 6), 300_000);
}

#[test]
fn exponential_backoff_at_its_edges() {
    assert_eq!(compute_backoff_ms(10, 1_000, 0), 10);
    assert_eq!(compute_backoff_ms(1, u64::MAX, 64), 1 << 63);
    assert_eq!(compute_backoff_ms(1, u64::MAX, 65), u64::MAX);
    assert_eq!(compute_backoff_ms(1, u64::MAX, u32::MAX), u64::MAX);
    assert_eq!(compute_backoff_ms(0, u64::MAX, u32::MAX), 0);
    assert_eq!(compute_backoff_ms(3, u64::MAX, 64), u64::MAX);
    assert_eq!(compute_backoff_ms(500, 100, 1), 100);
    assert_eq!(compute_backoff_ms(0, 100, 9), 0);
}

#[test]
fn parse_implementation_outcome_prefers_plan_issue() {
    let output = "PLAN_ISSUE=Plan missed rollback path\nPR_URL=https://github.com/o/r/pull/123";
    let parsed = parse_implementation_outcome(output).expect("plan issue should parse");
    assert_eq!(
        parsed,
        ImplementationOutcome::PlanIssue("Plan missed rollback path".to_string())
    );
}

#[test]
fn parse_implementation_outcome_extracts_pr_when_no_plan_issue() {
    let output = "Done.\nPR_URL=https://github.com/majiayu000/harness/pull/42";
    let parsed = parse_implementation_outcome(output).expect("pr output should parse");
    assert_eq!(
        parsed,
        ImplementationOutcome::ParsedPr {
            pr_url: Some("https://github.com/majiayu000/harness/pull/42".to_string()),
            pr_num: Some(42),
            created_issue_num: None,
            pushed_commit: None,
            review_prep: None,
        }
    );
}

#[test]
fn parse_implementation_outcome_extracts_rebase_pushed() {
    let output = "Prepared.\nREBASE_PUSHED\nPR_URL=https://github.com/majiayu000/harness/pull/42";
    let parsed = parse_implementation_outcome(output).expect("rebase prep should parse");
    assert_eq!(
        parsed,
        ImplementationOutcome::ParsedPr {
            pr_url: Some("https://github.com/majiayu000/harness/pull/42".to_string()),
            pr_num: Some(42),
            created_issue_num: None,
            pushed_commit: None,
            review_prep: Some(PrReviewPrepOutcome::RebasePushed),
        }
    );
}

#[test]
fn parse_implementation_outcome_extracts_rebase_skipped() {
    let output = "Prepared.\nREBASE_SKIPPED\nPR_URL=https://github.com/majiayu000/harness/pull/42";
    let parsed = parse_implementation_outcome(output).expect("rebase prep should parse");
    assert_eq!(
        parsed,
        ImplementationOutcome::ParsedPr {
            pr_url: Some("https://github.com/majiayu000/harness/pull/42".to_string()),
            pr_num: Some(42),
            created_issue_num: None,
            pushed_commit: None,
            review_prep: Some(PrReviewPrepOutcome::RebaseSkipped),
        }
    );
}

#[test]
fn parse_implementation_outcome_extracts_rebase_conflict() {
    let output = "Prepared.\nREBASE_CONFLICT paths=src/lib.rs,src/main.rs\nPR_URL=https://github.com/majiayu000/harness/pull/42";
    let parsed = parse_implementation_outcome(output).expect("rebase prep should parse");
    assert_eq!(
        parsed,
        ImplementationOutcome::ParsedPr {
            pr_url: Some("https://github.com/majiayu000/harness/pull/42".to_string()),
            pr_num: Some(42),
            created_issue_num: None,
            pushed_commit: None,
            review_prep: Some(PrReviewPrepOutcome::RebaseConflict {
                paths: vec!["src/lib.rs".to_string(), "src/main.rs".to_string()],
            }),
        }
    );
}

#[test]
fn parse_implementation_outcome_extracts_pushed_commit_flag() {
    let output = "PR_URL=https://github.com/majiayu000/harness/pull/42\nPUSHED_COMMIT=true\nFIXED";
    let parsed = parse_implementation_outcome(output).expect("pushed flag should parse");
    assert_eq!(
        parsed,
        ImplementationOutcome::ParsedPr {
            pr_url: Some("https://github.com/majiayu000/harness/pull/42".to_string()),
            pr_num: Some(42),
            created_issue_num: None,
            pushed_commit: Some(true),
            review_prep: None,
        }
    );
}

#[test]
fn parse_implementation_outcome_rejects_malformed_pushed_commit_flag() {
    let output = "PR_URL=https://github.com/majiayu000/harness/pull/42\nPUSHED_COMMIT=maybe\nFIXED";
    assert_eq!(
        parse_implementation_outcome(output),
        Err("invalid PUSHED_COMMIT value `maybe`; expected true or false".to_string())
    );
}

#[test]
fn resolve_pushed_commit_flag_requires_marker_for_direct_pr_checks() {
    assert_eq!(resolve_pushed_commit_flag(true, Some(true), None), Ok(true));
    assert_eq!(resolve_pushed_commit_flag(false, None, None), Ok(false));
    assert_eq!(
        resolve_pushed_commit_flag(true, None, None),
        Err(
            "missing required PUSHED_COMMIT marker in PR-check output; refusing to skip freshness gate"
                .to_string()
        )
    );
}

#[test]
fn resolve_pushed_commit_flag_uses_rebase_prep_for_direct_pr_checks() {
    assert_eq!(
        resolve_pushed_commit_flag(true, None, Some(&PrReviewPrepOutcome::RebasePushed)),
        Ok(true)
    );
    assert_eq!(
        resolve_pushed_commit_flag(true, None, Some(&PrReviewPrepOutcome::RebaseSkipped)),
        Ok(false)
    );
}

#[test]
fn worktree_collision_sentinel_detected() {
    let collision_output =
        "Pushed. Now clean up the worktree (it's managed by another harness session so I'll skip removing it):\nPR_URL=https://github.com/owner/repo/pull/796";
    assert!(
        contains_worktree_collision_sentinel(collision_output),
        "sentinel should be detected in collision output"
    );
}

#[test]
fn worktree_collision_sentinel_absent_in_normal_output() {
    let normal_output = "Done.\nPR_URL=https://github.com/owner/repo/pull/42";
    assert!(
        !contains_worktree_collision_sentinel(normal_output),
        "sentinel should not be detected in normal output"
    );
}

#[test]
fn constitution_present_when_enabled() {
    let result = prepend_constitution(PRINCIPLES, "Do the task.".to_string(), true);
    assert!(result.contains("GP-01"));
    assert!(result.contains("GP-02"));
    assert!(result.contains("GP-03"));
    assert!(result.contains("GP-04"));
    assert!(result.contains("GP-05"));
    assert!(result.ends_with("Do the task."));
    assert_eq!(result, format!("{PRINCIPLES}\n\nDo the task."));
}

#[test]
fn constitution_stands_alike_before_every_prompt() {
    let empty = prepend_constitution(PRINCIPLES, String::new(), true);
    assert_eq!(empty, format!("{PRINCIPLES}\n\n"));
    for prompt in ["a", "GP-01", "\n\nlast"] {
        let with = prepend_constitution(PRINCIPLES, prompt.to_string(), true);
        assert_eq!(with, format!("{empty}{prompt}"));
        assert_eq!(prepend_constitution(PRINCIPLES, prompt.to_string(), false), prompt);
    }
}

#[test]
fn constitution_absent_when_disabled() {
    let result = prepend_constitution(PRINCIPLES, "Do the task.".to_string(), false);
    assert_eq!(result, "Do the task.");
    assert!(!result.contains("GP-01"));
}

#[test]
fn task_needs_pr_url_true_for_issue_task() {
    let req = CreateTaskRequest { issue: Some(42), ..CreateTaskRequest::default() };
    assert!(task_needs_pr_url(&req), "issue task must require PR_URL");
}

#[test]
fn task_needs_pr_url_true_for_pr_task() {
    let req = CreateTaskRequest { pr: Some(99), ..CreateTaskRequest::default() };
    assert!(task_needs_pr_url(&req), "pr:N task must require PR_URL");
}

#[test]
fn task_needs_pr_url_false_for_prompt_only_task() {
    let req = CreateTaskRequest::default();
    assert!(
        !task_needs_pr_url(&req),
        "prompt-only task must not require PR_URL (Done is correct)"
    );
}

#[test]
fn task_kind_follows_the_request() {
    let mut req = CreateTaskRequest::default();
    assert_eq!(req.task_kind(), TaskKind::Prompt);
    req.source = Some("periodic_review".to_string());
    assert_eq!(req.task_kind(), TaskKind::Review);
    req.source = Some("sprint_planner".to_string());
    assert_eq!(req.task_kind(), TaskKind::Planner);
    req.pr = Some(1);
    assert_eq!(req.task_kind(), TaskKind::Pr);
    req.issue = Some(2);
    assert_eq!(req.task_kind(), TaskKind::Issue);
    assert_eq!(req.task_kind().as_str(), "issue");
}

fn task_with_prompt_settings(description: &str, settings: PersistedRequestSettings) -> StoredTask {
    StoredTask {
        issue: None,
        pr: None,
        description: Some(description.to_string()),
        request_settings: Some(settings),
    }
}

#[test]
fn legacy_manual_prompt_only_tasks_still_skip_prompt_persistence() {
    let task = task_with_prompt_settings("prompt task", PersistedRequestSettings::default());
    assert!(
        should_skip_prompt_persistence(Some(&task)),
        "legacy manual prompt-only tasks must not persist prompt text"
    );
}

#[test]
fn restart_bundle_keeps_system_prompt_tasks_persistable_without_origin_flag() {
    let task = task_with_prompt_settings(
        "prompt task",
        PersistedRequestSettings {
            system_prompt_restart_bundle: Some("since 2026-04-20T00:00:00Z".to_string()),
        },
    );
    assert!(
        !should_skip_prompt_persistence(Some(&task)),
        "restart bundles must keep system-generated prompt tasks eligible for prompt persistence"
    );
}

#[test]
fn only_a_known_prompt_is_a_prompt() {
    assert!(!is_prompt_only_task(None));
    let mut task = task_with_prompt_settings("x", PersistedRequestSettings::default());
    task.request_settings = None;
    assert!(is_prompt_only_task(Some(&task)));
    task.issue = Some(3);
    assert!(!is_prompt_only_task(Some(&task)));
}

#[test]
fn markers_take_the_last_line() {
    assert_eq!(
        parse_pr_url("PR_URL=https://github.com/o/r/pull/1\n  PR_URL= https://github.com/o/r/pull/2 \n"),
        Some("https://github.com/o/r/pull/2".to_string())
    );
    assert_eq!(parse_pr_url("see PR_URL=https://github.com/o/r/pull/1"), None);
    assert_eq!(parse_pr_url("PR_URL=\n"), None);
    assert_eq!(parse_created_issue_number("CREATED_ISSUE=10\nCREATED_ISSUE=20\n"), Some(20));
    assert_eq!(parse_created_issue_number("CREATED_ISSUE=10\nCREATED_ISSUE=soon\n"), Some(10));
    assert_eq!(parse_created_issue_number("CREATED_ISSUE=18446744073709551615"), Some(u64::MAX));
    assert_eq!(parse_created_issue_number("CREATED_ISSUE=18446744073709551616"), None);
    assert_eq!(
        parse_pr_review_prep_outcome("REBASE_SKIPPED\nREBASE_CONFLICT paths=a.rs, b.rs,,\n"),
        Some(PrReviewPrepOutcome::RebaseConflict {
            paths: vec!["a.rs".to_string(), "b.rs".to_string()],
        })
    );
    assert_eq!(parse_pr_review_prep_outcome("REBASE_CONFLICT"), None);
}

#[test]
fn pr_numbers_are_read_from_addresses() {
    assert_eq!(extract_pr_number("https://github.com/o/r/pull/42"), Some(42));
    assert_eq!(extract_pr_number("https://github.com/o/r/pull/42/files?w=1"), Some(42));
    assert_eq!(extract_pr_number("https://github.com/o/r/pull/42#issue"), Some(42));
    assert_eq!(extract_pr_number("https://github.com/o/r/pull/42x"), None);
    assert_eq!(extract_pr_number("https://github.com/o/r/pull/"), None);
    assert_eq!(extract_pr_number("https://github.com/o/r/issues/42"), None);
}

fn telemetry() -> TurnTelemetry {
    let at = |secs| Timestamp::new(secs, 0).unwrap();
    telemetry_for_timeout(at(0), at(1), at(3), Some(1))
}

fn plain_task() -> ImplementedTask {
    ImplementedTask {
        issue: None,
        pr: None,
        source: None,
        external_id: None,
        plan_output: None,
    }
}

fn applied(task: &ImplementedTask, output: &str) -> (ImplementEnd, TaskRecord) {
    let processed = process_implementation_output(task, output, telemetry());
    let mut record = TaskRecord::new();
    record.apply(processed.change);
    (processed.end, record)
}

#[test]
fn issue_task_nonempty_output_no_pr_url_marks_failed() {
    let task = ImplementedTask { issue: Some(42), ..plain_task() };
    let (end, record) = applied(&task, "nothing to change");
    assert!(matches!(end, ImplementEnd::Done));
    assert_eq!(record.status, TaskStatus::Failed);
    assert_eq!(record.turn, 2);
    assert_eq!(
        record.error.as_deref(),
        Some("no PR number found in agent output; task requires PR_URL")
    );
    assert_eq!(record.rounds[0].result, "no_pr");
}

#[test]
fn pr_task_nonempty_output_no_pr_url_marks_failed() {
    let task = ImplementedTask { pr: Some(42), ..plain_task() };
    let (end, record) =
        applied(&task, "REBASE_SKIPPED\nPUSHED_COMMIT=false\nnothing to change");
    assert!(matches!(end, ImplementEnd::Done));
    assert_eq!(
        record.status,
        TaskStatus::Failed,
        "pr:N task with non-empty output but no PR_URL must be Failed, not Done"
    );
    assert_eq!(record.turn, 2);
    assert!(
        record.error.as_deref().unwrap_or("").contains("PR_URL"),
        "error must mention PR_URL: {:?}",
        record.error
    );
}

#[test]
fn prompt_only_nonempty_output_no_pr_stays_done() {
    let (end, record) = applied(&plain_task(), "periodic review complete: no issues found");
    assert!(matches!(end, ImplementEnd::Done));
    assert_eq!(record.status, TaskStatus::Done);
    assert_eq!(record.error, None);
}

#[test]
fn empty_output_fails_even_a_prompt() {
    let (_, record) = applied(&plain_task(), " \n");
    assert_eq!(record.status, TaskStatus::Failed);
    assert_eq!(
        record.error.as_deref(),
        Some("empty agent output: no PR created and no output")
    );
}

#[test]
fn pull_request_goes_to_review_with_checkpoint_and_binding() {
    let task = ImplementedTask { issue: Some(7), ..plain_task() };
    let processed =
        process_implementation_output(&task, "ok\nPR_URL=https://github.com/o/r/pull/12\n", telemetry());
    match processed.end {
        ImplementEnd::Proceed { pr_url, pr_num, pushed_commit, review_prep } => {
            assert_eq!(pr_url.as_deref(), Some("https://github.com/o/r/pull/12"));
            assert_eq!(pr_num, 12);
            assert!(!pushed_commit);
            assert!(review_prep.is_none());
        }
        other => panic!("unexpected end {other:?}"),
    }
    let checkpoint = processed.checkpoint.expect("checkpoint");
    assert_eq!(checkpoint.pr_url, "https://github.com/o/r/pull/12");
    assert_eq!(checkpoint.phase, "pr_created");
    let binding = processed.binding.expect("binding");
    assert_eq!((binding.issue, binding.pr_num), (7, 12));
    assert_eq!(processed.log.len(), 1);
    assert!(matches!(&processed.log[0], LogEntry::PrDetected { pr_url } if pr_url.ends_with("/12")));
    let event = processed.event.expect("event");
    assert_eq!(event.mark.telemetry, Some(telemetry()));
    assert!(event.mark.failure.is_none());
    assert_eq!(processed.change.rounds[0].mark.telemetry, Some(telemetry()));
    assert_eq!(event.decision, Decision::Complete);
    assert_eq!(event.detail.as_deref(), Some("pr=12"));
}

#[test]
fn collision_fails_and_keeps_the_address_for_cleanup() {
    let task = ImplementedTask { issue: Some(7), ..plain_task() };
    let output = "it is managed by another harness session\nPR_URL=https://github.com/o/r/pull/3";
    let (end, record) = applied(&task, output);
    assert!(matches!(end, ImplementEnd::Done));
    assert_eq!(record.status, TaskStatus::Failed);
    assert_eq!(record.failure_kind, Some(TaskFailureKind::WorkspaceLifecycle));
    assert_eq!(record.pr_url.as_deref(), Some("https://github.com/o/r/pull/3"));
    assert_eq!(record.rounds[0].result, "worktree_collision");
}

#[test]
fn plan_issue_replans_an_issue_and_fails_a_prompt() {
    let task = ImplementedTask {
        issue: Some(7),
        plan_output: Some("old plan".to_string()),
        ..plain_task()
    };
    let (end, record) = applied(&task, "PLAN_ISSUE=missing step");
    match end {
        ImplementEnd::Replan { issue, plan_issue, prior_plan } => {
            assert_eq!(issue, 7);
            assert_eq!(plan_issue, "missing step");
            assert_eq!(prior_plan.as_deref(), Some("old plan"));
        }
        other => panic!("unexpected end {other:?}"),
    }
    assert_eq!(record.status, TaskStatus::Pending);
    assert!(record.rounds.is_empty());
    let (end, record) = applied(&plain_task(), "PLAN_ISSUE=missing step");
    assert!(matches!(end, ImplementEnd::Done));
    assert_eq!(record.status, TaskStatus::Failed);
    assert_eq!(record.error.as_deref(), Some("missing step"));
    assert_eq!(record.rounds[0].result, "plan_issue");
}

#[test]
fn malformed_marker_fails_the_task() {
    let (_, record) = applied(&plain_task(), "PUSHED_COMMIT=perhaps");
    assert_eq!(record.status, TaskStatus::Failed);
    assert_eq!(
        record.error.as_deref(),
        Some("implementation returned malformed structured output: invalid PUSHED_COMMIT value `perhaps`; expected true or false")
    );
    assert_eq!(record.rounds[0].result, "malformed_output");
}

#[test]
fn pull_request_task_has_to_report_its_rebase() {
    let task = ImplementedTask { pr: Some(5), ..plain_task() };
    let processed = process_implementation_output(
        &task,
        "PR_URL=https://github.com/o/r/pull/5\nPUSHED_COMMIT=true",
        telemetry(),
    );
    assert!(matches!(&processed.log[0], LogEntry::Failed { reason } if reason == "missing_rebase_outcome"));
    let mut record = TaskRecord::new();
    record.apply(processed.change);
    assert_eq!(
        record.error.as_deref(),
        Some("PR #5 preparation produced no rebase outcome sentinel")
    );
    let (end, record) =
        applied(&task, "REBASE_PUSHED\nPR_URL=https://github.com/o/r/pull/5");
    assert!(matches!(end, ImplementEnd::Proceed { pr_num: 5, pushed_commit: true, .. }));
    assert_eq!(record.rounds[0].result, "rebase_pushed");
}

#[test]
fn report_task_is_done_with_its_output() {
    let planner = ImplementedTask { source: Some("sprint_planner".to_string()), ..plain_task() };
    assert_eq!(applied(&planner, "report").1.rounds[0].action, "review");
    let task = ImplementedTask { source: Some("periodic_review".to_string()), ..plain_task() };
    let (end, record) = applied(&task, "report");
    assert!(matches!(end, ImplementEnd::Done));
    assert_eq!(record.status, TaskStatus::Done);
    assert_eq!(record.turn, 1);
    assert_eq!(record.rounds[0].action, "review");
    assert_eq!(record.rounds[0].detail.as_deref(), Some("report"));
}

#[test]
fn created_issue_names_an_auto_fix_task() {
    let mut task = ImplementedTask { source: Some("auto-fix".to_string()), ..plain_task() };
    let id = |t: &ImplementedTask| {
        process_implementation_output(t, "CREATED_ISSUE=20", telemetry()).external_id
    };
    assert_eq!(id(&task).as_deref(), Some("issue:20"));
    task.external_id = Some("issue:10".to_string());
    assert_eq!(id(&task).as_deref(), Some("issue:20"));
    task.external_id = Some("issue:20".to_string());
    assert_eq!(id(&task), None);
    task.source = Some("github".to_string());
    task.external_id = None;
    assert_eq!(id(&task), None);
}

#[test]
fn every_failure_has_its_word() {
    let words = [
        (TurnFailureKind::Timeout, "timeout"),
        (TurnFailureKind::Quota, "quota_exhausted"),
        (TurnFailureKind::Billing, "billing_failed"),
        (TurnFailureKind::Upstream, "upstream_failure"),
        (TurnFailureKind::LocalProcess, "local_process_failure"),
        (TurnFailureKind::Protocol, "protocol_failure"),
        (TurnFailureKind::Unknown, "failed"),
    ];
    for (kind, word) in words {
        assert_eq!(implementation_failure_result(kind), word);
        let failure = TurnFailure::plain(kind, Some("other".to_string()), "gone");
        let report = report_fault(TurnFault::Failed { failure }, "codex", telemetry());
        assert_eq!(report.change.rounds[0].result, word);
        assert_eq!(report.event.reason.as_deref(), Some("implementation failed"));
        for mark in [&report.change.rounds[0].mark, &report.event.mark] {
            assert_eq!(mark.telemetry, Some(telemetry()));
            let told = mark.failure.as_ref().unwrap();
            assert_eq!(told.kind, kind);
            assert_eq!(told.provider.as_deref(), Some("other"));
            assert_eq!(told.message.as_deref(), Some("gone"));
        }
    }
    let rejected = TurnFault::Rejected { output: "x".to_string(), error: "bad".to_string() };
    let rejected = report_fault(rejected, "codex", telemetry());
    assert_eq!(rejected.change.rounds[0].result, "protocol_failure");
    assert_eq!(rejected.change.rounds[0].detail.as_deref(), Some("x"));
    let told = rejected.event.mark.failure.as_ref().unwrap();
    assert_eq!(told.kind, TurnFailureKind::Protocol);
    assert_eq!(told.provider.as_deref(), Some("codex"));
    assert_eq!(told.message.as_deref(), Some("bad"));
    let late = report_fault(TurnFault::TimedOut { secs: 60 }, "codex", telemetry());
    assert_eq!(late.change.rounds[0].result, "timeout");
    let told = late.change.rounds[0].mark.failure.as_ref().unwrap();
    assert_eq!(told.kind, TurnFailureKind::Timeout);
    assert_eq!(told.message.as_deref(), Some("Implementation turn timed out after 60s"));
    assert_eq!(timeout_error(60), "Implementation turn timed out after 60s");
}

#[test]
fn error_stream_is_searched_too() {
    assert_eq!(combined_output("out".to_string(), ""), "out");
    assert_eq!(combined_output("out".to_string(), "err"), "out\n--- stderr ---\nerr");
}

#[test]
fn checked_turn_retries_and_gives_up() {
    let policy = RetryPolicy {
        max_retries: 1,
        base_backoff_ms: 10,
        max_backoff_ms: 100,
        max_turns: Some(2),
    };
    let mut turn = CheckedTurn::new(policy, 0);
    assert_eq!(turn.begin(), None);
    turn.took_turn();
    match turn.judge("first", Some("bad".to_string())) {
        TurnVerdict::Retry { prompt, backoff_ms } => {
            assert_eq!(prompt, "first\n\nPost-execution validation failed (attempt 1/1):\nbad");
            assert_eq!(backoff_ms, 10);
        }
        other => panic!("unexpected {other:?}"),
    }
    assert_eq!(turn.begin(), None);
    turn.took_turn();
    match turn.judge("first", Some("worse".to_string())) {
        TurnVerdict::GiveUp { error, cause } => {
            assert_eq!(error, "Post-execution validation failed after 1 attempts: worse");
            assert_eq!(cause, "worse");
        }
        other => panic!("unexpected {other:?}"),
    }
    assert_eq!(
        turn.begin().as_deref(),
        Some("Turn budget exhausted: used 2 of 2 allowed turns")
    );
    assert!(matches!(turn.judge("first", None), TurnVerdict::Accept));
}

#[test]
fn retries_follow_the_most_patient_interceptor() {
    assert_eq!(max_validation_retries(&vec![]), 2);
    assert_eq!(max_validation_retries(&vec![None, None]), 2);
    assert_eq!(max_validation_retries(&vec![Some(0), None, Some(5), Some(3)]), 5);
    assert_eq!(max_validation_retries(&vec![Some(0)]), 0);
}

#[test]
fn wrong_tool_comes_before_other_errors() {
    let tools = vec!["Read".to_string(), "Bash".to_string()];
    assert_eq!(tool_violation(&vec![], &tools), None);
    let violation = tool_violation(&vec!["Write".to_string()], &tools);
    assert_eq!(
        violation.as_deref(),
        Some("[VALIDATION ERROR] Tool isolation violation: agent used disallowed tools: [Write]. Only [Read, Bash] are permitted.")
    );
    let hook = Some("hook".to_string());
    let post = Some("post".to_string());
    assert_eq!(first_error(violation.clone(), hook.clone(), post.clone()), violation);
    assert_eq!(first_error(None, hook.clone(), post.clone()), hook);
    assert_eq!(first_error(None, None, post.clone()), post);
    assert_eq!(first_error(None, None, None), None);
}
