use task_executor::agent_review::{
    failed_turn_event, failure_change, failure_event, fix_record, review_tools,
    reviewer_sandbox_override, tool_violation_error, turn_failed, turn_timed_out, verdict_event,
    verdict_record, AgentReview, ReviewEnd, ReviewFailure, ReviewStep, ReviewTurn, SandboxMode,
};
use task_executor::clock::Timestamp;
use task_executor::events::Decision;
use task_executor::issues::{jaccard_word_overlap, normalize_issues, ImpasseTracker};
use task_executor::markers::parse_pushed_commit;
use task_executor::snapshot::{EntryFingerprint, ScannedEntry, WorkspaceSnapshot};
use task_executor::task::{TaskStatus, TurnFailureKind};
use task_executor::telemetry::{telemetry_for_timeout, TurnFailure, TurnMark, TurnTelemetry};

fn telemetry() -> TurnTelemetry {
    let at = |secs| Timestamp::new(secs, 0).unwrap();
    telemetry_for_timeout(at(0), at(1), at(3), Some(1))
}

fn list(items: &[&str]) -> Vec<String> {
    items.iter().map(|item| item.to_string()).collect()
}

fn step_tracker(tracker: &mut ImpasseTracker, issues: &[String]) -> (u32, bool, bool) {
    let state = tracker.observe(issues);
    (state.count, state.intervention, state.fatal)
}

fn jaccard_word_similarity(a: &str, b: &str) -> f64 {
    let overlap = jaccard_word_overlap(a, b);
    if overlap.total == 0 {
        1.0
    } else {
        overlap.common as f64 / overlap.total as f64
    }
}

#[test]
fn normalize_issues_is_order_invariant() {
    let ordered = vec!["issue A".to_string(), "issue B".to_string()];
    let reversed = vec!["issue B".to_string(), "issue A".to_string()];
    assert_eq!(normalize_issues(&ordered), normalize_issues(&reversed));
}

#[test]
fn normalize_issues_sorts_and_keeps_repetitions() {
    assert_eq!(normalize_issues(&list(&["b", "a", "b", "B"])), list(&["B", "a", "b", "b"]));
    assert!(normalize_issues(&[]).is_empty());
}

#[test]
fn impasse_no_intervention_for_first_two_rounds() {
    let issues = vec!["null pointer".to_string()];
    let mut tracker = ImpasseTracker::new();
    let (c1, i1, f1) = step_tracker(&mut tracker, &issues);
    let (c2, i2, f2) = step_tracker(&mut tracker, &issues);
    assert_eq!(c1, 1);
    assert!(!i1 && !f1, "no action on first occurrence");
    assert_eq!(c2, 2);
    assert!(!i2 && !f2, "no action on second occurrence");
}

#[test]
fn impasse_intervention_at_third_consecutive_round() {
    let issues = vec!["null pointer".to_string()];
    let mut tracker = ImpasseTracker::new();
    step_tracker(&mut tracker, &issues);
    step_tracker(&mut tracker, &issues);
    let (c3, i3, f3) = step_tracker(&mut tracker, &issues);
    assert_eq!(c3, 3);
    assert!(i3, "intervention at 3rd consecutive round");
    assert!(!f3, "not yet fatal at round 3");
}

#[test]
fn impasse_fatal_at_fifth_consecutive_round() {
    let issues = vec!["null pointer".to_string()];
    let mut tracker = ImpasseTracker::new();
    for _ in 0..4 {
        step_tracker(&mut tracker, &issues);
    }
    let (c5, i5, f5) = step_tracker(&mut tracker, &issues);
    assert_eq!(c5, 5);
    assert!(i5, "intervention still active at round 5");
    assert!(f5, "fatal at 5th consecutive round");
}

#[test]
fn impasse_counter_resets_when_issues_change() {
    let issues = vec!["null pointer".to_string()];
    let other = vec!["different bug".to_string()];
    let mut tracker = ImpasseTracker::new();
    step_tracker(&mut tracker, &issues);
    step_tracker(&mut tracker, &issues);
    step_tracker(&mut tracker, &issues);
    let (c_reset, i_reset, _) = step_tracker(&mut tracker, &other);
    assert_eq!(c_reset, 1, "counter resets on different issues");
    assert!(!i_reset, "no intervention after reset");
}

#[test]
fn jaccard_identical_strings() {
    assert_eq!(jaccard_word_similarity("hello world", "hello world"), 1.0);
}

#[test]
fn jaccard_disjoint_strings() {
    assert_eq!(jaccard_word_similarity("foo bar", "baz qux"), 0.0);
}

#[test]
fn jaccard_partial_overlap() {
    let score = jaccard_word_similarity("a b", "b c");
    let expected = 1.0_f64 / 3.0_f64;
    assert!((score - expected).abs() < 1e-10, "expected ~{expected}, got {score}");
}

#[test]
fn jaccard_one_empty() {
    assert_eq!(jaccard_word_similarity("", "hello world"), 0.0);
    assert_eq!(jaccard_word_similarity("hello world", ""), 0.0);
}

#[test]
fn jaccard_both_empty() {
    assert_eq!(jaccard_word_similarity("", ""), 1.0);
}

#[test]
fn jaccard_counts_each_word_once() {
    let overlap = jaccard_word_overlap("a\u{a0}a\tb", " b\nc a ");
    assert_eq!((overlap.common, overlap.total), (2, 3));
    assert_eq!(overlap, jaccard_word_overlap(" b\nc a ", "a\u{a0}a\tb"));
}

#[test]
fn only_the_agent_with_its_own_sandbox_keeps_it() {
    assert_eq!(
        reviewer_sandbox_override("codex", "boxed"),
        Some(SandboxMode::ReadOnlyWithNetwork)
    );
    assert_eq!(reviewer_sandbox_override("BoXed", "boxed"), None);
}

#[test]
fn reviewing_agent_may_not_write() {
    assert_eq!(review_tools(), list(&["Read", "Grep", "Glob", "Bash"]));
}

#[test]
fn approval_ends_the_review() {
    let (mut review, step) = AgentReview::start(2, None, 5);
    assert_eq!(step, ReviewStep::Review { round: 1 });
    assert_eq!(review.take_turn(ReviewTurn::Review), Ok(()));
    assert_eq!(
        review.verdict(true, vec![]),
        ReviewStep::End(ReviewEnd { approved: true, fix_pushed: false, failure: None })
    );
    assert_eq!(review.turns_used(), 6);
}

#[test]
fn unresolved_issues_after_max_rounds_fail_local_review() {
    let (mut review, _) = AgentReview::start(1, None, 0);
    let end = review.verdict(false, list(&["missing test"]));
    assert_eq!(
        end,
        ReviewStep::End(ReviewEnd {
            approved: false,
            fix_pushed: false,
            failure: Some(ReviewFailure::Exhausted { rounds: 1 }),
        })
    );
    let change = failure_change(ReviewFailure::Exhausted { rounds: 1 });
    assert_eq!(change.status, Some(TaskStatus::Failed));
    assert_eq!(
        change.error.as_deref(),
        Some("Agent review exhausted 1 rounds without approval.")
    );
}

#[test]
fn changed_fix_round_requires_pr_head_advance() {
    let (mut review, _) = AgentReview::start(3, None, 0);
    assert_eq!(
        review.verdict(false, list(&["one"])),
        ReviewStep::Fix { round: 1, intervention: false }
    );
    assert_eq!(review.fixed(true, Some(true)), ReviewStep::Review { round: 2 });
    assert_eq!(
        review.verdict(true, vec![]),
        ReviewStep::End(ReviewEnd { approved: true, fix_pushed: true, failure: None })
    );
}

#[test]
fn final_impasse_round_does_not_push_unreviewed_fix() {
    let (mut review, _) = AgentReview::start(3, None, 0);
    for round in 1..3 {
        assert_eq!(review.take_turn(ReviewTurn::Review), Ok(()));
        assert_eq!(
            review.verdict(false, list(&["defect"])),
            ReviewStep::Fix { round, intervention: false }
        );
        assert_eq!(review.take_turn(ReviewTurn::Fix), Ok(()));
        assert_eq!(review.fixed(false, Some(true)), ReviewStep::Review { round: round + 1 });
    }
    assert_eq!(review.take_turn(ReviewTurn::Review), Ok(()));
    assert_eq!(
        review.verdict(false, list(&["defect"])),
        ReviewStep::End(ReviewEnd {
            approved: false,
            fix_pushed: true,
            failure: Some(ReviewFailure::Exhausted { rounds: 3 }),
        })
    );
    assert_eq!(review.turns_used(), 5, "expected review/fix/review/fix/review");
}

#[test]
fn issues_that_come_back_five_times_fail_the_review() {
    let (mut review, _) = AgentReview::start(9, None, 0);
    for round in 1..5 {
        assert_eq!(
            review.verdict(false, list(&["same"])),
            ReviewStep::Fix { round, intervention: round >= 3 }
        );
        assert_eq!(review.fixed(false, Some(false)), ReviewStep::Review { round: round + 1 });
    }
    assert_eq!(
        review.verdict(false, list(&["same"])),
        ReviewStep::End(ReviewEnd {
            approved: false,
            fix_pushed: false,
            failure: Some(ReviewFailure::Impasse { count: 5 }),
        })
    );
    assert_eq!(
        failure_change(ReviewFailure::Impasse { count: 5 }).error.as_deref(),
        Some("Impasse detected: identical issues repeated 5 consecutive rounds.")
    );
}

#[test]
fn changed_fix_round_rejects_false_noop_marker() {
    let (mut review, _) = AgentReview::start(2, None, 0);
    review.verdict(false, list(&["one"]));
    assert_eq!(
        review.fixed(true, Some(false)),
        ReviewStep::End(ReviewEnd {
            approved: false,
            fix_pushed: false,
            failure: Some(ReviewFailure::FalseNoop { round: 1 }),
        })
    );
    assert_eq!(
        failure_change(ReviewFailure::FalseNoop { round: 1 }).error.as_deref(),
        Some("Agent review fix round 1 changed the workspace but reported PUSHED_COMMIT=false.")
    );
}

/// A fix round that reports no commit, and a file that is there after it.
fn noop_fix_round(written: &str) -> (AgentReview, ReviewStep) {
    let file = |path: &str| ScannedEntry {
        path: path.to_string(),
        print: Some(EntryFingerprint::File { len: 1, hash: 1, mode: 0o644 }),
    };
    let snapshot = WorkspaceSnapshot::capture("/project", &vec![file("/project/a.rs")]).unwrap();
    let after = vec![file("/project/a.rs"), file(written)];
    let changed = snapshot.changed_since("/project", &after).unwrap();
    let output =
        "no source changes\nPR_URL=https://github.com/owner/repo/pull/1\nPUSHED_COMMIT=false";
    let (mut review, _) = AgentReview::start(2, None, 0);
    assert_eq!(review.take_turn(ReviewTurn::Review), Ok(()));
    review.verdict(false, list(&["defect"]));
    assert_eq!(review.take_turn(ReviewTurn::Fix), Ok(()));
    let step = review.fixed(changed, parse_pushed_commit(output).unwrap());
    (review, step)
}

#[test]
fn noop_fix_round_ignores_validation_cache_artifacts() {
    let (mut review, step) = noop_fix_round("/project/.pytest_cache/nodeids");
    assert_eq!(step, ReviewStep::Review { round: 2 });
    assert_eq!(review.take_turn(ReviewTurn::Review), Ok(()));
    assert_eq!(
        review.verdict(true, vec![]),
        ReviewStep::End(ReviewEnd { approved: true, fix_pushed: false, failure: None }),
        "post-execute cache artifacts must not force PR-head advancement for no-op fixes"
    );
}

#[test]
fn noop_fix_round_rejects_validation_source_artifacts() {
    let (_, step) = noop_fix_round("/project/src/formatted.rs");
    let failure = ReviewFailure::FalseNoop { round: 1 };
    assert_eq!(
        step,
        ReviewStep::End(ReviewEnd { approved: false, fix_pushed: false, failure: Some(failure) })
    );
    let change = failure_change(failure);
    assert_eq!(change.status, Some(TaskStatus::Failed));
    assert!(change
        .error
        .as_deref()
        .unwrap_or_default()
        .contains("changed the workspace but reported PUSHED_COMMIT=false"));
}

#[test]
fn malformed_reviewer_output_fails_local_review() {
    let (mut review, _) = AgentReview::start(2, None, 0);
    assert_eq!(
        review.verdict(false, vec![]),
        ReviewStep::End(ReviewEnd {
            approved: false,
            fix_pushed: false,
            failure: Some(ReviewFailure::Protocol { round: 1 }),
        })
    );
    assert!(failure_change(ReviewFailure::Protocol { round: 1 })
        .error
        .unwrap()
        .contains("neither APPROVED nor ISSUE"));
}

#[test]
fn review_without_rounds_fails_at_once() {
    let (_, step) = AgentReview::start(0, None, 0);
    assert_eq!(
        step,
        ReviewStep::End(ReviewEnd {
            approved: false,
            fix_pushed: false,
            failure: Some(ReviewFailure::NoRounds),
        })
    );
    assert_eq!(
        failure_change(ReviewFailure::NoRounds).error.as_deref(),
        Some("Agent review is enabled but max_rounds is 0.")
    );
}

#[test]
fn review_turns_count_against_the_budget() {
    let (mut review, _) = AgentReview::start(2, Some(1), 0);
    assert_eq!(review.take_turn(ReviewTurn::Review), Ok(()));
    let error = review.take_turn(ReviewTurn::Fix).unwrap_err();
    assert_eq!(
        error,
        "Turn budget exhausted before agent review fix round 1: used 1 of 1 allowed turns"
    );
    assert_eq!(review.turns_used(), 1);
}

#[test]
fn failed_review_turns_are_recorded() {
    let upstream = TurnFailure::plain(TurnFailureKind::Upstream, None, "bad gateway");
    let failed = turn_failed(ReviewTurn::Review, &upstream, "boom", telemetry());
    assert!(failed.propagate);
    let mark = &failed.change.rounds[0].mark;
    assert_eq!(mark.telemetry, Some(telemetry()));
    assert_eq!(mark.failure.as_ref().unwrap().message.as_deref(), Some("bad gateway"));
    assert_eq!(failed.change.rounds.len(), 1);
    assert_eq!(failed.change.rounds[0].result, "failed");
    let limit = TurnFailure::plain(TurnFailureKind::Quota, None, "limit");
    let quota = turn_failed(ReviewTurn::Review, &limit, "boom", telemetry());
    assert!(!quota.propagate);
    assert_eq!(quota.change.status, Some(TaskStatus::Failed));
    assert_eq!(quota.change.error.as_deref(), Some("boom"));
    assert_eq!(quota.change.rounds[0].result, "quota_exhausted");
    assert!(turn_failed(ReviewTurn::Fix, &limit, "boom", telemetry()).propagate);
    let (change, error, mark) =
        turn_timed_out(ReviewTurn::Review, 2, 30, "codex", telemetry());
    assert_eq!(change.rounds[0].result, "timeout");
    let told = mark.failure.as_ref().unwrap();
    assert_eq!(told.kind, TurnFailureKind::Timeout);
    assert_eq!(told.provider.as_deref(), Some("codex"));
    assert_eq!(told.message.as_deref(), Some("Agent review round 2 timed out after 30s"));
    assert_eq!(change.rounds[0].mark.telemetry, Some(telemetry()));
    let noted = failed_turn_event(true, "judge", "u", mark);
    assert_eq!(noted.mark.failure.unwrap().kind, TurnFailureKind::Timeout);
    assert_eq!(error, "Agent review round 2 timed out after 30s");
    let violation = tool_violation_error(1, &list(&["Write", "Edit"]));
    assert_eq!(
        violation,
        "Tool isolation violation in agent review round 1: agent used disallowed tools: [Write, Edit]"
    );
}

#[test]
fn review_verdicts_are_recorded() {
    let approved = verdict_record(true, 0, "fine".to_string(), telemetry());
    assert_eq!(approved.rounds[0].result, "approved");
    let objected = verdict_record(false, 2, "no".to_string(), telemetry());
    assert_eq!(objected.rounds[0].result, "2 issues");
    assert_eq!(objected.rounds[0].mark.telemetry, Some(telemetry()));
}

#[test]
fn reviews_are_noted() {
    let event = verdict_event(2, true, 0, "u", "out".to_string(), telemetry());
    assert_eq!(event.hook, "agent_review");
    assert_eq!(event.turn, Some(0));
    assert_eq!(event.decision, Decision::Complete);
    assert_eq!(event.reason.as_deref(), Some("round 2: approved"));
    assert_eq!(event.detail.as_deref(), Some("pr=u"));
    let event = verdict_event(2, false, 3, "u", "out".to_string(), telemetry());
    assert_eq!(event.decision, Decision::Warn);
    assert_eq!(event.reason.as_deref(), Some("round 2: 3 issues"));
    let late = failed_turn_event(true, "judge", "u", TurnMark::none());
    assert_eq!(late.decision, Decision::Block);
    assert_eq!(late.reason.as_deref(), Some("agent judge timed out"));
    let lost = failed_turn_event(false, "judge", "u", TurnMark::none());
    assert_eq!(lost.reason.as_deref(), Some("agent judge failed"));
    assert!(failure_event(ReviewFailure::Impasse { count: 5 }, "u", None).is_none());
    let event =
        failure_event(ReviewFailure::Protocol { round: 2 }, "u", Some("out".to_string())).unwrap();
    assert_eq!(event.turn, Some(2));
    assert_eq!(event.content.as_deref(), Some("out"));
    assert_eq!(
        event.reason.as_deref(),
        Some("Agent review round 2 returned neither APPROVED nor ISSUE lines.")
    );
    assert_eq!(fix_record(telemetry()).rounds[0].result, "fixed");
}
