use task_executor::clock::Timestamp;
use task_executor::events::Decision;
use task_executor::gates::{
    end_conflict_gate, fail_rebase_conflict, gate_turn, gate_without_turn,
    parse_conflict_check_output, review_entry_decision, review_prep_from_checkpoint_phase,
    review_prep_from_rounds, review_prep_label, ConflictCheckOutcome, ConflictGateOutcome,
    GateTurn, ReviewEntryDecision, MANUAL_RESOLUTION_REQUIRED,
};
use task_executor::markers::PrReviewPrepOutcome;
use task_executor::outcome::LogEntry;
use task_executor::task::{RoundResult, TaskRecord, TaskStatus, TurnFailureKind};
use task_executor::telemetry::{telemetry_for_timeout, TurnFailure, TurnTelemetry};

#[test]
fn parses_clean_pr_token() {
    let result = parse_conflict_check_output("inspected mergeability\nCLEAN_PR");
    assert_eq!(result, Ok(ConflictCheckOutcome::CleanPr));
}

#[test]
fn parses_rebase_pushed_token() {
    let result = parse_conflict_check_output("rebased and pushed\nREBASE_PUSHED");
    assert_eq!(result, Ok(ConflictCheckOutcome::RebasePushed));
}

#[test]
fn rejects_malformed_last_line() {
    let result = parse_conflict_check_output("MANUAL_RESOLUTION_REQUIRED\nextra trailing output");
    assert_eq!(
        result,
        Err("unexpected conflict gate terminal token `extra trailing output`".to_string())
    );
}

#[test]
fn last_line_counts_without_its_white_space() {
    assert_eq!(
        parse_conflict_check_output("CLEAN_PR\r\n  MANUAL_RESOLUTION_REQUIRED \n\n \t\n"),
        Ok(ConflictCheckOutcome::ManualResolutionRequired)
    );
    assert_eq!(
        parse_conflict_check_output(" \n\t\n"),
        Err("missing terminal conflict gate token".to_string())
    );
    assert_eq!(
        parse_conflict_check_output(""),
        Err("missing terminal conflict gate token".to_string())
    );
}

#[test]
fn review_entry_decision_blocks_review_on_rebase_conflict() {
    assert_eq!(
        review_entry_decision(
            42,
            Some(&PrReviewPrepOutcome::RebaseConflict {
                paths: vec!["src/lib.rs".to_string(), "src/main.rs".to_string()],
            })
        ),
        ReviewEntryDecision::FailConflict {
            error:
                "PR #42 has rebase conflicts: src/lib.rs, src/main.rs; manual resolution required"
                    .to_string(),
            paths_csv: "src/lib.rs, src/main.rs".to_string(),
        }
    );
}

#[test]
fn review_entry_decision_names_unknown_paths() {
    assert_eq!(
        review_entry_decision(7, Some(&PrReviewPrepOutcome::RebaseConflict { paths: vec![] })),
        ReviewEntryDecision::FailConflict {
            error: "PR #7 has rebase conflicts: unknown paths; manual resolution required"
                .to_string(),
            paths_csv: "unknown paths".to_string(),
        }
    );
    assert_eq!(
        review_entry_decision(7, None),
        ReviewEntryDecision::Proceed { rebase_pushed: false }
    );
}

#[test]
fn review_entry_decision_propagates_rebase_pushed_flag() {
    assert_eq!(
        review_entry_decision(42, Some(&PrReviewPrepOutcome::RebasePushed)),
        ReviewEntryDecision::Proceed { rebase_pushed: true }
    );
    assert_eq!(
        review_entry_decision(42, Some(&PrReviewPrepOutcome::RebaseSkipped)),
        ReviewEntryDecision::Proceed { rebase_pushed: false }
    );
}

#[test]
fn review_prep_from_rounds_prefers_latest_implement_round() {
    let rounds = vec![
        RoundResult::new(1, "implement", "rebase_skipped", None),
        RoundResult::new(2, "review", "needs_fix", None),
        RoundResult::new(3, "implement", "rebase_pushed", None),
    ];
    assert_eq!(review_prep_from_rounds(&rounds), Some(PrReviewPrepOutcome::RebasePushed));
}

#[test]
fn review_prep_from_rounds_recovers_rebase_conflict_detail() {
    let rounds = vec![RoundResult::new(
        1,
        "implement",
        "rebase_conflict",
        Some("REBASE_CONFLICT paths=src/lib.rs,src/main.rs".to_string()),
    )];
    assert_eq!(
        review_prep_from_rounds(&rounds),
        Some(PrReviewPrepOutcome::RebaseConflict {
            paths: vec!["src/lib.rs".to_string(), "src/main.rs".to_string()],
        })
    );
}

#[test]
fn review_prep_from_rounds_without_detail_or_implementation() {
    let conflict = vec![RoundResult::new(1, "implement", "rebase_conflict", None)];
    assert_eq!(
        review_prep_from_rounds(&conflict),
        Some(PrReviewPrepOutcome::RebaseConflict { paths: vec![] })
    );
    let later = vec![
        RoundResult::new(1, "implement", "rebase_pushed", None),
        RoundResult::new(2, "implement", "pr_created", None),
    ];
    assert_eq!(review_prep_from_rounds(&later), None);
    assert_eq!(review_prep_from_rounds(&vec![]), None);
}

#[test]
fn review_prep_from_checkpoint_phase_recovers_rebase_state() {
    assert_eq!(
        review_prep_from_checkpoint_phase("rebase_pushed"),
        Some(PrReviewPrepOutcome::RebasePushed)
    );
    assert_eq!(
        review_prep_from_checkpoint_phase("rebase_skipped"),
        Some(PrReviewPrepOutcome::RebaseSkipped)
    );
    assert_eq!(
        review_prep_from_checkpoint_phase("rebase_conflict"),
        Some(PrReviewPrepOutcome::RebaseConflict { paths: Vec::new() })
    );
    assert_eq!(review_prep_from_checkpoint_phase("pr_created"), None);
}

#[test]
fn checkpoint_recovers_what_it_was_written_for() {
    for prep in [PrReviewPrepOutcome::RebasePushed, PrReviewPrepOutcome::RebaseSkipped] {
        let phase = review_prep_label(&prep);
        assert_eq!(review_prep_from_checkpoint_phase(phase), Some(prep));
    }
}

#[test]
fn fail_rebase_conflict_marks_task_failed_and_logs_event() {
    let (report, entry) = fail_rebase_conflict(
        "task-1",
        42,
        "PR #42 has rebase conflicts: src/lib.rs, src/main.rs; manual resolution required"
            .to_string(),
        "src/lib.rs, src/main.rs".to_string(),
    );
    match entry {
        LogEntry::Failed { reason } => assert_eq!(
            reason,
            "PR #42 has rebase conflicts: src/lib.rs, src/main.rs; manual resolution required"
        ),
        other => panic!("unexpected {other:?}"),
    }
    assert_eq!(report.event.hook, "pr_rebase_conflict");
    assert_eq!(report.event.decision, Decision::Block);
    assert_eq!(report.event.reason.as_deref(), Some("src/lib.rs, src/main.rs"));
    assert_eq!(report.event.detail.as_deref(), Some("task_id=task-1 pr=42"));
    let mut record = TaskRecord::new();
    record.apply(report.change);
    assert_eq!(record.status, TaskStatus::Failed);
    assert_eq!(
        record.error.as_deref(),
        Some("PR #42 has rebase conflicts: src/lib.rs, src/main.rs; manual resolution required")
    );
    assert!(record.rounds.is_empty());
}

#[test]
fn manual_resolution_constant_matches_poller_substring() {
    assert_eq!(MANUAL_RESOLUTION_REQUIRED, "manual resolution required");
}

fn telemetry() -> TurnTelemetry {
    let at = |secs| Timestamp::new(secs, 0).unwrap();
    telemetry_for_timeout(at(0), at(1), at(3), Some(1))
}

fn answered(output: &str) -> GateTurn {
    GateTurn::Answered { output: output.to_string(), telemetry: telemetry() }
}

fn ended(turn: GateTurn) -> (ConflictGateOutcome, TaskRecord, Decision, Option<String>) {
    let (outcome, report) = end_conflict_gate(9, 4, turn);
    let mut record = TaskRecord::new();
    record.apply(report.change);
    (outcome, record, report.event.decision, report.event.reason)
}

#[test]
fn clear_answers_open_the_way_to_the_review() {
    let (outcome, record, decision, reason) =
        ended(answered("looked\nCLEAN_PR\n"));
    assert_eq!(outcome, ConflictGateOutcome::Clean);
    assert_eq!(record.status, TaskStatus::Pending);
    assert_eq!(record.error, None);
    assert_eq!(record.rounds.len(), 1);
    assert_eq!(record.rounds[0].turn, 4);
    assert_eq!(record.rounds[0].action, "conflict_gate");
    assert_eq!(record.rounds[0].result, "clean");
    assert_eq!(record.rounds[0].detail.as_deref(), Some("looked\nCLEAN_PR\n"));
    assert_eq!(decision, Decision::Complete);
    assert_eq!(reason.as_deref(), Some("resumed PR conflict gate passed cleanly"));

    let (outcome, record, _, _) = ended(answered("REBASE_PUSHED"));
    assert_eq!(outcome, ConflictGateOutcome::RebasePushed);
    assert_eq!(record.rounds[0].result, "rebase_pushed");
}

#[test]
fn everything_else_fails_and_asks_for_a_person() {
    let cases = vec![
        (
            GateTurn::NoTurnLeft { used: 5, max: 5 },
            "turn_budget_exhausted",
            "pr:9 conflict gate could not run before review; manual resolution required: turn budget exhausted after 5 of 5 allowed turns",
        ),
        (
            GateTurn::Failed {
                error: "no quota".to_string(),
                failure: TurnFailure::plain(TurnFailureKind::Quota, None, "limit"),
                telemetry: telemetry(),
            },
            "failed",
            "pr:9 conflict gate failed closed; manual resolution required: no quota",
        ),
        (
            GateTurn::TimedOut { secs: 30, agent: "codex".to_string(), telemetry: telemetry() },
            "timeout",
            "pr:9 conflict gate timed out; manual resolution required after 30s",
        ),
        (
            GateTurn::Invalid {
                error: "bad".to_string(),
                output: "CLEAN_PR".to_string(),
                telemetry: telemetry(),
            },
            "validation_failed",
            "pr:9 conflict gate failed closed; manual resolution required: post-execution validation failed: bad",
        ),
        (
            answered("MANUAL_RESOLUTION_REQUIRED"),
            "manual_resolution_required",
            "pr:9 is conflicting and rebase was not pushed; manual resolution required",
        ),
        (
            answered("done"),
            "malformed_output",
            "pr:9 conflict gate failed closed; manual resolution required: malformed output (unexpected conflict gate terminal token `done`)",
        ),
    ];
    for (turn, result, error) in cases {
        let (outcome, record, decision, reason) = ended(turn);
        assert_eq!(outcome, ConflictGateOutcome::Failed);
        assert_eq!(record.status, TaskStatus::Failed);
        assert_eq!(record.turn, 4);
        assert_eq!(record.error.as_deref(), Some(error));
        assert_eq!(record.rounds[0].result, result);
        assert_eq!(decision, Decision::Block);
        assert_eq!(reason.as_deref(), Some(error));
        assert!(error.contains(MANUAL_RESOLUTION_REQUIRED));
    }
}

#[test]
fn conflict_gate_says_how_its_turn_went() {
    let marks = |turn| {
        let (_, report) = end_conflict_gate(9, 4, turn);
        let round = report.change.rounds[0].mark.copy();
        assert_eq!(format!("{round:?}"), format!("{:?}", report.event.mark));
        round
    };
    let none = marks(GateTurn::NoTurnLeft { used: 5, max: 5 });
    assert!(none.telemetry.is_none() && none.failure.is_none());
    let fine = marks(answered("CLEAN_PR"));
    assert_eq!(fine.telemetry, Some(telemetry()));
    assert!(fine.failure.is_none());
    let late = marks(GateTurn::TimedOut {
        secs: 30,
        agent: "codex".to_string(),
        telemetry: telemetry(),
    });
    assert_eq!(late.telemetry, Some(telemetry()));
    let failure = late.failure.unwrap();
    assert_eq!(failure.kind, TurnFailureKind::Timeout);
    assert_eq!(failure.provider.as_deref(), Some("codex"));
    assert_eq!(
        failure.message.as_deref(),
        Some("pr:9 conflict gate timed out; manual resolution required after 30s")
    );
    let lost = marks(GateTurn::Failed {
        error: "no quota".to_string(),
        failure: TurnFailure::plain(TurnFailureKind::Quota, None, "limit"),
        telemetry: telemetry(),
    });
    assert_eq!(lost.failure.unwrap().message.as_deref(), Some("limit"));
}

#[test]
fn conflict_gate_counts_its_turn() {
    assert!(gate_without_turn(4, Some(5)).is_none());
    assert!(gate_without_turn(u32::MAX, None).is_none());
    assert!(matches!(
        gate_without_turn(5, Some(5)),
        Some(GateTurn::NoTurnLeft { used: 5, max: 5 })
    ));
    assert_eq!(gate_turn(3), 4);
    assert_eq!(gate_turn(u32::MAX), u32::MAX);
}
