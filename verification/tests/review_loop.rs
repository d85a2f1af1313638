use task_executor::bots::{BotSignals, ReviewBotDescriptor, ReviewBotKey, SilenceRule};
use task_executor::clock::Timestamp;
use task_executor::events::Decision;
use task_executor::outcome::LogEntry;
use task_executor::review_loop::{
    classify_pr_state, end_change, end_log, failed_turn_event, fallback_event, issue_count_not_decreasing, open_or_merged, repetition_change,
    resolve_runtime_feedback_issue_number, round_event, round_log, round_record, tool_violation_error, turn_failed,
    turn_timed_out, FeedbackNote, LoopEnd, OutputStep, OutputVerdict, PrExternalState,
    PrFeedbackOutcome, PrOpenOrMergedState, ReviewLoop, SignalStep,
};
use task_executor::signals::{
    BotTable, PullRequestSignals, ReviewFallbackState, ReviewFallbackTier, ReviewFallbackTrigger,
};
use task_executor::task::{TaskStatus, TurnFailureKind};
use task_executor::telemetry::{telemetry_for_timeout, TurnFailure, TurnMark, TurnTelemetry};

const GEMINI_NOTICE: &str = "daily quota limit";
const NOW: i64 = 1_800_000_000;
const RULE: SilenceRule = SilenceRule { rounds_threshold: 3, min_minutes_after_commit: 30 };
const ISSUES: OutputVerdict =
    OutputVerdict { lgtm: false, waiting: false, issues: Some(5), similar: false };
const WAITING: OutputVerdict =
    OutputVerdict { lgtm: false, waiting: true, issues: None, similar: false };
const APPROVED: OutputVerdict =
    OutputVerdict { lgtm: true, waiting: false, issues: None, similar: false };

fn at(secs_ago: i64) -> Timestamp {
    Timestamp::new(NOW - secs_ago, 0).unwrap()
}

fn telemetry() -> TurnTelemetry {
    let at = |secs| Timestamp::new(secs, 0).unwrap();
    telemetry_for_timeout(at(0), at(1), at(3), Some(1))
}

fn chain() -> Vec<ReviewBotDescriptor> {
    vec![
        ReviewBotDescriptor {
            key: ReviewBotKey::Gemini,
            reviewer_name: "gemini".to_string(),
            review_command: "/gemini review".to_string(),
        },
        ReviewBotDescriptor {
            key: ReviewBotKey::Codex,
            reviewer_name: "codex".to_string(),
            review_command: "@codex".to_string(),
        },
    ]
}

fn quota(body: &str) -> BotSignals {
    let mut bot = BotSignals::none();
    bot.reviewed_any_commit = true;
    bot.latest_comment_at = Some(at(0));
    bot.latest_comment_body = Some(body.to_string());
    bot
}

fn signals(gemini: BotSignals, codex: BotSignals) -> PullRequestSignals {
    PullRequestSignals {
        latest_commit_at: at(2700),
        ci_state: Some("SUCCESS".to_string()),
        ci_green: true,
        latest_bot_activity_at: None,
        blocking_feedback: false,
        bots: BotTable { gemini, codex },
    }
}

fn fresh(max_rounds: u32, max_turns: Option<u32>, budget: u64) -> ReviewLoop {
    ReviewLoop::new(max_rounds, max_turns, budget, false, 0, TaskStatus::Waiting)
}

#[test]
fn runtime_feedback_issue_resolution_keeps_explicit_issue() {
    assert_eq!(resolve_runtime_feedback_issue_number(Some(42), None), Some(42));
    assert_eq!(resolve_runtime_feedback_issue_number(Some(42), Some(7)), Some(42));
}

#[test]
fn runtime_feedback_issue_resolution_looks_up_pr_only_task() {
    assert_eq!(resolve_runtime_feedback_issue_number(None, Some(123)), Some(123));
    assert_eq!(resolve_runtime_feedback_issue_number(None, None), None);
}

#[test]
fn states_of_pull_requests() {
    assert_eq!(classify_pr_state("open", None), PrExternalState::Open);
    assert_eq!(classify_pr_state("closed", Some("2026-01-01T00:00:00Z")), PrExternalState::Merged);
    assert_eq!(classify_pr_state("closed", None), PrExternalState::Closed);
    assert_eq!(classify_pr_state("draft", None), PrExternalState::Unknown);
    assert_eq!(open_or_merged(PrExternalState::Open, "o/r", 1), Ok(PrOpenOrMergedState::Open));
    assert_eq!(open_or_merged(PrExternalState::Merged, "o/r", 1), Ok(PrOpenOrMergedState::Merged));
    assert!(open_or_merged(PrExternalState::Closed, "o/r", 1).is_err());
    assert!(open_or_merged(PrExternalState::Unknown, "o/r", 1).is_err());
}

#[test]
fn externally_ended_pull_requests_end_the_loop() {
    let run = fresh(3, None, 0);
    assert_eq!(run.begin_round(), Ok(1));
    assert_eq!(run.pr_state(PrExternalState::Open), None);
    assert_eq!(run.pr_state(PrExternalState::Unknown), None);
    let merged = run.pr_state(PrExternalState::Merged).unwrap();
    assert_eq!(merged, LoopEnd::MergedExternally { round: 1 });
    assert_eq!(end_change(merged, "OK").status, Some(TaskStatus::Done));
    let closed = run.pr_state(PrExternalState::Closed).unwrap();
    assert_eq!(end_change(closed, "OK").status, Some(TaskStatus::Cancelled));
}

#[test]
fn approval_needs_the_tests() {
    let mut run = fresh(3, None, 0);
    assert_eq!(run.take_turn(), None);
    assert_eq!(run.turns_used(), 1);
    assert_eq!(run.output_read(APPROVED, "OK", 0), OutputStep::Record { round: 1, lgtm: true });
    assert_eq!(run.gate_passed(), LoopEnd::Approved { round: 1 });
    assert_eq!(end_change(run.gate_passed(), "OK").turn, Some(2));
    run.gate_failed("red".to_string());
    assert_eq!(run.end_round(0), None);
    assert_eq!(run.begin_round(), Ok(2));
    let inputs = run.begin_review();
    assert_eq!(inputs.failure.as_deref(), Some("red"));
    assert!(inputs.prev_fixed);
    assert_eq!(run.output_read(APPROVED, "OK", 0), OutputStep::Record { round: 2, lgtm: true });
}

#[test]
fn review_loop_waiting_output_fails_when_wait_budget_exceeded() {
    let mut run = fresh(3, None, 60);
    assert_eq!(run.output_read(WAITING, "WAITING", 59), OutputStep::Wait);
    let step = run.output_read(WAITING, "WAITING", 61);
    let end = LoopEnd::WaitedTooLong { round: 1, elapsed_secs: 61, budget_secs: 60 };
    assert_eq!(step, OutputStep::End(end));
    let change = end_change(end, "OK");
    assert_eq!(change.status, Some(TaskStatus::Failed));
    assert_eq!(
        change.error.as_deref(),
        Some("review wait budget exceeded: elapsed 61s exceeded configured budget 60s")
    );
}

#[test]
fn review_loop_signal_fetch_failure_fails_before_prompt_when_wait_budget_exceeded() {
    let mut run = fresh(3, None, 60);
    assert!(run.signals_failed(10).is_none());
    let end = run.signals_failed(60).expect("budget");
    assert_eq!(end, LoopEnd::WaitedTooLong { round: 1, elapsed_secs: 60, budget_secs: 60 });
    assert_eq!(run.turns_used(), 0);
    let change = end_change(end, "OK");
    assert_eq!(change.status, Some(TaskStatus::Failed));
    assert_eq!(
        change.error.as_deref(),
        Some("review wait budget exceeded: elapsed 60s exceeded configured budget 60s")
    );
}

#[test]
fn fallback_is_noted_also_where_the_wait_was_too_long() {
    let mut run = fresh(3, None, 60);
    let first = signals(quota("You have reached your daily quota limit."), BotSignals::none());
    let step = run.signals_read(&chain(), &first, at(0), GEMINI_NOTICE, RULE, 60).unwrap();
    let fallback = step.fallback().expect("fallback");
    assert_eq!(fallback.tier, ReviewFallbackTier::B);
    assert_eq!(fallback.trigger, ReviewFallbackTrigger::GeminiQuota);
    assert!(matches!(step, SignalStep::End { end: LoopEnd::WaitedTooLong { .. }, .. }));
}

#[test]
fn review_loop_round_budget_exhausted_marks_terminal_once() {
    let mut run = fresh(1, None, 60);
    let four = OutputVerdict { issues: Some(4), ..ISSUES };
    run.begin_review();
    assert_eq!(run.take_turn(), None);
    assert_eq!(run.output_read(four, "x", 0), OutputStep::Record { round: 1, lgtm: false });
    assert_eq!(run.end_round(0), None);
    let end = run.begin_round().unwrap_err();
    assert_eq!(end, LoopEnd::Exhausted { rounds: 1, last_status: TaskStatus::Reviewing });
    assert_eq!(run.turns_used(), 1);
    let change = end_change(end, "OK");
    assert_eq!(change.status, Some(TaskStatus::Failed));
    assert_eq!(change.turn, Some(2));
    let detail: serde_json::Value = serde_json::from_str(change.error.as_deref().unwrap()).unwrap();
    assert_eq!(detail["reason"], "round_budget_exhausted");
    assert_eq!(detail["rounds_used"], 1);
    assert_eq!(detail["last_status"], "reviewing");
    assert_eq!(detail["waiting_on"], "local_review_gate");
    assert_eq!(detail.as_object().unwrap().len(), 4);
}

#[test]
fn few_issues_graduate() {
    let mut run = fresh(1, None, 0);
    let few = OutputVerdict { issues: Some(2), ..ISSUES };
    run.output_read(few, "x", 0);
    run.end_round(0);
    let end = run.begin_round().unwrap_err();
    assert_eq!(end, LoopEnd::Graduated { rounds: 1, remaining: 2 });
    assert_eq!(
        end_change(end, "OK").error.as_deref(),
        Some("Graduated: OK not received after 1 rounds but only 2 issues remain.")
    );
}

#[test]
fn rejected_approval_does_not_graduate() {
    let mut run = fresh(1, None, 0);
    let verdict = OutputVerdict { issues: Some(0), ..APPROVED };
    run.output_read(verdict, "x", 0);
    run.gate_failed("red".to_string());
    run.end_round(0);
    assert!(matches!(run.begin_round(), Err(LoopEnd::Exhausted { .. })));
}

#[test]
fn repetition_without_progress_is_seen() {
    let mut run = fresh(9, None, 0);
    let again = OutputVerdict { similar: true, ..ISSUES };
    assert_eq!(run.output_read(again, "x", 0), OutputStep::Record { round: 1, lgtm: false });
    assert_eq!(run.previous_output(), Some("x"));
    assert_eq!(run.output_read(again, "x", 0), OutputStep::Repetition);
    let fewer = OutputVerdict { similar: true, issues: Some(4), ..ISSUES };
    assert_eq!(run.output_read(fewer, "x", 0), OutputStep::Record { round: 1, lgtm: false });
    assert!(repetition_change("0.95", "0.9").status.is_some());
}

#[test]
fn turns_count_against_the_budget() {
    let mut run = fresh(3, Some(1), 0);
    assert_eq!(run.take_turn(), None);
    let end = run.take_turn().unwrap();
    assert_eq!(end, LoopEnd::NoTurnLeft { used: 1, max: 1 });
    assert_eq!(
        end_change(end, "OK").error.as_deref(),
        Some("Turn budget exhausted: used 1 of 1 allowed turns")
    );
}

#[test]
fn bots_without_quota_end_the_loop() {
    let mut run = fresh(3, None, 0);
    let both = signals(
        quota("You have reached your daily quota limit."),
        quota("Codex usage limits have been reached."),
    );
    let step = run.signals_read(&chain(), &both, at(0), GEMINI_NOTICE, RULE, 0).unwrap();
    let fallback = ReviewFallbackState {
        tier: ReviewFallbackTier::C,
        trigger: ReviewFallbackTrigger::AllBotsQuota,
        active_bot: Some(ReviewBotKey::Codex),
    };
    match step {
        SignalStep::End { end: LoopEnd::NoBotLeft { round: 1, fallback: given }, fallback: noted } => {
            assert_eq!(noted, Some(given));
            assert_eq!(given.tier, fallback.tier);
            assert_eq!(given.trigger, fallback.trigger);
            let change = end_change(LoopEnd::NoBotLeft { round: 1, fallback: given }, "OK");
            assert_eq!(change.status, Some(TaskStatus::Done));
            assert_eq!(change.rounds[0].result, "ready_to_merge");
        }
        other => panic!("unexpected {other:?}"),
    }
}

#[test]
fn second_bot_is_summoned_once() {
    let mut run = fresh(30, None, 0);
    let first = signals(quota("You have reached your daily quota limit."), BotSignals::none());
    match run.signals_read(&chain(), &first, at(0), GEMINI_NOTICE, RULE, 0).unwrap() {
        SignalStep::Wait { bot, summon, .. } => {
            assert_eq!(bot.key, ReviewBotKey::Codex);
            assert!(summon);
        }
        other => panic!("unexpected {other:?}"),
    }
    run.summoned(ReviewBotKey::Codex);
    match run.signals_read(&chain(), &first, at(0), GEMINI_NOTICE, RULE, 0).unwrap() {
        SignalStep::Wait { summon, .. } => assert!(!summon),
        other => panic!("unexpected {other:?}"),
    }
}

#[test]
fn too_many_waits_use_up_a_round() {
    let mut run = fresh(3, None, 0);
    let mut waits = 0;
    while run.output_read(WAITING, "WAITING", 0) == OutputStep::Wait {
        waits += 1;
    }
    assert_eq!(waits, 9);
    assert_eq!(run.begin_round(), Ok(2));
}

#[test]
fn counts_that_do_not_fall() {
    assert!(!issue_count_not_decreasing(&[]));
    assert!(!issue_count_not_decreasing(&[Some(3), Some(2), Some(1)]));
    assert!(issue_count_not_decreasing(&[Some(3), Some(3), Some(4)]));
    assert!(!issue_count_not_decreasing(&[Some(3), None, Some(4)]));
}

#[test]
fn rounds_are_recorded_by_their_word() {
    assert_eq!(round_record(2, true, "OK", telemetry()).rounds[0].result, "ok");
    assert_eq!(round_record(2, false, "OK", telemetry()).rounds[0].result, "fixed");
    match round_log(2, true, "OK") {
        LogEntry::RoundCompleted { round, result } => assert_eq!((round, result.as_str()), (2, "ok")),
        other => panic!("unexpected {other:?}"),
    }
    match round_log(3, false, "OK") {
        LogEntry::RoundCompleted { round, result } => {
            assert_eq!((round, result.as_str()), (3, "fixed"))
        }
        other => panic!("unexpected {other:?}"),
    }
    let record = round_record(2, false, "OK", telemetry());
    assert_eq!(record.rounds[0].turn, 2);
    assert_eq!(record.rounds[0].mark.telemetry, Some(telemetry()));
}

#[test]
fn failed_turns_of_the_loop() {
    let limit = TurnFailure::plain(TurnFailureKind::Quota, None, "limit");
    let (change, propagate) = turn_failed(2, &limit, "no quota", telemetry());
    assert!(!propagate);
    assert_eq!(change.error.as_deref(), Some("no quota"));
    assert_eq!(change.rounds[0].result, "quota_exhausted");
    assert_eq!(change.rounds[0].mark.failure.as_ref().unwrap().message.as_deref(), Some("limit"));
    let odd = TurnFailure::plain(TurnFailureKind::Protocol, None, "odd");
    let (change, propagate) = turn_failed(2, &odd, "x", telemetry());
    assert!(propagate);
    assert_eq!(change.rounds[0].result, "failed");
    let (change, error, mark) = turn_timed_out(2, 30, "codex", telemetry());
    assert_eq!(mark.telemetry, Some(telemetry()));
    assert_eq!(mark.failure.unwrap().provider.as_deref(), Some("codex"));
    assert_eq!(change.rounds[0].result, "timeout");
    assert_eq!(error, "Review check round 2 timed out after 30s");
    assert!(tool_violation_error(2, &["Write".to_string()]).contains("[Write]"));
}

#[test]
fn notes_say_what_they_mean() {
    assert_eq!(FeedbackNote::Approved.outcome(), PrFeedbackOutcome::ReadyToMerge);
    assert_eq!(FeedbackNote::Graduated.outcome(), PrFeedbackOutcome::ReadyToMerge);
    assert_eq!(FeedbackNote::Actionable.outcome(), PrFeedbackOutcome::BlockingFeedback);
    assert_eq!(FeedbackNote::TestsFailed.outcome(), PrFeedbackOutcome::BlockingFeedback);
    assert_eq!(FeedbackNote::BotNotYet.outcome(), PrFeedbackOutcome::NoActionableFeedback);
    assert_eq!(
        FeedbackNote::KeepWaiting.summary("Judge"),
        "Review output asked the workflow to keep waiting for fresh feedback."
    );
    assert_eq!(
        FeedbackNote::Approved.summary("Judge"),
        "Judge approved and validation passed."
    );
    assert_eq!(
        FeedbackNote::TestsFailed.summary("Judge"),
        "Judge approved, but local validation failed and must be addressed."
    );
}

#[test]
fn rounds_are_noted() {
    let event = round_event(2, true, "OK", 7, "out".to_string(), telemetry());
    assert_eq!(event.hook, "pr_review");
    assert_eq!(event.turn, Some(2));
    assert_eq!(event.phase.as_deref(), Some("review"));
    assert_eq!(event.decision, Decision::Complete);
    assert_eq!(event.reason.as_deref(), Some("round 2: ok"));
    assert_eq!(event.detail.as_deref(), Some("pr=7"));
    assert_eq!(event.content.as_deref(), Some("out"));
    let event = round_event(2, false, "OK", 7, "out".to_string(), telemetry());
    assert_eq!(event.decision, Decision::Warn);
    assert_eq!(event.reason.as_deref(), Some("round 2: fixed"));
    let event = failed_turn_event(2, true, 7, TurnMark::timed(telemetry()));
    assert_eq!(event.decision, Decision::Block);
    assert_eq!(event.reason.as_deref(), Some("review round timed out"));
    assert_eq!(event.mark.telemetry, Some(telemetry()));
    let event = failed_turn_event(2, false, 7, TurnMark::none());
    assert_eq!(event.reason.as_deref(), Some("review round failed"));
    let fallback = ReviewFallbackState {
        tier: ReviewFallbackTier::B,
        trigger: ReviewFallbackTrigger::GeminiQuota,
        active_bot: None,
    };
    let event = fallback_event(1, fallback, 7);
    assert_eq!(event.hook, "pr_review_fallback");
    assert_eq!(
        event.reason.as_deref(),
        Some("tier=B; trigger=GeminiQuota; active_bot=none")
    );
}

#[test]
fn ends_are_logged() {
    assert!(matches!(end_log(LoopEnd::Approved { round: 1 }), Some(LogEntry::Completed)));
    assert!(matches!(end_log(LoopEnd::MergedExternally { round: 1 }), Some(LogEntry::Completed)));
    assert!(end_log(LoopEnd::ClosedExternally { round: 1 }).is_none());
    assert!(end_log(LoopEnd::Graduated { rounds: 1, remaining: 0 }).is_none());
    let end = LoopEnd::Exhausted { rounds: 1, last_status: TaskStatus::Reviewing };
    match end_log(end) {
        Some(LogEntry::Failed { reason }) => {
            assert!(reason.contains("\"reason\":\"round_budget_exhausted\""), "{reason}");
        }
        other => panic!("unexpected {other:?}"),
    }
}
