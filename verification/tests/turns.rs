use task_executor::clock::Timestamp;
use task_executor::items::{Item, Notification, StreamItem, TokenUsage};
use task_executor::lifecycle::{
    completed_notice, fail_turn, unknown_agent, TurnClosing, TurnRun, WorkResult,
};
use task_executor::snapshot::{
    relative_snapshot_path, should_skip_snapshot_dir, should_skip_snapshot_file, EntryFingerprint,
    ScannedEntry, WorkspaceSnapshot,
};
use task_executor::stream::{
    stall_message, RunAgentStreamingOptions, RunResult, StreamRun, TurnEnd,
};
use task_executor::task::TurnFailureKind;
use task_executor::telemetry::{telemetry_for_timeout, TurnFailure};
use task_executor::test_gate::{command_error_text, CommandResult, TestGate};

fn at(secs: i64) -> Timestamp {
    Timestamp::new(secs, 0).unwrap()
}

fn delta(text: &str) -> StreamItem {
    StreamItem::MessageDelta { text: text.to_string() }
}

fn searching() -> StreamRun {
    StreamRun::new(
        RunAgentStreamingOptions { persist_artifacts: true, backfill_auto_fix_issue: true },
        true,
    )
}

#[test]
fn run_agent_streaming_fails_silent_stream_with_stall_reason() {
    let mut run = StreamRun::new(RunAgentStreamingOptions::default(), false);
    assert!(!run.is_over());
    run.stalled(3);
    assert!(run.is_over());
    match run.end(at(0), at(1), at(4)) {
        TurnEnd::Failed { error, failure, telemetry } => {
            assert_eq!(failure.kind, TurnFailureKind::Timeout);
            assert_eq!(failure.message, Some(stall_message(3)));
            assert_eq!(error, stall_message(3));
            assert_eq!(error, "Agent stream stalled: no output for 3s");
            assert_eq!(telemetry.completed_latency_ms, 3000);
            assert_eq!(telemetry.exit_code, None);
        }
        other => panic!("unexpected {other:?}"),
    }
}

#[test]
fn run_agent_streaming_preserves_completed_result_while_channel_closes() {
    let mut run = StreamRun::new(RunAgentStreamingOptions::default(), false);
    run.item(delta("done"), at(2), 1000);
    run.executed(RunResult::Succeeded);
    run.stalled(3);
    run.stream_closed();
    match run.end(at(0), at(1), at(4)) {
        TurnEnd::Succeeded { output, telemetry, .. } => {
            assert_eq!(output, "done");
            assert_eq!(telemetry.exit_code, Some(0));
            assert_eq!(telemetry.first_output_at, Some(at(2)));
            assert_eq!(telemetry.first_token_latency_ms, Some(1000));
        }
        other => panic!("unexpected {other:?}"),
    }
}

#[test]
fn created_issue_is_found_across_pieces() {
    let mut run = searching();
    assert_eq!(run.item(delta("CREATED_IS"), at(1), 1).issue, None);
    assert_eq!(run.item(delta("SUE=1"), at(1), 1).issue, None);
    assert_eq!(run.item(delta("2\nmore"), at(1), 1).issue, Some(12));
    run.issue_stored(12);
    assert_eq!(run.item(delta("\nCREATED_ISSUE=12\n"), at(1), 1).issue, None);
    assert_eq!(run.item(delta("CREATED_ISSUE=13"), at(1), 1).issue, None);
    assert_eq!(run.trailing_issue(), Some(13));
}

#[test]
fn output_is_searched_only_where_it_is_asked_for() {
    let mut run = StreamRun::new(RunAgentStreamingOptions::default(), true);
    assert_eq!(run.item(delta("CREATED_ISSUE=12\n"), at(1), 1).issue, None);
    let mut run = StreamRun::new(
        RunAgentStreamingOptions { persist_artifacts: true, backfill_auto_fix_issue: true },
        false,
    );
    assert_eq!(run.item(delta("CREATED_ISSUE=12\n"), at(1), 1).issue, None);
}

#[test]
fn stream_keeps_usage_and_artifacts() {
    let mut run = searching();
    let usage = TokenUsage { input_tokens: 1, output_tokens: 2, total_tokens: 3 };
    run.item(StreamItem::TokenUsage { usage }, at(1), 1);
    let edit = Item::FileEdit {
        path: "a".to_string(),
        before: "b".to_string(),
        after: "c".to_string(),
    };
    let step = run.item(StreamItem::ItemCompleted { item: edit }, at(1), 1);
    assert!(matches!(step.artifact, Some(kept) if kept.kind == "file_edit"));
    run.item(
        StreamItem::ItemCompleted { item: Item::AgentReasoning { content: "whole".to_string() } },
        at(2),
        2,
    );
    run.item(StreamItem::Done, at(3), 3);
    assert!(!run.is_over());
    run.executed(RunResult::Succeeded);
    assert!(run.is_over());
    match run.end(at(0), at(0), at(3)) {
        TurnEnd::Succeeded { output, usage: kept, .. } => {
            assert_eq!(output, "whole");
            assert_eq!(kept, usage);
        }
        other => panic!("unexpected {other:?}"),
    }
}

#[test]
fn failed_run_hands_its_error_on() {
    let mut run = searching();
    let given = TurnFailure {
        kind: TurnFailureKind::Quota,
        provider: Some("codex".to_string()),
        upstream_status: Some(429),
        message: Some("limit".to_string()),
        body_excerpt: Some("{}".to_string()),
    };
    run.executed(RunResult::Failed { error: "no quota".to_string(), failure: Some(given) });
    match run.end(at(0), at(0), at(3)) {
        TurnEnd::Failed { error, failure, .. } => {
            assert_eq!(error, "no quota");
            assert_eq!(failure.kind, TurnFailureKind::Quota);
            assert_eq!(failure.provider.as_deref(), Some("codex"));
            assert_eq!(failure.upstream_status, Some(429));
            assert_eq!(failure.message.as_deref(), Some("limit"));
            assert_eq!(failure.body_excerpt.as_deref(), Some("{}"));
        }
        other => panic!("unexpected {other:?}"),
    }
    let mut run = searching();
    run.executed(RunResult::Failed { error: "odd".to_string(), failure: None });
    match run.end(at(0), at(0), at(3)) {
        TurnEnd::Failed { error, failure, .. } => {
            assert_eq!(error, "odd");
            assert_eq!(failure.kind, TurnFailureKind::Unknown);
        }
        other => panic!("unexpected {other:?}"),
    }
    match searching().end(at(0), at(0), at(3)) {
        TurnEnd::Failed { error, .. } => {
            assert_eq!(error, "agent execution completed without result");
        }
        other => panic!("unexpected {other:?}"),
    }
    let late = telemetry_for_timeout(at(0), at(1), at(2), Some(3));
    assert_eq!(late.completed_latency_ms, 1000);
    assert_eq!(late.retry_count, Some(3));
}

#[test]
fn every_turn_is_closed() {
    let mut run = TurnRun::new();
    run.executed(WorkResult::Succeeded);
    assert!(!run.is_over());
    run.stream_ended();
    assert!(run.is_over());
    assert!(matches!(run.close(), TurnClosing::Complete));

    let mut run = TurnRun::new();
    run.stalled(9);
    assert!(run.is_over());
    match run.close() {
        TurnClosing::Fail { item: Item::Error { code, message }, notify } => {
            assert_eq!(code, -1);
            assert!(message.contains("9"), "{message}");
            assert!(matches!(notify, Notification::TurnCompleted { failed: true, .. }));
        }
        other => panic!("unexpected {other:?}"),
    }
    match TurnRun::new().close() {
        TurnClosing::Fail { item: Item::Error { message, .. }, .. } => {
            assert_eq!(message, "turn execution ended without agent result");
        }
        other => panic!("unexpected {other:?}"),
    }
    assert!(matches!(fail_turn("x".to_string()), TurnClosing::Fail { .. }));
    match unknown_agent("ghost") {
        TurnClosing::Fail { item: Item::Error { message, .. }, .. } => {
            assert!(message.contains("ghost"), "{message}");
        }
        other => panic!("unexpected {other:?}"),
    }
    assert!(completed_notice(None).is_none());
    assert!(matches!(
        completed_notice(Some(TokenUsage::default())),
        Some(Notification::TurnCompleted { failed: false, .. })
    ));
}

#[test]
fn test_gate_passes_when_all_commands_pass() {
    let mut gate = TestGate::new(
        vec!["cargo test".to_string(), "cargo fmt".to_string()],
        &vec![None, None],
        Some("make".to_string()),
        60,
    )
    .unwrap();
    assert_eq!(gate.next_command().as_deref(), Some("cargo test"));
    assert_eq!(gate.command_ended(CommandResult::Passed), None);
    assert_eq!(gate.next_command().as_deref(), Some("cargo fmt"));
    assert_eq!(gate.command_ended(CommandResult::Passed), None);
    assert_eq!(gate.next_command(), None);
}

#[test]
fn test_gate_reports_what_failed() {
    let mut gate = TestGate::new(vec![], &vec![], Some("make".to_string()), 60).unwrap();
    assert_eq!(gate.next_command().as_deref(), Some("make"));
    let failed = CommandResult::Failed {
        code: 7,
        stdout: "out".to_string(),
        stderr: "err".to_string(),
    };
    assert_eq!(
        gate.command_ended(failed).as_deref(),
        Some("Test gate failed (exit 7)\nstdout:\nout\nstderr:\nerr")
    );
    let text = |result| command_error_text("make", result, 60);
    assert_eq!(
        text(CommandResult::TimedOut).as_deref(),
        Some("Test gate timed out after 60s (command: `make`)")
    );
    assert_eq!(
        text(CommandResult::NotStarted { error: "x".to_string() }).as_deref(),
        Some("test gate: failed to spawn `make`: x")
    );
    assert_eq!(
        text(CommandResult::NotAwaited { error: "x".to_string() }).as_deref(),
        Some("test gate: `make` failed to wait: x")
    );
    assert_eq!(
        text(CommandResult::Failed { code: -1, stdout: String::new(), stderr: String::new() })
            .as_deref(),
        Some("Test gate failed (exit -1)\nstdout:\n\nstderr:\n")
    );
}

#[test]
fn test_gate_refuses_objectionable_commands() {
    let refused = TestGate::new(
        vec!["a".to_string(), "b".to_string()],
        &vec![None, Some("dangerous".to_string())],
        None,
        60,
    );
    assert_eq!(
        refused.err().as_deref(),
        Some("test gate: command rejected by safety check: dangerous")
    );
    let empty = TestGate::new(vec![], &vec![], None, 60).unwrap();
    assert_eq!(empty.next_command(), None);
}

fn file(path: &str, hash: u64, mode: u32) -> ScannedEntry {
    ScannedEntry {
        path: path.to_string(),
        print: Some(EntryFingerprint::File { len: 1, hash, mode }),
    }
}

fn link(path: &str, target: &str) -> ScannedEntry {
    ScannedEntry {
        path: path.to_string(),
        print: Some(EntryFingerprint::Symlink { target: target.to_string() }),
    }
}

#[test]
fn changed_since_detects_tracked_output_directory_changes() {
    let before = vec![file("/w/build/a.js", 1, 0o644), file("/w/src/lib.rs", 2, 0o644)];
    let snapshot = WorkspaceSnapshot::capture("/w", &before).unwrap();
    assert_eq!(snapshot.changed_since("/w", &before), Ok(false));
    let after = vec![file("/w/build/a.js", 9, 0o644), file("/w/src/lib.rs", 2, 0o644)];
    assert_eq!(snapshot.changed_since("/w", &after), Ok(true));
    let fewer = vec![file("/w/src/lib.rs", 2, 0o644)];
    assert_eq!(snapshot.changed_since("/w", &fewer), Ok(true));
}

#[test]
fn changed_since_ignores_large_cache_directories() {
    let caches = |hash| {
        vec![
            file("/w/target/debug/artifact", hash, 0o644),
            file("/w/.pytest_cache/nodeids", hash, 0o644),
            file("/w/.mypy_cache/module.meta.json", hash, 0o644),
        ]
    };
    let snapshot = WorkspaceSnapshot::capture("/w", &caches(1)).unwrap();
    assert_eq!(snapshot.changed_since("/w", &caches(2)), Ok(false));
}

#[test]
fn caches_and_journals_count_for_nothing() {
    let before = vec![file("/w/src/lib.rs", 2, 0o644)];
    let snapshot = WorkspaceSnapshot::capture("/w", &before).unwrap();
    let after = vec![
        file("/w/src/lib.rs", 2, 0o644),
        file("/w/target/debug/x", 5, 0o644),
        file("/w/a/node_modules/y.js", 5, 0o644),
        file("/w/tasks.db-wal", 5, 0o644),
        ScannedEntry { path: "/w/src".to_string(), print: None },
    ];
    assert_eq!(snapshot.changed_since("/w", &after), Ok(false));
}

#[test]
fn changed_since_detects_executable_bit_changes() {
    let snapshot = WorkspaceSnapshot::capture("/w", &vec![file("/w/run", 2, 0o644)]).unwrap();
    assert_eq!(snapshot.changed_since("/w", &vec![file("/w/run", 2, 0o755)]), Ok(true));
}

#[test]
fn changed_since_detects_symlink_target_changes() {
    let snapshot = WorkspaceSnapshot::capture("/w", &vec![link("/w/l", "a")]).unwrap();
    assert_eq!(snapshot.changed_since("/w", &vec![link("/w/l", "a")]), Ok(false));
    assert_eq!(snapshot.changed_since("/w", &vec![link("/w/l", "b")]), Ok(true));
    assert_eq!(snapshot.changed_since("/w", &vec![file("/w/l", 0, 0)]), Ok(true));
}

#[test]
fn snapshots_hold_what_lies_below_their_root() {
    assert_eq!(relative_snapshot_path("/w", "/w/a/b"), Ok("a/b".to_string()));
    assert_eq!(relative_snapshot_path("/w/", "/w/a"), Ok("a".to_string()));
    assert_eq!(relative_snapshot_path("/w", "/w"), Ok(String::new()));
    for root in ["", "/", ".", "/w", "/w/", "w", "./w", "/w//x/./y", "../w"] {
        for path in ["", "/", "/w", "/w/", "w/a", "./w/a", "/w/x/y//z", "/ww", "../w/b/", "/w/x/y"] {
            let expected = std::path::Path::new(path).strip_prefix(root).ok();
            match relative_snapshot_path(root, path) {
                Ok(rest) => {
                    assert_eq!(Some(std::path::Path::new(&rest)), expected, "{root} {path}");
                    assert_eq!(std::path::Path::new(root).join(&rest), std::path::Path::new(path));
                }
                Err(_) => assert_eq!(None, expected, "{root} {path}"),
            }
        }
    }
    assert_eq!(
        relative_snapshot_path("/w", "/work/a"),
        Err("failed to normalize /work/a: prefix not found".to_string())
    );
    assert!(WorkspaceSnapshot::capture("/w", &vec![file("/x", 1, 1)]).is_err());
    assert!(should_skip_snapshot_dir(".git") && !should_skip_snapshot_dir("src"));
    assert!(should_skip_snapshot_file(".DS_Store") && !should_skip_snapshot_file("tasks.dbx"));
}
