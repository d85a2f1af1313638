use task_executor::events::Decision;
use task_executor::interceptors::{
    run_post_execute, run_post_tool_use, run_pre_execute, take_answer, Feedback, InterceptAnswer,
    PostCheck, PreExecute,
};
use task_executor::items::{
    artifact_of, process_stream_item, Item, Notification, StreamItem, TokenUsage,
};
use task_executor::porcelain::parse_porcelain_z_paths;
use task_executor::retry::truncate_validation_error;

#[test]
fn helpers_context_stream_tests_truncate_short_error_passes_through() {
    assert_eq!(truncate_validation_error("short", 100), "short");
}

#[test]
fn helpers_context_stream_tests_truncate_long_error_includes_summary() {
    let input = "x".repeat(200);
    let result = truncate_validation_error(&input, 50);
    assert!(result.starts_with(&"x".repeat(50)));
    assert!(result.contains("(output truncated, 200 chars total)"));
}

#[test]
fn helpers_tests_truncate_short_error_passes_through() {
    assert_eq!(truncate_validation_error("short", 100), "short");
}

#[test]
fn helpers_tests_truncate_long_error_includes_summary() {
    let input = "x".repeat(200);
    let result = truncate_validation_error(&input, 50);
    assert!(result.starts_with(&"x".repeat(50)));
    assert!(result.contains("(output truncated, 200 chars total)"));
}

#[test]
fn truncate_short_string_passes_through() {
    let input = "short error";
    let result = truncate_validation_error(input, 100);
    assert_eq!(result, "short error");
}

#[test]
fn truncate_at_max_chars_boundary() {
    let input = "a".repeat(200);
    let result = truncate_validation_error(&input, 50);
    assert!(result.starts_with(&"a".repeat(50)));
    assert!(result.contains("(output truncated, 200 chars total)"));
}

#[test]
fn truncate_preserves_utf8_boundary() {
    let input = "ééééé";
    let result = truncate_validation_error(input, 3);
    assert!(result.starts_with("é"));
    assert!(result.contains("(output truncated,"));
}

#[test]
fn truncate_counts_bytes() {
    assert_eq!(truncate_validation_error("ééé", 6), "ééé");
    assert_eq!(
        truncate_validation_error("ééé", 5),
        "éé\n\n... (output truncated, 6 chars total)"
    );
    assert_eq!(
        truncate_validation_error("é", 0),
        "\n\n... (output truncated, 2 chars total)"
    );
    assert_eq!(truncate_validation_error("", 0), "");
}

#[test]
fn parse_porcelain_z_paths_uses_rename_destination() {
    let raw = b"R  old.txt\0new.txt\0";
    let paths = parse_porcelain_z_paths(raw);
    assert_eq!(paths, vec![b"new.txt".to_vec()]);
}

#[test]
fn parse_porcelain_z_paths_ignores_deletions() {
    let raw = b"D  gone.txt\0";
    let paths = parse_porcelain_z_paths(raw);
    assert!(paths.is_empty());
}

#[test]
fn parse_porcelain_z_paths_keeps_modified_and_untracked() {
    let raw = b" M src/lib.rs\0?? new_file.rs\0";
    let paths = parse_porcelain_z_paths(raw);
    assert_eq!(paths, vec![b"src/lib.rs".to_vec(), b"new_file.rs".to_vec()]);
}

#[test]
fn parse_porcelain_z_paths_at_its_edges() {
    assert!(parse_porcelain_z_paths(b"").is_empty());
    assert!(parse_porcelain_z_paths(b"M \0??\0").is_empty());
    assert!(parse_porcelain_z_paths(b"R  old.txt\0").is_empty());
    assert_eq!(
        parse_porcelain_z_paths(b"RD a\0b\0 D c\0 M d"),
        vec![b"d".to_vec()]
    );
}

#[derive(Clone, Debug, PartialEq)]
struct Request {
    prompt: String,
    tools: Vec<String>,
}

fn request(prompt: &str) -> Request {
    Request { prompt: prompt.to_string(), tools: vec!["Read".to_string()] }
}

fn answer(
    name: &str,
    decision: Decision,
    reason: Option<&str>,
    changed: Option<Request>,
) -> InterceptAnswer<Request> {
    InterceptAnswer {
        name: name.to_string(),
        decision,
        reason: reason.map(str::to_string),
        request: changed,
    }
}

#[test]
fn run_pre_execute_passes_with_pass_interceptor() {
    let answers = vec![answer("pass", Decision::Pass, None, None)];
    assert!(run_pre_execute(answers, request("test prompt")).is_ok());
}

#[test]
fn run_pre_execute_fails_with_blocking_interceptor() {
    let answers = vec![answer("block", Decision::Block, Some("not allowed"), None)];
    let msg = run_pre_execute(answers, request("test prompt")).unwrap_err();
    assert!(msg.contains("Blocked by interceptor"));
    assert!(msg.contains("not allowed"));
    assert_eq!(msg, "Blocked by interceptor 'block': not allowed");
}

#[test]
fn run_pre_execute_warn_does_not_block() {
    let answers = vec![answer("warn", Decision::Warn, Some("non-fatal warning"), None)];
    let given = run_pre_execute(answers, request("test prompt"));
    assert!(given.is_ok(), "warn should not block execution");
}

#[test]
fn run_pre_execute_returns_modified_request() {
    let changed = Request { prompt: "MODIFIED: test prompt".to_string(), tools: vec![] };
    let answers = vec![answer("modifying", Decision::Pass, None, Some(changed.clone()))];
    let given = run_pre_execute(answers, request("test prompt")).unwrap();
    assert!(given.prompt.starts_with("MODIFIED:"), "interceptor should have modified the prompt");
    assert_eq!(given, changed);
}

#[test]
fn run_pre_execute_empty_interceptors_returns_original() {
    let given = run_pre_execute(vec![], request("test prompt")).unwrap();
    assert_eq!(given.prompt, "test prompt");
    assert_eq!(given, request("test prompt"));
}

#[test]
fn run_pre_execute_stops_chain_at_first_block() {
    let answers = vec![
        answer("first", Decision::Pass, None, Some(request("changed"))),
        answer("block", Decision::Block, None, None),
        answer("late", Decision::Block, Some("unheard"), None),
    ];
    assert_eq!(
        run_pre_execute(answers, request("test prompt")),
        Err("Blocked by interceptor 'block': block".to_string())
    );
}

#[test]
fn each_interceptor_is_asked_about_what_the_one_before_made_of_the_request() {
    let mut asked = PreExecute::new(3, request("a"));
    assert_eq!(asked.next(), Some((0, &request("a"))));
    asked = asked.answer(answer("first", Decision::Pass, None, Some(request("b"))));
    assert_eq!(asked.next(), Some((1, &request("b"))));
    asked = asked.answer(answer("second", Decision::Warn, Some("hm"), None));
    assert_eq!(asked.next(), Some((2, &request("b"))));
    asked = asked.answer(answer("third", Decision::Pass, None, Some(request("c"))));
    assert_eq!(asked.next(), None);
    assert_eq!(asked.end(), Ok(request("c")));
    let all = vec![
        answer("first", Decision::Pass, None, Some(request("b"))),
        answer("second", Decision::Warn, Some("hm"), None),
        answer("third", Decision::Pass, None, Some(request("c"))),
    ];
    assert_eq!(run_pre_execute(all, request("a")), Ok(request("c")));
}

#[test]
fn no_interceptor_is_asked_after_a_refusal() {
    let refused =
        PreExecute::new(2, request("a")).answer(answer("no", Decision::Block, Some("not now"), None));
    assert_eq!(refused.next(), None);
    assert_eq!(refused.end(), Err("Blocked by interceptor 'no': not now".to_string()));
    let changed = take_answer(answer("x", Decision::Pass, None, Some(request("b"))), request("a"));
    assert_eq!(changed, Ok(request("b")));
}

#[test]
fn no_interceptor_is_asked_after_an_objection() {
    let mut check = PostCheck::new(3);
    assert_eq!(check.next(), Some(0));
    check = check.answer(feedback("pass", None));
    assert_eq!(check.next(), Some(1));
    check = check.answer(feedback("strict", Some("too long")));
    assert_eq!(check.next(), None);
    assert_eq!(check.end(), Some("[strict] too long".to_string()));
    let clean = PostCheck::new(1).answer(feedback("pass", None));
    assert_eq!(clean.next(), None);
    assert_eq!(clean.end(), None);
}

fn feedback(name: &str, objection: Option<&str>) -> Feedback {
    Feedback { name: name.to_string(), objection: objection.map(str::to_string) }
}

#[test]
fn run_post_execute_returns_none_when_all_pass() {
    assert!(run_post_execute(&vec![feedback("pass", None)]).is_none());
}

#[test]
fn run_post_execute_returns_error_when_interceptor_fails() {
    let err = run_post_execute(&vec![feedback("failing_post", Some("validation failed"))]).unwrap();
    assert!(err.contains("failing_post"), "error should name the interceptor");
    assert!(err.contains("validation failed"));
    assert_eq!(err, "[failing_post] validation failed");
}

#[test]
fn run_post_execute_returns_first_failure_only() {
    let all = vec![
        feedback("pass", None),
        feedback("first_fail", Some("first error")),
        feedback("second_fail", Some("second error")),
    ];
    let error = run_post_execute(&all).expect("should have an error");
    assert!(error.contains("first_fail"));
    assert!(error.contains("first error"));
    assert!(!error.contains("second_fail"));
    assert!(!error.contains("second error"));
}

#[test]
fn run_post_execute_empty_interceptors_returns_none() {
    assert!(run_post_execute(&vec![]).is_none());
}

#[test]
fn run_post_tool_use_returns_none_when_no_violations() {
    assert!(run_post_tool_use(&vec![feedback("pass", None)]).is_none());
}

#[test]
fn run_post_tool_use_returns_violation_feedback() {
    let told =
        run_post_tool_use(&vec![feedback("violating_tool", Some("found a violation"))]).unwrap();
    assert!(told.contains("violating_tool"), "feedback should name the interceptor");
    assert!(told.contains("found a violation"));
}

#[test]
fn run_post_tool_use_empty_interceptors_returns_none() {
    assert!(run_post_tool_use(&vec![]).is_none());
}

fn approval_request_is_appended_and_told() {
    let effect = process_stream_item(StreamItem::ApprovalRequest {
        id: "req-42".to_string(),
        command: "rm -rf /tmp/test".to_string(),
    });
    assert!(matches!(
        effect.append,
        Some(Item::ApprovalRequest { action, approved: None, .. }) if action == "rm -rf /tmp/test"
    ));
    match effect.notify {
        Some(Notification::ApprovalRequest { request_id, command }) => {
            assert_eq!(request_id, "req-42");
            assert_eq!(command, "rm -rf /tmp/test");
        }
        other => panic!("expected ApprovalRequest notification, got {other:?}"),
    }
    assert!(effect.usage.is_none());
}

#[test]
fn helpers_context_stream_tests_process_stream_item_approval_request_appends_item_and_emits_notification() {
    approval_request_is_appended_and_told();
}

#[test]
fn helpers_tests_process_stream_item_approval_request_appends_item_and_emits_notification() {
    approval_request_is_appended_and_told();
}

#[test]
fn process_stream_item_warning_emits_notification() {
    let effect = process_stream_item(StreamItem::Warning { message: "careful".to_string() });
    assert!(effect.append.is_none());
    match effect.notify {
        Some(Notification::Warning { message }) => assert_eq!(message, "careful"),
        other => panic!("expected Warning notification, got {other:?}"),
    }
}

#[test]
fn process_stream_item_tool_output_delta_emits_notification() {
    let effect = process_stream_item(StreamItem::ToolOutputDelta {
        item_id: "item-1".to_string(),
        text: "cargo check\n".to_string(),
    });
    assert!(effect.append.is_none());
    match effect.notify {
        Some(Notification::ToolOutputDelta { item_id, text }) => {
            assert_eq!(item_id, "item-1");
            assert_eq!(text, "cargo check\n");
        }
        other => panic!("expected ToolOutputDelta notification, got {other:?}"),
    }
}

#[test]
fn stream_errors_are_kept_and_not_told() {
    let effect = process_stream_item(StreamItem::Error { message: "lost".to_string() });
    assert!(matches!(
        effect.append,
        Some(Item::Error { code: -1, message }) if message == "lost"
    ));
    assert!(effect.notify.is_none());
    let usage = TokenUsage { input_tokens: 1, output_tokens: 2, total_tokens: 3 };
    let effect = process_stream_item(StreamItem::TokenUsage { usage });
    assert_eq!(effect.usage, Some(usage));
    assert!(matches!(effect.notify, Some(Notification::TokenUsageUpdated { .. })));
    let effect = process_stream_item(StreamItem::Done);
    assert!(effect.append.is_none() && effect.usage.is_none() && effect.notify.is_none());
}

#[test]
fn artifacts_are_json_objects() {
    let command = Item::ShellCommand {
        command: "echo \"hi\"".to_string(),
        exit_code: Some(-1),
        stdout: "hi\n".to_string(),
        stderr: String::new(),
    };
    let kept = artifact_of(&command).unwrap();
    assert_eq!(kept.kind, "shell_command");
    let v: serde_json::Value = serde_json::from_str(&kept.content).unwrap();
    assert_eq!(v["command"], "echo \"hi\"");
    assert_eq!(v["exit_code"], -1);
    assert_eq!(v["stdout"], "hi\n");
    assert_eq!(v["stderr"], "");
    assert_eq!(v.as_object().unwrap().len(), 4);
    let edit = Item::FileEdit {
        path: "a.rs".to_string(),
        before: "x".to_string(),
        after: "y".to_string(),
    };
    let kept = artifact_of(&edit).unwrap();
    assert_eq!(kept.kind, "file_edit");
    assert_eq!(kept.content, "{\"after\":\"y\",\"before\":\"x\",\"path\":\"a.rs\"}");
    assert!(artifact_of(&Item::AgentReasoning { content: "hm".to_string() }).is_none());
}

#[test]
fn tool_calls_keep_their_input_and_output() {
    let input: serde_json::Value = serde_json::from_str("{\"pattern\":\"a\",\"n\":[1,2.5]}").unwrap();
    let call = |output| Item::ToolCall { name: "grep".to_string(), input: input.clone(), output };
    let kept = artifact_of(&call(Some(serde_json::Value::from("two lines")))).unwrap();
    assert_eq!(kept.kind, "tool_call");
    assert_eq!(
        kept.content,
        "{\"input\":{\"n\":[1,2.5],\"pattern\":\"a\"},\"name\":\"grep\",\"output\":\"two lines\"}"
    );
    let kept = artifact_of(&call(None)).unwrap();
    let v: serde_json::Value = serde_json::from_str(&kept.content).unwrap();
    assert_eq!(v["input"], input);
    assert!(v["output"].is_null());
    assert_eq!(v.as_object().unwrap().len(), 3);
    let effect = process_stream_item(StreamItem::ItemCompleted { item: call(None) });
    match effect.notify {
        Some(Notification::ItemCompleted { item: Item::ToolCall { name, input: told, output } }) => {
            assert_eq!(name, "grep");
            assert_eq!(told, input);
            assert!(output.is_none());
        }
        other => panic!("unexpected {other:?}"),
    }
    assert!(matches!(
        effect.append,
        Some(Item::ToolCall { input: appended, .. }) if appended == input
    ));
}
