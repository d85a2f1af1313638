use task_executor::clock::Timestamp;
use task_executor::items::TokenUsage;
use task_executor::usage::{
    build_llm_usage_event, build_prompt_input_event, cache_read_tokens, execution_phase_label,
    measures_prompts_of, usage_project_label, ExecutionPhase, TurnInfo,
};

fn at() -> Timestamp {
    Timestamp::new(1_767_225_600, 0).unwrap()
}

fn info(task_id: &str, turn: u32, phase: &str, agent: &str, model: Option<&str>) -> TurnInfo {
    TurnInfo {
        task_id: task_id.to_string(),
        turn,
        phase: phase.to_string(),
        agent: agent.to_string(),
        model: model.map(str::to_string),
        project: "/repo".to_string(),
    }
}

#[test]
fn build_llm_usage_event_records_usage_payload() {
    let usage = TokenUsage { input_tokens: 10, output_tokens: 4, total_tokens: 18 };
    let event = build_llm_usage_event(
        &info("usage-task", 2, "implementing", "codex", Some("gpt-5")),
        usage,
        at(),
    )
    .expect("missing llm_usage event");
    assert_eq!(event.hook, "llm_usage");
    assert_eq!(event.agent, "codex");
    assert_eq!(event.turn, 2);
    let payload: serde_json::Value = serde_json::from_str(&event.content).unwrap();
    assert_eq!(payload["agent"], "codex");
    assert_eq!(payload["model"], "gpt-5");
    assert_eq!(payload["task_id"], "usage-task");
    assert_eq!(payload["project"], "/repo");
    assert_eq!(payload["input_tokens"], 10);
    assert_eq!(payload["output_tokens"], 4);
    assert_eq!(payload["cache_read_input_tokens"], 4);
    assert_eq!(payload["cache_creation_input_tokens"], 0);
    assert_eq!(payload["ts"], "2026-01-01T00:00:00+00:00");
}

#[test]
fn build_llm_usage_event_skips_zero_placeholder_usage() {
    let event = build_llm_usage_event(
        &info("usage-task", 1, "implementing", "codex", None),
        TokenUsage::default(),
        at(),
    );
    assert!(event.is_none());
}

#[test]
fn build_prompt_input_event_records_size_payload() {
    let event = build_prompt_input_event(
        &info("prompt-size-task", 3, "planning", "codex", Some("sonnet")),
        "hello world",
        2,
        at(),
    );
    assert_eq!(event.hook, "llm_prompt_input");
    assert_eq!(event.agent, "codex");
    assert_eq!(event.turn, 3);
    assert_eq!(event.phase, "planning");
    let payload: serde_json::Value = serde_json::from_str(&event.content).unwrap();
    assert_eq!(payload["agent"], "codex");
    assert_eq!(payload["prompt_chars"], 11);
    assert_eq!(payload["prompt_bytes"], 11);
    assert_eq!(payload["context_items"], 2);
}

#[test]
fn prompt_size_counts_chars_and_bytes_apart() {
    let event = build_prompt_input_event(&info("t", 1, "p", "a", None), "é\"\n", 0, at());
    let payload: serde_json::Value = serde_json::from_str(&event.content).unwrap();
    assert_eq!(payload["prompt_chars"], 3);
    assert_eq!(payload["prompt_bytes"], 4);
}

#[test]
fn tokens_beyond_input_and_output_were_read_from_the_cache() {
    let usage = TokenUsage { input_tokens: 10, output_tokens: 4, total_tokens: 10 };
    assert_eq!(cache_read_tokens(usage), 0);
    let usage = TokenUsage { input_tokens: u64::MAX, output_tokens: 4, total_tokens: u64::MAX };
    assert_eq!(cache_read_tokens(usage), 0);
    let usage = TokenUsage { input_tokens: 1, output_tokens: 2, total_tokens: 103 };
    assert_eq!(cache_read_tokens(usage), 100);
}

#[test]
fn execution_phase_label_preserves_simple_review_snake_case() {
    assert_eq!(execution_phase_label(Some(ExecutionPhase::SimpleReview)), "simple_review");
    assert_eq!(execution_phase_label(None), "unknown");
}

#[test]
fn usage_project_label_prefers_canonical_task_root() {
    assert_eq!(
        usage_project_label(Some("/repo/main"), "/tmp/harness-worktree"),
        "/repo/main"
    );
}

#[test]
fn usage_project_label_falls_back_to_request_root() {
    assert_eq!(usage_project_label(None, "/tmp/harness-worktree"), "/tmp/harness-worktree");
}

#[test]
fn prompts_of_one_agent_are_measured() {
    assert!(measures_prompts_of("one", "one"));
    assert!(!measures_prompts_of("other", "one"));
}
