use task_executor::clock::Timestamp;
use task_executor::closing::GhPrListItem;
use task_executor::events::Decision;
use task_executor::lookup::{page_refused_message, parse_next_link, FoundPr, PrLookup, MAX_PAGES};
use task_executor::non_implementation::{
    build_report_prompt, finish_report, missing_input_error, timeout_error,
};
use task_executor::outcome::{ImplementEnd, LogEntry};
use task_executor::phase::{
    add_caller_context, add_sibling_context, add_validation_instructions, build_full_prompt,
    build_task_prompt, choose_base_prompt, collect_context_items, compress_observation_for_prompt,
    compression_summary, inject_project_context_into_prompt, join_skill_sections,
    resume_from_checkpoint, sibling_tasks, skill_used_event, BasePrompt, Compression, ContextItem,
    PromptParts, Sibling,
};
use task_executor::pipeline::{
    begin_phase, carried_turns, missing_project_error, phase_error_text, plan_answered,
    plan_prompt_for_task, project_config_error, resolve_plan, resume_state, triage_answered,
    NextStep, PhaseFault, PlanSource, ReviewPlan, TaskPhase, TriageDecision, TriageStep,
};
use task_executor::gates::ConflictGateOutcome;
use task_executor::markers::PrReviewPrepOutcome;
use task_executor::plan_run::{PhaseCall, PlanRun, PlanStage, PlanStep};
use task_executor::request::TaskKind;
use task_executor::run::{implement_event, plan_event, planning_event, RunEvent, RunStage, TaskRun};
use task_executor::settings::TriageComplexity;
use task_executor::task::{TaskRecord, TaskStatus};
use task_executor::telemetry::{telemetry_for_timeout, TurnTelemetry};

fn text(s: &str) -> String {
    s.to_string()
}

fn telemetry() -> TurnTelemetry {
    let at = |secs| Timestamp::new(secs, 0).unwrap();
    telemetry_for_timeout(at(0), at(1), at(3), Some(1))
}

const FULL: ReviewPlan =
    ReviewPlan { enabled: true, has_reviewer: true, hosted: true, wait_secs: 30, max_rounds: 3 };

#[test]
fn task_runs_through_all_its_stages() {
    let mut run = TaskRun::new(FULL, true, false);
    assert_eq!(run.stage, RunStage::Begin);
    let events = [
        (RunEvent::TriageNeeded { issue: 7 }, RunStage::Triage { issue: 7 }),
        (RunEvent::TriagedWithPlan, RunStage::Plan { for_issue: true }),
        (RunEvent::Planned, RunStage::Implement),
        (RunEvent::PlanRejected { plan_again: true }, RunStage::Plan { for_issue: true }),
        (RunEvent::Planned, RunStage::Implement),
        (
            RunEvent::PrReady { pr_num: 9, pushed_commit: false },
            RunStage::AgentReview { pr_num: 9, pushed_commit: false },
        ),
        (
            RunEvent::Reviewed { passed: true, pushed_commit: true },
            RunStage::HostedReview { pr_num: 9, agent_pushed_commit: true },
        ),
        (RunEvent::HostedReviewOver, RunStage::Done),
    ];
    for (event, stage) in events {
        assert!(run.advance(event).is_none());
        assert_eq!(run.stage, stage);
    }
}

#[test]
fn task_without_reviews_is_done_with_its_pull_request() {
    let plan = ReviewPlan { enabled: false, hosted: false, ..FULL };
    let mut run = TaskRun::new(plan, true, false);
    run.advance(RunEvent::NoPlanNeeded);
    let change = run.advance(RunEvent::PrReady { pr_num: 9, pushed_commit: false }).unwrap();
    assert_eq!(change.status, Some(TaskStatus::Done));
    assert_eq!(change.turn, Some(2));
    assert_eq!(run.stage, RunStage::Done);
}

#[test]
fn failed_work_stops_the_task() {
    let mut run = TaskRun::new(FULL, true, false);
    run.advance(RunEvent::PlanNeeded);
    assert_eq!(run.stage, RunStage::Plan { for_issue: false });
    run.advance(RunEvent::Failed);
    assert_eq!(run.stage, RunStage::Stopped);
    assert_eq!(TaskRun::new(FULL, false, false).stage, RunStage::Stopped);
    assert!(missing_project_error("/gone").contains("/gone"));
}

#[test]
fn review_that_does_not_pass_ends_the_task() {
    let mut run = TaskRun::new(FULL, true, false);
    run.advance(RunEvent::NoPlanNeeded);
    run.advance(RunEvent::PrReady { pr_num: 9, pushed_commit: false });
    assert!(run.advance(RunEvent::Reviewed { passed: false, pushed_commit: true }).is_none());
    assert_eq!(run.stage, RunStage::Done);
}

fn implementing(plan: ReviewPlan, local_gate: bool) -> TaskRun {
    let mut run = TaskRun::new(plan, true, local_gate);
    run.advance(RunEvent::NoPlanNeeded);
    run
}

#[test]
fn earlier_pull_requests_are_looked_at_for_conflicts_first() {
    let resumed = RunEvent::PrResumed { pr_num: 9, pushed_commit: false };
    for (outcome, stage) in [
        (
            ConflictGateOutcome::Clean,
            RunStage::AgentReview { pr_num: 9, pushed_commit: false },
        ),
        (
            ConflictGateOutcome::RebasePushed,
            RunStage::AgentReview { pr_num: 9, pushed_commit: true },
        ),
        (ConflictGateOutcome::Failed, RunStage::Done),
    ] {
        let mut run = implementing(FULL, false);
        assert!(run.advance(resumed).is_none());
        assert_eq!(run.stage, RunStage::ConflictGate { pr_num: 9, pushed_commit: false });
        assert!(run.advance(RunEvent::Gated { outcome }).is_none());
        assert_eq!(run.stage, stage);
    }
    let mut run = implementing(FULL, false);
    run.advance(RunEvent::PrReady { pr_num: 9, pushed_commit: true });
    run.advance(RunEvent::Reviewed { passed: true, pushed_commit: false });
    assert_eq!(run.stage, RunStage::HostedReview { pr_num: 9, agent_pushed_commit: true });
    let mut run = implementing(FULL, false);
    assert!(run.advance(RunEvent::PrConflicts).is_none());
    assert_eq!(run.stage, RunStage::Done);
}

#[test]
fn local_checks_follow_only_an_approval() {
    let local = ReviewPlan { hosted: false, ..FULL };
    let mut run = implementing(local, true);
    run.advance(RunEvent::PrReady { pr_num: 9, pushed_commit: false });
    assert!(run.advance(RunEvent::Reviewed { passed: true, pushed_commit: false }).is_none());
    assert_eq!(run.stage, RunStage::LocalChecks { pr_num: 9 });
    assert!(run.advance(RunEvent::LocalEndStored).is_none());
    assert_eq!(run.stage, RunStage::Done);
    let unreviewed = ReviewPlan { enabled: false, ..local };
    let mut run = implementing(unreviewed, true);
    assert!(run.advance(RunEvent::PrReady { pr_num: 9, pushed_commit: false }).is_none());
    assert_eq!(run.stage, RunStage::NoLocalReview { pr_num: 9 });
}

fn answered(output: &str) -> PhaseCall {
    PhaseCall::Answered { output: text(output) }
}

#[test]
fn answered_calls_count_as_turns() {
    let mut run = PlanRun::for_issue(5, 3);
    let (step, change) = run.called(answered("look"), Some(TriageDecision::ProceedWithPlan));
    assert!(matches!(step, PlanStep::Plan));
    assert_eq!(change.unwrap().triage_output.as_deref(), Some("look"));
    assert_eq!(run, PlanRun { stage: PlanStage::Plan { for_issue: true }, turns_used: 4 });
    let (step, change) = run.called(answered("steps"), None);
    assert!(matches!(step, PlanStep::Ready { plan: Some(plan) } if plan == "steps"));
    assert_eq!(change.unwrap().checkpoint, Some("plan_done"));
    assert_eq!(run, PlanRun { stage: PlanStage::Over, turns_used: 5 });

    let mut run = PlanRun::for_issue(5, 3);
    let (step, change) = run.called(answered("look"), Some(TriageDecision::Skip));
    assert!(matches!(step, PlanStep::Stop { error } if error == "triage decided to skip issue #5"));
    assert!(change.is_some());
    assert_eq!(run.turns_used, 4);

    let mut run = PlanRun::for_issue(5, 3);
    let (step, change) = run.called(PhaseCall::Fault(PhaseFault::TimedOut { secs: 9 }), None);
    assert!(matches!(step, PlanStep::Stop { error } if error == "triage phase timed out after 9s"));
    assert!(change.is_none());
    assert_eq!(run.turns_used, 3);

    let mut run = PlanRun::for_prompt(0);
    let gone = PhaseFault::Failed { error: text("gone") };
    let (step, _) = run.called(PhaseCall::Fault(gone), None);
    assert!(matches!(step, PlanStep::Stop { error } if error == "plan phase agent error: gone"));
    let mut run = PlanRun::for_prompt(0);
    let (step, change) = run.called(answered("steps"), None);
    assert!(matches!(step, PlanStep::Ready { plan: Some(_) }));
    assert_eq!(change.unwrap().checkpoint, None);
    assert_eq!(run.turns_used, 1);
}

#[test]
fn reviews_follow_each_other() {
    assert!(matches!(FULL.after_implementation(), NextStep::AgentReview));
    assert!(matches!(
        FULL.after_agent_review(true),
        NextStep::HostedReview { wait_secs: 30, max_rounds: 3, agent_pushed_commit: true }
    ));
    let hosted_only = ReviewPlan { has_reviewer: false, ..FULL };
    assert!(matches!(
        hosted_only.after_implementation(),
        NextStep::HostedReview { agent_pushed_commit: false, .. }
    ));
    let local_only = ReviewPlan { hosted: false, ..FULL };
    assert!(matches!(local_only.after_agent_review(false), NextStep::Over { .. }));
}

#[test]
fn review_plan_prefers_the_projects_waiting_time() {
    let plan =
        ReviewPlan::new(true, true, true, Some(10), 20, None, None, TriageComplexity::Medium);
    assert_eq!(plan.wait_secs, 10);
    assert_eq!(plan.max_rounds, 8);
    let plan =
        ReviewPlan::new(true, true, true, None, 20, Some(4), None, TriageComplexity::Medium);
    assert_eq!((plan.wait_secs, plan.max_rounds), (20, 4));
}

#[test]
fn plans_come_from_where_they_have_to() {
    assert!(matches!(
        resolve_plan(true, Some(text("p")), Some(1), None, false, true),
        PlanSource::NoPlan
    ));
    assert!(matches!(
        resolve_plan(false, Some(text("p")), Some(1), None, false, false),
        PlanSource::Saved { plan } if plan == "p"
    ));
    let triage = resolve_plan(false, None, Some(1), None, false, false);
    assert_eq!(plan_event(&triage), RunEvent::TriageNeeded { issue: 1 });
    assert!(matches!(resolve_plan(false, None, Some(1), None, true, false), PlanSource::NoPlan));
    let forced = resolve_plan(false, None, None, None, false, true);
    assert_eq!(plan_event(&forced), RunEvent::PlanNeeded);
    assert!(matches!(resolve_plan(false, None, None, Some(2), false, true), PlanSource::NoPlan));
    assert!(matches!(resolve_plan(false, None, None, None, false, false), PlanSource::NoPlan));
}

#[test]
fn triage_decides_what_follows() {
    let (step, told) = triage_answered(5, text("out"), Some(TriageDecision::Skip));
    assert!(matches!(&step, TriageStep::Stop { error } if error == "triage decided to skip issue #5"));
    assert_eq!(told.change.status, Some(TaskStatus::Done));
    assert_eq!(told.triage_output.as_deref(), Some("out"));
    assert_eq!(told.checkpoint, Some("triage_done"));

    let (step, told) = triage_answered(5, text("out"), Some(TriageDecision::NeedsClarification));
    assert!(matches!(
        &step,
        TriageStep::Stop { error } if error == "triage requires clarification on issue #5"
    ));
    assert_eq!(told.change.status, Some(TaskStatus::Failed));

    let (step, told) = triage_answered(5, text("out"), None);
    assert!(matches!(&step, TriageStep::Stop { error } if error.contains("unparseable")));
    assert_eq!(told.change.status, None);

    let (step, _) = triage_answered(5, text("out"), Some(TriageDecision::Proceed));
    assert!(matches!(step, TriageStep::Implement));
    let (step, told) = triage_answered(5, text("out"), Some(TriageDecision::ProceedWithPlan));
    assert!(matches!(step, TriageStep::Plan));
    assert_eq!(told.phase, Some(TaskPhase::Plan));
}

#[test]
fn steps_to_a_plan_move_the_task() {
    let triage = PlanStage::Triage { issue: 5 };
    let plan = PlanStage::Plan { for_issue: true };
    let stop = PlanStep::Stop { error: text("x") };
    assert_eq!(planning_event(triage, &stop), RunEvent::Failed);
    assert_eq!(planning_event(plan, &stop), RunEvent::Failed);
    assert_eq!(planning_event(triage, &PlanStep::Plan), RunEvent::TriagedWithPlan);
    let ready = |plan: Option<&str>| PlanStep::Ready { plan: plan.map(text) };
    assert_eq!(planning_event(triage, &ready(None)), RunEvent::TriagedWithoutPlan);
    assert_eq!(planning_event(plan, &ready(Some("p"))), RunEvent::Planned);
}

#[test]
fn plans_are_kept() {
    let told = plan_answered(text("plan"), true);
    assert_eq!(told.plan_output.as_deref(), Some("plan"));
    assert_eq!(told.phase, Some(TaskPhase::Implement));
    assert_eq!(told.checkpoint, Some("plan_done"));
    assert_eq!(plan_answered(text("plan"), false).checkpoint, None);
    assert_eq!(begin_phase(TaskPhase::Triage).phase, Some(TaskPhase::Triage));
    assert!(plan_prompt_for_task("do it").ends_with("Task:\ndo it"));
}

#[test]
fn phases_fail_with_their_names() {
    assert_eq!(
        phase_error_text("Triage", PhaseFault::TimedOut { secs: 9 }),
        "Triage phase timed out after 9s"
    );
    assert_eq!(
        phase_error_text("Plan", PhaseFault::Failed { error: text("gone") }),
        "Plan phase agent error: gone"
    );
    assert!(project_config_error("t1", "/p").contains("t1"));
    assert_eq!(carried_turns(3, 2), 5);
}

#[test]
fn resumed_tasks_use_what_was_stored() {
    let state = resume_state(
        Some(text("https://github.com/o/r/pull/1")),
        Some(text("https://github.com/o/r/pull/2")),
        Some(text("plan")),
        None,
    );
    assert_eq!(state.pr_url.as_deref(), Some("https://github.com/o/r/pull/1"));
    assert_eq!(state.repo_slug, "{owner}/{repo}");
    let state = resume_state(None, Some(text("u")), None, Some(text("o/r")));
    assert_eq!(state.pr_url.as_deref(), Some("u"));
    assert_eq!(state.plan, None);
    assert_eq!(state.repo_slug, "o/r");
}

#[test]
fn implementation_reports_where_the_task_goes() {
    assert_eq!(implement_event(&ImplementEnd::Done, true, false), RunEvent::ImplementationOver);
    let ready = |pushed_commit, review_prep| ImplementEnd::Proceed {
        pr_url: None,
        pr_num: 4,
        pushed_commit,
        review_prep,
    };
    assert_eq!(
        implement_event(&ready(false, None), true, false),
        RunEvent::PrReady { pr_num: 4, pushed_commit: false }
    );
    assert_eq!(
        implement_event(&ready(false, Some(PrReviewPrepOutcome::RebasePushed)), true, false),
        RunEvent::PrReady { pr_num: 4, pushed_commit: true }
    );
    assert_eq!(
        implement_event(&ready(true, Some(PrReviewPrepOutcome::RebaseSkipped)), true, true),
        RunEvent::PrResumed { pr_num: 4, pushed_commit: true }
    );
    let conflict = PrReviewPrepOutcome::RebaseConflict { paths: vec![] };
    assert_eq!(implement_event(&ready(true, Some(conflict)), true, true), RunEvent::PrConflicts);
    let replan =
        ImplementEnd::Replan { issue: 1, plan_issue: text("x"), prior_plan: None };
    assert_eq!(implement_event(&replan, true, false), RunEvent::PlanRejected { plan_again: true });
}

fn found(url: &str) -> FoundPr {
    FoundPr { number: 8, branch: text("fix"), url: text(url) }
}

#[test]
fn no_second_pull_request_is_opened() {
    let chosen = choose_base_prompt(
        Some(5),
        None,
        None,
        Ok(Some(found("https://github.com/o/r/pull/8"))),
        "x/y",
    );
    assert!(matches!(
        chosen,
        Ok(BasePrompt::ContinuePr { issue: 5, pr_num: 8, branch, repo_slug })
            if branch == "fix" && repo_slug == "o/r"
    ));
    let unknown = choose_base_prompt(Some(5), None, None, Err(text("down")), "x/y");
    assert_eq!(
        unknown.unwrap_err(),
        "failed to check for an existing PR for issue #5; refusing to create a duplicate PR while lookup is unavailable"
    );
    assert!(matches!(
        choose_base_prompt(Some(5), None, None, Ok(None), "x/y"),
        Ok(BasePrompt::Issue { issue: 5 })
    ));
    assert!(matches!(
        choose_base_prompt(None, Some(3), Some(text("p")), Ok(None), "x/y"),
        Ok(BasePrompt::PreparePr { pr: 3, repo_slug }) if repo_slug == "x/y"
    ));
    assert!(matches!(
        choose_base_prompt(None, None, Some(text("p")), Err(text("down")), "x/y"),
        Ok(BasePrompt::Text { prompt }) if prompt == "p"
    ));
}

#[test]
fn missing_compressor_returns_raw_unchanged() {
    assert_eq!(compress_observation_for_prompt(Compression::Inactive, "raw"), "raw");
    assert_eq!(compress_observation_for_prompt(Compression::TooSmall, "raw"), "raw");
    assert_eq!(compress_observation_for_prompt(Compression::BreakerOpen, "raw"), "raw");
    assert_eq!(compress_observation_for_prompt(Compression::Failed, "raw"), "raw");
    assert_eq!(
        compress_observation_for_prompt(Compression::Compressed { text: text("short") }, "raw"),
        "short"
    );
    let summary = compression_summary(12, "o/r");
    assert!(summary.contains("12") && summary.contains("o/r"));
}

#[test]
fn prompts_are_put_together() {
    assert_eq!(
        add_caller_context(text("base"), Some("hint")),
        "base\n\nAdditional context from caller:\n<external_data>\nhint\n</external_data>"
    );
    assert_eq!(add_caller_context(text("base"), Some("")), "base");
    assert_eq!(add_caller_context(text("base"), None), "base");
    assert_eq!(add_validation_instructions(text("base"), false, "check"), "base\n\ncheck");
    assert_eq!(add_validation_instructions(text("base"), true, "check"), "base");
    assert_eq!(add_sibling_context(text("base"), true, "others"), "base\n\nothers");
    assert_eq!(add_sibling_context(text("base"), false, "others"), "base");
    assert_eq!(inject_project_context_into_prompt("GUIDE", "the job", " \n", text("base")), "base");
    assert_eq!(
        inject_project_context_into_prompt("GUIDE", "the job", "be kind", text("base")),
        "base\n\n## Project Instructions\nThe following trusted project instructions were loaded from GUIDE files. Follow them for the job.\n\nbe kind"
    );
    let parts = PromptParts {
        base: text("base"),
        caller_context: None,
        project_has_checks: true,
        instructions: text("check"),
        any_siblings: true,
        sibling_context: text("others"),
        constitution: text("GP-01"),
        constitution_enabled: true,
    };
    assert_eq!(build_task_prompt(parts), "GP-01\n\nbase\n\nothers");
    assert_eq!(build_full_prompt(text("base"), "GUIDE", "the job", "", "\nskills"), "base\nskills");
    assert_eq!(join_skill_sections(text("a"), "b"), "ab");
}

#[test]
fn siblings_have_to_be_described() {
    let siblings = sibling_tasks(vec![
        Sibling { issue: Some(1), description: Some(text("one")) },
        Sibling { issue: Some(2), description: None },
        Sibling { issue: None, description: Some(text("")) },
        Sibling { issue: None, description: Some(text("three")) },
    ]);
    assert_eq!(siblings.len(), 2);
    assert_eq!(siblings[0].issue, Some(1));
    assert_eq!(siblings[1].description.as_deref(), Some("three"));
}

#[test]
fn context_items_are_collected_in_order() {
    let items = collect_context_items(&vec![(text("s1"), text("body"))], "agents");
    assert_eq!(items.len(), 2);
    assert!(matches!(&items[0], ContextItem::Skill { id, content } if id == "s1" && content == "body"));
    assert!(matches!(&items[1], ContextItem::AgentsMd { content } if content == "agents"));
    assert!(collect_context_items(&vec![], "").is_empty());
    let event = skill_used_event("t1", "s1", "name");
    assert_eq!(event.hook, "skill_used");
}

#[test]
fn resumed_task_keeps_its_pull_request() {
    let (end, change) = resume_from_checkpoint(text("https://github.com/o/r/pull/12"), None);
    assert!(matches!(end, ImplementEnd::Proceed { pr_num: 12, pushed_commit: false, .. }));
    let mut record = TaskRecord::new();
    record.apply(change);
    assert_eq!(record.pr_url.as_deref(), Some("https://github.com/o/r/pull/12"));
    assert_eq!(record.rounds[0].result, "resumed_checkpoint");
    let (end, change) = resume_from_checkpoint(text("nowhere"), None);
    assert!(matches!(end, ImplementEnd::Done));
    assert_eq!(change.error.as_deref(), Some("checkpoint resume: no PR number in nowhere"));
}

#[test]
fn reports_end_their_tasks() {
    let end = finish_report(TaskKind::Review, "t1", "all good", telemetry());
    assert_eq!(end.change.status, Some(TaskStatus::Done));
    assert_eq!(end.change.rounds[0].result, "completed");
    assert_eq!(end.change.rounds[0].mark.telemetry, Some(telemetry()));
    assert_eq!(end.change.rounds[0].detail.as_deref(), Some("all good"));
    assert!(matches!(end.log, Some(LogEntry::Completed)));
    let event = end.event.unwrap();
    assert_eq!(event.hook, "task_review");
    assert_eq!(event.decision, Decision::Complete);
    let collision = "managed by another harness session";
    let end = finish_report(TaskKind::Review, "t1", collision, telemetry());
    assert_eq!(end.change.status, Some(TaskStatus::Failed));
    assert!(end.log.is_none() && end.event.is_none());
    assert_eq!(
        build_report_prompt(Some("note"), text("task"), "GUIDE", "the job", "", ""),
        "note\n\ntask"
    );
    assert!(missing_input_error(TaskKind::Planner).contains("planner"));
    assert!(timeout_error(TaskKind::Review, 60).contains("60"));
}

fn item(number: u64, body: &str) -> GhPrListItem {
    GhPrListItem {
        number,
        head_ref_name: text("fix"),
        url: format!("https://github.com/o/r/pull/{number}"),
        title: text("t"),
        body: text(body),
    }
}

fn follows_next_page() {
    let mut lookup = PrLookup::new("https://api.github.com", "o/r", 5);
    let first = lookup.next_request().unwrap();
    assert!(first.starts_with("https://api.github.com/repos/o/r/pulls"), "{first}");
    assert!(lookup.page_read(&vec![item(1, "unrelated")], Some(text("https://next"))).is_none());
    assert_eq!(lookup.next_request().as_deref(), Some("https://next"));
    let found = lookup.page_read(&vec![item(2, "Closes #5")], None).unwrap();
    assert_eq!(found.number, 2);
    assert_eq!(found.branch, "fix");
    assert_eq!(found.url, "https://github.com/o/r/pull/2");
}

#[test]
fn pr_detection_existing_pr_lookup_follows_next_page() {
    follows_next_page();
}

#[test]
fn pr_detection_tests_existing_pr_lookup_follows_next_page() {
    follows_next_page();
}

fn stops_after_page_limit() {
    let mut lookup = PrLookup::new("https://api.github.com", "o/r", 5);
    let mut pages = 0;
    while lookup.next_request().is_some() {
        pages += 1;
        assert!(lookup
            .page_read(&vec![], Some(format!("https://api.github.com/page/{pages}")))
            .is_none());
    }
    assert_eq!(pages, MAX_PAGES);
}

#[test]
fn pr_detection_existing_pr_lookup_stops_after_page_limit_without_error() {
    stops_after_page_limit();
}

#[test]
fn pr_detection_tests_existing_pr_lookup_stops_after_page_limit_without_error() {
    stops_after_page_limit();
}

fn refused(status: u16, line: &str, after: Option<&str>, left: Option<&str>, body: &str) -> String {
    let mut lookup = PrLookup::new("http://127.0.0.1:1", "owner/repo", 998);
    let url = lookup.next_request().unwrap();
    page_refused_message("owner/repo", 998, &url, status, line, after, left, body)
}

fn failing_page_is_an_error() {
    let error = refused(503, "503 Service Unavailable", None, None, "temporary failure");
    assert!(error.contains("returned 503"), "{error}");
    assert!(!error.contains("rate limit"), "{error}");
}

#[test]
fn pr_detection_existing_pr_lookup_errors_when_github_page_fails() {
    failing_page_is_an_error();
}

#[test]
fn pr_detection_tests_existing_pr_lookup_errors_when_github_page_fails() {
    failing_page_is_an_error();
}

fn rate_limit_is_told() {
    let body = "API rate limit exceeded for user.";
    let err = refused(403, "403 Forbidden", Some("60"), Some("0"), body);
    assert!(err.contains("rate limit"), "unexpected error: {err}");
    assert!(err.contains("retry-after=60"), "unexpected error: {err}");
    assert!(err.contains("x-ratelimit-remaining=0"), "unexpected error: {err}");
}

#[test]
fn pr_detection_existing_pr_lookup_preserves_rate_limit_context() {
    rate_limit_is_told();
}

#[test]
fn pr_detection_tests_existing_pr_lookup_preserves_rate_limit_context() {
    rate_limit_is_told();
}

#[test]
fn lookup_stops_at_a_page_that_it_has_seen() {
    let mut lookup = PrLookup::new("https://api.github.com", "o/r", 5);
    let first = lookup.next_request().unwrap();
    assert!(lookup.page_read(&vec![], Some(first)).is_none());
    assert!(lookup.next_request().is_none());
}

#[test]
fn refused_pages_are_described() {
    let message = page_refused_message(
        "o/r",
        5,
        "https://api.github.com/repos/o/r/pulls",
        429,
        "429 Too Many Requests",
        Some("60"),
        Some("0"),
        "slow down",
    );
    for part in ["o/r", "429", "60", "slow down"] {
        assert!(message.contains(part), "{message}");
    }
    assert_eq!(
        parse_next_link("<https://a>; rel=\"prev\", <https://b>; rel=\"next\""),
        Some(text("https://b"))
    );
    assert_eq!(parse_next_link("<https://a>; rel=\"prev\""), None);
}
