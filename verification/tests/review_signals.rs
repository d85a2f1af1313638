use task_executor::bots::{
    bot_approval_signal, bot_fallback_chain, bot_quota_exhausted, classify_bot,
    classify_pr_check_rollup_state, record_bot_comment_signal, record_bot_review_signal,
    review_bot_key_for_author, BotClassification, BotSignals, PrCheckRollupState,
    ReviewBotDescriptor, ReviewBotKey, ReviewSetting, SilenceRule, CODEX_REVIEWER_NAME,
    CODEX_REVIEW_COMMAND,
};
use task_executor::clock::{elapsed_millis, minutes_between, rfc3339, Timestamp, MAX_SECS, MIN_SECS};
use task_executor::signals::{
    decide_review_loop_action, gather_signals, split_repo_slug, update_silence_rounds, BotTable,
    CommentNode, CommitInfo, PullRequestData, PullRequestSignals, ReviewFallbackTier,
    ReviewFallbackTrigger, ReviewNode, ReviewThreadNode, ThreadCommentNode,
};
use task_executor::task::TaskStatus;
use task_executor::wait_budget::ReviewWaitBudget;

const GEMINI_NOTICE: &str = "daily quota limit";
const NOW: i64 = 1_800_000_000;

fn now() -> Timestamp {
    Timestamp::new(NOW, 0).unwrap()
}

fn minutes_ago(minutes: i64) -> Timestamp {
    Timestamp::new(NOW - 60 * minutes, 0).unwrap()
}

fn descriptor(key: ReviewBotKey) -> ReviewBotDescriptor {
    match key {
        ReviewBotKey::Gemini => ReviewBotDescriptor {
            key,
            reviewer_name: "gemini-code-assist[bot]".to_string(),
            review_command: "/gemini review".to_string(),
        },
        ReviewBotKey::Codex => ReviewBotDescriptor {
            key,
            reviewer_name: CODEX_REVIEWER_NAME.to_string(),
            review_command: CODEX_REVIEW_COMMAND.to_string(),
        },
    }
}

fn bot_signals() -> BotSignals {
    BotSignals::none()
}

fn chain(entries: &[&str]) -> Vec<ReviewBotDescriptor> {
    let entries: Vec<String> = entries.iter().map(|entry| entry.to_string()).collect();
    bot_fallback_chain(&entries, "gemini-code-assist[bot]", "/gemini review")
}

const RULE: SilenceRule = SilenceRule { rounds_threshold: 3, min_minutes_after_commit: 30 };

fn setting(commit_minutes: i64, ci_green: bool, blocking_feedback: bool, rounds: u32) -> ReviewSetting {
    ReviewSetting {
        now: now(),
        latest_commit_at: minutes_ago(commit_minutes),
        ci_green,
        blocking_feedback,
        silence_rounds: rounds,
        rule: RULE,
    }
}

fn signals_with(gemini: BotSignals, codex: BotSignals) -> PullRequestSignals {
    PullRequestSignals {
        latest_commit_at: minutes_ago(45),
        ci_state: Some("SUCCESS".to_string()),
        ci_green: true,
        latest_bot_activity_at: None,
        blocking_feedback: false,
        bots: BotTable { gemini, codex },
    }
}

fn commented(body: &str) -> BotSignals {
    let mut bot = bot_signals();
    bot.reviewed_any_commit = true;
    bot.latest_comment_at = Some(now());
    bot.latest_comment_body = Some(body.to_string());
    bot
}

const GEMINI_QUOTA: &str = "You have reached your daily quota limit for Gemini Code Assist.";
const CODEX_QUOTA: &str = "Codex usage limits have been reached for this account.";

#[test]
fn classifies_pr_check_rollup_states() {
    assert_eq!(classify_pr_check_rollup_state(Some("SUCCESS")), PrCheckRollupState::Success);
    assert_eq!(
        classify_pr_check_rollup_state(Some("FAILURE")),
        PrCheckRollupState::Failed("FAILURE".to_string())
    );
    assert_eq!(
        classify_pr_check_rollup_state(Some("PENDING")),
        PrCheckRollupState::Pending("PENDING".to_string())
    );
    assert_eq!(
        classify_pr_check_rollup_state(None),
        PrCheckRollupState::Pending("no statusCheckRollup state yet".to_string())
    );
}

#[test]
fn review_wait_budget_zero_disables_failure() {
    assert!(ReviewWaitBudget::new(0).fail_if_exceeded(3600, 1).is_none());
}

#[test]
fn review_wait_budget_fails_once_it_is_used_up() {
    let budget = ReviewWaitBudget::new(60);
    assert!(budget.fail_if_exceeded(59, 1).is_none());
    let change = budget.fail_if_exceeded(60, 4).unwrap();
    assert_eq!(change.status, Some(TaskStatus::Failed));
    assert_eq!(change.turn, Some(4));
    assert_eq!(
        change.error.as_deref(),
        Some("review wait budget exceeded: elapsed 60s exceeded configured budget 60s")
    );
}

#[test]
fn review_wait_budget_caps_sleep_to_remaining_budget() {
    assert_eq!(ReviewWaitBudget::new(60).sleep_secs(300, 50), 10);
}

#[test]
fn review_wait_budget_zero_leaves_sleep_uncapped() {
    assert_eq!(ReviewWaitBudget::new(0).sleep_secs(300, 3600), 300);
}

#[test]
fn review_bot_author_matching_uses_configured_reviewer_name() {
    let entries = vec!["gemini".to_string(), "codex".to_string()];
    let chain = bot_fallback_chain(&entries, "custom-review-bot", "/gemini review");

    assert_eq!(
        review_bot_key_for_author(&chain, "custom-review-bot"),
        Some(ReviewBotKey::Gemini)
    );
    assert_eq!(
        review_bot_key_for_author(&chain, CODEX_REVIEWER_NAME),
        Some(ReviewBotKey::Codex)
    );
    assert_eq!(review_bot_key_for_author(&chain, "unconfigured-review[bot]"), None);
}

#[test]
fn comment_signal_marks_prior_bot_participation() {
    let mut bot = bot_signals();
    let comment_at = minutes_ago(60);

    record_bot_comment_signal(&mut bot, "previous review comment".to_string(), comment_at);

    assert!(bot.reviewed_any_commit);
    assert_eq!(bot.latest_comment_at, Some(comment_at));
    assert_eq!(bot.latest_comment_body.as_deref(), Some("previous review comment"));
}

#[test]
fn older_signals_do_not_replace_newer_ones() {
    let mut bot = bot_signals();
    record_bot_comment_signal(&mut bot, "new".to_string(), minutes_ago(1));
    record_bot_comment_signal(&mut bot, "old".to_string(), minutes_ago(2));
    assert_eq!(bot.latest_comment_body.as_deref(), Some("new"));
    record_bot_review_signal(&mut bot, "APPROVED".to_string(), "a".to_string(), Some(minutes_ago(5)));
    record_bot_review_signal(&mut bot, "COMMENTED".to_string(), "b".to_string(), Some(minutes_ago(9)));
    assert_eq!(bot.latest_review_state.as_deref(), Some("APPROVED"));
    assert_eq!(bot.latest_review_at, Some(minutes_ago(5)));
}

#[test]
fn stale_comment_participation_can_satisfy_silence_fallback() {
    let mut bot = bot_signals();
    record_bot_comment_signal(&mut bot, "previous review comment".to_string(), minutes_ago(60));

    let classification =
        classify_bot(&descriptor(ReviewBotKey::Codex), &bot, GEMINI_NOTICE, setting(45, true, false, 3));

    assert_eq!(classification, BotClassification::Silent);
}

#[test]
fn classifies_gemini_quota_body() {
    let classification = classify_bot(
        &descriptor(ReviewBotKey::Gemini),
        &commented(GEMINI_QUOTA),
        GEMINI_NOTICE,
        setting(5, true, false, 0),
    );
    assert_eq!(classification, BotClassification::QuotaExhausted);
}

#[test]
fn classifies_codex_quota_body() {
    let classification = classify_bot(
        &descriptor(ReviewBotKey::Codex),
        &commented(CODEX_QUOTA),
        GEMINI_NOTICE,
        setting(5, true, false, 0),
    );
    assert_eq!(classification, BotClassification::QuotaExhausted);
}

#[test]
fn notices_belong_to_their_bots() {
    assert!(!bot_quota_exhausted(ReviewBotKey::Codex, GEMINI_QUOTA, GEMINI_NOTICE));
    assert!(!bot_quota_exhausted(ReviewBotKey::Gemini, CODEX_QUOTA, GEMINI_NOTICE));
    assert!(bot_approval_signal(ReviewBotKey::Codex, "Found NO MAJOR issues."));
    assert!(!bot_approval_signal(ReviewBotKey::Codex, "Found one major issue."));
}

#[test]
fn decides_tier_c_when_both_bots_are_quota_exhausted() {
    let decision = decide_review_loop_action(
        &chain(&["gemini", "codex"]),
        &signals_with(commented(GEMINI_QUOTA), commented(CODEX_QUOTA)),
        now(),
        0,
        GEMINI_NOTICE,
        RULE,
    )
    .expect("decision");
    assert_eq!(decision.active_bot.key, ReviewBotKey::Codex);
    let fallback = decision.fallback.expect("fallback");
    assert_eq!(fallback.tier, ReviewFallbackTier::C);
    assert_eq!(fallback.trigger, ReviewFallbackTrigger::AllBotsQuota);
}

fn reviewed(minutes: i64, state: Option<&str>) -> BotSignals {
    let mut bot = bot_signals();
    bot.reviewed_any_commit = true;
    bot.latest_review_at = Some(minutes_ago(minutes));
    bot.latest_review_state = state.map(str::to_string);
    bot
}

#[test]
fn classifies_silence_when_all_guards_are_met() {
    let classification = classify_bot(
        &descriptor(ReviewBotKey::Codex),
        &reviewed(60, Some("COMMENTED")),
        GEMINI_NOTICE,
        setting(45, true, false, 3),
    );
    assert_eq!(classification, BotClassification::Silent);
}

#[test]
fn silence_needs_its_rounds_and_its_minutes() {
    let codex = descriptor(ReviewBotKey::Codex);
    let bot = reviewed(60, Some("COMMENTED"));
    assert_ne!(classify_bot(&codex, &bot, GEMINI_NOTICE, setting(45, true, false, 2)), BotClassification::Silent);
    assert_ne!(classify_bot(&codex, &bot, GEMINI_NOTICE, setting(29, true, false, 3)), BotClassification::Silent);
    assert_eq!(classify_bot(&codex, &bot, GEMINI_NOTICE, setting(30, true, false, 3)), BotClassification::Silent);
}

#[test]
fn silence_rounds_reset_on_new_bot_activity() {
    let initial_activity = Some(minutes_ago(10));
    let new_activity = Some(now());
    assert_eq!(update_silence_rounds(2, initial_activity, new_activity), (0, new_activity));
    assert_eq!(update_silence_rounds(2, initial_activity, initial_activity), (3, initial_activity));
    assert_eq!(update_silence_rounds(u32::MAX, None, None), (u32::MAX, None));
}

#[test]
fn silence_is_blocked_by_red_ci() {
    let classification = classify_bot(
        &descriptor(ReviewBotKey::Codex),
        &reviewed(60, None),
        GEMINI_NOTICE,
        setting(45, false, false, 3),
    );
    assert_eq!(classification, BotClassification::ActionableFeedback);
}

#[test]
fn silence_is_blocked_by_unresolved_high_feedback() {
    let classification = classify_bot(
        &descriptor(ReviewBotKey::Codex),
        &reviewed(60, None),
        GEMINI_NOTICE,
        setting(45, true, true, 3),
    );
    assert_eq!(classification, BotClassification::ActionableFeedback);
}

#[test]
fn silence_is_blocked_when_no_prior_bot_review_exists() {
    let classification = classify_bot(
        &descriptor(ReviewBotKey::Codex),
        &bot_signals(),
        GEMINI_NOTICE,
        setting(45, true, false, 3),
    );
    assert_eq!(classification, BotClassification::NeverReviewed);
}

#[test]
fn normal_fresh_gemini_path_stays_primary() {
    let decision = decide_review_loop_action(
        &chain(&["gemini", "codex"]),
        &signals_with(reviewed(0, Some("APPROVED")), bot_signals()),
        now(),
        0,
        GEMINI_NOTICE,
        RULE,
    )
    .expect("decision");
    assert_eq!(decision.active_bot.key, ReviewBotKey::Gemini);
    assert!(decision.fallback.is_none());
    assert!(!decision.wait_for_bot);
}

#[test]
fn respects_configured_secondary_order() {
    let decision = decide_review_loop_action(
        &chain(&["codex", "gemini"]),
        &signals_with(bot_signals(), commented(CODEX_QUOTA)),
        now(),
        0,
        GEMINI_NOTICE,
        RULE,
    )
    .expect("decision");
    assert_eq!(decision.active_bot.key, ReviewBotKey::Gemini);
    let fallback = decision.fallback.expect("fallback");
    assert_eq!(fallback.tier, ReviewFallbackTier::B);
    assert_eq!(fallback.trigger, ReviewFallbackTrigger::CodexQuota);
    assert!(decision.wait_for_bot);
}

#[test]
fn empty_chain_decides_nothing() {
    let decision = decide_review_loop_action(
        &[],
        &signals_with(bot_signals(), bot_signals()),
        now(),
        0,
        GEMINI_NOTICE,
        RULE,
    );
    assert!(decision.is_err());
}

fn data() -> PullRequestData {
    PullRequestData {
        commits: vec![
            CommitInfo { committed_at: minutes_ago(90), rollup_state: Some("FAILURE".to_string()) },
            CommitInfo { committed_at: minutes_ago(40), rollup_state: Some("SUCCESS".to_string()) },
        ],
        reviews: vec![ReviewNode {
            author: Some(CODEX_REVIEWER_NAME.to_string()),
            body: "look".to_string(),
            submitted_at: Some(minutes_ago(20)),
            state: "COMMENTED".to_string(),
        }],
        comments: vec![CommentNode {
            author: Some("someone".to_string()),
            body: "hello".to_string(),
            created_at: minutes_ago(1),
        }],
        review_threads: vec![],
    }
}

#[test]
fn signals_are_gathered_from_the_bots_alone() {
    let gathered = gather_signals(&chain(&["gemini", "codex"]), &data()).unwrap();
    assert_eq!(gathered.latest_commit_at, minutes_ago(40));
    assert!(gathered.ci_green);
    assert_eq!(gathered.latest_bot_activity_at, Some(minutes_ago(20)));
    assert!(!gathered.blocking_feedback);
    assert!(gathered.bots.codex.reviewed_any_commit);
    assert!(!gathered.bots.gemini.reviewed_any_commit);
    assert_eq!(gathered.bots.codex.latest_review_body.as_deref(), Some("look"));
}

#[test]
fn signals_need_a_commit() {
    let mut data = data();
    data.commits.clear();
    assert!(gather_signals(&chain(&["codex"]), &data).is_err());
}

#[test]
fn open_threads_of_high_priority_block() {
    let thread = |body: &str, resolved: bool, outdated: bool| ReviewThreadNode {
        is_resolved: resolved,
        is_outdated: outdated,
        comments: vec![ThreadCommentNode {
            author: Some(CODEX_REVIEWER_NAME.to_string()),
            body: body.to_string(),
            published_at: Some(minutes_ago(3)),
        }],
    };
    let blocking = |thread: ReviewThreadNode| {
        let mut data = data();
        data.review_threads.push(thread);
        gather_signals(&chain(&["codex"]), &data).unwrap().blocking_feedback
    };
    assert!(blocking(thread("High priority", false, false)));
    assert!(blocking(thread("CRITICAL", false, false)));
    assert!(!blocking(thread("high priority", false, true)));
    assert!(!blocking(thread("high priority", true, false)));
    assert!(!blocking(thread("nit", false, false)));
}

#[test]
fn slugs_have_two_parts() {
    assert_eq!(split_repo_slug("o/r"), Some(("o".to_string(), "r".to_string())));
    assert_eq!(split_repo_slug("repo"), None);
    assert_eq!(split_repo_slug("o/r/x"), Some(("o".to_string(), "r/x".to_string())));
}

#[test]
fn minutes_are_whole_and_signed() {
    assert_eq!(minutes_between(minutes_ago(5), now()), 5);
    assert_eq!(minutes_between(now(), minutes_ago(5)), -5);
    let almost = Timestamp::new(NOW - 300, 1).unwrap();
    assert_eq!(minutes_between(almost, now()), 4);
    let last = Timestamp::new(MAX_SECS, 999_999_999).unwrap();
    let first = Timestamp::new(MIN_SECS, 0).unwrap();
    assert_eq!(minutes_between(first, last), (MAX_SECS - MIN_SECS) / 60);
}

#[test]
fn milliseconds_never_run_backwards() {
    let later = Timestamp::new(NOW + 1, 999_999).unwrap();
    assert_eq!(elapsed_millis(now(), later), 1000);
    assert_eq!(elapsed_millis(later, now()), 0);
}

#[test]
fn instants_are_written_in_utc() {
    assert_eq!(rfc3339(Timestamp::new(0, 0).unwrap()), "1970-01-01T00:00:00+00:00");
    assert_eq!(
        rfc3339(Timestamp::new(951_782_400, 500_000_000).unwrap()),
        "2000-02-29T00:00:00.500+00:00"
    );
}

#[test]
fn instants_outside_the_calendar_are_refused() {
    assert!(Timestamp::new(MAX_SECS, 999_999_999).is_some());
    assert!(Timestamp::new(MAX_SECS + 1, 0).is_none());
    assert!(Timestamp::new(MIN_SECS - 1, 0).is_none());
    assert!(Timestamp::new(0, 1_000_000_000).is_none());
}
