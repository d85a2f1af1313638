//! What GitHub reports of a pull request, gathered for the review loop, and the
//! bot that the loop turns to.

use crate::bots;
use crate::bots::{
    BotClassification, BotSignals, BotView, DescriptorView, PrCheckRollupState, ReviewBotDescriptor,
    ReviewBotKey, ReviewSetting, RollupView, SilenceRule,
};
use crate::clock;
use crate::clock::Timestamp;
use crate::text;
use crate::text::CharClass;
use vstd::prelude::*;
use vstd::slice::slice_subrange;
use vstd::string::*;

verus! {

/// A commit of a pull request.
#[derive(Debug)]
pub struct CommitInfo {
    pub committed_at: Timestamp,
    /// The combined state of the commit's checks, as reported.
    pub rollup_state: Option<String>,
}

/// A review, as reported.
#[derive(Debug)]
pub struct ReviewNode {
    pub author: Option<String>,
    pub body: String,
    pub submitted_at: Option<Timestamp>,
    pub state: String,
}

/// A comment, as reported.
#[derive(Debug)]
pub struct CommentNode {
    pub author: Option<String>,
    pub body: String,
    pub created_at: Timestamp,
}

/// A comment in a review thread, as reported.
#[derive(Debug)]
pub struct ThreadCommentNode {
    pub author: Option<String>,
    pub body: String,
    pub published_at: Option<Timestamp>,
}

/// A review thread, as reported.
#[derive(Debug)]
pub struct ReviewThreadNode {
    pub is_resolved: bool,
    pub is_outdated: bool,
    pub comments: Vec<ThreadCommentNode>,
}

/// Everything that is reported of a pull request.
#[derive(Debug)]
pub struct PullRequestData {
    pub commits: Vec<CommitInfo>,
    pub reviews: Vec<ReviewNode>,
    pub comments: Vec<CommentNode>,
    pub review_threads: Vec<ReviewThreadNode>,
}

/// The signals of each bot.
#[derive(Debug)]
pub struct BotTable {
    pub gemini: BotSignals,
    pub codex: BotSignals,
}

/// What a [`BotTable`] holds.
pub struct TableView {
    pub gemini: BotView,
    pub codex: BotView,
}

impl View for BotTable {
    type V = TableView;

    open spec fn view(&self) -> TableView {
        TableView { gemini: self.gemini@, codex: self.codex@ }
    }
}

impl TableView {
    /// The signals of one bot.
    pub open spec fn of(self, key: ReviewBotKey) -> BotView {
        match key {
            ReviewBotKey::Gemini => self.gemini,
            ReviewBotKey::Codex => self.codex,
        }
    }

    /// The table with other signals for one bot.
    pub open spec fn set(self, key: ReviewBotKey, bot: BotView) -> TableView {
        match key {
            ReviewBotKey::Gemini => TableView { gemini: bot, ..self },
            ReviewBotKey::Codex => TableView { codex: bot, ..self },
        }
    }
}

impl BotTable {
    /// The signals of one bot.
    pub fn get(&self, key: ReviewBotKey) -> (r: &BotSignals)
        ensures
            r@ == self@.of(key),
    {
        match key {
            ReviewBotKey::Gemini => &self.gemini,
            ReviewBotKey::Codex => &self.codex,
        }
    }
}

/// The signals that the review loop decides on.
#[derive(Debug)]
pub struct PullRequestSignals {
    pub latest_commit_at: Timestamp,
    pub ci_state: Option<String>,
    pub ci_green: bool,
    pub latest_bot_activity_at: Option<Timestamp>,
    pub blocking_feedback: bool,
    pub bots: BotTable,
}

/// The bot that an author is, if the author is one of the chain.
pub open spec fn node_bot(chain: Seq<DescriptorView>, author: Option<String>) -> Option<
    ReviewBotKey,
> {
    match author {
        None => None,
        Some(a) => bots::author_bot(chain, a@, 0),
    }
}

fn bot_of(chain: &[ReviewBotDescriptor], author: &Option<String>) -> (r: Option<ReviewBotKey>)
    ensures
        r == node_bot(bots::descriptors(chain@), *author),
{
    match author {
        None => None,
        Some(a) => bots::review_bot_key_for_author(chain, a.as_str()),
    }
}

/// The table after the reviews, taken in one after the other.
pub open spec fn table_after_reviews(
    chain: Seq<DescriptorView>,
    reviews: Seq<ReviewNode>,
) -> TableView
    decreases reviews.len(),
{
    if reviews.len() == 0 {
        TableView { gemini: bots::no_signals(), codex: bots::no_signals() }
    } else {
        let t = table_after_reviews(chain, reviews.drop_last());
        let r = reviews.last();
        match node_bot(chain, r.author) {
            None => t,
            Some(key) => t.set(
                key,
                bots::with_review(t.of(key), r.state@, r.body@, r.submitted_at),
            ),
        }
    }
}

/// The table after the reviews and then the comments.
pub open spec fn table_after_comments(
    chain: Seq<DescriptorView>,
    reviews: Seq<ReviewNode>,
    comments: Seq<CommentNode>,
) -> TableView
    decreases comments.len(),
{
    if comments.len() == 0 {
        table_after_reviews(chain, reviews)
    } else {
        let t = table_after_comments(chain, reviews, comments.drop_last());
        let c = comments.last();
        match node_bot(chain, c.author) {
            None => t,
            Some(key) => t.set(key, bots::with_comment(t.of(key), c.body@, c.created_at)),
        }
    }
}

/// Whether a comment is of high or critical severity.
pub open spec fn severe(body: Seq<char>) -> bool {
    text::contains(text::lower(body), "critical"@) || text::contains(text::lower(body), "high"@)
}

/// Whether a thread blocks: it is open, and holds a comment of high or critical
/// severity.
pub open spec fn thread_blocks(t: ReviewThreadNode) -> bool {
    &&& !t.is_resolved
    &&& !t.is_outdated
    &&& exists|i: int| 0 <= i < t.comments@.len() && severe(#[trigger] t.comments@[i].body@)
}

/// The later of what is known and one more point.
pub open spec fn latest(known: Option<Timestamp>, at: Timestamp) -> Option<Timestamp> {
    match known {
        None => Some(at),
        Some(t) => Some(clock::later_of(t, at)),
    }
}

/// When a bot last wrote in a thread, given what is known. A comment without a time
/// counts as written with the latest commit.
pub open spec fn activity_in_comments(
    chain: Seq<DescriptorView>,
    comments: Seq<ThreadCommentNode>,
    commit_at: Timestamp,
    known: Option<Timestamp>,
) -> Option<Timestamp>
    decreases comments.len(),
{
    if comments.len() == 0 {
        known
    } else {
        let before = activity_in_comments(chain, comments.drop_last(), commit_at, known);
        let c = comments.last();
        if node_bot(chain, c.author) is None {
            before
        } else {
            latest(
                before,
                match c.published_at {
                    Some(t) => t,
                    None => commit_at,
                },
            )
        }
    }
}

/// When a bot last wrote in any thread.
pub open spec fn activity_in_threads(
    chain: Seq<DescriptorView>,
    threads: Seq<ReviewThreadNode>,
    commit_at: Timestamp,
) -> Option<Timestamp>
    decreases threads.len(),
{
    if threads.len() == 0 {
        None
    } else {
        activity_in_comments(
            chain,
            threads.last().comments@,
            commit_at,
            activity_in_threads(chain, threads.drop_last(), commit_at),
        )
    }
}

/// When a bot last reviewed, or commented where it never reviewed.
pub open spec fn own_activity(bot: BotView) -> Option<Timestamp> {
    if bot.review_at is Some {
        bot.review_at
    } else {
        bot.comment_at
    }
}

/// What is known, and the activity of one more bot.
pub open spec fn with_own_activity(known: Option<Timestamp>, bot: BotView) -> Option<Timestamp> {
    match own_activity(bot) {
        None => known,
        Some(t) => latest(known, t),
    }
}

fn later_known(known: Option<Timestamp>, at: Timestamp) -> (r: Option<Timestamp>)
    ensures
        r == latest(known, at),
{
    match known {
        None => Some(at),
        Some(t) => Some(t.later(at)),
    }
}

fn add_own_activity(known: Option<Timestamp>, bot: &BotSignals) -> (r: Option<Timestamp>)
    ensures
        r == with_own_activity(known, bot@),
{
    if let Some(t) = bot.latest_review_at {
        later_known(known, t)
    } else if let Some(t) = bot.latest_comment_at {
        later_known(known, t)
    } else {
        known
    }
}

fn is_severe(body: &str) -> (r: bool)
    ensures
        r == severe(body@),
{
    let chars = text::chars_of(body);
    let low = text::to_lower(chars.as_slice());
    let critical = text::chars_of("critical");
    let high = text::chars_of("high");
    text::holds(low.as_slice(), critical.as_slice()) || text::holds(
        low.as_slice(),
        high.as_slice(),
    )
}

/// Whether a thread blocks: it is open, and holds a comment of high or critical
/// severity.
pub fn blocking_review_thread(thread: &ReviewThreadNode) -> (r: bool)
    ensures
        r == thread_blocks(*thread),
{
    if thread.is_resolved || thread.is_outdated {
        return false;
    }
    let mut i: usize = 0;
    while i < thread.comments.len()
        invariant
            i <= thread.comments.len(),
            !thread.is_resolved,
            !thread.is_outdated,
            forall|j: int| 0 <= j < i ==> !severe(#[trigger] thread.comments@[j].body@),
        decreases thread.comments.len() - i,
    {
        if is_severe(thread.comments[i].body.as_str()) {
            return true;
        }
        i += 1;
    }
    false
}

fn any_thread_blocks(threads: &Vec<ReviewThreadNode>) -> (r: bool)
    ensures
        r == exists|i: int| 0 <= i < threads@.len() && thread_blocks(#[trigger] threads@[i]),
{
    let mut i: usize = 0;
    while i < threads.len()
        invariant
            i <= threads.len(),
            forall|j: int| 0 <= j < i ==> !thread_blocks(#[trigger] threads@[j]),
        decreases threads.len() - i,
    {
        if blocking_review_thread(&threads[i]) {
            return true;
        }
        i += 1;
    }
    false
}

fn gather_reviews(chain: &[ReviewBotDescriptor], reviews: &Vec<ReviewNode>) -> (r: BotTable)
    ensures
        r@ == table_after_reviews(bots::descriptors(chain@), reviews@),
{
    let ghost c = bots::descriptors(chain@);
    let mut gemini = BotSignals::none();
    let mut codex = BotSignals::none();
    let mut i: usize = 0;
    assert(reviews@.take(0) == Seq::<ReviewNode>::empty());
    while i < reviews.len()
        invariant
            i <= reviews.len(),
            c == bots::descriptors(chain@),
            (TableView { gemini: gemini@, codex: codex@ }) == table_after_reviews(
                c,
                reviews@.take(i as int),
            ),
        decreases reviews.len() - i,
    {
        let ghost more = reviews@.take(i + 1);
        assert(more.drop_last() == reviews@.take(i as int));
        assert(more.last() == reviews@[i as int]);
        match bot_of(chain, &reviews[i].author) {
            None => {},
            Some(ReviewBotKey::Gemini) => {
                bots::record_bot_review_signal(
                    &mut gemini,
                    reviews[i].state.clone(),
                    reviews[i].body.clone(),
                    reviews[i].submitted_at,
                );
            },
            Some(ReviewBotKey::Codex) => {
                bots::record_bot_review_signal(
                    &mut codex,
                    reviews[i].state.clone(),
                    reviews[i].body.clone(),
                    reviews[i].submitted_at,
                );
            },
        }
        i += 1;
    }
    assert(reviews@.take(i as int) == reviews@);
    BotTable { gemini, codex }
}

fn gather_comments(
    chain: &[ReviewBotDescriptor],
    Ghost(reviews): Ghost<Seq<ReviewNode>>,
    table: BotTable,
    comments: &Vec<CommentNode>,
) -> (r: BotTable)
    requires
        table@ == table_after_reviews(bots::descriptors(chain@), reviews),
    ensures
        r@ == table_after_comments(bots::descriptors(chain@), reviews, comments@),
{
    let ghost c = bots::descriptors(chain@);
    let mut gemini = table.gemini;
    let mut codex = table.codex;
    let mut i: usize = 0;
    assert(comments@.take(0) == Seq::<CommentNode>::empty());
    while i < comments.len()
        invariant
            i <= comments.len(),
            c == bots::descriptors(chain@),
            (TableView { gemini: gemini@, codex: codex@ }) == table_after_comments(
                c,
                reviews,
                comments@.take(i as int),
            ),
        decreases comments.len() - i,
    {
        let ghost more = comments@.take(i + 1);
        assert(more.drop_last() == comments@.take(i as int));
        assert(more.last() == comments@[i as int]);
        match bot_of(chain, &comments[i].author) {
            None => {},
            Some(ReviewBotKey::Gemini) => {
                bots::record_bot_comment_signal(
                    &mut gemini,
                    comments[i].body.clone(),
                    comments[i].created_at,
                );
            },
            Some(ReviewBotKey::Codex) => {
                bots::record_bot_comment_signal(
                    &mut codex,
                    comments[i].body.clone(),
                    comments[i].created_at,
                );
            },
        }
        i += 1;
    }
    assert(comments@.take(i as int) == comments@);
    BotTable { gemini, codex }
}

fn gather_comment_activity(
    chain: &[ReviewBotDescriptor],
    comments: &Vec<ThreadCommentNode>,
    commit_at: Timestamp,
    known: Option<Timestamp>,
) -> (r: Option<Timestamp>)
    ensures
        r == activity_in_comments(bots::descriptors(chain@), comments@, commit_at, known),
{
    let ghost c = bots::descriptors(chain@);
    let mut at = known;
    let mut i: usize = 0;
    assert(comments@.take(0) == Seq::<ThreadCommentNode>::empty());
    while i < comments.len()
        invariant
            i <= comments.len(),
            c == bots::descriptors(chain@),
            at == activity_in_comments(c, comments@.take(i as int), commit_at, known),
        decreases comments.len() - i,
    {
        let ghost more = comments@.take(i + 1);
        assert(more.drop_last() == comments@.take(i as int));
        assert(more.last() == comments@[i as int]);
        if bot_of(chain, &comments[i].author).is_some() {
            let when = match comments[i].published_at {
                Some(t) => t,
                None => commit_at,
            };
            at = later_known(at, when);
        }
        i += 1;
    }
    assert(comments@.take(i as int) == comments@);
    at
}

fn gather_thread_activity(
    chain: &[ReviewBotDescriptor],
    threads: &Vec<ReviewThreadNode>,
    commit_at: Timestamp,
) -> (r: Option<Timestamp>)
    ensures
        r == activity_in_threads(bots::descriptors(chain@), threads@, commit_at),
{
    let ghost c = bots::descriptors(chain@);
    let mut at: Option<Timestamp> = None;
    let mut i: usize = 0;
    assert(threads@.take(0) == Seq::<ReviewThreadNode>::empty());
    while i < threads.len()
        invariant
            i <= threads.len(),
            c == bots::descriptors(chain@),
            at == activity_in_threads(c, threads@.take(i as int), commit_at),
        decreases threads.len() - i,
    {
        let ghost more = threads@.take(i + 1);
        assert(more.drop_last() == threads@.take(i as int));
        assert(more.last() == threads@[i as int]);
        at = gather_comment_activity(chain, &threads[i].comments, commit_at, at);
        i += 1;
    }
    assert(threads@.take(i as int) == threads@);
    at
}

/// Gathers the signals of a pull request. Without a commit there are none.
pub fn gather_signals(chain: &[ReviewBotDescriptor], data: &PullRequestData) -> (r: Result<
    PullRequestSignals,
    String,
>)
    ensures
        r is Err == (data.commits@.len() == 0),
        r matches Err(e) ==> e@ == "PR has no commits"@,
        r matches Ok(s) ==> {
            let c = bots::descriptors(chain@);
            let commit = data.commits@.last();
            let table = table_after_comments(c, data.reviews@, data.comments@);
            &&& s.latest_commit_at == commit.committed_at
            &&& text::opt_view(s.ci_state) == text::opt_view(commit.rollup_state)
            &&& s.ci_green == (bots::rollup(text::opt_view(commit.rollup_state))
                == RollupView::Success)
            &&& s.bots@ == table
            &&& s.blocking_feedback == exists|i: int|
                0 <= i < data.review_threads@.len() && thread_blocks(
                    #[trigger] data.review_threads@[i],
                )
            &&& s.latest_bot_activity_at == with_own_activity(
                with_own_activity(
                    activity_in_threads(c, data.review_threads@, commit.committed_at),
                    table.gemini,
                ),
                table.codex,
            )
        },
{
    if data.commits.len() == 0 {
        return Err("PR has no commits".to_owned());
    }
    let commit = &data.commits[data.commits.len() - 1];
    let ci_state = text::copy_opt(&commit.rollup_state);
    let state = match &ci_state {
        None => None,
        Some(s) => Some(s.as_str()),
    };
    let ci_green = matches!(
        bots::classify_pr_check_rollup_state(state),
        PrCheckRollupState::Success
    );
    let reviewed = gather_reviews(chain, &data.reviews);
    let table = gather_comments(chain, Ghost(data.reviews@), reviewed, &data.comments);
    let in_threads = gather_thread_activity(chain, &data.review_threads, commit.committed_at);
    let with_gemini = add_own_activity(in_threads, &table.gemini);
    let with_codex = add_own_activity(with_gemini, &table.codex);
    Ok(
        PullRequestSignals {
            latest_commit_at: commit.committed_at,
            ci_state,
            ci_green,
            latest_bot_activity_at: with_codex,
            blocking_feedback: any_thread_blocks(&data.review_threads),
            bots: table,
        },
    )
}

/// The owner and the name of a repository, split at the first slash of its slug.
pub open spec fn slug_parts(slug: Seq<char>) -> Option<(Seq<char>, Seq<char>)> {
    match text::index(slug, CharClass::Just('/')) {
        None => None,
        Some(i) => Some((slug.take(i as int), slug.skip((i + 1) as int))),
    }
}

/// The owner and the name of a repository.
pub fn split_repo_slug(slug: &str) -> (r: Option<(String, String)>)
    ensures
        match r {
            None => slug_parts(slug@) is None,
            Some((owner, repo)) => slug_parts(slug@) == Some((owner@, repo@)),
        },
{
    let chars = text::chars_of(slug);
    match text::index_of(chars.as_slice(), CharClass::Just('/')) {
        None => None,
        Some(i) => {
            let len: usize = chars.len();
            let left = slice_subrange(chars.as_slice(), 0, i);
            let right = slice_subrange(chars.as_slice(), i + 1, len);
            assert(left@ == slug@.take(i as int));
            assert(right@ == slug@.skip((i + 1) as int));
            Some((text::text_of(left), text::text_of(right)))
        },
    }
}

/// How far a review has fallen back from its primary bot.
#[derive(Clone, Copy, Debug, PartialEq, Eq, Structural)]
pub enum ReviewFallbackTier {
    /// The secondary bot reviews.
    B,
    /// No bot is left to review.
    C,
}

/// Why a review has fallen back.
#[derive(Clone, Copy, Debug, PartialEq, Eq, Structural)]
pub enum ReviewFallbackTrigger {
    GeminiQuota,
    CodexQuota,
    AllBotsQuota,
    Silence,
}

/// A fallback, and the bot that is active in it.
#[derive(Clone, Copy, Debug, PartialEq, Eq, Structural)]
pub struct ReviewFallbackState {
    pub tier: ReviewFallbackTier,
    pub trigger: ReviewFallbackTrigger,
    pub active_bot: Option<ReviewBotKey>,
}

impl ReviewFallbackTier {
    /// The name of the tier.
    pub open spec fn name(self) -> Seq<char> {
        match self {
            ReviewFallbackTier::B => "B"@,
            ReviewFallbackTier::C => "C"@,
        }
    }
}

impl ReviewFallbackTrigger {
    /// The name of the trigger.
    pub open spec fn name(self) -> Seq<char> {
        match self {
            ReviewFallbackTrigger::GeminiQuota => "GeminiQuota"@,
            ReviewFallbackTrigger::CodexQuota => "CodexQuota"@,
            ReviewFallbackTrigger::AllBotsQuota => "AllBotsQuota"@,
            ReviewFallbackTrigger::Silence => "Silence"@,
        }
    }
}

impl ReviewFallbackState {
    /// Whether no bot is left to wait for.
    pub open spec fn terminal(self) -> bool {
        self.tier == ReviewFallbackTier::C
    }

    /// Whether no bot is left to wait for.
    pub fn is_terminal(self) -> (r: bool)
        ensures
            r == self.terminal(),
    {
        matches!(self.tier, ReviewFallbackTier::C)
    }

    /// The fallback in words.
    pub open spec fn detail_text(self) -> Seq<char> {
        "tier="@ + self.tier.name() + "; trigger="@ + self.trigger.name() + "; active_bot="@ + (
        match self.active_bot {
            Some(bot) => bot.name(),
            None => "none"@,
        })
    }

    /// The fallback in words.
    pub fn detail(self) -> (r: String)
        ensures
            r@ == self.detail_text(),
    {
        let mut out = "tier=".to_owned();
        out.append(
            match self.tier {
                ReviewFallbackTier::B => "B",
                ReviewFallbackTier::C => "C",
            },
        );
        out.append("; trigger=");
        out.append(
            match self.trigger {
                ReviewFallbackTrigger::GeminiQuota => "GeminiQuota",
                ReviewFallbackTrigger::CodexQuota => "CodexQuota",
                ReviewFallbackTrigger::AllBotsQuota => "AllBotsQuota",
                ReviewFallbackTrigger::Silence => "Silence",
            },
        );
        out.append("; active_bot=");
        out.append(
            match self.active_bot {
                Some(bot) => bot.as_str(),
                None => "none",
            },
        );
        out
    }
}

/// The trigger for a bot without quota.
pub open spec fn quota_trigger_of(bot: ReviewBotKey) -> ReviewFallbackTrigger {
    match bot {
        ReviewBotKey::Gemini => ReviewFallbackTrigger::GeminiQuota,
        ReviewBotKey::Codex => ReviewFallbackTrigger::CodexQuota,
    }
}

/// The trigger for a bot without quota.
pub fn quota_trigger(bot: ReviewBotKey) -> (r: ReviewFallbackTrigger)
    ensures
        r == quota_trigger_of(bot),
{
    match bot {
        ReviewBotKey::Gemini => ReviewFallbackTrigger::GeminiQuota,
        ReviewBotKey::Codex => ReviewFallbackTrigger::CodexQuota,
    }
}

/// Which bot the review loop turns to.
#[derive(Debug)]
pub struct ReviewLoopDecision {
    pub active_bot: ReviewBotDescriptor,
    pub fallback: Option<ReviewFallbackState>,
    pub wait_for_bot: bool,
}

/// What a [`ReviewLoopDecision`] holds.
pub struct DecisionView {
    pub active_bot: DescriptorView,
    pub fallback: Option<ReviewFallbackState>,
    pub wait_for_bot: bool,
}

impl View for ReviewLoopDecision {
    type V = DecisionView;

    open spec fn view(&self) -> DecisionView {
        DecisionView {
            active_bot: self.active_bot@,
            fallback: self.fallback,
            wait_for_bot: self.wait_for_bot,
        }
    }
}

/// What surrounds the bots of a pull request.
pub open spec fn setting_of(
    s: PullRequestSignals,
    now: Timestamp,
    silence_rounds: u32,
    rule: SilenceRule,
) -> ReviewSetting {
    ReviewSetting {
        now,
        latest_commit_at: s.latest_commit_at,
        ci_green: s.ci_green,
        blocking_feedback: s.blocking_feedback,
        silence_rounds,
        rule,
    }
}

/// The second bot of the chain, or its only one.
pub open spec fn secondary_of(chain: Seq<DescriptorView>) -> DescriptorView {
    if chain.len() > 1 {
        chain[1]
    } else {
        chain[0]
    }
}

/// Which bot the loop turns to. Only a primary bot without quota makes way for the
/// secondary one; where that one has no quota either, or is silent, no bot is left.
pub open spec fn decision(
    chain: Seq<DescriptorView>,
    table: TableView,
    gemini_notice: Seq<char>,
    s: ReviewSetting,
) -> DecisionView {
    let primary = chain[0];
    let first = bots::classification(primary.key, table.of(primary.key), gemini_notice, s);
    let secondary = secondary_of(chain);
    let second = bots::classification(secondary.key, table.of(secondary.key), gemini_notice, s);
    if first != BotClassification::QuotaExhausted {
        DecisionView {
            active_bot: primary,
            fallback: None,
            wait_for_bot: first == BotClassification::NeverReviewed,
        }
    } else if second == BotClassification::QuotaExhausted || second == BotClassification::Silent {
        DecisionView {
            active_bot: secondary,
            fallback: Some(
                ReviewFallbackState {
                    tier: ReviewFallbackTier::C,
                    trigger: if second == BotClassification::Silent {
                        ReviewFallbackTrigger::Silence
                    } else {
                        ReviewFallbackTrigger::AllBotsQuota
                    },
                    active_bot: Some(secondary.key),
                },
            ),
            wait_for_bot: false,
        }
    } else {
        DecisionView {
            active_bot: secondary,
            fallback: Some(
                ReviewFallbackState {
                    tier: ReviewFallbackTier::B,
                    trigger: quota_trigger_of(primary.key),
                    active_bot: Some(secondary.key),
                },
            ),
            wait_for_bot: second == BotClassification::NeverReviewed,
        }
    }
}

/// Decides which bot the loop turns to. A chain without a bot is an error. `gemini_notice` is
/// what Gemini writes, in lower case, where it has no quota left.
pub fn decide_review_loop_action(
    chain: &[ReviewBotDescriptor],
    signals: &PullRequestSignals,
    now: Timestamp,
    silence_rounds: u32,
    gemini_notice: &str,
    rule: SilenceRule,
) -> (r: Result<ReviewLoopDecision, String>)
    ensures
        r is Err == (chain@.len() == 0),
        r matches Err(e) ==> e@ == "review fallback chain is empty"@,
        r matches Ok(d) ==> d@ == decision(
            bots::descriptors(chain@),
            signals.bots@,
            gemini_notice@,
            setting_of(*signals, now, silence_rounds, rule),
        ),
{
    if chain.len() == 0 {
        return Err("review fallback chain is empty".to_owned());
    }
    let setting = ReviewSetting {
        now,
        latest_commit_at: signals.latest_commit_at,
        ci_green: signals.ci_green,
        blocking_feedback: signals.blocking_feedback,
        silence_rounds,
        rule,
    };
    let primary = &chain[0];
    assert(bots::descriptors(chain@)[0] == chain@[0]@);
    let first = bots::classify_bot(primary, signals.bots.get(primary.key), gemini_notice, setting);
    if !matches!(first, BotClassification::QuotaExhausted) {
        return Ok(
            ReviewLoopDecision {
                active_bot: primary.copy(),
                fallback: None,
                wait_for_bot: matches!(first, BotClassification::NeverReviewed),
            },
        );
    }
    let secondary = if chain.len() > 1 {
        &chain[1]
    } else {
        &chain[0]
    };
    assert(secondary@ == secondary_of(bots::descriptors(chain@)));
    let second = bots::classify_bot(
        secondary,
        signals.bots.get(secondary.key),
        gemini_notice,
        setting,
    );
    let fallback_b = ReviewFallbackState {
        tier: ReviewFallbackTier::B,
        trigger: quota_trigger(primary.key),
        active_bot: Some(secondary.key),
    };
    let (fallback, wait_for_bot) = match second {
        BotClassification::QuotaExhausted => (
            ReviewFallbackState {
                tier: ReviewFallbackTier::C,
                trigger: ReviewFallbackTrigger::AllBotsQuota,
                active_bot: Some(secondary.key),
            },
            false,
        ),
        BotClassification::Silent => (
            ReviewFallbackState {
                tier: ReviewFallbackTier::C,
                trigger: ReviewFallbackTrigger::Silence,
                active_bot: Some(secondary.key),
            },
            false,
        ),
        BotClassification::NeverReviewed => (fallback_b, true),
        _ => (fallback_b, false),
    };
    Ok(
        ReviewLoopDecision {
            active_bot: secondary.copy(),
            fallback: Some(fallback),
            wait_for_bot,
        },
    )
}

/// The rounds without bot activity after one more look, and the activity that is
/// known then.
pub open spec fn silence_after(
    rounds: u32,
    last: Option<Timestamp>,
    next: Option<Timestamp>,
) -> (u32, Option<Timestamp>) {
    if next != last {
        (0, next)
    } else if rounds < u32::MAX {
        ((rounds + 1) as u32, last)
    } else {
        (rounds, last)
    }
}

fn same_time(a: Option<Timestamp>, b: Option<Timestamp>) -> (r: bool)
    ensures
        r == (a == b),
{
    match (a, b) {
        (None, None) => true,
        (Some(x), Some(y)) => x.same(y),
        _ => false,
    }
}

/// Counts the rounds without bot activity. New activity begins a new count.
pub fn update_silence_rounds(
    current_rounds: u32,
    last_activity_at: Option<Timestamp>,
    next_activity_at: Option<Timestamp>,
) -> (r: (u32, Option<Timestamp>))
    ensures
        r == silence_after(current_rounds, last_activity_at, next_activity_at),
{
    if !same_time(next_activity_at, last_activity_at) {
        (0, next_activity_at)
    } else {
        (current_rounds.saturating_add(1), last_activity_at)
    }
}

/// The loop waits only for a bot that never took part; it ends only where the primary
/// bot has no quota.
pub proof fn law_fallback_needs_quota(
    chain: Seq<DescriptorView>,
    table: TableView,
    gemini_notice: Seq<char>,
    s: ReviewSetting,
)
    requires
        chain.len() > 0,
    ensures
        decision(chain, table, gemini_notice, s).fallback is Some <==> bots::classification(
            chain[0].key,
            table.of(chain[0].key),
            gemini_notice,
            s,
        ) == BotClassification::QuotaExhausted,
        decision(chain, table, gemini_notice, s).wait_for_bot ==> !table.of(
            decision(chain, table, gemini_notice, s).active_bot.key,
        ).seen,
        decision(chain, table, gemini_notice, s).fallback matches Some(f) ==> f.active_bot == Some(
            decision(chain, table, gemini_notice, s).active_bot.key,
        ) && (f.terminal() ==> !decision(chain, table, gemini_notice, s).wait_for_bot),
{
}

/// Whether a text was written by the bot `key` of the chain.
pub open spec fn written_by(
    chain: Seq<DescriptorView>,
    author: Option<String>,
    key: ReviewBotKey,
) -> bool {
    author matches Some(a) && bots::signs_as(chain, a@, key)
}

proof fn lemma_written_by(chain: Seq<DescriptorView>, author: Option<String>, key: ReviewBotKey)
    ensures
        node_bot(chain, author) == Some(key) <==> written_by(chain, author, key),
{
    if let Some(a) = author {
        bots::law_author_is_the_first_bot_of_that_login(chain, a@, key);
    }
}

/// Whether the comment at `j` is the one that counts for a bot: its latest, and of several
/// at that time the last.
pub open spec fn counting_comment(
    chain: Seq<DescriptorView>,
    comments: Seq<CommentNode>,
    key: ReviewBotKey,
    j: int,
) -> bool {
    &&& 0 <= j < comments.len()
    &&& written_by(chain, comments[j].author, key)
    &&& forall|l: int|
        0 <= l < comments.len() && written_by(chain, (#[trigger] comments[l]).author, key)
            ==> comments[l].created_at.total() <= comments[j].created_at.total() && (l > j
            ==> comments[l].created_at.total() < comments[j].created_at.total())
}

proof fn lemma_comments(
    chain: Seq<DescriptorView>,
    reviews: Seq<ReviewNode>,
    comments: Seq<CommentNode>,
    key: ReviewBotKey,
)
    ensures
        ({
            let bot = table_after_comments(chain, reviews, comments).of(key);
            let before = table_after_reviews(chain, reviews).of(key);
            &&& bot.review_at == before.review_at && bot.review_state == before.review_state
                && bot.review_body == before.review_body
            &&& (forall|l: int|
                0 <= l < comments.len() ==> !written_by(
                    chain,
                    (#[trigger] comments[l]).author,
                    key,
                )) ==> bot == before
            &&& (exists|l: int|
                0 <= l < comments.len() && written_by(chain, (#[trigger] comments[l]).author, key))
                ==> bot.seen && exists|j: int| #[trigger]
                counting_comment(chain, comments, key, j) && bot.comment_at == Some(
                    comments[j].created_at,
                ) && bot.comment_body == Some(comments[j].body@)
        }),
    decreases comments.len(),
{
    lemma_reviews_leave_comments(chain, reviews, key);
    if comments.len() > 0 {
        let less = comments.drop_last();
        let n = comments.len() - 1;
        let c = comments.last();
        lemma_comments(chain, reviews, less, key);
        lemma_written_by(chain, c.author, key);
        assert(forall|l: int| 0 <= l < n ==> less[l] == #[trigger] comments[l]);
        let was = table_after_comments(chain, reviews, less).of(key);
        let bot = table_after_comments(chain, reviews, comments).of(key);
        let some_before = exists|l: int|
            0 <= l < less.len() && written_by(chain, (#[trigger] less[l]).author, key);
        if written_by(chain, c.author, key) {
            assert(written_by(chain, comments[n].author, key));
            assert(bot == bots::with_comment(was, c.body@, c.created_at));
            if some_before {
                let j = choose|j: int| #[trigger]
                    counting_comment(chain, less, key, j) && was.comment_at == Some(
                        less[j].created_at,
                    ) && was.comment_body == Some(less[j].body@);
                assert(comments[j] == less[j]);
                if c.created_at.total() >= less[j].created_at.total() {
                    assert forall|l: int|
                        0 <= l < comments.len() && written_by(
                            chain,
                            (#[trigger] comments[l]).author,
                            key,
                        ) implies comments[l].created_at.total() <= comments[n].created_at.total()
                        && (l > n ==> comments[l].created_at.total()
                        < comments[n].created_at.total()) by {
                        if l < n {
                            assert(less[l] == comments[l]);
                        }
                    }
                    assert(counting_comment(chain, comments, key, n));
                } else {
                    assert forall|l: int|
                        0 <= l < comments.len() && written_by(
                            chain,
                            (#[trigger] comments[l]).author,
                            key,
                        ) implies comments[l].created_at.total() <= comments[j].created_at.total()
                        && (l > j ==> comments[l].created_at.total()
                        < comments[j].created_at.total()) by {
                        if l < n {
                            assert(less[l] == comments[l]);
                        }
                    }
                    assert(counting_comment(chain, comments, key, j));
                }
            } else {
                assert forall|l: int| 0 <= l < less.len() implies !written_by(
                    chain,
                    (#[trigger] less[l]).author,
                    key,
                ) by {}
                assert(was.comment_at is None);
                assert forall|l: int|
                    0 <= l < comments.len() && written_by(
                        chain,
                        (#[trigger] comments[l]).author,
                        key,
                    ) implies l == n by {
                    if l < n {
                        assert(less[l] == comments[l]);
                    }
                }
                assert(counting_comment(chain, comments, key, n));
            }
        } else {
            assert(bot == was);
            if some_before {
                let j = choose|j: int| #[trigger]
                    counting_comment(chain, less, key, j) && was.comment_at == Some(
                        less[j].created_at,
                    ) && was.comment_body == Some(less[j].body@);
                assert(comments[j] == less[j]);
                assert forall|l: int|
                    0 <= l < comments.len() && written_by(
                        chain,
                        (#[trigger] comments[l]).author,
                        key,
                    ) implies comments[l].created_at.total() <= comments[j].created_at.total() && (l
                    > j ==> comments[l].created_at.total() < comments[j].created_at.total()) by {
                    assert(l != n);
                    assert(less[l] == comments[l]);
                }
                assert(counting_comment(chain, comments, key, j));
            } else {
                assert forall|l: int| 0 <= l < less.len() implies !written_by(
                    chain,
                    (#[trigger] less[l]).author,
                    key,
                ) by {}
                assert forall|l: int| 0 <= l < comments.len() implies !written_by(
                    chain,
                    (#[trigger] comments[l]).author,
                    key,
                ) by {
                    if l < n {
                        assert(less[l] == comments[l]);
                    }
                }
            }
        }
    }
}

proof fn lemma_reviews_leave_comments(
    chain: Seq<DescriptorView>,
    reviews: Seq<ReviewNode>,
    key: ReviewBotKey,
)
    ensures
        table_after_reviews(chain, reviews).of(key).comment_at is None,
        table_after_reviews(chain, reviews).of(key).comment_body is None,
    decreases reviews.len(),
{
    if reviews.len() > 0 {
        lemma_reviews_leave_comments(chain, reviews.drop_last(), key);
    }
}

/// Each comment of a bot is taken in: the bot counts as having taken part, and its latest
/// comment is the one that is known of it, of several at that time the last.
pub proof fn law_comments_of_a_bot_count(
    chain: Seq<DescriptorView>,
    reviews: Seq<ReviewNode>,
    comments: Seq<CommentNode>,
    key: ReviewBotKey,
    i: int,
)
    requires
        0 <= i < comments.len(),
        written_by(chain, comments[i].author, key),
    ensures
        ({
            let bot = table_after_comments(chain, reviews, comments).of(key);
            &&& bot.seen
            &&& bot.comment_at matches Some(at) && at.total() >= comments[i].created_at.total()
            &&& exists|j: int| #[trigger]
                counting_comment(chain, comments, key, j) && bot.comment_at == Some(
                    comments[j].created_at,
                ) && bot.comment_body == Some(comments[j].body@)
        }),
{
    lemma_comments(chain, reviews, comments, key);
    let bot = table_after_comments(chain, reviews, comments).of(key);
    let j = choose|j: int| #[trigger]
        counting_comment(chain, comments, key, j) && bot.comment_at == Some(comments[j].created_at)
            && bot.comment_body == Some(comments[j].body@);
    assert(comments[i].created_at.total() <= comments[j].created_at.total());
}

/// Comments of others say nothing of a bot, and no comment changes what is known of its
/// reviews.
pub proof fn law_comments_of_others_do_not_count(
    chain: Seq<DescriptorView>,
    reviews: Seq<ReviewNode>,
    comments: Seq<CommentNode>,
    key: ReviewBotKey,
)
    ensures
        ({
            let bot = table_after_comments(chain, reviews, comments).of(key);
            let before = table_after_comments(chain, reviews, seq![]).of(key);
            &&& bot.review_at == before.review_at && bot.review_state == before.review_state
                && bot.review_body == before.review_body
            &&& (forall|l: int|
                0 <= l < comments.len() ==> !written_by(
                    chain,
                    (#[trigger] comments[l]).author,
                    key,
                )) ==> bot == before && bot.comment_at is None && bot.comment_body is None
        }),
{
    lemma_comments(chain, reviews, comments, key);
    lemma_comments(chain, reviews, seq![], key);
    lemma_reviews_leave_comments(chain, reviews, key);
}

/// Whether the review at `j` is the one that counts for a bot: of those with a time its
/// latest, and of several at that time the last.
pub open spec fn counting_review(
    chain: Seq<DescriptorView>,
    reviews: Seq<ReviewNode>,
    key: ReviewBotKey,
    j: int,
) -> bool {
    &&& 0 <= j < reviews.len()
    &&& written_by(chain, reviews[j].author, key)
    &&& reviews[j].submitted_at is Some
    &&& forall|l: int|
        0 <= l < reviews.len() && written_by(chain, (#[trigger] reviews[l]).author, key)
            && reviews[l].submitted_at is Some ==> reviews[l].submitted_at->0.total()
            <= reviews[j].submitted_at->0.total() && (l > j ==> reviews[l].submitted_at->0.total()
            < reviews[j].submitted_at->0.total())
}

/// Whether a review tells when a bot reviewed.
pub open spec fn timed_review(
    chain: Seq<DescriptorView>,
    review: ReviewNode,
    key: ReviewBotKey,
) -> bool {
    written_by(chain, review.author, key) && review.submitted_at is Some
}

proof fn lemma_reviews(chain: Seq<DescriptorView>, reviews: Seq<ReviewNode>, key: ReviewBotKey)
    ensures
        ({
            let bot = table_after_reviews(chain, reviews).of(key);
            &&& bot.seen <==> exists|l: int|
                0 <= l < reviews.len() && written_by(chain, (#[trigger] reviews[l]).author, key)
            &&& (forall|l: int|
                0 <= l < reviews.len() ==> !timed_review(chain, #[trigger] reviews[l], key))
                ==> bot.review_at is None && bot.review_state is None && bot.review_body is None
            &&& (exists|l: int|
                0 <= l < reviews.len() && timed_review(chain, #[trigger] reviews[l], key))
                ==> exists|j: int| #[trigger]
                counting_review(chain, reviews, key, j) && bot.review_at
                    == reviews[j].submitted_at && bot.review_state == Some(reviews[j].state@)
                    && bot.review_body == Some(reviews[j].body@)
        }),
    decreases reviews.len(),
{
    if reviews.len() > 0 {
        let less = reviews.drop_last();
        let n = reviews.len() - 1;
        let r = reviews.last();
        lemma_reviews(chain, less, key);
        lemma_written_by(chain, r.author, key);
        assert(forall|l: int| 0 <= l < n ==> less[l] == #[trigger] reviews[l]);
        let was = table_after_reviews(chain, less).of(key);
        let bot = table_after_reviews(chain, reviews).of(key);
        if written_by(chain, r.author, key) {
            assert(written_by(chain, reviews[n].author, key));
            assert(bot.seen);
        } else {
            assert(bot == was);
            if was.seen {
                let l = choose|l: int|
                    0 <= l < less.len() && written_by(chain, (#[trigger] less[l]).author, key);
                assert(written_by(chain, reviews[l].author, key));
            }
        }
        let some_before = exists|l: int|
            0 <= l < less.len() && timed_review(chain, #[trigger] less[l], key);
        if some_before {
            let j = choose|j: int| #[trigger]
                counting_review(chain, less, key, j) && was.review_at == less[j].submitted_at
                    && was.review_state == Some(less[j].state@) && was.review_body == Some(
                    less[j].body@,
                );
            assert(reviews[j] == less[j]);
            if timed_review(chain, r, key) && r.submitted_at->0.total()
                >= less[j].submitted_at->0.total() {
                assert forall|l: int|
                    0 <= l < reviews.len() && written_by(chain, (#[trigger] reviews[l]).author, key)
                        && reviews[l].submitted_at is Some implies reviews[l].submitted_at->0.total()
                    <= reviews[n].submitted_at->0.total() && (l > n
                    ==> reviews[l].submitted_at->0.total() < reviews[n].submitted_at->0.total()) by {
                    if l < n {
                        assert(less[l] == reviews[l]);
                    }
                }
                assert(counting_review(chain, reviews, key, n));
            } else {
                assert forall|l: int|
                    0 <= l < reviews.len() && written_by(chain, (#[trigger] reviews[l]).author, key)
                        && reviews[l].submitted_at is Some implies reviews[l].submitted_at->0.total()
                    <= reviews[j].submitted_at->0.total() && (l > j
                    ==> reviews[l].submitted_at->0.total() < reviews[j].submitted_at->0.total()) by {
                    if l < n {
                        assert(less[l] == reviews[l]);
                    } else {
                        assert(timed_review(chain, r, key));
                    }
                }
                assert(counting_review(chain, reviews, key, j));
            }
        } else {
            assert forall|l: int| 0 <= l < less.len() implies !timed_review(
                chain,
                #[trigger] less[l],
                key,
            ) by {}
            if timed_review(chain, r, key) {
                assert forall|l: int|
                    0 <= l < reviews.len() && written_by(chain, (#[trigger] reviews[l]).author, key)
                        && reviews[l].submitted_at is Some implies l == n by {
                    if l < n {
                        assert(!timed_review(chain, less[l], key));
                        assert(less[l] == reviews[l]);
                    }
                }
                assert(counting_review(chain, reviews, key, n));
            } else {
                assert forall|l: int| 0 <= l < reviews.len() implies !timed_review(
                    chain,
                    #[trigger] reviews[l],
                    key,
                ) by {
                    if l < n {
                        assert(!timed_review(chain, less[l], key));
                        assert(less[l] == reviews[l]);
                    }
                }
            }
        }
    }
}

/// Each review of a bot is taken in: the bot counts as having taken part exactly where one
/// of the reviews is its own, and its latest review with a time is the one that is known
/// of it, of several at that time the last.
pub proof fn law_reviews_of_a_bot_count(
    chain: Seq<DescriptorView>,
    reviews: Seq<ReviewNode>,
    key: ReviewBotKey,
)
    ensures
        ({
            let bot = table_after_comments(chain, reviews, seq![]).of(key);
            &&& bot.seen <==> exists|l: int|
                0 <= l < reviews.len() && written_by(chain, (#[trigger] reviews[l]).author, key)
            &&& (forall|l: int|
                0 <= l < reviews.len() ==> !timed_review(chain, #[trigger] reviews[l], key))
                ==> bot.review_at is None && bot.review_state is None && bot.review_body is None
            &&& (exists|l: int|
                0 <= l < reviews.len() && timed_review(chain, #[trigger] reviews[l], key))
                ==> exists|j: int| #[trigger]
                counting_review(chain, reviews, key, j) && bot.review_at
                    == reviews[j].submitted_at && bot.review_state == Some(reviews[j].state@)
                    && bot.review_body == Some(reviews[j].body@)
        }),
{
    lemma_reviews(chain, reviews, key);
}

/// When a comment in a thread was written: with the latest commit where it says nothing of
/// its time.
pub open spec fn written_at(c: ThreadCommentNode, commit_at: Timestamp) -> Timestamp {
    match c.published_at {
        Some(t) => t,
        None => commit_at,
    }
}

proof fn lemma_activity_in_comments(
    chain: Seq<DescriptorView>,
    comments: Seq<ThreadCommentNode>,
    commit_at: Timestamp,
    known: Option<Timestamp>,
)
    ensures
        ({
            let at = activity_in_comments(chain, comments, commit_at, known);
            &&& known matches Some(k) ==> (at matches Some(t) && t.total() >= k.total())
            &&& forall|i: int|
                0 <= i < comments.len() && node_bot(chain, (#[trigger] comments[i]).author) is Some
                    ==> (at matches Some(t) && t.total() >= written_at(
                    comments[i],
                    commit_at,
                ).total())
            &&& at matches Some(t) ==> known == Some(t) || exists|i: int|
                0 <= i < comments.len() && node_bot(chain, (#[trigger] comments[i]).author) is Some
                    && written_at(comments[i], commit_at) == t
        }),
    decreases comments.len(),
{
    if comments.len() > 0 {
        let less = comments.drop_last();
        let n = comments.len() - 1;
        lemma_activity_in_comments(chain, less, commit_at, known);
        let before = activity_in_comments(chain, less, commit_at, known);
        let at = activity_in_comments(chain, comments, commit_at, known);
        assert(forall|i: int| 0 <= i < n ==> less[i] == #[trigger] comments[i]);
        assert forall|i: int|
            0 <= i < comments.len() && node_bot(chain, (#[trigger] comments[i]).author) is Some
            implies (at matches Some(t) && t.total() >= written_at(comments[i], commit_at).total()) by {
            if i < n {
                assert(node_bot(chain, less[i].author) is Some);
            }
        }
        if let Some(t) = at {
            if node_bot(chain, comments[n].author) is Some && at == Some(
                written_at(comments[n], commit_at),
            ) {
                assert(written_at(comments[n], commit_at) == t);
            } else if known != Some(t) {
                assert(before == Some(t));
                let i = choose|i: int|
                    0 <= i < less.len() && node_bot(chain, (#[trigger] less[i]).author) is Some
                        && written_at(less[i], commit_at) == t;
                assert(node_bot(chain, comments[i].author) is Some);
            }
        }
    }
}

/// Whether a bot of the chain wrote the comment at `j` of the thread at `i`.
pub open spec fn bot_comment(
    chain: Seq<DescriptorView>,
    threads: Seq<ReviewThreadNode>,
    i: int,
    j: int,
) -> bool {
    0 <= i < threads.len() && 0 <= j < threads[i].comments@.len() && exists|key: ReviewBotKey|
        #[trigger] written_by(chain, threads[i].comments@[j].author, key)
}

proof fn lemma_some_bot(chain: Seq<DescriptorView>, author: Option<String>)
    ensures
        node_bot(chain, author) is Some <==> exists|key: ReviewBotKey| #[trigger]
            written_by(chain, author, key),
{
    if let Some(key) = node_bot(chain, author) {
        lemma_written_by(chain, author, key);
    }
    if exists|key: ReviewBotKey| #[trigger] written_by(chain, author, key) {
        let key = choose|key: ReviewBotKey| #[trigger] written_by(chain, author, key);
        lemma_written_by(chain, author, key);
    }
}

/// The activity in the threads is the latest comment of any bot in any of them, whether or
/// not the thread is resolved; there is none exactly where no bot wrote.
pub proof fn law_thread_activity_is_the_latest(
    chain: Seq<DescriptorView>,
    threads: Seq<ReviewThreadNode>,
    commit_at: Timestamp,
)
    ensures
        ({
            let at = activity_in_threads(chain, threads, commit_at);
            &&& forall|i: int, j: int| #[trigger]
                bot_comment(chain, threads, i, j) ==> (at matches Some(t) && t.total()
                    >= written_at(threads[i].comments@[j], commit_at).total())
            &&& at matches Some(t) ==> exists|i: int, j: int| #[trigger]
                bot_comment(chain, threads, i, j) && written_at(
                    threads[i].comments@[j],
                    commit_at,
                ) == t
        }),
    decreases threads.len(),
{
    if threads.len() > 0 {
        let less = threads.drop_last();
        let n = threads.len() - 1;
        law_thread_activity_is_the_latest(chain, less, commit_at);
        let before = activity_in_threads(chain, less, commit_at);
        let at = activity_in_threads(chain, threads, commit_at);
        let last = threads[n].comments@;
        lemma_activity_in_comments(chain, last, commit_at, before);
        assert forall|i: int, j: int| #[trigger] bot_comment(chain, threads, i, j) implies (
        at matches Some(t) && t.total() >= written_at(
            threads[i].comments@[j],
            commit_at,
        ).total()) by {
            if i < n {
                assert(less[i] == threads[i]);
                assert(bot_comment(chain, less, i, j));
            } else {
                lemma_some_bot(chain, last[j].author);
            }
        }
        if let Some(t) = at {
            if before == Some(t) {
                let (i, j) = choose|i: int, j: int| #[trigger]
                    bot_comment(chain, less, i, j) && written_at(
                        less[i].comments@[j],
                        commit_at,
                    ) == t;
                assert(less[i] == threads[i]);
                assert(bot_comment(chain, threads, i, j));
            } else {
                let j = choose|j: int|
                    0 <= j < last.len() && node_bot(chain, (#[trigger] last[j]).author) is Some
                        && written_at(last[j], commit_at) == t;
                lemma_some_bot(chain, last[j].author);
                assert(bot_comment(chain, threads, n, j));
            }
        }
    }
}

/// The activity of a bot is its review, or its comment where it never reviewed; what is
/// known stays known unless that is later.
pub proof fn law_own_activity_only_moves_forward(known: Option<Timestamp>, bot: BotView)
    ensures
        bot.review_at is None && bot.comment_at is None ==> with_own_activity(known, bot) == known,
        bot.review_at matches Some(t) ==> (with_own_activity(known, bot) matches Some(at)
            && at.total() >= t.total() && (at == t || Some(at) == known)),
        bot.review_at is None ==> (bot.comment_at matches Some(t) ==> (with_own_activity(
            known,
            bot,
        ) matches Some(at) && at.total() >= t.total() && (at == t || Some(at) == known))),
        known matches Some(k) ==> (with_own_activity(known, bot) matches Some(at) && at.total()
            >= k.total()),
{
}

/// A thread blocks only while it is neither resolved nor outdated, and then exactly where
/// one of its comments speaks of something high or critical, in whatever letter case.
pub proof fn law_open_severe_threads_block(thread: ReviewThreadNode, i: int)
    requires
        0 <= i < thread.comments@.len(),
    ensures
        thread.is_resolved || thread.is_outdated ==> !thread_blocks(thread),
        !thread.is_resolved && !thread.is_outdated && (text::contains(
            text::lower(thread.comments@[i].body@),
            "critical"@,
        ) || text::contains(text::lower(thread.comments@[i].body@), "high"@)) ==> thread_blocks(
            thread,
        ),
        (forall|j: int|
            0 <= j < thread.comments@.len() ==> !text::contains(
                text::lower((#[trigger] thread.comments@[j]).body@),
                "critical"@,
            ) && !text::contains(text::lower(thread.comments@[j].body@), "high"@))
            ==> !thread_blocks(thread),
{
}

proof fn lemma_index_from(s: Seq<char>, k: CharClass, from: nat)
    ensures
        text::index_from(s, k, from) matches Some(i) ==> from <= i < s.len() && k.has(s[i as int])
            && forall|j: int| from <= j < i ==> !k.has(#[trigger] s[j]),
        text::index_from(s, k, from) is None ==> forall|j: int|
            from <= j < s.len() ==> !k.has(#[trigger] s[j]),
    decreases s.len() - from,
{
    if from < s.len() && !k.has(s[from as int]) {
        lemma_index_from(s, k, from + 1);
    }
}

/// A slug is read as it is written: `owner/repo`, where the owner holds no slash. Without a
/// slash there is no slug.
pub proof fn law_slug_reads_back(owner: Seq<char>, repo: Seq<char>)
    requires
        !owner.contains('/'),
    ensures
        slug_parts(owner + seq!['/'] + repo) == Some((owner, repo)),
        slug_parts(owner) is None,
{
    let k = CharClass::Just('/');
    let all = owner + seq!['/'] + repo;
    lemma_index_from(all, k, 0);
    lemma_index_from(owner, k, 0);
    if let Some(i) = text::index_from(owner, k, 0) {
        assert(owner.contains(owner[i as int]));
    }
    assert(all[owner.len() as int] == '/');
    let i = text::index_from(all, k, 0)->0 as int;
    if i < owner.len() {
        assert(owner[i] == all[i]);
        assert(owner.contains(owner[i]));
    }
    assert(i == owner.len());
    assert(all.take(i) == owner);
    assert(all.skip(i + 1) == repo);
}

/// How the loop turns from bot to bot. The primary bot stays unless it has no quota. The
/// secondary one then takes over, unless it has no quota either or is silent: then no bot is
/// left. A bot is waited for exactly where it is turned to and never took part.
pub proof fn law_bots_take_over_in_order(
    chain: Seq<DescriptorView>,
    table: TableView,
    gemini_notice: Seq<char>,
    s: ReviewSetting,
)
    requires
        chain.len() > 0,
    ensures
        ({
            let d = decision(chain, table, gemini_notice, s);
            let second = if chain.len() > 1 {
                chain[1]
            } else {
                chain[0]
            };
            let one = bots::classification(chain[0].key, table.of(chain[0].key), gemini_notice, s);
            let two = bots::classification(second.key, table.of(second.key), gemini_notice, s);
            if one != BotClassification::QuotaExhausted {
                &&& d.active_bot == chain[0]
                &&& d.fallback is None
                &&& d.wait_for_bot <==> one == BotClassification::NeverReviewed
            } else {
                &&& d.active_bot == second
                &&& d.fallback matches Some(f) && f.active_bot == Some(second.key) && if two
                    == BotClassification::QuotaExhausted {
                    f.tier == ReviewFallbackTier::C && f.trigger
                        == ReviewFallbackTrigger::AllBotsQuota
                } else if two == BotClassification::Silent {
                    f.tier == ReviewFallbackTier::C && f.trigger == ReviewFallbackTrigger::Silence
                } else {
                    f.tier == ReviewFallbackTier::B && f.trigger == (match chain[0].key {
                        ReviewBotKey::Gemini => ReviewFallbackTrigger::GeminiQuota,
                        ReviewBotKey::Codex => ReviewFallbackTrigger::CodexQuota,
                    })
                }
                &&& d.wait_for_bot <==> two == BotClassification::NeverReviewed
            }
        }),
{
}

/// A fallback tells its tier, its trigger and its bot in words.
pub proof fn law_fallback_says_all_of_itself(f: ReviewFallbackState)
    ensures
        f.tier == ReviewFallbackTier::B && f.active_bot == Some(ReviewBotKey::Codex) && f.trigger
            == ReviewFallbackTrigger::GeminiQuota ==> f.detail_text()
            == "tier=B; trigger=GeminiQuota; active_bot=codex"@,
        f.tier == ReviewFallbackTier::B && f.active_bot == Some(ReviewBotKey::Gemini) && f.trigger
            == ReviewFallbackTrigger::CodexQuota ==> f.detail_text()
            == "tier=B; trigger=CodexQuota; active_bot=gemini"@,
        f.tier == ReviewFallbackTier::C && f.active_bot == Some(ReviewBotKey::Codex) && f.trigger
            == ReviewFallbackTrigger::AllBotsQuota ==> f.detail_text()
            == "tier=C; trigger=AllBotsQuota; active_bot=codex"@,
        f.tier == ReviewFallbackTier::C && f.active_bot is None && f.trigger
            == ReviewFallbackTrigger::Silence ==> f.detail_text()
            == "tier=C; trigger=Silence; active_bot=none"@,
        f.terminal() <==> f.tier == ReviewFallbackTier::C,
{
    reveal_strlit("tier=");
    reveal_strlit("; trigger=");
    reveal_strlit("; active_bot=");
    reveal_strlit("B");
    reveal_strlit("C");
    reveal_strlit("GeminiQuota");
    reveal_strlit("CodexQuota");
    reveal_strlit("AllBotsQuota");
    reveal_strlit("Silence");
    reveal_strlit("gemini");
    reveal_strlit("codex");
    reveal_strlit("none");
    reveal_strlit("tier=B; trigger=GeminiQuota; active_bot=codex");
    reveal_strlit("tier=B; trigger=CodexQuota; active_bot=gemini");
    reveal_strlit("tier=C; trigger=AllBotsQuota; active_bot=codex");
    reveal_strlit("tier=C; trigger=Silence; active_bot=none");
    assert("tier="@ + "B"@ + "; trigger="@ + "GeminiQuota"@ + "; active_bot="@ + "codex"@
        == "tier=B; trigger=GeminiQuota; active_bot=codex"@);
    assert("tier="@ + "B"@ + "; trigger="@ + "CodexQuota"@ + "; active_bot="@ + "gemini"@
        == "tier=B; trigger=CodexQuota; active_bot=gemini"@);
    assert("tier="@ + "C"@ + "; trigger="@ + "AllBotsQuota"@ + "; active_bot="@ + "codex"@
        == "tier=C; trigger=AllBotsQuota; active_bot=codex"@);
    assert("tier="@ + "C"@ + "; trigger="@ + "Silence"@ + "; active_bot="@ + "none"@
        == "tier=C; trigger=Silence; active_bot=none"@);
}

/// Looks without new activity add up; new activity, or that there is none any more, begins
/// the count anew.
pub proof fn law_silence_counts_looks_without_activity(
    rounds: u32,
    last: Option<Timestamp>,
    next: Option<Timestamp>,
)
    ensures
        next != last ==> silence_after(rounds, last, next) == (0u32, next),
        rounds < u32::MAX ==> silence_after(rounds, last, last) == ((rounds + 1) as u32, last),
        silence_after(u32::MAX, last, last) == (u32::MAX, last),
{
}

/// A bot is judged by what was found of the pull request and by the rule for silence, as they
/// are; the names of fallbacks are their own.
pub proof fn law_setting_is_what_was_found(
    s: PullRequestSignals,
    now: Timestamp,
    silence_rounds: u32,
    rule: SilenceRule,
)
    ensures
        setting_of(s, now, silence_rounds, rule).now == now,
        setting_of(s, now, silence_rounds, rule).latest_commit_at == s.latest_commit_at,
        setting_of(s, now, silence_rounds, rule).ci_green == s.ci_green,
        setting_of(s, now, silence_rounds, rule).blocking_feedback == s.blocking_feedback,
        setting_of(s, now, silence_rounds, rule).silence_rounds == silence_rounds,
        setting_of(s, now, silence_rounds, rule).rule == rule,
        ReviewFallbackTier::B.name() == "B"@,
        ReviewFallbackTier::C.name() == "C"@,
        ReviewFallbackTrigger::GeminiQuota.name() == "GeminiQuota"@,
        ReviewFallbackTrigger::CodexQuota.name() == "CodexQuota"@,
        ReviewFallbackTrigger::AllBotsQuota.name() == "AllBotsQuota"@,
        ReviewFallbackTrigger::Silence.name() == "Silence"@,
        quota_trigger_of(ReviewBotKey::Gemini) == ReviewFallbackTrigger::GeminiQuota,
        quota_trigger_of(ReviewBotKey::Codex) == ReviewFallbackTrigger::CodexQuota,
{
}

/// The second bot of the chain stands in for the first; a chain of one has no other.
pub proof fn law_second_bot_stands_in(chain: Seq<DescriptorView>)
    requires
        chain.len() > 0,
    ensures
        chain.len() > 1 ==> secondary_of(chain) == chain[1],
        chain.len() == 1 ==> secondary_of(chain) == chain[0],
{
}

} // verus!
