//! The review bots of a pull request: who they are, what they said, and what that
//! means.

use crate::clock;
use crate::clock::Timestamp;
use crate::text;
use crate::text::CharClass;
use vstd::prelude::*;
use vstd::string::*;

verus! {

/// The login under which Codex reviews.
pub const CODEX_REVIEWER_NAME: &'static str = "chatgpt-codex-connector[bot]";

/// The comment that summons Codex.
pub const CODEX_REVIEW_COMMAND: &'static str = "@codex";

/// What Codex writes where it approves, in lower case.
pub const CODEX_APPROVAL_SIGNATURE: &'static str = "no major issues";

/// What Codex writes where it has no quota left, in lower case. A notice in other words is
/// not taken for one.
pub const CODEX_QUOTA_NOTICE: &'static str = "codex usage limits have been reached";

/// A review bot.
#[derive(Clone, Copy, Debug, PartialEq, Eq, Structural)]
pub enum ReviewBotKey {
    Gemini,
    Codex,
}

impl ReviewBotKey {
    /// The name of the bot.
    pub open spec fn name(self) -> Seq<char> {
        match self {
            ReviewBotKey::Gemini => "gemini"@,
            ReviewBotKey::Codex => "codex"@,
        }
    }

    /// The name of the bot.
    pub fn as_str(self) -> (r: &'static str)
        ensures
            r@ == self.name(),
    {
        match self {
            ReviewBotKey::Gemini => "gemini",
            ReviewBotKey::Codex => "codex",
        }
    }
}

/// A bot, the login under which it reviews and the comment that summons it.
#[derive(Debug)]
pub struct ReviewBotDescriptor {
    pub key: ReviewBotKey,
    pub reviewer_name: String,
    pub review_command: String,
}

/// What a [`ReviewBotDescriptor`] holds.
pub struct DescriptorView {
    pub key: ReviewBotKey,
    pub reviewer_name: Seq<char>,
    pub review_command: Seq<char>,
}

impl View for ReviewBotDescriptor {
    type V = DescriptorView;

    open spec fn view(&self) -> DescriptorView {
        DescriptorView {
            key: self.key,
            reviewer_name: self.reviewer_name@,
            review_command: self.review_command@,
        }
    }
}

/// The contents of a list of bots.
pub open spec fn descriptors(v: Seq<ReviewBotDescriptor>) -> Seq<DescriptorView> {
    Seq::new(v.len(), |i: int| v[i]@)
}

/// Gemini, under the configured login and command.
pub open spec fn gemini(reviewer_name: Seq<char>, review_command: Seq<char>) -> DescriptorView {
    DescriptorView { key: ReviewBotKey::Gemini, reviewer_name, review_command }
}

/// The bot that an entry of the configured chain names, if it names one. Letter case
/// and white space around the name do not matter.
pub open spec fn entry_bot(
    entry: Seq<char>,
    reviewer_name: Seq<char>,
    review_command: Seq<char>,
) -> Option<DescriptorView> {
    let name = text::lower(text::trim(entry, CharClass::White));
    if name == "gemini"@ {
        Some(gemini(reviewer_name, review_command))
    } else if name == "codex"@ {
        Some(
            DescriptorView {
                key: ReviewBotKey::Codex,
                reviewer_name: CODEX_REVIEWER_NAME@,
                review_command: CODEX_REVIEW_COMMAND@,
            },
        )
    } else {
        None
    }
}

/// The bots that the entries name, in their order.
pub open spec fn entry_bots(
    entries: Seq<Seq<char>>,
    reviewer_name: Seq<char>,
    review_command: Seq<char>,
) -> Seq<DescriptorView>
    decreases entries.len(),
{
    if entries.len() == 0 {
        seq![]
    } else {
        let before = entry_bots(entries.drop_last(), reviewer_name, review_command);
        match entry_bot(entries.last(), reviewer_name, review_command) {
            Some(bot) => before.push(bot),
            None => before,
        }
    }
}

/// The chain of bots: those that the entries name, or Gemini where they name none.
pub open spec fn chain_of(
    entries: Seq<Seq<char>>,
    reviewer_name: Seq<char>,
    review_command: Seq<char>,
) -> Seq<DescriptorView> {
    let named = entry_bots(entries, reviewer_name, review_command);
    if named.len() == 0 {
        seq![gemini(reviewer_name, review_command)]
    } else {
        named
    }
}

impl ReviewBotDescriptor {
    /// A copy.
    pub fn copy(&self) -> (r: ReviewBotDescriptor)
        ensures
            r@ == self@,
    {
        ReviewBotDescriptor {
            key: self.key,
            reviewer_name: self.reviewer_name.clone(),
            review_command: self.review_command.clone(),
        }
    }

    /// The bot that an entry of the configured chain names, if it names one.
    pub fn from_chain_entry(entry: &str, reviewer_name: &str, review_bot_command: &str) -> (r:
        Option<ReviewBotDescriptor>)
        ensures
            match r {
                Some(bot) => entry_bot(entry@, reviewer_name@, review_bot_command@) == Some(bot@),
                None => entry_bot(entry@, reviewer_name@, review_bot_command@) is None,
            },
    {
        let chars = text::chars_of(entry);
        let name = text::to_lower(text::trimmed(chars.as_slice(), CharClass::White));
        let gemini_name = text::chars_of("gemini");
        let codex_name = text::chars_of("codex");
        if text::same(name.as_slice(), gemini_name.as_slice()) {
            Some(
                ReviewBotDescriptor {
                    key: ReviewBotKey::Gemini,
                    reviewer_name: reviewer_name.to_owned(),
                    review_command: review_bot_command.to_owned(),
                },
            )
        } else if text::same(name.as_slice(), codex_name.as_slice()) {
            Some(
                ReviewBotDescriptor {
                    key: ReviewBotKey::Codex,
                    reviewer_name: CODEX_REVIEWER_NAME.to_owned(),
                    review_command: CODEX_REVIEW_COMMAND.to_owned(),
                },
            )
        } else {
            None
        }
    }
}

/// The chain of bots that a configuration names. It is never empty.
pub fn bot_fallback_chain(
    entries: &[String],
    reviewer_name: &str,
    review_bot_command: &str,
) -> (r: Vec<ReviewBotDescriptor>)
    ensures
        descriptors(r@) == chain_of(text::texts(entries@), reviewer_name@, review_bot_command@),
        r@.len() > 0,
{
    let ghost all = text::texts(entries@);
    let mut chain: Vec<ReviewBotDescriptor> = Vec::new();
    let mut i: usize = 0;
    assert(all.take(0) == Seq::<Seq<char>>::empty());
    assert(descriptors(chain@) == Seq::<DescriptorView>::empty());
    while i < entries.len()
        invariant
            i <= entries.len(),
            all == text::texts(entries@),
            descriptors(chain@) == entry_bots(
                all.take(i as int),
                reviewer_name@,
                review_bot_command@,
            ),
        decreases entries.len() - i,
    {
        assert(all.take(i + 1).drop_last() == all.take(i as int));
        assert(all.take(i + 1).last() == entries@[i as int]@);
        match ReviewBotDescriptor::from_chain_entry(
            entries[i].as_str(),
            reviewer_name,
            review_bot_command,
        ) {
            Some(bot) => {
                let ghost before = descriptors(chain@);
                let ghost b = bot@;
                chain.push(bot);
                assert(descriptors(chain@) == before.push(b));
            },
            None => {},
        }
        i += 1;
    }
    assert(all.take(i as int) == all);
    if chain.len() == 0 {
        assert(descriptors(chain@).len() == 0);
        chain.push(
            ReviewBotDescriptor {
                key: ReviewBotKey::Gemini,
                reviewer_name: reviewer_name.to_owned(),
                review_command: review_bot_command.to_owned(),
            },
        );
        assert(descriptors(chain@) == seq![gemini(reviewer_name@, review_bot_command@)]);
    }
    chain
}

/// Whether a bot's text says that it has no quota left. `gemini_notice` is what Gemini writes
/// there, in lower case.
pub open spec fn says_quota(
    bot: ReviewBotKey,
    body: Seq<char>,
    gemini_notice: Seq<char>,
) -> bool {
    match bot {
        ReviewBotKey::Gemini => text::contains(text::lower(body), gemini_notice),
        ReviewBotKey::Codex => text::contains(text::lower(body), CODEX_QUOTA_NOTICE@),
    }
}

/// Whether a bot's text approves. Gemini approves by its review's state alone.
pub open spec fn says_approval(bot: ReviewBotKey, body: Seq<char>) -> bool {
    match bot {
        ReviewBotKey::Gemini => false,
        ReviewBotKey::Codex => text::contains(text::lower(body), CODEX_APPROVAL_SIGNATURE@),
    }
}

fn low_holds(body: &str, notice: &str) -> (r: bool)
    ensures
        r == text::contains(text::lower(body@), notice@),
{
    let chars = text::chars_of(body);
    let low = text::to_lower(chars.as_slice());
    let n = text::chars_of(notice);
    text::holds(low.as_slice(), n.as_slice())
}

/// Whether a bot's text says that it has no quota left. `gemini_notice` is what Gemini writes
/// there, in lower case.
pub fn bot_quota_exhausted(bot: ReviewBotKey, body: &str, gemini_notice: &str) -> (r: bool)
    ensures
        r == says_quota(bot, body@, gemini_notice@),
{
    match bot {
        ReviewBotKey::Gemini => low_holds(body, gemini_notice),
        ReviewBotKey::Codex => low_holds(body, CODEX_QUOTA_NOTICE),
    }
}

/// Whether a bot's text approves.
pub fn bot_approval_signal(bot: ReviewBotKey, body: &str) -> (r: bool)
    ensures
        r == says_approval(bot, body@),
{
    match bot {
        ReviewBotKey::Gemini => false,
        ReviewBotKey::Codex => low_holds(body, CODEX_APPROVAL_SIGNATURE),
    }
}

/// The first bot of the chain from `from` on that reviews under the login `author`.
pub open spec fn author_bot(
    chain: Seq<DescriptorView>,
    author: Seq<char>,
    from: nat,
) -> Option<ReviewBotKey>
    decreases chain.len() - from,
{
    if from >= chain.len() {
        None
    } else if text::lower(chain[from as int].reviewer_name) == text::lower(author) {
        Some(chain[from as int].key)
    } else {
        author_bot(chain, author, from + 1)
    }
}

/// The first bot of the chain that reviews under the login `author`.
pub fn review_bot_key_for_author(chain: &[ReviewBotDescriptor], author: &str) -> (r: Option<
    ReviewBotKey,
>)
    ensures
        r == author_bot(descriptors(chain@), author@, 0),
{
    let who = text::chars_of(author);
    let ghost all = descriptors(chain@);
    let mut i: usize = 0;
    while i < chain.len()
        invariant
            i <= chain.len(),
            who@ == author@,
            all == descriptors(chain@),
            author_bot(all, author@, 0) == author_bot(all, author@, i as nat),
        decreases chain.len() - i,
    {
        let name = text::chars_of(chain[i].reviewer_name.as_str());
        assert(all[i as int] == chain@[i as int]@);
        if text::eq_ignore_case(name.as_slice(), who.as_slice()) {
            return Some(chain[i].key);
        }
        i += 1;
    }
    None
}

/// What is known of one bot on a pull request.
#[derive(Debug)]
pub struct BotSignals {
    pub latest_review_at: Option<Timestamp>,
    pub latest_review_state: Option<String>,
    pub latest_review_body: Option<String>,
    pub latest_comment_at: Option<Timestamp>,
    pub latest_comment_body: Option<String>,
    pub reviewed_any_commit: bool,
}

/// What a [`BotSignals`] holds.
pub struct BotView {
    pub review_at: Option<Timestamp>,
    pub review_state: Option<Seq<char>>,
    pub review_body: Option<Seq<char>>,
    pub comment_at: Option<Timestamp>,
    pub comment_body: Option<Seq<char>>,
    pub seen: bool,
}

impl View for BotSignals {
    type V = BotView;

    open spec fn view(&self) -> BotView {
        BotView {
            review_at: self.latest_review_at,
            review_state: text::opt_view(self.latest_review_state),
            review_body: text::opt_view(self.latest_review_body),
            comment_at: self.latest_comment_at,
            comment_body: text::opt_view(self.latest_comment_body),
            seen: self.reviewed_any_commit,
        }
    }
}

/// A bot that has done nothing.
pub open spec fn no_signals() -> BotView {
    BotView {
        review_at: None,
        review_state: None,
        review_body: None,
        comment_at: None,
        comment_body: None,
        seen: false,
    }
}

impl BotSignals {
    /// A bot that has done nothing.
    pub fn none() -> (r: BotSignals)
        ensures
            r@ == no_signals(),
    {
        BotSignals {
            latest_review_at: None,
            latest_review_state: None,
            latest_review_body: None,
            latest_comment_at: None,
            latest_comment_body: None,
            reviewed_any_commit: false,
        }
    }
}

/// Whether what happened at `at` is not older than the latest known.
pub open spec fn is_latest(known: Option<Timestamp>, at: Timestamp) -> bool {
    known matches Some(t) ==> at.total() >= t.total()
}

/// A bot after one more comment.
pub open spec fn with_comment(bot: BotView, body: Seq<char>, at: Timestamp) -> BotView {
    if is_latest(bot.comment_at, at) {
        BotView { comment_at: Some(at), comment_body: Some(body), seen: true, ..bot }
    } else {
        BotView { seen: true, ..bot }
    }
}

/// A bot after one more review.
pub open spec fn with_review(
    bot: BotView,
    state: Seq<char>,
    body: Seq<char>,
    at: Option<Timestamp>,
) -> BotView {
    match at {
        Some(t) => if is_latest(bot.review_at, t) {
            BotView {
                review_at: at,
                review_state: Some(state),
                review_body: Some(body),
                seen: true,
                ..bot
            }
        } else {
            BotView { seen: true, ..bot }
        },
        None => BotView { seen: true, ..bot },
    }
}

fn not_older(known: Option<Timestamp>, at: Timestamp) -> (r: bool)
    ensures
        r == is_latest(known, at),
{
    match known {
        Some(t) => at.not_before(t),
        None => true,
    }
}

/// Takes in a comment of a bot. Only the latest is kept.
pub fn record_bot_comment_signal(bot: &mut BotSignals, body: String, created_at: Timestamp)
    ensures
        final(bot)@ == with_comment(old(bot)@, body@, created_at),
{
    bot.reviewed_any_commit = true;
    if not_older(bot.latest_comment_at, created_at) {
        bot.latest_comment_at = Some(created_at);
        bot.latest_comment_body = Some(body);
    }
}

/// Takes in a review of a bot. Only the latest is kept.
pub fn record_bot_review_signal(
    bot: &mut BotSignals,
    state: String,
    body: String,
    submitted_at: Option<Timestamp>,
)
    ensures
        final(bot)@ == with_review(old(bot)@, state@, body@, submitted_at),
{
    bot.reviewed_any_commit = true;
    if let Some(at) = submitted_at {
        if not_older(bot.latest_review_at, at) {
            bot.latest_review_at = Some(at);
            bot.latest_review_state = Some(state);
            bot.latest_review_body = Some(body);
        }
    }
}

/// What a bot's signals mean for the latest commit.
#[derive(Clone, Copy, Debug, PartialEq, Eq, Structural)]
pub enum BotClassification {
    FreshApproval,
    ActionableFeedback,
    QuotaExhausted,
    Silent,
    NeverReviewed,
}

/// When a bot that reviewed before counts as silent.
#[derive(Clone, Copy, Debug, PartialEq, Eq, Structural)]
pub struct SilenceRule {
    /// Rounds without activity.
    pub rounds_threshold: u32,
    /// Minutes since the latest commit.
    pub min_minutes_after_commit: u32,
}

/// What surrounds a bot's signals.
#[derive(Clone, Copy, Debug, PartialEq, Eq, Structural)]
pub struct ReviewSetting {
    pub now: Timestamp,
    pub latest_commit_at: Timestamp,
    pub ci_green: bool,
    pub blocking_feedback: bool,
    pub silence_rounds: u32,
    pub rule: SilenceRule,
}

/// Whether silence is to be accepted in this setting.
pub open spec fn silence_accepted(s: ReviewSetting) -> bool {
    &&& s.silence_rounds >= s.rule.rounds_threshold
    &&& clock::toward_zero(s.now.total() - s.latest_commit_at.total(), 60_000_000_000)
        >= s.rule.min_minutes_after_commit
    &&& s.ci_green
    &&& !s.blocking_feedback
}

/// The meaning of a bot's signals. A review of the latest commit decides first, then
/// a comment on it.
pub open spec fn classification(
    key: ReviewBotKey,
    bot: BotView,
    gemini_notice: Seq<char>,
    s: ReviewSetting,
) -> BotClassification {
    if bot.review_at matches Some(at) && at.total() >= s.latest_commit_at.total() {
        if bot.review_state == Some("APPROVED"@) || (bot.review_body matches Some(body)
            && says_approval(key, body)) {
            BotClassification::FreshApproval
        } else if bot.review_body matches Some(body) && says_quota(key, body, gemini_notice) {
            BotClassification::QuotaExhausted
        } else {
            BotClassification::ActionableFeedback
        }
    } else if bot.comment_at matches Some(at) && bot.comment_body is Some && at.total()
        >= s.latest_commit_at.total() {
        if says_quota(key, bot.comment_body->0, gemini_notice) {
            BotClassification::QuotaExhausted
        } else if says_approval(key, bot.comment_body->0) {
            BotClassification::FreshApproval
        } else {
            BotClassification::ActionableFeedback
        }
    } else if !bot.seen {
        BotClassification::NeverReviewed
    } else if silence_accepted(s) {
        BotClassification::Silent
    } else {
        BotClassification::ActionableFeedback
    }
}

fn review_meaning(key: ReviewBotKey, bot: &BotSignals, gemini_notice: &str) -> (r:
    BotClassification)
    ensures
        r == if bot@.review_state == Some("APPROVED"@) || (bot@.review_body matches Some(body)
            && says_approval(key, body)) {
            BotClassification::FreshApproval
        } else if bot@.review_body matches Some(body) && says_quota(key, body, gemini_notice@) {
            BotClassification::QuotaExhausted
        } else {
            BotClassification::ActionableFeedback
        },
{
    if let Some(state) = &bot.latest_review_state {
        if text::str_eq(state.as_str(), "APPROVED") {
            return BotClassification::FreshApproval;
        }
    }
    if let Some(body) = &bot.latest_review_body {
        if bot_approval_signal(key, body.as_str()) {
            return BotClassification::FreshApproval;
        }
        if bot_quota_exhausted(key, body.as_str(), gemini_notice) {
            return BotClassification::QuotaExhausted;
        }
    }
    BotClassification::ActionableFeedback
}

/// The meaning of a bot's signals. `gemini_notice` is what Gemini writes, in lower case, where
/// it has no quota left.
pub fn classify_bot(
    descriptor: &ReviewBotDescriptor,
    bot: &BotSignals,
    gemini_notice: &str,
    setting: ReviewSetting,
) -> (r: BotClassification)
    ensures
        r == classification(descriptor.key, bot@, gemini_notice@, setting),
{
    let key: ReviewBotKey = descriptor.key;
    if let Some(at) = bot.latest_review_at {
        if at.not_before(setting.latest_commit_at) {
            return review_meaning(key, bot, gemini_notice);
        }
    }
    if let (Some(at), Some(body)) = (bot.latest_comment_at, &bot.latest_comment_body) {
        if at.not_before(setting.latest_commit_at) {
            if bot_quota_exhausted(key, body.as_str(), gemini_notice) {
                return BotClassification::QuotaExhausted;
            }
            if bot_approval_signal(key, body.as_str()) {
                return BotClassification::FreshApproval;
            }
            return BotClassification::ActionableFeedback;
        }
    }
    if !bot.reviewed_any_commit {
        return BotClassification::NeverReviewed;
    }
    let age: i64 = clock::minutes_between(setting.latest_commit_at, setting.now);
    if setting.silence_rounds >= setting.rule.rounds_threshold && age
        >= setting.rule.min_minutes_after_commit as i64 && setting.ci_green
        && !setting.blocking_feedback {
        BotClassification::Silent
    } else {
        BotClassification::ActionableFeedback
    }
}

/// The combined state of a pull request's checks.
#[derive(Debug, PartialEq, Eq)]
pub enum PrCheckRollupState {
    Success,
    Pending(String),
    Failed(String),
}

/// What a [`PrCheckRollupState`] holds.
pub enum RollupView {
    Success,
    Pending(Seq<char>),
    Failed(Seq<char>),
}

impl View for PrCheckRollupState {
    type V = RollupView;

    open spec fn view(&self) -> RollupView {
        match self {
            PrCheckRollupState::Success => RollupView::Success,
            PrCheckRollupState::Pending(s) => RollupView::Pending(s@),
            PrCheckRollupState::Failed(s) => RollupView::Failed(s@),
        }
    }
}

/// The meaning of the reported state of all checks. A state that is not known is
/// pending.
pub open spec fn rollup(state: Option<Seq<char>>) -> RollupView {
    match state {
        None => RollupView::Pending("no statusCheckRollup state yet"@),
        Some(s) => {
            let t = text::trim(s, CharClass::White);
            let up = text::upper(t);
            if t.len() == 0 {
                RollupView::Pending("no statusCheckRollup state yet"@)
            } else if up == "SUCCESS"@ {
                RollupView::Success
            } else if up == "FAILURE"@ || up == "ERROR"@ {
                RollupView::Failed(t)
            } else {
                RollupView::Pending(t)
            }
        },
    }
}

/// The meaning of the reported state of all checks.
pub fn classify_pr_check_rollup_state(state: Option<&str>) -> (r: PrCheckRollupState)
    ensures
        r@ == rollup(text::opt_text(state)),
{
    match state {
        None => PrCheckRollupState::Pending("no statusCheckRollup state yet".to_owned()),
        Some(s) => {
            let chars = text::chars_of(s);
            let t = text::trimmed(chars.as_slice(), CharClass::White);
            if t.len() == 0 {
                return PrCheckRollupState::Pending("no statusCheckRollup state yet".to_owned());
            }
            let up = text::to_upper(t);
            let success = text::chars_of("SUCCESS");
            let failure = text::chars_of("FAILURE");
            let error = text::chars_of("ERROR");
            if text::same(up.as_slice(), success.as_slice()) {
                PrCheckRollupState::Success
            } else if text::same(up.as_slice(), failure.as_slice()) || text::same(
                up.as_slice(),
                error.as_slice(),
            ) {
                PrCheckRollupState::Failed(text::text_of(t))
            } else {
                PrCheckRollupState::Pending(text::text_of(t))
            }
        },
    }
}

/// A bot that never took part is never taken for silent, and neither is one while
/// checks fail or blocking feedback is open.
pub proof fn law_silence_needs_participation_and_green(
    key: ReviewBotKey,
    bot: BotView,
    gemini_notice: Seq<char>,
    s: ReviewSetting,
)
    requires
        classification(key, bot, gemini_notice, s) == BotClassification::Silent,
    ensures
        bot.seen,
        s.ci_green,
        !s.blocking_feedback,
        s.silence_rounds >= s.rule.rounds_threshold,
{
}

/// An approval counts for the latest commit only: what a bot said before that commit
/// approves nothing.
pub proof fn law_approval_is_fresh(
    key: ReviewBotKey,
    bot: BotView,
    gemini_notice: Seq<char>,
    s: ReviewSetting,
)
    requires
        classification(key, bot, gemini_notice, s) == BotClassification::FreshApproval,
    ensures
        (bot.review_at matches Some(at) && at.total() >= s.latest_commit_at.total()) || (
        bot.comment_at matches Some(at) && at.total() >= s.latest_commit_at.total()),
{
}

/// Whether the first bot of the chain that reviews under the login `author`, in whatever
/// letter case, is the bot `key`.
#[verifier::opaque]
pub open spec fn signs_as(chain: Seq<DescriptorView>, author: Seq<char>, key: ReviewBotKey) -> bool {
    exists|b: int|
        0 <= b < chain.len() && (#[trigger] chain[b]).key == key && text::lower(
            chain[b].reviewer_name,
        ) == text::lower(author) && forall|c: int|
            0 <= c < b ==> text::lower((#[trigger] chain[c]).reviewer_name) != text::lower(author)
}

proof fn lemma_author_bot(chain: Seq<DescriptorView>, author: Seq<char>, from: nat)
    ensures
        author_bot(chain, author, from) matches Some(key) ==> exists|b: int|
            from <= b < chain.len() && (#[trigger] chain[b]).key == key && text::lower(
                chain[b].reviewer_name,
            ) == text::lower(author) && forall|c: int|
                from <= c < b ==> text::lower((#[trigger] chain[c]).reviewer_name) != text::lower(
                    author,
                ),
        author_bot(chain, author, from) is None ==> forall|b: int|
            from <= b < chain.len() ==> text::lower((#[trigger] chain[b]).reviewer_name)
                != text::lower(author),
    decreases chain.len() - from,
{
    if from < chain.len() {
        if text::lower(chain[from as int].reviewer_name) == text::lower(author) {
            assert(chain[from as int].key == author_bot(chain, author, from)->0);
        } else {
            lemma_author_bot(chain, author, from + 1);
            if let Some(key) = author_bot(chain, author, from + 1) {
                let b = choose|b: int|
                    from + 1 <= b < chain.len() && (#[trigger] chain[b]).key == key && text::lower(
                        chain[b].reviewer_name,
                    ) == text::lower(author) && forall|c: int|
                        from + 1 <= c < b ==> text::lower((#[trigger] chain[c]).reviewer_name)
                            != text::lower(author);
                assert(chain[b].key == key);
                assert forall|c: int| from <= c < b implies text::lower(
                    (#[trigger] chain[c]).reviewer_name,
                ) != text::lower(author) by {}
            }
        }
    }
}

/// An author is the first bot of the chain with that login, in whatever letter case, and no
/// bot exactly where none of the chain has it.
pub proof fn law_author_is_the_first_bot_of_that_login(
    chain: Seq<DescriptorView>,
    author: Seq<char>,
    key: ReviewBotKey,
)
    ensures
        author_bot(chain, author, 0) == Some(key) <==> signs_as(chain, author, key),
        author_bot(chain, author, 0) is None <==> forall|b: int|
            0 <= b < chain.len() ==> text::lower((#[trigger] chain[b]).reviewer_name)
                != text::lower(author),
{
    reveal(signs_as);
    lemma_author_bot(chain, author, 0);
    if signs_as(chain, author, key) {
        let b = choose|b: int|
            0 <= b < chain.len() && (#[trigger] chain[b]).key == key && text::lower(
                chain[b].reviewer_name,
            ) == text::lower(author) && forall|c: int|
                0 <= c < b ==> text::lower((#[trigger] chain[c]).reviewer_name) != text::lower(
                    author,
                );
        assert(text::lower(chain[b].reviewer_name) == text::lower(author));
        let other = author_bot(chain, author, 0)->0;
        let d = choose|d: int|
            0 <= d < chain.len() && (#[trigger] chain[d]).key == other && text::lower(
                chain[d].reviewer_name,
            ) == text::lower(author) && forall|c: int|
                0 <= c < d ==> text::lower((#[trigger] chain[c]).reviewer_name) != text::lower(
                    author,
                );
        if d < b {
            assert(text::lower(chain[d].reviewer_name) != text::lower(author));
        } else if b < d {
            assert(text::lower(chain[b].reviewer_name) != text::lower(author));
        }
    }
}

/// An entry of the configured chain names Gemini, under the configured login, or Codex,
/// under its own; letter case and white space around it do not matter, and every other
/// entry names no bot.
pub proof fn law_chain_entries_name_bots(
    entry: Seq<char>,
    reviewer_name: Seq<char>,
    review_command: Seq<char>,
)
    ensures
        ({
            let name = text::lower(text::trim(entry, CharClass::White));
            &&& name == "gemini"@ ==> entry_bot(entry, reviewer_name, review_command) == Some(
                DescriptorView { key: ReviewBotKey::Gemini, reviewer_name, review_command },
            )
            &&& name == "codex"@ ==> entry_bot(entry, reviewer_name, review_command) == Some(
                DescriptorView {
                    key: ReviewBotKey::Codex,
                    reviewer_name: "chatgpt-codex-connector[bot]"@,
                    review_command: "@codex"@,
                },
            )
            &&& name != "gemini"@ && name != "codex"@ ==> entry_bot(
                entry,
                reviewer_name,
                review_command,
            ) is None
        }),
{
    reveal_strlit("gemini");
    reveal_strlit("codex");
    assert("gemini"@.len() == 6 && "codex"@.len() == 5);
}

proof fn lemma_entry_bots_concat(
    a: Seq<Seq<char>>,
    b: Seq<Seq<char>>,
    reviewer_name: Seq<char>,
    review_command: Seq<char>,
)
    ensures
        entry_bots(a + b, reviewer_name, review_command) == entry_bots(
            a,
            reviewer_name,
            review_command,
        ) + entry_bots(b, reviewer_name, review_command),
    decreases b.len(),
{
    if b.len() == 0 {
        assert(a + b == a);
        assert(entry_bots(a, reviewer_name, review_command) + entry_bots(
            b,
            reviewer_name,
            review_command,
        ) == entry_bots(a, reviewer_name, review_command));
    } else {
        assert((a + b).drop_last() == a + b.drop_last());
        lemma_entry_bots_concat(a, b.drop_last(), reviewer_name, review_command);
        assert(entry_bots(a + b, reviewer_name, review_command) == entry_bots(
            a,
            reviewer_name,
            review_command,
        ) + entry_bots(b, reviewer_name, review_command));
    }
}

/// The chain keeps the order of its entries: the first entry that names a bot gives its
/// first bot, and whatever the other entries name comes after. Without such an entry
/// Gemini is the only bot.
pub proof fn law_chain_keeps_the_order_of_entries(
    before: Seq<Seq<char>>,
    entry: Seq<char>,
    after: Seq<Seq<char>>,
    reviewer_name: Seq<char>,
    review_command: Seq<char>,
)
    requires
        forall|i: int|
            0 <= i < before.len() ==> entry_bot(
                #[trigger] before[i],
                reviewer_name,
                review_command,
            ) is None,
    ensures
        entry_bot(entry, reviewer_name, review_command) matches Some(bot) ==> chain_of(
            before.push(entry) + after,
            reviewer_name,
            review_command,
        ) == seq![bot] + entry_bots(after, reviewer_name, review_command),
        chain_of(before, reviewer_name, review_command) == seq![
            DescriptorView { key: ReviewBotKey::Gemini, reviewer_name, review_command },
        ],
{
    lemma_no_entry_bots(before, reviewer_name, review_command);
    assert(before.push(entry).drop_last() == before);
    lemma_entry_bots_concat(before.push(entry), after, reviewer_name, review_command);
    if let Some(bot) = entry_bot(entry, reviewer_name, review_command) {
        assert(entry_bots(before.push(entry), reviewer_name, review_command) == seq![bot]);
    }
}

proof fn lemma_no_entry_bots(
    entries: Seq<Seq<char>>,
    reviewer_name: Seq<char>,
    review_command: Seq<char>,
)
    requires
        forall|i: int|
            0 <= i < entries.len() ==> entry_bot(
                #[trigger] entries[i],
                reviewer_name,
                review_command,
            ) is None,
    ensures
        entry_bots(entries, reviewer_name, review_command).len() == 0,
    decreases entries.len(),
{
    if entries.len() > 0 {
        assert(entry_bot(entries[entries.len() - 1], reviewer_name, review_command) is None);
        lemma_no_entry_bots(entries.drop_last(), reviewer_name, review_command);
    }
}

/// What a bot says of its quota and of the work, in whatever letter case: Codex approves
/// and refuses in words of its own; Gemini refuses by its notice and approves in no words.
pub proof fn law_bots_speak_in_their_own_words(
    before: Seq<char>,
    after: Seq<char>,
    gemini_notice: Seq<char>,
    body: Seq<char>,
)
    ensures
        text::lower(body) == before + "codex usage limits have been reached"@ + after
            ==> says_quota(ReviewBotKey::Codex, body, gemini_notice),
        text::lower(body) == before + "no major issues"@ + after ==> says_approval(
            ReviewBotKey::Codex,
            body,
        ),
        text::lower(body) == before + gemini_notice + after ==> says_quota(
            ReviewBotKey::Gemini,
            body,
            gemini_notice,
        ),
        !says_approval(ReviewBotKey::Gemini, body),
        says_quota(ReviewBotKey::Codex, body, gemini_notice) ==> text::contains(
            text::lower(body),
            "codex usage limits have been reached"@,
        ),
        says_approval(ReviewBotKey::Codex, body) ==> text::contains(
            text::lower(body),
            "no major issues"@,
        ),
        says_quota(ReviewBotKey::Gemini, body, gemini_notice) ==> text::contains(
            text::lower(body),
            gemini_notice,
        ),
{
    text::lemma_contains_part(before, "codex usage limits have been reached"@, after);
    text::lemma_contains_part(before, "no major issues"@, after);
    text::lemma_contains_part(before, gemini_notice, after);
}

/// A review of the latest commit decides whatever was commented: it approves by its state
/// or in words; else it may say that there is no quota; else it is feedback.
pub proof fn law_fresh_review_decides(
    key: ReviewBotKey,
    bot: BotView,
    gemini_notice: Seq<char>,
    s: ReviewSetting,
)
    requires
        bot.review_at matches Some(at) && at.total() >= s.latest_commit_at.total(),
    ensures
        ({
            let c = classification(key, bot, gemini_notice, s);
            let approves = bot.review_state == Some("APPROVED"@) || (bot.review_body matches Some(
                b,
            ) && says_approval(key, b));
            let refuses = bot.review_body matches Some(b) && says_quota(key, b, gemini_notice);
            &&& c == BotClassification::FreshApproval <==> approves
            &&& c == BotClassification::QuotaExhausted <==> !approves && refuses
            &&& c == BotClassification::ActionableFeedback <==> !approves && !refuses
        }),
{
}

/// Where the latest commit was not reviewed, a comment on it decides: that there is no
/// quota counts before an approval.
pub proof fn law_fresh_comment_decides_without_a_review(
    key: ReviewBotKey,
    bot: BotView,
    gemini_notice: Seq<char>,
    s: ReviewSetting,
)
    requires
        bot.review_at matches Some(at) ==> at.total() < s.latest_commit_at.total(),
        bot.comment_at matches Some(at) && at.total() >= s.latest_commit_at.total(),
        bot.comment_body is Some,
    ensures
        ({
            let c = classification(key, bot, gemini_notice, s);
            let refuses = says_quota(key, bot.comment_body->0, gemini_notice);
            let approves = says_approval(key, bot.comment_body->0);
            &&& c == BotClassification::QuotaExhausted <==> refuses
            &&& c == BotClassification::FreshApproval <==> !refuses && approves
            &&& c == BotClassification::ActionableFeedback <==> !refuses && !approves
        }),
{
}

/// What a bot said before the latest commit decides nothing. A bot that took part is then
/// silent after enough looks and minutes, with green checks and nothing blocking; one that
/// never took part has never reviewed.
pub proof fn law_stale_words_decide_nothing(
    key: ReviewBotKey,
    bot: BotView,
    gemini_notice: Seq<char>,
    s: ReviewSetting,
)
    requires
        bot.review_at matches Some(at) ==> at.total() < s.latest_commit_at.total(),
        bot.comment_at matches Some(at) ==> at.total() < s.latest_commit_at.total(),
        s.now.total() >= s.latest_commit_at.total(),
    ensures
        ({
            let c = classification(key, bot, gemini_notice, s);
            let quiet = s.silence_rounds >= s.rule.rounds_threshold && s.now.total()
                - s.latest_commit_at.total() >= s.rule.min_minutes_after_commit * 60_000_000_000
                && s.ci_green && !s.blocking_feedback;
            &&& c == BotClassification::NeverReviewed <==> !bot.seen
            &&& c == BotClassification::Silent <==> bot.seen && quiet
            &&& c == BotClassification::ActionableFeedback <==> bot.seen && !quiet
        }),
{
    let span = s.now.total() - s.latest_commit_at.total();
    let m = s.rule.min_minutes_after_commit as int;
    assert(span / 60_000_000_000 >= m <==> span >= m * 60_000_000_000) by (nonlinear_arith)
        requires
            span >= 0,
            m >= 0,
    ;
}

/// Of two comments the later one is kept, and of two at the same time the one that comes
/// second. Either way the bot took part, and its reviews are as they were.
pub proof fn law_latest_comment_is_kept(
    bot: BotView,
    first: (Seq<char>, Timestamp),
    second: (Seq<char>, Timestamp),
)
    requires
        bot.comment_at is None,
    ensures
        ({
            let after = with_comment(with_comment(bot, first.0, first.1), second.0, second.1);
            &&& after.seen
            &&& second.1.total() >= first.1.total() ==> after.comment_at == Some(second.1)
                && after.comment_body == Some(second.0)
            &&& second.1.total() < first.1.total() ==> after.comment_at == Some(first.1)
                && after.comment_body == Some(first.0)
            &&& after.review_at == bot.review_at && after.review_state == bot.review_state
                && after.review_body == bot.review_body
        }),
{
}

/// Of two reviews the later one is kept, and of two at the same time the one that comes
/// second. One without a time only tells that the bot took part.
pub proof fn law_latest_review_is_kept(
    bot: BotView,
    first: (Seq<char>, Seq<char>, Timestamp),
    second: (Seq<char>, Seq<char>, Timestamp),
)
    requires
        bot.review_at is None,
    ensures
        ({
            let one = with_review(bot, first.0, first.1, Some(first.2));
            let after = with_review(one, second.0, second.1, Some(second.2));
            &&& after.seen
            &&& second.2.total() >= first.2.total() ==> after.review_at == Some(second.2)
                && after.review_state == Some(second.0) && after.review_body == Some(second.1)
            &&& second.2.total() < first.2.total() ==> after.review_at == Some(first.2)
                && after.review_state == Some(first.0) && after.review_body == Some(first.1)
            &&& after.comment_at == bot.comment_at && after.comment_body == bot.comment_body
            &&& with_review(one, second.0, second.1, None) == one
            &&& with_review(bot, second.0, second.1, None) == (BotView { seen: true, ..bot })
        }),
{
}

/// Checks are green only where their state is `SUCCESS`, and have failed only where it is
/// `FAILURE` or `ERROR`, in whatever letter case and with whatever white space around it;
/// everything else is still pending.
pub proof fn law_checks_are_green_only_by_success(state: Seq<char>)
    ensures
        ({
            let word = text::trim(state, CharClass::White);
            let up = text::upper(word);
            &&& rollup(Some(state)) == RollupView::Success <==> up == "SUCCESS"@
            &&& rollup(Some(state)) is Failed <==> up == "FAILURE"@ || up == "ERROR"@
            &&& rollup(Some(state)) matches RollupView::Failed(told) ==> told == word
            &&& rollup(Some(state)) matches RollupView::Pending(told) ==> told == (if word.len()
                == 0 {
                "no statusCheckRollup state yet"@
            } else {
                word
            })
            &&& rollup(None) == RollupView::Pending("no statusCheckRollup state yet"@)
        }),
{
    reveal_strlit("SUCCESS");
    reveal_strlit("FAILURE");
    reveal_strlit("ERROR");
    assert("SUCCESS"@.len() == 7 && "FAILURE"@.len() == 7 && "ERROR"@.len() == 5);
    assert("SUCCESS"@[0] == 'S' && "FAILURE"@[0] == 'F');
}

/// Silence is accepted exactly when a bot has been silent for the rounds that the rule asks for,
/// as many full minutes have passed since the commit, the checks are green and nothing blocks.
pub proof fn law_silence_is_accepted_by_its_rule(s: ReviewSetting)
    requires
        s.now.total() >= s.latest_commit_at.total(),
    ensures
        silence_accepted(s) <==> s.silence_rounds >= s.rule.rounds_threshold && s.now.total()
            - s.latest_commit_at.total() >= s.rule.min_minutes_after_commit * 60_000_000_000
            && s.ci_green && !s.blocking_feedback,
{
    let a = s.now.total() - s.latest_commit_at.total();
    let b = 60_000_000_000int;
    clock::law_rounding_goes_towards_zero(a, b);
}

/// Nothing is known of a bot that was not heard of, and the bots go by their names.
pub proof fn law_bots_go_by_their_names(v: Seq<ReviewBotDescriptor>, i: int)
    ensures
        ReviewBotKey::Gemini.name() == "gemini"@,
        ReviewBotKey::Codex.name() == "codex"@,
        !no_signals().seen,
        no_signals().review_at is None,
        no_signals().review_state is None,
        no_signals().review_body is None,
        no_signals().comment_at is None,
        no_signals().comment_body is None,
        descriptors(v).len() == v.len(),
        0 <= i < v.len() ==> descriptors(v)[i] == v[i]@ && v[i]@.key == v[i].key
            && v[i]@.reviewer_name == v[i].reviewer_name@ && v[i]@.review_command
            == v[i].review_command@,
{
}

} // verus!
