//! What is stored of a task, and the changes that a decision makes to it.

use crate::telemetry;
use crate::telemetry::{MarkView, TurnMark};
use crate::text;
use vstd::prelude::*;
use vstd::string::*;

verus! {

/// Where a task stands.
#[derive(Clone, Copy, Debug, PartialEq, Eq, Structural)]
pub enum TaskStatus {
    Pending,
    Implementing,
    AgentReview,
    Waiting,
    Reviewing,
    Done,
    Failed,
    Cancelled,
}

impl TaskStatus {
    /// Whether the task is over.
    pub open spec fn terminal(self) -> bool {
        self == TaskStatus::Done || self == TaskStatus::Failed || self == TaskStatus::Cancelled
    }

    /// Whether the task is over.
    pub fn is_terminal(self) -> (r: bool)
        ensures
            r == self.terminal(),
    {
        matches!(self, TaskStatus::Done | TaskStatus::Failed | TaskStatus::Cancelled)
    }
}

/// Why a turn of an agent failed.
#[derive(Clone, Copy, Debug, PartialEq, Eq, Structural)]
pub enum TurnFailureKind {
    Timeout,
    Quota,
    Billing,
    Upstream,
    LocalProcess,
    Protocol,
    Unknown,
}

impl TurnFailureKind {
    /// Whether a failure of this kind is about the account, so that another try is
    /// of no use.
    pub open spec fn about_account(self) -> bool {
        self == TurnFailureKind::Quota || self == TurnFailureKind::Billing
    }

    /// Whether a failure of this kind is about the account.
    pub fn is_about_account(self) -> (r: bool)
        ensures
            r == self.about_account(),
    {
        matches!(self, TurnFailureKind::Quota | TurnFailureKind::Billing)
    }

    /// The result that is recorded for a turn that failed in this way.
    pub open spec fn label(self) -> Seq<char> {
        match self {
            TurnFailureKind::Quota => "quota_exhausted"@,
            TurnFailureKind::Billing => "billing_failed"@,
            TurnFailureKind::Upstream => "upstream_failure"@,
            _ => "failed"@,
        }
    }

    /// The result that is recorded for a turn that failed in this way.
    pub fn result_label(self) -> (r: &'static str)
        ensures
            r@ == self.label(),
    {
        match self {
            TurnFailureKind::Quota => "quota_exhausted",
            TurnFailureKind::Billing => "billing_failed",
            TurnFailureKind::Upstream => "upstream_failure",
            _ => "failed",
        }
    }
}

/// What kind of failure ended a task, where more than its error is known of it.
#[derive(Clone, Copy, Debug, PartialEq, Eq, Structural)]
pub enum TaskFailureKind {
    Task,
    WorkspaceLifecycle,
}

/// One entry of a task's record.
#[derive(Debug)]
pub struct RoundResult {
    pub turn: u32,
    pub action: String,
    pub result: String,
    pub detail: Option<String>,
    pub mark: TurnMark,
}

/// What a [`RoundResult`] holds.
pub struct RoundView {
    pub turn: nat,
    pub action: Seq<char>,
    pub result: Seq<char>,
    pub detail: Option<Seq<char>>,
    pub mark: MarkView,
}

impl View for RoundResult {
    type V = RoundView;

    open spec fn view(&self) -> RoundView {
        RoundView {
            turn: self.turn as nat,
            action: self.action@,
            result: self.result@,
            detail: text::opt_view(self.detail),
            mark: self.mark@,
        }
    }
}

impl RoundResult {
    /// An entry that says nothing of how the turn went.
    pub fn new(turn: u32, action: &str, result: &str, detail: Option<String>) -> (r: RoundResult)
        ensures
            r@ == (RoundView {
                turn: turn as nat,
                action: action@,
                result: result@,
                detail: text::opt_view(detail),
                mark: telemetry::no_mark(),
            }),
    {
        RoundResult {
            turn,
            action: action.to_owned(),
            result: result.to_owned(),
            detail,
            mark: TurnMark::none(),
        }
    }
}

/// The contents of a list of entries.
pub open spec fn round_views(v: Seq<RoundResult>) -> Seq<RoundView> {
    Seq::new(v.len(), |i: int| v[i]@)
}

/// A change to a stored task. What is `None` stays as it is; the entries are added
/// to the record.
#[derive(Debug)]
pub struct TaskChange {
    pub status: Option<TaskStatus>,
    pub turn: Option<u32>,
    pub error: Option<String>,
    pub failure_kind: Option<TaskFailureKind>,
    /// The pull request that the task is known to have afterwards.
    pub pr_url: Option<Option<String>>,
    pub rounds: Vec<RoundResult>,
}

/// What a [`TaskChange`] holds.
pub struct ChangeView {
    pub status: Option<TaskStatus>,
    pub turn: Option<nat>,
    pub error: Option<Seq<char>>,
    pub failure_kind: Option<TaskFailureKind>,
    pub pr_url: Option<Option<Seq<char>>>,
    pub rounds: Seq<RoundView>,
}

/// The view of what a change does to a task's pull request.
pub open spec fn pr_view(o: Option<Option<String>>) -> Option<Option<Seq<char>>> {
    match o {
        None => None,
        Some(url) => Some(text::opt_view(url)),
    }
}

/// The view of an optional number.
pub open spec fn opt_nat(o: Option<u32>) -> Option<nat> {
    match o {
        None => None,
        Some(n) => Some(n as nat),
    }
}

impl View for TaskChange {
    type V = ChangeView;

    open spec fn view(&self) -> ChangeView {
        ChangeView {
            status: self.status,
            turn: opt_nat(self.turn),
            error: text::opt_view(self.error),
            failure_kind: self.failure_kind,
            pr_url: pr_view(self.pr_url),
            rounds: round_views(self.rounds@),
        }
    }
}

/// The change that alters nothing.
pub open spec fn unchanged() -> ChangeView {
    ChangeView {
        status: None,
        turn: None,
        error: None,
        failure_kind: None,
        pr_url: None,
        rounds: seq![],
    }
}

/// The change to a status, with a turn and an error where they are given.
pub open spec fn moved(
    status: TaskStatus,
    turn: Option<nat>,
    error: Option<Seq<char>>,
) -> ChangeView {
    ChangeView { status: Some(status), turn, error, ..unchanged() }
}

impl ChangeView {
    /// This change with one more entry.
    pub open spec fn and_round(
        self,
        turn: nat,
        action: Seq<char>,
        result: Seq<char>,
        detail: Option<Seq<char>>,
    ) -> ChangeView {
        ChangeView {
            rounds: self.rounds.push(
                RoundView { turn, action, result, detail, mark: telemetry::no_mark() },
            ),
            ..self
        }
    }

    /// This change, whose last entry says how its turn went.
    pub open spec fn marked(self, mark: MarkView) -> ChangeView {
        if self.rounds.len() == 0 {
            self
        } else {
            ChangeView {
                rounds: self.rounds.drop_last().push(RoundView { mark, ..self.rounds.last() }),
                ..self
            }
        }
    }

    /// This change, after which the task has the given pull request, or none.
    pub open spec fn and_pr(self, url: Option<Seq<char>>) -> ChangeView {
        ChangeView { pr_url: Some(url), ..self }
    }

    /// This change with a kind of failure.
    pub open spec fn and_kind(self, kind: TaskFailureKind) -> ChangeView {
        ChangeView { failure_kind: Some(kind), ..self }
    }
}

impl TaskChange {
    /// The change that alters nothing.
    pub fn none() -> (r: TaskChange)
        ensures
            r@ == unchanged(),
    {
        let r = TaskChange {
            status: None,
            turn: None,
            error: None,
            failure_kind: None,
            pr_url: None,
            rounds: Vec::new(),
        };
        assert(r@.rounds == unchanged().rounds);
        r
    }

    /// The change to a status, with a turn and an error where they are given.
    pub fn to(status: TaskStatus, turn: Option<u32>, error: Option<String>) -> (r: TaskChange)
        ensures
            r@ == moved(status, opt_nat(turn), text::opt_view(error)),
    {
        let r = TaskChange {
            status: Some(status),
            turn,
            error,
            failure_kind: None,
            pr_url: None,
            rounds: Vec::new(),
        };
        assert(r@.rounds == Seq::<RoundView>::empty());
        r
    }

    /// This change with one more entry.
    pub fn with_round(
        self,
        turn: u32,
        action: &str,
        result: &str,
        detail: Option<String>,
    ) -> (r: TaskChange)
        ensures
            r@ == self@.and_round(turn as nat, action@, result@, text::opt_view(detail)),
    {
        let ghost before = self@.rounds;
        let mut rounds = self.rounds;
        let entry = RoundResult::new(turn, action, result, detail);
        let ghost e = entry@;
        rounds.push(entry);
        assert(round_views(rounds@) == before.push(e));
        TaskChange {
            status: self.status,
            turn: self.turn,
            error: self.error,
            failure_kind: self.failure_kind,
            pr_url: self.pr_url,
            rounds,
        }
    }

    /// This change, whose last entry says how its turn went.
    pub fn marked(self, mark: TurnMark) -> (r: TaskChange)
        ensures
            r@ == self@.marked(mark@),
    {
        let ghost before = self@.rounds;
        let mut rounds = self.rounds;
        match rounds.pop() {
            Some(last) => {
                let ghost l = last@;
                let entry = RoundResult {
                    turn: last.turn,
                    action: last.action,
                    result: last.result,
                    detail: last.detail,
                    mark,
                };
                let ghost e = entry@;
                assert(l == before.last());
                assert(e == (RoundView { mark: mark@, ..before.last() }));
                assert(round_views(rounds@) == before.drop_last());
                rounds.push(entry);
                assert(round_views(rounds@) == before.drop_last().push(e));
            },
            None => {
                assert(round_views(rounds@) == before);
            },
        }
        TaskChange {
            status: self.status,
            turn: self.turn,
            error: self.error,
            failure_kind: self.failure_kind,
            pr_url: self.pr_url,
            rounds,
        }
    }

    /// This change, after which the task has the given pull request, or none.
    pub fn with_pr(self, url: Option<String>) -> (r: TaskChange)
        ensures
            r@ == self@.and_pr(text::opt_view(url)),
    {
        TaskChange {
            status: self.status,
            turn: self.turn,
            error: self.error,
            failure_kind: self.failure_kind,
            pr_url: Some(url),
            rounds: self.rounds,
        }
    }

    /// This change with a kind of failure.
    pub fn with_kind(self, kind: TaskFailureKind) -> (r: TaskChange)
        ensures
            r@ == self@.and_kind(kind),
    {
        TaskChange {
            status: self.status,
            turn: self.turn,
            error: self.error,
            failure_kind: Some(kind),
            pr_url: self.pr_url,
            rounds: self.rounds,
        }
    }
}

/// A stored task, as far as decisions change it.
#[derive(Debug)]
pub struct TaskRecord {
    pub status: TaskStatus,
    pub turn: u32,
    pub error: Option<String>,
    pub failure_kind: Option<TaskFailureKind>,
    pub pr_url: Option<String>,
    pub rounds: Vec<RoundResult>,
}

/// What a [`TaskRecord`] holds.
pub struct RecordView {
    pub status: TaskStatus,
    pub turn: nat,
    pub error: Option<Seq<char>>,
    pub failure_kind: Option<TaskFailureKind>,
    pub pr_url: Option<Seq<char>>,
    pub rounds: Seq<RoundView>,
}

impl View for TaskRecord {
    type V = RecordView;

    open spec fn view(&self) -> RecordView {
        RecordView {
            status: self.status,
            turn: self.turn as nat,
            error: text::opt_view(self.error),
            failure_kind: self.failure_kind,
            pr_url: text::opt_view(self.pr_url),
            rounds: round_views(self.rounds@),
        }
    }
}

/// A record after a change.
pub open spec fn changed(r: RecordView, c: ChangeView) -> RecordView {
    RecordView {
        status: match c.status {
            Some(s) => s,
            None => r.status,
        },
        turn: match c.turn {
            Some(t) => t,
            None => r.turn,
        },
        error: if c.error is Some {
            c.error
        } else {
            r.error
        },
        failure_kind: if c.failure_kind is Some {
            c.failure_kind
        } else {
            r.failure_kind
        },
        pr_url: match c.pr_url {
            Some(url) => url,
            None => r.pr_url,
        },
        rounds: r.rounds + c.rounds,
    }
}

impl TaskRecord {
    /// A task that nothing has been done for.
    pub fn new() -> (r: TaskRecord)
        ensures
            r@ == (RecordView {
                status: TaskStatus::Pending,
                turn: 0,
                error: None,
                failure_kind: None,
                pr_url: None,
                rounds: seq![],
            }),
    {
        let r = TaskRecord {
            status: TaskStatus::Pending,
            turn: 0,
            error: None,
            failure_kind: None,
            pr_url: None,
            rounds: Vec::new(),
        };
        assert(r@.rounds == Seq::<RoundView>::empty());
        r
    }

    /// Makes a change.
    pub fn apply(&mut self, change: TaskChange)
        ensures
            final(self)@ == changed(old(self)@, change@),
    {
        let ghost before = self@.rounds;
        let ghost more = change@.rounds;
        if let Some(s) = change.status {
            self.status = s;
        }
        if let Some(t) = change.turn {
            self.turn = t;
        }
        if change.error.is_some() {
            self.error = change.error;
        }
        if change.failure_kind.is_some() {
            self.failure_kind = change.failure_kind;
        }
        if let Some(url) = change.pr_url {
            self.pr_url = url;
        }
        let mut rounds = change.rounds;
        self.rounds.append(&mut rounds);
        assert(round_views(self.rounds@) == before + more);
    }
}

/// Two changes made one after the other never lose an entry of the record.
pub proof fn law_record_only_grows(r: RecordView, a: ChangeView, b: ChangeView)
    ensures
        changed(changed(r, a), b).rounds == r.rounds + a.rounds + b.rounds,
{
}

/// A task is over when it is done, failed or cancelled, and at no other time.
pub proof fn law_task_is_over_at_its_ends(s: TaskStatus)
    ensures
        s.terminal() <==> s == TaskStatus::Done || s == TaskStatus::Failed || s
            == TaskStatus::Cancelled,
        s == TaskStatus::Pending || s == TaskStatus::Implementing || s == TaskStatus::AgentReview
            || s == TaskStatus::Waiting || s == TaskStatus::Reviewing ==> !s.terminal(),
{
}

/// A failure is about the account where its quota is used up or its bill is not paid; those
/// and a failure of the service are recorded under names of their own.
pub proof fn law_failures_of_the_account_are_named(k: TurnFailureKind)
    ensures
        k.about_account() <==> k == TurnFailureKind::Quota || k == TurnFailureKind::Billing,
        TurnFailureKind::Quota.label() == "quota_exhausted"@,
        TurnFailureKind::Billing.label() == "billing_failed"@,
        TurnFailureKind::Upstream.label() == "upstream_failure"@,
        !k.about_account() && k != TurnFailureKind::Upstream ==> k.label() == "failed"@,
{
}

/// A change alters what it names and nothing else; what it does not name stays, and no entry
/// of the record is lost.
pub proof fn law_change_alters_what_it_names(r: RecordView, c: ChangeView)
    ensures
        c.status matches Some(s) ==> changed(r, c).status == s,
        c.status is None ==> changed(r, c).status == r.status,
        c.turn matches Some(t) ==> changed(r, c).turn == t,
        c.turn is None ==> changed(r, c).turn == r.turn,
        c.error is Some ==> changed(r, c).error == c.error,
        c.error is None ==> changed(r, c).error == r.error,
        c.failure_kind is Some ==> changed(r, c).failure_kind == c.failure_kind,
        c.failure_kind is None ==> changed(r, c).failure_kind == r.failure_kind,
        c.pr_url matches Some(url) ==> changed(r, c).pr_url == url,
        c.pr_url is None ==> changed(r, c).pr_url == r.pr_url,
        changed(r, c).rounds == r.rounds + c.rounds,
        changed(r, unchanged()) == r,
{
    assert(r.rounds + unchanged().rounds == r.rounds);
}

/// An entry is added behind the others, as it was given, and says nothing yet of how its turn
/// went; the rest of the change stays.
pub proof fn law_entry_is_added_behind_the_others(
    c: ChangeView,
    turn: nat,
    action: Seq<char>,
    result: Seq<char>,
    detail: Option<Seq<char>>,
)
    ensures
        ({
            let d = c.and_round(turn, action, result, detail);
            &&& d.rounds.len() == c.rounds.len() + 1
            &&& d.rounds.take(c.rounds.len() as int) == c.rounds
            &&& d.rounds.last().turn == turn
            &&& d.rounds.last().action == action
            &&& d.rounds.last().result == result
            &&& d.rounds.last().detail == detail
            &&& d.rounds.last().mark.telemetry is None
            &&& d.rounds.last().mark.failure is None
            &&& d.status == c.status
            &&& d.turn == c.turn
            &&& d.error == c.error
            &&& d.failure_kind == c.failure_kind
            &&& d.pr_url == c.pr_url
        }),
{
}

/// How a turn went is said in the last entry and in no other, beside what it says already.
pub proof fn law_mark_goes_to_the_last_entry(c: ChangeView, mark: MarkView)
    ensures
        ({
            let d = c.marked(mark);
            &&& d.rounds.len() == c.rounds.len()
            &&& forall|i: int| 0 <= i < c.rounds.len() - 1 ==> #[trigger] d.rounds[i] == c.rounds[i]
            &&& c.rounds.len() > 0 ==> d.rounds.last().mark == mark && d.rounds.last().turn
                == c.rounds.last().turn && d.rounds.last().action == c.rounds.last().action
                && d.rounds.last().result == c.rounds.last().result && d.rounds.last().detail
                == c.rounds.last().detail
            &&& d.status == c.status
            &&& d.turn == c.turn
            &&& d.error == c.error
            &&& d.failure_kind == c.failure_kind
            &&& d.pr_url == c.pr_url
        }),
{
}

/// A change to a status, a pull request or a kind of failure is that change and no other.
pub proof fn law_changes_name_one_thing(
    c: ChangeView,
    status: TaskStatus,
    turn: Option<nat>,
    error: Option<Seq<char>>,
    url: Option<Seq<char>>,
    kind: TaskFailureKind,
)
    ensures
        moved(status, turn, error).status == Some(status),
        moved(status, turn, error).turn == turn,
        moved(status, turn, error).error == error,
        moved(status, turn, error).failure_kind is None,
        moved(status, turn, error).pr_url is None,
        moved(status, turn, error).rounds.len() == 0,
        c.and_pr(url).pr_url == Some(url),
        (ChangeView { pr_url: c.pr_url, ..c.and_pr(url) }) == c,
        c.and_kind(kind).failure_kind == Some(kind),
        (ChangeView { failure_kind: c.failure_kind, ..c.and_kind(kind) }) == c,
{
}

/// An entry, a change and a record are seen with all that they hold.
pub proof fn law_record_is_seen_whole(e: RoundResult, c: TaskChange, r: TaskRecord, i: int)
    ensures
        e@.turn == e.turn,
        e@.action == e.action@,
        e@.result == e.result@,
        e.detail matches Some(s) ==> e@.detail == Some(s@),
        e.detail is None ==> e@.detail is None,
        e@.mark == e.mark@,
        c@.status == c.status,
        c.turn matches Some(n) ==> c@.turn == Some(n as nat),
        c.turn is None ==> c@.turn is None,
        c.error matches Some(s) ==> c@.error == Some(s@),
        c.error is None ==> c@.error is None,
        c@.failure_kind == c.failure_kind,
        c.pr_url is None ==> c@.pr_url is None,
        c.pr_url matches Some(u) ==> c@.pr_url == Some(text::opt_view(u)),
        c@.rounds.len() == c.rounds@.len(),
        0 <= i < c.rounds@.len() ==> c@.rounds[i] == c.rounds@[i]@,
        r@.status == r.status,
        r@.turn == r.turn,
        r.error matches Some(s) ==> r@.error == Some(s@),
        r.error is None ==> r@.error is None,
        r@.failure_kind == r.failure_kind,
        r.pr_url matches Some(s) ==> r@.pr_url == Some(s@),
        r.pr_url is None ==> r@.pr_url is None,
        r@.rounds.len() == r.rounds@.len(),
        0 <= i < r.rounds@.len() ==> r@.rounds[i] == r.rounds@[i]@,
{
}

} // verus!
