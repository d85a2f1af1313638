//! Those who look at a turn before and after it, and may object.
//!
//! They are asked one after the other: [`PreExecute`] and [`PostCheck`] say who is to be
//! asked next, and nobody is asked once the matter is decided.

use crate::events::Decision;
use crate::text;
use vstd::prelude::*;
use vstd::string::*;

verus! {

/// What one of them says before a turn. `R` is what is asked of the agent.
#[derive(Debug)]
pub struct InterceptAnswer<R> {
    pub name: String,
    pub decision: Decision,
    pub reason: Option<String>,
    /// The request to be used from now on.
    pub request: Option<R>,
}

/// What an [`InterceptAnswer`] holds.
pub struct AnswerView<R> {
    pub name: Seq<char>,
    pub decision: Decision,
    pub reason: Option<Seq<char>>,
    pub request: Option<R>,
}

impl<R> View for InterceptAnswer<R> {
    type V = AnswerView<R>;

    open spec fn view(&self) -> AnswerView<R> {
        AnswerView {
            name: self.name@,
            decision: self.decision,
            reason: text::opt_view(self.reason),
            request: self.request,
        }
    }
}

/// The contents of a list of answers.
pub open spec fn answer_views<R>(v: Seq<InterceptAnswer<R>>) -> Seq<AnswerView<R>> {
    Seq::new(v.len(), |i: int| v[i]@)
}

/// The error of a turn that may not be taken.
pub open spec fn blocked_text<R>(a: AnswerView<R>) -> Seq<char> {
    "Blocked by interceptor '"@ + a.name + "': "@ + (match a.reason {
        Some(r) => r,
        None => a.name,
    })
}

/// What one answer makes of the request: the error of a turn that may not be taken, or
/// the request to go on with, whole as it was given back.
pub open spec fn after_answer<R>(a: AnswerView<R>, request: R) -> Result<R, Seq<char>> {
    if a.decision == Decision::Block {
        Err(blocked_text(a))
    } else {
        match a.request {
            Some(changed) => Ok(changed),
            None => Ok(request),
        }
    }
}

/// The request after all of them were asked in turn, or the error of the first that
/// blocks the turn.
pub open spec fn intercepted<R>(answers: Seq<AnswerView<R>>, request: R) -> Result<R, Seq<char>>
    decreases answers.len(),
{
    if answers.len() == 0 {
        Ok(request)
    } else {
        match after_answer(answers[0], request) {
            Ok(next) => intercepted(answers.drop_first(), next),
            Err(e) => Err(e),
        }
    }
}

/// The view of a result.
pub open spec fn request_result<R>(r: Result<R, String>) -> Result<R, Seq<char>> {
    match r {
        Ok(request) => Ok(request),
        Err(e) => Err(e@),
    }
}

/// What one answer makes of the request.
pub fn take_answer<R>(answer: InterceptAnswer<R>, request: R) -> (r: Result<R, String>)
    ensures
        request_result(r) == after_answer(answer@, request),
{
    if let Decision::Block = answer.decision {
        let mut e = "Blocked by interceptor '".to_owned();
        e.append(answer.name.as_str());
        e.append("': ");
        match answer.reason {
            Some(reason) => e.append(reason.as_str()),
            None => e.append(answer.name.as_str()),
        }
        return Err(e);
    }
    match answer.request {
        Some(changed) => Ok(changed),
        None => Ok(request),
    }
}

/// The request after the answers, or the error of the first that blocks the turn.
pub fn run_pre_execute<R>(answers: Vec<InterceptAnswer<R>>, request: R) -> (r: Result<R, String>)
    ensures
        request_result(r) == intercepted(answer_views(answers@), request),
{
    let ghost all = answer_views(answers@);
    let mut left = answers;
    let mut current = request;
    while left.len() > 0
        invariant
            all == answer_views(answers@),
            intercepted(all, request) == intercepted(answer_views(left@), current),
        decreases left.len(),
    {
        let ghost before = answer_views(left@);
        let answer = left.remove(0);
        assert(before[0] == answer@);
        assert(before.drop_first() == answer_views(left@));
        match take_answer(answer, current) {
            Ok(next) => {
                current = next;
            },
            Err(e) => {
                return Err(e);
            },
        }
    }
    Ok(current)
}

/// The questions before a turn.
#[derive(Debug)]
pub struct PreExecute<R> {
    interceptors: usize,
    asked: usize,
    current: Result<R, String>,
}

/// What the questions before a turn are determined by: how many are to be asked, how
/// many were, and what became of the request.
pub struct PreView<R> {
    pub interceptors: nat,
    pub asked: nat,
    pub current: Result<R, Seq<char>>,
}

impl<R> View for PreExecute<R> {
    type V = PreView<R>;

    closed spec fn view(&self) -> PreView<R> {
        PreView {
            interceptors: self.interceptors as nat,
            asked: self.asked as nat,
            current: request_result(self.current),
        }
    }
}

/// Whose turn it is to be asked. Nobody is asked about a turn that may not be taken.
pub open spec fn next_asked<R>(s: PreView<R>) -> Option<nat> {
    if s.current is Ok && s.asked < s.interceptors {
        Some(s.asked)
    } else {
        None
    }
}

/// The state after one more answer.
pub open spec fn answered<R>(s: PreView<R>, a: AnswerView<R>) -> PreView<R> {
    PreView {
        asked: s.asked + 1,
        current: match s.current {
            Ok(request) => after_answer(a, request),
            Err(e) => Err(e),
        },
        ..s
    }
}

/// The state after these answers, given one after the other.
pub open spec fn after_answers<R>(s: PreView<R>, answers: Seq<AnswerView<R>>) -> PreView<R>
    decreases answers.len(),
{
    if answers.len() == 0 {
        s
    } else {
        after_answers(answered(s, answers[0]), answers.drop_first())
    }
}

impl<R> PreExecute<R> {
    /// The questions to so many interceptors about a request.
    pub fn new(interceptors: usize, request: R) -> (r: PreExecute<R>)
        ensures
            r@ == (PreView { interceptors: interceptors as nat, asked: 0, current: Ok(request) }),
    {
        PreExecute { interceptors, asked: 0, current: Ok(request) }
    }

    /// Who is to be asked next, and the request that they are to be asked about.
    pub fn next(&self) -> (r: Option<(usize, &R)>)
        ensures
            match r {
                None => next_asked(self@) is None,
                Some((i, request)) => next_asked(self@) == Some(i as nat)
                    && self@.current == Ok::<R, Seq<char>>(*request),
            },
    {
        if self.asked >= self.interceptors {
            return None;
        }
        match &self.current {
            Ok(request) => Some((self.asked, request)),
            Err(_) => None,
        }
    }

    /// Takes in the answer of the one who was asked.
    pub fn answer(self, answer: InterceptAnswer<R>) -> (r: PreExecute<R>)
        requires
            next_asked(self@) is Some,
        ensures
            r@ == answered(self@, answer@),
    {
        let current = match self.current {
            Ok(request) => take_answer(answer, request),
            Err(e) => Err(e),
        };
        PreExecute { interceptors: self.interceptors, asked: self.asked + 1, current }
    }

    /// What became of the request.
    pub fn end(self) -> (r: Result<R, String>)
        ensures
            request_result(r) == self@.current,
    {
        self.current
    }
}

/// Asking one after the other gives what the answers give together, and a block is the
/// last thing that is asked for.
pub proof fn law_questions_give_the_intercepted_request<R>(
    s: PreView<R>,
    request: R,
    answers: Seq<AnswerView<R>>,
)
    requires
        s.current == Ok::<R, Seq<char>>(request),
        s.asked + answers.len() == s.interceptors,
    ensures
        after_answers(s, answers).current == intercepted(answers, request),
        next_asked(after_answers(s, answers)) is None,
    decreases answers.len(),
{
    lemma_asked(s, answers);
    if answers.len() > 0 {
        let t = answered(s, answers[0]);
        match after_answer(answers[0], request) {
            Ok(next) => {
                law_questions_give_the_intercepted_request(t, next, answers.drop_first());
            },
            Err(e) => {
                lemma_blocked_stays(t, answers.drop_first());
            },
        }
    }
}

proof fn lemma_asked<R>(s: PreView<R>, answers: Seq<AnswerView<R>>)
    ensures
        after_answers(s, answers).asked == s.asked + answers.len(),
        after_answers(s, answers).interceptors == s.interceptors,
    decreases answers.len(),
{
    if answers.len() > 0 {
        lemma_asked(answered(s, answers[0]), answers.drop_first());
    }
}

proof fn lemma_blocked_stays<R>(s: PreView<R>, answers: Seq<AnswerView<R>>)
    requires
        s.current is Err,
    ensures
        after_answers(s, answers).current == s.current,
    decreases answers.len(),
{
    if answers.len() > 0 {
        lemma_blocked_stays(answered(s, answers[0]), answers.drop_first());
    }
}

/// What one of them says after a turn: an objection, or nothing.
#[derive(Debug)]
pub struct Feedback {
    pub name: String,
    pub objection: Option<String>,
}

/// What a [`Feedback`] holds.
pub struct FeedbackView {
    pub name: Seq<char>,
    pub objection: Option<Seq<char>>,
}

impl View for Feedback {
    type V = FeedbackView;

    open spec fn view(&self) -> FeedbackView {
        FeedbackView { name: self.name@, objection: text::opt_view(self.objection) }
    }
}

/// The contents of a list of feedback.
pub open spec fn feedback_views(v: Seq<Feedback>) -> Seq<FeedbackView> {
    Seq::new(v.len(), |i: int| v[i]@)
}

/// An objection with the name of the one who made it.
pub open spec fn named_objection(f: FeedbackView) -> Option<Seq<char>> {
    match f.objection {
        Some(o) => Some("["@ + f.name + "] "@ + o),
        None => None,
    }
}

/// The first objection, with the name of the one who made it.
pub open spec fn first_objection(v: Seq<FeedbackView>) -> Option<Seq<char>>
    decreases v.len(),
{
    if v.len() == 0 {
        None
    } else if named_objection(v[0]) is Some {
        named_objection(v[0])
    } else {
        first_objection(v.drop_first())
    }
}

fn name_objection(f: &Feedback) -> (r: Option<String>)
    ensures
        text::opt_view(r) == named_objection(f@),
{
    match &f.objection {
        Some(objection) => {
            let mut s = "[".to_owned();
            s.append(f.name.as_str());
            s.append("] ");
            s.append(objection.as_str());
            Some(s)
        },
        None => None,
    }
}

fn find_objection(feedback: &Vec<Feedback>) -> (r: Option<String>)
    ensures
        text::opt_view(r) == first_objection(feedback_views(feedback@)),
{
    let ghost all = feedback_views(feedback@);
    let mut i: usize = 0;
    assert(all.skip(0) == all);
    while i < feedback.len()
        invariant
            i <= feedback.len(),
            all == feedback_views(feedback@),
            first_objection(all) == first_objection(all.skip(i as int)),
        decreases feedback.len() - i,
    {
        assert(all.skip(i as int)[0] == all[i as int]);
        assert(all.skip(i as int).drop_first() == all.skip(i + 1));
        let found = name_objection(&feedback[i]);
        if found.is_some() {
            return found;
        }
        i += 1;
    }
    None
}

/// The first objection to a turn's result.
pub fn run_post_execute(feedback: &Vec<Feedback>) -> (r: Option<String>)
    ensures
        text::opt_view(r) == first_objection(feedback_views(feedback@)),
{
    find_objection(feedback)
}

/// The first objection to the files that a turn wrote.
pub fn run_post_tool_use(feedback: &Vec<Feedback>) -> (r: Option<String>)
    ensures
        text::opt_view(r) == first_objection(feedback_views(feedback@)),
{
    find_objection(feedback)
}

/// The questions after a turn.
#[derive(Debug)]
pub struct PostCheck {
    interceptors: usize,
    asked: usize,
    found: Option<String>,
}

/// What the questions after a turn are determined by.
pub struct PostView {
    pub interceptors: nat,
    pub asked: nat,
    pub found: Option<Seq<char>>,
}

impl View for PostCheck {
    type V = PostView;

    closed spec fn view(&self) -> PostView {
        PostView {
            interceptors: self.interceptors as nat,
            asked: self.asked as nat,
            found: text::opt_view(self.found),
        }
    }
}

/// Whose turn it is to be asked. Nobody is asked behind the first objection.
pub open spec fn next_checked(s: PostView) -> Option<nat> {
    if s.found is None && s.asked < s.interceptors {
        Some(s.asked)
    } else {
        None
    }
}

/// The state after one more answer.
pub open spec fn checked(s: PostView, f: FeedbackView) -> PostView {
    PostView {
        asked: s.asked + 1,
        found: if s.found is Some {
            s.found
        } else {
            named_objection(f)
        },
        ..s
    }
}

/// The state after these answers, given one after the other.
pub open spec fn after_checks(s: PostView, feedback: Seq<FeedbackView>) -> PostView
    decreases feedback.len(),
{
    if feedback.len() == 0 {
        s
    } else {
        after_checks(checked(s, feedback[0]), feedback.drop_first())
    }
}

impl PostCheck {
    /// The questions to so many interceptors.
    pub fn new(interceptors: usize) -> (r: PostCheck)
        ensures
            r@ == (PostView { interceptors: interceptors as nat, asked: 0, found: None }),
    {
        PostCheck { interceptors, asked: 0, found: None }
    }

    /// Who is to be asked next.
    pub fn next(&self) -> (r: Option<usize>)
        ensures
            match r {
                None => next_checked(self@) is None,
                Some(i) => next_checked(self@) == Some(i as nat),
            },
    {
        if self.found.is_none() && self.asked < self.interceptors {
            Some(self.asked)
        } else {
            None
        }
    }

    /// Takes in the answer of the one who was asked.
    pub fn answer(self, feedback: Feedback) -> (r: PostCheck)
        requires
            next_checked(self@) is Some,
        ensures
            r@ == checked(self@, feedback@),
    {
        let found = if self.found.is_some() {
            self.found
        } else {
            name_objection(&feedback)
        };
        PostCheck { interceptors: self.interceptors, asked: self.asked + 1, found }
    }

    /// The first objection.
    pub fn end(self) -> (r: Option<String>)
        ensures
            text::opt_view(r) == self@.found,
    {
        self.found
    }
}

/// Asking one after the other finds the first objection of all.
pub proof fn law_questions_find_the_first_objection(s: PostView, feedback: Seq<FeedbackView>)
    requires
        s.found is None,
    ensures
        after_checks(s, feedback).found == first_objection(feedback),
    decreases feedback.len(),
{
    if feedback.len() > 0 {
        let t = checked(s, feedback[0]);
        if t.found is None {
            law_questions_find_the_first_objection(t, feedback.drop_first());
        } else {
            lemma_found_stays(t, feedback.drop_first());
        }
    }
}

proof fn lemma_found_stays(s: PostView, feedback: Seq<FeedbackView>)
    requires
        s.found is Some,
    ensures
        after_checks(s, feedback).found == s.found,
    decreases feedback.len(),
{
    if feedback.len() > 0 {
        lemma_found_stays(checked(s, feedback[0]), feedback.drop_first());
    }
}

/// Those behind the first one who blocks a turn have no say.
pub proof fn law_first_objection_decides<R>(
    before: Seq<AnswerView<R>>,
    block: AnswerView<R>,
    after: Seq<AnswerView<R>>,
    request: R,
)
    requires
        block.decision == Decision::Block,
        forall|i: int| 0 <= i < before.len() ==> (#[trigger] before[i]).decision != Decision::Block,
    ensures
        intercepted(before.push(block) + after, request) == Err::<R, Seq<char>>(
            blocked_text(block),
        ),
    decreases before.len(),
{
    let all = before.push(block) + after;
    if before.len() == 0 {
        assert(all[0] == block);
    } else {
        assert(all[0] == before[0]);
        assert(all.drop_first() == before.drop_first().push(block) + after);
        let next = match before[0].request {
            Some(changed) => changed,
            None => request,
        };
        assert forall|i: int| 0 <= i < before.drop_first().len() implies (
        #[trigger] before.drop_first()[i]).decision != Decision::Block by {
            assert(before.drop_first()[i] == before[i + 1]);
        }
        law_first_objection_decides(before.drop_first(), block, after, next);
    }
}

/// Where nobody blocks the turn, the request is the one that was given back last, whole as it
/// was; where nobody gives one back, it is the one that was asked about.
pub proof fn law_last_change_of_the_request_counts<R>(
    before: Seq<AnswerView<R>>,
    changed: AnswerView<R>,
    after: Seq<AnswerView<R>>,
    request: R,
)
    requires
        changed.request is Some,
        changed.decision != Decision::Block,
        forall|i: int| 0 <= i < before.len() ==> (#[trigger] before[i]).decision != Decision::Block,
        forall|i: int|
            0 <= i < after.len() ==> (#[trigger] after[i]).decision != Decision::Block
                && after[i].request is None,
    ensures
        intercepted(before.push(changed) + after, request) == Ok::<R, Seq<char>>(
            changed.request->0,
        ),
        intercepted(after, request) == Ok::<R, Seq<char>>(request),
    decreases before.len(),
{
    let all = before.push(changed) + after;
    lemma_quiet(after, request);
    if before.len() == 0 {
        assert(all[0] == changed);
        assert(all.drop_first() == after);
        lemma_quiet(after, changed.request->0);
    } else {
        let less = before.drop_first();
        assert(all[0] == before[0]);
        assert(all.drop_first() == less.push(changed) + after);
        assert forall|i: int| 0 <= i < less.len() implies (#[trigger] less[i]).decision
            != Decision::Block by {
            assert(less[i] == before[i + 1]);
        }
        let next = match before[0].request {
            Some(given) => given,
            None => request,
        };
        law_last_change_of_the_request_counts(less, changed, after, next);
    }
}

proof fn lemma_quiet<R>(answers: Seq<AnswerView<R>>, request: R)
    requires
        forall|i: int|
            0 <= i < answers.len() ==> (#[trigger] answers[i]).decision != Decision::Block
                && answers[i].request is None,
    ensures
        intercepted(answers, request) == Ok::<R, Seq<char>>(request),
    decreases answers.len(),
{
    if answers.len() > 0 {
        let less = answers.drop_first();
        assert(answers[0].request is None);
        assert forall|i: int| 0 <= i < less.len() implies (#[trigger] less[i]).decision
            != Decision::Block && less[i].request is None by {
            assert(less[i] == answers[i + 1]);
        }
        lemma_quiet(less, request);
    }
}

/// The error of a turn that may not be taken names who blocks it, and why; without a reason,
/// the name stands for it.
pub proof fn law_block_names_its_reason<R>(a: AnswerView<R>, request: R)
    requires
        a.decision == Decision::Block,
    ensures
        a.reason matches Some(why) ==> after_answer(a, request) == Err::<R, Seq<char>>(
            "Blocked by interceptor '"@ + a.name + "': "@ + why,
        ),
        a.reason is None ==> after_answer(a, request) == Err::<R, Seq<char>>(
            "Blocked by interceptor '"@ + a.name + "': "@ + a.name,
        ),
{
}

/// The first objection to a turn's result is told with the name of the one who made it; where
/// nobody objects, there is none.
pub proof fn law_first_objector_is_named(
    before: Seq<FeedbackView>,
    name: Seq<char>,
    objection: Seq<char>,
    after: Seq<FeedbackView>,
)
    requires
        forall|i: int| 0 <= i < before.len() ==> (#[trigger] before[i]).objection is None,
    ensures
        first_objection(before) is None,
        first_objection(
            before.push(FeedbackView { name, objection: Some(objection) }) + after,
        ) == Some("["@ + name + "] "@ + objection),
    decreases before.len(),
{
    let f = FeedbackView { name, objection: Some(objection) };
    let all = before.push(f) + after;
    if before.len() == 0 {
        assert(all[0] == f);
    } else {
        let less = before.drop_first();
        assert(before[0].objection is None);
        assert(all[0] == before[0]);
        assert(all.drop_first() == less.push(f) + after);
        assert forall|i: int| 0 <= i < less.len() implies (#[trigger] less[i]).objection is None by {
            assert(less[i] == before[i + 1]);
        }
        law_first_objector_is_named(less, name, objection, after);
    }
}

/// Everybody is asked in turn, until the matter is decided.
pub proof fn law_everybody_is_asked_in_turn<R>(s: PreView<R>, t: PostView)
    ensures
        s.current is Ok && s.asked < s.interceptors ==> next_asked(s) == Some(s.asked),
        s.current is Err || s.asked >= s.interceptors ==> next_asked(s) is None,
        t.found is None && t.asked < t.interceptors ==> next_checked(t) == Some(t.asked),
        t.found is Some || t.asked >= t.interceptors ==> next_checked(t) is None,
{
}

/// Answers and objections are seen with all that they say.
pub proof fn law_answers_are_seen_whole<R>(
    answers: Seq<InterceptAnswer<R>>,
    feedback: Seq<Feedback>,
    i: int,
    request: R,
    e: String,
)
    ensures
        request_result(Ok::<R, String>(request)) == Ok::<R, Seq<char>>(request),
        request_result(Err::<R, String>(e)) == Err::<R, Seq<char>>(e@),
        answer_views(answers).len() == answers.len(),
        0 <= i < answers.len() ==> answer_views(answers)[i].name == answers[i].name@
            && answer_views(answers)[i].decision == answers[i].decision && answer_views(
            answers,
        )[i].reason == text::opt_view(answers[i].reason) && answer_views(answers)[i].request
            == answers[i].request,
        feedback_views(feedback).len() == feedback.len(),
        0 <= i < feedback.len() ==> feedback_views(feedback)[i].name == feedback[i].name@
            && feedback_views(feedback)[i].objection == text::opt_view(feedback[i].objection),
{
}

} // verus!
