//! The project's tests, which have to pass before a review's approval counts.
//!
//! [`TestGate`] says which command is run next; its caller runs it.

use crate::text;
use vstd::prelude::*;
use vstd::string::*;

verus! {

/// How a command ended.
#[derive(Debug)]
pub enum CommandResult {
    Passed,
    /// It ended with another exit code than zero.
    Failed { code: i32, stdout: String, stderr: String },
    /// It could not be started.
    NotStarted { error: String },
    /// It could not be waited for.
    NotAwaited { error: String },
    /// It took too long.
    TimedOut,
}

/// What a [`CommandResult`] holds.
pub enum ResultView {
    Passed,
    Failed { code: int, stdout: Seq<char>, stderr: Seq<char> },
    NotStarted { error: Seq<char> },
    NotAwaited { error: Seq<char> },
    TimedOut,
}

impl View for CommandResult {
    type V = ResultView;

    open spec fn view(&self) -> ResultView {
        match self {
            CommandResult::Passed => ResultView::Passed,
            CommandResult::Failed { code, stdout, stderr } => ResultView::Failed {
                code: *code as int,
                stdout: stdout@,
                stderr: stderr@,
            },
            CommandResult::NotStarted { error } => ResultView::NotStarted { error: error@ },
            CommandResult::NotAwaited { error } => ResultView::NotAwaited { error: error@ },
            CommandResult::TimedOut => ResultView::TimedOut,
        }
    }
}

/// What a command's end means for the test gate: nothing where it passed, else an error.
pub open spec fn command_error(cmd: Seq<char>, result: ResultView, timeout_secs: nat) -> Option<
    Seq<char>,
> {
    match result {
        ResultView::Passed => None,
        ResultView::Failed { code, stdout, stderr } => Some(
            "Test gate failed (exit "@ + text::signed_decimal(code) + ")\nstdout:\n"@ + stdout
                + "\nstderr:\n"@ + stderr,
        ),
        ResultView::NotStarted { error } => Some(
            "test gate: failed to spawn `"@ + cmd + "`: "@ + error,
        ),
        ResultView::NotAwaited { error } => Some(
            "test gate: `"@ + cmd + "` failed to wait: "@ + error,
        ),
        ResultView::TimedOut => Some(
            "Test gate timed out after "@ + text::decimal(timeout_secs) + "s (command: `"@ + cmd
                + "`)"@,
        ),
    }
}

/// What a command's end means for the test gate.
pub fn command_error_text(cmd: &str, result: CommandResult, timeout_secs: u64) -> (r: Option<
    String,
>)
    ensures
        text::opt_view(r) == command_error(cmd@, result@, timeout_secs as nat),
{
    match result {
        CommandResult::Passed => None,
        CommandResult::Failed { code, stdout, stderr } => {
            let mut e = "Test gate failed (exit ".to_owned();
            e.append(text::signed_decimal_text(code).as_str());
            e.append(")\nstdout:\n");
            e.append(stdout.as_str());
            e.append("\nstderr:\n");
            e.append(stderr.as_str());
            Some(e)
        },
        CommandResult::NotStarted { error } => {
            let mut e = "test gate: failed to spawn `".to_owned();
            e.append(cmd);
            e.append("`: ");
            e.append(error.as_str());
            Some(e)
        },
        CommandResult::NotAwaited { error } => {
            let mut e = "test gate: `".to_owned();
            e.append(cmd);
            e.append("` failed to wait: ");
            e.append(error.as_str());
            Some(e)
        },
        CommandResult::TimedOut => {
            let mut e = "Test gate timed out after ".to_owned();
            e.append(text::decimal_text(timeout_secs).as_str());
            e.append("s (command: `");
            e.append(cmd);
            e.append("`)");
            Some(e)
        },
    }
}

/// The first objection to one of the project's commands.
pub open spec fn first_objection(objections: Seq<Option<Seq<char>>>) -> Option<Seq<char>>
    decreases objections.len(),
{
    if objections.len() == 0 {
        None
    } else if objections[0] is Some {
        objections[0]
    } else {
        first_objection(objections.drop_first())
    }
}

/// The views of a list of optional strings.
pub open spec fn opt_texts(v: Seq<Option<String>>) -> Seq<Option<Seq<char>>> {
    Seq::new(v.len(), |i: int| text::opt_view(v[i]))
}

fn find_objection(objections: &Vec<Option<String>>) -> (r: Option<String>)
    ensures
        text::opt_view(r) == first_objection(opt_texts(objections@)),
{
    let ghost all = opt_texts(objections@);
    let mut i: usize = 0;
    assert(all.skip(0) == all);
    while i < objections.len()
        invariant
            i <= objections.len(),
            all == opt_texts(objections@),
            first_objection(all) == first_objection(all.skip(i as int)),
        decreases objections.len() - i,
    {
        assert(all.skip(i as int)[0] == all[i as int]);
        assert(all.skip(i as int).drop_first() == all.skip(i + 1));
        if objections[i].is_some() {
            return text::copy_opt(&objections[i]);
        }
        i += 1;
    }
    None
}

/// The commands of the test gate: those that the project names, if there is no objection to
/// any of them; else the one that its language suggests; else none.
pub open spec fn commands(
    custom: Seq<Seq<char>>,
    objections: Seq<Option<Seq<char>>>,
    detected: Option<Seq<char>>,
) -> Result<Seq<Seq<char>>, Seq<char>> {
    if custom.len() > 0 {
        match first_objection(objections) {
            Some(e) => Err("test gate: command rejected by safety check: "@ + e),
            None => Ok(custom),
        }
    } else {
        match detected {
            Some(cmd) => Ok(seq![cmd]),
            None => Ok(seq![]),
        }
    }
}

/// A gate on its way through its commands.
#[derive(Debug)]
pub struct TestGate {
    commands: Vec<String>,
    timeout_secs: u64,
    done: usize,
}

impl TestGate {
    /// The commands.
    pub closed spec fn commands(self) -> Seq<Seq<char>> {
        text::texts(self.commands@)
    }

    /// The seconds that a command may take.
    pub closed spec fn timeout(self) -> nat {
        self.timeout_secs as nat
    }

    /// How many commands passed.
    pub closed spec fn done(self) -> nat {
        self.done as nat
    }

    #[verifier::type_invariant]
    spec fn valid(self) -> bool {
        self.done <= self.commands@.len()
    }

    /// Whether every command passed.
    pub open spec fn passed(self) -> bool {
        self.done() >= self.commands().len()
    }

    /// A gate. `objections` holds, for each of the project's commands, what speaks
    /// against running it; `detected` is the command that the project's language
    /// suggests.
    pub fn new(
        custom: Vec<String>,
        objections: &Vec<Option<String>>,
        detected: Option<String>,
        timeout_secs: u64,
    ) -> (r: Result<TestGate, String>)
        ensures
            match r {
                Ok(gate) => Ok::<Seq<Seq<char>>, Seq<char>>(gate.commands()) == commands(
                    text::texts(custom@),
                    opt_texts(objections@),
                    text::opt_view(detected),
                ) && gate.timeout() == timeout_secs && gate.done() == 0,
                Err(e) => Err::<Seq<Seq<char>>, Seq<char>>(e@) == commands(
                    text::texts(custom@),
                    opt_texts(objections@),
                    text::opt_view(detected),
                ),
            },
    {
        if custom.len() > 0 {
            match find_objection(objections) {
                Some(o) => {
                    let mut e = "test gate: command rejected by safety check: ".to_owned();
                    e.append(o.as_str());
                    Err(e)
                },
                None => Ok(TestGate { commands: custom, timeout_secs, done: 0 }),
            }
        } else {
            let mut commands: Vec<String> = Vec::new();
            match detected {
                Some(cmd) => {
                    commands.push(cmd);
                    assert(text::texts(commands@) == seq![cmd@]);
                },
                None => {
                    assert(text::texts(commands@) == Seq::<Seq<char>>::empty());
                },
            }
            Ok(TestGate { commands, timeout_secs, done: 0 })
        }
    }

    /// The command to run next; none where all have passed.
    pub fn next_command(&self) -> (r: Option<String>)
        ensures
            text::opt_view(r) == (if self.passed() {
                None
            } else {
                Some(self.commands()[self.done() as int])
            }),
    {
        if self.done < self.commands.len() {
            Some(self.commands[self.done].clone())
        } else {
            None
        }
    }

    /// Takes the end of the command that was run. An error closes the test gate.
    pub fn command_ended(&mut self, result: CommandResult) -> (r: Option<String>)
        requires
            !old(self).passed(),
        ensures
            text::opt_view(r) == command_error(
                old(self).commands()[old(self).done() as int],
                result@,
                old(self).timeout(),
            ),
            final(self).commands() == old(self).commands(),
            final(self).timeout() == old(self).timeout(),
            final(self).done() == old(self).done() + (if r is None {
                1int
            } else {
                0int
            }),
    {
        let error = command_error_text(
            self.commands[self.done].as_str(),
            result,
            self.timeout_secs,
        );
        let total: usize = self.commands.len();
        if error.is_none() && self.done < total {
            self.done = self.done + 1;
        }
        error
    }
}

/// A command counts as passed exactly when it ended with exit code zero in time.
pub proof fn law_only_success_opens_the_gate(cmd: Seq<char>, result: ResultView, timeout_secs: nat)
    ensures
        command_error(cmd, result, timeout_secs) is None <==> result is Passed,
{
}

/// None of a project's commands is run where there is an objection to one of them.
pub proof fn law_objection_closes_the_gate(
    custom: Seq<Seq<char>>,
    objections: Seq<Option<Seq<char>>>,
    detected: Option<Seq<char>>,
)
    requires
        custom.len() > 0,
    ensures
        commands(custom, objections, detected) is Err <==> exists|i: int|
            0 <= i < objections.len() && #[trigger] objections[i] is Some,
{
    lemma_first_objection(objections);
}

proof fn lemma_first_objection(objections: Seq<Option<Seq<char>>>)
    ensures
        first_objection(objections) is Some <==> exists|i: int|
            0 <= i < objections.len() && #[trigger] objections[i] is Some,
    decreases objections.len(),
{
    if objections.len() > 0 {
        let rest = objections.drop_first();
        lemma_first_objection(rest);
        if objections[0] is None {
            if exists|i: int| 0 <= i < objections.len() && #[trigger] objections[i] is Some {
                let i = choose|i: int| 0 <= i < objections.len() && #[trigger] objections[i] is Some;
                assert(rest[i - 1] == objections[i]);
            }
            if exists|i: int| 0 <= i < rest.len() && #[trigger] rest[i] is Some {
                let i = choose|i: int| 0 <= i < rest.len() && #[trigger] rest[i] is Some;
                assert(objections[i + 1] == rest[i]);
            }
        }
    }
}

/// What went wrong with a command is told whole: what it wrote, which command it was, why it
/// did not run, and how long it had.
pub proof fn law_failed_command_is_told_whole(
    cmd: Seq<char>,
    code: int,
    stdout: Seq<char>,
    stderr: Seq<char>,
    error: Seq<char>,
    timeout_secs: nat,
)
    ensures
        command_error(cmd, ResultView::Failed { code, stdout, stderr }, timeout_secs) == Some(
            "Test gate failed (exit "@ + text::signed_decimal(code) + ")\nstdout:\n"@ + stdout
                + "\nstderr:\n"@ + stderr,
        ),
        command_error(cmd, ResultView::NotStarted { error }, timeout_secs) == Some(
            "test gate: failed to spawn `"@ + cmd + "`: "@ + error,
        ),
        command_error(cmd, ResultView::NotAwaited { error }, timeout_secs) == Some(
            "test gate: `"@ + cmd + "` failed to wait: "@ + error,
        ),
        command_error(cmd, ResultView::TimedOut, timeout_secs) == Some(
            "Test gate timed out after "@ + text::decimal(timeout_secs) + "s (command: `"@ + cmd
                + "`)"@,
        ),
{
}

/// The project's own commands are run in their order where it names any; else the one that
/// its language suggests, if it suggests one.
pub proof fn law_project_names_its_commands(
    custom: Seq<Seq<char>>,
    quiet: Seq<Option<Seq<char>>>,
    detected: Option<Seq<char>>,
)
    requires
        forall|i: int| 0 <= i < quiet.len() ==> #[trigger] quiet[i] is None,
    ensures
        custom.len() > 0 ==> commands(custom, quiet, detected) == Ok::<
            Seq<Seq<char>>,
            Seq<char>,
        >(custom),
        custom.len() == 0 && detected is Some ==> commands(custom, quiet, detected) == Ok::<
            Seq<Seq<char>>,
            Seq<char>,
        >(seq![detected->0]),
        custom.len() == 0 && detected is None ==> commands(custom, quiet, detected) == Ok::<
            Seq<Seq<char>>,
            Seq<char>,
        >(seq![]),
{
    lemma_first_objection(quiet);
}

/// The first objection is the one that is told.
pub proof fn law_first_objection_is_told(
    custom: Seq<Seq<char>>,
    before: Seq<Option<Seq<char>>>,
    objection: Seq<char>,
    after: Seq<Option<Seq<char>>>,
    detected: Option<Seq<char>>,
)
    requires
        custom.len() > 0,
        forall|i: int| 0 <= i < before.len() ==> #[trigger] before[i] is None,
    ensures
        commands(custom, before.push(Some(objection)) + after, detected) == Err::<
            Seq<Seq<char>>,
            Seq<char>,
        >("test gate: command rejected by safety check: "@ + objection),
    decreases before.len(),
{
    let all = before.push(Some(objection)) + after;
    if before.len() == 0 {
        assert(all[0] == Some(objection));
    } else {
        let less = before.drop_first();
        assert(all[0] == before[0]);
        assert(all.drop_first() == less.push(Some(objection)) + after);
        assert forall|i: int| 0 <= i < less.len() implies #[trigger] less[i] is None by {
            assert(less[i] == before[i + 1]);
        }
        law_first_objection_is_told(custom, less, objection, after, detected);
    }
}

/// Objections are seen as they are, in their order.
pub proof fn law_objections_are_seen_in_order(v: Seq<Option<String>>, i: int)
    ensures
        opt_texts(v).len() == v.len(),
        0 <= i < v.len() && v[i] is None ==> opt_texts(v)[i] is None,
        0 <= i < v.len() ==> (v[i] matches Some(s) ==> opt_texts(v)[i] == Some(s@)),
{
}

} // verus!
