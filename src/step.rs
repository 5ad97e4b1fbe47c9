//! The step controller: for one step, the execute phase (execute or skip, then
//! retry or ignore after a failed call) followed by the check phase (recheck
//! or go on to the next step), as a state machine driven by its caller.

use vstd::prelude::*;
use crate::prompt::same_text;

verus! {

/// What processing one step tells the run: go on, or stop the whole run.
#[derive(Clone, Copy, Debug, PartialEq, Eq, Structural)]
pub enum RunOutcome {
    Continue,
    Terminate,
}

/// The three questions the controller puts to the operator.
#[derive(Clone, Copy, Debug, PartialEq, Eq, Structural)]
pub enum Question {
    ExecuteOrSkip,
    RetryOrIgnore,
    RecheckOrNext,
}

/// Where a step stands.
#[derive(Clone, Copy, Debug, PartialEq, Eq, Structural)]
pub enum Phase {
    AwaitExecuteDecision,
    Executing,
    AwaitRetryDecision,
    Checking,
    AwaitRecheckDecision,
    Done(RunOutcome),
}

/// One named unit of work: a command that changes something, and a command
/// that looks at the result.
#[derive(Debug)]
pub struct Step {
    pub name: String,
    pub execute: String,
    pub check: String,
}

/// What the controller asks its caller to do next.
#[derive(Debug)]
pub enum Action {
    /// Put the question to the operator and report the accepted answer.
    Ask(Question),
    /// Send the step's execute command and report whether it succeeded.
    Execute(String),
    /// Send the step's check command and report when it has returned.
    Check(String),
    /// The step is over, with this outcome.
    Finish(RunOutcome),
}

/// The model of an `Action`.
pub enum Request {
    Ask(Question),
    Execute(Seq<char>),
    Check(Seq<char>),
    Finish(RunOutcome),
}

impl View for Action {
    type V = Request;

    open spec fn view(&self) -> Request {
        match self {
            Action::Ask(q) => Request::Ask(*q),
            Action::Execute(c) => Request::Execute(c@),
            Action::Check(c) => Request::Check(c@),
            Action::Finish(o) => Request::Finish(*o),
        }
    }
}

/// What the caller reports to the controller.
pub enum Event {
    /// The operator's accepted answer.
    Answer(Seq<char>),
    /// The remote call returned; `true` when the endpoint reported success.
    CallFinished(bool),
}

/// The model of a step in progress, with a tally of what has happened so far.
pub struct StepState {
    pub phase: Phase,
    pub execute_text: Seq<char>,
    pub check_text: Seq<char>,
    /// Execute commands sent.
    pub execute_calls: nat,
    /// Check commands sent.
    pub check_calls: nat,
    /// "retry" answers given after a failed execute call.
    pub retries: nat,
    /// "recheck" answers given after a check call.
    pub rechecks: nat,
}

/// The text of a one-character token.
pub open spec fn token(c: char) -> Seq<char> {
    seq![c]
}

/// The tokens that answer a question.
pub open spec fn question_tokens(q: Question) -> Seq<Seq<char>> {
    match q {
        Question::ExecuteOrSkip => seq![token('E'), token('S')],
        Question::RetryOrIgnore => seq![token('R'), token('I')],
        Question::RecheckOrNext => seq![token('R'), token('N')],
    }
}

/// A step before anything has happened to it.
pub open spec fn initial(execute_text: Seq<char>, check_text: Seq<char>) -> StepState {
    StepState {
        phase: Phase::AwaitExecuteDecision,
        execute_text,
        check_text,
        execute_calls: 0,
        check_calls: 0,
        retries: 0,
        rechecks: 0,
    }
}

/// A step whose execute command is being sent (once more).
pub open spec fn start_execute(s: StepState) -> StepState {
    StepState { phase: Phase::Executing, execute_calls: s.execute_calls + 1, ..s }
}

/// A step whose check command is being sent (once more).
pub open spec fn start_check(s: StepState) -> StepState {
    StepState { phase: Phase::Checking, check_calls: s.check_calls + 1, ..s }
}

pub open spec fn finish(s: StepState, o: RunOutcome) -> StepState {
    StepState { phase: Phase::Done(o), ..s }
}

/// One transition. An event that does not fit the phase changes nothing.
///
/// Execute ("E") sends the execute command; skip ("S") ends the step at once,
/// and any other answer there ends the whole run. A failed execute call asks to
/// retry or ignore: ignore ("I") goes on to the check, anything else sends the
/// same command again. A successful one goes straight to the check. After each
/// check call, next ("N") ends the step and anything else checks again.
pub open spec fn next(s: StepState, e: Event) -> StepState {
    match s.phase {
        Phase::AwaitExecuteDecision => match e {
            Event::Answer(a) => if a == token('E') {
                start_execute(s)
            } else if a == token('S') {
                finish(s, RunOutcome::Continue)
            } else {
                finish(s, RunOutcome::Terminate)
            },
            Event::CallFinished(_) => s,
        },
        Phase::Executing => match e {
            Event::CallFinished(ok) => if ok {
                start_check(s)
            } else {
                StepState { phase: Phase::AwaitRetryDecision, ..s }
            },
            Event::Answer(_) => s,
        },
        Phase::AwaitRetryDecision => match e {
            Event::Answer(a) => if a == token('I') {
                start_check(s)
            } else {
                StepState { retries: s.retries + 1, ..start_execute(s) }
            },
            Event::CallFinished(_) => s,
        },
        Phase::Checking => match e {
            Event::CallFinished(_) => StepState { phase: Phase::AwaitRecheckDecision, ..s },
            Event::Answer(_) => s,
        },
        Phase::AwaitRecheckDecision => match e {
            Event::Answer(a) => if a == token('N') {
                finish(s, RunOutcome::Continue)
            } else {
                StepState { rechecks: s.rechecks + 1, ..start_check(s) }
            },
            Event::CallFinished(_) => s,
        },
        Phase::Done(_) => s,
    }
}

/// The state after a sequence of events, in order.
pub open spec fn replay(s: StepState, events: Seq<Event>) -> StepState
    decreases events.len(),
{
    if events.len() == 0 {
        s
    } else {
        next(replay(s, events.drop_last()), events.last())
    }
}

/// What a step in a given state asks for.
pub open spec fn request_of(s: StepState) -> Request {
    match s.phase {
        Phase::AwaitExecuteDecision => Request::Ask(Question::ExecuteOrSkip),
        Phase::Executing => Request::Execute(s.execute_text),
        Phase::AwaitRetryDecision => Request::Ask(Question::RetryOrIgnore),
        Phase::Checking => Request::Check(s.check_text),
        Phase::AwaitRecheckDecision => Request::Ask(Question::RecheckOrNext),
        Phase::Done(o) => Request::Finish(o),
    }
}

proof fn lemma_token_literals()
    ensures
        "E"@ == token('E'),
        "S"@ == token('S'),
        "R"@ == token('R'),
        "I"@ == token('I'),
        "N"@ == token('N'),
{
    reveal_strlit("E");
    reveal_strlit("S");
    reveal_strlit("R");
    reveal_strlit("I");
    reveal_strlit("N");
    assert("E"@ =~= token('E'));
    assert("S"@ =~= token('S'));
    assert("R"@ =~= token('R'));
    assert("I"@ =~= token('I'));
    assert("N"@ =~= token('N'));
}

/// How many calls a step has made, against the operator's answers: the
/// execute command is sent once, plus once per "retry", as soon as the step is
/// executed; the check command once, plus once per "recheck", as soon as the
/// check phase is entered; and a step that ended without being executed sent
/// neither.
pub open spec fn tally_consistent(s: StepState) -> bool {
    let executed = s.execute_calls == 1 + s.retries;
    let checked = s.check_calls == 1 + s.rechecks;
    let untouched = s.execute_calls == 0 && s.check_calls == 0 && s.retries == 0 && s.rechecks == 0;
    let unchecked = s.check_calls == 0 && s.rechecks == 0;
    match s.phase {
        Phase::AwaitExecuteDecision => untouched,
        Phase::Executing => executed && unchecked,
        Phase::AwaitRetryDecision => executed && unchecked,
        Phase::Checking => executed && checked,
        Phase::AwaitRecheckDecision => executed && checked,
        Phase::Done(_) => untouched || (executed && checked),
    }
}

proof fn lemma_next_keeps_tally(s: StepState, e: Event)
    requires
        tally_consistent(s),
    ensures
        tally_consistent(next(s, e)),
        next(s, e).execute_text == s.execute_text,
        next(s, e).check_text == s.check_text,
{
}

/// Whatever the operator answers and whatever the endpoint reports, a step
/// keeps its commands, and its calls stay in step with the answers: the
/// check command is sent exactly once plus once per "recheck" (and the execute
/// command exactly once plus once per "retry") from the moment its phase
/// begins, and not at all before.
pub proof fn lemma_call_tally(execute_text: Seq<char>, check_text: Seq<char>, events: Seq<Event>)
    ensures
        tally_consistent(replay(initial(execute_text, check_text), events)),
        replay(initial(execute_text, check_text), events).execute_text == execute_text,
        replay(initial(execute_text, check_text), events).check_text == check_text,
    decreases events.len(),
{
    if events.len() > 0 {
        lemma_call_tally(execute_text, check_text, events.drop_last());
        lemma_next_keeps_tally(
            replay(initial(execute_text, check_text), events.drop_last()),
            events.last(),
        );
    }
}

/// A skipped step never reaches its check: when the first answer is "skip",
/// then whatever is reported afterwards the step has ended with `Continue`,
/// and neither its execute command nor its check command was ever sent.
pub proof fn lemma_skip_never_checks(
    execute_text: Seq<char>,
    check_text: Seq<char>,
    events: Seq<Event>,
)
    requires
        events.len() > 0,
        events[0] == Event::Answer(token('S')),
    ensures
        replay(initial(execute_text, check_text), events) == finish(
            initial(execute_text, check_text),
            RunOutcome::Continue,
        ),
        replay(initial(execute_text, check_text), events).check_calls == 0,
        replay(initial(execute_text, check_text), events).execute_calls == 0,
    decreases events.len(),
{
    let s0 = initial(execute_text, check_text);
    assert(token('S') != token('E')) by {
        assert(token('S')[0] != token('E')[0]);
    }
    if events.len() == 1 {
        assert(events.drop_last() =~= Seq::<Event>::empty());
        assert(events.last() == events[0]);
        assert(replay(s0, events.drop_last()) == s0);
    } else {
        assert(events.drop_last()[0] == events[0]);
        lemma_skip_never_checks(execute_text, check_text, events.drop_last());
    }
}

/// After a failed execute call the operator chooses: "ignore" goes on to the
/// check phase although the call failed, sending the check command; "retry"
/// sends the execute command again, with the very same text.
pub proof fn lemma_retry_or_ignore(s: StepState)
    requires
        s.phase == Phase::Executing,
    ensures
        next(s, Event::CallFinished(false)).phase == Phase::AwaitRetryDecision,
        ({
            let failed = next(s, Event::CallFinished(false));
            let ignored = next(failed, Event::Answer(token('I')));
            let retried = next(failed, Event::Answer(token('R')));
            &&& ignored.phase == Phase::Checking
            &&& request_of(ignored) == Request::Check(s.check_text)
            &&& ignored.check_calls == s.check_calls + 1
            &&& retried.phase == Phase::Executing
            &&& request_of(retried) == Request::Execute(s.execute_text)
            &&& retried.execute_calls == s.execute_calls + 1
            &&& retried.retries == s.retries + 1
        }),
{
    assert(token('I') != token('R')) by {
        assert(token('I')[0] != token('R')[0]);
    }
}

/// After each check call the operator chooses: "next" always ends the check
/// loop, and the step, with `Continue`; "recheck" sends the same check command
/// once more, whatever the earlier check reported.
pub proof fn lemma_recheck_or_next(s: StepState, reported: bool)
    requires
        s.phase == Phase::Checking,
    ensures
        next(s, Event::CallFinished(reported)).phase == Phase::AwaitRecheckDecision,
        ({
            let checked = next(s, Event::CallFinished(reported));
            let done = next(checked, Event::Answer(token('N')));
            let again = next(checked, Event::Answer(token('R')));
            &&& done.phase == Phase::Done(RunOutcome::Continue)
            &&& request_of(done) == Request::Finish(RunOutcome::Continue)
            &&& done.check_calls == s.check_calls
            &&& again.phase == Phase::Checking
            &&& request_of(again) == Request::Check(s.check_text)
            &&& again.check_calls == s.check_calls + 1
            &&& again.rechecks == s.rechecks + 1
        }),
{
    assert(token('N') != token('R')) by {
        assert(token('N')[0] != token('R')[0]);
    }
}

impl Question {
    /// The tokens that answer this question, to hand to the prompt.
    pub fn tokens(&self) -> (r: Vec<&'static str>)
        ensures
            crate::prompt::token_texts(r@) == question_tokens(*self),
    {
        proof {
            lemma_token_literals();
        }
        let r = match self {
            Question::ExecuteOrSkip => vec!["E", "S"],
            Question::RetryOrIgnore => vec!["R", "I"],
            Question::RecheckOrNext => vec!["R", "N"],
        };
        assert(crate::prompt::token_texts(r@) =~= question_tokens(*self));
        r
    }
}

/// Drives one step. Its caller asks for the `request`, performs it, and
/// reports the answer or the call's result, until the request is `Finish`.
pub struct StepController {
    execute: String,
    check: String,
    phase: Phase,
    execute_calls: Ghost<nat>,
    check_calls: Ghost<nat>,
    retries: Ghost<nat>,
    rechecks: Ghost<nat>,
}

impl View for StepController {
    type V = StepState;

    closed spec fn view(&self) -> StepState {
        StepState {
            phase: self.phase,
            execute_text: self.execute@,
            check_text: self.check@,
            execute_calls: self.execute_calls@,
            check_calls: self.check_calls@,
            retries: self.retries@,
            rechecks: self.rechecks@,
        }
    }
}

impl StepController {
    /// A controller for `step`, waiting for the execute-or-skip decision.
    pub fn new(step: &Step) -> (r: StepController)
        ensures
            r@ == initial(step.execute@, step.check@),
    {
        StepController {
            execute: step.execute.clone(),
            check: step.check.clone(),
            phase: Phase::AwaitExecuteDecision,
            execute_calls: Ghost(0),
            check_calls: Ghost(0),
            retries: Ghost(0),
            rechecks: Ghost(0),
        }
    }

    /// Where the step stands.
    pub fn phase(&self) -> (r: Phase)
        ensures
            r == self@.phase,
    {
        self.phase
    }

    /// What the caller must do next.
    pub fn request(&self) -> (r: Action)
        ensures
            r@ == request_of(self@),
    {
        match self.phase {
            Phase::AwaitExecuteDecision => Action::Ask(Question::ExecuteOrSkip),
            Phase::Executing => Action::Execute(self.execute.clone()),
            Phase::AwaitRetryDecision => Action::Ask(Question::RetryOrIgnore),
            Phase::Checking => Action::Check(self.check.clone()),
            Phase::AwaitRecheckDecision => Action::Ask(Question::RecheckOrNext),
            Phase::Done(o) => Action::Finish(o),
        }
    }

    fn begin_execute(&mut self)
        ensures
            final(self)@ == start_execute(old(self)@),
    {
        self.phase = Phase::Executing;
        self.execute_calls = Ghost(self.execute_calls@ + 1);
    }

    fn begin_check(&mut self)
        ensures
            final(self)@ == start_check(old(self)@),
    {
        self.phase = Phase::Checking;
        self.check_calls = Ghost(self.check_calls@ + 1);
    }

    /// Reports the operator's answer to the question asked.
    pub fn answer(&mut self, answer: &str)
        ensures
            final(self)@ == next(old(self)@, Event::Answer(answer@)),
    {
        proof {
            lemma_token_literals();
        }
        match self.phase {
            Phase::AwaitExecuteDecision => {
                if same_text(answer, "E") {
                    self.begin_execute();
                } else if same_text(answer, "S") {
                    self.phase = Phase::Done(RunOutcome::Continue);
                } else {
                    self.phase = Phase::Done(RunOutcome::Terminate);
                }
            },
            Phase::AwaitRetryDecision => {
                if same_text(answer, "I") {
                    self.begin_check();
                } else {
                    self.begin_execute();
                    self.retries = Ghost(self.retries@ + 1);
                }
            },
            Phase::AwaitRecheckDecision => {
                if same_text(answer, "N") {
                    self.phase = Phase::Done(RunOutcome::Continue);
                } else {
                    self.begin_check();
                    self.rechecks = Ghost(self.rechecks@ + 1);
                }
            },
            _ => {},
        }
    }

    /// Reports that the remote call asked for has returned, and whether the
    /// endpoint reported success. A check call's result changes nothing but
    /// the phase.
    pub fn call_finished(&mut self, success: bool)
        ensures
            final(self)@ == next(old(self)@, Event::CallFinished(success)),
    {
        match self.phase {
            Phase::Executing => {
                if success {
                    self.begin_check();
                } else {
                    self.phase = Phase::AwaitRetryDecision;
                }
            },
            Phase::Checking => {
                self.phase = Phase::AwaitRecheckDecision;
            },
            _ => {},
        }
    }
}

} // verus!
