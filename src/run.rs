//! The run driver: processes the steps strictly in order, one at a time, and
//! stops for good at the first step that ends with `Terminate`.

use vstd::prelude::*;
use crate::step::RunOutcome;

verus! {

/// What the driver asks its caller to do next.
#[derive(Clone, Copy, Debug, PartialEq, Eq, Structural)]
pub enum RunAction {
    /// Process the step at this position and report its outcome.
    Process(usize),
    /// The run is over.
    Finished,
}

/// The model of a run: how many steps there are, how many have been
/// processed, and whether a step has stopped the run.
pub struct RunState {
    pub total: nat,
    pub processed: nat,
    pub stopped: bool,
}

/// A run that has not started.
pub open spec fn start(total: nat) -> RunState {
    RunState { total, processed: 0, stopped: false }
}

/// Whether the run is over: stopped, or every step processed.
pub open spec fn is_over(s: RunState) -> bool {
    s.stopped || s.processed >= s.total
}

/// What a run in a given state asks for: the first step not yet processed.
pub open spec fn run_request(s: RunState) -> RunAction {
    if is_over(s) {
        RunAction::Finished
    } else {
        RunAction::Process(s.processed as usize)
    }
}

/// The step being processed reports its outcome. Once the run is over, a
/// report changes nothing.
pub open spec fn record(s: RunState, o: RunOutcome) -> RunState {
    if is_over(s) {
        s
    } else {
        RunState {
            processed: s.processed + 1,
            stopped: o == RunOutcome::Terminate,
            ..s
        }
    }
}

/// The state of a run of `total` steps after the outcomes reported, in order.
pub open spec fn drive(total: nat, outcomes: Seq<RunOutcome>) -> RunState
    decreases outcomes.len(),
{
    if outcomes.len() == 0 {
        start(total)
    } else {
        record(drive(total, outcomes.drop_last()), outcomes.last())
    }
}

proof fn lemma_continues_prefix(total: nat, outcomes: Seq<RunOutcome>, k: nat)
    requires
        k <= outcomes.len(),
        k <= total,
        forall|j: int| 0 <= j < k ==> outcomes[j] == RunOutcome::Continue,
    ensures
        drive(total, outcomes.take(k as int)) == (RunState { total, processed: k, stopped: false }),
    decreases k,
{
    if k > 0 {
        assert(outcomes.take(k as int).drop_last() =~= outcomes.take(k - 1));
        lemma_continues_prefix(total, outcomes, (k - 1) as nat);
    } else {
        assert(outcomes.take(0) =~= Seq::<RunOutcome>::empty());
    }
}

/// While every step continues, the steps run in order, one after another:
/// after `k` reports of `Continue` (no more than there are steps), exactly the
/// first `k` steps have been processed, and the driver asks for the step at
/// position `k`, or ends the run when there is none.
pub proof fn lemma_runs_in_order(total: nat, outcomes: Seq<RunOutcome>)
    requires
        outcomes.len() <= total,
        forall|j: int| 0 <= j < outcomes.len() ==> outcomes[j] == RunOutcome::Continue,
    ensures
        drive(total, outcomes) == (RunState { total, processed: outcomes.len(), stopped: false }),
        run_request(drive(total, outcomes)) == if outcomes.len() < total {
            RunAction::Process(outcomes.len() as usize)
        } else {
            RunAction::Finished
        },
{
    lemma_continues_prefix(total, outcomes, outcomes.len());
    assert(outcomes.take(outcomes.len() as int) =~= outcomes);
}

proof fn lemma_stays_stopped(total: nat, outcomes: Seq<RunOutcome>, i: nat, n: nat)
    requires
        i < n <= outcomes.len(),
        drive(total, outcomes.take(i as int + 1)) == (RunState { total, processed: i + 1, stopped: true }),
    ensures
        drive(total, outcomes.take(n as int)) == (RunState { total, processed: i + 1, stopped: true }),
    decreases n,
{
    if n > i + 1 {
        lemma_stays_stopped(total, outcomes, i, (n - 1) as nat);
        assert(outcomes.take(n as int).drop_last() =~= outcomes.take(n - 1));
    }
}

/// The run stops at the first `Terminate`: when the step at position `i` is
/// the first to report it, exactly the steps up to and including `i` have been
/// processed, whatever else is reported afterwards, and the driver asks for no
/// further step.
pub proof fn lemma_stops_at_first_terminate(total: nat, outcomes: Seq<RunOutcome>, i: nat)
    requires
        i < outcomes.len(),
        i < total,
        outcomes[i as int] == RunOutcome::Terminate,
        forall|j: int| 0 <= j < i ==> outcomes[j] == RunOutcome::Continue,
    ensures
        drive(total, outcomes) == (RunState { total, processed: i + 1, stopped: true }),
        run_request(drive(total, outcomes)) == RunAction::Finished,
{
    lemma_continues_prefix(total, outcomes, i);
    assert(outcomes.take(i as int + 1).drop_last() =~= outcomes.take(i as int));
    lemma_stays_stopped(total, outcomes, i, outcomes.len());
    assert(outcomes.take(outcomes.len() as int) =~= outcomes);
}

/// Drives a run over a list of steps. Its caller asks for the `request`,
/// processes the step it names and reports the step's outcome, until the
/// request is `Finished`.
pub struct RunDriver {
    total: usize,
    processed: usize,
    stopped: bool,
}

impl View for RunDriver {
    type V = RunState;

    closed spec fn view(&self) -> RunState {
        RunState { total: self.total as nat, processed: self.processed as nat, stopped: self.stopped }
    }
}

impl RunDriver {
    /// A driver for a run of `total` steps, none processed yet.
    pub fn new(total: usize) -> (r: RunDriver)
        ensures
            r@ == start(total as nat),
    {
        RunDriver { total, processed: 0, stopped: false }
    }

    /// What the caller must do next.
    pub fn request(&self) -> (r: RunAction)
        ensures
            r == run_request(self@),
    {
        if self.stopped || self.processed >= self.total {
            RunAction::Finished
        } else {
            RunAction::Process(self.processed)
        }
    }

    /// Reports the outcome of the step asked for.
    pub fn record(&mut self, outcome: RunOutcome)
        ensures
            final(self)@ == record(old(self)@, outcome),
    {
        if !(self.stopped || self.processed >= self.total) {
            self.processed = self.processed + 1;
            self.stopped = outcome == RunOutcome::Terminate;
        }
    }

    /// How many steps have been processed.
    pub fn processed(&self) -> (r: usize)
        ensures
            r as nat == self@.processed,
    {
        self.processed
    }

    /// Whether a step has stopped the run.
    pub fn is_stopped(&self) -> (r: bool)
        ensures
            r == self@.stopped,
    {
        self.stopped
    }
}

} // verus!
