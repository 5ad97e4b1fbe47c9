//! The progress signal shown while a remote call is in flight: a counter that
//! advances once per wake-up, up to a cap, and stops for good as soon as it
//! sees that the call has returned. The caller wakes it once per second.

use vstd::prelude::*;

verus! {

/// How many ticks a progress signal may show at most.
pub const PROGRESS_CAP: u64 = 100;

/// The model of a progress signal.
pub struct TickerState {
    pub cap: nat,
    pub ticks: nat,
    pub stopped: bool,
}

/// A signal that has not ticked yet.
pub open spec fn fresh(cap: nat) -> TickerState {
    TickerState { cap, ticks: 0, stopped: false }
}

/// Whether a wake-up ticks: the signal is running, has not seen the call
/// return, and is below its cap.
pub open spec fn ticks_on(s: TickerState, returned: bool) -> bool {
    !s.stopped && !returned && s.ticks < s.cap
}

/// One wake-up, told whether the call has returned: either one tick, or the
/// signal stops for good.
pub open spec fn wake(s: TickerState, returned: bool) -> TickerState {
    if ticks_on(s, returned) {
        TickerState { ticks: s.ticks + 1, ..s }
    } else {
        TickerState { stopped: true, ..s }
    }
}

/// The state after a sequence of wake-ups, each told whether the call had
/// returned by then.
pub open spec fn wake_all(s: TickerState, seen: Seq<bool>) -> TickerState
    decreases seen.len(),
{
    if seen.len() == 0 {
        s
    } else {
        wake(wake_all(s, seen.drop_last()), seen.last())
    }
}

/// Whatever it sees, a fresh signal never passes its cap and ticks at most
/// once per wake-up.
pub proof fn lemma_ticks_bounded(cap: nat, seen: Seq<bool>)
    ensures
        wake_all(fresh(cap), seen).ticks <= cap,
        wake_all(fresh(cap), seen).ticks <= seen.len(),
        wake_all(fresh(cap), seen).cap == cap,
    decreases seen.len(),
{
    if seen.len() > 0 {
        lemma_ticks_bounded(cap, seen.drop_last());
    }
}

proof fn lemma_stopped_stays(s: TickerState, seen: Seq<bool>)
    requires
        s.stopped,
    ensures
        wake_all(s, seen) == s,
    decreases seen.len(),
{
    if seen.len() > 0 {
        lemma_stopped_stays(s, seen.drop_last());
    }
}

/// The signal stops at the first wake-up after the call returns: from the
/// first wake-up that sees the return on, it is stopped and never ticks again,
/// whatever follows.
pub proof fn lemma_stops_after_return(s: TickerState, seen: Seq<bool>, i: int)
    requires
        0 <= i < seen.len(),
        seen[i],
    ensures
        wake_all(s, seen).stopped,
        wake_all(s, seen).ticks == wake_all(s, seen.take(i)).ticks,
{
    let before = wake_all(s, seen.take(i));
    let at = wake(before, true);
    assert(seen.take(i + 1).drop_last() =~= seen.take(i));
    assert(wake_all(s, seen.take(i + 1)) == at);
    lemma_stopped_stays(at, seen.skip(i + 1));
    lemma_wake_all_split(s, seen.take(i + 1), seen.skip(i + 1));
    assert(seen.take(i + 1) + seen.skip(i + 1) =~= seen);
}

proof fn lemma_wake_all_split(s: TickerState, a: Seq<bool>, b: Seq<bool>)
    ensures
        wake_all(s, a + b) == wake_all(wake_all(s, a), b),
    decreases b.len(),
{
    if b.len() == 0 {
        assert(a + b =~= a);
    } else {
        lemma_wake_all_split(s, a, b.drop_last());
        assert((a + b).drop_last() =~= a + b.drop_last());
        assert((a + b).last() == b.last());
    }
}

/// A progress signal, woken by its caller once per second while a remote
/// call is in flight.
pub struct ProgressTicker {
    cap: u64,
    ticks: u64,
    stopped: bool,
}

impl View for ProgressTicker {
    type V = TickerState;

    closed spec fn view(&self) -> TickerState {
        TickerState { cap: self.cap as nat, ticks: self.ticks as nat, stopped: self.stopped }
    }
}

impl ProgressTicker {
    /// A signal that may tick up to `cap` times.
    pub fn new(cap: u64) -> (r: ProgressTicker)
        ensures
            r@ == fresh(cap as nat),
    {
        ProgressTicker { cap, ticks: 0, stopped: false }
    }

    /// One wake-up; `returned` tells whether the call has returned. Answers
    /// whether to show one more tick.
    pub fn wake(&mut self, returned: bool) -> (tick: bool)
        ensures
            tick == ticks_on(old(self)@, returned),
            final(self)@ == wake(old(self)@, returned),
    {
        if !self.stopped && !returned && self.ticks < self.cap {
            self.ticks = self.ticks + 1;
            true
        } else {
            self.stopped = true;
            false
        }
    }

    /// How many ticks have been shown.
    pub fn ticks(&self) -> (r: u64)
        ensures
            r as nat == self@.ticks,
    {
        self.ticks
    }

    /// Whether the signal has stopped for good.
    pub fn is_stopped(&self) -> (r: bool)
        ensures
            r == self@.stopped,
    {
        self.stopped
    }
}

} // verus!
