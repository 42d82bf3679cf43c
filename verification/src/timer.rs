//! The debounce timer that schedules synchronisation.
//!
//! Every movement restarts a countdown; the countdown fires once, on the
//! tick with which the quiet time reaches the configured duration, and then
//! stays silent until the next movement. A burst of movement therefore costs
//! one synchronisation, a quiet period after it, and none is lost.

use vstd::prelude::*;

verus! {

/// The phase a [`SyncTimer`] is in.
#[derive(Clone, Copy, Debug, PartialEq, Eq, Structural)]
pub enum TimerState {
    /// Nothing has moved yet: there is nothing to synchronise.
    Idle,
    /// Something moved, and the quiet period has not passed yet.
    Counting,
    /// The quiet period has passed; nothing happens until the next movement.
    Elapsed,
}

/// The mathematical state of a [`SyncTimer`]. Times are in ticks.
pub ghost struct SyncTimerView {
    /// Length of the quiet period.
    pub duration: nat,
    /// Quiet time counted since the last movement, capped at `duration`.
    pub elapsed: nat,
    pub state: TimerState,
    /// Whether the most recent tick is the one that completed the quiet
    /// period.
    pub fired: bool,
}

impl SyncTimerView {
    pub open spec fn wf(self) -> bool {
        &&& self.elapsed <= self.duration
        &&& self.state == TimerState::Idle ==> self.elapsed == 0
        &&& self.state == TimerState::Counting ==> self.elapsed < self.duration || self.duration
            == 0
        &&& self.state == TimerState::Elapsed ==> self.elapsed == self.duration
        &&& self.fired ==> self.state == TimerState::Elapsed
    }

    /// A timer that has seen no movement yet.
    pub open spec fn idle(duration: nat) -> SyncTimerView {
        SyncTimerView { duration, elapsed: 0, state: TimerState::Idle, fired: false }
    }

    /// A movement restarts the countdown from zero, whatever went before.
    pub open spec fn on_movement(self) -> SyncTimerView {
        SyncTimerView {
            duration: self.duration,
            elapsed: 0,
            state: TimerState::Counting,
            fired: false,
        }
    }

    /// `dt` more ticks pass. Only a counting timer advances; it fires when
    /// the quiet time reaches the duration.
    pub open spec fn tick(self, dt: nat) -> SyncTimerView {
        match self.state {
            TimerState::Counting => if self.elapsed + dt >= self.duration {
                SyncTimerView {
                    duration: self.duration,
                    elapsed: self.duration,
                    state: TimerState::Elapsed,
                    fired: true,
                }
            } else {
                SyncTimerView {
                    duration: self.duration,
                    elapsed: self.elapsed + dt,
                    state: TimerState::Counting,
                    fired: false,
                }
            },
            _ => SyncTimerView {
                duration: self.duration,
                elapsed: self.elapsed,
                state: self.state,
                fired: false,
            },
        }
    }

    /// True only straight after the tick that completed the quiet period.
    pub open spec fn just_elapsed(self) -> bool {
        self.fired
    }

    /// The timer after a run of ticks without movement, oldest first.
    pub open spec fn run(self, dts: Seq<nat>) -> SyncTimerView
        decreases dts.len(),
    {
        if dts.len() == 0 {
            self
        } else {
            self.run(dts.drop_last()).tick(dts.last())
        }
    }
}

/// The time that a run of ticks covers.
pub open spec fn total(dts: Seq<nat>) -> nat
    decreases dts.len(),
{
    if dts.len() == 0 {
        0
    } else {
        total(dts.drop_last()) + dts.last()
    }
}

/// A longer prefix of a run covers at least as much time as a shorter one.
pub proof fn lemma_total_of_prefixes(dts: Seq<nat>, n: int, m: int)
    requires
        0 <= n <= m <= dts.len(),
    ensures
        total(dts.take(n)) <= total(dts.take(m)),
    decreases m - n,
{
    if n < m {
        lemma_total_of_prefixes(dts, n, m - 1);
        assert(dts.take(m).drop_last() == dts.take(m - 1));
    }
}

/// Movement and ticks keep a timer well-formed and never change its
/// duration.
pub proof fn lemma_transitions_keep_wf(t: SyncTimerView, dt: nat)
    requires
        t.wf(),
    ensures
        t.on_movement().wf(),
        t.tick(dt).wf(),
        t.on_movement().duration == t.duration,
        t.tick(dt).duration == t.duration,
        t.state != TimerState::Counting ==> t.tick(dt).state == t.state && t.tick(dt).elapsed
            == t.elapsed,
{
}

/// A run of ticks keeps the duration.
pub proof fn lemma_run_keeps_duration(t: SyncTimerView, dts: Seq<nat>)
    ensures
        t.run(dts).duration == t.duration,
    decreases dts.len(),
{
    if dts.len() > 0 {
        lemma_run_keeps_duration(t, dts.drop_last());
    }
}

/// Debounce: after a movement and then any run of ticks without movement,
/// the timer reports `just_elapsed` exactly when the last of those ticks is
/// the one with which the quiet time reaches the duration: the time up to
/// and including it is at least the duration, and the time before it was
/// not (or there was no tick before it). Until then the timer is counting
/// the quiet time; from then on it is elapsed.
pub proof fn lemma_fires_on_the_crossing_tick(t: SyncTimerView, dts: Seq<nat>)
    ensures
        ({
            let r = t.on_movement().run(dts);
            &&& r.wf()
            &&& r.duration == t.duration
            &&& r.just_elapsed() <==> dts.len() > 0 && total(dts) >= t.duration && (dts.len() == 1
                || total(dts.drop_last()) < t.duration)
            &&& dts.len() == 0 || total(dts) < t.duration ==> r.state == TimerState::Counting
                && r.elapsed == total(dts)
            &&& dts.len() > 0 && total(dts) >= t.duration ==> r.state == TimerState::Elapsed
                && r.elapsed == t.duration
        }),
    decreases dts.len(),
{
    if dts.len() > 0 {
        lemma_fires_on_the_crossing_tick(t, dts.drop_last());
    }
}

/// Exactly once: if the ticks after a movement cover the quiet period, then
/// one of them, and only one, is followed by `just_elapsed`; if they do not
/// cover it, none is.
pub proof fn lemma_fires_exactly_once(t: SyncTimerView, dts: Seq<nat>)
    ensures
        dts.len() > 0 && total(dts) >= t.duration ==> exists|n: int|
            {
                &&& 1 <= n <= dts.len()
                &&& (#[trigger] t.on_movement().run(dts.take(n))).just_elapsed()
                &&& forall|m: int|
                    1 <= m <= dts.len() && m != n ==> !(#[trigger] t.on_movement().run(
                        dts.take(m),
                    )).just_elapsed()
            },
        dts.len() == 0 || total(dts) < t.duration ==> forall|m: int|
            0 <= m <= dts.len() ==> !(#[trigger] t.on_movement().run(dts.take(m))).just_elapsed(),
{
    let start = t.on_movement();
    assert(dts.take(dts.len() as int) == dts);
    if dts.len() > 0 && total(dts) >= t.duration {
        let n = first_crossing(dts, t.duration, dts.len() as int);
        lemma_first_crossing(dts, t.duration, dts.len() as int);
        lemma_fires_on_the_crossing_tick(t, dts.take(n));
        assert(dts.take(n).drop_last() == dts.take(n - 1));
        assert(start.run(dts.take(n)).just_elapsed());
        assert forall|m: int| 1 <= m <= dts.len() && m != n implies !(#[trigger] start.run(
            dts.take(m),
        )).just_elapsed() by {
            lemma_fires_on_the_crossing_tick(t, dts.take(m));
            assert(dts.take(m).drop_last() == dts.take(m - 1));
            if m < n {
                assert(total(dts.take(m)) < t.duration);
            } else {
                lemma_total_of_prefixes(dts, n, m - 1);
            }
        }
    } else {
        assert forall|m: int| 0 <= m <= dts.len() implies !(#[trigger] start.run(
            dts.take(m),
        )).just_elapsed() by {
            lemma_fires_on_the_crossing_tick(t, dts.take(m));
            lemma_total_of_prefixes(dts, m, dts.len() as int);
        }
    }
}

/// The number of ticks of `dts`, among the first `k`, after which the time
/// covered first reaches `duration`; `k` if none of the shorter prefixes
/// reaches it.
pub open spec fn first_crossing(dts: Seq<nat>, duration: nat, k: int) -> int
    decreases k,
{
    if k <= 1 {
        1
    } else if total(dts.take(k - 1)) >= duration {
        first_crossing(dts, duration, k - 1)
    } else {
        k
    }
}

/// `first_crossing` names the shortest non-empty prefix that covers the
/// duration, provided the first `k` ticks cover it.
pub proof fn lemma_first_crossing(dts: Seq<nat>, duration: nat, k: int)
    requires
        1 <= k <= dts.len(),
        total(dts.take(k)) >= duration,
    ensures
        1 <= first_crossing(dts, duration, k) <= k,
        total(dts.take(first_crossing(dts, duration, k))) >= duration,
        forall|m: int|
            1 <= m < first_crossing(dts, duration, k) ==> total(#[trigger] dts.take(m)) < duration,
    decreases k,
{
    if k > 1 {
        if total(dts.take(k - 1)) >= duration {
            lemma_first_crossing(dts, duration, k - 1);
        } else {
            assert forall|m: int| 1 <= m < k implies total(#[trigger] dts.take(m)) < duration by {
                lemma_total_of_prefixes(dts, m, k - 1);
            }
        }
    }
}

/// Reset: a movement wipes out whatever the timer had counted or fired
/// before. What follows it depends on the duration and on the ticks after it
/// alone, so each movement is followed by one full quiet period and one
/// firing.
pub proof fn lemma_movement_restarts_the_quiet_period(
    t: SyncTimerView,
    before: Seq<nat>,
    after: Seq<nat>,
)
    ensures
        t.run(before).on_movement() == t.on_movement(),
        t.on_movement().elapsed == 0,
        t.on_movement().state == TimerState::Counting,
        !t.on_movement().just_elapsed(),
        t.run(before).on_movement().run(after) == t.on_movement().run(after),
        t.run(before).on_movement().run(after).just_elapsed() <==> after.len() > 0 && total(after)
            >= t.duration && (after.len() == 1 || total(after.drop_last()) < t.duration),
{
    lemma_run_keeps_duration(t, before);
    lemma_fires_on_the_crossing_tick(t, after);
}

/// A one-shot countdown of the quiet time since the last movement.
#[derive(Clone, Copy, Debug, PartialEq, Eq)]
pub struct SyncTimer {
    duration: u64,
    elapsed: u64,
    state: TimerState,
    fired: bool,
}

impl View for SyncTimer {
    type V = SyncTimerView;

    closed spec fn view(&self) -> SyncTimerView {
        SyncTimerView {
            duration: self.duration as nat,
            elapsed: self.elapsed as nat,
            state: self.state,
            fired: self.fired,
        }
    }
}

impl SyncTimer {
    /// Holds of every `SyncTimer` that exists while the program runs.
    #[verifier::type_invariant]
    pub open spec fn inv(self) -> bool {
        self@.wf()
    }

    /// A timer for a quiet period of `duration` ticks. It stays idle until
    /// the first movement.
    pub fn new(duration: u64) -> (r: SyncTimer)
        ensures
            r@ == SyncTimerView::idle(duration as nat),
    {
        SyncTimer { duration, elapsed: 0, state: TimerState::Idle, fired: false }
    }

    /// Something moved: the countdown starts again from zero.
    pub fn on_movement(&mut self)
        ensures
            final(self)@ == old(self)@.on_movement(),
            final(self)@.elapsed == 0,
            final(self)@.state == TimerState::Counting,
            !final(self)@.just_elapsed(),
    {
        *self = SyncTimer {
            duration: self.duration,
            elapsed: 0,
            state: TimerState::Counting,
            fired: false,
        };
    }

    /// `dt` ticks pass. A counting timer advances and, when the quiet time
    /// reaches the duration, fires; an idle or elapsed timer stays as it is.
    pub fn tick(&mut self, dt: u64)
        ensures
            final(self)@ == old(self)@.tick(dt as nat),
            final(self)@.wf(),
    {
        proof {
            use_type_invariant(&*self);
        }
        match self.state {
            TimerState::Counting => {
                if dt >= self.duration - self.elapsed {
                    *self = SyncTimer {
                        duration: self.duration,
                        elapsed: self.duration,
                        state: TimerState::Elapsed,
                        fired: true,
                    };
                } else {
                    self.elapsed = self.elapsed + dt;
                }
            },
            _ => {
                self.fired = false;
            },
        }
    }

    /// Whether the last tick completed the quiet period. True after that one
    /// tick only.
    pub fn just_elapsed(&self) -> (r: bool)
        ensures
            r == self@.just_elapsed(),
    {
        self.fired
    }

    /// The phase the timer is in.
    pub fn state(&self) -> (r: TimerState)
        ensures
            r == self@.state,
    {
        self.state
    }

    /// Quiet time counted so far, in ticks.
    pub fn elapsed(&self) -> (r: u64)
        ensures
            r == self@.elapsed,
            r <= self@.duration,
    {
        proof {
            use_type_invariant(self);
        }
        self.elapsed
    }

    /// Length of the quiet period, in ticks.
    pub fn duration(&self) -> (r: u64)
        ensures
            r == self@.duration,
    {
        self.duration
    }
}

} // verus!
