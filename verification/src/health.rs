//! The health of an entity: a bounded quantity that only ever goes down, and
//! the two integers that are derived from it for the store and for the
//! health bar.

use vstd::prelude::*;
use vstd::arithmetic::div_mod::lemma_fundamental_div_mod;
use vstd::arithmetic::mul::lemma_mul_inequality;
use crate::types::{MyHealth, SCALE};

verus! {

/// Health lost per second of movement, in whole units; equally, sub-units
/// lost per tick.
pub const DECAY_RATE: u64 = 5;

/// A full health bar, in hundredths of a percent.
pub const BAR_FULL: u16 = 10_000;

/// Where an entity stands between its creation and its end.
#[derive(Clone, Copy, Debug, PartialEq, Eq, Structural)]
pub enum EntityLifecycle {
    Active,
    Defeated,
}

/// The mathematical state of a [`Health`]: two naturals, in sub-units.
pub ghost struct HealthView {
    pub current: nat,
    pub max: nat,
}

impl HealthView {
    /// Health never exceeds the maximum it was created with.
    pub open spec fn wf(self) -> bool {
        self.current <= self.max
    }

    /// Freshly spawned: as much health as there can be.
    pub open spec fn full(max: nat) -> HealthView {
        HealthView { current: max, max }
    }

    /// An entity is defeated exactly when no health is left.
    pub open spec fn lifecycle(self) -> EntityLifecycle {
        if self.current == 0 {
            EntityLifecycle::Defeated
        } else {
            EntityLifecycle::Active
        }
    }

    /// Health lost over `dt` ticks of movement, before clamping.
    pub open spec fn loss(dt: nat) -> nat {
        DECAY_RATE as nat * dt
    }

    /// One frame of decay. Health is lost only on a frame in which the
    /// entity moved, and it stops at zero.
    pub open spec fn decay(self, dt: nat, moved: bool) -> HealthView {
        if !moved {
            self
        } else if Self::loss(dt) >= self.current {
            HealthView { current: 0, max: self.max }
        } else {
            HealthView { current: (self.current - Self::loss(dt)) as nat, max: self.max }
        }
    }

    /// Decay over a run of frames, each given as its length in ticks and
    /// whether the entity moved in it, oldest first.
    pub open spec fn decay_all(self, frames: Seq<(nat, bool)>) -> HealthView
        decreases frames.len(),
    {
        if frames.len() == 0 {
            self
        } else {
            self.decay_all(frames.drop_last()).decay(frames.last().0, frames.last().1)
        }
    }

    /// `current / max` on a scale from 0 to `scale`, rounded to the nearest
    /// integer, a tie going up. With no maximum there is nothing to show: 0.
    pub open spec fn ratio(self, scale: nat) -> nat {
        if self.max == 0 {
            0
        } else {
            (2 * self.current * scale + self.max) / (2 * self.max)
        }
    }

    /// The value that is transmitted to the store.
    pub open spec fn normalized(self) -> nat {
        self.ratio(SCALE as nat)
    }

    /// The width of the health bar, in hundredths of a percent.
    pub open spec fn bar_fill(self) -> nat {
        self.ratio(BAR_FULL as nat)
    }
}

/// `ratio` is the integer nearest to the exact fraction: twice its distance
/// from `current * scale / max` is at most one, and it never exceeds `scale`.
pub proof fn lemma_ratio_is_nearest(h: HealthView, scale: nat)
    requires
        h.wf(),
        h.max > 0,
    ensures
        2 * h.ratio(scale) * h.max <= 2 * h.current * scale + h.max,
        2 * h.current * scale + h.max < 2 * (h.ratio(scale) + 1) * h.max,
        h.ratio(scale) <= scale,
        h.current == h.max ==> h.ratio(scale) == scale,
        h.current == 0 ==> h.ratio(scale) == 0,
{
    let n: int = (2 * h.current * scale + h.max) as int;
    let d: int = (2 * h.max) as int;
    let q: int = n / d;
    lemma_fundamental_div_mod(n, d);
    assert(n == d * q + n % d);
    assert(0 <= n % d < d);
    assert(d * q == 2 * q * h.max) by (nonlinear_arith)
        requires
            d == 2 * h.max,
    ;
    assert(d * (q + 1) == 2 * (q + 1) * h.max) by (nonlinear_arith)
        requires
            d == 2 * h.max,
    ;
    assert(d * (q + 1) == d * q + d) by (nonlinear_arith);
    assert(q >= 0) by (nonlinear_arith)
        requires
            d * q + d > 0,
            d > 0,
    ;
    assert(h.ratio(scale) == q);
    // The fraction is at most `scale`, so its rounding is too.
    assert(2 * h.current * scale <= 2 * h.max * scale) by (nonlinear_arith)
        requires
            h.current <= h.max,
    ;
    assert(q <= scale) by (nonlinear_arith)
        requires
            d * q <= n,
            n <= d * scale + h.max,
            d == 2 * h.max,
            h.max > 0,
    ;
    if h.current == h.max {
        assert(q >= scale) by (nonlinear_arith)
            requires
                n < d * q + d,
                n == d * scale + h.max,
                d == 2 * h.max,
                h.max > 0,
        ;
    }
    if h.current == 0 {
        assert(2 * h.current * scale == 0) by (nonlinear_arith)
            requires
                h.current == 0,
        ;
        assert(q <= 0) by (nonlinear_arith)
            requires
                d * q <= n,
                n == h.max,
                d == 2 * h.max,
                h.max > 0,
        ;
    }
}

/// However many frames of decay are applied, and whatever they hold, health
/// stays between zero and its maximum, the maximum stays what it was, and
/// health never rises.
pub proof fn lemma_decay_keeps_health_in_range(h: HealthView, frames: Seq<(nat, bool)>)
    requires
        h.wf(),
    ensures
        h.decay_all(frames).wf(),
        h.decay_all(frames).max == h.max,
        h.decay_all(frames).current <= h.current,
    decreases frames.len(),
{
    if frames.len() > 0 {
        lemma_decay_keeps_health_in_range(h, frames.drop_last());
    }
}

/// Frames in which the entity did not move leave health as it was, however
/// long they last.
pub proof fn lemma_no_decay_without_movement(h: HealthView, frames: Seq<(nat, bool)>)
    requires
        forall|i: int| 0 <= i < frames.len() ==> !(#[trigger] frames[i]).1,
    ensures
        h.decay_all(frames) == h,
    decreases frames.len(),
{
    if frames.len() > 0 {
        let init = frames.drop_last();
        assert forall|i: int| 0 <= i < init.len() implies !(#[trigger] init[i]).1 by {
            assert(init[i] == frames[i]);
        }
        lemma_no_decay_without_movement(h, init);
        assert(!frames[frames.len() - 1].1);
    }
}

/// Once health has reached zero no further decay changes it: the entity
/// stays defeated.
pub proof fn lemma_defeat_is_final(h: HealthView, frames: Seq<(nat, bool)>)
    requires
        h.lifecycle() == EntityLifecycle::Defeated,
    ensures
        h.decay_all(frames) == h,
        h.decay_all(frames).lifecycle() == EntityLifecycle::Defeated,
    decreases frames.len(),
{
    if frames.len() > 0 {
        lemma_defeat_is_final(h, frames.drop_last());
    }
}

/// Health of an entity, in sub-units: `current` between zero and `max`.
#[derive(Clone, Copy, Debug, PartialEq, Eq)]
pub struct Health {
    current: u64,
    max: u64,
}

impl View for Health {
    type V = HealthView;

    closed spec fn view(&self) -> HealthView {
        HealthView { current: self.current as nat, max: self.max as nat }
    }
}

impl Health {
    /// Holds of every `Health` that exists while the program runs.
    #[verifier::type_invariant]
    pub open spec fn inv(self) -> bool {
        self@.wf()
    }

    /// Full health, for a newly spawned entity.
    pub fn new(max: u64) -> (r: Health)
        ensures
            r@ == HealthView::full(max as nat),
    {
        Health { current: max, max }
    }

    /// A health value with part of it already lost. There is none with more
    /// health than its maximum.
    pub fn with_current(current: u64, max: u64) -> (r: Option<Health>)
        ensures
            r is Some <==> current <= max,
            r matches Some(h) ==> h@ == (HealthView { current: current as nat, max: max as nat }),
    {
        if current <= max {
            Some(Health { current, max })
        } else {
            None
        }
    }

    /// Health left, in sub-units.
    pub fn current(&self) -> (r: u64)
        ensures
            r == self@.current,
            r <= self@.max,
    {
        proof {
            use_type_invariant(self);
        }
        self.current
    }

    /// The most health this entity can have, in sub-units.
    pub fn max(&self) -> (r: u64)
        ensures
            r == self@.max,
            self@.wf(),
    {
        proof {
            use_type_invariant(self);
        }
        self.max
    }

    /// One frame of decay: on a frame in which the entity moved, `dt` ticks
    /// of health are lost, down to zero at most; on any other frame nothing
    /// changes.
    pub fn apply_decay(&mut self, dt: u64, moved: bool)
        ensures
            final(self)@ == old(self)@.decay(dt as nat, moved),
            final(self)@.wf(),
            final(self)@.max == old(self)@.max,
            final(self)@.current <= old(self)@.current,
            !moved ==> final(self)@ == old(self)@,
    {
        proof {
            use_type_invariant(&*self);
        }
        if moved {
            let loss: u128 = DECAY_RATE as u128 * dt as u128;
            if loss >= self.current as u128 {
                self.current = 0;
            } else {
                self.current = self.current - loss as u64;
            }
        }
    }

    /// Whether the entity is still alive.
    pub fn lifecycle(&self) -> (r: EntityLifecycle)
        ensures
            r == self@.lifecycle(),
    {
        if self.current == 0 {
            EntityLifecycle::Defeated
        } else {
            EntityLifecycle::Active
        }
    }

    /// `current / max` on a scale from 0 to `scale`, rounded to the nearest
    /// integer.
    pub fn ratio(&self, scale: u16) -> (r: u16)
        ensures
            r == self@.ratio(scale as nat),
            r <= scale,
    {
        proof {
            use_type_invariant(self);
        }
        if self.max == 0 {
            return 0;
        }
        proof {
            lemma_ratio_is_nearest(self@, scale as nat);
            lemma_mul_inequality(self.current as int, u64::MAX as int, scale as int);
            assert(2 * self.current * scale == 2 * (self.current * scale)) by (nonlinear_arith);
            assert(u64::MAX * scale <= u64::MAX * u16::MAX) by (nonlinear_arith)
                requires
                    scale <= u16::MAX,
            ;
        }
        let twice: u128 = 2 * (self.current as u128) * (scale as u128);
        let q: u128 = (twice + self.max as u128) / (2 * (self.max as u128));
        q as u16
    }

    /// The record that is transmitted to the store.
    pub fn encode(&self) -> (r: MyHealth)
        ensures
            r@ == self@.normalized(),
            r@ <= SCALE,
    {
        MyHealth { health: self.ratio(SCALE) }
    }
}

} // verus!
