//! The simulated entity: a position that the held directions move, and a
//! health that movement wears down.

use vstd::prelude::*;
use crate::health::{EntityLifecycle, Health, HealthView};
use crate::types::{MyPosition, PositionView};

verus! {

/// Distance covered per second of movement, in whole units; equally,
/// sub-units covered per tick.
pub const SPEED: u64 = 100;

/// The directions that are held during a frame. Any combination may be held
/// at once, opposite ones included.
#[derive(Clone, Copy, Debug, PartialEq, Eq, Structural)]
pub struct DirectionFlags {
    pub up: bool,
    pub down: bool,
    pub left: bool,
    pub right: bool,
}

impl DirectionFlags {
    /// Whether any direction is held.
    pub open spec fn held(self) -> bool {
        self.up || self.down || self.left || self.right
    }

    /// Whether any direction is held.
    pub fn any(&self) -> (r: bool)
        ensures
            r == self.held(),
    {
        self.up || self.down || self.left || self.right
    }

    /// No direction held.
    pub fn none() -> (r: DirectionFlags)
        ensures
            r == (DirectionFlags { up: false, down: false, left: false, right: false }),
    {
        DirectionFlags { up: false, down: false, left: false, right: false }
    }

    /// Only up held.
    pub fn up() -> (r: DirectionFlags)
        ensures
            r == (DirectionFlags { up: true, down: false, left: false, right: false }),
    {
        DirectionFlags { up: true, down: false, left: false, right: false }
    }

    /// Only down held.
    pub fn down() -> (r: DirectionFlags)
        ensures
            r == (DirectionFlags { up: false, down: true, left: false, right: false }),
    {
        DirectionFlags { up: false, down: true, left: false, right: false }
    }

    /// Only left held.
    pub fn left() -> (r: DirectionFlags)
        ensures
            r == (DirectionFlags { up: false, down: false, left: true, right: false }),
    {
        DirectionFlags { up: false, down: false, left: true, right: false }
    }

    /// Only right held.
    pub fn right() -> (r: DirectionFlags)
        ensures
            r == (DirectionFlags { up: false, down: false, left: false, right: true }),
    {
        DirectionFlags { up: false, down: false, left: false, right: true }
    }
}

/// Distance covered along one direction in `dt` ticks.
pub open spec fn displacement(dt: nat) -> int {
    SPEED as int * dt
}

/// Net change of one coordinate in a frame: held directions each contribute
/// a full displacement, so two opposite ones add up to nothing.
pub open spec fn axis_shift(forward: bool, backward: bool, dt: nat) -> int {
    (if forward {
        displacement(dt)
    } else {
        0
    }) - (if backward {
        displacement(dt)
    } else {
        0
    })
}

/// A coordinate is kept within what an `i64` holds: movement beyond the edge
/// of the representable plane stops at the edge.
pub open spec fn clamp_axis(v: int) -> int {
    if v < i64::MIN {
        i64::MIN as int
    } else if v > i64::MAX {
        i64::MAX as int
    } else {
        v
    }
}

/// The mathematical state of a [`Player`].
pub ghost struct PlayerView {
    pub position: PositionView,
    pub health: HealthView,
}

/// One call on an entity, as a value: what a host may do to it in a frame.
pub ghost enum EntityStep {
    Move { input: DirectionFlags, dt: nat },
    Decay { dt: nat, moved: bool },
}

impl PlayerView {
    /// A newly spawned entity: at the origin, with full health.
    pub open spec fn spawn(max: nat) -> PlayerView {
        PlayerView { position: PositionView::origin(), health: HealthView::full(max) }
    }

    pub open spec fn lifecycle(self) -> EntityLifecycle {
        self.health.lifecycle()
    }

    /// Whether a frame with these directions held moves the entity: it has
    /// to be alive and some direction has to be held. Displacements that
    /// cancel, or that are zero ticks long, still count as movement.
    pub open spec fn moved(self, input: DirectionFlags) -> bool {
        self.lifecycle() == EntityLifecycle::Active && input.held()
    }

    /// The entity after the movement of one frame. Health is not touched.
    pub open spec fn apply_movement(self, input: DirectionFlags, dt: nat) -> PlayerView {
        if self.moved(input) {
            PlayerView {
                position: PositionView {
                    x: clamp_axis(self.position.x + axis_shift(input.right, input.left, dt)),
                    y: clamp_axis(self.position.y + axis_shift(input.up, input.down, dt)),
                },
                health: self.health,
            }
        } else {
            self
        }
    }

    /// The entity after the decay of one frame. The position is not touched.
    pub open spec fn apply_decay(self, dt: nat, moved: bool) -> PlayerView {
        PlayerView { position: self.position, health: self.health.decay(dt, moved) }
    }

    /// A whole frame: movement, then the decay that the movement causes.
    pub open spec fn advance(self, input: DirectionFlags, dt: nat) -> PlayerView {
        self.apply_movement(input, dt).apply_decay(dt, self.moved(input))
    }

    pub open spec fn step(self, s: EntityStep) -> PlayerView {
        match s {
            EntityStep::Move { input, dt } => self.apply_movement(input, dt),
            EntityStep::Decay { dt, moved } => self.apply_decay(dt, moved),
        }
    }

    /// The entity after a run of calls, oldest first.
    pub open spec fn run(self, steps: Seq<EntityStep>) -> PlayerView
        decreases steps.len(),
    {
        if steps.len() == 0 {
            self
        } else {
            self.run(steps.drop_last()).step(steps.last())
        }
    }
}

/// A frame that does not count as movement leaves the position where it
/// was; put the other way round, whenever a coordinate changes the frame
/// counts as movement.
pub proof fn lemma_position_changes_only_by_movement(p: PlayerView, input: DirectionFlags, dt: nat)
    ensures
        !p.moved(input) ==> p.apply_movement(input, dt) == p,
        p.apply_movement(input, dt).position != p.position ==> p.moved(input),
        p.apply_movement(input, dt).health == p.health,
{
}

/// Two opposite directions held together cancel: the coordinate stays where
/// it was, as long as it is one that an `i64` holds.
pub proof fn lemma_opposite_directions_cancel(v: int, dt: nat)
    requires
        i64::MIN <= v <= i64::MAX,
    ensures
        clamp_axis(v + axis_shift(true, true, dt)) == v,
{
}

/// Whatever is done to an entity, in whatever order, its health stays
/// between zero and its maximum, the maximum stays what it was, and health
/// never rises.
pub proof fn lemma_health_stays_in_range(p: PlayerView, steps: Seq<EntityStep>)
    requires
        p.health.wf(),
    ensures
        p.run(steps).health.wf(),
        p.run(steps).health.max == p.health.max,
        p.run(steps).health.current <= p.health.current,
    decreases steps.len(),
{
    if steps.len() > 0 {
        lemma_health_stays_in_range(p, steps.drop_last());
    }
}

/// Defeat is terminal: once health is zero, no movement and no decay changes
/// anything about the entity, so it stays defeated, where it fell, until it
/// is replaced by a newly spawned one.
pub proof fn lemma_defeated_entity_is_inert(p: PlayerView, steps: Seq<EntityStep>)
    requires
        p.lifecycle() == EntityLifecycle::Defeated,
    ensures
        p.run(steps) == p,
        p.run(steps).lifecycle() == EntityLifecycle::Defeated,
        forall|input: DirectionFlags| !p.run(steps).moved(input),
    decreases steps.len(),
{
    if steps.len() > 0 {
        lemma_defeated_entity_is_inert(p, steps.drop_last());
    }
}

/// The one coordinate of a frame's movement, computed without overflow.
fn shift_axis(v: i64, forward: bool, backward: bool, dt: u64) -> (r: i64)
    ensures
        r == clamp_axis(v + axis_shift(forward, backward, dt as nat)),
{
    let step: i128 = SPEED as i128 * dt as i128;
    assert(step == displacement(dt as nat));
    assert(0 <= step <= 100 * u64::MAX) by (nonlinear_arith)
        requires
            step == SPEED * dt,
            SPEED == 100,
    ;
    let mut target: i128 = v as i128;
    if forward {
        target = target + step;
    }
    if backward {
        target = target - step;
    }
    if target < i64::MIN as i128 {
        i64::MIN
    } else if target > i64::MAX as i128 {
        i64::MAX
    } else {
        target as i64
    }
}

/// The entity that the player steers.
#[derive(Clone, Copy, Debug, PartialEq, Eq)]
pub struct Player {
    position: MyPosition,
    health: Health,
}

impl View for Player {
    type V = PlayerView;

    closed spec fn view(&self) -> PlayerView {
        PlayerView { position: self.position@, health: self.health@ }
    }
}

impl Player {
    /// A new entity at the origin, with `max` sub-units of health, all of
    /// them left.
    pub fn spawn(max: u64) -> (r: Player)
        ensures
            r@ == PlayerView::spawn(max as nat),
    {
        Player { position: MyPosition::origin(), health: Health::new(max) }
    }

    /// An entity in a given condition.
    pub fn new(position: MyPosition, health: Health) -> (r: Player)
        ensures
            r@ == (PlayerView { position: position@, health: health@ }),
    {
        Player { position, health }
    }

    /// Where the entity is.
    pub fn position(&self) -> (r: MyPosition)
        ensures
            r@ == self@.position,
    {
        self.position
    }

    /// The entity's health.
    pub fn health(&self) -> (r: Health)
        ensures
            r@ == self@.health,
            self@.health.wf(),
    {
        proof {
            use_type_invariant(&self.health);
        }
        self.health
    }

    /// Moves the entity for a frame of `dt` ticks: every held direction
    /// shifts its coordinate by `SPEED * dt`, opposite directions both
    /// count. Returns whether the frame counts as movement, which is when
    /// the entity is alive and a direction is held; a defeated entity does
    /// not move.
    pub fn apply_movement(&mut self, input: DirectionFlags, dt: u64) -> (moved: bool)
        ensures
            moved == old(self)@.moved(input),
            final(self)@ == old(self)@.apply_movement(input, dt as nat),
            final(self)@.health == old(self)@.health,
            !moved ==> final(self)@ == old(self)@,
    {
        if self.health.current() == 0 || !input.any() {
            return false;
        }
        self.position = MyPosition {
            x: shift_axis(self.position.x, input.right, input.left, dt),
            y: shift_axis(self.position.y, input.up, input.down, dt),
        };
        true
    }

    /// The decay of one frame: `dt` ticks of health are lost if the entity
    /// moved in it, none otherwise.
    pub fn apply_decay(&mut self, dt: u64, moved: bool)
        ensures
            final(self)@ == old(self)@.apply_decay(dt as nat, moved),
            final(self)@.health.wf(),
            final(self)@.health.max == old(self)@.health.max,
            final(self)@.health.current <= old(self)@.health.current,
            !moved ==> final(self)@ == old(self)@,
    {
        self.health.apply_decay(dt, moved);
    }

    /// Whether the entity is still alive.
    pub fn lifecycle(&self) -> (r: EntityLifecycle)
        ensures
            r == self@.lifecycle(),
    {
        self.health.lifecycle()
    }
}

} // verus!
