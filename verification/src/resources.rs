//! The session context that is passed into every frame: the last recorded
//! state of the entity and the timer that decides when to send it.

use vstd::prelude::*;
use crate::player::{Player, PlayerView};
use crate::timer::{SyncTimer, SyncTimerView};
use crate::types::{MyHealth, MyPosition, PositionView, Snapshot, SnapshotView};

verus! {

/// The mathematical state of a [`GameState`].
pub ghost struct GameStateView {
    /// Position of the entity when it last moved.
    pub position: PositionView,
    /// Normalised health of the entity when it last moved.
    pub health: nat,
    pub timer: SyncTimerView,
}

impl GameStateView {
    /// The context of a new session: the entity as it is, and an idle
    /// timer for a quiet period of `quiet` ticks.
    pub open spec fn initial(player: PlayerView, quiet: nat) -> GameStateView {
        GameStateView {
            position: player.position,
            health: player.health.normalized(),
            timer: SyncTimerView::idle(quiet),
        }
    }

    /// What would be sent if a synchronisation were due now.
    pub open spec fn snapshot(self) -> SnapshotView {
        SnapshotView { position: self.position, health: self.health }
    }

    /// Whether what is recorded is the entity as it is now.
    pub open spec fn mirrors(self, player: PlayerView) -> bool {
        self.position == player.position && self.health == player.health.normalized()
    }

    /// The entity moved: its state is recorded and the quiet period starts
    /// again.
    pub open spec fn record(self, player: PlayerView) -> GameStateView {
        GameStateView {
            position: player.position,
            health: player.health.normalized(),
            timer: self.timer.on_movement(),
        }
    }

    /// `dt` ticks pass.
    pub open spec fn tick(self, dt: nat) -> GameStateView {
        GameStateView { position: self.position, health: self.health, timer: self.timer.tick(dt) }
    }

    /// Whether a synchronisation is due: only straight after the tick that
    /// completed the quiet period.
    pub open spec fn due(self) -> bool {
        self.timer.just_elapsed()
    }

    /// What is sent after the last tick: the recorded state if a
    /// synchronisation is due, nothing otherwise.
    pub open spec fn outgoing(self) -> Option<SnapshotView> {
        if self.due() {
            Some(self.snapshot())
        } else {
            None
        }
    }
}

/// The session context.
#[derive(Clone, Copy, Debug, PartialEq, Eq)]
pub struct GameState {
    position: MyPosition,
    health: MyHealth,
    last_sync_timer: SyncTimer,
}

impl View for GameState {
    type V = GameStateView;

    closed spec fn view(&self) -> GameStateView {
        GameStateView {
            position: self.position@,
            health: self.health@,
            timer: self.last_sync_timer@,
        }
    }
}

impl GameState {
    /// The context of a new session around `player`, with a quiet period of
    /// `quiet` ticks. Nothing is due until the entity has moved.
    pub fn new(player: &Player, quiet: u64) -> (r: GameState)
        ensures
            r@ == GameStateView::initial(player@, quiet as nat),
            r@.mirrors(player@),
            !r@.due(),
    {
        GameState {
            position: player.position(),
            health: player.health().encode(),
            last_sync_timer: SyncTimer::new(quiet),
        }
    }

    /// The position that was last recorded.
    pub fn position(&self) -> (r: MyPosition)
        ensures
            r@ == self@.position,
    {
        self.position
    }

    /// The normalised health that was last recorded.
    pub fn health(&self) -> (r: MyHealth)
        ensures
            r@ == self@.health,
    {
        self.health
    }

    /// The timer, to look at.
    pub fn last_sync_timer(&self) -> (r: SyncTimer)
        ensures
            r@ == self@.timer,
    {
        self.last_sync_timer
    }

    /// What would be sent if a synchronisation were due now.
    pub fn snapshot(&self) -> (r: Snapshot)
        ensures
            r@ == self@.snapshot(),
    {
        Snapshot { position: self.position, health: self.health }
    }

    /// The entity moved: records its state and starts the quiet period
    /// again.
    pub fn record(&mut self, player: &Player)
        ensures
            final(self)@ == old(self)@.record(player@),
            final(self)@.mirrors(player@),
    {
        self.position = player.position();
        self.health = player.health().encode();
        self.last_sync_timer.on_movement();
    }

    /// `dt` ticks pass. Returns what has to be sent: the recorded state, on
    /// the one tick that completes the quiet period, and nothing on any
    /// other.
    pub fn tick(&mut self, dt: u64) -> (sync: Option<Snapshot>)
        ensures
            final(self)@ == old(self)@.tick(dt as nat),
            sync is Some <==> final(self)@.due(),
            sync matches Some(s) ==> s@ == final(self)@.snapshot(),
    {
        self.last_sync_timer.tick(dt);
        if self.last_sync_timer.just_elapsed() {
            Some(self.snapshot())
        } else {
            None
        }
    }
}

} // verus!
