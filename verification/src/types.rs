//! Records that are handed to the remote state store, and the fixed-point
//! units in which the whole crate measures time, distance and health.
//!
//! Every quantity is an integer. One second of frame time is
//! [`RESOLUTION`] ticks, and one whole unit of distance or of health is
//! [`RESOLUTION`] sub-units. Because both scales are the same, a rate given in
//! units per second is also a rate in sub-units per tick, so a rate times a
//! number of ticks is an exact number of sub-units.
//!
//! Frame lengths and health are unsigned: a frame of negative length, or
//! health below zero, cannot be expressed, so neither can reach the rules.

use vstd::prelude::*;

verus! {

/// Ticks in one second, and sub-units in one whole unit.
pub const RESOLUTION: u64 = 1_000_000;

/// Largest normalised health value: a full health bar on the wire.
pub const SCALE: u16 = 1000;

/// A point of the plane, in sub-units.
#[derive(Clone, Copy, Debug, PartialEq, Eq, Structural)]
pub struct MyPosition {
    pub x: i64,
    pub y: i64,
}

/// The mathematical point that a [`MyPosition`] stands for.
pub ghost struct PositionView {
    pub x: int,
    pub y: int,
}

impl View for MyPosition {
    type V = PositionView;

    open spec fn view(&self) -> PositionView {
        PositionView { x: self.x as int, y: self.y as int }
    }
}

impl PositionView {
    /// The point where every entity is spawned.
    pub open spec fn origin() -> PositionView {
        PositionView { x: 0, y: 0 }
    }
}

impl MyPosition {
    /// The point where every entity is spawned.
    pub fn origin() -> (r: MyPosition)
        ensures
            r@ == PositionView::origin(),
    {
        MyPosition { x: 0, y: 0 }
    }
}

/// Health as it is transmitted: the fraction `current / max`, scaled to
/// `0..=SCALE` and rounded to the nearest integer.
#[derive(Clone, Copy, Debug, PartialEq, Eq, Structural)]
pub struct MyHealth {
    pub health: u16,
}

impl View for MyHealth {
    type V = nat;

    open spec fn view(&self) -> nat {
        self.health as nat
    }
}

/// What is sent to the store when a synchronisation is due: the position and
/// the normalised health as they were last recorded.
#[derive(Clone, Copy, Debug, PartialEq, Eq, Structural)]
pub struct Snapshot {
    pub position: MyPosition,
    pub health: MyHealth,
}

/// The pair of mathematical values that a [`Snapshot`] stands for.
pub ghost struct SnapshotView {
    pub position: PositionView,
    pub health: nat,
}

impl View for Snapshot {
    type V = SnapshotView;

    open spec fn view(&self) -> SnapshotView {
        SnapshotView { position: self.position@, health: self.health@ }
    }
}

} // verus!
