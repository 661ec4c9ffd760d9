//! A deterministic, frame-stepped simulation kernel for a small 2D arcade
//! game: a spider sitting on a web catches insects that fly in from the
//! screen edges. The kernel owns the game-state machine, the energy/score
//! ledger, the spawn timer, axis-aligned-box collision resolution and the
//! per-tick orchestration. It is driven once per frame with a time delta and
//! an input sample, and hands entity-lifecycle outcomes back to the host,
//! which does all rendering, audio and input polling.
//!
//! All quantities are fixed-point integers so that every rule is exact:
//! energy is measured in millionths of a full bar, positions in millionths
//! of a pixel, controller axes in thousandths of full deflection, and time
//! in milliseconds.

use vstd::prelude::*;

pub mod collision;
pub mod controller;
pub mod entities;
pub mod game;
pub mod geom;
pub mod ledger;
pub mod state;
pub mod timer;
pub mod ui;

verus! {

/// One full energy bar, in millionths.
pub const ENERGY_FULL: u32 = 1_000_000;

/// Energy drained per millisecond while idle (0.075 bars per second).
pub const IDLE_ENERGY_BURNING_RATE: u32 = 75;

/// Energy drained per millisecond while moving (0.125 bars per second).
pub const MOVING_ENERGY_BURNING_RATE: u32 = 125;

/// Energy drained per millisecond while boosting (0.30 bars per second).
pub const SPRINTING_ENERGY_BURNING_RATE: u32 = 300;

/// Full deflection of a controller axis, in thousandths.
pub const AXIS_UNIT: i16 = 1000;

/// One pixel, in the kernel's micro-pixel position unit.
pub const PX: i64 = 1_000_000;

/// Player walking speed, in pixels per second.
pub const MOVE_SPEED: i64 = 128;

/// Player boosting speed, in pixels per second.
pub const SPRINT_SPEED: i64 = 256;

/// Time between enemy spawns, in milliseconds (0.8 seconds).
pub const SPAWN_TIMER_MS: u32 = 800;

} // verus!
