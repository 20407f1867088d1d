//! Core simulation engine of a grid snake game.
//!
//! The engine is a discrete, frame-stepped state machine: a snake advances one
//! grid cell per tick (one tick every `1 / speed` seconds), trailing body
//! segments follow the head cell by cell, food is placed on randomly chosen
//! empty cells, and a scheduler periodically sinks a growing random subset of
//! the floor cells and raises previously sunk ones.
//!
//! All simulation time is carried in integer milliseconds and all positions
//! are integer grid coordinates; continuous positions for rendering are
//! reported in exact thousandths of a cell. Rendering, audio and input
//! polling are collaborators outside this crate: they feed per-frame deltas
//! and direction requests in, and drain the returned [`Signal`] values.
#![verifier::loop_isolation(false)]
use vstd::prelude::*;

pub mod game_flow;
pub mod grid;
pub mod map;
pub mod occupancy;
pub mod player;
pub mod utils;

verus! {

/// Number of cells on each side of the square grid.
pub const MAP_SIZE: usize = 25;

/// Snake speed at session start, in grid cells per second.
pub const BASE_SPEED: u32 = 3;

/// A tick commits once the timer has gathered this many speed-scaled
/// milliseconds, so a tick lasts `1000 / speed` milliseconds of real time.
pub const TICK_PERIOD_UNITS: u64 = 1000;

/// Period of the map mutation scheduler, in milliseconds.
pub const MAP_CHANGE_PERIOD_MS: u64 = 5000;

/// Length of the warning phase of a cell deactivation or reactivation, in
/// milliseconds. During it the cell only changes appearance.
pub const WARN_PHASE_MS: u32 = 1500;

/// Length of the sinking (or rising) phase that follows the warning phase,
/// in milliseconds.
pub const MOVE_PHASE_MS: u32 = 500;

/// Total length of a cell deactivation or reactivation animation.
pub const CELL_ANIM_TOTAL_MS: u32 = WARN_PHASE_MS + MOVE_PHASE_MS;

/// Cells deactivated per scheduler firing before the time ramp is added.
pub const DEACTIVATE_BASE: u64 = 10;

/// Upper bound on the number of cells deactivated per scheduler firing.
pub const DEACTIVATE_CAP: u64 = 25;

/// Elapsed play time that adds one cell to the deactivation count.
pub const DEACTIVATE_RAMP_MS: u64 = 20000;

/// Side of the square of cells kept free around the grid origin on behalf of
/// the snake head; the side grows with speed up to this cap.
pub const HEAD_BUFFER_CAP: u32 = 6;

/// Side of the square of cells kept free around the grid origin on behalf of
/// the food item.
pub const FOOD_BUFFER_SIDE: usize = 3;

/// Outbound event produced by a session update, drained by the presentation
/// layer each frame.
#[derive(Clone, Copy, PartialEq, Eq, Debug)]
pub enum Signal {
    /// A new food item was placed on the given grid cell.
    FoodSpawned { pos: (usize, usize) },
    /// The snake head reached the food cell and ate the food.
    FoodConsumed,
    /// A new trailing body segment was appended to the snake.
    SegmentGrown,
    /// The snake's body count crossed a boost threshold and speed rose by one.
    SpeedBoosted,
    /// The score rose by one (it follows each food consumption).
    ScoreIncremented,
    /// The cell with this grid index finished sinking and is not walkable.
    CellDeactivated { id: usize },
    /// The cell with this grid index finished rising and is walkable again.
    CellReactivated { id: usize },
    /// A terminal collision ended the session; emitted at most once.
    GameOver,
    /// A direction request pointing straight back into the neck was refused.
    DirectionRejected,
}

} // verus!
