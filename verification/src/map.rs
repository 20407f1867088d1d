//! Session-scoped map state: elapsed play time, score and the repeating
//! map-mutation timer with its time-scaled deactivation count.
use vstd::prelude::*;

use crate::grid::CellAnim;
use crate::grid::Grid;
use crate::DEACTIVATE_BASE;
use crate::DEACTIVATE_CAP;
use crate::DEACTIVATE_RAMP_MS;
use crate::MAP_CHANGE_PERIOD_MS;

verus! {

/// How many cells one scheduler firing deactivates after `elapsed_ms` of
/// play: a base count plus one per ramp interval already played, capped.
pub open spec fn spec_deactivate_count(elapsed_ms: u64) -> int {
    let raw = DEACTIVATE_BASE + elapsed_ms / DEACTIVATE_RAMP_MS;
    if raw > DEACTIVATE_CAP {
        DEACTIVATE_CAP as int
    } else {
        raw
    }
}

/// How many cells one scheduler firing deactivates after `elapsed_ms` of
/// play.
pub fn deactivate_count(elapsed_ms: u64) -> (r: usize)
    ensures
        r == spec_deactivate_count(elapsed_ms),
{
    let ramp = elapsed_ms / DEACTIVATE_RAMP_MS;
    if ramp >= DEACTIVATE_CAP - DEACTIVATE_BASE {
        DEACTIVATE_CAP as usize
    } else {
        (DEACTIVATE_BASE + ramp) as usize
    }
}

/// Session-scoped map state: the grid of cells, the score, the elapsed play
/// time and the repeating map-mutation timer.
#[derive(Clone, Debug)]
pub struct MapState {
    /// The grid whose walkable flags this state owns.
    pub grid: Grid,
    /// One point per food item eaten.
    pub score: u64,
    /// Total play time of the session, in milliseconds.
    pub time_elapsed_ms: u64,
    /// Milliseconds gathered toward the next map-mutation firing.
    pub map_change_acc_ms: u64,
}

impl MapState {
    /// Well-formedness: the grid is well formed and the mutation timer sits
    /// below one period.
    pub open spec fn wf(self) -> bool {
        &&& self.grid.wf()
        &&& self.map_change_acc_ms < MAP_CHANGE_PERIOD_MS
    }

    /// A fresh session state: full walkable grid, zero score, zero time.
    pub fn new() -> (m: MapState)
        ensures
            m.wf(),
            m.score == 0,
            m.time_elapsed_ms == 0,
            m.map_change_acc_ms == 0,
            forall|k: int|
                0 <= k < m.grid.cells@.len() ==> (#[trigger] m.grid.cells@[k]).walkable
                    && m.grid.cells@[k].anim is Idle,
    {
        MapState { grid: Grid::new(), score: 0, time_elapsed_ms: 0, map_change_acc_ms: 0 }
    }

    /// Advance play time by `delta_ms`. When the repeating mutation timer
    /// completes a period (at most once per frame, keeping the remainder),
    /// the firing reports how many cells to deactivate for the updated play
    /// time.
    pub fn tick(&mut self, delta_ms: u32) -> (fire: Option<usize>)
        requires
            old(self).wf(),
            old(self).time_elapsed_ms + delta_ms <= u64::MAX,
        ensures
            final(self).wf(),
            final(self).grid == old(self).grid,
            final(self).score == old(self).score,
            final(self).time_elapsed_ms == old(self).time_elapsed_ms + delta_ms,
            fire is Some <==> old(self).map_change_acc_ms + delta_ms >= MAP_CHANGE_PERIOD_MS,
            match fire {
                Option::Some(count) => count == spec_deactivate_count(
                    final(self).time_elapsed_ms,
                ) && final(self).map_change_acc_ms == (old(self).map_change_acc_ms + delta_ms) % (
                MAP_CHANGE_PERIOD_MS as int),
                Option::None => final(self).map_change_acc_ms == old(self).map_change_acc_ms
                    + delta_ms,
            },
    {
        self.time_elapsed_ms = self.time_elapsed_ms + delta_ms as u64;
        let acc = self.map_change_acc_ms + delta_ms as u64;
        if acc >= MAP_CHANGE_PERIOD_MS {
            self.map_change_acc_ms = acc % MAP_CHANGE_PERIOD_MS;
            Some(deactivate_count(self.time_elapsed_ms))
        } else {
            self.map_change_acc_ms = acc;
            None
        }
    }
}

} // verus!
