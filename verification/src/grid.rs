//! The fixed grid of floor cells and their two-phase deactivation and
//! reactivation animations.
use vstd::prelude::*;

use crate::CELL_ANIM_TOTAL_MS;
use crate::MAP_SIZE;
use crate::Signal;
use crate::WARN_PHASE_MS;

verus! {

broadcast use vstd::seq_lib::lemma_seq_contains_after_push;

/// Animation state of one floor cell.
///
/// A deactivation runs a warning phase of [`WARN_PHASE_MS`] (the cell only
/// changes appearance and stays walkable) followed by a sinking phase of
/// [`crate::MOVE_PHASE_MS`]; the cell becomes non-walkable only when the
/// sinking phase completes. A reactivation mirrors it: the cell stays
/// non-walkable through both phases and becomes walkable only when the rising
/// phase completes. That completion rule is the invariant this crate commits
/// to: `walkable` holds exactly in the `Idle` and `Deactivating` states.
#[derive(Clone, Copy, PartialEq, Eq, Structural, Debug)]
pub enum CellAnim {
    /// No animation attached.
    Idle,
    /// Sinking away; the cell is still walkable until the animation ends.
    Deactivating { elapsed_ms: u32 },
    /// Fully sunk and not walkable, awaiting a later reactivation.
    Sunk,
    /// Rising back; the cell stays non-walkable until the animation ends.
    Reactivating { elapsed_ms: u32 },
}

/// One floor cell of the grid.
#[derive(Clone, Copy, PartialEq, Eq, Debug)]
pub struct CubeState {
    /// Grid coordinates of the cell, each in `[0, MAP_SIZE)`.
    pub pos: (usize, usize),
    /// Whether the snake may rest on this cell.
    pub walkable: bool,
    /// The cell's current animation state.
    pub anim: CellAnim,
}

impl CubeState {
    /// Well-formedness: walkability agrees with the animation state, and a
    /// running animation has not yet reached its total length.
    pub open spec fn wf(self) -> bool {
        &&& self.walkable <==> (self.anim is Idle || self.anim is Deactivating)
        &&& match self.anim {
            CellAnim::Deactivating { elapsed_ms } => elapsed_ms < CELL_ANIM_TOTAL_MS,
            CellAnim::Reactivating { elapsed_ms } => elapsed_ms < CELL_ANIM_TOTAL_MS,
            _ => true,
        }
    }

    /// Whether the cell is still in the cosmetic warning phase of a running
    /// animation.
    pub open spec fn spec_in_warning_phase(self) -> bool {
        match self.anim {
            CellAnim::Deactivating { elapsed_ms } => elapsed_ms < WARN_PHASE_MS,
            CellAnim::Reactivating { elapsed_ms } => elapsed_ms < WARN_PHASE_MS,
            _ => false,
        }
    }

    /// Whether the cell is still in the cosmetic warning phase of a running
    /// animation.
    pub fn in_warning_phase(&self) -> (r: bool)
        ensures
            r == self.spec_in_warning_phase(),
    {
        match self.anim {
            CellAnim::Deactivating { elapsed_ms } => elapsed_ms < WARN_PHASE_MS,
            CellAnim::Reactivating { elapsed_ms } => elapsed_ms < WARN_PHASE_MS,
            _ => false,
        }
    }
}

/// A deactivation starts on an idle cell; any other cell is left alone (a
/// cell already animating keeps its animation, a sunk cell stays sunk).
pub open spec fn spec_start_deactivation(c: CubeState) -> CubeState {
    if c.anim is Idle {
        CubeState { anim: CellAnim::Deactivating { elapsed_ms: 0 }, ..c }
    } else {
        c
    }
}

/// A reactivation starts on every fully sunk cell; any other cell is left
/// alone.
pub open spec fn spec_start_reactivation(c: CubeState) -> CubeState {
    if c.anim is Sunk {
        CubeState { anim: CellAnim::Reactivating { elapsed_ms: 0 }, ..c }
    } else {
        c
    }
}

/// The cell after `delta_ms` more milliseconds of animation time: a
/// deactivation that reaches its total length completes into a sunk,
/// non-walkable cell; a reactivation that reaches it completes into an idle,
/// walkable cell with no animation state left attached.
pub open spec fn spec_cell_advance(c: CubeState, delta_ms: u32) -> CubeState {
    match c.anim {
        CellAnim::Idle => c,
        CellAnim::Sunk => c,
        CellAnim::Deactivating { elapsed_ms } => if elapsed_ms + delta_ms >= CELL_ANIM_TOTAL_MS {
            CubeState { walkable: false, anim: CellAnim::Sunk, ..c }
        } else {
            CubeState { anim: CellAnim::Deactivating { elapsed_ms: (elapsed_ms + delta_ms) as u32 }, ..c }
        },
        CellAnim::Reactivating { elapsed_ms } => if elapsed_ms + delta_ms >= CELL_ANIM_TOTAL_MS {
            CubeState { walkable: true, anim: CellAnim::Idle, ..c }
        } else {
            CubeState { anim: CellAnim::Reactivating { elapsed_ms: (elapsed_ms + delta_ms) as u32 }, ..c }
        },
    }
}

/// Whether advancing by `delta_ms` completes a running deactivation.
pub open spec fn spec_deactivation_completes(c: CubeState, delta_ms: u32) -> bool {
    c.anim matches CellAnim::Deactivating { elapsed_ms } && elapsed_ms + delta_ms
        >= CELL_ANIM_TOTAL_MS
}

/// Whether advancing by `delta_ms` completes a running reactivation.
pub open spec fn spec_reactivation_completes(c: CubeState, delta_ms: u32) -> bool {
    c.anim matches CellAnim::Reactivating { elapsed_ms } && elapsed_ms + delta_ms
        >= CELL_ANIM_TOTAL_MS
}

/// Round trip of one cell through the map mutation cycle: a walkable idle
/// cell that starts a deactivation and completes it is sunk and not
/// walkable; once it then starts a reactivation and completes that too, it
/// is walkable again with no residual animation state attached.
pub proof fn lemma_cell_round_trip(c: CubeState, sink_ms: u32, rise_ms: u32)
    requires
        c.wf(),
        c.anim is Idle,
        c.walkable,
        sink_ms >= CELL_ANIM_TOTAL_MS,
        rise_ms >= CELL_ANIM_TOTAL_MS,
    ensures
        ({
            let sunk = spec_cell_advance(spec_start_deactivation(c), sink_ms);
            &&& sunk.anim is Sunk
            &&& !sunk.walkable
            &&& ({
                let risen = spec_cell_advance(spec_start_reactivation(sunk), rise_ms);
                &&& risen.anim is Idle
                &&& risen.walkable
                &&& risen == c
            })
        }),
{
}

/// The fixed square grid of floor cells, row by row: the cell with index
/// `k` sits at coordinates `(k / MAP_SIZE, k % MAP_SIZE)`.
#[derive(Clone, Debug)]
pub struct Grid {
    /// The cells, in index order.
    pub cells: Vec<CubeState>,
}

impl Grid {
    /// Well-formedness: exactly `MAP_SIZE * MAP_SIZE` cells, each carrying
    /// its own coordinates and a consistent animation state.
    pub open spec fn wf(self) -> bool {
        &&& self.cells@.len() == MAP_SIZE * MAP_SIZE
        &&& forall|k: int|
            0 <= k < self.cells@.len() ==> (#[trigger] self.cells@[k]).pos == (
            (k / (MAP_SIZE as int)) as usize,
            (k % (MAP_SIZE as int)) as usize,
            )
        &&& forall|k: int| 0 <= k < self.cells@.len() ==> (#[trigger] self.cells@[k]).wf()
    }

    /// A fresh grid: every cell walkable and idle.
    pub fn new() -> (g: Grid)
        ensures
            g.wf(),
            forall|k: int|
                0 <= k < g.cells@.len() ==> (#[trigger] g.cells@[k]).walkable && g.cells@[k].anim
                    is Idle,
    {
        let mut cells: Vec<CubeState> = Vec::new();
        let mut i: usize = 0;
        while i < MAP_SIZE
            invariant
                i <= MAP_SIZE,
                cells@.len() == i * MAP_SIZE,
                forall|k: int|
                    0 <= k < cells@.len() ==> (#[trigger] cells@[k]) == (CubeState {
                        pos: ((k / (MAP_SIZE as int)) as usize, (k % (MAP_SIZE as int)) as usize),
                        walkable: true,
                        anim: CellAnim::Idle,
                    }),
            decreases MAP_SIZE - i,
        {
            let mut j: usize = 0;
            while j < MAP_SIZE
                invariant
                    i < MAP_SIZE,
                    j <= MAP_SIZE,
                    cells@.len() == i * MAP_SIZE + j,
                    forall|k: int|
                        0 <= k < cells@.len() ==> (#[trigger] cells@[k]) == (CubeState {
                            pos: (
                                (k / (MAP_SIZE as int)) as usize,
                                (k % (MAP_SIZE as int)) as usize,
                            ),
                            walkable: true,
                            anim: CellAnim::Idle,
                        }),
                decreases MAP_SIZE - j,
            {
                let cube = CubeState { pos: (i, j), walkable: true, anim: CellAnim::Idle };
                proof {
                    assert(cells@.len() as int == i * (MAP_SIZE as int) + j);
                    assert((i * (MAP_SIZE as int) + j) / (MAP_SIZE as int) == i && (i * (
                    MAP_SIZE as int) + j) % (MAP_SIZE as int) == j) by (nonlinear_arith)
                        requires
                            0 <= j < (MAP_SIZE as int),
                            0 <= i,
                    ;
                }
                cells.push(cube);
                j += 1;
            }
            i += 1;
        }
        proof {
            assert(MAP_SIZE * MAP_SIZE == (MAP_SIZE as int) * (MAP_SIZE as int));
        }
        Grid { cells }
    }

    /// All cells as `(id, position, walkable)` rows, in index order.
    pub fn all_cells(&self) -> (r: Vec<(usize, (usize, usize), bool)>)
        ensures
            r@.len() == self.cells@.len(),
            forall|k: int|
                0 <= k < r@.len() ==> #[trigger] r@[k] == (
                k as usize,
                self.cells@[k].pos,
                self.cells@[k].walkable,
                ),
    {
        let mut r: Vec<(usize, (usize, usize), bool)> = Vec::new();
        let mut k: usize = 0;
        while k < self.cells.len()
            invariant
                k <= self.cells@.len(),
                r@.len() == k,
                forall|j: int|
                    0 <= j < k ==> #[trigger] r@[j] == (
                    j as usize,
                    self.cells@[j].pos,
                    self.cells@[j].walkable,
                    ),
            decreases self.cells@.len() - k,
        {
            let c = self.cells[k];
            r.push((k, c.pos, c.walkable));
            k += 1;
        }
        r
    }

    /// Overwrite one cell's walkable flag, resetting its animation to the
    /// matching steady state (idle when walkable, sunk when not).
    pub fn set_walkable(&mut self, id: usize, walkable: bool)
        requires
            old(self).wf(),
            id < old(self).cells@.len(),
        ensures
            final(self).wf(),
            final(self).cells@.len() == old(self).cells@.len(),
            final(self).cells@[id as int] == (CubeState {
                pos: old(self).cells@[id as int].pos,
                walkable,
                anim: if walkable {
                    CellAnim::Idle
                } else {
                    CellAnim::Sunk
                },
            }),
            forall|k: int|
                0 <= k < old(self).cells@.len() && k != id ==> final(self).cells@[k] == old(
                self,
                ).cells@[k],
    {
        let mut c = self.cells[id];
        c.walkable = walkable;
        c.anim = if walkable {
            CellAnim::Idle
        } else {
            CellAnim::Sunk
        };
        self.cells.set(id, c);
    }

    /// Start a deactivation on every listed idle cell (cells already
    /// animating or sunk are left alone, as is a cell listed twice).
    pub fn start_deactivations(&mut self, ids: &Vec<usize>)
        requires
            old(self).wf(),
            forall|j: int| 0 <= j < ids@.len() ==> #[trigger] ids@[j] < old(self).cells@.len(),
        ensures
            final(self).wf(),
            final(self).cells@.len() == old(self).cells@.len(),
            forall|k: int|
                0 <= k < old(self).cells@.len() ==> #[trigger] final(self).cells@[k] == if ids@.contains(
                    k as usize,
                ) {
                    spec_start_deactivation(old(self).cells@[k])
                } else {
                    old(self).cells@[k]
                },
    {
        let ghost pre = self.cells@;
        let mut j: usize = 0;
        while j < ids.len()
            invariant
                j <= ids@.len(),
                self.cells@.len() == pre.len(),
                forall|k: int|
                    0 <= k < pre.len() ==> #[trigger] self.cells@[k] == if ids@.take(
                        j as int,
                    ).contains(k as usize) {
                        spec_start_deactivation(pre[k])
                    } else {
                        pre[k]
                    },
            decreases ids@.len() - j,
        {
            let id = ids[j];
            let c = self.cells[id];
            if matches!(c.anim, CellAnim::Idle) {
                let nc = CubeState { anim: CellAnim::Deactivating { elapsed_ms: 0 }, ..c };
                self.cells.set(id, nc);
            }
            proof {
                assert(ids@.take(j + 1) =~= ids@.take(j as int).push(ids@[j as int]));
                assert forall|k: int| 0 <= k < pre.len() implies #[trigger] self.cells@[k] == if ids@.take(
                    j + 1,
                ).contains(k as usize) {
                    spec_start_deactivation(pre[k])
                } else {
                    pre[k]
                } by {
                    if ids@.take(j + 1).contains(k as usize) {
                        assert(ids@.take(j as int).contains(k as usize) || ids@[j as int]
                            == k as usize);
                    } else {
                        assert(!ids@.take(j as int).contains(k as usize));
                    }
                }
            }
            j += 1;
        }
        proof {
            assert(ids@.take(ids@.len() as int) =~= ids@);
        }
    }

    /// Start a reactivation on every fully sunk cell.
    pub fn start_reactivations(&mut self)
        requires
            old(self).wf(),
        ensures
            final(self).wf(),
            final(self).cells@.len() == old(self).cells@.len(),
            forall|k: int|
                0 <= k < old(self).cells@.len() ==> #[trigger] final(self).cells@[k]
                    == spec_start_reactivation(old(self).cells@[k]),
    {
        let ghost pre = self.cells@;
        let mut k: usize = 0;
        while k < self.cells.len()
            invariant
                k <= pre.len(),
                self.cells@.len() == pre.len(),
                forall|j: int|
                    0 <= j < k ==> #[trigger] self.cells@[j] == spec_start_reactivation(pre[j]),
                forall|j: int| k <= j < pre.len() ==> #[trigger] self.cells@[j] == pre[j],
            decreases pre.len() - k,
        {
            let c = self.cells[k];
            if matches!(c.anim, CellAnim::Sunk) {
                let nc = CubeState { anim: CellAnim::Reactivating { elapsed_ms: 0 }, ..c };
                self.cells.set(k, nc);
            }
            k += 1;
        }
    }

    /// Advance every running cell animation by `delta_ms`, appending a
    /// [`Signal::CellDeactivated`] for each deactivation that completes and a
    /// [`Signal::CellReactivated`] for each reactivation that completes.
    pub fn advance_cells(&mut self, delta_ms: u32, sigs: &mut Vec<Signal>)
        requires
            old(self).wf(),
        ensures
            final(self).wf(),
            final(self).cells@.len() == old(self).cells@.len(),
            forall|k: int|
                0 <= k < old(self).cells@.len() ==> #[trigger] final(self).cells@[k]
                    == spec_cell_advance(old(self).cells@[k], delta_ms),
            final(sigs)@.len() >= old(sigs)@.len(),
            forall|j: int| 0 <= j < old(sigs)@.len() ==> final(sigs)@[j] == old(sigs)@[j],
            forall|k: int|
                0 <= k < old(self).cells@.len() && spec_deactivation_completes(
                    old(self).cells@[k],
                    delta_ms,
                ) ==> final(sigs)@.contains(Signal::CellDeactivated { id: k as usize }),
            forall|k: int|
                0 <= k < old(self).cells@.len() && spec_reactivation_completes(
                    old(self).cells@[k],
                    delta_ms,
                ) ==> final(sigs)@.contains(Signal::CellReactivated { id: k as usize }),
            forall|j: int|
                old(sigs)@.len() <= j < final(sigs)@.len() ==> match #[trigger] final(sigs)@[j] {
                    Signal::CellDeactivated { id } => id < old(self).cells@.len()
                        && spec_deactivation_completes(old(self).cells@[id as int], delta_ms),
                    Signal::CellReactivated { id } => id < old(self).cells@.len()
                        && spec_reactivation_completes(old(self).cells@[id as int], delta_ms),
                    _ => false,
                },
    {
        let ghost pre = self.cells@;
        let ghost pre_sigs = sigs@;
        let mut k: usize = 0;
        while k < self.cells.len()
            invariant
                k <= pre.len(),
                self.cells@.len() == pre.len(),
                forall|j: int|
                    0 <= j < k ==> #[trigger] self.cells@[j] == spec_cell_advance(
                        pre[j],
                        delta_ms,
                    ),
                forall|j: int| k <= j < pre.len() ==> #[trigger] self.cells@[j] == pre[j],
                sigs@.len() >= pre_sigs.len(),
                forall|j: int| 0 <= j < pre_sigs.len() ==> sigs@[j] == pre_sigs[j],
                forall|j: int|
                    0 <= j < k && spec_deactivation_completes(pre[j], delta_ms)
                        ==> sigs@.contains(Signal::CellDeactivated { id: j as usize }),
                forall|j: int|
                    0 <= j < k && spec_reactivation_completes(pre[j], delta_ms)
                        ==> sigs@.contains(Signal::CellReactivated { id: j as usize }),
                forall|j: int|
                    pre_sigs.len() <= j < sigs@.len() ==> match #[trigger] sigs@[j] {
                        Signal::CellDeactivated { id } => id < pre.len()
                            && spec_deactivation_completes(pre[id as int], delta_ms),
                        Signal::CellReactivated { id } => id < pre.len()
                            && spec_reactivation_completes(pre[id as int], delta_ms),
                        _ => false,
                    },
            decreases pre.len() - k,
        {
            let c = self.cells[k];
            match c.anim {
                CellAnim::Deactivating { elapsed_ms } => {
                    if elapsed_ms as u64 + delta_ms as u64 >= CELL_ANIM_TOTAL_MS as u64 {
                        let nc = CubeState { walkable: false, anim: CellAnim::Sunk, ..c };
                        self.cells.set(k, nc);
                        sigs.push(Signal::CellDeactivated { id: k });
                    } else {
                        let nc = CubeState {
                            anim: CellAnim::Deactivating { elapsed_ms: elapsed_ms + delta_ms },
                            ..c
                        };
                        self.cells.set(k, nc);
                    }
                },
                CellAnim::Reactivating { elapsed_ms } => {
                    if elapsed_ms as u64 + delta_ms as u64 >= CELL_ANIM_TOTAL_MS as u64 {
                        let nc = CubeState { walkable: true, anim: CellAnim::Idle, ..c };
                        self.cells.set(k, nc);
                        sigs.push(Signal::CellReactivated { id: k });
                    } else {
                        let nc = CubeState {
                            anim: CellAnim::Reactivating { elapsed_ms: elapsed_ms + delta_ms },
                            ..c
                        };
                        self.cells.set(k, nc);
                    }
                },
                _ => {},
            }
            k += 1;
        }
    }
}

} // verus!
