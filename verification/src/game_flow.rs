//! The session: the per-frame update that drives the map mutation scheduler,
//! the movement tick and the terminal collision check, in that order.
use vstd::prelude::*;

use crate::grid::spec_cell_advance;
use crate::grid::spec_deactivation_completes;
use crate::grid::spec_reactivation_completes;
use crate::grid::spec_start_deactivation;
use crate::grid::spec_start_reactivation;
use crate::grid::CubeState;
use crate::grid::Grid;
use crate::map::MapState;
use crate::occupancy::empty_cells;
use crate::occupancy::spec_cell_empty;
use crate::occupancy::Food;
use crate::player::spec_apply_input;
use crate::player::spec_boost_len;
use crate::player::spec_commit;
use crate::player::spec_grow;
use crate::player::spec_after_timer;
use crate::player::spec_tick_fires;
use crate::player::Direction;
use crate::player::Pos;
use crate::player::Snake;
use crate::player::SnakeView;
use crate::utils::entropy_rng;
use crate::utils::index_permutation;
use crate::utils::rand_below;
use crate::utils::seeded_rng;
use crate::Signal;
use crate::MAP_CHANGE_PERIOD_MS;
use crate::MAP_SIZE;

verus! {

broadcast use vstd::seq_lib::lemma_seq_contains_after_push, vstd::seq_lib::lemma_seq_empty_contains_nothing;

/// Whether a committed head position lies outside the grid on either axis.
pub open spec fn spec_out_of_bounds(p: Pos) -> bool {
    p.x < 0 || p.z < 0 || p.x >= MAP_SIZE || p.z >= MAP_SIZE
}

/// Index of the in-bounds cell at `p` in the grid's cell vector.
pub open spec fn spec_cell_index(p: Pos) -> int {
    p.x * (MAP_SIZE as int) + p.z
}

/// Whether `p` lies on a non-walkable cell of the grid (a position outside
/// the grid lies on no cell at all).
pub open spec fn spec_blocked_at(cells: Seq<CubeState>, p: Pos) -> bool {
    !spec_out_of_bounds(p) && !cells[spec_cell_index(p)].walkable
}

/// The terminal condition: the head is out of bounds, the head rests on a
/// non-walkable cell, the head rests on a body segment's cell, or a body
/// segment rests on a non-walkable cell.
pub open spec fn spec_collision(cells: Seq<CubeState>, s: SnakeView) -> bool {
    ||| spec_out_of_bounds(s.pos)
    ||| spec_blocked_at(cells, s.pos)
    ||| exists|i: int| 0 <= i < s.bodies.len() && (#[trigger] s.bodies[i]).pos == s.pos
    ||| exists|i: int|
        0 <= i < s.bodies.len() && spec_blocked_at(cells, (#[trigger] s.bodies[i]).pos)
}

/// Boundary rule of the bounds test: a head resting one step outside the
/// grid on either axis always collides, and a head anywhere on the grid —
/// its edge cells included — never trips the bounds test.
pub proof fn lemma_boundary(cells: Seq<CubeState>, s: SnakeView)
    ensures
        (s.pos.x == -1 || s.pos.x == MAP_SIZE || s.pos.z == -1 || s.pos.z == MAP_SIZE)
            ==> spec_collision(cells, s),
        (0 <= s.pos.x < MAP_SIZE && 0 <= s.pos.z < MAP_SIZE) ==> !spec_out_of_bounds(s.pos),
{
}

/// Whether `p` lies on a non-walkable cell of the grid.
fn blocked_at(grid: &Grid, p: Pos) -> (r: bool)
    requires
        grid.wf(),
    ensures
        r == spec_blocked_at(grid.cells@, p),
{
    if p.x < 0 || p.z < 0 {
        return false;
    }
    let x = p.x as usize;
    let z = p.z as usize;
    if x >= MAP_SIZE || z >= MAP_SIZE {
        return false;
    }
    let idx = x * MAP_SIZE + z;
    proof {
        assert(idx < MAP_SIZE * MAP_SIZE) by (nonlinear_arith)
            requires
                x < MAP_SIZE,
                z < MAP_SIZE,
                idx == x * MAP_SIZE + z,
        ;
    }
    !grid.cells[idx].walkable
}

/// Evaluate the terminal condition for the committed snake positions.
pub fn check_collision(grid: &Grid, snake: &Snake) -> (r: bool)
    requires
        grid.wf(),
    ensures
        r == spec_collision(grid.cells@, snake@),
{
    let p = snake.pos;
    if p.x < 0 || p.z < 0 || p.x >= MAP_SIZE as i32 || p.z >= MAP_SIZE as i32 {
        return true;
    }
    if blocked_at(grid, p) {
        return true;
    }
    let mut i: usize = 0;
    while i < snake.bodies.len()
        invariant
            i <= snake.bodies@.len(),
            forall|j: int|
                0 <= j < i ==> !((#[trigger] snake.bodies@[j]).pos == snake.pos)
                    && !spec_blocked_at(grid.cells@, snake.bodies@[j].pos),
            grid.wf(),
        decreases snake.bodies@.len() - i,
    {
        let b = snake.bodies[i];
        if b.pos.x == p.x && b.pos.z == p.z {
            proof {
                assert((snake@.bodies[i as int]).pos == snake@.pos);
                assert(spec_collision(grid.cells@, snake@));
            }
            return true;
        }
        if blocked_at(grid, b.pos) {
            proof {
                assert(spec_blocked_at(grid.cells@, (snake@.bodies[i as int]).pos));
                assert(spec_collision(grid.cells@, snake@));
            }
            return true;
        }
        i += 1;
    }
    false
}

/// Whether the committed head rests on the food's cell. Food sits on exact
/// grid cells, so the sub-cell collision distance of the rendered world
/// collapses to cell equality.
pub open spec fn spec_food_hit(s: SnakeView, food: Option<Food>) -> bool {
    food matches Some(f) && s.pos.x == f.pos.0 && s.pos.z == f.pos.1
}

/// Whether the map mutation scheduler fires when `delta_ms` is added.
pub open spec fn spec_mutation_fires(m: MapState, delta_ms: u32) -> bool {
    m.map_change_acc_ms + delta_ms >= MAP_CHANGE_PERIOD_MS
}

/// Whether this frame's tick commit lands the head on the food.
pub open spec fn spec_consumed(s0: SnakeView, delta_ms: u32, food: Option<Food>) -> bool {
    spec_tick_fires(s0, delta_ms) && spec_food_hit(
        spec_commit(spec_after_timer(s0, delta_ms)),
        food,
    )
}

/// The snake at the end of a frame that started (after input sampling) at
/// `s0`: the timer gathers the frame delta; on a firing tick the chain
/// commits, and when the committed head rests on the food the snake grows.
pub open spec fn spec_snake_after(s0: SnakeView, delta_ms: u32, food: Option<Food>) -> SnakeView {
    let s1 = spec_after_timer(s0, delta_ms);
    if spec_tick_fires(s0, delta_ms) {
        let s2 = spec_commit(s1);
        if spec_food_hit(s2, food) {
            spec_grow(s2)
        } else {
            s2
        }
    } else {
        s1
    }
}

/// Whether the sampled input requests the direction pointing straight back
/// into the neck, which is refused.
pub open spec fn spec_input_rejected(s: SnakeView, input: Option<Direction>) -> bool {
    input matches Some(d) && d == s.direction.spec_opposite()
}

/// Signals appended by the cell-animation pass leave every other signal's
/// membership untouched.
proof fn lemma_cell_signals_only(pre: Seq<Signal>, post: Seq<Signal>, x: Signal)
    requires
        post.len() >= pre.len(),
        forall|j: int| 0 <= j < pre.len() ==> post[j] == pre[j],
        forall|j: int|
            pre.len() <= j < post.len() ==> ((#[trigger] post[j]) is CellDeactivated || post[j]
                is CellReactivated),
        !(x is CellDeactivated),
        !(x is CellReactivated),
    ensures
        post.contains(x) <==> pre.contains(x),
{
    if pre.contains(x) {
        let j = choose|j: int| 0 <= j < pre.len() && pre[j] == x;
        assert(post[j] == x);
    }
    if post.contains(x) {
        let j = choose|j: int| 0 <= j < post.len() && post[j] == x;
        assert(0 <= j < pre.len());
        assert(pre[j] == x);
    }
}

/// Whether `id` is the id column of one of the occupancy query's rows.
pub open spec fn spec_id_of_row(rows: Seq<(usize, (usize, usize))>, id: usize) -> bool {
    exists|i: int| 0 <= i < rows.len() && (#[trigger] rows[i]).0 == id
}

/// Up to `n` distinct cell ids drawn uniformly at random from the occupancy
/// query's rows.
fn pick_cell_ids(rng: &mut rand::rngs::StdRng, rows: &Vec<(usize, (usize, usize))>, n: usize) -> (ids: Vec<
    usize,
>)
    ensures
        forall|j: int| 0 <= j < ids@.len() ==> spec_id_of_row(rows@, #[trigger] ids@[j]),
        ids@.len() == if n <= rows@.len() {
            n as int
        } else {
            rows@.len() as int
        },
{
    let perm = index_permutation(rng, rows.len());
    let count = if n <= rows.len() {
        n
    } else {
        rows.len()
    };
    let mut ids: Vec<usize> = Vec::new();
    let mut j: usize = 0;
    while j < count
        invariant
            j <= count,
            count <= rows@.len(),
            perm@.len() == rows@.len(),
            forall|t: int| 0 <= t < perm@.len() ==> #[trigger] perm@[t] < rows@.len(),
            ids@.len() == j,
            forall|t: int| 0 <= t < j ==> spec_id_of_row(rows@, #[trigger] ids@[t]),
        decreases count - j,
    {
        let row = rows[perm[j]];
        proof {
            assert(rows@[perm@[j as int] as int].0 == row.0);
            assert(spec_id_of_row(rows@, row.0));
        }
        ids.push(row.0);
        j += 1;
    }
    ids
}

/// One live play-through of the game: the snake, the single food item, the
/// session-scoped map state, and whether the session is still running.
pub struct Session {
    /// The player-controlled snake.
    pub snake: Snake,
    /// The single food item, absent between a consumption and the next
    /// successful placement.
    pub food: Option<Food>,
    /// The grid, the score and the timers.
    pub map: MapState,
    /// False once the terminal collision has fired; a finished session is
    /// frozen and updates no longer change it.
    pub active: bool,
    /// The random source behind food placement and cell selection.
    pub rng: rand::rngs::StdRng,
}

impl Session {
    /// Well-formedness carried across every update: snake and map are well
    /// formed, the score counts one point per body segment, every snake
    /// coordinate stays within one step of the grid (two for the freshly
    /// appended tail), a live session has its head committed on the grid,
    /// and food rests on a grid cell.
    pub open spec fn wf(self) -> bool {
        &&& self.snake@.wf()
        &&& self.map.wf()
        &&& self.map.score == self.snake.bodies@.len()
        &&& self.active ==> (0 <= self.snake.pos.x < MAP_SIZE && 0 <= self.snake.pos.z < MAP_SIZE)
        &&& -1 <= self.snake.pos.x <= MAP_SIZE && -1 <= self.snake.pos.z <= MAP_SIZE
        &&& forall|i: int|
            0 <= i < self.snake.bodies@.len() ==> {
                let b = #[trigger] self.snake.bodies@[i];
                &&& -1 <= b.target_position.x <= MAP_SIZE
                &&& -1 <= b.target_position.z <= MAP_SIZE
                &&& -2 <= b.pos.x <= MAP_SIZE + 1
                &&& -2 <= b.pos.z <= MAP_SIZE + 1
            }
        &&& self.food matches Some(f) ==> (f.pos.0 < MAP_SIZE && f.pos.1 < MAP_SIZE)
    }

    /// A fresh session: full walkable grid, the default snake, zero score,
    /// and — whenever the grid offers an empty cell, as the fresh grid does —
    /// one food item already placed on such a cell.
    pub fn new() -> (s: Session)
        ensures
            s.wf(),
            s.active,
            s.snake.pos == (Pos { x: (MAP_SIZE / 2) as i32, z: (MAP_SIZE / 2) as i32 }),
            s.snake.direction == Direction::Up,
            s.snake.target_position == crate::player::spec_step(s.snake.pos, Direction::Up),
            s.snake.speed == crate::BASE_SPEED,
            s.snake.wait_acc == 0,
            s.snake.bodies@.len() == 0,
            s.map.score == 0,
            s.map.time_elapsed_ms == 0,
            s.map.map_change_acc_ms == 0,
            forall|k: int|
                0 <= k < s.map.grid.cells@.len() ==> (#[trigger] s.map.grid.cells@[k]).walkable,
            s.food matches Some(f) ==> exists|id: int|
                0 <= id < s.map.grid.cells@.len() && (#[trigger] s.map.grid.cells@[id]).pos
                    == f.pos && spec_cell_empty(s.map.grid.cells@, s.snake@, None, id),
            (exists|k: int|
                0 <= k < s.map.grid.cells@.len() && spec_cell_empty(
                    s.map.grid.cells@,
                    s.snake@,
                    None,
                    k,
                )) ==> s.food is Some,
    {
        Session::with_rng(entropy_rng())
    }

    /// A fresh session whose random choices — food cells and deactivated
    /// cells — replay identically for the same seed.
    pub fn with_seed(seed: u64) -> (s: Session)
        ensures
            s.wf(),
            s.active,
            s.snake.pos == (Pos { x: (MAP_SIZE / 2) as i32, z: (MAP_SIZE / 2) as i32 }),
            s.snake.direction == Direction::Up,
            s.snake.bodies@.len() == 0,
            s.map.score == 0,
            s.map.time_elapsed_ms == 0,
            s.food is Some,
    {
        let s = Session::with_rng(seeded_rng(seed));
        proof {
            // Witness that the fresh grid offers an empty cell — cell 320,
            // at (12, 20): walkable and outside every exclusion — so the
            // first food placement cannot have been skipped.
            assert(spec_cell_empty(s.map.grid.cells@, s.snake@, None, 320));
        }
        s
    }

    /// The fresh session around a given random source.
    fn with_rng(rng: rand::rngs::StdRng) -> (s: Session)
        ensures
            s.wf(),
            s.active,
            s.snake.pos == (Pos { x: (MAP_SIZE / 2) as i32, z: (MAP_SIZE / 2) as i32 }),
            s.snake.direction == Direction::Up,
            s.snake.target_position == crate::player::spec_step(s.snake.pos, Direction::Up),
            s.snake.speed == crate::BASE_SPEED,
            s.snake.wait_acc == 0,
            s.snake.bodies@.len() == 0,
            s.map.score == 0,
            s.map.time_elapsed_ms == 0,
            s.map.map_change_acc_ms == 0,
            forall|k: int|
                0 <= k < s.map.grid.cells@.len() ==> (#[trigger] s.map.grid.cells@[k]).walkable,
            s.food matches Some(f) ==> exists|id: int|
                0 <= id < s.map.grid.cells@.len() && (#[trigger] s.map.grid.cells@[id]).pos
                    == f.pos && spec_cell_empty(s.map.grid.cells@, s.snake@, None, id),
            (exists|k: int|
                0 <= k < s.map.grid.cells@.len() && spec_cell_empty(
                    s.map.grid.cells@,
                    s.snake@,
                    None,
                    k,
                )) ==> s.food is Some,
    {
        let snake = Snake::default();
        let map = MapState::new();
        let mut s = Session { snake, food: None, map, active: true, rng };
        s.try_spawn_food();
        s
    }

    /// Attempt to place a new food item on a random empty cell; with no
    /// empty cell available the attempt is skipped and retried on a later
    /// frame. Reports the chosen cell.
    fn try_spawn_food(&mut self) -> (spawned: Option<(usize, usize)>)
        requires
            old(self).map.grid.wf(),
            old(self).food is None,
        ensures
            final(self).food matches Some(f) ==> (f.pos.0 < MAP_SIZE && f.pos.1 < MAP_SIZE),
            final(self).snake == old(self).snake,
            final(self).map == old(self).map,
            final(self).active == old(self).active,
            spawned matches Some(pos) ==> {
                &&& final(self).food == Some(Food { pos })
                &&& exists|id: int|
                    0 <= id < old(self).map.grid.cells@.len() && (
                    #[trigger] old(self).map.grid.cells@[id]).pos == pos && spec_cell_empty(
                        old(self).map.grid.cells@,
                        old(self).snake@,
                        None,
                        id,
                    )
            },
            spawned is None ==> final(self).food is None,
            spawned is Some <==> exists|k: int|
                0 <= k < old(self).map.grid.cells@.len() && spec_cell_empty(
                    old(self).map.grid.cells@,
                    old(self).snake@,
                    None,
                    k,
                ),
    {
        let rows = empty_cells(&self.map.grid, &self.snake, &self.food);
        if rows.len() == 0 {
            proof {
                assert forall|k: int|
                    0 <= k < self.map.grid.cells@.len() implies !spec_cell_empty(
                    self.map.grid.cells@,
                    self.snake@,
                    None,
                    k,
                ) by {
                    if spec_cell_empty(self.map.grid.cells@, self.snake@, None, k) {
                        assert(exists|j: int| 0 <= j < rows@.len() && (#[trigger] rows@[j]).0 == k);
                    }
                }
            }
            return None;
        }
        let j = rand_below(&mut self.rng, rows.len());
        let id = rows[j].0;
        let pos = rows[j].1;
        proof {
            let ghost cells = self.map.grid.cells@;
            assert(spec_cell_empty(cells, self.snake@, None, id as int));
            assert(cells[id as int].pos == ((id as int / (MAP_SIZE as int)) as usize, (id as int % (
            MAP_SIZE as int)) as usize));
            assert(id as int / (MAP_SIZE as int) < MAP_SIZE && id as int % (MAP_SIZE as int)
                < MAP_SIZE) by (nonlinear_arith)
                requires
                    0 <= (id as int),
                    (id as int) < (MAP_SIZE as int) * (MAP_SIZE as int),
            ;
            assert(MAP_SIZE * MAP_SIZE == (MAP_SIZE as int) * (MAP_SIZE as int));
        }
        self.food = Some(Food { pos });
        Some(pos)
    }

    /// The map-mutation pass of one frame: advance the scheduler; on a
    /// firing, start deactivating a random batch of currently empty cells and
    /// start reactivating every fully sunk cell; then advance every running
    /// cell animation, appending a signal for each animation that completes.
    #[verifier::rlimit(60)]
    fn step_map_mutation(&mut self, delta_ms: u32, sigs: &mut Vec<Signal>)
        requires
            old(self).map.wf(),
            old(self).map.time_elapsed_ms + delta_ms <= u64::MAX,
        ensures
            final(self).snake == old(self).snake,
            final(self).food == old(self).food,
            final(self).active == old(self).active,
            final(self).map.wf(),
            final(self).map.score == old(self).map.score,
            final(self).map.time_elapsed_ms == old(self).map.time_elapsed_ms + delta_ms,
            final(self).map.map_change_acc_ms == if spec_mutation_fires(old(self).map, delta_ms) {
                (old(self).map.map_change_acc_ms + delta_ms) % (MAP_CHANGE_PERIOD_MS as int)
            } else {
                old(self).map.map_change_acc_ms + delta_ms
            },
            final(self).map.grid.cells@.len() == old(self).map.grid.cells@.len(),
            !spec_mutation_fires(old(self).map, delta_ms) ==> forall|k: int|
                0 <= k < old(self).map.grid.cells@.len() ==> #[trigger] final(self).map.grid.cells@[k] == spec_cell_advance(old(self).map.grid.cells@[k], delta_ms),
            spec_mutation_fires(old(self).map, delta_ms) ==> forall|k: int|
                0 <= k < old(self).map.grid.cells@.len() ==> {
                    let c = #[trigger] old(self).map.grid.cells@[k];
                    if c.anim is Sunk {
                        final(self).map.grid.cells@[k] == spec_cell_advance(
                            spec_start_reactivation(c),
                            delta_ms,
                        )
                    } else if c.anim is Idle {
                        ||| final(self).map.grid.cells@[k] == spec_cell_advance(c, delta_ms)
                        ||| (final(self).map.grid.cells@[k] == spec_cell_advance(
                            spec_start_deactivation(c),
                            delta_ms,
                        ) && spec_cell_empty(
                            old(self).map.grid.cells@,
                            old(self).snake@,
                            old(self).food,
                            k,
                        ))
                    } else {
                        final(self).map.grid.cells@[k] == spec_cell_advance(c, delta_ms)
                    }
                },
            final(sigs)@.len() >= old(sigs)@.len(),
            forall|j: int| 0 <= j < old(sigs)@.len() ==> final(sigs)@[j] == old(sigs)@[j],
            forall|j: int|
                old(sigs)@.len() <= j < final(sigs)@.len() ==> ((#[trigger] final(sigs)@[j])
                    is CellDeactivated || final(sigs)@[j] is CellReactivated),
            forall|k: int|
                0 <= k < old(self).map.grid.cells@.len() && spec_deactivation_completes(
                    #[trigger] old(self).map.grid.cells@[k],
                    delta_ms,
                ) ==> final(sigs)@.contains(Signal::CellDeactivated { id: k as usize }),
            forall|k: int|
                0 <= k < old(self).map.grid.cells@.len() && spec_reactivation_completes(
                    #[trigger] old(self).map.grid.cells@[k],
                    delta_ms,
                ) ==> final(sigs)@.contains(Signal::CellReactivated { id: k as usize }),
            forall|id: usize| #[trigger]
                final(sigs)@.contains(Signal::CellDeactivated { id }) ==> (old(sigs)@.contains(
                    Signal::CellDeactivated { id },
                ) || (id < final(self).map.grid.cells@.len() && !final(self).map.grid.cells@[id as int].walkable && final(self).map.grid.cells@[id as int].anim
                    is Sunk)),
            forall|id: usize| #[trigger]
                final(sigs)@.contains(Signal::CellReactivated { id }) ==> (old(sigs)@.contains(
                    Signal::CellReactivated { id },
                ) || (id < final(self).map.grid.cells@.len() && final(self).map.grid.cells@[id as int].walkable && final(self).map.grid.cells@[id as int].anim
                    is Idle)),
    {
        let ghost grid0 = self.map.grid.cells@;
        let fire = self.map.tick(delta_ms);
        if let Some(count) = fire {
            let rows = empty_cells(&self.map.grid, &self.snake, &self.food);
            let ids = pick_cell_ids(&mut self.rng, &rows, count);
            proof {
                assert forall|j: int| 0 <= j < ids@.len() implies #[trigger] ids@[j]
                    < self.map.grid.cells@.len() by {
                    let i = choose|i: int| 0 <= i < rows@.len() && (#[trigger] rows@[i]).0
                        == ids@[j];
                }
                assert forall|k: int|
                    0 <= k < grid0.len() && ids@.contains(k as usize) implies spec_cell_empty(
                    grid0,
                    old(self).snake@,
                    old(self).food,
                    k,
                ) by {
                    let j = choose|j: int| 0 <= j < ids@.len() && ids@[j] == k as usize;
                    assert(spec_id_of_row(rows@, k as usize));
                    let i = choose|i: int| 0 <= i < rows@.len() && (#[trigger] rows@[i]).0
                        == k as usize;
                }
            }
            self.map.grid.start_deactivations(&ids);
            self.map.grid.start_reactivations();
            proof {
                assert forall|k: int| 0 <= k < grid0.len() implies #[trigger] self.map.grid.cells@[k]
                    == (if grid0[k].anim is Sunk {
                    spec_start_reactivation(grid0[k])
                } else if grid0[k].anim is Idle && ids@.contains(k as usize) {
                    spec_start_deactivation(grid0[k])
                } else {
                    grid0[k]
                }) by {}
            }
        }
        let ghost grid1 = self.map.grid.cells@;
        let ghost sigs0 = sigs@;
        self.map.grid.advance_cells(delta_ms, sigs);
        proof {
            assert forall|k: int|
                0 <= k < grid0.len() && spec_deactivation_completes(
                    grid0[k],
                    delta_ms,
                ) implies sigs@.contains(Signal::CellDeactivated { id: k as usize }) by {
                assert(grid1[k] == grid0[k]);
            }
            assert forall|k: int|
                0 <= k < grid0.len() && spec_reactivation_completes(
                    grid0[k],
                    delta_ms,
                ) implies sigs@.contains(Signal::CellReactivated { id: k as usize }) by {
                assert(grid1[k] == grid0[k]);
            }
            assert forall|id: usize| #[trigger]
                sigs@.contains(Signal::CellDeactivated { id }) implies (sigs0.contains(
                Signal::CellDeactivated { id },
            ) || (id < self.map.grid.cells@.len() && !self.map.grid.cells@[id as int].walkable
                && self.map.grid.cells@[id as int].anim is Sunk)) by {
                let j = choose|j: int|
                    0 <= j < sigs@.len() && sigs@[j] == Signal::CellDeactivated { id };
                if j < sigs0.len() {
                    assert(sigs0[j] == Signal::CellDeactivated { id });
                } else {
                    assert(spec_deactivation_completes(grid1[id as int], delta_ms));
                }
            }
            assert forall|id: usize| #[trigger]
                sigs@.contains(Signal::CellReactivated { id }) implies (sigs0.contains(
                Signal::CellReactivated { id },
            ) || (id < self.map.grid.cells@.len() && self.map.grid.cells@[id as int].walkable
                && self.map.grid.cells@[id as int].anim is Idle)) by {
                let j = choose|j: int|
                    0 <= j < sigs@.len() && sigs@[j] == Signal::CellReactivated { id };
                if j < sigs0.len() {
                    assert(sigs0[j] == Signal::CellReactivated { id });
                } else {
                    assert(spec_reactivation_completes(grid1[id as int], delta_ms));
                }
            }
        }
    }

    /// The movement pass of one frame: gather the tick timer; on a firing
    /// tick commit the follow-the-leader chain, and when the committed head
    /// rests on the food, consume it, grow, score, and append the matching
    /// signals in order.
    #[verifier::rlimit(60)]
    fn step_movement(&mut self, delta_ms: u32, sigs: &mut Vec<Signal>) -> (consumed: bool)
        requires
            old(self).snake@.wf(),
            old(self).snake.bodies@.len() < usize::MAX,
            0 <= old(self).snake.pos.x < MAP_SIZE,
            0 <= old(self).snake.pos.z < MAP_SIZE,
            forall|i: int|
                0 <= i < old(self).snake.bodies@.len() ==> {
                    let b = #[trigger] old(self).snake.bodies@[i];
                    &&& -1 <= b.target_position.x <= MAP_SIZE
                    &&& -1 <= b.target_position.z <= MAP_SIZE
                    &&& -2 <= b.pos.x <= MAP_SIZE + 1
                    &&& -2 <= b.pos.z <= MAP_SIZE + 1
                },
            old(self).map.score == old(self).snake.bodies@.len(),
        ensures
            final(self).map.grid == old(self).map.grid,
            final(self).map.time_elapsed_ms == old(self).map.time_elapsed_ms,
            final(self).map.map_change_acc_ms == old(self).map.map_change_acc_ms,
            final(self).active == old(self).active,
            final(self).snake@ == spec_snake_after(old(self).snake@, delta_ms, old(self).food),
            consumed == spec_consumed(old(self).snake@, delta_ms, old(self).food),
            consumed ==> final(self).food is None,
            !consumed ==> final(self).food == old(self).food,
            final(self).map.score == old(self).map.score + if consumed {
                1int
            } else {
                0int
            },
            final(self).map.score == final(self).snake.bodies@.len(),
            final(self).snake@.wf(),
            final(self).snake.speed >= old(self).snake.speed,
            -1 <= final(self).snake.pos.x <= MAP_SIZE,
            -1 <= final(self).snake.pos.z <= MAP_SIZE,
            forall|i: int|
                0 <= i < final(self).snake.bodies@.len() ==> {
                    let b = #[trigger] final(self).snake.bodies@[i];
                    &&& -1 <= b.target_position.x <= MAP_SIZE
                    &&& -1 <= b.target_position.z <= MAP_SIZE
                    &&& -2 <= b.pos.x <= MAP_SIZE + 1
                    &&& -2 <= b.pos.z <= MAP_SIZE + 1
                },
            !consumed ==> final(sigs)@ == old(sigs)@,
            consumed ==> final(sigs)@ == if spec_boost_len(
                old(self).snake.bodies@.len() as int + 1,
            ) {
                old(sigs)@.push(Signal::FoodConsumed).push(Signal::SegmentGrown).push(
                    Signal::SpeedBoosted,
                ).push(Signal::ScoreIncremented)
            } else {
                old(sigs)@.push(Signal::FoodConsumed).push(Signal::SegmentGrown).push(
                    Signal::ScoreIncremented,
                )
            },
    {
        let ghost s0 = self.snake@;
        let fired = self.snake.tick_timer(delta_ms);
        let mut consumed = false;
        if fired {
            proof {
                assert(-1 <= self.snake.target_position.x <= MAP_SIZE && -1
                    <= self.snake.target_position.z <= MAP_SIZE);
            }
            self.snake.commit_tick();
            match &self.food {
                Option::Some(f) => {
                    if self.snake.pos.x >= 0 && self.snake.pos.z >= 0 && f.pos.0
                        == self.snake.pos.x as usize && f.pos.1 == self.snake.pos.z as usize {
                        consumed = true;
                    }
                },
                Option::None => {},
            }
            proof {
                assert(consumed == spec_food_hit(self.snake@, old(self).food));
            }
            if consumed {
                self.food = None;
                sigs.push(Signal::FoodConsumed);
                proof {
                    if self.snake.bodies.len() > 0 {
                        let last = self.snake.bodies@.len() - 1;
                        assert(self.snake.bodies@[last].pos == s0.bodies[last].target_position);
                        assert(-1 <= self.snake.bodies@.last().pos.x <= MAP_SIZE);
                        assert(-1 <= self.snake.bodies@.last().pos.z <= MAP_SIZE);
                    }
                }
                let boosted = self.snake.grow();
                sigs.push(Signal::SegmentGrown);
                if boosted {
                    sigs.push(Signal::SpeedBoosted);
                }
                self.map.score = self.map.score + 1;
                sigs.push(Signal::ScoreIncremented);
            }
        }
        proof {
            assert(self.snake@ == spec_snake_after(s0, delta_ms, old(self).food));
            assert(consumed == spec_consumed(s0, delta_ms, old(self).food));
            let sv = self.snake@;
            if fired {
                let s2 = spec_commit(spec_after_timer(s0, delta_ms));
                assert(-1 <= s2.pos.x <= MAP_SIZE && -1 <= s2.pos.z <= MAP_SIZE);
                assert forall|i: int| 0 <= i < sv.bodies.len() implies {
                    let b = #[trigger] sv.bodies[i];
                    &&& -1 <= b.target_position.x <= MAP_SIZE
                    &&& -1 <= b.target_position.z <= MAP_SIZE
                    &&& -2 <= b.pos.x <= MAP_SIZE + 1
                    &&& -2 <= b.pos.z <= MAP_SIZE + 1
                } by {
                    if consumed && i == sv.bodies.len() - 1 {
                        assert(sv.bodies[i] == crate::player::spec_new_tail(s2));
                        if s2.bodies.len() > 0 {
                            let last = s2.bodies.last();
                            assert(last.pos == s0.bodies[s0.bodies.len() - 1].target_position);
                            assert(crate::player::spec_adjacent(last.pos, last.target_position));
                        }
                    } else {
                        assert(sv.bodies[i] == s2.bodies[i]);
                        assert(s2.bodies[i].pos == s0.bodies[i].target_position);
                    }
                }
            }
        }
        consumed
    }

    /// One frame of the session, in a fixed sub-step order: sample the
    /// latched direction request, run the map mutation scheduler, advance the
    /// cell animations, advance the movement state machine (consuming food,
    /// growing and scoring on a tick commit), attempt a food placement when
    /// none is present, and finally run the terminal collision check. A
    /// finished session is frozen: updating it changes nothing and yields no
    /// signals, so at most one game-over fires per session.
    #[verifier::rlimit(100)]
    #[verifier::spinoff_prover]
    pub fn update(&mut self, delta_ms: u32, input: Option<Direction>) -> (r: Vec<Signal>)
        requires
            old(self).wf(),
            old(self).map.time_elapsed_ms + delta_ms <= u64::MAX,
            old(self).snake.bodies@.len() < usize::MAX,
        ensures
            final(self).wf(),
            !old(self).active ==> *final(self) == *old(self) && r@ == Seq::<Signal>::empty(),
            old(self).active ==> final(self).snake@ == spec_snake_after(
                spec_apply_input(old(self).snake@, input),
                delta_ms,
                old(self).food,
            ),
            final(self).snake.speed >= old(self).snake.speed,
            old(self).active ==> final(self).map.time_elapsed_ms == old(self).map.time_elapsed_ms
                + delta_ms,
            old(self).active ==> final(self).map.map_change_acc_ms == if spec_mutation_fires(
                old(self).map,
                delta_ms,
            ) {
                (old(self).map.map_change_acc_ms + delta_ms) % (MAP_CHANGE_PERIOD_MS as int)
            } else {
                old(self).map.map_change_acc_ms + delta_ms
            },
            old(self).active ==> final(self).map.score == old(self).map.score + if spec_consumed(
                spec_apply_input(old(self).snake@, input),
                delta_ms,
                old(self).food,
            ) {
                1int
            } else {
                0int
            },
            old(self).active ==> (final(self).active <==> !spec_collision(
                final(self).map.grid.cells@,
                final(self).snake@,
            )),
            r@.contains(Signal::GameOver) <==> (old(self).active && !final(self).active),
            r@.contains(Signal::DirectionRejected) <==> (old(self).active && spec_input_rejected(
                old(self).snake@,
                input,
            )),
            r@.contains(Signal::FoodConsumed) <==> (old(self).active && spec_consumed(
                spec_apply_input(old(self).snake@, input),
                delta_ms,
                old(self).food,
            )),
            r@.contains(Signal::SegmentGrown) == r@.contains(Signal::FoodConsumed),
            r@.contains(Signal::ScoreIncremented) == r@.contains(Signal::FoodConsumed),
            r@.contains(Signal::SpeedBoosted) <==> (r@.contains(Signal::FoodConsumed)
                && spec_boost_len(old(self).snake.bodies@.len() as int + 1)),
            (exists|pos: (usize, usize)| r@.contains(Signal::FoodSpawned { pos })) <==> (old(self).active && (old(self).food is None || r@.contains(Signal::FoodConsumed)) && final(self).food is Some),
            forall|pos: (usize, usize)| #[trigger]
                r@.contains(Signal::FoodSpawned { pos }) ==> {
                    &&& final(self).food == Some(Food { pos })
                    &&& exists|id: int|
                        0 <= id < final(self).map.grid.cells@.len() && (#[trigger] final(self).map.grid.cells@[id]).pos == pos && spec_cell_empty(
                            final(self).map.grid.cells@,
                            final(self).snake@,
                            None,
                            id,
                        )
                },
            old(self).active && old(self).food is Some && !spec_consumed(
                spec_apply_input(old(self).snake@, input),
                delta_ms,
                old(self).food,
            ) ==> final(self).food == old(self).food,
            old(self).active && !spec_mutation_fires(old(self).map, delta_ms) ==> forall|k: int|
                0 <= k < old(self).map.grid.cells@.len() ==> #[trigger] final(self).map.grid.cells@[k] == spec_cell_advance(old(self).map.grid.cells@[k], delta_ms),
            old(self).active && spec_mutation_fires(old(self).map, delta_ms) ==> forall|k: int|
                0 <= k < old(self).map.grid.cells@.len() ==> {
                    let c = #[trigger] old(self).map.grid.cells@[k];
                    if c.anim is Sunk {
                        final(self).map.grid.cells@[k] == spec_cell_advance(
                            spec_start_reactivation(c),
                            delta_ms,
                        )
                    } else if c.anim is Idle {
                        ||| final(self).map.grid.cells@[k] == spec_cell_advance(c, delta_ms)
                        ||| (final(self).map.grid.cells@[k] == spec_cell_advance(
                            spec_start_deactivation(c),
                            delta_ms,
                        ) && spec_cell_empty(
                            old(self).map.grid.cells@,
                            spec_apply_input(old(self).snake@, input),
                            old(self).food,
                            k,
                        ))
                    } else {
                        final(self).map.grid.cells@[k] == spec_cell_advance(c, delta_ms)
                    }
                },
            old(self).active ==> forall|k: int|
                0 <= k < old(self).map.grid.cells@.len() && spec_deactivation_completes(
                    #[trigger] old(self).map.grid.cells@[k],
                    delta_ms,
                ) ==> r@.contains(Signal::CellDeactivated { id: k as usize }),
            old(self).active ==> forall|k: int|
                0 <= k < old(self).map.grid.cells@.len() && spec_reactivation_completes(
                    #[trigger] old(self).map.grid.cells@[k],
                    delta_ms,
                ) ==> r@.contains(Signal::CellReactivated { id: k as usize }),
            forall|id: usize| #[trigger]
                r@.contains(Signal::CellDeactivated { id }) ==> id < final(self).map.grid.cells@.len() && !final(self).map.grid.cells@[id as int].walkable
                    && final(self).map.grid.cells@[id as int].anim is Sunk,
            forall|id: usize| #[trigger]
                r@.contains(Signal::CellReactivated { id }) ==> id < final(self).map.grid.cells@.len() && final(self).map.grid.cells@[id as int].walkable
                    && final(self).map.grid.cells@[id as int].anim is Idle,
    {
        let mut sigs: Vec<Signal> = Vec::new();
        if !self.active {
            return sigs;
        }
        // Sample the latched direction request.
        let mut rejected = false;
        if let Some(d) = input {
            let accepted = self.snake.request_direction(d);
            if !accepted {
                sigs.push(Signal::DirectionRejected);
                rejected = true;
            }
        }
        let ghost s0 = self.snake@;
        let ghost sigs_a = sigs@;
        proof {
            assert(s0 == spec_apply_input(old(self).snake@, input));
            assert(rejected == spec_input_rejected(old(self).snake@, input));
            assert(sigs_a.contains(Signal::DirectionRejected) == rejected);
            assert(forall|x: Signal| #[trigger] sigs_a.contains(x) ==> x
                == Signal::DirectionRejected);
        }
        // Map mutation scheduler and cell animations.
        self.step_map_mutation(delta_ms, &mut sigs);
        let ghost sigs_b = sigs@;
        proof {
            assert forall|x: Signal|
                !(x is CellDeactivated) && !(x is CellReactivated) implies (
            #[trigger] sigs_b.contains(x) <==> sigs_a.contains(x)) by {
                lemma_cell_signals_only(sigs_a, sigs_b, x);
            }
            assert(sigs_b.contains(Signal::DirectionRejected) == rejected);
            assert(!sigs_b.contains(Signal::FoodConsumed));
            assert(!sigs_b.contains(Signal::SegmentGrown));
            assert(!sigs_b.contains(Signal::ScoreIncremented));
            assert(!sigs_b.contains(Signal::SpeedBoosted));
            assert(!sigs_b.contains(Signal::GameOver));
            assert(forall|pos: (usize, usize)|
                !(#[trigger] sigs_b.contains(Signal::FoodSpawned { pos })));
        }
        // Movement, food consumption, growth and scoring.
        let consumed = self.step_movement(delta_ms, &mut sigs);
        let ghost sigs_m = sigs@;
        proof {
            assert(sigs_m.contains(Signal::DirectionRejected) == rejected);
            assert(sigs_m.contains(Signal::FoodConsumed) == consumed);
            assert(sigs_m.contains(Signal::SegmentGrown) == consumed);
            assert(sigs_m.contains(Signal::ScoreIncremented) == consumed);
            assert(sigs_m.contains(Signal::SpeedBoosted) == (consumed && spec_boost_len(
                s0.bodies.len() as int + 1,
            )));
            assert(!sigs_m.contains(Signal::GameOver));
            assert(forall|pos: (usize, usize)|
                !(#[trigger] sigs_m.contains(Signal::FoodSpawned { pos })));
            assert(forall|id: usize| #[trigger]
                sigs_m.contains(Signal::CellDeactivated { id }) == sigs_b.contains(
                    Signal::CellDeactivated { id },
                ));
            assert(forall|id: usize| #[trigger]
                sigs_m.contains(Signal::CellReactivated { id }) == sigs_b.contains(
                    Signal::CellReactivated { id },
                ));
        }
        // Food placement: retry whenever no food is present.
        let mut spawned: Option<(usize, usize)> = None;
        if self.food.is_none() {
            spawned = self.try_spawn_food();
            if let Some(pos) = spawned {
                sigs.push(Signal::FoodSpawned { pos });
            }
        }
        let ghost sigs_s = sigs@;
        proof {
            assert(sigs_s.contains(Signal::DirectionRejected) == rejected);
            assert(sigs_s.contains(Signal::FoodConsumed) == consumed);
            assert(sigs_s.contains(Signal::SegmentGrown) == consumed);
            assert(sigs_s.contains(Signal::ScoreIncremented) == consumed);
            assert(sigs_s.contains(Signal::SpeedBoosted) == sigs_m.contains(Signal::SpeedBoosted));
            assert(!sigs_s.contains(Signal::GameOver));
            assert(forall|pos: (usize, usize)| #[trigger]
                sigs_s.contains(Signal::FoodSpawned { pos }) == (spawned == Some(pos)));
            assert(forall|id: usize| #[trigger]
                sigs_s.contains(Signal::CellDeactivated { id }) == sigs_m.contains(
                    Signal::CellDeactivated { id },
                ));
            assert(forall|id: usize| #[trigger]
                sigs_s.contains(Signal::CellReactivated { id }) == sigs_m.contains(
                    Signal::CellReactivated { id },
                ));
        }
        // Terminal collision check, after this frame's movement commits.
        let ended = check_collision(&self.map.grid, &self.snake);
        if ended {
            self.active = false;
            sigs.push(Signal::GameOver);
        }
        proof {
            assert(sigs@.contains(Signal::GameOver) == ended);
            assert(sigs@.contains(Signal::DirectionRejected) == rejected);
            assert(sigs@.contains(Signal::FoodConsumed) == consumed);
            assert(sigs@.contains(Signal::SegmentGrown) == consumed);
            assert(sigs@.contains(Signal::ScoreIncremented) == consumed);
            assert(forall|pos: (usize, usize)| #[trigger]
                sigs@.contains(Signal::FoodSpawned { pos }) == (spawned == Some(pos)));
            assert(forall|id: usize| #[trigger]
                sigs@.contains(Signal::CellDeactivated { id }) == sigs_b.contains(
                    Signal::CellDeactivated { id },
                ));
            assert(forall|id: usize| #[trigger]
                sigs@.contains(Signal::CellReactivated { id }) == sigs_b.contains(
                    Signal::CellReactivated { id },
                ));
            match spawned {
                Option::Some(pos) => {
                    assert(sigs@.contains(Signal::FoodSpawned { pos }));
                },
                Option::None => {},
            }
            if !ended {
                assert(!spec_out_of_bounds(self.snake.pos));
            }
        }
        sigs
    }
}

} // verus!
