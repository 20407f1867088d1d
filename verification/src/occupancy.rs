//! The occupancy query: which grid cells are free for placing food or for
//! scheduling a deactivation.
use vstd::prelude::*;

use crate::grid::CubeState;
use crate::grid::Grid;
use crate::player::Snake;
use crate::player::SnakeView;
use crate::FOOD_BUFFER_SIDE;
use crate::HEAD_BUFFER_CAP;

verus! {

/// A food item resting on a grid cell. A gentle vertical oscillation is
/// layered on top by the presentation layer; the simulation sees only the
/// cell.
#[derive(Clone, Copy, PartialEq, Eq, Debug)]
pub struct Food {
    /// The grid cell the food rests on, each coordinate in `[0, MAP_SIZE)`.
    pub pos: (usize, usize),
}

/// Side of the square of cells excluded on behalf of the snake head: it
/// grows with the snake's speed, capped at [`HEAD_BUFFER_CAP`]. The square
/// is anchored at the grid origin corner, not at the head itself — the rule
/// this crate commits to — while the head and body cells themselves are
/// excluded separately by their target cells.
pub open spec fn spec_head_buffer_side(speed: u32) -> int {
    if speed < HEAD_BUFFER_CAP {
        speed as int
    } else {
        HEAD_BUFFER_CAP as int
    }
}

/// Whether the snake reserves the cell at `p`: the head's target cell, any
/// body segment's target cell, or the head-proximity square at the origin.
pub open spec fn spec_snake_excludes(s: SnakeView, p: (usize, usize)) -> bool {
    ||| (p.0 == s.target_position.x && p.1 == s.target_position.z)
    ||| (exists|i: int|
        0 <= i < s.bodies.len() && p.0 == (#[trigger] s.bodies[i]).target_position.x && p.1
            == s.bodies[i].target_position.z)
    ||| (p.0 < spec_head_buffer_side(s.speed) && p.1 < spec_head_buffer_side(s.speed))
}

/// Whether the food reserves the cell at `p`: the food's own cell, or the
/// food-proximity square at the origin (anchored there like the head
/// buffer). With no food present nothing is reserved.
pub open spec fn spec_food_excludes(food: Option<Food>, p: (usize, usize)) -> bool {
    food matches Some(f) && (p == f.pos || (p.0 < FOOD_BUFFER_SIDE && p.1 < FOOD_BUFFER_SIDE))
}

/// Whether grid cell `k` is free for placement: walkable and reserved by
/// neither the snake nor the food.
pub open spec fn spec_cell_empty(
    cells: Seq<CubeState>,
    s: SnakeView,
    food: Option<Food>,
    k: int,
) -> bool {
    &&& cells[k].walkable
    &&& !spec_snake_excludes(s, cells[k].pos)
    &&& !spec_food_excludes(food, cells[k].pos)
}

/// Whether the snake reserves the cell at `p`.
fn snake_excludes(snake: &Snake, p: (usize, usize)) -> (r: bool)
    ensures
        r == spec_snake_excludes(snake@, p),
{
    if same_cell(p, snake.target_position.x, snake.target_position.z) {
        return true;
    }
    let side = if snake.speed < HEAD_BUFFER_CAP {
        snake.speed
    } else {
        HEAD_BUFFER_CAP
    };
    if (p.0 as u64) < side as u64 && (p.1 as u64) < side as u64 {
        return true;
    }
    let mut i: usize = 0;
    while i < snake.bodies.len()
        invariant
            i <= snake.bodies@.len(),
            forall|j: int|
                0 <= j < i ==> !(p.0 == (#[trigger] snake.bodies@[j]).target_position.x && p.1
                    == snake.bodies@[j].target_position.z),
        decreases snake.bodies@.len() - i,
    {
        let t = snake.bodies[i].target_position;
        if same_cell(p, t.x, t.z) {
            proof {
                assert(p.0 == (snake@.bodies[i as int]).target_position.x && p.1
                    == snake@.bodies[i as int].target_position.z);
            }
            return true;
        }
        i += 1;
    }
    false
}

/// Whether the cell at `p` has the (possibly out-of-grid) coordinates
/// `(x, z)`.
fn same_cell(p: (usize, usize), x: i32, z: i32) -> (r: bool)
    ensures
        r == (p.0 == x && p.1 == z),
{
    x >= 0 && z >= 0 && p.0 == x as usize && p.1 == z as usize
}

/// Whether the food reserves the cell at `p`.
fn food_excludes(food: &Option<Food>, p: (usize, usize)) -> (r: bool)
    ensures
        r == spec_food_excludes(*food, p),
{
    match food {
        Option::None => false,
        Option::Some(f) => (p.0 == f.pos.0 && p.1 == f.pos.1) || (p.0 < FOOD_BUFFER_SIDE && p.1
            < FOOD_BUFFER_SIDE),
    }
}

/// All cells currently free for placement, as `(id, position)` rows in
/// ascending id order: exactly the walkable cells reserved by neither the
/// snake (target cells and head-proximity square) nor the food (its cell and
/// food-proximity square).
pub fn empty_cells(grid: &Grid, snake: &Snake, food: &Option<Food>) -> (r: Vec<
    (usize, (usize, usize)),
>)
    ensures
        forall|j: int|
            0 <= j < r@.len() ==> (#[trigger] r@[j]).0 < grid.cells@.len() && r@[j].1
                == grid.cells@[r@[j].0 as int].pos && spec_cell_empty(
                grid.cells@,
                snake@,
                *food,
                r@[j].0 as int,
            ),
        forall|k: int|
            0 <= k < grid.cells@.len() && spec_cell_empty(grid.cells@, snake@, *food, k)
                ==> exists|j: int| 0 <= j < r@.len() && (#[trigger] r@[j]).0 == k,
        forall|j1: int, j2: int| 0 <= j1 < j2 < r@.len() ==> r@[j1].0 < r@[j2].0,
{
    let mut r: Vec<(usize, (usize, usize))> = Vec::new();
    let mut k: usize = 0;
    while k < grid.cells.len()
        invariant
            k <= grid.cells@.len(),
            forall|j: int|
                0 <= j < r@.len() ==> (#[trigger] r@[j]).0 < k && r@[j].1 == grid.cells@[r@[j].0
                    as int].pos && spec_cell_empty(grid.cells@, snake@, *food, r@[j].0 as int),
            forall|t: int|
                0 <= t < k && spec_cell_empty(grid.cells@, snake@, *food, t) ==> exists|j: int|
                    0 <= j < r@.len() && (#[trigger] r@[j]).0 == t,
            forall|j1: int, j2: int| 0 <= j1 < j2 < r@.len() ==> r@[j1].0 < r@[j2].0,
        decreases grid.cells@.len() - k,
    {
        let c = grid.cells[k];
        if c.walkable && !snake_excludes(snake, c.pos) && !food_excludes(food, c.pos) {
            let ghost r0 = r@;
            r.push((k, c.pos));
            proof {
                assert forall|t: int|
                    0 <= t < k + 1 && spec_cell_empty(
                        grid.cells@,
                        snake@,
                        *food,
                        t,
                    ) implies exists|j: int| 0 <= j < r@.len() && (#[trigger] r@[j]).0 == t by {
                    if t < k {
                        let j = choose|j: int| 0 <= j < r0.len() && (#[trigger] r0[j]).0 == t;
                        assert(r@[j].0 == t);
                    } else {
                        assert(r@[r@.len() - 1].0 == t);
                    }
                }
            }
        }
        k += 1;
    }
    r
}

} // verus!
