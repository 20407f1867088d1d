//! The snake: its discrete movement state machine, growth and speed scaling.
use vstd::prelude::*;

use crate::BASE_SPEED;
use crate::MAP_SIZE;
use crate::TICK_PERIOD_UNITS;

verus! {

/// A grid coordinate (or a unit displacement) on the playing field, named
/// after the x/z ground plane of a 3-D world whose y axis points up.
#[derive(Clone, Copy, PartialEq, Eq, Structural, Debug)]
pub struct Pos {
    pub x: i32,
    pub z: i32,
}

/// The four travel directions of the snake head.
#[derive(Clone, Copy, PartialEq, Eq, Structural, Debug)]
pub enum Direction {
    Up,
    Down,
    Left,
    Right,
}

impl Direction {
    /// Unit displacement of one grid step in this direction.
    pub open spec fn spec_norm(self) -> Pos {
        match self {
            Direction::Up => Pos { x: 0, z: -1i32 },
            Direction::Down => Pos { x: 0, z: 1 },
            Direction::Left => Pos { x: -1i32, z: 0 },
            Direction::Right => Pos { x: 1, z: 0 },
        }
    }

    /// Unit displacement of one grid step in this direction.
    pub fn norm(&self) -> (d: Pos)
        ensures
            d == self.spec_norm(),
    {
        match self {
            Direction::Up => Pos { x: 0, z: -1 },
            Direction::Down => Pos { x: 0, z: 1 },
            Direction::Left => Pos { x: -1, z: 0 },
            Direction::Right => Pos { x: 1, z: 0 },
        }
    }

    /// The direction pointing straight back.
    pub open spec fn spec_opposite(self) -> Direction {
        match self {
            Direction::Up => Direction::Down,
            Direction::Down => Direction::Up,
            Direction::Left => Direction::Right,
            Direction::Right => Direction::Left,
        }
    }

    /// The direction pointing straight back.
    pub fn opposite(&self) -> (d: Direction)
        ensures
            d == self.spec_opposite(),
    {
        match self {
            Direction::Up => Direction::Down,
            Direction::Down => Direction::Up,
            Direction::Left => Direction::Right,
            Direction::Right => Direction::Left,
        }
    }
}

/// The cell one step from `p` in direction `d`.
pub open spec fn spec_step(p: Pos, d: Direction) -> Pos {
    Pos { x: (p.x + d.spec_norm().x) as i32, z: (p.z + d.spec_norm().z) as i32 }
}

/// Two cells are adjacent when they differ by exactly one unit along exactly
/// one axis.
pub open spec fn spec_adjacent(a: Pos, b: Pos) -> bool {
    ||| (b.x == a.x && (b.z == a.z - 1 || b.z == a.z + 1))
    ||| (b.z == a.z && (b.x == a.x - 1 || b.x == a.x + 1))
}

/// One trailing body segment of the snake.
#[derive(Clone, Copy, PartialEq, Eq, Structural, Debug)]
pub struct SnakeBody {
    /// The cell the segment is currently moving toward.
    pub target_position: Pos,
    /// The cell the segment committed to at the last tick.
    pub pos: Pos,
}

impl SnakeBody {
    /// A segment resting at `at`, with no travel in progress.
    pub fn new(at: Pos) -> (b: SnakeBody)
        ensures
            b.target_position == at,
            b.pos == at,
    {
        SnakeBody { target_position: at, pos: at }
    }
}

/// Whether appending a segment that brings the body count to `n` grants a
/// speed boost. The five thresholds are crossed at most once each, because
/// segments are never removed during a session.
pub open spec fn spec_boost_len(n: int) -> bool {
    n == 5 || n == 10 || n == 20 || n == 30 || n == 40
}

/// Whether a body count of `n` is one of the five speed-boost thresholds.
pub fn is_boost_len(n: usize) -> (r: bool)
    ensures
        r == spec_boost_len(n as int),
{
    n == 5 || n == 10 || n == 20 || n == 30 || n == 40
}

/// The speed a snake with `n` body segments has: the base speed plus one for
/// each boost threshold already reached.
pub open spec fn spec_speed_for_len(n: int) -> int {
    BASE_SPEED + if n >= 40 {
        5int
    } else if n >= 30 {
        4int
    } else if n >= 20 {
        3int
    } else if n >= 10 {
        2int
    } else if n >= 5 {
        1int
    } else {
        0int
    }
}

/// Speed never falls as the body grows, and rises by exactly one when (and
/// only when) the new body count is one of the five boost thresholds.
pub proof fn lemma_speed_step(n: int)
    requires
        n >= 0,
    ensures
        spec_speed_for_len(n + 1) >= spec_speed_for_len(n),
        spec_speed_for_len(n + 1) == spec_speed_for_len(n) + if spec_boost_len(n + 1) {
            1int
        } else {
            0int
        },
{
}

/// Mathematical image of a [`Snake`].
#[verifier::ext_equal]
pub ghost struct SnakeView {
    pub pos: Pos,
    pub direction: Direction,
    pub target_position: Pos,
    pub speed: u32,
    pub wait_acc: u64,
    pub bodies: Seq<SnakeBody>,
}

/// The player-controlled snake: a head plus an ordered chain of body
/// segments, advancing one cell per tick.
#[derive(Clone, Debug)]
pub struct Snake {
    /// The head's last committed grid cell.
    pub pos: Pos,
    /// The direction the head will take at the next tick commit.
    pub direction: Direction,
    /// The cell the head is currently moving toward.
    pub target_position: Pos,
    /// Travel speed in grid cells per second.
    pub speed: u32,
    /// Speed-scaled milliseconds gathered toward the next tick commit;
    /// a tick commits at [`TICK_PERIOD_UNITS`].
    pub wait_acc: u64,
    /// Body segments, index 0 closest to the head.
    pub bodies: Vec<SnakeBody>,
}

impl View for Snake {
    type V = SnakeView;

    open spec fn view(&self) -> SnakeView {
        SnakeView {
            pos: self.pos,
            direction: self.direction,
            target_position: self.target_position,
            speed: self.speed,
            wait_acc: self.wait_acc,
            bodies: self.bodies@,
        }
    }
}

impl SnakeView {
    /// Well-formedness: the head travels toward an adjacent cell, the timer
    /// sits below one period, the speed matches the body count, every segment
    /// travels toward an adjacent cell, and the chain is linked (each
    /// segment's target is its predecessor's committed cell, the head's for
    /// segment 0).
    pub open spec fn wf(self) -> bool {
        &&& spec_adjacent(self.pos, self.target_position)
        &&& self.wait_acc < TICK_PERIOD_UNITS
        &&& self.speed == spec_speed_for_len(self.bodies.len() as int)
        &&& forall|i: int|
            0 <= i < self.bodies.len() ==> spec_adjacent(
                #[trigger] self.bodies[i].pos,
                self.bodies[i].target_position,
            )
        &&& forall|i: int|
            0 <= i < self.bodies.len() ==> #[trigger] self.bodies[i].target_position == if i == 0 {
                self.pos
            } else {
                self.bodies[i - 1].pos
            }
    }
}

impl Default for Snake {
    /// The session-start snake: resting at the centre cell of the grid,
    /// heading up, at base speed, with no body segments.
    fn default() -> (s: Snake)
        ensures
            s@.wf(),
            s.pos == (Pos { x: (MAP_SIZE / 2) as i32, z: (MAP_SIZE / 2) as i32 }),
            s.direction == Direction::Up,
            s.target_position == spec_step(s.pos, Direction::Up),
            s.speed == BASE_SPEED,
            s.wait_acc == 0,
            s.bodies@.len() == 0,
    {
        let start_pos = Pos { x: (MAP_SIZE / 2) as i32, z: (MAP_SIZE / 2) as i32 };
        let start_dir = Direction::Up;
        let norm = start_dir.norm();
        let start_target = Pos { x: start_pos.x + norm.x, z: start_pos.z + norm.z };
        Snake {
            pos: start_pos,
            direction: start_dir,
            target_position: start_target,
            speed: BASE_SPEED,
            wait_acc: 0,
            bodies: Vec::new(),
        }
    }
}

/// The snake after a latched direction request has been sampled: a request
/// pointing straight back into the neck leaves the direction unchanged.
pub open spec fn spec_apply_input(s: SnakeView, input: Option<Direction>) -> SnakeView {
    match input {
        Option::None => s,
        Option::Some(d) => if d == s.direction.spec_opposite() {
            s
        } else {
            SnakeView { direction: d, ..s }
        },
    }
}

/// Whether gathering `delta_ms` more milliseconds at speed `s.speed` makes
/// the tick timer reach one period.
pub open spec fn spec_tick_fires(s: SnakeView, delta_ms: u32) -> bool {
    s.wait_acc + delta_ms * s.speed >= TICK_PERIOD_UNITS
}

/// The snake after the tick timer has gathered `delta_ms` milliseconds; on a
/// firing tick the timer keeps the remainder past the period.
pub open spec fn spec_after_timer(s: SnakeView, delta_ms: u32) -> SnakeView {
    if spec_tick_fires(s, delta_ms) {
        SnakeView {
            wait_acc: ((s.wait_acc + delta_ms * s.speed) % (TICK_PERIOD_UNITS as int)) as u64,
            ..s
        }
    } else {
        SnakeView { wait_acc: (s.wait_acc + delta_ms * s.speed) as u64, ..s }
    }
}

/// The snake after a tick commit: the head moves onto its target and aims
/// one step further in its current direction, and every body segment moves
/// onto its own target and retargets its predecessor's pre-tick target (the
/// head's pre-tick target — the cell the head now rests on — for segment 0).
pub open spec fn spec_commit(s: SnakeView) -> SnakeView {
    SnakeView {
        pos: s.target_position,
        target_position: spec_step(s.target_position, s.direction),
        bodies: Seq::new(
            s.bodies.len(),
            |i: int|
                SnakeBody {
                    pos: s.bodies[i].target_position,
                    target_position: if i == 0 {
                        s.target_position
                    } else {
                        s.bodies[i - 1].target_position
                    },
                },
        ),
        ..s
    }
}

/// Chain-following law: at every tick commit, whatever the snake's length,
/// each body segment moves onto its own pre-tick target and retargets its
/// predecessor's pre-tick target — the head's pre-tick target for segment 0,
/// which is exactly the cell the head commits to.
pub proof fn lemma_chain_follows_leader(s: SnakeView)
    ensures
        spec_commit(s).bodies.len() == s.bodies.len(),
        forall|i: int|
            0 <= i < s.bodies.len() ==> (#[trigger] spec_commit(s).bodies[i]).pos
                == s.bodies[i].target_position,
        forall|i: int|
            0 <= i < s.bodies.len() ==> (#[trigger] spec_commit(s).bodies[i]).target_position
                == if i == 0 {
                s.target_position
            } else {
                s.bodies[i - 1].target_position
            },
        spec_commit(s).pos == s.target_position,
{
}

/// The segment appended when the snake grows: it targets the cell the last
/// segment (the head, if there is none) committed to, and rests one step
/// behind it, against that segment's direction of travel.
pub open spec fn spec_new_tail(s: SnakeView) -> SnakeBody {
    if s.bodies.len() == 0 {
        SnakeBody {
            target_position: s.pos,
            pos: Pos {
                x: (s.pos.x - s.direction.spec_norm().x) as i32,
                z: (s.pos.z - s.direction.spec_norm().z) as i32,
            },
        }
    } else {
        let last = s.bodies.last();
        SnakeBody {
            target_position: last.pos,
            pos: Pos {
                x: (last.pos.x - (last.target_position.x - last.pos.x)) as i32,
                z: (last.pos.z - (last.target_position.z - last.pos.z)) as i32,
            },
        }
    }
}

/// The snake after growing by one segment, with the speed boost applied when
/// the new body count is a boost threshold.
pub open spec fn spec_grow(s: SnakeView) -> SnakeView {
    SnakeView {
        bodies: s.bodies.push(spec_new_tail(s)),
        speed: if spec_boost_len(s.bodies.len() as int + 1) {
            (s.speed + 1) as u32
        } else {
            s.speed
        },
        ..s
    }
}

impl Snake {
    /// The cell the head will move toward after the current target commits.
    pub fn get_next_target(&self) -> (t: Pos)
        requires
            i32::MIN < self.pos.x < i32::MAX,
            i32::MIN < self.pos.z < i32::MAX,
        ensures
            t == spec_step(self.pos, self.direction),
    {
        let norm = self.direction.norm();
        Pos { x: self.pos.x + norm.x, z: self.pos.z + norm.z }
    }

    /// Sample a latched direction request. A request pointing straight back
    /// into the neck is refused and leaves the snake unchanged.
    pub fn request_direction(&mut self, d: Direction) -> (accepted: bool)
        ensures
            accepted == (d != old(self).direction.spec_opposite()),
            final(self)@ == spec_apply_input(old(self)@, Some(d)),
    {
        if d == self.direction.opposite() {
            false
        } else {
            self.direction = d;
            true
        }
    }

    /// Gather `delta_ms` milliseconds into the speed-scaled tick timer and
    /// report whether a tick commits this frame (at most one per frame).
    pub fn tick_timer(&mut self, delta_ms: u32) -> (fired: bool)
        requires
            old(self)@.wf(),
        ensures
            fired == spec_tick_fires(old(self)@, delta_ms),
            final(self)@ == spec_after_timer(old(self)@, delta_ms),
            final(self)@.wf(),
    {
        let d: u64 = delta_ms as u64;
        let sp: u64 = self.speed as u64;
        proof {
            assert(sp <= 8);
            assert(d * sp <= d * 8) by (nonlinear_arith)
                requires
                    sp <= 8,
                    0 <= d,
            ;
        }
        let acc: u64 = self.wait_acc + d * sp;
        if acc >= TICK_PERIOD_UNITS {
            self.wait_acc = acc % TICK_PERIOD_UNITS;
            true
        } else {
            self.wait_acc = acc;
            false
        }
    }

    /// Commit one tick: the head moves onto its target cell and aims one
    /// step further; each body segment moves onto its own target and
    /// retargets its predecessor's pre-tick target (the head's pre-tick
    /// target for segment 0), so the chain follows the leader one cell
    /// behind.
    pub fn commit_tick(&mut self)
        requires
            old(self)@.wf(),
            i32::MIN < old(self).target_position.x < i32::MAX,
            i32::MIN < old(self).target_position.z < i32::MAX,
        ensures
            final(self)@ == spec_commit(old(self)@),
            final(self)@.wf(),
    {
        let ghost pre = self@;
        let new_pos = self.target_position;
        self.pos = new_pos;
        self.target_position = self.get_next_target();
        let mut prev_target: Pos = new_pos;
        let mut i: usize = 0;
        while i < self.bodies.len()
            invariant
                i <= self.bodies.len(),
                self.bodies.len() == pre.bodies.len(),
                self.pos == pre.target_position,
                self.target_position == spec_step(pre.target_position, pre.direction),
                self.direction == pre.direction,
                self.speed == pre.speed,
                self.wait_acc == pre.wait_acc,
                prev_target == if i == 0 {
                    pre.target_position
                } else {
                    pre.bodies[i - 1].target_position
                },
                forall|j: int|
                    0 <= j < i ==> #[trigger] self.bodies@[j] == spec_commit(pre).bodies[j],
                forall|j: int| i <= j < self.bodies.len() ==> self.bodies@[j] == pre.bodies[j],
            decreases self.bodies.len() - i,
        {
            let mut b = self.bodies[i];
            let next_prev = b.target_position;
            b.pos = b.target_position;
            b.target_position = prev_target;
            self.bodies.set(i, b);
            prev_target = next_prev;
            i += 1;
        }
        proof {
            assert(self@.bodies =~= spec_commit(pre).bodies);
            assert(self@ =~= spec_commit(pre));
            assert forall|j: int| 0 <= j < self@.bodies.len() implies spec_adjacent(
                #[trigger] self@.bodies[j].pos,
                self@.bodies[j].target_position,
            ) by {
                if j == 0 {
                    assert(pre.bodies[0].target_position == pre.pos);
                } else {
                    assert(pre.bodies[j].target_position == pre.bodies[j - 1].pos);
                }
            }
        }
    }

    /// Append one trailing segment (the growth that follows a food
    /// consumption) and apply the speed boost when the new body count is a
    /// boost threshold. Reports whether the speed rose.
    pub fn grow(&mut self) -> (boosted: bool)
        requires
            old(self)@.wf(),
            old(self).bodies.len() < usize::MAX,
            old(self).bodies.len() == 0 ==> i32::MIN < old(self).pos.x < i32::MAX && i32::MIN
                < old(self).pos.z < i32::MAX,
            old(self).bodies.len() > 0 ==> i32::MIN < old(self).bodies@.last().pos.x < i32::MAX
                && i32::MIN < old(self).bodies@.last().pos.z < i32::MAX,
        ensures
            final(self)@ == spec_grow(old(self)@),
            boosted == spec_boost_len(old(self)@.bodies.len() as int + 1),
            final(self)@.wf(),
            final(self).speed >= old(self).speed,
    {
        let ghost pre = self@;
        let tail: SnakeBody = if self.bodies.len() == 0 {
            let norm = self.direction.norm();
            SnakeBody {
                target_position: self.pos,
                pos: Pos { x: self.pos.x - norm.x, z: self.pos.z - norm.z },
            }
        } else {
            let last = self.bodies[self.bodies.len() - 1];
            let dx = last.target_position.x - last.pos.x;
            let dz = last.target_position.z - last.pos.z;
            SnakeBody {
                target_position: last.pos,
                pos: Pos { x: last.pos.x - dx, z: last.pos.z - dz },
            }
        };
        proof {
            assert(tail == spec_new_tail(pre));
        }
        self.bodies.push(tail);
        let boosted = is_boost_len(self.bodies.len());
        if boosted {
            proof {
                assert(self.speed <= BASE_SPEED + 5);
            }
            self.speed = self.speed + 1;
        }
        proof {
            lemma_speed_step(pre.bodies.len() as int);
            assert(self@ == spec_grow(pre));
        }
        boosted
    }

    /// The head's continuous position for rendering, in thousandths of a
    /// cell: it slides from the committed cell toward the target cell in
    /// proportion to the tick fraction already gathered.
    pub fn render_pos_milli(&self) -> (r: (i64, i64))
        requires
            self@.wf(),
        ensures
            r.0 == self.pos.x * 1000 + (self.target_position.x - self.pos.x) * self.wait_acc,
            r.1 == self.pos.z * 1000 + (self.target_position.z - self.pos.z) * self.wait_acc,
    {
        interp_milli(self.pos, self.target_position, self.wait_acc)
    }

    /// Body segment `i`'s continuous position for rendering, in thousandths
    /// of a cell, sliding from its committed cell toward its target cell by
    /// the same tick fraction as the head.
    pub fn body_render_pos_milli(&self, i: usize) -> (r: (i64, i64))
        requires
            self@.wf(),
            i < self.bodies.len(),
        ensures
            r.0 == self.bodies@[i as int].pos.x * 1000 + (self.bodies@[i as int].target_position.x
                - self.bodies@[i as int].pos.x) * self.wait_acc,
            r.1 == self.bodies@[i as int].pos.z * 1000 + (self.bodies@[i as int].target_position.z
                - self.bodies@[i as int].pos.z) * self.wait_acc,
    {
        let b = self.bodies[i];
        interp_milli(b.pos, b.target_position, self.wait_acc)
    }
}

/// Linear interpolation from `from` toward `to` (two cells at most one step
/// apart) by `acc` thousandths, reported in thousandths of a cell.
fn interp_milli(from: Pos, to: Pos, acc: u64) -> (r: (i64, i64))
    requires
        spec_adjacent(from, to),
        acc < TICK_PERIOD_UNITS,
    ensures
        r.0 == from.x * 1000 + (to.x - from.x) * acc,
        r.1 == from.z * 1000 + (to.z - from.z) * acc,
{
    let bx = (from.x as i64) * 1000;
    let bz = (from.z as i64) * 1000;
    let frac = acc as i64;
    let x: i64;
    if to.x > from.x {
        proof {
            assert(to.x - from.x == 1);
            assert((to.x - from.x) * acc == acc);
        }
        x = bx + frac;
    } else if to.x < from.x {
        proof {
            assert(to.x - from.x == -1);
            assert((to.x - from.x) * acc == -(acc as int));
        }
        x = bx - frac;
    } else {
        proof {
            assert((to.x - from.x) * acc == 0) by (nonlinear_arith)
                requires
                    to.x == from.x,
            ;
        }
        x = bx;
    }
    let z: i64;
    if to.z > from.z {
        proof {
            assert(to.z - from.z == 1);
            assert((to.z - from.z) * acc == acc);
        }
        z = bz + frac;
    } else if to.z < from.z {
        proof {
            assert(to.z - from.z == -1);
            assert((to.z - from.z) * acc == -(acc as int));
        }
        z = bz - frac;
    } else {
        proof {
            assert((to.z - from.z) * acc == 0) by (nonlinear_arith)
                requires
                    to.z == from.z,
            ;
        }
        z = bz;
    }
    (x, z)
}

} // verus!

