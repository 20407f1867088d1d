use snake_core::game_flow::check_collision;
use snake_core::game_flow::Session;
use snake_core::grid::Grid;
use snake_core::occupancy::empty_cells;
use snake_core::occupancy::Food;
use snake_core::player::Direction;
use snake_core::player::Pos;
use snake_core::player::Snake;
use snake_core::player::SnakeBody;
use snake_core::Signal;

#[test]
fn bounds_check_fires_one_step_outside_and_never_on_edge_cells() {
    // A head at x == -1 or x == 25 (and the same for z) always terminates;
    // x == 0 or x == 24 never spuriously trips the bounds check.
    let g = Grid::new();
    let mut s = Snake::default();
    for (x, z, expect) in [
        (-1i32, 5i32, true),
        (25, 5, true),
        (5, -1, true),
        (5, 25, true),
        (0, 5, false),
        (24, 5, false),
        (5, 0, false),
        (5, 24, false),
        (0, 0, false),
        (24, 24, false),
    ] {
        s.pos = Pos { x, z };
        assert_eq!(check_collision(&g, &s), expect, "head at ({}, {})", x, z);
    }
}

#[test]
fn head_on_sunk_cell_terminates() {
    let mut g = Grid::new();
    let mut s = Snake::default();
    assert!(!check_collision(&g, &s));
    g.set_walkable(12 * 25 + 12, false);
    assert!(check_collision(&g, &s));
}

#[test]
fn head_on_body_segment_terminates() {
    let g = Grid::new();
    let mut s = Snake::default();
    s.bodies.push(SnakeBody::new(s.pos));
    assert!(check_collision(&g, &s));
}

#[test]
fn body_on_sunk_cell_terminates() {
    let mut g = Grid::new();
    let mut s = Snake::default();
    s.bodies.push(SnakeBody::new(Pos { x: 12, z: 13 }));
    assert!(!check_collision(&g, &s));
    g.set_walkable(12 * 25 + 13, false);
    assert!(check_collision(&g, &s));
}

#[test]
fn fresh_session_has_food_on_an_empty_cell() {
    let s = Session::new();
    assert!(s.active);
    assert_eq!(s.map.score, 0);
    let food = s.food.expect("a fresh grid always offers an empty cell");
    assert!(food.pos.0 < 25 && food.pos.1 < 25);
    // Not under the head's target nor in the origin buffers.
    assert!(food.pos != (12, 11));
    assert!(!(food.pos.0 < 3 && food.pos.1 < 3));
}

#[test]
fn occupancy_excludes_targets_and_origin_buffers() {
    // Both proximity buffers are anchored at the grid origin corner, not at
    // the head or the food — the documented rule of this crate. Fresh grid,
    // default snake (speed 3, so a 3x3 head buffer at the origin), no food:
    // 625 cells minus the buffer (9) minus the head target.
    let g = Grid::new();
    let s = Snake::default();
    let rows = empty_cells(&g, &s, &None);
    assert_eq!(rows.len(), 625 - 9 - 1);
    assert!(!rows.iter().any(|r| r.1 == (12, 11)), "head target excluded");
    assert!(!rows.iter().any(|r| r.1 == (0, 0)), "origin buffer excluded");
    assert!(!rows.iter().any(|r| r.1 == (2, 2)), "origin buffer excluded");
    assert!(rows.iter().any(|r| r.1 == (3, 3)));
    // With food at (3, 3): its own cell is excluded too (the 3x3 food buffer
    // coincides with the head buffer here).
    let rows = empty_cells(&g, &s, &Some(Food { pos: (3, 3) }));
    assert_eq!(rows.len(), 625 - 9 - 1 - 1);
    assert!(!rows.iter().any(|r| r.1 == (3, 3)));
}

#[test]
fn occupancy_skips_non_walkable_cells() {
    let mut g = Grid::new();
    let s = Snake::default();
    g.set_walkable(600, false); // cell (24, 0)
    let rows = empty_cells(&g, &s, &None);
    assert_eq!(rows.len(), 625 - 9 - 1 - 1);
    assert!(!rows.iter().any(|r| r.0 == 600));
    // Rows come in ascending id order.
    for w in rows.windows(2) {
        assert!(w[0].0 < w[1].0);
    }
}

#[test]
fn one_frame_commits_one_tick_and_keeps_the_session_alive() {
    let mut s = Session::new();
    let sigs = s.update(334, None);
    assert!(s.active);
    assert_eq!(s.snake.pos, Pos { x: 12, z: 11 });
    assert_eq!(s.snake.target_position, Pos { x: 12, z: 10 });
    assert!(!sigs.contains(&Signal::GameOver));
    assert!(!sigs.contains(&Signal::DirectionRejected));
    assert_eq!(s.map.time_elapsed_ms, 334);
}

#[test]
fn reverse_input_fires_rejection_cue_and_keeps_direction() {
    // Direction currently Up (the default); a request for Down is the
    // reverse: the rejection cue fires and the direction stays Up.
    let mut s = Session::new();
    let sigs = s.update(1, Some(Direction::Down));
    assert!(sigs.contains(&Signal::DirectionRejected));
    assert!(matches!(s.snake.direction, Direction::Up));
    let sigs = s.update(1, Some(Direction::Left));
    assert!(!sigs.contains(&Signal::DirectionRejected));
    assert!(matches!(s.snake.direction, Direction::Left));
}

#[test]
fn first_scheduler_firing_sinks_ten_cells() {
    // One 5000 ms frame: the mutation timer fires once with the base count of
    // 10, and the frame's delta completes those deactivations at once.
    let mut s = Session::new();
    let sigs = s.update(5000, None);
    assert!(s.active, "the head's landing cell is excluded from selection");
    let sunk = s.map.grid.cells.iter().filter(|c| !c.walkable).count();
    assert_eq!(sunk, 10);
    let deact = sigs
        .iter()
        .filter(|x| matches!(x, Signal::CellDeactivated { .. }))
        .count();
    assert_eq!(deact, 10);
}

#[test]
fn session_runs_to_a_single_game_over_and_freezes() {
    // Left to run with no input, the snake reaches the boundary; the session
    // emits exactly one game-over, and a finished session is frozen: further
    // updates change nothing and yield no signals.
    let mut s = Session::new();
    let mut game_overs = 0;
    let mut last_speed = s.snake.speed;
    for _ in 0..3000 {
        let sigs = s.update(100, None);
        assert!(s.snake.speed >= last_speed, "speed never falls");
        last_speed = s.snake.speed;
        // Consumption, growth and scoring always signal together.
        assert_eq!(
            sigs.contains(&Signal::FoodConsumed),
            sigs.contains(&Signal::SegmentGrown),
        );
        assert_eq!(
            sigs.contains(&Signal::FoodConsumed),
            sigs.contains(&Signal::ScoreIncremented),
        );
        if sigs.contains(&Signal::FoodConsumed) {
            assert!(
                sigs.iter().any(|x| matches!(x, Signal::FoodSpawned { .. })),
                "a consumption is followed by a fresh placement while cells are free",
            );
        }
        if sigs.contains(&Signal::GameOver) {
            game_overs += 1;
            assert!(!s.active);
        }
        if !s.active {
            break;
        }
    }
    assert_eq!(game_overs, 1, "the run must end at the boundary");
    let score = s.map.score;
    let elapsed = s.map.time_elapsed_ms;
    for _ in 0..5 {
        let sigs = s.update(100, Some(Direction::Left));
        assert!(sigs.is_empty(), "a frozen session yields no signals");
    }
    assert_eq!(s.map.score, score);
    assert_eq!(s.map.time_elapsed_ms, elapsed, "a frozen session keeps its state");
}

#[test]
fn same_seed_replays_the_same_session() {
    let mut a = Session::with_seed(7);
    let mut b = Session::with_seed(7);
    assert_eq!(a.food, b.food);
    let turns = [None, Some(Direction::Left), None, Some(Direction::Down), None];
    for turn in turns.iter().cycle().take(200) {
        let sa = a.update(90, *turn);
        let sb = b.update(90, *turn);
        assert_eq!(sa, sb);
        assert_eq!(a.snake.pos, b.snake.pos);
        assert_eq!(a.food, b.food);
        assert_eq!(a.active, b.active);
    }
}

#[test]
fn different_seeds_are_available_for_fresh_sessions() {
    let a = Session::with_seed(1);
    assert!(a.active);
    assert!(a.food.is_some());
    assert_eq!(a.map.score, 0);
}

#[test]
fn score_counts_one_point_per_segment() {
    let mut s = Session::new();
    for _ in 0..2000 {
        s.update(100, None);
        assert_eq!(s.map.score as usize, s.snake.bodies.len());
        if !s.active {
            break;
        }
    }
}
