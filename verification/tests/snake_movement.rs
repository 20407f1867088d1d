use snake_core::player::Direction;
use snake_core::player::Pos;
use snake_core::player::Snake;
use snake_core::player::SnakeBody;
use snake_core::player::is_boost_len;

#[test]
fn default_snake_starts_at_grid_centre() {
    let s = Snake::default();
    assert_eq!(s.pos, Pos { x: 12, z: 12 });
    assert_eq!(s.target_position, Pos { x: 12, z: 11 });
    assert!(matches!(s.direction, Direction::Up));
    assert_eq!(s.speed, 3);
    assert_eq!(s.wait_acc, 0);
    assert_eq!(s.bodies.len(), 0);
}

#[test]
fn one_tick_moves_head_one_cell_up() {
    // Grid 25x25, snake at (12, 12) heading up at speed 3: after one tick the
    // head rests on (12, 11) (x, z of the x/0/z world) and aims at (12, 10).
    let mut s = Snake::default();
    let fired = s.tick_timer(334);
    assert!(fired, "334 ms at speed 3 gathers 1002 >= 1000 units");
    s.commit_tick();
    assert_eq!(s.pos, Pos { x: 12, z: 11 });
    assert_eq!(s.target_position, Pos { x: 12, z: 10 });
}

#[test]
fn tick_timer_accumulates_speed_scaled_time() {
    let mut s = Snake::default();
    assert!(!s.tick_timer(100)); // 300 units
    assert_eq!(s.wait_acc, 300);
    assert!(!s.tick_timer(233)); // 999 units
    assert_eq!(s.wait_acc, 999);
    assert!(s.tick_timer(1)); // 1002 units, fires, keeps remainder
    assert_eq!(s.wait_acc, 2);
}

#[test]
fn first_growth_appends_segment_targeting_head_cell() {
    // A snake with zero segments grows: exactly one segment appended, speed
    // unchanged (the first threshold of 5 is not reached), and the segment's
    // initial target is the head's current grid cell.
    let mut s = Snake::default();
    let boosted = s.grow();
    assert!(!boosted);
    assert_eq!(s.bodies.len(), 1);
    assert_eq!(s.speed, 3);
    assert_eq!(s.bodies[0].target_position, Pos { x: 12, z: 12 });
    // The new segment trails one cell behind, against the travel direction.
    assert_eq!(s.bodies[0].pos, Pos { x: 12, z: 13 });
}

#[test]
fn chain_follows_the_leader_each_tick() {
    let mut s = Snake::default();
    s.grow();
    s.grow();
    // Record the pre-tick targets.
    let head_target = s.target_position;
    let seg0_target = s.bodies[0].target_position;
    let seg1_target = s.bodies[1].target_position;
    assert!(s.tick_timer(400));
    s.commit_tick();
    // Every segment commits onto its own old target and retargets its
    // predecessor's pre-tick target (the head's pre-tick target for segment
    // 0, which is the cell the head now rests on).
    assert_eq!(s.pos, head_target);
    assert_eq!(s.bodies[0].pos, seg0_target);
    assert_eq!(s.bodies[0].target_position, head_target);
    assert_eq!(s.bodies[1].pos, seg1_target);
    assert_eq!(s.bodies[1].target_position, seg0_target);
}

#[test]
fn speed_rises_by_one_at_each_threshold_exactly_once() {
    let mut s = Snake::default();
    let mut boosts = Vec::new();
    for _ in 0..45 {
        let before = s.speed;
        let boosted = s.grow();
        let after = s.speed;
        assert!(after >= before, "speed is monotonically non-decreasing");
        if boosted {
            assert_eq!(after, before + 1);
            boosts.push(s.bodies.len());
        } else {
            assert_eq!(after, before);
        }
    }
    assert_eq!(boosts, vec![5, 10, 20, 30, 40]);
    assert_eq!(s.speed, 3 + 5);
}

#[test]
fn boost_lengths_are_the_five_thresholds() {
    for n in 0..50usize {
        let expected = n == 5 || n == 10 || n == 20 || n == 30 || n == 40;
        assert_eq!(is_boost_len(n), expected);
    }
}

#[test]
fn reverse_direction_request_is_rejected() {
    // Direction currently Right; a request for Left (the reverse) is refused
    // and the direction remains Right.
    let mut s = Snake::default();
    assert!(s.request_direction(Direction::Right));
    assert!(matches!(s.direction, Direction::Right));
    let accepted = s.request_direction(Direction::Left);
    assert!(!accepted);
    assert!(matches!(s.direction, Direction::Right));
    // Orthogonal turns are accepted.
    assert!(s.request_direction(Direction::Down));
    assert!(matches!(s.direction, Direction::Down));
}

#[test]
fn direction_norms_are_unit_axis_steps() {
    assert_eq!(Direction::Up.norm(), Pos { x: 0, z: -1 });
    assert_eq!(Direction::Down.norm(), Pos { x: 0, z: 1 });
    assert_eq!(Direction::Left.norm(), Pos { x: -1, z: 0 });
    assert_eq!(Direction::Right.norm(), Pos { x: 1, z: 0 });
    assert!(matches!(Direction::Up.opposite(), Direction::Down));
    assert!(matches!(Direction::Left.opposite(), Direction::Right));
}

#[test]
fn render_position_interpolates_in_millicells() {
    let mut s = Snake::default();
    assert_eq!(s.render_pos_milli(), (12000, 12000));
    s.tick_timer(100); // 300 units toward (12, 11)
    assert_eq!(s.render_pos_milli(), (12000, 11700));
}

#[test]
fn body_render_position_interpolates_toward_its_target() {
    let mut s = Snake::default();
    s.grow();
    // Segment: pos (12, 13) moving toward (12, 12).
    s.tick_timer(100); // 300 units
    assert_eq!(s.body_render_pos_milli(0), (12000, 12700));
}

#[test]
fn snake_body_new_rests_at_its_cell() {
    let b = SnakeBody::new(Pos { x: 3, z: 4 });
    assert_eq!(b.target_position, Pos { x: 3, z: 4 });
    assert_eq!(b.pos, Pos { x: 3, z: 4 });
}
