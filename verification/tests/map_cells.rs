use snake_core::grid::CellAnim;
use snake_core::grid::Grid;
use snake_core::map::MapState;
use snake_core::map::deactivate_count;
use snake_core::Signal;
use snake_core::MAP_SIZE;

#[test]
fn fresh_grid_has_all_cells_walkable_in_row_order() {
    let g = Grid::new();
    assert_eq!(g.cells.len(), MAP_SIZE * MAP_SIZE);
    for (k, c) in g.cells.iter().enumerate() {
        assert_eq!(c.pos, (k / MAP_SIZE, k % MAP_SIZE));
        assert!(c.walkable);
        assert!(matches!(c.anim, CellAnim::Idle));
    }
}

#[test]
fn all_cells_reports_id_position_and_walkable() {
    let mut g = Grid::new();
    g.set_walkable(30, false);
    let rows = g.all_cells();
    assert_eq!(rows.len(), MAP_SIZE * MAP_SIZE);
    assert_eq!(rows[0], (0, (0, 0), true));
    assert_eq!(rows[30], (30, (1, 5), false));
    assert_eq!(rows[624], (624, (24, 24), true));
}

#[test]
fn set_walkable_resets_animation_state() {
    let mut g = Grid::new();
    g.set_walkable(7, false);
    assert!(!g.cells[7].walkable);
    assert!(matches!(g.cells[7].anim, CellAnim::Sunk));
    g.set_walkable(7, true);
    assert!(g.cells[7].walkable);
    assert!(matches!(g.cells[7].anim, CellAnim::Idle));
}

#[test]
fn deactivation_keeps_cell_walkable_until_it_completes() {
    let mut g = Grid::new();
    let ids = vec![42usize];
    g.start_deactivations(&ids);
    assert!(matches!(g.cells[42].anim, CellAnim::Deactivating { elapsed_ms: 0 }));
    assert!(g.cells[42].walkable, "warning and sinking phases stay walkable");
    let mut sigs = Vec::new();
    g.advance_cells(1999, &mut sigs);
    assert!(g.cells[42].walkable);
    assert!(sigs.is_empty());
    g.advance_cells(1, &mut sigs);
    assert!(!g.cells[42].walkable);
    assert!(matches!(g.cells[42].anim, CellAnim::Sunk));
    assert_eq!(sigs, vec![Signal::CellDeactivated { id: 42 }]);
}

#[test]
fn cell_round_trip_returns_to_walkable_with_no_residual_state() {
    // A cell that completes deactivation and then completes reactivation is
    // walkable again with no animation state left attached.
    let mut g = Grid::new();
    let ids = vec![100usize];
    let before = g.cells[100];
    g.start_deactivations(&ids);
    let mut sigs = Vec::new();
    g.advance_cells(2000, &mut sigs);
    assert!(!g.cells[100].walkable);
    assert!(matches!(g.cells[100].anim, CellAnim::Sunk));
    g.start_reactivations();
    assert!(matches!(g.cells[100].anim, CellAnim::Reactivating { elapsed_ms: 0 }));
    assert!(!g.cells[100].walkable, "a rising cell is safe only once risen");
    g.advance_cells(2000, &mut sigs);
    assert!(g.cells[100].walkable);
    assert!(matches!(g.cells[100].anim, CellAnim::Idle));
    assert_eq!(g.cells[100], before);
    assert_eq!(
        sigs,
        vec![Signal::CellDeactivated { id: 100 }, Signal::CellReactivated { id: 100 }],
    );
}

#[test]
fn warning_phase_lasts_1500_ms() {
    let mut g = Grid::new();
    let ids = vec![5usize];
    g.start_deactivations(&ids);
    let mut sigs = Vec::new();
    assert!(g.cells[5].in_warning_phase());
    g.advance_cells(1499, &mut sigs);
    assert!(g.cells[5].in_warning_phase());
    g.advance_cells(1, &mut sigs);
    assert!(!g.cells[5].in_warning_phase(), "sinking after 1500 ms");
    assert!(g.cells[5].walkable);
}

#[test]
fn deactivation_skips_cells_already_animating_or_sunk() {
    let mut g = Grid::new();
    g.set_walkable(9, false); // sunk
    let ids = vec![9usize, 10, 10];
    g.start_deactivations(&ids);
    assert!(matches!(g.cells[9].anim, CellAnim::Sunk));
    assert!(matches!(g.cells[10].anim, CellAnim::Deactivating { elapsed_ms: 0 }));
}

#[test]
fn reactivation_starts_only_on_sunk_cells() {
    let mut g = Grid::new();
    g.set_walkable(3, false);
    let ids = vec![4usize];
    g.start_deactivations(&ids);
    g.start_reactivations();
    assert!(matches!(g.cells[3].anim, CellAnim::Reactivating { elapsed_ms: 0 }));
    assert!(matches!(g.cells[4].anim, CellAnim::Deactivating { elapsed_ms: 0 }));
    assert!(matches!(g.cells[5].anim, CellAnim::Idle));
}

#[test]
fn deactivate_count_follows_the_capped_time_ramp() {
    // At 45 s of play: min(25, 10 + floor(45 / 20)) = min(25, 12) = 12.
    assert_eq!(deactivate_count(45_000), 12);
    assert_eq!(deactivate_count(0), 10);
    assert_eq!(deactivate_count(19_999), 10);
    assert_eq!(deactivate_count(20_000), 11);
    assert_eq!(deactivate_count(100_000), 15);
    assert_eq!(deactivate_count(299_999), 24);
    assert_eq!(deactivate_count(300_000), 25);
    assert_eq!(deactivate_count(10_000_000), 25, "the count is capped at 25");
}

#[test]
fn map_state_timer_fires_every_five_seconds() {
    let mut m = MapState::new();
    assert_eq!(m.score, 0);
    assert!(m.tick(4999).is_none());
    assert_eq!(m.time_elapsed_ms, 4999);
    let fire = m.tick(1);
    assert_eq!(fire, Some(10));
    assert_eq!(m.map_change_acc_ms, 0);
    assert!(m.tick(1000).is_none());
    // 45 s of play time in total: the firing reports 12.
    let fire = m.tick(39_001);
    assert_eq!(m.time_elapsed_ms, 45_001);
    assert_eq!(fire, Some(12));
}
