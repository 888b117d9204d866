use game_of_life::universe::{Cell, Rule, Universe, UniverseError};

fn dead_universe(rows: usize, columns: usize) -> Universe {
    Universe::new(rows, columns).unwrap()
}

/// A 3x3 grid with the middle row fully alive.
fn horizontal_blinker() -> Universe {
    let mut universe = dead_universe(3, 3);
    universe.set_alive(1, 0, true);
    universe.set_alive(1, 1, true);
    universe.set_alive(1, 2, true);
    universe
}

fn assert_only_alive(universe: &Universe, alive: &[(usize, usize)]) {
    for row in 0..universe.rows() {
        for column in 0..universe.columns() {
            let expected = alive.contains(&(row, column));
            assert_eq!(
                universe.get(row, column),
                expected,
                "cell ({}, {})",
                row,
                column
            );
        }
    }
}

#[test]
fn cell_constructors_report_their_state() {
    assert!(Cell::alive().is_alive());
    assert!(!Cell::dead().is_alive());
}

#[test]
fn new_rejects_zero_dimensions() {
    assert!(matches!(
        Universe::new(0, 5),
        Err(UniverseError::InvalidDimensions)
    ));
    assert!(matches!(
        Universe::new(5, 0),
        Err(UniverseError::InvalidDimensions)
    ));
}

#[test]
fn new_random_rejects_zero_dimensions() {
    assert!(matches!(
        Universe::new_random(0, 3),
        Err(UniverseError::InvalidDimensions)
    ));
    assert!(matches!(
        Universe::new_random(3, 0),
        Err(UniverseError::InvalidDimensions)
    ));
}

#[test]
fn new_builds_a_dead_grid() {
    let universe = dead_universe(3, 4);
    assert_eq!(universe.rows(), 3);
    assert_eq!(universe.columns(), 4);
    assert_only_alive(&universe, &[]);
}

#[test]
fn tick_preserves_dimensions() {
    let mut universe = Universe::from_seed(4, 5, 12345).unwrap();
    for _ in 0..3 {
        universe.tick();
        assert_eq!(universe.rows(), 4);
        assert_eq!(universe.columns(), 5);
    }
}

#[test]
fn dead_cell_with_three_neighbors_is_born() {
    let mut universe = dead_universe(3, 3);
    universe.set_alive(0, 0, true);
    universe.set_alive(0, 1, true);
    universe.set_alive(0, 2, true);
    assert_eq!(universe.count_alive_neighbors(1, 1), 3);
    universe.tick();
    assert!(universe.get(1, 1));
}

#[test]
fn live_cell_with_two_or_three_neighbors_survives() {
    // (1, 1) has two alive neighbors.
    let mut universe = dead_universe(3, 3);
    universe.set_alive(1, 0, true);
    universe.set_alive(1, 1, true);
    universe.set_alive(1, 2, true);
    assert_eq!(universe.count_alive_neighbors(1, 1), 2);
    universe.tick();
    assert!(universe.get(1, 1));

    // (1, 1) has three alive neighbors.
    let mut universe = dead_universe(3, 3);
    universe.set_alive(1, 0, true);
    universe.set_alive(1, 1, true);
    universe.set_alive(1, 2, true);
    universe.set_alive(0, 1, true);
    assert_eq!(universe.count_alive_neighbors(1, 1), 3);
    universe.tick();
    assert!(universe.get(1, 1));
}

#[test]
fn live_cell_with_too_few_or_too_many_neighbors_dies() {
    // No neighbors.
    let mut universe = dead_universe(3, 3);
    universe.set_alive(1, 1, true);
    assert_eq!(universe.count_alive_neighbors(1, 1), 0);
    universe.tick();
    assert!(!universe.get(1, 1));

    // One neighbor.
    let mut universe = dead_universe(3, 3);
    universe.set_alive(1, 1, true);
    universe.set_alive(0, 0, true);
    assert_eq!(universe.count_alive_neighbors(1, 1), 1);
    universe.tick();
    assert!(!universe.get(1, 1));

    // Four neighbors.
    let mut universe = dead_universe(3, 3);
    universe.set_alive(1, 1, true);
    universe.set_alive(0, 0, true);
    universe.set_alive(0, 2, true);
    universe.set_alive(2, 0, true);
    universe.set_alive(2, 2, true);
    assert_eq!(universe.count_alive_neighbors(1, 1), 4);
    universe.tick();
    assert!(!universe.get(1, 1));
}

#[test]
fn dead_grid_stays_dead() {
    let mut universe = dead_universe(4, 4);
    for _ in 0..5 {
        universe.tick();
        assert_only_alive(&universe, &[]);
    }
}

#[test]
fn blinker_oscillates_with_period_two() {
    let mut universe = horizontal_blinker();
    universe.tick();
    assert_only_alive(&universe, &[(0, 1), (1, 1), (2, 1)]);
    universe.tick();
    assert_only_alive(&universe, &[(1, 0), (1, 1), (1, 2)]);
}

#[test]
fn from_seed_is_deterministic() {
    let first = Universe::from_seed(6, 7, 987654321).unwrap();
    let second = Universe::from_seed(6, 7, 987654321).unwrap();
    for row in 0..6 {
        for column in 0..7 {
            assert_eq!(first.get(row, column), second.get(row, column));
        }
    }
}

#[test]
fn from_seed_is_not_all_dead_for_some_seed() {
    // The generator's stream decides the cells, so this fixed seed must
    // light at least one cell in a grid this large.
    let universe = Universe::from_seed(8, 8, 42).unwrap();
    let mut any_alive = false;
    for row in 0..8 {
        for column in 0..8 {
            if universe.get(row, column) {
                any_alive = true;
            }
        }
    }
    assert!(any_alive);
}

#[test]
fn snapshot_copies_the_grid() {
    let mut universe = Universe::from_seed(5, 4, 2024).unwrap();
    let snapshot = universe.snapshot();
    assert_eq!(snapshot.rows(), 5);
    assert_eq!(snapshot.columns(), 4);
    for row in 0..5 {
        for column in 0..4 {
            assert_eq!(snapshot.get(row, column), universe.get(row, column));
        }
    }
    // The copy keeps no tie to the live universe.
    universe.tick();
    assert_eq!(snapshot.rows(), 5);
    assert_eq!(snapshot.columns(), 4);
}

#[test]
fn iter_cells_lists_every_cell_in_row_major_order() {
    let universe = Universe::from_seed(3, 4, 7).unwrap();
    let points = universe.iter_cells();
    assert_eq!(points.len(), 12);
    for row in 0..3 {
        for column in 0..4 {
            let point = points[row * 4 + column];
            assert_eq!(point.row(), row);
            assert_eq!(point.column(), column);
            assert_eq!(point.cell().is_alive(), universe.get(row, column));
        }
    }
}

#[test]
fn rule_new_rejects_incomplete_tables() {
    let result = Rule::new(vec![false; 8], vec![false; 9]);
    assert!(matches!(result, Err(UniverseError::InvalidDimensions)));
    let result = Rule::new(vec![false; 9], vec![false; 10]);
    assert!(matches!(result, Err(UniverseError::InvalidDimensions)));
}

#[test]
fn custom_thresholds_change_the_transition() {
    // Birth on exactly one neighbor, survival never.
    let mut birth = vec![false; 9];
    birth[1] = true;
    let survival = vec![false; 9];
    let rule = Rule::new(birth, survival).unwrap();

    let mut universe = dead_universe(3, 3);
    universe.rule = rule;
    universe.set_alive(1, 1, true);
    universe.tick();

    // Every neighbor of the center had exactly one alive neighbor; the
    // center itself survives nothing.
    assert_only_alive(
        &universe,
        &[
            (0, 0),
            (0, 1),
            (0, 2),
            (1, 0),
            (1, 2),
            (2, 0),
            (2, 1),
            (2, 2),
        ],
    );
}
