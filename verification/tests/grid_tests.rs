use game_of_life::grid::{
    GameOfLifeUniverseGrid, GridEffect, UniverseGridMode, UniverseGridRequest,
};
use game_of_life::universe::{Rule, Universe};

fn idle_grid(rows: usize, columns: usize) -> GameOfLifeUniverseGrid {
    GameOfLifeUniverseGrid::new(Universe::new(rows, columns).unwrap())
}

#[test]
fn a_new_grid_is_idle_and_unfrozen() {
    let grid = idle_grid(3, 3);
    assert!(!grid.is_running());
    assert!(!grid.frozen());
    assert!(!grid.prefers_dark_mode());
    assert_eq!(grid.mode(), UniverseGridMode::Run);
}

#[test]
fn halt_right_after_run_leaves_the_grid_idle() {
    let mut grid = idle_grid(3, 3);
    grid.run();
    assert!(grid.is_running());
    grid.halt();
    assert!(!grid.is_running());

    // Once the loop observes the revocation it emits nothing further and
    // leaves the universe untouched.
    let before = grid.get_universe_snapshot();
    let emitted = grid.loop_step(true);
    assert!(!emitted);
    let after = grid.get_universe_snapshot();
    for row in 0..3 {
        for column in 0..3 {
            assert_eq!(before.get(row, column), after.get(row, column));
        }
    }
}

#[test]
fn halt_is_idempotent() {
    let mut grid = idle_grid(2, 2);
    grid.halt();
    assert!(!grid.is_running());
    grid.halt();
    assert!(!grid.is_running());
}

#[test]
fn loop_step_advances_one_generation() {
    let mut universe = Universe::new(3, 3).unwrap();
    universe.set_alive(1, 0, true);
    universe.set_alive(1, 1, true);
    universe.set_alive(1, 2, true);
    let mut grid = GameOfLifeUniverseGrid::new(universe);
    grid.run();

    let emitted = grid.loop_step(false);
    assert!(emitted);
    let snapshot = grid.get_universe_snapshot();
    for row in 0..3 {
        for column in 0..3 {
            assert_eq!(snapshot.get(row, column), column == 1);
        }
    }
}

#[test]
fn freeze_then_unfreeze_redraws_exactly_once() {
    let mut grid = idle_grid(3, 3);

    let mut redraws: usize = 0;
    let effect = grid.process_action(UniverseGridRequest::Freeze);
    if effect == GridEffect::QueueDraw {
        redraws += 1;
    }
    assert!(grid.frozen());

    let effect = grid.process_action(UniverseGridRequest::Unfreeze);
    if effect == GridEffect::QueueDraw {
        redraws += 1;
    }
    assert!(!grid.frozen());
    assert_eq!(redraws, 1);
}

#[test]
fn mode_changes_are_rejected_while_running() {
    let mut grid = idle_grid(2, 3);
    grid.run();
    grid.set_mode(UniverseGridMode::Design);
    assert_eq!(grid.mode(), UniverseGridMode::Run);
    grid.halt();
    grid.set_mode(UniverseGridMode::Design);
    assert_eq!(grid.mode(), UniverseGridMode::Design);
}

#[test]
fn run_requests_the_loop_and_halt_revokes_it() {
    let mut grid = idle_grid(2, 2);
    let effect = grid.process_action(UniverseGridRequest::Run);
    assert_eq!(effect, GridEffect::StartLoop);
    assert!(grid.is_running());
    let effect = grid.process_action(UniverseGridRequest::Halt);
    assert_eq!(effect, GridEffect::StopLoop);
    assert!(!grid.is_running());
}

#[test]
fn redraw_requests_ask_for_a_repaint_and_change_nothing() {
    let mut grid = idle_grid(2, 2);
    let effect = grid.process_action(UniverseGridRequest::Redraw);
    assert_eq!(effect, GridEffect::QueueDraw);
    assert!(!grid.is_running());
    assert!(!grid.frozen());
}

#[test]
fn dark_scheme_preference_is_recorded() {
    let mut grid = idle_grid(2, 2);
    let effect = grid.process_action(UniverseGridRequest::DarkColorSchemePreference(true));
    assert_eq!(effect, GridEffect::Noop);
    assert!(grid.prefers_dark_mode());
    grid.set_prefers_dark_mode(false);
    assert!(!grid.prefers_dark_mode());
}

#[test]
fn mode_requests_go_through_the_channel_too() {
    let mut grid = idle_grid(2, 2);
    let effect = grid.process_action(UniverseGridRequest::Mode(UniverseGridMode::Design));
    assert_eq!(effect, GridEffect::Noop);
    assert_eq!(grid.mode(), UniverseGridMode::Design);
}

#[test]
fn random_seed_keeps_the_dimensions() {
    let mut grid = GameOfLifeUniverseGrid::new(Universe::new_random(10, 20).unwrap());
    for _ in 0..3 {
        grid.loop_step(false);
    }
    let effect = grid.random_seed();
    assert_eq!(effect, GridEffect::QueueDraw);
    let snapshot = grid.get_universe_snapshot();
    assert_eq!(snapshot.rows(), 10);
    assert_eq!(snapshot.columns(), 20);
}

#[test]
fn random_seed_installs_the_classic_rule() {
    let mut universe = Universe::new(4, 4).unwrap();
    let mut birth = vec![false; 9];
    birth[1] = true;
    universe.rule = Rule::new(birth, vec![false; 9]).unwrap();
    let mut grid = GameOfLifeUniverseGrid::new(universe);

    grid.random_seed();
    for count in 0..9 {
        assert_eq!(grid.universe.rule.birth[count], count == 3);
        assert_eq!(grid.universe.rule.survival[count], count == 2 || count == 3);
    }
}

#[test]
fn snapshots_stay_consistent_across_a_run() {
    let mut grid = GameOfLifeUniverseGrid::new(Universe::from_seed(6, 6, 11).unwrap());
    grid.run();
    for round in 0..100 {
        if round % 10 == 0 {
            grid.loop_step(false);
        }
        let snapshot = grid.get_universe_snapshot();
        assert_eq!(snapshot.rows(), 6);
        assert_eq!(snapshot.columns(), 6);
    }
    grid.halt();
    assert!(!grid.is_running());
}
