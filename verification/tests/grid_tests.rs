use gpu_life::grid::GameState;

#[test]
fn new_grid_is_all_dead() {
    let g = GameState::new(3, 2);
    for y in 0..2 {
        for x in 0..3 {
            assert!(!g.cell(x, y));
        }
    }
}

#[test]
fn set_cell_changes_only_that_cell() {
    let mut g = GameState::new(3, 3);
    g.set_cell(1, 2, true);
    for y in 0..3 {
        for x in 0..3 {
            assert_eq!(g.cell(x, y), (x, y) == (1, 2));
        }
    }
    g.set_cell(1, 2, false);
    assert_eq!(g, GameState::new(3, 3));
}

#[test]
fn grids_with_different_cells_are_not_equal() {
    let mut a = GameState::new(2, 2);
    let b = GameState::new(2, 2);
    a.set_cell(0, 0, true);
    assert_ne!(a, b);
    assert_ne!(GameState::new(2, 3), GameState::new(3, 2));
}

#[test]
fn render_marks_live_and_dead_cells() {
    let mut g = GameState::new(2, 2);
    g.set_cell(0, 0, true);
    g.set_cell(1, 1, true);
    assert_eq!(g.render(), "#.\n.#\n");
}

#[test]
fn render_empty_grid_is_empty() {
    assert_eq!(GameState::new(0, 0).render(), "");
}

#[test]
fn render_has_one_line_per_row() {
    let g = GameState::new(4, 3);
    assert_eq!(g.render(), "....\n....\n....\n");
}
