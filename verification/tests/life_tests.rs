use gpu_life::grid::GameState;

fn grid_with(width: usize, height: usize, live: &[(usize, usize)]) -> GameState {
    let mut g = GameState::new(width, height);
    for &(x, y) in live {
        g.set_cell(x, y, true);
    }
    g
}

#[test]
fn all_dead_is_a_fixed_point() {
    let g = GameState::new(4, 4);
    assert_eq!(g.next_generation(), g);
}

#[test]
fn all_dead_stays_dead_over_many_steps() {
    let start = GameState::new(6, 5);
    let mut g = GameState::new(6, 5);
    for _ in 0..10 {
        g = g.next_generation();
        assert_eq!(g, start);
    }
}

#[test]
fn block_is_a_fixed_point() {
    let g = grid_with(4, 4, &[(1, 1), (2, 1), (1, 2), (2, 2)]);
    assert_eq!(g.next_generation(), g);
}

#[test]
fn lone_cell_dies() {
    let g = grid_with(3, 3, &[(1, 1)]);
    assert_eq!(g.next_generation(), GameState::new(3, 3));
}

#[test]
fn birth_on_exactly_three_neighbors() {
    // An L of three live cells: the corner cell (1, 1) completes a block.
    let g = grid_with(3, 3, &[(0, 1), (0, 0), (1, 0)]);
    let next = g.next_generation();
    assert!(next.cell(1, 1));
    assert!(next.cell(0, 0));
}

#[test]
fn overcrowded_cell_dies() {
    // The center of a plus sign has four live neighbors.
    let g = grid_with(3, 3, &[(1, 1), (0, 1), (2, 1), (1, 0), (1, 2)]);
    assert!(!g.next_generation().cell(1, 1));
}

#[test]
fn blinker_oscillates() {
    // 5x5, clamped edges: a horizontal blinker at row 2, columns 1..=3
    // becomes a vertical blinker at column 2, rows 1..=3, and returns.
    let horizontal = grid_with(5, 5, &[(1, 2), (2, 2), (3, 2)]);
    let vertical = grid_with(5, 5, &[(2, 1), (2, 2), (2, 3)]);
    let one = horizontal.next_generation();
    assert_eq!(one, vertical);
    let two = one.next_generation();
    assert_eq!(two, horizontal);
}

#[test]
fn glider_translates_by_one_one_in_four_steps() {
    // Canonical glider in a 6x6 grid, top-left corner; four generations
    // later the same pattern sits one cell down and one cell right.
    let glider = &[(1, 0), (2, 1), (0, 2), (1, 2), (2, 2)];
    let start = grid_with(6, 6, glider);
    let moved: Vec<(usize, usize)> = glider.iter().map(|&(x, y)| (x + 1, y + 1)).collect();
    let expected = grid_with(6, 6, &moved);
    let mut g = start;
    for _ in 0..4 {
        g = g.next_generation();
    }
    assert_eq!(g, expected);
}
