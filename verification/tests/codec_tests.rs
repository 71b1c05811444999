use gpu_life::codec::DecodeError;
use gpu_life::grid::GameState;

fn grid_with(width: usize, height: usize, live: &[(usize, usize)]) -> GameState {
    let mut g = GameState::new(width, height);
    for &(x, y) in live {
        g.set_cell(x, y, true);
    }
    g
}

#[test]
fn serialize_length_is_w_h_4() {
    assert_eq!(GameState::new(5, 5).serialize().len(), 100);
    assert_eq!(GameState::new(3, 7).serialize().len(), 84);
    assert_eq!(GameState::new(0, 0).serialize().len(), 0);
    assert_eq!(grid_with(4, 2, &[(0, 0), (3, 1)]).serialize().len(), 32);
}

#[test]
fn serialize_exact_bytes() {
    // 2x1 grid, live cell at (0,0): word 1 then word 0, little-endian.
    let g = grid_with(2, 1, &[(0, 0)]);
    assert_eq!(g.serialize(), vec![1, 0, 0, 0, 0, 0, 0, 0]);
}

#[test]
fn serialize_row_major_order() {
    // 2x2 grid, live at (1, 0) -> linear index 1.
    let g = grid_with(2, 2, &[(1, 0)]);
    let bytes = g.serialize();
    assert_eq!(
        bytes,
        vec![0, 0, 0, 0, 1, 0, 0, 0, 0, 0, 0, 0, 0, 0, 0, 0]
    );
}

#[test]
fn round_trip_patterns() {
    let patterns: Vec<(usize, usize, Vec<(usize, usize)>)> = vec![
        (1, 1, vec![]),
        (1, 1, vec![(0, 0)]),
        (5, 5, vec![(1, 2), (2, 2), (3, 2)]),
        (4, 3, vec![(0, 0), (3, 0), (0, 2), (3, 2), (2, 1)]),
        (8, 2, vec![(7, 1), (0, 1), (4, 0)]),
    ];
    for (w, h, live) in patterns {
        let g = grid_with(w, h, &live);
        let bytes = g.serialize();
        let back = GameState::deserialize(&bytes, w, h).unwrap();
        assert_eq!(back, g);
    }
}

#[test]
fn round_trip_empty_grid() {
    let g = GameState::new(0, 0);
    let bytes = g.serialize();
    assert_eq!(GameState::deserialize(&bytes, 0, 0).unwrap(), g);
}

#[test]
fn deserialize_rejects_wrong_length() {
    let r = GameState::deserialize(&[0, 0, 0, 0], 2, 2);
    assert_eq!(
        r.unwrap_err(),
        DecodeError::WrongLength { expected: 16, actual: 4 }
    );
}

#[test]
fn deserialize_rejects_bad_word() {
    // 2x2 image, cell 3 holds the word 2.
    let mut bytes = vec![0u8; 16];
    bytes[12] = 2;
    let r = GameState::deserialize(&bytes, 2, 2);
    assert_eq!(r.unwrap_err(), DecodeError::BadCell { index: 3, value: 2 });
}

#[test]
fn deserialize_rejects_high_byte_set() {
    // The word [0, 1, 0, 0] is 256, not a cell flag, even though every
    // byte on its own looks harmless.
    let mut bytes = vec![0u8; 8];
    bytes[5] = 1;
    let r = GameState::deserialize(&bytes, 2, 1);
    assert_eq!(r.unwrap_err(), DecodeError::BadCell { index: 1, value: 256 });
}

#[test]
fn deserialize_reports_first_bad_cell() {
    let mut bytes = vec![0u8; 16];
    bytes[4] = 7;
    bytes[8] = 9;
    let r = GameState::deserialize(&bytes, 2, 2);
    assert_eq!(r.unwrap_err(), DecodeError::BadCell { index: 1, value: 7 });
}

#[test]
fn deserialize_rejects_max_word() {
    let bytes = vec![0xFFu8; 4];
    let r = GameState::deserialize(&bytes, 1, 1);
    assert_eq!(
        r.unwrap_err(),
        DecodeError::BadCell { index: 0, value: u32::MAX }
    );
}
