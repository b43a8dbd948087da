use toy_hover_battle::atlas::{atlas_cell, blit_rgba, ship_atlas_index, SHIP_ATLAS_COLS, SHIP_FRAMES};

#[test]
fn cells_fill_rows_left_to_right() {
    assert_eq!(atlas_cell(0, 4, 30, 20), (0, 0));
    assert_eq!(atlas_cell(3, 4, 30, 20), (90, 0));
    assert_eq!(atlas_cell(5, 4, 30, 20), (30, 20));
    assert_eq!(atlas_cell(255, SHIP_ATLAS_COLS, 200, 200), (3000, 3000));
}

#[test]
fn player_one_uses_the_second_tint_row() {
    assert_eq!(ship_atlas_index(0, 5), SHIP_FRAMES + 5);
    assert_eq!(ship_atlas_index(1, 5), 5);
}

#[test]
fn blit_copies_rows_into_place() {
    // 2x2 source into a 4x3 destination at (1, 1).
    let src: Vec<u8> = (1..=16).collect();
    let mut dst = vec![0u8; 4 * 3 * 4];
    blit_rgba(&src, 2, 2, &mut dst, 4, 1, 1);
    let px = |x: usize, y: usize| &dst[(y * 4 + x) * 4..(y * 4 + x) * 4 + 4];
    assert_eq!(px(1, 1), &[1, 2, 3, 4]);
    assert_eq!(px(2, 1), &[5, 6, 7, 8]);
    assert_eq!(px(1, 2), &[9, 10, 11, 12]);
    assert_eq!(px(2, 2), &[13, 14, 15, 16]);
    assert_eq!(px(0, 0), &[0, 0, 0, 0]);
    assert_eq!(px(3, 2), &[0, 0, 0, 0]);
    assert_eq!(dst.iter().filter(|&&b| b != 0).count(), 16);
}
