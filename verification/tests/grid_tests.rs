use autonomous_game::geometry::Recti;
use autonomous_game::grid::TileCollisionGrid;

fn rect(x: i64, y: i64, w: i64, h: i64) -> Recti {
    Recti::new(x, y, w, h)
}

#[test]
fn build_marks_solid_cells() {
    let entries: Vec<(usize, usize, bool)> = vec![(1, 1, true), (2, 0, false)];
    let g = TileCollisionGrid::build(&entries, 3, 2, 16_000);
    assert_eq!(g.width(), 3);
    assert_eq!(g.height(), 2);
    assert_eq!(g.tile_size(), 16_000);
    // The solid cell blocks a rectangle fully inside it.
    assert!(g.is_blocked(rect(16_000, 16_000, 16_000, 16_000)));
    // The cell marked with a false flag stays empty.
    assert!(!g.is_blocked(rect(32_000, 0, 16_000, 16_000)));
    // An untouched cell is empty.
    assert!(!g.is_blocked(rect(0, 0, 16_000, 16_000)));
}

#[test]
fn build_ignores_out_of_range_entries() {
    let entries: Vec<(usize, usize, bool)> = vec![(5, 5, true), (0, 0, true)];
    let g = TileCollisionGrid::build(&entries, 2, 2, 16_000);
    assert!(g.is_blocked(rect(0, 0, 16_000, 16_000)));
    assert!(!g.is_blocked(rect(16_000, 16_000, 16_000, 16_000)));
}

#[test]
fn straddling_rect_tests_every_covered_cell() {
    // Only cell (1, 1) is solid; a rectangle whose top-left corner lies in
    // the empty cell (0, 1) but which straddles into (1, 1) must block.
    let entries: Vec<(usize, usize, bool)> = vec![(1, 1, true)];
    let g = TileCollisionGrid::build(&entries, 3, 3, 16_000);
    assert!(g.is_blocked(rect(8_000, 20_000, 16_000, 8_000)));
    // The same rectangle kept inside cell (0, 1) does not block.
    assert!(!g.is_blocked(rect(0, 20_000, 15_999, 8_000)));
}

#[test]
fn cell_boundaries_are_half_open() {
    let entries: Vec<(usize, usize, bool)> = vec![(1, 1, true)];
    let g = TileCollisionGrid::build(&entries, 3, 3, 16_000);
    // A rectangle ending exactly where the solid cell starts does not
    // overlap it.
    assert!(!g.is_blocked(rect(0, 16_000, 16_000, 16_000)));
    // One millipixel further and it does.
    assert!(g.is_blocked(rect(0, 16_000, 16_001, 16_000)));
}

#[test]
fn out_of_range_queries_are_open() {
    let entries: Vec<(usize, usize, bool)> = vec![(0, 0, true), (1, 1, true)];
    let g = TileCollisionGrid::build(&entries, 2, 2, 16_000);
    // Entirely left of and above the grid.
    assert!(!g.is_blocked(rect(-50_000, -50_000, 10_000, 10_000)));
    // Entirely beyond the right edge.
    assert!(!g.is_blocked(rect(40_000, 0, 10_000, 10_000)));
    // Entirely below the grid.
    assert!(!g.is_blocked(rect(0, 40_000, 10_000, 10_000)));
    // Straddling the left edge into the solid corner cell still blocks.
    assert!(g.is_blocked(rect(-8_000, 0, 16_000, 16_000)));
}

#[test]
fn empty_rect_blocks_nothing() {
    let entries: Vec<(usize, usize, bool)> = vec![(0, 0, true)];
    let g = TileCollisionGrid::build(&entries, 2, 2, 16_000);
    assert!(!g.is_blocked(rect(4_000, 4_000, 0, 16_000)));
    assert!(!g.is_blocked(rect(4_000, 4_000, 16_000, 0)));
}

#[test]
fn empty_grid_blocks_nothing() {
    let entries: Vec<(usize, usize, bool)> = vec![];
    let g = TileCollisionGrid::build(&entries, 0, 0, 16_000);
    assert!(!g.is_blocked(rect(0, 0, 16_000, 16_000)));
}
