use raycaster::grid::{CellKind, Grid, REFERENCE_SIZE};

const PICTURE: [&str; 16] = [
    "################",
    "#..............#",
    "#.......########",
    "#..............#",
    "#....##........#",
    "#....##........#",
    "#..............#",
    "###............#",
    "#....####..#####",
    "#....#.........#",
    "#....#.........#",
    "#..............#",
    "#..............#",
    ".....###########",
    "...............#",
    "...#############",
];

fn small_grid() -> Grid {
    // 3 columns, 2 rows:  #.#
    //                     ..#
    let cells = vec![
        CellKind::Wall,
        CellKind::Empty,
        CellKind::Wall,
        CellKind::Empty,
        CellKind::Empty,
        CellKind::Wall,
    ];
    Grid::new(3, 2, cells).unwrap()
}

#[test]
fn reference_grid_matches_its_picture() {
    let grid = Grid::reference();
    assert_eq!(grid.width(), 16);
    assert_eq!(grid.height(), 16);
    assert_eq!(REFERENCE_SIZE, 16);
    for (cy, row) in PICTURE.iter().enumerate() {
        for (cx, mark) in row.chars().enumerate() {
            let expected = if mark == '#' { CellKind::Wall } else { CellKind::Empty };
            assert_eq!(grid.at(cx as i128, cy as i128), expected, "cell ({}, {})", cx, cy);
        }
    }
}

#[test]
fn grid_rejects_a_wrong_number_of_cells() {
    assert!(Grid::new(3, 2, vec![CellKind::Empty; 5]).is_none());
    assert!(Grid::new(3, 2, vec![CellKind::Empty; 7]).is_none());
    assert!(Grid::new(3, 2, vec![CellKind::Empty; 6]).is_some());
    assert!(Grid::new(0, 0, Vec::new()).is_some());
    assert!(Grid::new(usize::MAX, 2, Vec::new()).is_none());
    assert!(Grid::new(usize::MAX, usize::MAX, vec![CellKind::Empty; 1]).is_none());
}

#[test]
fn grid_is_stored_row_by_row() {
    let grid = small_grid();
    assert_eq!(grid.width(), 3);
    assert_eq!(grid.height(), 2);
    assert_eq!(grid.at(0, 0), CellKind::Wall);
    assert_eq!(grid.at(1, 0), CellKind::Empty);
    assert_eq!(grid.at(2, 0), CellKind::Wall);
    assert_eq!(grid.at(0, 1), CellKind::Empty);
    assert_eq!(grid.at(1, 1), CellKind::Empty);
    assert_eq!(grid.at(2, 1), CellKind::Wall);
}

#[test]
fn outside_the_grid_is_wall() {
    let grid = small_grid();
    assert_eq!(grid.at(-1, 0), CellKind::Wall);
    assert_eq!(grid.at(0, -1), CellKind::Wall);
    assert_eq!(grid.at(3, 0), CellKind::Wall);
    assert_eq!(grid.at(1, 2), CellKind::Wall);
    assert_eq!(grid.at(i128::MAX, i128::MIN), CellKind::Wall);
    assert!(!grid.contains(-1, 0));
    assert!(!grid.contains(3, 1));
    assert!(!grid.contains(1, 2));
    assert!(grid.contains(0, 0));
    assert!(grid.contains(2, 1));
}

#[test]
fn blocking_goes_by_the_cell_under_the_point() {
    let grid = small_grid();
    // (1.5, 0.5) lies in the empty cell (1, 0)
    assert!(!grid.is_blocking(1_500_000_000, 500_000_000));
    // (1.999999999, 0.999999999) still does
    assert!(!grid.is_blocking(1_999_999_999, 999_999_999));
    // (2.0, 0.5) lies in the wall cell (2, 0)
    assert!(grid.is_blocking(2_000_000_000, 500_000_000));
    // (0.5, 0.5) lies in the wall cell (0, 0), (0.5, 1.0) in the empty cell (0, 1)
    assert!(grid.is_blocking(500_000_000, 500_000_000));
    assert!(!grid.is_blocking(500_000_000, 1_000_000_000));
    // just left of the grid, and just below it
    assert!(grid.is_blocking(-1, 1_500_000_000));
    assert!(grid.is_blocking(1_500_000_000, 2_000_000_000));
}

#[test]
fn blocking_agrees_with_the_cell_everywhere_on_the_reference_grid() {
    let grid = Grid::reference();
    let mut y: i128 = -1_250_000_000;
    while y < 17_500_000_000 {
        let mut x: i128 = -1_250_000_000;
        while x < 17_500_000_000 {
            let cell = grid.at(x.div_euclid(1_000_000_000), y.div_euclid(1_000_000_000));
            assert_eq!(grid.is_blocking(x, y), cell == CellKind::Wall);
            x += 250_000_000;
        }
        y += 250_000_000;
    }
}
