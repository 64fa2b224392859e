use frascii::render::{Cell, Grid, Rgb};

#[test]
fn new_grid_is_blank_at_the_requested_size() {
    let grid = Grid::new(3, 2);
    assert_eq!((grid.width(), grid.height()), (3, 2));
    assert_eq!(grid.cells().iter().count(), 6);
    assert!(grid.cells().iter().all(|c| *c == Cell::default()));
}

#[test]
fn a_zero_dimension_yields_an_empty_grid_rather_than_panicking() {
    let grid = Grid::new(0, 40);
    assert_eq!(grid.cells().iter().count(), 0);
    assert_eq!(grid.get(0, 0), None);
    assert_eq!(grid.row(0), Some(&[][..]));
    assert_eq!(grid.row(40), None);
}

#[test]
fn render_set_and_get_round_trip_within_bounds() {
    let mut grid = Grid::new(2, 2);
    let cell = Cell::new('*', Rgb::new(1, 2, 3));
    grid.set(1, 1, cell);
    assert_eq!(grid.get(1, 1), Some(cell));
    assert_eq!(grid.get(0, 0), Some(Cell::default()));
}

#[test]
fn out_of_bounds_access_is_dropped_not_panicked() {
    let mut grid = Grid::new(2, 2);
    grid.set(9, 9, Cell::new('!', Rgb::black()));
    assert_eq!(grid.get(9, 9), None);
    assert_eq!(grid.get(2, 0), None);
}

#[test]
fn rows_are_row_major_slices() {
    let mut grid = Grid::new(2, 2);
    grid.set(0, 1, Cell::new('a', Rgb::black()));
    grid.set(1, 1, Cell::new('b', Rgb::black()));
    let row = grid.row(1).expect("row 1 is in bounds");
    assert_eq!(row.iter().map(|c| c.glyph).collect::<String>(), "ab");
}

#[test]
fn resize_blanks_every_cell() {
    let mut grid = Grid::new(2, 2);
    grid.set(0, 0, Cell::new('x', Rgb::new(9, 9, 9)));
    grid.resize(4, 1);
    assert_eq!((grid.width(), grid.height()), (4, 1));
    assert!(grid.cells().iter().all(|c| *c == Cell::default()));
}

#[test]
fn a_blank_cell_is_a_space_black_on_black() {
    let cell = Cell::default();
    assert_eq!(cell.glyph, ' ');
    assert_eq!(cell.colour, Rgb::black());
    assert_eq!(cell.background, Rgb::black());
    assert_eq!(Rgb::black(), Rgb::new(0, 0, 0));
    assert_eq!(Rgb::default(), Rgb::black());
}

#[test]
fn a_cell_with_a_background_keeps_all_three_parts() {
    let cell = Cell::with_background('#', Rgb::new(1, 2, 3), Rgb::new(4, 5, 6));
    assert_eq!(cell.glyph, '#');
    assert_eq!(cell.colour, Rgb::new(1, 2, 3));
    assert_eq!(cell.background, Rgb::new(4, 5, 6));
    assert_eq!(Cell::new('#', Rgb::new(1, 2, 3)).background, Rgb::black());
}

#[test]
fn set_writes_row_major_and_touches_nothing_else() {
    let mut grid = Grid::new(3, 2);
    let cell = Cell::new('q', Rgb::new(7, 7, 7));
    grid.set(2, 0, cell);
    assert_eq!(grid.cells()[2], cell);
    assert_eq!(grid.cells().iter().filter(|c| **c == cell).count(), 1);
    grid.set(0, 1, cell);
    assert_eq!(grid.cells()[3], cell);
    assert_eq!(grid.row(1).expect("row 1")[0], cell);
}

#[test]
fn the_visible_part_is_the_smaller_of_grid_and_area() {
    let grid = Grid::new(5, 3);
    assert_eq!(grid.visible(80, 24), (5, 3));
    assert_eq!(grid.visible(2, 24), (2, 3));
    assert_eq!(grid.visible(80, 1), (5, 1));
    assert_eq!(grid.visible(0, 0), (0, 0));
    assert_eq!(Grid::new(0, 0).visible(10, 10), (0, 0));
}

#[test]
fn every_row_holds_width_cells_matching_get() {
    let mut grid = Grid::new(3, 2);
    grid.set(2, 1, Cell::new('z', Rgb::new(1, 1, 1)));
    for y in 0..2 {
        let row = grid.row(y).expect("in bounds");
        assert_eq!(row.len(), 3);
        for x in 0..3 {
            assert_eq!(Some(row[x]), grid.get(x, y));
        }
    }
}
