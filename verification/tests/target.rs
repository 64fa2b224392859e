use frascii::target::{is_interesting, IterationGrid};

fn all_escaped(cols: usize, rows: usize, iterations: u32) -> IterationGrid {
    let mut grid = IterationGrid::new(cols, rows, None);
    for y in 0..rows {
        for x in 0..cols {
            grid.set(x, y, Some(iterations));
        }
    }
    grid
}

#[test]
fn an_all_interior_view_is_not_interesting_and_has_no_target() {
    let grid = IterationGrid::new(30, 15, None);
    assert_eq!(grid.interior_count(), 450);
    assert!(!is_interesting(&grid));
    assert_eq!(grid.boundary_target(), None);
}

#[test]
fn an_all_exterior_view_has_no_target() {
    let grid = all_escaped(30, 15, 3);
    assert_eq!(grid.interior_count(), 0);
    assert!(!is_interesting(&grid));
    assert_eq!(grid.boundary_target(), None);
}

#[test]
fn an_empty_grid_is_handled_rather_than_dividing_by_zero() {
    let grid = IterationGrid::new(0, 0, None);
    assert!(!is_interesting(&grid));
    assert_eq!(grid.boundary_target(), None);
}

#[test]
fn the_target_is_the_slowest_escape_touching_the_interior() {
    // Columns 0..2 escaped, column 2 interior; the slowest escape that
    // touches it wins, even over a slower one that does not.
    let mut grid = all_escaped(4, 3, 1);
    for y in 0..3 {
        grid.set(2, y, None);
    }
    grid.set(0, 0, Some(90));
    grid.set(1, 1, Some(20));
    grid.set(3, 2, Some(25));
    assert_eq!(grid.boundary_target(), Some((3, 2)));
}

#[test]
fn ties_go_to_the_first_in_row_major_order() {
    let mut grid = all_escaped(3, 3, 7);
    grid.set(1, 1, None);
    assert_eq!(grid.boundary_target(), Some((1, 0)));
}

#[test]
fn edges_have_fewer_neighbours_rather_than_wrapping() {
    // An interior sample on the far edge must not make the near edge a
    // boundary.
    let mut grid = all_escaped(3, 1, 4);
    grid.set(2, 0, None);
    grid.set(0, 0, Some(50));
    assert_eq!(grid.boundary_target(), Some((1, 0)));
}

#[test]
fn interest_needs_between_half_a_percent_and_ninety_nine_and_a_half() {
    let mut grid = all_escaped(20, 10, 1);
    assert!(!is_interesting(&grid));
    grid.set(0, 0, None);
    assert!(is_interesting(&grid), "1 in 200 is exactly the lower bound");

    let mut solid = IterationGrid::new(20, 10, None);
    solid.set(0, 0, Some(3));
    assert!(is_interesting(&solid), "199 in 200 is exactly the upper bound");

    let mut tiny = IterationGrid::new(2, 1, None);
    tiny.set(0, 0, Some(1));
    assert!(is_interesting(&tiny));
}

#[test]
fn reads_and_writes_stay_inside_the_grid() {
    let mut grid = IterationGrid::new(2, 2, None);
    assert_eq!((grid.cols(), grid.rows()), (2, 2));
    grid.set(1, 0, Some(5));
    assert_eq!(grid.get(1, 0), Some(Some(5)));
    assert_eq!(grid.get(0, 0), Some(None));
    grid.set(2, 0, Some(9));
    assert_eq!(grid.get(2, 0), None);
    assert_eq!(grid.interior_count(), 3);
}
