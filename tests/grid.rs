use petri::grid::{Grid, IndexGridError};

#[test]
fn grid_test_creating_empty_grid() {
    let grid = Grid::new(4, 5);

    for i in 0..20 {
        if let Ok(value) = grid.get_cell(i) {
            assert!(!value);
        }
    }
}

#[test]
fn grid_test_accessing_cell_out_of_bounds() {
    let grid = Grid::new(1, 1);

    let result: Result<bool, IndexGridError> = grid.get_cell(100);

    assert!(result.is_err());
}

#[test]
fn grid_test_setting_cell() {
    let mut grid = Grid::new(5, 5);

    let result: Result<(), IndexGridError> = grid.set_cell(5, true);

    assert!(result.is_ok());

    if let Ok(value) = grid.get_cell(5) {
        assert!(value);
    }
}

#[test]
fn grid_test_setting_cell_out_of_bounds() {
    let mut grid = Grid::new(1, 1);

    let result: Result<(), IndexGridError> = grid.set_cell(100, true);

    assert!(result.is_err());
}

#[test]
fn grid_test_getting_indexes_as_coordinates() {
    let grid = Grid::new(4, 4);

    assert_eq!(grid.index_to_coord(0), (0, 0));
    assert_eq!(grid.index_to_coord(1), (1, 0));
    assert_eq!(grid.index_to_coord(3), (3, 0));
    assert_eq!(grid.index_to_coord(7), (3, 1));
    assert_eq!(grid.index_to_coord(8), (0, 2));
    assert_eq!(grid.index_to_coord(9), (1, 2));
    assert_eq!(grid.index_to_coord(12), (0, 3));
    assert_eq!(grid.index_to_coord(14), (2, 3));
    assert_eq!(grid.index_to_coord(15), (3, 3));
}

#[test]
fn grid_test_getting_coordinates_as_indexes() {
    let grid = Grid::new(4, 4);

    assert_eq!(grid.coord_to_index((0, 0)), 0);
    assert_eq!(grid.coord_to_index((1, 0)), 1);
    assert_eq!(grid.coord_to_index((3, 0)), 3);
    assert_eq!(grid.coord_to_index((3, 1)), 7);
    assert_eq!(grid.coord_to_index((0, 2)), 8);
    assert_eq!(grid.coord_to_index((1, 2)), 9);
    assert_eq!(grid.coord_to_index((0, 3)), 12);
    assert_eq!(grid.coord_to_index((2, 3)), 14);
    assert_eq!(grid.coord_to_index((3, 3)), 15);
}

#[test]
fn grid_test_getting_cell_with_coord() {
    let mut grid = Grid::new(4, 4);

    let _ = grid.set_cell(15, true);

    let result: Result<bool, IndexGridError> = grid.get_cell_at_coord((3, 3));
    assert!(result.is_ok());
    if let Ok(value) = result {
        assert!(value);
    }
}

#[test]
fn grid_test_setting_cell_with_coord() {
    let mut grid = Grid::new(5, 5);

    let result: Result<(), IndexGridError> = grid.set_cell_at_coord((4, 3), true);
    assert!(result.is_ok());
    if let Ok(value) = grid.get_cell_at_coord((4, 3)) {
        assert!(value);
    }
}

#[test]
fn grid_test_count_living_neighbors() {
    let mut grid = Grid::new(3, 3);

    let _ = grid.set_cell_at_coord((1, 0), true);
    let _ = grid.set_cell_at_coord((0, 1), true);
    let _ = grid.set_cell_at_coord((2, 1), true);

    let result: Result<usize, IndexGridError> = grid.count_living_neighbors_at_coord((1, 1));

    assert!(result.is_ok());
    if let Ok(value) = result {
        assert_eq!(value, 3);
    }
}

#[test]
fn grid_test_count_living_neighbors_in_corners() {
    let mut grid = Grid::new(3, 3);

    let _ = grid.set_cell_at_coord((1, 1), true);

    [
        grid.count_living_neighbors_at_coord((0, 0)),
        grid.count_living_neighbors_at_coord((0, 2)),
        grid.count_living_neighbors_at_coord((2, 0)),
        grid.count_living_neighbors_at_coord((2, 2)),
    ]
    .into_iter()
    .for_each(|result| {
        assert!(result.is_ok());
        if let Ok(value) = result {
            assert_eq!(value, 1);
        }
    });
}

#[test]
fn new_grids_are_all_dead() {
    for (width, height) in [(1, 1), (1, 7), (7, 1), (4, 5), (16, 9)] {
        let grid = Grid::new(width, height);
        assert_eq!(grid.width(), width);
        assert_eq!(grid.height(), height);
        assert_eq!(grid.cells_length(), width * height);
        for y in 0..height {
            for x in 0..width {
                assert_eq!(grid.get_cell_at_coord((x, y)), Ok(false));
            }
        }
    }
}

#[test]
fn zero_area_grid_refuses_every_access() {
    let mut grid = Grid::new(0, 4);
    assert_eq!(grid.cells_length(), 0);
    assert_eq!(grid.get_cell(0), Err(IndexGridError::IndexOutOfBounds));
    assert_eq!(grid.get_cell_at_coord((0, 0)), Err(IndexGridError::IndexOutOfBounds));
    assert_eq!(grid.set_cell_at_coord((0, 0), true), Err(IndexGridError::IndexOutOfBounds));
    assert_eq!(
        grid.count_living_neighbors_at_coord((0, 0)),
        Err(IndexGridError::IndexOutOfBounds)
    );
    assert_eq!(grid.set_cells(vec![]), Ok(()));
}

#[test]
fn coordinates_and_indexes_round_trip() {
    let grid = Grid::new(5, 3);
    for i in 0..15 {
        let coord = grid.index_to_coord(i);
        assert!(grid.is_coord_inbounds(coord));
        assert_eq!(grid.coord_to_index(coord), i);
    }
    for y in 0..3 {
        for x in 0..5 {
            assert_eq!(grid.index_to_coord(grid.coord_to_index((x, y))), (x, y));
        }
    }
}

#[test]
fn coordinate_past_the_right_edge_is_out_of_bounds() {
    let mut grid = Grid::new(3, 3);
    assert!(!grid.is_coord_inbounds((3, 0)));
    assert_eq!(grid.get_cell_at_coord((3, 0)), Err(IndexGridError::IndexOutOfBounds));
    assert_eq!(grid.set_cell_at_coord((3, 0), true), Err(IndexGridError::IndexOutOfBounds));
    assert_eq!(grid.get_cell(3), Ok(false));
    assert_eq!(
        grid.count_living_neighbors_at_coord((0, 3)),
        Err(IndexGridError::IndexOutOfBounds)
    );
}

#[test]
fn interior_cell_of_live_block_has_eight_neighbors() {
    let mut grid = Grid::new(5, 5);
    for y in 1..4 {
        for x in 1..4 {
            assert!(grid.set_cell_at_coord((x, y), true).is_ok());
        }
    }
    assert_eq!(grid.count_living_neighbors_at_coord((2, 2)), Ok(8));
    assert_eq!(grid.count_living_neighbors_at_coord((0, 0)), Ok(1));
    assert_eq!(grid.count_living_neighbors_at_coord((1, 1)), Ok(3));
    assert_eq!(grid.count_living_neighbors_at_coord((4, 2)), Ok(3));
}

#[test]
fn neighbors_do_not_wrap_around_edges() {
    let mut grid = Grid::new(4, 4);
    assert!(grid.set_cell_at_coord((3, 1), true).is_ok());
    assert!(grid.set_cell_at_coord((1, 3), true).is_ok());
    assert_eq!(grid.count_living_neighbors_at_coord((0, 1)), Ok(0));
    assert_eq!(grid.count_living_neighbors_at_coord((1, 0)), Ok(0));
    assert_eq!(grid.count_living_neighbors_at_coord((2, 2)), Ok(2));
}

#[test]
fn replacing_cells_with_wrong_length_is_refused() {
    let mut grid = Grid::new(2, 2);
    assert!(grid.set_cell(1, true).is_ok());
    let result = grid.set_cells(vec![true, true, true]);
    assert_eq!(result, Err(IndexGridError::IncompatibleCellCount));
    assert_eq!(grid.get_cell(0), Ok(false));
    assert_eq!(grid.get_cell(1), Ok(true));
    assert_eq!(grid.get_cell(2), Ok(false));
    assert_eq!(grid.get_cell(3), Ok(false));
    assert_eq!(grid.set_cells(vec![true, false, false, true]), Ok(()));
    assert_eq!(grid.get_cell(0), Ok(true));
    assert_eq!(grid.get_cell(1), Ok(false));
    assert_eq!(grid.get_cell(3), Ok(true));
}

#[test]
fn toggling_flips_exactly_one_cell() {
    let mut grid = Grid::new(2, 2);
    assert_eq!(grid.toggle_cell_at_coord((1, 0)), Ok(()));
    assert_eq!(grid.get_cell_at_coord((0, 0)), Ok(false));
    assert_eq!(grid.get_cell_at_coord((1, 0)), Ok(true));
    assert_eq!(grid.get_cell_at_coord((0, 1)), Ok(false));
    assert_eq!(grid.get_cell_at_coord((1, 1)), Ok(false));
    assert_eq!(grid.toggle_cell_at_coord((1, 0)), Ok(()));
    assert_eq!(grid.get_cell_at_coord((1, 0)), Ok(false));
    assert_eq!(grid.toggle_cell_at_coord((2, 0)), Err(IndexGridError::IndexOutOfBounds));
}
