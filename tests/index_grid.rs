use petri::index_grid::{IndexGrid, IndexGridError};


#[test]
fn index_grid_test_creating_empty_grid() {
    let grid = IndexGrid::new(4, 5);

    for i in 0..20 {
        if let Ok(value) = grid.get_cell(i) {
            assert!(!value);
        }
    }
}

#[test]
fn index_grid_test_accessing_cell_out_of_bounds() {
    let grid = IndexGrid::new(1, 1);

    let result: Result<bool, IndexGridError> = grid.get_cell(100);

    assert!(result.is_err());
}

#[test]
fn index_grid_test_setting_cell() {
    let mut grid = IndexGrid::new(5, 5);

    let result: Result<(), IndexGridError> = grid.set_cell(5, true);

    assert!(result.is_ok());

    if let Ok(value) = grid.get_cell(5) {
        assert!(value);
    }
}

#[test]
fn index_grid_test_setting_cell_out_of_bounds() {
    let mut grid = IndexGrid::new(1, 1);

    let result: Result<(), IndexGridError> = grid.set_cell(100, true);

    assert!(result.is_err());
}

#[test]
fn index_grid_test_getting_indexes_as_coordinates() {
    let grid = IndexGrid::new(4, 4);

    assert_eq!(grid.index_to_coord(0), (0, 0));
    assert_eq!(grid.index_to_coord(1), (1, 0));
    assert_eq!(grid.index_to_coord(3), (3, 0));
    assert_eq!(grid.index_to_coord(7), (3, 1));
    assert_eq!(grid.index_to_coord(8), (0, 2));
    assert_eq!(grid.index_to_coord(9), (1, 2));
    assert_eq!(grid.index_to_coord(12), (0, 3));
    assert_eq!(grid.index_to_coord(14), (2, 3));
    assert_eq!(grid.index_to_coord(15), (3, 3));
}

#[test]
fn index_grid_test_getting_coordinates_as_indexes() {
    let grid = IndexGrid::new(4, 4);

    assert_eq!(grid.coord_to_index((0, 0)), 0);
    assert_eq!(grid.coord_to_index((1, 0)), 1);
    assert_eq!(grid.coord_to_index((3, 0)), 3);
    assert_eq!(grid.coord_to_index((3, 1)), 7);
    assert_eq!(grid.coord_to_index((0, 2)), 8);
    assert_eq!(grid.coord_to_index((1, 2)), 9);
    assert_eq!(grid.coord_to_index((0, 3)), 12);
    assert_eq!(grid.coord_to_index((2, 3)), 14);
    assert_eq!(grid.coord_to_index((3, 3)), 15);
}

#[test]
fn index_grid_test_getting_cell_with_coord() {
    let mut grid = IndexGrid::new(4, 4);

    let _ = grid.set_cell(15, true);

    let result: Result<bool, IndexGridError> = grid.get_cell_at_coord((3, 3));
    assert!(result.is_ok());
    if let Ok(value) = result {
        assert!(value);
    }
}

#[test]
fn index_grid_test_setting_cell_with_coord() {
    let mut grid = IndexGrid::new(5, 5);

    let result: Result<(), IndexGridError> = grid.set_cell_at_coord((4, 3), true);
    assert!(result.is_ok());
    if let Ok(value) = grid.get_cell_at_coord((4, 3)) {
        assert!(value);
    }
}

#[test]
fn index_grid_test_count_living_neighbors() {
    let mut grid = IndexGrid::new(3, 3);

    let _ = grid.set_cell_at_coord((1, 0), true);
    let _ = grid.set_cell_at_coord((0, 1), true);
    let _ = grid.set_cell_at_coord((2, 1), true);

    let result: Result<usize, IndexGridError> = grid.count_living_neighbors_at_coord((1, 1));

    assert!(result.is_ok());
    if let Ok(value) = result {
        assert_eq!(value, 3);
    }
}

#[test]
fn index_grid_test_count_living_neighbors_in_corners() {
    let mut grid = IndexGrid::new(3, 3);

    let _ = grid.set_cell_at_coord((1, 1), true);

    [
        grid.count_living_neighbors_at_coord((0, 0)),
        grid.count_living_neighbors_at_coord((0, 2)),
        grid.count_living_neighbors_at_coord((2, 0)),
        grid.count_living_neighbors_at_coord((2, 2)),
    ]
    .into_iter()
    .for_each(|result| {
        assert!(result.is_ok());
        if let Ok(value) = result {
            assert_eq!(value, 1);
        }
    });
}

#[test]
fn test_cell_next_dead_to_live() {
    let mut grid = IndexGrid::new(3, 3);

    let _ = grid.set_cell_at_coord((0, 0), true);
    let _ = grid.set_cell_at_coord((0, 1), true);
    let _ = grid.set_cell_at_coord((0, 2), true);

    let result: Result<bool, IndexGridError> = grid.next_cell(4);

    assert!(result.is_ok());
    if let Ok(value) = result {
        assert!(value);
    }
}

#[test]
fn test_cell_next_dead_to_dead() {
    let grid = IndexGrid::new(3, 3);

    let result: Result<bool, IndexGridError> = grid.next_cell(4);

    assert!(result.is_ok());
    if let Ok(value) = result {
        assert!(!value);
    }
}

#[test]
fn test_cell_live_to_dead() {
    let mut grid = IndexGrid::new(3, 3);

    let _ = grid.set_cell(4, true);

    let result: Result<bool, IndexGridError> = grid.next_cell(4);

    assert!(result.is_ok());
    if let Ok(value) = result {
        assert!(!value);
    }
}

#[test]
fn test_cell_next_live_to_live() {
    let mut grid = IndexGrid::new(3, 3);

    let _ = grid.set_cell(4, true);

    let _ = grid.set_cell_at_coord((0, 0), true);
    let _ = grid.set_cell_at_coord((0, 1), true);
    let _ = grid.set_cell_at_coord((0, 2), true);

    let result: Result<bool, IndexGridError> = grid.next_cell(4);

    assert!(result.is_ok());
    if let Ok(value) = result {
        assert!(value);
    }
}

#[test]
fn test_getting_grid_next_state_with_change_info() {
    let mut grid = IndexGrid::new(3, 3);

    let _ = grid.set_cell(3, true);
    let _ = grid.set_cell(4, true);
    let _ = grid.set_cell(5, true);

    let result = grid.next_cells_with_change_info();
    assert!(result.is_ok());
    if let Ok(value) = result {
        assert!(value.1);
        assert_eq!(
            value.0,
            vec![false, true, false, false, true, false, false, true, false]
        )
    }
}

#[test]
fn index_grid_coordinate_past_the_right_edge_is_out_of_bounds() {
    let mut grid = IndexGrid::new(3, 3);
    assert!(!grid.is_coord_inbounds((3, 0)));
    assert_eq!(grid.get_cell_at_coord((3, 0)), Err(IndexGridError::IndexOutOfBounds));
    assert_eq!(grid.set_cell_at_coord((3, 0), true), Err(IndexGridError::IndexOutOfBounds));
    assert_eq!(grid.next_cell(9), Err(IndexGridError::IndexOutOfBounds));
}

#[test]
fn index_grid_blinker_round_trip() {
    let mut grid = IndexGrid::new(3, 3);
    for x in 0..3 {
        assert!(grid.set_cell_at_coord((x, 1), true).is_ok());
    }
    let row = grid.cells.clone();
    let (column, changed) = grid.next_cells_with_change_info().unwrap();
    assert!(changed);
    grid.cells = column;
    let (back, changed) = grid.next_cells_with_change_info().unwrap();
    assert!(changed);
    assert_eq!(back, row);
}

#[test]
fn index_grid_dead_grid_is_unchanged() {
    let grid = IndexGrid::new(4, 4);
    assert_eq!(grid.next_cells_with_change_info(), Ok((vec![false; 16], false)));
}
