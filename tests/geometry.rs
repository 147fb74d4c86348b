use tictactoe::geometry::{get_cell, get_point_by_cell, grid_lines, MoveError};

#[test]
fn every_cell_point_maps_back() {
    for cell in 0..9usize {
        let (x, y) = get_point_by_cell(cell);
        assert_eq!(get_cell(x as i64, y as i64), Ok(cell));
    }
}

#[test]
fn cell_points_are_row_major() {
    assert_eq!(get_point_by_cell(0), (0, 0));
    assert_eq!(get_point_by_cell(1), (128, 0));
    assert_eq!(get_point_by_cell(5), (256, 128));
    assert_eq!(get_point_by_cell(6), (0, 256));
    assert_eq!(get_point_by_cell(8), (256, 256));
}

#[test]
fn pixel_in_second_column_of_top_row() {
    assert_eq!(get_cell(130, 5), Ok(1));
}

#[test]
fn pixels_at_cell_edges() {
    assert_eq!(get_cell(127, 127), Ok(0));
    assert_eq!(get_cell(128, 128), Ok(4));
    assert_eq!(get_cell(383, 383), Ok(8));
    assert_eq!(get_cell(0, 383), Ok(6));
}

#[test]
fn pixels_off_the_board_are_out_of_bounds() {
    assert_eq!(get_cell(-1, 0), Err(MoveError::OutOfBounds));
    assert_eq!(get_cell(0, -1), Err(MoveError::OutOfBounds));
    assert_eq!(get_cell(384, 0), Err(MoveError::OutOfBounds));
    assert_eq!(get_cell(0, 384), Err(MoveError::OutOfBounds));
    assert_eq!(get_cell(1000, 1000), Err(MoveError::OutOfBounds));
}

#[test]
fn grid_has_four_vertical_then_four_horizontal_lines() {
    let lines = grid_lines();
    assert_eq!(lines.len(), 8);
    assert_eq!(lines[0], ((0, 0), (0, 384)));
    assert_eq!(lines[3], ((384, 0), (384, 384)));
    assert_eq!(lines[4], ((0, 0), (384, 0)));
    assert_eq!(lines[6], ((0, 256), (384, 256)));
}
