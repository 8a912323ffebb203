use mandelbrot::loader::{FrameMark, ProgressLoader};
use mandelbrot::tiles::{tile_rows, TilePosition};

use FrameMark::{Done, LineEnd, Pending, Status, Working};

#[test]
fn new_loader_is_empty() {
    let p = ProgressLoader::new(6, 6);
    assert_eq!(p.progress(), 0);
    assert_eq!(p.elements(), 36);
    assert!(p.last_frame_time().is_none());
}

#[test]
fn semi_increment_shows_working_cell_and_status() {
    let mut p = ProgressLoader::new(2, 2);
    let frame = p.semi_increment();
    assert_eq!(frame, vec![Working, Pending, Status, LineEnd, Pending, Pending, LineEnd, LineEnd]);
    assert_eq!(p.progress(), 0);
    assert!(p.last_frame_time().is_some());
}

#[test]
fn increment_marks_done() {
    let mut p = ProgressLoader::new(2, 2);
    p.semi_increment();
    let frame = p.increment();
    assert_eq!(frame, vec![Done, Pending, Status, LineEnd, Pending, Pending, LineEnd, LineEnd]);
    assert_eq!(p.progress(), 1);
    p.semi_increment();
    let frame = p.increment();
    assert_eq!(frame, vec![Done, Done, Status, LineEnd, Pending, Pending, LineEnd, LineEnd]);
    let frame = p.semi_increment();
    assert_eq!(frame, vec![Done, Done, Status, LineEnd, Working, Pending, LineEnd, LineEnd]);
}

#[test]
fn increment_without_start_keeps_no_frame_time() {
    let mut p = ProgressLoader::new(2, 2);
    p.increment();
    assert!(p.last_frame_time().is_none());
}

#[test]
fn status_only_at_a_row_end_at_the_middle() {
    // 3 by 3: the middle cell count 4 is not a row end, so no status.
    let mut p = ProgressLoader::new(3, 3);
    let frame = p.semi_increment();
    assert!(!frame.contains(&Status));
    assert_eq!(frame.iter().filter(|m| **m == LineEnd).count(), 4);
    // 6 by 6: the status follows the third row, after two line ends.
    let mut q = ProgressLoader::new(6, 6);
    let frame = q.semi_increment();
    let status_at = frame.iter().position(|m| *m == Status).unwrap();
    assert_eq!(status_at, 18 + 2);
}

#[test]
fn complete_grid_has_no_working_cell() {
    let mut p = ProgressLoader::new(1, 2);
    p.semi_increment();
    p.increment();
    p.semi_increment();
    p.increment();
    let frame = p.semi_increment();
    assert_eq!(frame, vec![Done, Status, LineEnd, Done, LineEnd, LineEnd]);
}

#[test]
fn tile_grid_in_stitch_order() {
    let rows = tile_rows(-3, 3);
    assert_eq!(rows.len(), 6);
    for row in &rows {
        assert_eq!(row.len(), 6);
    }
    assert_eq!(rows[0][0], TilePosition { row: 1, column: 1, row_index: -3, column_index: -3 });
    assert_eq!(rows[1][0], TilePosition { row: 2, column: 1, row_index: -2, column_index: -3 });
    assert_eq!(rows[0][4], TilePosition { row: 1, column: 5, row_index: -3, column_index: 1 });
    assert_eq!(rows[5][5], TilePosition { row: 6, column: 6, row_index: 2, column_index: 2 });
}

#[test]
fn tile_grid_empty_range() {
    assert!(tile_rows(3, 3).is_empty());
    assert!(tile_rows(4, 1).is_empty());
}
