use context_graph::storage::{PointIndex, Storage};

#[test]
fn point_index_keeps_its_coordinates() {
    let p = PointIndex::new(3, 4);
    assert_eq!(p.x, 3);
    assert_eq!(p.y, 4);
    assert_eq!(p, PointIndex { x: 3, y: 4 });
}

#[test]
fn grid_reports_its_bounds() {
    let g: [[u8; 3]; 2] = [[0; 3]; 2];
    assert_eq!(Storage::width(&g), Some(&3));
    assert_eq!(Storage::height(&g), Some(&2));
}

#[test]
fn grid_reads_row_by_y_and_column_by_x() {
    let g: [[i32; 3]; 2] = [[1, 2, 3], [4, 5, 6]];
    assert_eq!(*Storage::get(&g, PointIndex::new(0, 0)), 1);
    assert_eq!(*Storage::get(&g, PointIndex::new(2, 0)), 3);
    assert_eq!(*Storage::get(&g, PointIndex::new(0, 1)), 4);
    assert_eq!(*Storage::get(&g, PointIndex::new(2, 1)), 6);
}

#[test]
fn grid_write_then_read_at_every_point() {
    let mut g: [[u64; 4]; 3] = [[0; 4]; 3];
    for y in 0..3 {
        for x in 0..4 {
            let p = PointIndex::new(x, y);
            let value = (10 * y + x + 1) as u64;
            Storage::set(&mut g, p, value);
            assert_eq!(*Storage::get(&g, p), value);
        }
    }
    assert_eq!(g, [[1, 2, 3, 4], [11, 12, 13, 14], [21, 22, 23, 24]]);
}

#[test]
fn grid_write_leaves_other_points_alone() {
    let mut g: [[i32; 3]; 2] = [[1, 2, 3], [4, 5, 6]];
    Storage::set(&mut g, PointIndex::new(1, 1), 50);
    assert_eq!(g, [[1, 2, 3], [4, 50, 6]]);
    Storage::set(&mut g, PointIndex::new(2, 0), 30);
    assert_eq!(g, [[1, 2, 30], [4, 50, 6]]);
}

#[test]
fn grid_with_one_cell() {
    let mut g: [[u8; 1]; 1] = [[0]];
    Storage::set(&mut g, PointIndex::new(0, 0), 9);
    assert_eq!(*Storage::get(&g, PointIndex::new(0, 0)), 9);
    assert_eq!(Storage::width(&g), Some(&1));
    assert_eq!(Storage::height(&g), Some(&1));
}
