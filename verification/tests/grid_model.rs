use geocore::dense_grid::{Grid, Grid2D};
use geocore::grid::{GridBoundingBox2D, GridShape2D, GridShape3D, GridSpace};
use geocore::no_data_grid::NoDataGrid2D;

#[test]
fn dense_grid_reads_row_major() {
    let shape = GridShape2D::from([2, 3]);
    let g = Grid::new(shape, vec![1u8, 2, 3, 4, 5, 6], None).unwrap();
    assert_eq!(g.get_at_grid_index([0, 0]).unwrap(), 1);
    assert_eq!(g.get_at_grid_index([0, 2]).unwrap(), 3);
    assert_eq!(g.get_at_grid_index([1, 0]).unwrap(), 4);
    assert_eq!(g.get_at_grid_index([1, 2]).unwrap(), 6);
    assert!(g.get_at_grid_index([2, 0]).is_err());
}

#[test]
fn dense_grid_rejects_wrong_data_length() {
    let shape = GridShape2D::from([2, 3]);
    match Grid::new(shape, vec![1u8, 2, 3], None) {
        Err(geocore::Error::GridDataLengthMismatch { expected, found }) => {
            assert_eq!(expected, 6);
            assert_eq!(found, 3);
        }
        other => panic!("expected a length mismatch, got {:?}", other),
    }
}

#[test]
fn dense_grid_set_overwrites_one_cell() {
    let shape = GridShape2D::from([2, 2]);
    let mut g = Grid::new(shape, vec![0u8; 4], None).unwrap();
    g.set_at_grid_index([1, 0], 9).unwrap();
    assert_eq!(g.get_at_grid_index([1, 0]).unwrap(), 9);
    assert_eq!(g.get_at_grid_index([0, 0]).unwrap(), 0);
    assert!(g.set_at_grid_index([2, 2], 1).is_err());
}

#[test]
fn no_data_grid_materializes_to_all_sentinel_cells() {
    let n = NoDataGrid2D::new([2, 2].into(), 42u8);
    let dense: Grid2D<u8> = Grid::from_no_data_grid(n);
    assert_eq!(dense.no_data_value, Some(42));
    assert_eq!(dense.data, vec![42u8; 4]);
    for y in 0..2isize {
        for x in 0..2isize {
            assert_eq!(dense.get_at_grid_index([y, x]).unwrap(), 42);
        }
    }
    assert!(dense.get_at_grid_index([0, 2]).is_err());
}

#[test]
fn three_dimensional_shape_counts_cells() {
    let shape = GridShape3D::from([2, 3, 4]);
    assert_eq!(shape.number_of_elements(), 24);
    assert_eq!(shape.axis_size(), [2, 3, 4]);
    assert_eq!(shape.min_index(), [0, 0, 0]);
    assert_eq!(shape.max_index(), [1, 2, 3]);
    assert!(shape.contains(&[1, 2, 3]));
    assert!(!shape.contains(&[2, 0, 0]));
}

#[test]
fn bounding_box_rejects_degenerate_bounds() {
    assert!(GridBoundingBox2D::new([0, 0], [-1, 5]).is_err());
    let b = GridBoundingBox2D::new([-2, 3], [2, 5]).unwrap();
    assert_eq!(b.number_of_elements(), 15);
    assert_eq!(b.axis_size(), [5, 3]);
    assert!(b.contains(&[0, 4]));
    assert!(!b.contains(&[0, 6]));
}

#[test]
fn bounding_box_linear_index_is_row_major() {
    let b = GridBoundingBox2D::new([1, 1], [2, 3]).unwrap();
    assert_eq!(b.linear_index(&[1, 1]), 0);
    assert_eq!(b.linear_index(&[1, 3]), 2);
    assert_eq!(b.linear_index(&[2, 1]), 3);
    assert_eq!(b.linear_index(&[2, 3]), 5);
}
