use geocore::grid::{GridShape2D, GridSpace};
use geocore::no_data_grid::{NoDataGrid, NoDataGrid1D, NoDataGrid2D, NoDataGrid3D};

#[test]
fn new() {
    let n = NoDataGrid2D::new([2, 2].into(), 42);
    let expected = NoDataGrid {
        shape: GridShape2D::from([2, 2]),
        no_data_value: 42,
    };

    assert_eq!(n.no_data_value, 42);
    assert_eq!(n, expected);
}

#[test]
fn convert_dtype() {
    let n = NoDataGrid2D::new([2, 2].into(), 42);
    let n_converted = n.convert_dtype::<i64>();
    assert_eq!(n_converted.no_data_value, 42);
}

#[test]
fn ndim() {
    assert_eq!(NoDataGrid1D::<i32>::NDIM, 1);
    assert_eq!(NoDataGrid2D::<u8>::NDIM, 2);
    assert_eq!(NoDataGrid3D::<u16>::NDIM, 3);
}

#[test]
fn axis_size() {
    let n = NoDataGrid2D::new([2, 2].into(), 42);
    assert_eq!(n.axis_size(), [2, 2]);
}

#[test]
fn number_of_elements() {
    let n = NoDataGrid2D::new([2, 2].into(), 42);
    assert_eq!(n.number_of_elements(), 4);
}

#[test]
fn get_at_grid_index_unchecked() {
    let n = NoDataGrid2D::new([2, 2].into(), 42);
    assert_eq!(n.get_at_grid_index_unchecked([0, 0]), 42);
    assert_eq!(n.get_at_grid_index_unchecked([100, 100]), 42);
}

#[test]
fn get_at_grid_index() {
    let n = NoDataGrid2D::new([2, 2].into(), 42);
    let result = n.get_at_grid_index([0, 0]).unwrap();
    assert_eq!(result, 42);
    assert!(n.get_at_grid_index([100, 100]).is_err());
}

#[test]
fn no_data_value_returns_sentinel_everywhere_in_bounds() {
    let n = NoDataGrid2D::new([3, 4].into(), 7u8);
    for y in 0..3isize {
        for x in 0..4isize {
            assert_eq!(n.get_at_grid_index([y, x]).unwrap(), 7);
        }
    }
    assert!(n.get_at_grid_index([-1, 0]).is_err());
    assert!(n.get_at_grid_index([0, 4]).is_err());
    assert!(n.get_at_grid_index([3, 0]).is_err());
}

#[test]
fn out_of_bounds_error_carries_index_and_range() {
    let n = NoDataGrid2D::new([2, 2].into(), 1u8);
    match n.get_at_grid_index([5, -3]) {
        Err(geocore::Error::GridIndexOutOfBounds {
            index,
            min_index,
            max_index,
        }) => {
            assert_eq!(index, vec![5, -3]);
            assert_eq!(min_index, vec![0, 0]);
            assert_eq!(max_index, vec![1, 1]);
        }
        other => panic!("expected an out-of-bounds error, got {:?}", other),
    }
}

#[test]
fn convert_dtype_widens_unsigned_into_signed() {
    let n = NoDataGrid1D::new([5].into(), 200u8);
    let converted = n.convert_dtype::<i16>();
    assert_eq!(converted.no_data_value, 200i16);
    assert_eq!(converted.shape.shape_array, [5]);
}

#[test]
fn shift_by_offset_moves_only_the_frame() {
    let n = NoDataGrid2D::new([2, 3].into(), 9u8);
    let shifted = n.shift_by_offset([10, -5]);
    assert_eq!(shifted.shape.min_index, [10, -5]);
    assert_eq!(shifted.shape.max_index, [11, -3]);
    assert_eq!(shifted.no_data_value, 9);
    assert_eq!(shifted.get_at_grid_index([10, -5]).unwrap(), 9);
    assert!(shifted.get_at_grid_index([0, 0]).is_err());
}

#[test]
fn set_grid_bounds_rebases_the_grid() {
    let n = NoDataGrid2D::new([2, 2].into(), 3u8);
    let bounds = geocore::grid::GridBoundingBox2D::new([-1, -1], [4, 4]).unwrap();
    let rebased = n.set_grid_bounds(bounds).unwrap();
    assert_eq!(rebased.shape.min_index(), [-1, -1]);
    assert_eq!(rebased.shape.max_index(), [4, 4]);
    assert_eq!(rebased.no_data_value, 3);
}
