use math_lib::Matrix3x3;

#[test]
fn create_matrix() {
    let expected = Matrix3x3 {
        data: [1., 2., 3., 1., 2., 3., 1., 2., 3.],
    };
    let mat3 = Matrix3x3::new(1., 1., 1., 2., 2., 2., 3., 3., 3.);

    assert_eq!(mat3, expected);
}

#[test]
fn storage_is_column_major() {
    let m = Matrix3x3::new(1, 2, 3, 4, 5, 6, 7, 8, 9);
    assert_eq!(m.data, [1, 4, 7, 2, 5, 8, 3, 6, 9]);
}

#[test]
fn row_major_readback_gives_constructor_values() {
    let m = Matrix3x3::new(1.5f32, -2., 3., 4., 0., 6., 7., 8., -9.25);
    assert_eq!(m.to_row_major(), [1.5, -2., 3., 4., 0., 6., 7., 8., -9.25]);
}

#[test]
fn get_reads_row_then_column() {
    let m = Matrix3x3::new(1, 2, 3, 4, 5, 6, 7, 8, 9);
    assert_eq!(m.get(0, 0), 1);
    assert_eq!(m.get(0, 2), 3);
    assert_eq!(m.get(2, 0), 7);
    assert_eq!(m.get(1, 2), 6);
}

#[test]
fn rows_and_columns() {
    let m = Matrix3x3::new(1, 2, 3, 4, 5, 6, 7, 8, 9);
    assert_eq!(m.row(0), [1, 2, 3]);
    assert_eq!(m.row(2), [7, 8, 9]);
    assert_eq!(m.column(0), [1, 4, 7]);
    assert_eq!(m.column(1), [2, 5, 8]);
}

#[test]
fn transpose_swaps_rows_and_columns() {
    let m = Matrix3x3::new(1, 2, 3, 4, 5, 6, 7, 8, 9);
    assert_eq!(m.transpose(), Matrix3x3::new(1, 4, 7, 2, 5, 8, 3, 6, 9));
}

#[test]
fn transpose_twice_gives_back_matrix() {
    let m = Matrix3x3::new(3., 2., 5., 2., -1., 4., -1., 2., 1.);
    assert_eq!(m.transpose().transpose(), m);
    let n = Matrix3x3::new(1, 2, 3, 4, 5, 6, 7, 8, 9);
    assert_eq!(n.transpose().transpose().transpose().transpose(), n);
}

#[test]
fn symmetric_matrix_is_its_own_transpose() {
    let m = Matrix3x3::new(1, 2, 3, 2, 4, 5, 3, 5, 6);
    assert_eq!(m.transpose(), m);
}

#[test]
fn minors_leave_out_row_and_column() {
    let m = Matrix3x3::new(1, 2, 3, 4, 5, 6, 7, 8, 9);
    assert_eq!(m.minor(0, 0), [5, 6, 8, 9]);
    assert_eq!(m.minor(0, 1), [4, 6, 7, 9]);
    assert_eq!(m.minor(1, 1), [1, 3, 7, 9]);
    assert_eq!(m.minor(2, 2), [1, 2, 4, 5]);
    assert_eq!(m.minor(2, 0), [2, 3, 5, 6]);
}

#[test]
fn from_row_major_matches_new() {
    let m = Matrix3x3::from_row_major([1, 2, 3, 4, 5, 6, 7, 8, 9]);
    assert_eq!(m, Matrix3x3::new(1, 2, 3, 4, 5, 6, 7, 8, 9));
    assert_eq!(m.data, [1, 4, 7, 2, 5, 8, 3, 6, 9]);
}
