use ace_gl_types::{augment_bottom, augment_right, IntMatrix};

fn rows_of<R, C, S>(matrix: &nalgebra::Matrix<i32, R, C, S>) -> Vec<Vec<i32>>
where
    R: nalgebra::Dim,
    C: nalgebra::Dim,
    S: nalgebra::RawStorage<i32, R, C>,
{
    (0..matrix.nrows())
        .map(|row| (0..matrix.ncols()).map(|column| matrix[(row, column)]).collect())
        .collect()
}

fn matrix_of<R, C, S>(matrix: &nalgebra::Matrix<i32, R, C, S>) -> IntMatrix
where
    R: nalgebra::Dim,
    C: nalgebra::Dim,
    S: nalgebra::RawStorage<i32, R, C>,
{
    IntMatrix::from_rows(&rows_of(matrix)).unwrap()
}

#[test]
fn augment_bottom_works() {
    let matrix_one = nalgebra::DMatrix::identity(3, 3);
    let augment_matrix = nalgebra::DMatrix::from_vec(1, 3, vec![2, 3, 4]);
    let augmented_matrix = nalgebra::Matrix4x3::new(
        1, 0, 0,
        0, 1, 0,
        0, 0, 1,
        2, 3, 4
    );
    let new_matrix = augment_bottom(matrix_of(&matrix_one), matrix_of(&augment_matrix));
    let new_matrix = new_matrix.expect("failed to augment");
    assert_eq!(new_matrix.to_rows(), rows_of(&augmented_matrix));
}

#[test]
fn augment_right_works() {
    let matrix_one = nalgebra::DMatrix::identity(3, 3);
    let augment_matrix = nalgebra::DMatrix::from_vec(3, 1, vec![2, 3, 4]);
    let augmented_matrix = nalgebra::Matrix3x4::new(
        1, 0, 0, 2,
        0, 1, 0, 3,
        0, 0, 1, 4,
    );
    let new_matrix = augment_right(matrix_of(&matrix_one), matrix_of(&augment_matrix));
    let new_matrix = new_matrix.expect("failed to augment");
    assert_eq!(new_matrix.to_rows(), rows_of(&augmented_matrix));
}

fn matrix(rows: &[&[i32]]) -> IntMatrix {
    let rows: Vec<Vec<i32>> = rows.iter().map(|row| row.to_vec()).collect();
    IntMatrix::from_rows(&rows).unwrap()
}

#[test]
fn matrix_is_made_of_its_rows() {
    let m = matrix(&[&[1, 2, 3], &[4, 5, 6]]);
    assert_eq!(m.nrows(), 2);
    assert_eq!(m.ncols(), 3);
    assert_eq!(m.get(0, 0), Some(1));
    assert_eq!(m.get(1, 2), Some(6));
    assert_eq!(m.get(0, 2), Some(3));
    assert_eq!(m.get(2, 0), None);
    assert_eq!(m.get(0, 3), None);
    assert_eq!(m.to_rows(), vec![vec![1, 2, 3], vec![4, 5, 6]]);
}

#[test]
fn ragged_rows_make_no_matrix() {
    assert!(IntMatrix::from_rows(&vec![vec![1, 2], vec![3]]).is_none());
    assert!(IntMatrix::from_rows(&vec![vec![], vec![3]]).is_none());
    let empty = IntMatrix::from_rows(&Vec::new()).unwrap();
    assert_eq!((empty.nrows(), empty.ncols()), (0, 0));
    let hollow = IntMatrix::from_rows(&vec![vec![], vec![]]).unwrap();
    assert_eq!((hollow.nrows(), hollow.ncols()), (2, 0));
}

#[test]
fn wide_matrix_is_augmented_to_the_right_after_its_last_column() {
    let left = matrix(&[&[1, 2, 3], &[4, 5, 6]]);
    let right = matrix(&[&[7, 8], &[9, 10]]);
    let joined = augment_right(left, right).unwrap();
    assert_eq!(joined.to_rows(), vec![vec![1, 2, 3, 7, 8], vec![4, 5, 6, 9, 10]]);
}

#[test]
fn tall_matrix_is_augmented_to_the_right() {
    let left = matrix(&[&[1], &[2], &[3]]);
    let right = matrix(&[&[4, 5], &[6, 7], &[8, 9]]);
    let joined = augment_right(left, right).unwrap();
    assert_eq!(joined.to_rows(), vec![vec![1, 4, 5], vec![2, 6, 7], vec![3, 8, 9]]);
}

#[test]
fn matrices_of_different_heights_are_not_put_side_by_side() {
    assert!(augment_right(matrix(&[&[1, 2]]), matrix(&[&[1], &[2]])).is_none());
    assert!(augment_right(matrix(&[]), matrix(&[])).is_none());
    assert!(augment_right(matrix(&[&[], &[]]), matrix(&[&[1], &[2]])).is_none());
}

#[test]
fn nothing_to_the_right_leaves_the_matrix() {
    let joined = augment_right(matrix(&[&[1, 2], &[3, 4]]), matrix(&[&[], &[]])).unwrap();
    assert_eq!(joined.to_rows(), vec![vec![1, 2], vec![3, 4]]);
}

#[test]
fn matrix_is_augmented_at_the_bottom() {
    let upper = matrix(&[&[1, 2]]);
    let lower = matrix(&[&[3, 4], &[5, 6]]);
    let joined = augment_bottom(upper, lower).unwrap();
    assert_eq!(joined.to_rows(), vec![vec![1, 2], vec![3, 4], vec![5, 6]]);
}

#[test]
fn matrices_of_different_widths_are_not_put_above_each_other() {
    assert!(augment_bottom(matrix(&[&[1, 2]]), matrix(&[&[1], &[2]])).is_none());
    assert!(augment_bottom(matrix(&[]), matrix(&[])).is_none());
    assert!(augment_bottom(matrix(&[&[], &[]]), matrix(&[&[], &[]])).is_none());
}
