use alximo_corr::matrix::Matrix;
use alximo_corr::shape::{rank, reduce, squeeze, squeeze_both, Rank, Reduced};

#[test]
fn rank_of_each_shape() {
    assert_eq!(rank(1, 1), Rank::Scalar);
    assert_eq!(rank(1, 5), Rank::Vector);
    assert_eq!(rank(5, 1), Rank::Vector);
    assert_eq!(rank(1, 0), Rank::Vector);
    assert_eq!(rank(0, 1), Rank::Vector);
    assert_eq!(rank(2, 2), Rank::Matrix);
    assert_eq!(rank(0, 0), Rank::Matrix);
    assert_eq!(rank(3, 2), Rank::Matrix);
}

#[test]
fn squeeze_drops_the_row_axis() {
    let m = Matrix::from_rows(vec![vec![1.5, 2.5, 3.5]], 3).unwrap();
    assert_eq!(squeeze(m), Some(vec![1.5, 2.5, 3.5]));
}

#[test]
fn squeeze_drops_the_column_axis() {
    let m = Matrix::from_rows(vec![vec![1.5], vec![2.5], vec![3.5], vec![4.5]], 1).unwrap();
    assert_eq!(squeeze(m), Some(vec![1.5, 2.5, 3.5, 4.5]));
}

#[test]
fn squeeze_of_a_single_value_is_a_vector_of_one() {
    let m = Matrix::from_rows(vec![vec![9]], 1).unwrap();
    assert_eq!(squeeze(m), Some(vec![9]));
}

#[test]
fn squeeze_leaves_a_matrix_alone() {
    let m = Matrix::from_rows(vec![vec![1, 2], vec![3, 4]], 2).unwrap();
    assert_eq!(squeeze(m), None);
}

#[test]
fn squeeze_of_empty_vectors() {
    let row: Matrix<i32> = Matrix::from_rows(vec![Vec::new()], 0).unwrap();
    assert_eq!(squeeze(row), Some(Vec::new()));
    let column: Matrix<i32> = Matrix::from_rows(Vec::new(), 1).unwrap();
    assert_eq!(squeeze(column), Some(Vec::new()));
    let nothing: Matrix<i32> = Matrix::from_rows(Vec::new(), 0).unwrap();
    assert_eq!(squeeze(nothing), None);
}

#[test]
fn squeeze_works_without_copying() {
    let m = Matrix::from_rows(
        vec![vec![String::from("a")], vec![String::from("b")], vec![String::from("c")]],
        1,
    )
    .unwrap();
    assert_eq!(
        squeeze(m),
        Some(vec![String::from("a"), String::from("b"), String::from("c")])
    );
}

#[test]
fn squeeze_both_needs_a_single_value() {
    let one = Matrix::from_rows(vec![vec![4.25]], 1).unwrap();
    assert_eq!(squeeze_both(one), Some(4.25));
    let row = Matrix::from_rows(vec![vec![1, 2]], 2).unwrap();
    assert_eq!(squeeze_both(row), None);
    let column = Matrix::from_rows(vec![vec![1], vec![2]], 1).unwrap();
    assert_eq!(squeeze_both(column), None);
    let square = Matrix::from_rows(vec![vec![1, 2], vec![3, 4]], 2).unwrap();
    assert_eq!(squeeze_both(square), None);
}

#[test]
fn reduce_picks_the_lowest_rank() {
    let one = Matrix::from_rows(vec![vec![4]], 1).unwrap();
    assert_eq!(reduce(one), Reduced::Scalar(4));
    let row = Matrix::from_rows(vec![vec![1, 2]], 2).unwrap();
    assert_eq!(reduce(row), Reduced::Vector(vec![1, 2]));
    let column = Matrix::from_rows(vec![vec![1], vec![2]], 1).unwrap();
    assert_eq!(reduce(column), Reduced::Vector(vec![1, 2]));
    let square = Matrix::from_rows(vec![vec![1, 2], vec![3, 4]], 2).unwrap();
    assert_eq!(reduce(square.clone()), Reduced::Matrix(square));
}
