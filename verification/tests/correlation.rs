use alximo_corr::correlation::{normalizer_terms, Term};
use alximo_corr::covariance::prepare_covariance;
use alximo_corr::error::CorrError;
use alximo_corr::matrix::Matrix;

fn term(value: f64, row_variance: f64, column_variance: f64) -> Term<f64> {
    Term { value, row_variance, column_variance }
}

// The coefficient that a term stands for.
fn coefficient(t: &Term<f64>) -> f64 {
    let x = t.value / t.row_variance.sqrt() / t.column_variance.sqrt();
    x.min(1.).max(-1.)
}

// The covariance of the rows of `m`, with a correction of one and the
// deviations taken from the mean of all entries.
fn covariance(m: Matrix<f64>) -> Matrix<f64> {
    let input = prepare_covariance(m, None, true, false, None).unwrap();
    let mult = 1. / input.factor as f64;
    let rows = input.variables.into_rows();
    let count = rows.iter().map(|r| r.len()).sum::<usize>() as f64;
    let mean = rows.iter().flatten().sum::<f64>() / count;
    let c: Vec<Vec<f64>> = rows
        .iter()
        .map(|a| {
            rows.iter()
                .map(|b| a.iter().zip(b).map(|(x, y)| (x - mean) * (y - mean)).sum::<f64>() * mult)
                .collect()
        })
        .collect();
    let n = c.len();
    Matrix::from_rows(c, n).unwrap()
}

fn coefficients(c: Matrix<f64>) -> Vec<Vec<f64>> {
    let terms = normalizer_terms(c).unwrap();
    terms.into_rows().iter().map(|row| row.iter().map(coefficient).collect()).collect()
}

#[test]
fn terms_of_a_square_array() {
    let c = Matrix::from_rows(vec![vec![4., 1.], vec![2., 9.]], 2).unwrap();
    let t = normalizer_terms(c).unwrap();
    assert_eq!(t.nrows(), 2);
    assert_eq!(t.ncols(), 2);
    assert_eq!(
        t.into_rows(),
        vec![
            vec![term(4., 4., 4.), term(1., 4., 9.)],
            vec![term(2., 9., 4.), term(9., 9., 9.)],
        ]
    );
}

#[test]
fn terms_of_a_single_value() {
    let c = Matrix::from_rows(vec![vec![2.5]], 1).unwrap();
    let t = normalizer_terms(c).unwrap();
    assert_eq!(t.into_rows(), vec![vec![term(2.5, 2.5, 2.5)]]);
}

#[test]
fn terms_of_a_row_vector() {
    let c = Matrix::from_rows(vec![vec![4., 9., 16.]], 3).unwrap();
    let t = normalizer_terms(c).unwrap();
    assert_eq!(t.nrows(), 3);
    assert_eq!(t.ncols(), 3);
    assert_eq!(
        t.into_rows(),
        vec![
            vec![term(4., 4., 4.), term(9., 4., 9.), term(16., 4., 16.)],
            vec![term(4., 9., 4.), term(9., 9., 9.), term(16., 9., 16.)],
            vec![term(4., 16., 4.), term(9., 16., 9.), term(16., 16., 16.)],
        ]
    );
}

#[test]
fn terms_of_a_column_vector_are_those_of_the_row() {
    let column = Matrix::from_rows(vec![vec![4.], vec![9.]], 1).unwrap();
    let row = Matrix::from_rows(vec![vec![4., 9.]], 2).unwrap();
    assert_eq!(normalizer_terms(column), normalizer_terms(row));
}

#[test]
fn terms_of_an_empty_array() {
    let c: Matrix<f64> = Matrix::from_rows(Vec::new(), 0).unwrap();
    let t = normalizer_terms(c).unwrap();
    assert_eq!(t.nrows(), 0);
    assert_eq!(t.ncols(), 0);
}

#[test]
fn terms_need_a_square_array() {
    let wide = Matrix::from_rows(vec![vec![1., 2., 3.], vec![4., 5., 6.]], 3).unwrap();
    assert_eq!(normalizer_terms(wide), Err(CorrError::NotSquare));
    let tall = Matrix::from_rows(vec![vec![1., 2.], vec![3., 4.], vec![5., 6.]], 2).unwrap();
    assert_eq!(normalizer_terms(tall), Err(CorrError::NotSquare));
    let no_rows: Matrix<f64> = Matrix::from_rows(Vec::new(), 3).unwrap();
    assert_eq!(normalizer_terms(no_rows), Err(CorrError::NotSquare));
}

#[test]
fn diagonal_terms_are_one_entry() {
    let c = Matrix::from_rows(
        vec![vec![4., 1., 7.], vec![2., 9., 8.], vec![3., 5., 16.]],
        3,
    )
    .unwrap();
    let rows = normalizer_terms(c).unwrap().into_rows();
    for (i, row) in rows.iter().enumerate() {
        assert_eq!(row[i].value, row[i].row_variance);
        assert_eq!(row[i].value, row[i].column_variance);
        assert_eq!(coefficient(&row[i]), 1.);
    }
}

#[test]
fn coefficients_of_a_known_covariance() {
    let c = Matrix::from_rows(vec![vec![4., 3.], vec![3., 9.]], 2).unwrap();
    assert_eq!(coefficients(c), vec![vec![1., 0.5], vec![0.5, 1.]]);
}

#[test]
fn coefficients_stay_within_bounds() {
    let c = Matrix::from_rows(vec![vec![1., 1.0000000000000002], vec![-7., 1.]], 2).unwrap();
    let r = coefficients(c);
    assert_eq!(r, vec![vec![1., 1.], vec![-1., 1.]]);
}

#[test]
fn coefficients_of_a_single_variable() {
    let m = Matrix::from_rows(vec![vec![1., 2., 4., 8.]], 4).unwrap();
    let c = covariance(m);
    assert_eq!(c.nrows(), 1);
    assert_eq!(c.ncols(), 1);
    let r = coefficients(c);
    assert_eq!(r.len(), 1);
    assert!((r[0][0] - 1.).abs() < 1e-14);
}

#[test]
fn coefficients_of_two_variables() {
    let m = Matrix::from_rows(vec![vec![1., 2., 3.], vec![4., 5., 6.]], 3).unwrap();
    let r = coefficients(covariance(m));
    assert_eq!(r.len(), 2);
    assert!((r[0][0] - 1.).abs() < 1e-14);
    assert!((r[1][1] - 1.).abs() < 1e-14);
    assert!((r[0][1] - (-2.375 / 4.375)).abs() < 1e-14);
    assert!((r[0][1] - r[1][0]).abs() < 1e-14);
}

#[test]
fn test_corrcoef() {
    let x_arr = Matrix::from_rows(
        vec![
            vec![-12.5, 140.25, 33.],
            vec![199.5, -40., 87.125],
            vec![0.5, 61.75, 172.375],
        ],
        3,
    )
    .unwrap();
    let r = coefficients(covariance(x_arr.clone()));
    println!("{:?}", r);
    assert_eq!(r.len(), 3);
    for i in 0..3 {
        assert_eq!(r[i].len(), 3);
        assert!((r[i][i] - 1.).abs() < 1e-12);
        for j in 0..3 {
            assert!(-1. <= r[i][j] && r[i][j] <= 1.);
            assert!((r[i][j] - r[j][i]).abs() < 1e-12);
        }
    }

    let y_arr = Matrix::from_rows(
        vec![
            vec![101., -3.5, 18.75],
            vec![44.25, 190., -39.],
            vec![-8., 76.5, 120.],
        ],
        3,
    )
    .unwrap();
    let input = prepare_covariance(x_arr, Some(y_arr), false, false, None).unwrap();
    assert_eq!(input.factor, 2);
    assert_eq!(input.variables.nrows(), 6);
    let r = coefficients(covariance(input.variables));
    println!("{:?}", r);
    assert_eq!(r.len(), 6);
    for i in 0..6 {
        assert_eq!(r[i].len(), 6);
        assert!((r[i][i] - 1.).abs() < 1e-12);
        for j in 0..6 {
            assert!(-1. <= r[i][j] && r[i][j] <= 1.);
            assert!((r[i][j] - r[j][i]).abs() < 1e-12);
        }
    }
}
