use crate::error::CorrError;
use crate::matrix::{rows_of, Matrix, Table};
use crate::shape::{flattened, rank_of, reduce, Rank, Reduced};
use vstd::prelude::*;

verus! {

/// The three covariance entries that one correlation coefficient is made
/// of: the coefficient is `value`, divided by the square root of
/// `row_variance`, divided by the square root of `column_variance`.
#[derive(Debug, PartialEq)]
pub struct Term<A> {
    pub value: A,
    pub row_variance: A,
    pub column_variance: A,
}

/// The number of rows, and of columns, of the correlation array that belongs
/// to the covariance array `c`: one for a single value, the number of
/// entries for a vector, the number of rows for a square array. Any other
/// shape is refused.
pub open spec fn order_of<A>(c: Table<A>) -> Result<nat, CorrError> {
    match rank_of(c.height(), c.width) {
        Rank::Scalar => Ok(1),
        Rank::Vector => Ok(flattened(c.rows).len()),
        Rank::Matrix => if c.height() == c.width {
            Ok(c.height())
        } else {
            Err(CorrError::NotSquare)
        },
    }
}

/// The entries of `c` that the coefficient in row `i` and column `j` is made
/// of. A vector is its own diagonal, and its entry `j` is spread over
/// column `j`.
pub open spec fn term_at<A>(c: Table<A>, i: int, j: int) -> Term<A> {
    match rank_of(c.height(), c.width) {
        Rank::Scalar => Term {
            value: c.at(0, 0),
            row_variance: c.at(0, 0),
            column_variance: c.at(0, 0),
        },
        Rank::Vector => Term {
            value: flattened(c.rows)[j],
            row_variance: flattened(c.rows)[i],
            column_variance: flattened(c.rows)[j],
        },
        Rank::Matrix => Term {
            value: c.at(i, j),
            row_variance: c.at(i, i),
            column_variance: c.at(j, j),
        },
    }
}

/// The square table of order `n` whose entries are the terms of `c`.
pub open spec fn term_table<A>(c: Table<A>, n: nat) -> Table<Term<A>> {
    Table { rows: Seq::new(n, |i: int| Seq::new(n, |j: int| term_at(c, i, j))), width: n }
}

/// The terms of the correlation array that belongs to `c`, or why there is
/// none.
pub open spec fn terms_of<A>(c: Table<A>) -> Result<Table<Term<A>>, CorrError> {
    match order_of(c) {
        Ok(n) => Ok(term_table(c, n)),
        Err(e) => Err(e),
    }
}

/// One row of terms over a vector: row `i` of the table for `v`.
fn vector_row<A: Copy>(v: &Vec<A>, i: usize) -> (row: Vec<Term<A>>)
    requires
        i < v@.len(),
    ensures
        row@.len() == v@.len(),
        forall|j: int|
            0 <= j < v@.len() ==> #[trigger] row@[j] == (Term {
                value: v@[j],
                row_variance: v@[i as int],
                column_variance: v@[j],
            }),
{
    let mut row: Vec<Term<A>> = Vec::new();
    let mut j: usize = 0;
    while j < v.len()
        invariant
            j <= v@.len(),
            i < v@.len(),
            row@.len() == j,
            forall|k: int|
                0 <= k < j ==> #[trigger] row@[k] == (Term {
                    value: v@[k],
                    row_variance: v@[i as int],
                    column_variance: v@[k],
                }),
        decreases v@.len() - j,
    {
        row.push(Term { value: v[j], row_variance: v[i], column_variance: v[j] });
        j += 1;
    }
    row
}

/// One row of terms over a square array: row `i` of the table for `m`.
fn matrix_row<A: Copy>(m: &Matrix<A>, i: usize) -> (row: Vec<Term<A>>)
    requires
        m@.height() == m@.width,
        i < m@.height(),
    ensures
        row@.len() == m@.height(),
        forall|j: int|
            0 <= j < m@.height() ==> #[trigger] row@[j] == (Term {
                value: m@.at(i as int, j),
                row_variance: m@.at(i as int, i as int),
                column_variance: m@.at(j, j),
            }),
{
    let n = m.nrows();
    let mut row: Vec<Term<A>> = Vec::new();
    let mut j: usize = 0;
    while j < n
        invariant
            j <= n,
            n == m@.height(),
            n == m@.width,
            i < n,
            row@.len() == j,
            forall|k: int|
                0 <= k < j ==> #[trigger] row@[k] == (Term {
                    value: m@.at(i as int, k),
                    row_variance: m@.at(i as int, i as int),
                    column_variance: m@.at(k, k),
                }),
        decreases n - j,
    {
        let value = *m.get(i, j).unwrap();
        let row_variance = *m.get(i, i).unwrap();
        let column_variance = *m.get(j, j).unwrap();
        row.push(Term { value, row_variance, column_variance });
        j += 1;
    }
    row
}

/// Gathers, for every coefficient of the correlation array that belongs to
/// the covariance array `c`, the entries of `c` that it is made of. The
/// result is square whatever the shape of `c`: a single value gives one
/// coefficient, a vector of `n` entries gives `n` by `n`.
pub fn normalizer_terms<A: Copy>(c: Matrix<A>) -> (r: Result<Matrix<Term<A>>, CorrError>)
    ensures
        match r {
            Ok(t) => terms_of(c@) == Ok::<Table<Term<A>>, CorrError>(t@),
            Err(e) => terms_of(c@) == Err::<Table<Term<A>>, CorrError>(e),
        },
{
    let ghost model = c@;
    let mut rows: Vec<Vec<Term<A>>> = Vec::new();
    let n: usize;
    match reduce(c) {
        Reduced::Scalar(a) => {
            n = 1;
            let mut row: Vec<Term<A>> = Vec::new();
            row.push(Term { value: a, row_variance: a, column_variance: a });
            rows.push(row);
            assert(rows_of(rows@) =~= term_table(model, 1).rows) by {
                assert(rows_of(rows@)[0] =~= term_table(model, 1).rows[0]);
            }
        },
        Reduced::Vector(v) => {
            n = v.len();
            let mut i: usize = 0;
            while i < n
                invariant
                    i <= n,
                    n == v@.len(),
                    v@ == flattened(model.rows),
                    rank_of(model.height(), model.width) == Rank::Vector,
                    rows@.len() == i,
                    forall|k: int|
                        0 <= k < i ==> (#[trigger] rows@[k])@ =~= term_table(model, n as nat).rows[k],
                decreases n - i,
            {
                let row = vector_row(&v, i);
                assert(row@ =~= term_table(model, n as nat).rows[i as int]);
                rows.push(row);
                i += 1;
            }
            assert(rows_of(rows@) =~= term_table(model, n as nat).rows);
        },
        Reduced::Matrix(m) => {
            n = m.nrows();
            if n != m.ncols() {
                return Err(CorrError::NotSquare);
            }
            let mut i: usize = 0;
            while i < n
                invariant
                    i <= n,
                    m@ == model,
                    n == model.height(),
                    n == model.width,
                    rank_of(model.height(), model.width) == Rank::Matrix,
                    rows@.len() == i,
                    forall|k: int|
                        0 <= k < i ==> (#[trigger] rows@[k])@ =~= term_table(model, n as nat).rows[k],
                decreases n - i,
            {
                let row = matrix_row(&m, i);
                assert(row@ =~= term_table(model, n as nat).rows[i as int]);
                rows.push(row);
                i += 1;
            }
            assert(rows_of(rows@) =~= term_table(model, n as nat).rows);
        },
    }
    let ghost table = Table { rows: rows_of(rows@), width: n as nat };
    assert(table == term_table(model, n as nat));
    assert(table.wf()) by {
        assert forall|i: int| 0 <= i < table.rows.len() implies (#[trigger] table.rows[i]).len()
            == table.width by {}
    }
    let built = Matrix::from_rows(rows, n);
    Ok(built.unwrap())
}

/// A square covariance array gives a correlation array of the same order.
pub proof fn lemma_square_keeps_order<A>(c: Table<A>)
    requires
        c.height() == c.width,
    ensures
        order_of(c) == Ok::<nat, CorrError>(c.height()),
        terms_of(c) matches Ok(t) && t.height() == c.height() && t.width == c.width && t.wf(),
{
    let t = term_table(c, c.height());
    assert forall|i: int| 0 <= i < t.rows.len() implies (#[trigger] t.rows[i]).len()
        == t.width by {}
}

/// Every coefficient on the diagonal is made of one entry taken three
/// times: a variance over the product of its own two square roots.
pub proof fn lemma_diagonal_term_is_one_entry<A>(c: Table<A>, i: int)
    requires
        order_of(c) matches Ok(n) && 0 <= i < n,
    ensures
        terms_of(c) matches Ok(t) && t.at(i, i).value == t.at(i, i).row_variance && t.at(
            i,
            i,
        ).value == t.at(i, i).column_variance,
{
}

/// Where a square covariance array has equal entries at two mirrored
/// places, the two coefficients there are made of the same three entries,
/// with the two variances changing places.
pub proof fn lemma_mirrored_terms<A>(c: Table<A>, i: int, j: int)
    requires
        c.height() == c.width,
        0 <= i < c.height(),
        0 <= j < c.height(),
        c.at(i, j) == c.at(j, i),
    ensures
        terms_of(c) matches Ok(t) && t.at(i, j).value == t.at(j, i).value && t.at(
            i,
            j,
        ).row_variance == t.at(j, i).column_variance && t.at(i, j).column_variance == t.at(
            j,
            i,
        ).row_variance,
{
}

} // verus!
