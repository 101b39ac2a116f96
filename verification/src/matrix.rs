use crate::error::CorrError;
use vstd::prelude::*;

verus! {

/// The mathematical model of a two-dimensional array: its rows, and the
/// number of columns, which is kept apart so that an array without rows
/// still has a definite shape.
pub struct Table<A> {
    pub rows: Seq<Seq<A>>,
    pub width: nat,
}

impl<A> Table<A> {
    /// The number of rows.
    pub open spec fn height(self) -> nat {
        self.rows.len()
    }

    /// Every row has exactly `width` entries.
    pub open spec fn wf(self) -> bool {
        forall|i: int| 0 <= i < self.rows.len() ==> (#[trigger] self.rows[i]).len() == self.width
    }

    /// The entry in row `i` and column `j`.
    pub open spec fn at(self, i: int, j: int) -> A {
        self.rows[i][j]
    }

    /// The table turned over its diagonal: row `j` of the result is column
    /// `j` of this table.
    pub open spec fn transposed(self) -> Table<A> {
        Table {
            rows: Seq::new(self.width, |j: int| Seq::new(self.height(), |i: int| self.rows[i][j])),
            width: self.height(),
        }
    }

    /// The table with the rows of `below` appended.
    pub open spec fn stacked(self, below: Table<A>) -> Table<A> {
        Table { rows: self.rows + below.rows, width: self.width }
    }

    /// The table with `v` as its only row.
    pub open spec fn single_row(v: Seq<A>) -> Table<A> {
        Table { rows: seq![v], width: v.len() }
    }
}

/// The rows of a nested vector, each taken as a sequence.
pub open spec fn rows_of<A>(rows: Seq<Vec<A>>) -> Seq<Seq<A>> {
    Seq::new(rows.len(), |i: int| rows[i]@)
}

/// A dense two-dimensional array, stored row by row.
#[derive(Debug, PartialEq)]
pub struct Matrix<A> {
    rows: Vec<Vec<A>>,
    cols: usize,
}

impl<A> View for Matrix<A> {
    type V = Table<A>;

    closed spec fn view(&self) -> Table<A> {
        Table { rows: rows_of(self.rows@), width: self.cols as nat }
    }
}

impl<A: Copy> Clone for Matrix<A> {
    /// A second array with the same entries.
    fn clone(&self) -> (r: Self)
        ensures
            r@ == self@,
    {
        let mut rows: Vec<Vec<A>> = Vec::new();
        let mut i: usize = 0;
        while i < self.rows.len()
            invariant
                i <= self.rows@.len(),
                rows@.len() == i,
                forall|k: int| 0 <= k < i ==> (#[trigger] rows@[k])@ == self.rows@[k]@,
            decreases self.rows@.len() - i,
        {
            let source = &self.rows[i];
            let mut row: Vec<A> = Vec::new();
            let mut j: usize = 0;
            while j < source.len()
                invariant
                    j <= source@.len(),
                    row@.len() == j,
                    forall|k: int| 0 <= k < j ==> #[trigger] row@[k] == source@[k],
                decreases source@.len() - j,
            {
                row.push(source[j]);
                j += 1;
            }
            assert(row@ =~= source@);
            rows.push(row);
            i += 1;
        }
        assert(rows_of(rows@) =~= rows_of(self.rows@));
        proof {
            use_type_invariant(self);
        }
        Matrix { rows, cols: self.cols }
    }
}

impl<A> Matrix<A> {
    #[verifier::type_invariant]
    pub closed spec fn inv(&self) -> bool {
        self@.wf()
    }

    /// Builds an array from its rows; `None` when some row does not have
    /// `cols` entries.
    pub fn from_rows(rows: Vec<Vec<A>>, cols: usize) -> (r: Option<Self>)
        ensures
            r.is_some() <==> (Table { rows: rows_of(rows@), width: cols as nat }).wf(),
            r matches Some(m) ==> m@ == (Table { rows: rows_of(rows@), width: cols as nat }),
    {
        let ghost table = Table { rows: rows_of(rows@), width: cols as nat };
        let mut i: usize = 0;
        while i < rows.len()
            invariant
                i <= rows.len(),
                table == (Table { rows: rows_of(rows@), width: cols as nat }),
                forall|k: int| 0 <= k < i ==> (#[trigger] table.rows[k]).len() == cols,
            decreases rows.len() - i,
        {
            if rows[i].len() != cols {
                assert(table.rows[i as int].len() != table.width);
                return None;
            }
            i += 1;
        }
        Some(Matrix { rows, cols })
    }

    /// The array with `v` as its only row.
    pub fn from_row(v: Vec<A>) -> (r: Self)
        ensures
            r@ == Table::single_row(v@),
    {
        let cols = v.len();
        let mut rows: Vec<Vec<A>> = Vec::new();
        rows.push(v);
        assert(rows_of(rows@) =~= seq![v@]);
        Matrix { rows, cols }
    }

    /// The number of rows.
    pub fn nrows(&self) -> (n: usize)
        ensures
            n == self@.height(),
    {
        self.rows.len()
    }

    /// The number of columns.
    pub fn ncols(&self) -> (n: usize)
        ensures
            n == self@.width,
    {
        self.cols
    }

    /// The entry in row `i` and column `j`, if there is one.
    pub fn get(&self, i: usize, j: usize) -> (r: Option<&A>)
        ensures
            r.is_some() <==> i < self@.height() && j < self@.width,
            r matches Some(a) ==> *a == self@.at(i as int, j as int),
    {
        proof {
            use_type_invariant(self);
        }
        if i < self.rows.len() && j < self.cols {
            assert(self@.rows[i as int].len() == self.cols);
            Some(&self.rows[i][j])
        } else {
            None
        }
    }

    /// Gives the rows back.
    pub fn into_rows(self) -> (rows: Vec<Vec<A>>)
        ensures
            rows_of(rows@) == self@.rows,
            self@.wf(),
    {
        proof {
            use_type_invariant(&self);
        }
        self.rows
    }

    /// The array turned over its diagonal: rows become columns.
    pub fn transposed(&self) -> (r: Self) where A: Copy
        ensures
            r@ == self@.transposed(),
    {
        proof {
            use_type_invariant(self);
        }
        let n = self.rows.len();
        let mut out: Vec<Vec<A>> = Vec::new();
        let mut j: usize = 0;
        while j < self.cols
            invariant
                j <= self.cols,
                n == self.rows@.len(),
                self@.wf(),
                out@.len() == j,
                forall|k: int| 0 <= k < j ==> (#[trigger] out@[k])@ == self@.transposed().rows[k],
            decreases self.cols - j,
        {
            let mut column: Vec<A> = Vec::new();
            let mut i: usize = 0;
            while i < n
                invariant
                    i <= n,
                    j < self.cols,
                    n == self.rows@.len(),
                    self@.wf(),
                    column@.len() == i,
                    forall|k: int| 0 <= k < i ==> #[trigger] column@[k] == self@.rows[k][j as int],
                decreases n - i,
            {
                assert(self@.rows[i as int].len() == self.cols);
                column.push(self.rows[i][j]);
                i += 1;
            }
            assert(column@ =~= self@.transposed().rows[j as int]);
            out.push(column);
            j += 1;
        }
        assert(rows_of(out@) =~= self@.transposed().rows);
        Matrix { rows: out, cols: n }
    }

    /// The array with the rows of `below` appended to its own. Both must have
    /// the same number of columns.
    pub fn stacked(self, below: Self) -> (r: Result<Self, CorrError>)
        ensures
            self@.width != below@.width ==> r == Err::<Self, CorrError>(
                CorrError::ObservationMismatch,
            ),
            self@.width == below@.width ==> r.is_ok(),
            r matches Ok(m) ==> m@ == self@.stacked(below@),
    {
        proof {
            use_type_invariant(&self);
            use_type_invariant(&below);
        }
        if self.cols != below.cols {
            return Err(CorrError::ObservationMismatch);
        }
        let cols = self.cols;
        let mut rows = self.rows;
        let mut more = below.rows;
        rows.append(&mut more);
        assert(rows_of(rows@) =~= self@.rows + below@.rows);
        Ok(Matrix { rows, cols })
    }
}

} // verus!
