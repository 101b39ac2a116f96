use crate::matrix::Matrix;
use vstd::prelude::*;

verus! {

/// How far an array of a given shape can be reduced without losing an entry.
#[derive(Clone, Copy, Debug, PartialEq, Eq, Structural)]
pub enum Rank {
    /// Both axes have extent one: the array is a single value.
    Scalar,
    /// Exactly one axis has extent one: the array is a vector.
    Vector,
    /// Neither axis has extent one: nothing can be dropped.
    Matrix,
}

/// The rank that an array with `rows` rows and `cols` columns reduces to.
pub open spec fn rank_of(rows: nat, cols: nat) -> Rank {
    if rows == 1 && cols == 1 {
        Rank::Scalar
    } else if rows == 1 || cols == 1 {
        Rank::Vector
    } else {
        Rank::Matrix
    }
}

/// What is left of an array once its axes of extent one are dropped: the
/// first one found, looking at the rows and then at the columns.
pub open spec fn flattened<A>(m: Seq<Seq<A>>) -> Seq<A> {
    if m.len() == 1 {
        m[0]
    } else {
        Seq::new(m.len(), |i: int| m[i][0])
    }
}

/// An array after its axes of extent one were dropped.
#[derive(Debug, PartialEq)]
pub enum Reduced<A> {
    /// The only entry of a one-by-one array.
    Scalar(A),
    /// The entries of a single row or of a single column, in order.
    Vector(Vec<A>),
    /// The array itself: no axis could be dropped.
    Matrix(Matrix<A>),
}

/// Decides from the shape alone how far an array can be reduced.
pub fn rank(rows: usize, cols: usize) -> (r: Rank)
    ensures
        r == rank_of(rows as nat, cols as nat),
{
    if rows == 1 && cols == 1 {
        Rank::Scalar
    } else if rows == 1 || cols == 1 {
        Rank::Vector
    } else {
        Rank::Matrix
    }
}

/// Every row of `m` has exactly one entry.
spec fn one_wide<A>(m: Seq<Seq<A>>) -> bool {
    forall|i: int| 0 <= i < m.len() ==> (#[trigger] m[i]).len() == 1
}

/// Drops one axis of extent one, the row axis if it has it and else the
/// column axis, and returns the entries as a vector. `None` when neither
/// axis has extent one.
pub fn squeeze<A>(x: Matrix<A>) -> (r: Option<Vec<A>>) where A: Clone
    ensures
        r.is_some() <==> x@.height() == 1 || x@.width == 1,
        r matches Some(v) ==> v@ == flattened(x@.rows),
{
    let n = x.nrows();
    let single_column = x.ncols() == 1;
    let ghost model = x@.rows;
    let mut rows = x.into_rows();
    if n == 1 {
        let row = rows.pop();
        return row;
    }
    if !single_column {
        return None;
    }
    // Take the entries out from the last row to the first, then turn the
    // vector round.
    let mut backwards: Vec<A> = Vec::new();
    let mut k: usize = 0;
    while k < n
        invariant
            k <= n,
            n == model.len(),
            one_wide(model),
            rows@.len() == n - k,
            forall|i: int| 0 <= i < n - k ==> (#[trigger] rows@[i])@ == model[i],
            backwards@.len() == k,
            forall|i: int| 0 <= i < k ==> #[trigger] backwards@[i] == model[n - 1 - i][0],
        decreases n - k,
    {
        let mut row = rows.pop().unwrap();
        assert(row@ == model[n - 1 - k]);
        assert(model[n - 1 - k].len() == 1);
        let entry = row.pop().unwrap();
        backwards.push(entry);
        k += 1;
    }
    let mut out: Vec<A> = Vec::new();
    let ghost reversed = backwards@;
    let mut t: usize = 0;
    while t < n
        invariant
            t <= n,
            n == model.len(),
            reversed.len() == n,
            backwards@ == reversed.subrange(0, n - t),
            out@.len() == t,
            forall|i: int| 0 <= i < t ==> #[trigger] out@[i] == reversed[n - 1 - i],
        decreases n - t,
    {
        let entry = backwards.pop().unwrap();
        out.push(entry);
        t += 1;
    }
    assert(out@ =~= flattened(model));
    Some(out)
}

/// Drops both axes of a one-by-one array and returns its entry. `None` for
/// every other shape.
pub fn squeeze_both<A>(x: Matrix<A>) -> (r: Option<A>) where A: Clone
    ensures
        r.is_some() <==> x@.height() == 1 && x@.width == 1,
        r matches Some(a) ==> a == x@.at(0, 0),
{
    if x.nrows() == 1 && x.ncols() == 1 {
        let ghost model = x@.rows;
        let mut rows = x.into_rows();
        let mut row = rows.pop().unwrap();
        assert(row@ == model[0]);
        assert(model[0].len() == 1);
        row.pop()
    } else {
        None
    }
}

/// Reduces an array as far as its shape allows.
pub fn reduce<A>(x: Matrix<A>) -> (r: Reduced<A>) where A: Clone
    ensures
        match r {
            Reduced::Scalar(a) => rank_of(x@.height(), x@.width) == Rank::Scalar && a == x@.at(0, 0),
            Reduced::Vector(v) => rank_of(x@.height(), x@.width) == Rank::Vector && v@ == flattened(x@.rows),
            Reduced::Matrix(m) => rank_of(x@.height(), x@.width) == Rank::Matrix && m == x,
        },
{
    match rank(x.nrows(), x.ncols()) {
        Rank::Scalar => Reduced::Scalar(squeeze_both(x).unwrap()),
        Rank::Vector => Reduced::Vector(squeeze(x).unwrap()),
        Rank::Matrix => Reduced::Matrix(x),
    }
}

} // verus!
