use crate::error::CorrError;
use crate::matrix::{Matrix, Table};
use vstd::prelude::*;

verus! {

/// The divisor correction in force: the explicit one if there is one, and
/// else zero for the biased estimator and one for the unbiased.
pub open spec fn effective_ddof(bias: bool, ddof: Option<usize>) -> nat {
    match ddof {
        Some(d) => d as nat,
        None => if bias { 0 } else { 1 },
    }
}

/// The table laid out with one variable per row. With `rowvar` it is so
/// already; without it the columns are the variables, unless the table is a
/// single row, which is taken as one variable either way.
pub open spec fn oriented<A>(t: Table<A>, rowvar: bool) -> Table<A> {
    if !rowvar && t.height() != 1 {
        t.transposed()
    } else {
        t
    }
}

/// The variables of `m` followed by those of `y`, one per row; an error when
/// the two do not have the same number of observations.
pub open spec fn joined<A>(m: Table<A>, y: Option<Table<A>>, rowvar: bool) -> Result<
    Table<A>,
    CorrError,
> {
    match y {
        None => Ok(oriented(m, rowvar)),
        Some(y) => if oriented(m, rowvar).width == oriented(y, rowvar).width {
            Ok(oriented(m, rowvar).stacked(oriented(y, rowvar)))
        } else {
            Err(CorrError::ObservationMismatch)
        },
    }
}

/// The number by which the sums of products are divided: the observations
/// less the correction, which must leave something.
pub open spec fn factor_of(observations: nat, ddof: nat) -> Result<nat, CorrError> {
    if observations > ddof {
        Ok((observations - ddof) as nat)
    } else {
        Err(CorrError::DegenerateFactor)
    }
}

/// What a covariance is computed from: the joined variables and the factor.
/// A mismatch between the two variable sets is reported before a factor
/// that is not positive.
pub open spec fn covariance_input_of<A>(
    m: Table<A>,
    y: Option<Table<A>>,
    rowvar: bool,
    bias: bool,
    ddof: Option<usize>,
) -> Result<(Table<A>, nat), CorrError> {
    match joined(m, y, rowvar) {
        Err(e) => Err(e),
        Ok(variables) => match factor_of(variables.width, effective_ddof(bias, ddof)) {
            Err(e) => Err(e),
            Ok(factor) => Ok((variables, factor)),
        },
    }
}

/// The model of an optional array.
pub open spec fn table_of<A>(y: Option<Matrix<A>>) -> Option<Table<A>> {
    match y {
        Some(y) => Some(y@),
        None => None,
    }
}

/// The model of an optional vector, taken as an array of one row.
pub open spec fn row_table_of<A>(y: Option<Vec<A>>) -> Option<Table<A>> {
    match y {
        Some(y) => Some(Table::single_row(y@)),
        None => None,
    }
}

/// The variables, one per row with one column per observation, and the
/// positive number by which their sums of products are to be divided.
#[derive(Debug, PartialEq)]
pub struct CovarianceInput<A> {
    pub variables: Matrix<A>,
    pub factor: usize,
}

impl<A> CovarianceInput<A> {
    /// The variables' model and the factor.
    pub open spec fn model(self) -> (Table<A>, nat) {
        (self.variables@, self.factor as nat)
    }
}

/// Resolves the divisor correction: an explicit value wins over the bias flag.
pub fn resolve_ddof(bias: bool, ddof: Option<usize>) -> (r: usize)
    ensures
        r == effective_ddof(bias, ddof),
{
    match ddof {
        Some(d) => d,
        None => if bias {
            0
        } else {
            1
        },
    }
}

/// The normalizing factor for a number of observations and a correction.
pub fn normalizing_factor(observations: usize, ddof: usize) -> (r: Result<usize, CorrError>)
    ensures
        match r {
            Ok(f) => factor_of(observations as nat, ddof as nat) == Ok::<nat, CorrError>(f as nat),
            Err(e) => factor_of(observations as nat, ddof as nat) == Err::<nat, CorrError>(e),
        },
{
    if observations > ddof {
        Ok(observations - ddof)
    } else {
        Err(CorrError::DegenerateFactor)
    }
}

/// Lays the array out with one variable per row.
pub fn orient<A: Copy>(m: Matrix<A>, rowvar: bool) -> (r: Matrix<A>)
    ensures
        r@ == oriented(m@, rowvar),
{
    if !rowvar && m.nrows() != 1 {
        m.transposed()
    } else {
        m
    }
}

/// Joins the variables of `m` and, where given, of `y` into one array with
/// one variable per row.
pub fn join_variables<A: Copy>(m: Matrix<A>, y: Option<Matrix<A>>, rowvar: bool) -> (r: Result<
    Matrix<A>,
    CorrError,
>)
    ensures
        match r {
            Ok(v) => joined(m@, table_of(y), rowvar) == Ok::<Table<A>, CorrError>(v@),
            Err(e) => joined(m@, table_of(y), rowvar) == Err::<Table<A>, CorrError>(e),
        },
{
    let first = orient(m, rowvar);
    match y {
        None => Ok(first),
        Some(y) => {
            let second = orient(y, rowvar);
            first.stacked(second)
        },
    }
}

/// Prepares a covariance: joins the variables, resolves the correction and
/// computes the factor.
pub fn prepare_covariance<A: Copy>(
    m: Matrix<A>,
    y: Option<Matrix<A>>,
    rowvar: bool,
    bias: bool,
    ddof: Option<usize>,
) -> (r: Result<CovarianceInput<A>, CorrError>)
    ensures
        match r {
            Ok(c) => covariance_input_of(m@, table_of(y), rowvar, bias, ddof) == Ok::<
                (Table<A>, nat),
                CorrError,
            >(c.model()),
            Err(e) => covariance_input_of(m@, table_of(y), rowvar, bias, ddof) == Err::<
                (Table<A>, nat),
                CorrError,
            >(e),
        },
{
    let variables = match join_variables(m, y, rowvar) {
        Ok(v) => v,
        Err(e) => { return Err(e); },
    };
    let factor = match normalizing_factor(variables.ncols(), resolve_ddof(bias, ddof)) {
        Ok(f) => f,
        Err(e) => { return Err(e); },
    };
    Ok(CovarianceInput { variables, factor })
}

/// Prepares a covariance of sample vectors: each is one variable.
pub fn prepare_covariance_1d<A: Copy>(
    m: Vec<A>,
    y: Option<Vec<A>>,
    rowvar: bool,
    bias: bool,
    ddof: Option<usize>,
) -> (r: Result<CovarianceInput<A>, CorrError>)
    ensures
        match r {
            Ok(c) => covariance_input_of(
                Table::single_row(m@),
                row_table_of(y),
                rowvar,
                bias,
                ddof,
            ) == Ok::<(Table<A>, nat), CorrError>(c.model()),
            Err(e) => covariance_input_of(
                Table::single_row(m@),
                row_table_of(y),
                rowvar,
                bias,
                ddof,
            ) == Err::<(Table<A>, nat), CorrError>(e),
        },
{
    let first = Matrix::from_row(m);
    let second = match y {
        Some(y) => Some(Matrix::from_row(y)),
        None => None,
    };
    prepare_covariance(first, second, rowvar, bias, ddof)
}

/// The biased estimator is the one with a correction of zero: asking for it
/// by the flag alone gives the same input as asking for a correction of
/// zero explicitly, whatever the flag then says.
pub proof fn lemma_bias_is_zero_correction<A>(
    m: Table<A>,
    y: Option<Table<A>>,
    rowvar: bool,
    bias: bool,
)
    ensures
        covariance_input_of(m, y, rowvar, true, None) == covariance_input_of(
            m,
            y,
            rowvar,
            bias,
            Some(0usize),
        ),
{
}

/// Variable sets with different numbers of observations are never joined:
/// the request fails, whatever the correction.
pub proof fn lemma_mismatch_is_an_error<A>(
    m: Table<A>,
    y: Table<A>,
    rowvar: bool,
    bias: bool,
    ddof: Option<usize>,
)
    requires
        oriented(m, rowvar).width != oriented(y, rowvar).width,
    ensures
        covariance_input_of(m, Some(y), rowvar, bias, ddof) == Err::<(Table<A>, nat), CorrError>(
            CorrError::ObservationMismatch,
        ),
{
}

} // verus!
