use vstd::prelude::*;

verus! {

/// Why a request for a statistic is turned down.
#[derive(Clone, Copy, Debug, PartialEq, Eq, Structural)]
pub enum CorrError {
    /// Two sample vectors that must pair up element by element differ in length.
    LengthMismatch,
    /// Two variable sets that must be joined differ in their number of observations.
    ObservationMismatch,
    /// The number of observations does not exceed the divisor correction, so the
    /// normalizing factor would be zero or negative.
    DegenerateFactor,
    /// There are too few samples for the significance test: the shape parameter
    /// of its distribution would be zero or negative.
    DegenerateSample,
    /// The alternative hypothesis is none of the recognized ones.
    InvalidAlternative,
    /// The covariance array is neither square nor a single row or column.
    NotSquare,
}

impl CorrError {
    /// A short description of the error, for messages.
    pub fn describe(&self) -> (text: &'static str)
        ensures
            text@ == Self::description(*self),
    {
        match self {
            CorrError::LengthMismatch => "the two sample vectors differ in length",
            CorrError::ObservationMismatch => "the two variable sets differ in their number of observations",
            CorrError::DegenerateFactor => "the number of observations does not exceed the divisor correction",
            CorrError::DegenerateSample => "too few samples for the significance test",
            CorrError::InvalidAlternative => "the alternative must be two-sided, less or greater",
            CorrError::NotSquare => "the covariance array is neither square nor a single row or column",
        }
    }

    /// The text that `describe` returns for each error.
    pub open spec fn description(e: CorrError) -> Seq<char> {
        match e {
            CorrError::LengthMismatch => "the two sample vectors differ in length"@,
            CorrError::ObservationMismatch => "the two variable sets differ in their number of observations"@,
            CorrError::DegenerateFactor => "the number of observations does not exceed the divisor correction"@,
            CorrError::DegenerateSample => "too few samples for the significance test"@,
            CorrError::InvalidAlternative => "the alternative must be two-sided, less or greater"@,
            CorrError::NotSquare => "the covariance array is neither square nor a single row or column"@,
        }
    }
}

} // verus!
