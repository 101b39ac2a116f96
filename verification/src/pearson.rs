use crate::error::CorrError;
use vstd::prelude::*;
use vstd::string::*;

verus! {

/// The alternative hypothesis of the significance test.
#[derive(Clone, Copy, Debug, PartialEq, Eq, Structural)]
pub enum Alternative {
    /// The correlation is not zero.
    TwoSided,
    /// The correlation is negative.
    Less,
    /// The correlation is positive.
    Greater,
}

/// How a p-value is read off the distribution of the coefficient.
#[derive(Clone, Copy, Debug, PartialEq, Eq, Structural)]
pub struct TailRule {
    /// The distribution is evaluated at the absolute value of the
    /// coefficient instead of the coefficient itself.
    pub absolute: bool,
    /// The survival function is taken; otherwise the cumulative
    /// distribution function.
    pub upper: bool,
    /// The probability is doubled.
    pub doubled: bool,
}

impl Alternative {
    /// The rule for this alternative: both tails are the doubled upper
    /// tail at the absolute value, `Less` is the lower tail and `Greater`
    /// the upper tail at the coefficient.
    pub open spec fn rule_of(self) -> TailRule {
        match self {
            Alternative::TwoSided => TailRule { absolute: true, upper: true, doubled: true },
            Alternative::Less => TailRule { absolute: false, upper: false, doubled: false },
            Alternative::Greater => TailRule { absolute: false, upper: true, doubled: false },
        }
    }

    /// The rule by which the p-value for this alternative is computed.
    pub fn rule(&self) -> (r: TailRule)
        ensures
            r == self.rule_of(),
    {
        match self {
            Alternative::TwoSided => TailRule { absolute: true, upper: true, doubled: true },
            Alternative::Less => TailRule { absolute: false, upper: false, doubled: false },
            Alternative::Greater => TailRule { absolute: false, upper: true, doubled: false },
        }
    }
}

/// The alternative that a name stands for; without a name, the two-sided one.
pub open spec fn alternative_of(name: Option<Seq<char>>) -> Result<Alternative, CorrError> {
    match name {
        None => Ok(Alternative::TwoSided),
        Some(s) => if s == "two-sided"@ {
            Ok(Alternative::TwoSided)
        } else if s == "less"@ {
            Ok(Alternative::Less)
        } else if s == "greater"@ {
            Ok(Alternative::Greater)
        } else {
            Err(CorrError::InvalidAlternative)
        },
    }
}

/// The characters of an optional string.
pub open spec fn text_of(name: Option<&str>) -> Option<Seq<char>> {
    match name {
        Some(s) => Some(s@),
        None => None,
    }
}

/// Whether two strings hold the same characters.
fn same_text(a: &str, b: &str) -> (r: bool)
    ensures
        r == (a@ == b@),
{
    let n = a.unicode_len();
    if n != b.unicode_len() {
        return false;
    }
    let mut i: usize = 0;
    while i < n
        invariant
            i <= n,
            n == a@.len(),
            n == b@.len(),
            forall|k: int| 0 <= k < i ==> a@[k] == b@[k],
        decreases n - i,
    {
        if a.get_char(i) != b.get_char(i) {
            return false;
        }
        i += 1;
    }
    assert(a@ =~= b@);
    true
}

/// Reads the name of an alternative hypothesis.
pub fn parse_alternative(name: Option<&str>) -> (r: Result<Alternative, CorrError>)
    ensures
        r == alternative_of(text_of(name)),
{
    match name {
        None => Ok(Alternative::TwoSided),
        Some(s) => {
            if same_text(s, "two-sided") {
                Ok(Alternative::TwoSided)
            } else if same_text(s, "less") {
                Ok(Alternative::Less)
            } else if same_text(s, "greater") {
                Ok(Alternative::Greater)
            } else {
                Err(CorrError::InvalidAlternative)
            }
        },
    }
}

/// What the estimator works from once its arguments are accepted.
#[derive(Clone, Copy, Debug, PartialEq, Eq, Structural)]
pub struct PearsonPlan {
    /// The number of sample pairs.
    pub samples: usize,
    /// Twice the shape parameter of the symmetric Beta distribution that
    /// the coefficient follows under the null hypothesis: the parameter
    /// itself is half the number of samples, less one.
    pub shape_doubled: usize,
    /// The alternative hypothesis.
    pub alternative: Alternative,
}

/// The plan for two vectors of `nx` and `ny` samples and a named
/// alternative. The vectors must pair up; there must be more than two
/// pairs, or the shape parameter is not positive; the name must be known.
/// The first of these that fails is the one reported.
pub open spec fn plan_of(nx: nat, ny: nat, name: Option<Seq<char>>) -> Result<
    PearsonPlan,
    CorrError,
> {
    if nx != ny {
        Err(CorrError::LengthMismatch)
    } else if nx <= 2 {
        Err(CorrError::DegenerateSample)
    } else {
        match alternative_of(name) {
            Err(e) => Err(e),
            Ok(alternative) => Ok(
                PearsonPlan {
                    samples: nx as usize,
                    shape_doubled: (nx - 2) as usize,
                    alternative,
                },
            ),
        }
    }
}

/// Checks the arguments of the estimator: the lengths of the two sample
/// vectors and the name of the alternative.
pub fn plan_pearson(nx: usize, ny: usize, alternative: Option<&str>) -> (r: Result<
    PearsonPlan,
    CorrError,
>)
    ensures
        r == plan_of(nx as nat, ny as nat, text_of(alternative)),
{
    if nx != ny {
        return Err(CorrError::LengthMismatch);
    }
    if nx <= 2 {
        return Err(CorrError::DegenerateSample);
    }
    match parse_alternative(alternative) {
        Err(e) => Err(e),
        Ok(alternative) => Ok(PearsonPlan { samples: nx, shape_doubled: nx - 2, alternative }),
    }
}

/// A single pair of samples is never enough, whatever the alternative.
pub proof fn lemma_single_pair_is_refused(name: Option<Seq<char>>)
    ensures
        plan_of(1, 1, name) == Err::<PearsonPlan, CorrError>(CorrError::DegenerateSample),
{
}

/// A name other than the three known ones is refused wherever the samples
/// themselves are in order.
pub proof fn lemma_unknown_alternative_is_refused(n: nat, name: Seq<char>)
    requires
        2 < n,
        name != "two-sided"@,
        name != "less"@,
        name != "greater"@,
    ensures
        plan_of(n, n, Some(name)) == Err::<PearsonPlan, CorrError>(CorrError::InvalidAlternative),
{
}

} // verus!
