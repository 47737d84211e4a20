use vstd::prelude::*;

verus! {

/// A field-level violation found by the configuration's field check: the
/// field's name, its value and the predicate it failed, all as text.
#[derive(Debug, Clone, PartialEq, Eq)]
pub enum Violation {
    /// The field failed its predicate.
    CheckFailed { ident: String, value: String, check_statement: String },
    /// The field failed its predicate and was replaced by a fallback value.
    Fallback { ident: String, value: String, check_statement: String, fallback: String },
}

/// The errors that a fit reports to its caller.
#[derive(Debug)]
pub enum Error {
    /// The x and y sample sequences differ in length.
    UnmatchedLength { x_data_len: usize, y_data_len: usize },
    /// The configuration failed a field check; the first violation.
    ConfigCheckFailed(Violation),
    /// A residual or Jacobian entry was not finite; its index.
    NonFinite { index: usize },
    /// No productive step was found within the retry budget.
    StepFailed { retries: usize },
    /// The iteration budget ran out before convergence.
    MaxIterationsReached { iterations: usize },
}

impl Error {
    /// Whether the error is a validation error, found before any
    /// optimization work.
    pub open spec fn is_validation_spec(&self) -> bool {
        self is UnmatchedLength || self is ConfigCheckFailed
    }

    /// Whether the error is a numerical failure, as opposed to a validation
    /// error or running out of the iteration budget.
    pub open spec fn is_numerical_spec(&self) -> bool {
        self is NonFinite || self is StepFailed
    }

    pub fn is_validation(&self) -> (r: bool)
        ensures
            r == self.is_validation_spec(),
    {
        match self {
            Error::UnmatchedLength { .. } => true,
            Error::ConfigCheckFailed(_) => true,
            _ => false,
        }
    }

    pub fn is_numerical(&self) -> (r: bool)
        ensures
            r == self.is_numerical_spec(),
    {
        match self {
            Error::NonFinite { .. } => true,
            Error::StepFailed { .. } => true,
            _ => false,
        }
    }
}

} // verus!
