use vstd::prelude::*;

verus! {

/// Fit method enum.
#[derive(Debug, Clone, Copy, PartialEq, Eq, Structural)]
pub enum Method {
    /// Levenberg-Marquardt algorithm
    LM,
    /// Dogleg algorithm
    DogBox,
    /// Trust Region Reflective algorithm
    TRF,
}

impl Method {
    /// Whether the method's control value is a trust-region radius (Dogleg
    /// and TRF) rather than a damping factor (LM).
    pub open spec fn trust_region_spec(self) -> bool {
        !(self is LM)
    }

    /// Whether a trial step is reflected back into the feasible interval
    /// before it is evaluated.
    pub open spec fn reflects_spec(self) -> bool {
        self is TRF
    }

    pub fn uses_trust_region(&self) -> (r: bool)
        ensures
            r == self.trust_region_spec(),
    {
        match self {
            Method::LM => false,
            Method::DogBox => true,
            Method::TRF => true,
        }
    }

    pub fn reflects_steps(&self) -> (r: bool)
        ensures
            r == self.reflects_spec(),
    {
        match self {
            Method::TRF => true,
            _ => false,
        }
    }
}

} // verus!
