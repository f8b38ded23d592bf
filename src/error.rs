use vstd::prelude::*;

verus! {

/// Why a step, or the construction of a simulation, cannot go ahead.
#[derive(Debug, Clone, Copy, PartialEq, Eq, Structural)]
pub enum SimError {
    /// Two bodies stand at the same position, where the inverse-square
    /// force law has no value.
    SingularConfiguration { first: usize, second: usize },
    /// A body whose mass is not strictly positive.
    InvalidMass { index: usize },
    /// A body whose position or velocity is no longer a finite number.
    NumericOverflow { index: usize },
}

} // verus!
