//! The integral-equation solvers' shared surface: their error type and
//! the grid-size record of the Volterra second-kind scheme.  The numeric
//! sweep itself computes with machine reals and lives with the caller.

use vstd::prelude::*;

verus! {

/// A callable handed to a solver failed; the text describes the failure.
#[derive(Debug, Clone)]
pub enum Error {
    FunctionError(String),
}

impl PartialEq for Error {
    fn eq(&self, other: &Error) -> (r: bool) {
        match (self, other) {
            (Error::FunctionError(a), Error::FunctionError(b)) => *a == *b,
        }
    }
}

impl vstd::std_specs::cmp::PartialEqSpecImpl for Error {
    open spec fn obeys_eq_spec() -> bool {
        true
    }

    open spec fn eq_spec(&self, other: &Error) -> bool {
        match (self, other) {
            (Error::FunctionError(a), Error::FunctionError(b)) => a@ == b@,
        }
    }
}

/// The Volterra second-kind scheme, remembered by its grid size: the
/// sweep discretises the interval into this many steps.
#[derive(Debug, Clone, PartialEq, Eq, Structural)]
pub struct WolterraSecondKindSystemOfEquations {
    step_count: usize,
}

impl WolterraSecondKindSystemOfEquations {
    /// A scheme over a grid of `step_count` steps.
    pub fn new(step_count: usize) -> (r: WolterraSecondKindSystemOfEquations)
        ensures
            r.spec_step_count() == step_count,
    {
        WolterraSecondKindSystemOfEquations { step_count }
    }

    pub closed spec fn spec_step_count(&self) -> usize {
        self.step_count
    }

    /// How many steps the sweep takes.
    pub fn step_count(&self) -> (r: usize)
        ensures
            r == self.spec_step_count(),
    {
        self.step_count
    }
}

} // verus!
