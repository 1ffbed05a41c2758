//! The problem dispatcher's vocabulary: which named problems exist, their
//! stable ordering, and the events a front end hands back to the
//! workbench.  The state that holds solvers and solutions lives with the
//! front end; the names and the index mapping are decided here.

use vstd::prelude::*;
use vstd::string::StringExecFns;

verus! {

/// The problems the workbench offers, in display order.
#[derive(Debug, Clone, PartialEq, Eq, Structural)]
pub enum ProblemName {
    FredholmFirst,
    AreaCalc,
    WolterraSecond,
    PenaltyMin,
    Spline,
    GradientsMin,
}

/// The position a name takes in the dispatcher's list.
pub open spec fn spec_index_of_problem(p: ProblemName) -> int {
    match p {
        ProblemName::FredholmFirst => 0,
        ProblemName::AreaCalc => 1,
        ProblemName::WolterraSecond => 2,
        ProblemName::PenaltyMin => 3,
        ProblemName::Spline => 4,
        ProblemName::GradientsMin => 5,
    }
}

impl ProblemName {
    /// The position of this problem in the dispatcher's list.
    pub fn to_index(&self) -> (r: usize)
        ensures
            r == spec_index_of_problem(*self),
    {
        match self {
            ProblemName::FredholmFirst => 0,
            ProblemName::AreaCalc => 1,
            ProblemName::WolterraSecond => 2,
            ProblemName::PenaltyMin => 3,
            ProblemName::Spline => 4,
            ProblemName::GradientsMin => 5,
        }
    }

    /// The problem at a position; `None` past the list.
    pub fn from_index(index: usize) -> (r: Option<ProblemName>)
        ensures
            match r {
                Some(p) => spec_index_of_problem(p) == index,
                None => index >= 6,
            },
    {
        match index {
            0 => Some(ProblemName::FredholmFirst),
            1 => Some(ProblemName::AreaCalc),
            2 => Some(ProblemName::WolterraSecond),
            3 => Some(ProblemName::PenaltyMin),
            4 => Some(ProblemName::Spline),
            5 => Some(ProblemName::GradientsMin),
            _ => None,
        }
    }

    /// The display name of the problem.
    pub fn to_string(&self) -> (r: String)
        ensures
            self is FredholmFirst ==> r@ == "Fredholm first kind"@,
            self is AreaCalc ==> r@ == "Area"@,
            self is WolterraSecond ==> r@ == "Wolterra second kind"@,
            self is PenaltyMin ==> r@ == "Constrained minimum"@,
            self is Spline ==> r@ == "Spline"@,
            self is GradientsMin ==> r@ == "Gradients minimum"@,
    {
        match self {
            ProblemName::FredholmFirst => String::from_str("Fredholm first kind"),
            ProblemName::AreaCalc => String::from_str("Area"),
            ProblemName::WolterraSecond => String::from_str("Wolterra second kind"),
            ProblemName::PenaltyMin => String::from_str("Constrained minimum"),
            ProblemName::Spline => String::from_str("Spline"),
            ProblemName::GradientsMin => String::from_str("Gradients minimum"),
        }
    }
}

/// An event from the front end: edit a field, switch problems, solve, or
/// drop a finished solution.
#[derive(Debug, Clone)]
pub enum Message {
    SetField { name: String, val: String },
    ClearSolution { index: usize },
    Solve,
    Idle,
    SelectProblem(ProblemName),
}

} // verus!
