//! The solvers' view layer: per-problem editable field sets, and the
//! error a view reports for a field the user must mend.  Rendering and
//! solving consume these from outside the crate.

use vstd::prelude::*;

pub mod area;
pub mod integral_fredholm_1;
pub mod integral_wolterra_2;

verus! {

/// A view failure: a named field cannot be used, or the computation
/// itself failed.
#[derive(Debug, Clone)]
pub enum Error {
    InvalidField { name: String, err: String },
    Runtime(String),
}

/// Specification-level image of a view failure.
pub enum ErrorV {
    InvalidField { name: Seq<char>, err: Seq<char> },
    Runtime(Seq<char>),
}

impl View for Error {
    type V = ErrorV;

    open spec fn view(&self) -> ErrorV {
        match self {
            Error::InvalidField { name, err } => ErrorV::InvalidField {
                name: name@,
                err: err@,
            },
            Error::Runtime(s) => ErrorV::Runtime(s@),
        }
    }
}

} // verus!
