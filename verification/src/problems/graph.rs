//! How a path of a rendered solution graph is drawn.

use vstd::prelude::*;

verus! {

/// The stroke of one path: a connected line, a filled region, or dots.
#[derive(Debug, Clone, PartialEq, Eq, Structural)]
pub enum PathKind {
    Line,
    Filled,
    Dot,
}

} // verus!
