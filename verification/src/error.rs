//! The ways in which a request to the engine can be refused.

use vstd::prelude::*;

verus! {

/// Why the engine refused a request.
#[derive(Clone, Copy, PartialEq, Eq, Structural, Debug)]
pub enum GameError {
    /// A position or a line index lies outside `0..=2`.
    OutOfRange,
    /// The square asked for is already occupied.
    IllegalMove,
    /// The computer was asked to move on a board without an empty square.
    PolicyPrecondition,
}

} // verus!
