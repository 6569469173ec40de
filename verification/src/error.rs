use vstd::prelude::*;

verus! {

/// The ways in which an operation of this library can fail.
#[derive(Clone, Copy, Debug, PartialEq, Eq, Structural)]
pub enum Error {
    /// The requested option has no implementation in this backend.
    NotSupported,
    /// Saves and restores of the context state are not balanced.
    StackUnbalance,
}

} // verus!
