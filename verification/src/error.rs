//! The error kind that operations on an element can report.

use vstd::prelude::*;

verus! {

/// A recoverable failure of an element operation.
#[derive(Clone, Copy, Debug, PartialEq, Eq, Structural)]
pub enum Error {
    /// A name or key does not have the required syntax.
    Syntax,
}

/// The result of an operation that may fail and returns nothing.
pub type ErrorResult = Result<(), Error>;

} // verus!
