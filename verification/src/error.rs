//! Failures that the library reports to its caller.

use vstd::prelude::*;

verus! {

/// Why a request was refused. A refused request changes nothing.
#[derive(Clone, Copy, Debug, PartialEq, Eq, Structural, Hash)]
pub enum Error {
    /// A note was addressed by an index that the collection does not have.
    IndexOutOfRange { index: usize, len: usize },
    /// A time span was given whose end lies before its start.
    InvalidTimeSpan,
}

} // verus!
