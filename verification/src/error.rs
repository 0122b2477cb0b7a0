//! The ways in which a lookup fails.

use vstd::prelude::*;

verus! {

/// Why a lookup gave no entries. Each failure is of exactly one kind.
#[derive(Debug, Clone, Copy, PartialEq, Eq, Structural)]
pub enum LookupError {
    /// The request did not reach the dictionary, or its answer did not arrive.
    ConnectionError,
    /// The dictionary answered that it has no entry for the word.
    NotFoundError,
    /// The answer is not a list of entries.
    MalformedResponse,
    /// The dictionary answered with any other failure.
    UnknownError,
}

} // verus!
