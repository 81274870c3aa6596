//! Errors that the model raises before a request is made.

use vstd::prelude::*;

verus! {

/// Why a request was not made.
#[derive(Clone, Copy, Debug, PartialEq, Eq, Structural)]
pub enum Error {
    /// Fewer than one or more than a hundred messages were to be deleted at
    /// once.
    BulkDeleteAmount,
    /// The content of a message is too long, by the given number of
    /// characters.
    MessageTooLong(usize),
    /// The name is shorter than two bytes.
    NameTooShort,
    /// The name is longer than a hundred bytes.
    NameTooLong,
}

} // verus!
