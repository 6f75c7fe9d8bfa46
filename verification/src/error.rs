//! Why a stream could not be described.

use vstd::prelude::*;

verus! {

/// The parameters handed to a constructor describe no stream.
#[derive(Clone, Copy, Debug, PartialEq, Eq)]
pub enum InvalidParameters {
    /// A single-entry stream has at least its one entry.
    ZeroLength,
    /// The stream would have more items than a `usize` can count.
    LengthOverflow,
    /// A column of a shifted tile would not fit in a `usize`.
    ColumnOverflow,
}

} // verus!
