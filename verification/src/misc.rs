//! The matrix-entry model shared by every matrix stream.

use vstd::prelude::*;

verus! {

/// One item of a row-major sparse matrix stream.
///
/// A row is a run of `Element`s closed by exactly one `EOL`; the next
/// `Element`, if any, belongs to the following row.
#[derive(Copy, Debug, PartialEq, Eq)]
pub enum MatrixElement<T> {
    /// A nonzero entry: its value and its column within the current row.
    Element((T, usize)),
    /// The end of the current row.
    EOL,
}

impl<T: Copy> Clone for MatrixElement<T> {
    fn clone(&self) -> (copy: Self)
        ensures
            copy == *self,
    {
        *self
    }
}

impl<T> MatrixElement<T> {
    /// This item with its column moved `offset` places to the right; a row
    /// end has no column and stays as it is.
    pub open spec fn shifted(self, offset: int) -> Self {
        match self {
            MatrixElement::Element((value, column)) => MatrixElement::Element(
                (value, (column + offset) as usize),
            ),
            MatrixElement::EOL => MatrixElement::EOL,
        }
    }

    /// Whether the column of this item, moved `offset` places to the right,
    /// is still a `usize`. A row end always is.
    pub open spec fn shift_fits(self, offset: int) -> bool {
        match self {
            MatrixElement::Element((_, column)) => 0 <= column + offset <= usize::MAX,
            MatrixElement::EOL => true,
        }
    }
}

} // verus!
