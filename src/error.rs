//! Why a footer could not be turned into file metadata.
use vstd::prelude::*;

verus! {

/// The reasons a conversion from the wire form fails.
#[derive(Clone, Copy, Debug, PartialEq, Eq, Hash, Structural)]
pub enum Error {
    /// The flattened schema tree is not well formed: it is empty, its root is
    /// not a group, its children counts do not describe exactly one tree, or
    /// a leaf carries no physical type.
    InvalidSchema,
    /// A row group holds a number of column chunks other than the schema's
    /// number of leaf columns.
    RowGroupColumnCount,
    /// A row group's row count or byte size is negative or does not fit a `usize`.
    RowGroupOutOfRange,
    /// The footer's row count is negative or does not fit a `usize`.
    NumRowsOutOfRange,
}

} // verus!
