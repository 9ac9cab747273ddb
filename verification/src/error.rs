//! The one failure kind an expander operation can surface.

use vstd::prelude::*;

verus! {

/// An error interacting with an expander.
///
/// Every fallible operation fails fast: a bus failure aborts the operation
/// immediately and is handed to the caller wrapped in this type, with no
/// retry and no rollback of register writes already made.
#[derive(Debug, PartialEq, Eq)]
pub enum Error<E> {
    /// An error communicating with an expander, wrapping the transport's
    /// own failure value.
    Communication(E),
}

} // verus!
