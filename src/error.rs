//! What can go wrong in talking to a controller.

use vstd::prelude::*;

verus! {

/// Errors of an exchange with a controller. A bus error is handed on as it
/// came and ends the operation; nothing is retried.
#[derive(Debug)]
pub enum Error<E> {
    /// Late collision; reserved, never produced
    LateCollision,
    /// A response that fails its acknowledgement check; reserved, since the
    /// acknowledgement byte is not checked
    BadResponse,
    /// The bus's own error
    Spi(E),
}

impl<E> From<E> for Error<E> {
    fn from(e: E) -> (r: Self)
        ensures
            r == Error::Spi(e),
    {
        Error::Spi(e)
    }
}

impl<E> vstd::std_specs::convert::FromSpecImpl<E> for Error<E> {
    open spec fn obeys_from_spec() -> bool {
        true
    }

    open spec fn from_spec(e: E) -> Self {
        Error::Spi(e)
    }
}

} // verus!
