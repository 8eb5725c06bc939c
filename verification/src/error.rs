//! Why a tile could not be decoded.

use vstd::prelude::*;

verus! {

/// A fault in a geometry command stream.
#[derive(Clone, Copy, Debug, PartialEq, Eq)]
pub enum DecodeError {
    /// A header announces more parameters than the stream still holds.
    MalformedCommandStream,
    /// A polygon's stream holds a command code other than MoveTo, LineTo
    /// and ClosePath.
    UnknownCommandCode,
}

/// What the outcome of a decoding holds: the view of the decoded value, or
/// the error.
pub open spec fn outcome<T: View>(r: Result<T, DecodeError>) -> Result<T::V, DecodeError> {
    match r {
        Ok(value) => Ok(value@),
        Err(e) => Err(e),
    }
}

} // verus!
