//! The ways in which decoding a frame can fail.

use vstd::prelude::*;

verus! {

/// Why a buffer was not decoded.
#[derive(Debug, Clone, Copy, PartialEq, Eq, Structural)]
pub enum DecodeError {
    /// The buffer is shorter than the field being read demands.
    NotEnoughBits,
    /// The buffer holds more than the 112 bits of one frame.
    TrailingBytes,
    /// The downlink format is neither 17 nor 18.
    UnsupportedDF,
    /// The type code selects no message layout.
    UnsupportedTypeCode,
    /// An operational status message whose subtype is neither airborne nor surface.
    UnsupportedOperationStatusSubtype,
    /// A control field value that is reserved on the wire and has no decoder.
    UnsupportedControlField,
    /// A field holds a value that none of its variants stands for.
    DiscriminantOutOfRange,
}

/// The outcome of a decoder with its value, where it has one, taken by its
/// view.
pub open spec fn viewed<T: View>(r: Result<T, DecodeError>) -> Result<T::V, DecodeError> {
    match r {
        Ok(value) => Ok(value@),
        Err(e) => Err(e),
    }
}

} // verus!
