//! The ways in which decoding fails.

use vstd::prelude::*;

verus! {

/// Why a buffer could not be decoded. A decode either yields a complete value
/// or exactly one of these; nothing partial is ever returned.
#[derive(Clone, Copy, Debug, PartialEq, Eq, Structural)]
pub enum DecodeError {
    /// One of the first four bytes of the buffer differs from the marker
    /// `CA FE BA BE`.
    MarkerMismatch,
    /// Fewer bytes remain than the next field or record requires. A buffer
    /// that ends inside the marker, and agrees with it that far, is truncated.
    Truncated,
    /// A record starts with a tag byte that selects no supported constant kind.
    UnrecognizedTag,
    /// The bytes of a length-prefixed text are not well-formed UTF-8.
    InvalidText,
    /// The declared pool size is zero, so it does not even count the unused slot 0.
    InvalidPoolSize,
}

} // verus!
