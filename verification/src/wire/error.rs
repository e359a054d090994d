use vstd::prelude::*;

verus! {

/// Why a byte sequence could not be decoded.
#[derive(Debug, Clone, Copy, PartialEq, Eq, Structural)]
pub enum DecodeError {
    /// Fewer bytes than the format requires, or a size field that disagrees with the data.
    BufferTooSmall,
    /// The header does not start with `MAGIC`.
    InvalidMagic,
    /// The header carries a version other than `VERSION`.
    UnsupportedVersion,
    /// A string payload is not valid UTF-8.
    InvalidUtf8,
    /// A tag byte (of a `bool` or an `Option`) is neither 0 nor 1.
    InvalidTag,
}

/// Result of a decoding operation.
pub type DecodeResult<T> = Result<T, DecodeError>;

} // verus!
