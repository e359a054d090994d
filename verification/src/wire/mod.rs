//! The length-prefixed little-endian wire format and its framed buffer.

pub mod constants;
pub mod error;
pub mod codec;
pub mod buffer;

pub use buffer::{decode, encode, WireBuffer};
pub use codec::{WireDecode, WireEncode};
pub use constants::{FLAGS_NONE, HEADER_SIZE, MAGIC, VERSION};
pub use error::{DecodeError, DecodeResult};
