use vstd::prelude::*;

verus! {

/// Magic number at the start of every framed buffer (the bytes "RIFF").
pub const MAGIC: u32 = 0x4646_4952u32;

/// Version of the wire format written into every buffer header.
pub const VERSION: u8 = 1u8;

/// Header flags value meaning "no flags".
pub const FLAGS_NONE: u8 = 0u8;

/// Number of header bytes: magic (4), version (1), flags (1), total size (4).
pub const HEADER_SIZE: usize = 10usize;

} // verus!
