use vstd::prelude::*;
use vstd::bytes::{
    spec_u32_from_le_bytes, spec_u32_to_le_bytes, lemma_auto_spec_u32_to_from_le_bytes, u32_to_le_bytes,
    u32_from_le_bytes,
};
use vstd::slice::{slice_subrange, slice_to_vec};
use crate::wire::codec::{le_u32, WireDecode, WireEncode};
use crate::wire::constants::{FLAGS_NONE, HEADER_SIZE, MAGIC, VERSION};
use crate::wire::error::DecodeError;

verus! {

/// The header of a framed buffer whose total length (header included) is `total`.
pub open spec fn header_bytes(total: u32) -> Seq<u8> {
    spec_u32_to_le_bytes(MAGIC) + seq![VERSION, FLAGS_NONE] + spec_u32_to_le_bytes(total)
}

/// The framed buffer of a value: header, then the value's encoding.
/// The total length is written truncated to 32 bits.
pub open spec fn frame_bytes<T: WireEncode>(v: <T as DeepView>::V) -> Seq<u8> {
    header_bytes((HEADER_SIZE + T::wire_bytes(v).len()) as u32) + T::wire_bytes(v)
}

/// The checks made when a buffer is taken from raw bytes: magic, then version.
pub open spec fn check_magic_version(s: Seq<u8>) -> Result<(), DecodeError> {
    if s.len() < 4 {
        Err(DecodeError::BufferTooSmall)
    } else if le_u32(s) != MAGIC {
        Err(DecodeError::InvalidMagic)
    } else if s.len() < 5 {
        Err(DecodeError::BufferTooSmall)
    } else if s[4] != VERSION {
        Err(DecodeError::UnsupportedVersion)
    } else {
        Ok(())
    }
}

/// The full check of a framed buffer: magic, version, then that the recorded total
/// size equals the buffer's length.
pub open spec fn check_frame(s: Seq<u8>) -> Result<(), DecodeError> {
    match check_magic_version(s) {
        Err(e) => Err(e),
        Ok(()) => if s.len() < HEADER_SIZE {
            Err(DecodeError::BufferTooSmall)
        } else if le_u32(s.skip(6)) != s.len() {
            Err(DecodeError::BufferTooSmall)
        } else {
            Ok(())
        },
    }
}

/// What reading a value of type `T` out of the framed buffer `s` gives.
pub open spec fn read_frame<T: WireDecode>(s: Seq<u8>) -> Result<<T as DeepView>::V, DecodeError> {
    match check_frame(s) {
        Err(e) => Err(e),
        Ok(()) => match T::wire_parse(s.skip(HEADER_SIZE as int)) {
            Ok((v, _)) => Ok(v),
            Err(e) => Err(e),
        },
    }
}

/// The total size recorded in a header, or 0 where the bytes are too short to hold one.
pub open spec fn recorded_total_size(s: Seq<u8>) -> u32 {
    if s.len() >= HEADER_SIZE {
        le_u32(s.skip(6))
    } else {
        0
    }
}

/// A framed wire buffer: a header (magic, version, flags, total size) followed by
/// the encoded content.
pub struct WireBuffer {
    data: Vec<u8>,
}

impl View for WireBuffer {
    type V = Seq<u8>;

    closed spec fn view(&self) -> Seq<u8> {
        self.data@
    }
}

impl WireBuffer {
    /// Every buffer starts with the right magic number and version.
    #[verifier::type_invariant]
    spec fn wf(self) -> bool {
        check_magic_version(self.data@) is Ok
    }

    /// Frames the encoding of `value` behind a header.
    pub fn new<T: WireEncode>(value: &T) -> (r: Self)
        requires
            HEADER_SIZE + T::wire_bytes(value.deep_view()).len() <= usize::MAX,
        ensures
            r@ == frame_bytes::<T>(value.deep_view()),
    {
        proof {
            lemma_auto_spec_u32_to_from_le_bytes();
        }
        let content_size = value.wire_size();
        let total_size = HEADER_SIZE + content_size;
        let mut data: Vec<u8> = Vec::new();
        let mut magic = u32_to_le_bytes(MAGIC);
        data.append(&mut magic);
        data.push(VERSION);
        data.push(FLAGS_NONE);
        let mut size = u32_to_le_bytes(total_size as u32);
        data.append(&mut size);
        assert(data@ =~= header_bytes(total_size as u32));
        value.encode_to(&mut data);
        proof {
            lemma_header_prefix(total_size as u32, T::wire_bytes(value.deep_view()));
        }
        WireBuffer { data }
    }

    /// Takes raw bytes as a buffer after checking the magic number and the version.
    pub fn from_bytes(data: Vec<u8>) -> (r: Result<Self, DecodeError>)
        ensures
            match r {
                Ok(b) => b@ == data@ && check_magic_version(data@) is Ok,
                Err(e) => check_magic_version(data@) == Err::<(), DecodeError>(e),
            },
    {
        match check_magic_version_exec(data.as_slice()) {
            Ok(()) => Ok(WireBuffer { data }),
            Err(e) => Err(e),
        }
    }

    /// Checks magic, version, and that the recorded total size equals the length.
    pub fn validate(&self) -> (r: Result<(), DecodeError>)
        ensures
            r == check_frame(self@),
    {
        let data = self.data.as_slice();
        match check_magic_version_exec(data) {
            Err(e) => Err(e),
            Ok(()) => {
                if data.len() < HEADER_SIZE {
                    return Err(DecodeError::BufferTooSmall);
                }
                let claimed_size = read_u32_at(data, 6);
                if claimed_size as usize != data.len() {
                    return Err(DecodeError::BufferTooSmall);
                }
                Ok(())
            },
        }
    }

    /// Validates the buffer, then reads one value of type `T` from its content.
    pub fn decode<T: WireDecode>(&self) -> (r: Result<T, DecodeError>)
        ensures
            match r {
                Ok(v) => read_frame::<T>(self@) == Ok::<_, DecodeError>(v.deep_view()),
                Err(e) => read_frame::<T>(self@) == Err::<<T as DeepView>::V, _>(e),
            },
    {
        self.validate()?;
        match T::decode_from(self.data.as_slice(), HEADER_SIZE) {
            Ok((value, _)) => Ok(value),
            Err(e) => Err(e),
        }
    }

    /// All bytes of the buffer, header included.
    pub fn as_bytes(&self) -> (r: &[u8])
        ensures
            r@ == self@,
    {
        self.data.as_slice()
    }

    /// Gives up the buffer's bytes, header included.
    pub fn into_bytes(self) -> (r: Vec<u8>)
        ensures
            r@ == self@,
    {
        self.data
    }

    /// Number of bytes, header included.
    pub fn len(&self) -> (r: usize)
        ensures
            r == self@.len(),
    {
        self.data.len()
    }

    /// Whether the buffer holds no byte.
    pub fn is_empty(&self) -> (r: bool)
        ensures
            r == (self@.len() == 0),
    {
        self.data.len() == 0
    }

    /// The bytes after the header.
    pub fn content_bytes(&self) -> (r: &[u8])
        requires
            self@.len() >= HEADER_SIZE,
        ensures
            r@ == self@.skip(HEADER_SIZE as int),
    {
        let data = self.data.as_slice();
        let r = slice_subrange(data, HEADER_SIZE, data.len());
        assert(r@ =~= self@.skip(HEADER_SIZE as int));
        r
    }

    /// The version byte of the header.
    pub fn version(&self) -> (r: u8)
        ensures
            r == self@[4],
            r == VERSION,
    {
        proof {
            use_type_invariant(self);
        }
        self.data[4]
    }

    /// The flags byte of the header.
    pub fn flags(&self) -> (r: u8)
        requires
            self@.len() > 5,
        ensures
            r == self@[5],
    {
        self.data[5]
    }

    /// The total size recorded in the header, or 0 where the buffer is shorter than a header.
    pub fn total_size(&self) -> (r: u32)
        ensures
            r == recorded_total_size(self@),
    {
        let data = self.data.as_slice();
        if data.len() >= HEADER_SIZE {
            read_u32_at(data, 6)
        } else {
            0
        }
    }
}

impl AsRef<[u8]> for WireBuffer {
    fn as_ref(&self) -> (r: &[u8])
        ensures
            r@ == self@,
    {
        self.data.as_slice()
    }
}

impl From<WireBuffer> for Vec<u8> {
    fn from(buffer: WireBuffer) -> (r: Vec<u8>)
        ensures
            r@ == buffer@,
    {
        buffer.data
    }
}

impl vstd::std_specs::convert::FromSpecImpl<WireBuffer> for Vec<u8> {
    open spec fn obeys_from_spec() -> bool {
        true
    }

    closed spec fn from_spec(buffer: WireBuffer) -> Vec<u8> {
        buffer.data
    }
}

/// Reads the little-endian `u32` at `pos`.
fn read_u32_at(data: &[u8], pos: usize) -> (x: u32)
    requires
        pos + 4 <= data@.len(),
    ensures
        x == le_u32(data@.skip(pos as int)),
{
    let len = data.len();
    assert(pos + 4 <= len);
    let s = slice_subrange(data, pos, pos + 4);
    assert(s@ =~= data@.skip(pos as int).take(4));
    u32_from_le_bytes(s)
}

/// Checks the magic number and the version at the front of `data`.
fn check_magic_version_exec(data: &[u8]) -> (r: Result<(), DecodeError>)
    ensures
        r == check_magic_version(data@),
{
    if data.len() < 4 {
        return Err(DecodeError::BufferTooSmall);
    }
    let magic = read_u32_at(data, 0);
    assert(data@.skip(0) =~= data@);
    if magic != MAGIC {
        return Err(DecodeError::InvalidMagic);
    }
    if data.len() < 5 {
        return Err(DecodeError::BufferTooSmall);
    }
    if data[4] != VERSION {
        return Err(DecodeError::UnsupportedVersion);
    }
    Ok(())
}

/// What the header of a frame reads back as.
proof fn lemma_header_prefix(total: u32, content: Seq<u8>)
    ensures
        ({
            let s = header_bytes(total) + content;
            &&& s.len() == HEADER_SIZE + content.len()
            &&& le_u32(s) == MAGIC
            &&& s[4] == VERSION
            &&& s[5] == FLAGS_NONE
            &&& le_u32(s.skip(6)) == total
            &&& s.skip(HEADER_SIZE as int) == content
        }),
{
    lemma_auto_spec_u32_to_from_le_bytes();
    let s = header_bytes(total) + content;
    assert(s.take(4) =~= spec_u32_to_le_bytes(MAGIC));
    assert(s.skip(6).take(4) =~= spec_u32_to_le_bytes(total));
    assert(s.skip(HEADER_SIZE as int) =~= content);
}

/// Decoding a framed buffer gives back the value it was made from, provided its total
/// length fits the 32-bit size field.
pub proof fn lemma_frame_roundtrip<T: WireDecode>(v: <T as DeepView>::V)
    requires
        HEADER_SIZE + T::wire_bytes(v).len() <= u32::MAX,
    ensures
        check_frame(frame_bytes::<T>(v)) == Ok::<(), DecodeError>(()),
        read_frame::<T>(frame_bytes::<T>(v)) == Ok::<_, DecodeError>(v),
{
    let content = T::wire_bytes(v);
    let total = (HEADER_SIZE + content.len()) as u32;
    lemma_header_prefix(total, content);
    T::lemma_parse_encoded(v, Seq::empty());
    assert(content + Seq::<u8>::empty() =~= content);
}

/// A framed buffer records the format's version, no flags, and its own length as
/// its total size, provided that length fits the 32-bit size field.
pub proof fn lemma_frame_header<T: WireEncode>(v: <T as DeepView>::V)
    requires
        HEADER_SIZE + T::wire_bytes(v).len() <= u32::MAX,
    ensures
        frame_bytes::<T>(v).len() == HEADER_SIZE + T::wire_bytes(v).len(),
        frame_bytes::<T>(v)[4] == VERSION,
        frame_bytes::<T>(v)[5] == FLAGS_NONE,
        recorded_total_size(frame_bytes::<T>(v)) == frame_bytes::<T>(v).len(),
        frame_bytes::<T>(v).skip(HEADER_SIZE as int) == T::wire_bytes(v),
{
    let content = T::wire_bytes(v);
    lemma_header_prefix((HEADER_SIZE + content.len()) as u32, content);
}

/// A framed buffer that is cut short, or that has bytes appended, no longer passes the
/// full check: it is reported too small.
pub proof fn lemma_frame_resized_rejected<T: WireEncode>(v: <T as DeepView>::V, extra: Seq<u8>, n: int)
    requires
        HEADER_SIZE + T::wire_bytes(v).len() <= u32::MAX,
        extra.len() > 0,
        0 <= n < frame_bytes::<T>(v).len(),
    ensures
        check_frame(frame_bytes::<T>(v) + extra) == Err::<(), DecodeError>(DecodeError::BufferTooSmall),
        check_frame(frame_bytes::<T>(v).take(n)) == Err::<(), DecodeError>(DecodeError::BufferTooSmall),
{
    lemma_auto_spec_u32_to_from_le_bytes();
    let content = T::wire_bytes(v);
    let total = (HEADER_SIZE + content.len()) as u32;
    let f = frame_bytes::<T>(v);
    lemma_header_prefix(total, content);
    lemma_header_prefix(total, content + extra);
    assert(f + extra =~= header_bytes(total) + (content + extra));
    let t = f.take(n);
    if n >= 4 {
        assert(t.take(4) =~= f.take(4));
    }
    if n >= 5 {
        assert(t[4] == f[4]);
    }
    if n >= HEADER_SIZE {
        assert(t.skip(6).take(4) =~= f.skip(6).take(4));
    }
}

/// What the header checks reject: fewer than four bytes, or fewer than five, is too
/// small; a first four bytes other than the magic number's is an invalid magic number;
/// a version byte other than `VERSION` is unsupported; a total size other than the
/// length is too small. What passes the full check starts with the magic bytes and the
/// version, and records its own length.
pub proof fn lemma_header_checks(s: Seq<u8>)
    ensures
        s.len() < 4 ==> check_magic_version(s) == Err::<(), DecodeError>(DecodeError::BufferTooSmall),
        s.len() >= 4 && s.take(4) != spec_u32_to_le_bytes(MAGIC) ==> check_magic_version(s) == Err::<
            (),
            DecodeError,
        >(DecodeError::InvalidMagic),
        s.len() >= 5 && s.take(4) == spec_u32_to_le_bytes(MAGIC) && s[4] != VERSION
            ==> check_magic_version(s) == Err::<(), DecodeError>(DecodeError::UnsupportedVersion),
        check_frame(s) is Ok ==> s.len() >= HEADER_SIZE && s.take(4) == spec_u32_to_le_bytes(MAGIC)
            && s[4] == VERSION && le_u32(s.skip(6)) == s.len(),
        check_magic_version(s) is Ok && s.len() >= HEADER_SIZE && le_u32(s.skip(6)) != s.len()
            ==> check_frame(s) == Err::<(), DecodeError>(DecodeError::BufferTooSmall),
{
    lemma_auto_spec_u32_to_from_le_bytes();
    if s.len() >= 4 {
        assert(s.take(4).len() == 4);
        if le_u32(s) == MAGIC {
            assert(spec_u32_to_le_bytes(spec_u32_from_le_bytes(s.take(4))) == s.take(4));
        }
    }
}

/// Two values that fit a framed buffer have the same frame only if they are equal.
pub proof fn lemma_frame_injective<T: WireDecode>(v1: <T as DeepView>::V, v2: <T as DeepView>::V)
    requires
        HEADER_SIZE + T::wire_bytes(v1).len() <= u32::MAX,
        HEADER_SIZE + T::wire_bytes(v2).len() <= u32::MAX,
        frame_bytes::<T>(v1) == frame_bytes::<T>(v2),
    ensures
        v1 == v2,
{
    lemma_frame_roundtrip::<T>(v1);
    lemma_frame_roundtrip::<T>(v2);
}

/// A buffer that passes the full check also passes the check made on raw bytes.
pub proof fn lemma_check_frame_implies_magic_version(s: Seq<u8>)
    requires
        check_frame(s) is Ok,
    ensures
        check_magic_version(s) is Ok,
{
}

/// Encodes `value` into a framed buffer and returns its bytes.
pub fn encode<T: WireEncode>(value: &T) -> (r: Vec<u8>)
    requires
        HEADER_SIZE + T::wire_bytes(value.deep_view()).len() <= usize::MAX,
    ensures
        r@ == frame_bytes::<T>(value.deep_view()),
{
    WireBuffer::new(value).into_bytes()
}

/// Reads a value of type `T` from framed bytes.
pub fn decode<T: WireDecode>(data: &[u8]) -> (r: Result<T, DecodeError>)
    ensures
        match r {
            Ok(v) => read_frame::<T>(data@) == Ok::<_, DecodeError>(v.deep_view()),
            Err(e) => read_frame::<T>(data@) == Err::<<T as DeepView>::V, _>(e),
        },
{
    let buffer = WireBuffer::from_bytes(slice_to_vec(data))?;
    buffer.decode()
}

} // verus!
