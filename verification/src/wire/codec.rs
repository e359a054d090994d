use vstd::prelude::*;
use vstd::bytes::{
    spec_u32_from_le_bytes, spec_u32_to_le_bytes, lemma_auto_spec_u32_to_from_le_bytes,
    u32_from_le_bytes, u32_to_le_bytes, spec_u64_from_le_bytes, spec_u64_to_le_bytes,
    lemma_auto_spec_u64_to_from_le_bytes, u64_from_le_bytes, u64_to_le_bytes,
};
use vstd::slice::{slice_subrange, slice_to_vec};
use vstd::string::StringSliceAdditionalSpecFns;
use vstd::utf8::{
    decode_utf8, encode_utf8, encode_utf8_decode_utf8, encode_utf8_valid_utf8, valid_utf8,
};
use crate::wire::error::DecodeError;

verus! {

/// The first four bytes of `s` read as a little-endian `u32`.
pub open spec fn le_u32(s: Seq<u8>) -> u32 {
    spec_u32_from_le_bytes(s.take(4))
}

/// The first eight bytes of `s` read as a little-endian `u64`.
pub open spec fn le_u64(s: Seq<u8>) -> u64 {
    spec_u64_from_le_bytes(s.take(8))
}

/// A value that can be written in the wire format.
///
/// `wire_bytes` is the encoding of a value, stated over its deep view.
pub trait WireEncode: DeepView + Sized {
    spec fn wire_bytes(v: <Self as DeepView>::V) -> Seq<u8>;

    /// Every encoding holds at least one byte.
    proof fn lemma_wire_bytes_nonempty(v: <Self as DeepView>::V)
        ensures
            Self::wire_bytes(v).len() >= 1,
    ;

    /// Number of bytes `encode_to` appends.
    fn wire_size(&self) -> (n: usize)
        requires
            Self::wire_bytes(self.deep_view()).len() <= usize::MAX,
        ensures
            n == Self::wire_bytes(self.deep_view()).len(),
    ;

    /// Appends the encoding of `self` to `buf`.
    fn encode_to(&self, buf: &mut Vec<u8>)
        requires
            old(buf)@.len() + Self::wire_bytes(self.deep_view()).len() <= usize::MAX,
        ensures
            final(buf)@ == old(buf)@ + Self::wire_bytes(self.deep_view()),
    ;
}

/// A value that can be read back from the wire format.
///
/// `wire_parse(s)` reads one value from the front of `s` and says how many bytes it used.
pub trait WireDecode: WireEncode {
    spec fn wire_parse(s: Seq<u8>) -> Result<(<Self as DeepView>::V, nat), DecodeError>;

    /// A parse never uses more bytes than it was given.
    proof fn lemma_parse_len(s: Seq<u8>)
        ensures
            Self::wire_parse(s) matches Ok((_, n)) ==> n <= s.len(),
    ;

    /// Reading the encoding of a value, followed by anything, gives the value back
    /// and uses exactly the encoding's bytes.
    proof fn lemma_parse_encoded(v: <Self as DeepView>::V, rest: Seq<u8>)
        requires
            Self::wire_bytes(v).len() <= u32::MAX,
        ensures
            Self::wire_parse(Self::wire_bytes(v) + rest) == Ok::<_, DecodeError>(
                (v, Self::wire_bytes(v).len()),
            ),
    ;

    /// Reads one value from `data` starting at `pos`; returns it with the number of bytes used.
    fn decode_from(data: &[u8], pos: usize) -> (r: Result<(Self, usize), DecodeError>)
        requires
            pos <= data@.len(),
        ensures
            match r {
                Ok((v, n)) => Self::wire_parse(data@.skip(pos as int)) == Ok::<_, DecodeError>(
                    (v.deep_view(), n as nat),
                ),
                Err(e) => Self::wire_parse(data@.skip(pos as int)) == Err::<
                    (<Self as DeepView>::V, nat),
                    _,
                >(e),
            },
    ;
}

/// The layout of the encodings: a `bool` is one byte 0 or 1, a `u8` itself, a `u32` or
/// `i32` four little-endian bytes, a `u64` or `i64` eight; a string its UTF-8 byte count
/// as a `u32` then its UTF-8 bytes; a vector its element count as a `u32` then its
/// elements' encodings in order; an option a tag byte, 0 for none, 1 followed by the
/// value's encoding for some.
pub proof fn lemma_wire_layout(b: bool, x: u8, y: u32, z: i32, w: u64, q: i64, s: Seq<char>, o: Option<u8>, vs: Seq<u8>)
    ensures
        <bool as WireEncode>::wire_bytes(b) == seq![if b { 1u8 } else { 0u8 }],
        <u8 as WireEncode>::wire_bytes(x) == seq![x],
        <u32 as WireEncode>::wire_bytes(y) == spec_u32_to_le_bytes(y),
        <i32 as WireEncode>::wire_bytes(z) == spec_u32_to_le_bytes(z as u32),
        <u64 as WireEncode>::wire_bytes(w) == spec_u64_to_le_bytes(w),
        <i64 as WireEncode>::wire_bytes(q) == spec_u64_to_le_bytes(q as u64),
        <String as WireEncode>::wire_bytes(s) == spec_u32_to_le_bytes(encode_utf8(s).len() as u32)
            + encode_utf8(s),
        <Option<u8> as WireEncode>::wire_bytes(None) == seq![0u8],
        <Option<u8> as WireEncode>::wire_bytes(Some(x)) == seq![1u8, x],
        <Vec<u8> as WireEncode>::wire_bytes(vs) == spec_u32_to_le_bytes(vs.len() as u32) + vs,
    decreases vs.len(),
{
    assert(seq![1u8] + seq![x] =~= seq![1u8, x]);
    lemma_encode_bytes(vs);
}

proof fn lemma_encode_bytes(vs: Seq<u8>)
    ensures
        encode_elems::<u8>(vs) == vs,
    decreases vs.len(),
{
    if vs.len() > 0 {
        lemma_encode_bytes(vs.drop_last());
        assert(vs.drop_last() + seq![vs.last()] =~= vs);
    } else {
        assert(vs =~= Seq::<u8>::empty());
    }
}

/// Appends the four little-endian bytes of `x`.
fn push_u32_le(buf: &mut Vec<u8>, x: u32)
    requires
        old(buf)@.len() + 4 <= usize::MAX,
    ensures
        final(buf)@ == old(buf)@ + spec_u32_to_le_bytes(x),
{
    let mut bytes = u32_to_le_bytes(x);
    buf.append(&mut bytes);
}

/// Reads the four little-endian bytes at `pos` as a `u32`.
fn read_u32_le(data: &[u8], pos: usize) -> (x: u32)
    requires
        pos + 4 <= data@.len(),
    ensures
        x == le_u32(data@.skip(pos as int)),
{
    let len = data.len();
    assert(pos + 4 <= len);
    let s = slice_subrange(data, pos, pos + 4);
    assert(s@ =~= data@.skip(pos as int).take(4));
    u32_from_le_bytes(s)
}

/// Appends the eight little-endian bytes of `x`.
fn push_u64_le(buf: &mut Vec<u8>, x: u64)
    requires
        old(buf)@.len() + 8 <= usize::MAX,
    ensures
        final(buf)@ == old(buf)@ + spec_u64_to_le_bytes(x),
{
    let mut bytes = u64_to_le_bytes(x);
    buf.append(&mut bytes);
}

/// Reads the eight little-endian bytes at `pos` as a `u64`.
fn read_u64_le(data: &[u8], pos: usize) -> (x: u64)
    requires
        pos + 8 <= data@.len(),
    ensures
        x == le_u64(data@.skip(pos as int)),
{
    let len = data.len();
    assert(pos + 8 <= len);
    let s = slice_subrange(data, pos, pos + 8);
    assert(s@ =~= data@.skip(pos as int).take(8));
    u64_from_le_bytes(s)
}

/// The byte that encodes a `bool`.
pub open spec fn bool_byte(b: bool) -> u8 {
    if b {
        1u8
    } else {
        0u8
    }
}

impl WireEncode for bool {
    open spec fn wire_bytes(v: bool) -> Seq<u8> {
        seq![bool_byte(v)]
    }

    proof fn lemma_wire_bytes_nonempty(v: bool) {
    }

    fn wire_size(&self) -> (n: usize) {
        1
    }

    fn encode_to(&self, buf: &mut Vec<u8>) {
        let b: u8 = if *self {
            1
        } else {
            0
        };
        buf.push(b);
        assert(buf@ =~= old(buf)@ + seq![bool_byte(*self)]);
    }
}

impl WireDecode for bool {
    open spec fn wire_parse(s: Seq<u8>) -> Result<(bool, nat), DecodeError> {
        if s.len() < 1 {
            Err(DecodeError::BufferTooSmall)
        } else if s[0] == 0 {
            Ok((false, 1))
        } else if s[0] == 1 {
            Ok((true, 1))
        } else {
            Err(DecodeError::InvalidTag)
        }
    }

    proof fn lemma_parse_len(s: Seq<u8>) {
    }

    proof fn lemma_parse_encoded(v: bool, rest: Seq<u8>) {
        assert((seq![bool_byte(v)] + rest)[0] == bool_byte(v));
    }

    fn decode_from(data: &[u8], pos: usize) -> (r: Result<(bool, usize), DecodeError>) {
        if pos >= data.len() {
            Err(DecodeError::BufferTooSmall)
        } else {
            let b = data[pos];
            assert(data@.skip(pos as int)[0] == b);
            if b == 0 {
                Ok((false, 1))
            } else if b == 1 {
                Ok((true, 1))
            } else {
                Err(DecodeError::InvalidTag)
            }
        }
    }
}

impl WireEncode for u8 {
    open spec fn wire_bytes(v: u8) -> Seq<u8> {
        seq![v]
    }

    proof fn lemma_wire_bytes_nonempty(v: u8) {
    }

    fn wire_size(&self) -> (n: usize) {
        1
    }

    fn encode_to(&self, buf: &mut Vec<u8>) {
        buf.push(*self);
        assert(buf@ =~= old(buf)@ + seq![*self]);
    }
}

impl WireDecode for u8 {
    open spec fn wire_parse(s: Seq<u8>) -> Result<(u8, nat), DecodeError> {
        if s.len() < 1 {
            Err(DecodeError::BufferTooSmall)
        } else {
            Ok((s[0], 1))
        }
    }

    proof fn lemma_parse_len(s: Seq<u8>) {
    }

    proof fn lemma_parse_encoded(v: u8, rest: Seq<u8>) {
        assert((seq![v] + rest)[0] == v);
    }

    fn decode_from(data: &[u8], pos: usize) -> (r: Result<(u8, usize), DecodeError>) {
        if pos >= data.len() {
            Err(DecodeError::BufferTooSmall)
        } else {
            let b = data[pos];
            assert(data@.skip(pos as int)[0] == b);
            Ok((b, 1))
        }
    }
}

impl WireEncode for u32 {
    open spec fn wire_bytes(v: u32) -> Seq<u8> {
        spec_u32_to_le_bytes(v)
    }

    proof fn lemma_wire_bytes_nonempty(v: u32) {
        lemma_auto_spec_u32_to_from_le_bytes();
    }

    fn wire_size(&self) -> (n: usize) {
        proof {
            lemma_auto_spec_u32_to_from_le_bytes();
        }
        4
    }

    fn encode_to(&self, buf: &mut Vec<u8>) {
        proof {
            lemma_auto_spec_u32_to_from_le_bytes();
        }
        push_u32_le(buf, *self);
    }
}

impl WireDecode for u32 {
    open spec fn wire_parse(s: Seq<u8>) -> Result<(u32, nat), DecodeError> {
        if s.len() < 4 {
            Err(DecodeError::BufferTooSmall)
        } else {
            Ok((le_u32(s), 4))
        }
    }

    proof fn lemma_parse_len(s: Seq<u8>) {
    }

    proof fn lemma_parse_encoded(v: u32, rest: Seq<u8>) {
        lemma_auto_spec_u32_to_from_le_bytes();
        let s = spec_u32_to_le_bytes(v) + rest;
        assert(s.take(4) =~= spec_u32_to_le_bytes(v));
    }

    fn decode_from(data: &[u8], pos: usize) -> (r: Result<(u32, usize), DecodeError>) {
        if data.len() - pos < 4 {
            Err(DecodeError::BufferTooSmall)
        } else {
            Ok((read_u32_le(data, pos), 4))
        }
    }
}

impl WireEncode for i32 {
    open spec fn wire_bytes(v: i32) -> Seq<u8> {
        spec_u32_to_le_bytes(v as u32)
    }

    proof fn lemma_wire_bytes_nonempty(v: i32) {
        lemma_auto_spec_u32_to_from_le_bytes();
    }

    fn wire_size(&self) -> (n: usize) {
        proof {
            lemma_auto_spec_u32_to_from_le_bytes();
        }
        4
    }

    fn encode_to(&self, buf: &mut Vec<u8>) {
        proof {
            lemma_auto_spec_u32_to_from_le_bytes();
        }
        push_u32_le(buf, *self as u32);
    }
}

impl WireDecode for i32 {
    open spec fn wire_parse(s: Seq<u8>) -> Result<(i32, nat), DecodeError> {
        if s.len() < 4 {
            Err(DecodeError::BufferTooSmall)
        } else {
            Ok((le_u32(s) as i32, 4))
        }
    }

    proof fn lemma_parse_len(s: Seq<u8>) {
    }

    proof fn lemma_parse_encoded(v: i32, rest: Seq<u8>) {
        lemma_auto_spec_u32_to_from_le_bytes();
        let s = spec_u32_to_le_bytes(v as u32) + rest;
        assert(s.take(4) =~= spec_u32_to_le_bytes(v as u32));
        assert(((v as u32) as i32) == v) by (bit_vector);
    }

    fn decode_from(data: &[u8], pos: usize) -> (r: Result<(i32, usize), DecodeError>) {
        if data.len() - pos < 4 {
            Err(DecodeError::BufferTooSmall)
        } else {
            Ok((read_u32_le(data, pos) as i32, 4))
        }
    }
}

impl WireEncode for u64 {
    open spec fn wire_bytes(v: u64) -> Seq<u8> {
        spec_u64_to_le_bytes(v)
    }

    proof fn lemma_wire_bytes_nonempty(v: u64) {
        lemma_auto_spec_u64_to_from_le_bytes();
    }

    fn wire_size(&self) -> (n: usize) {
        proof {
            lemma_auto_spec_u64_to_from_le_bytes();
        }
        8
    }

    fn encode_to(&self, buf: &mut Vec<u8>) {
        proof {
            lemma_auto_spec_u64_to_from_le_bytes();
        }
        push_u64_le(buf, *self);
    }
}

impl WireDecode for u64 {
    open spec fn wire_parse(s: Seq<u8>) -> Result<(u64, nat), DecodeError> {
        if s.len() < 8 {
            Err(DecodeError::BufferTooSmall)
        } else {
            Ok((le_u64(s), 8))
        }
    }

    proof fn lemma_parse_len(s: Seq<u8>) {
    }

    proof fn lemma_parse_encoded(v: u64, rest: Seq<u8>) {
        lemma_auto_spec_u64_to_from_le_bytes();
        let s = spec_u64_to_le_bytes(v) + rest;
        assert(s.take(8) =~= spec_u64_to_le_bytes(v));
    }

    fn decode_from(data: &[u8], pos: usize) -> (r: Result<(u64, usize), DecodeError>) {
        if data.len() - pos < 8 {
            Err(DecodeError::BufferTooSmall)
        } else {
            Ok((read_u64_le(data, pos), 8))
        }
    }
}

impl WireEncode for i64 {
    open spec fn wire_bytes(v: i64) -> Seq<u8> {
        spec_u64_to_le_bytes(v as u64)
    }

    proof fn lemma_wire_bytes_nonempty(v: i64) {
        lemma_auto_spec_u64_to_from_le_bytes();
    }

    fn wire_size(&self) -> (n: usize) {
        proof {
            lemma_auto_spec_u64_to_from_le_bytes();
        }
        8
    }

    fn encode_to(&self, buf: &mut Vec<u8>) {
        proof {
            lemma_auto_spec_u64_to_from_le_bytes();
        }
        push_u64_le(buf, *self as u64);
    }
}

impl WireDecode for i64 {
    open spec fn wire_parse(s: Seq<u8>) -> Result<(i64, nat), DecodeError> {
        if s.len() < 8 {
            Err(DecodeError::BufferTooSmall)
        } else {
            Ok((le_u64(s) as i64, 8))
        }
    }

    proof fn lemma_parse_len(s: Seq<u8>) {
    }

    proof fn lemma_parse_encoded(v: i64, rest: Seq<u8>) {
        lemma_auto_spec_u64_to_from_le_bytes();
        let s = spec_u64_to_le_bytes(v as u64) + rest;
        assert(s.take(8) =~= spec_u64_to_le_bytes(v as u64));
        assert(((v as u64) as i64) == v) by (bit_vector);
    }

    fn decode_from(data: &[u8], pos: usize) -> (r: Result<(i64, usize), DecodeError>) {
        if data.len() - pos < 8 {
            Err(DecodeError::BufferTooSmall)
        } else {
            Ok((read_u64_le(data, pos) as i64, 8))
        }
    }
}

/// Calls `std::str::from_utf8`.
///
/// Claimed of it: it succeeds exactly when the bytes are valid UTF-8, and the string
/// it returns consists of exactly those bytes.
#[verifier::external_body]
fn str_from_utf8(bytes: &[u8]) -> (r: Option<&str>)
    ensures
        r is Some <==> valid_utf8(bytes@),
        r matches Some(s) ==> s.spec_bytes() == bytes@,
{
    std::str::from_utf8(bytes).ok()
}

/// Appends all of `bytes` to `buf`.
fn push_bytes(buf: &mut Vec<u8>, bytes: &[u8])
    requires
        old(buf)@.len() + bytes@.len() <= usize::MAX,
    ensures
        final(buf)@ == old(buf)@ + bytes@,
{
    let mut v = slice_to_vec(bytes);
    buf.append(&mut v);
}

impl WireEncode for String {
    /// A `u32` byte count followed by the UTF-8 bytes.
    open spec fn wire_bytes(v: Seq<char>) -> Seq<u8> {
        spec_u32_to_le_bytes(encode_utf8(v).len() as u32) + encode_utf8(v)
    }

    proof fn lemma_wire_bytes_nonempty(v: Seq<char>) {
        lemma_auto_spec_u32_to_from_le_bytes();
    }

    fn wire_size(&self) -> (n: usize) {
        proof {
            lemma_auto_spec_u32_to_from_le_bytes();
        }
        let bytes = self.as_str().as_bytes();
        4 + bytes.len()
    }

    fn encode_to(&self, buf: &mut Vec<u8>) {
        proof {
            lemma_auto_spec_u32_to_from_le_bytes();
        }
        let bytes = self.as_str().as_bytes();
        push_u32_le(buf, bytes.len() as u32);
        push_bytes(buf, bytes);
        assert(buf@ =~= old(buf)@ + Self::wire_bytes(self.deep_view()));
    }
}

impl WireDecode for String {
    open spec fn wire_parse(s: Seq<u8>) -> Result<(Seq<char>, nat), DecodeError> {
        if s.len() < 4 {
            Err(DecodeError::BufferTooSmall)
        } else if s.len() < 4 + le_u32(s) {
            Err(DecodeError::BufferTooSmall)
        } else if !valid_utf8(s.subrange(4, 4 + le_u32(s))) {
            Err(DecodeError::InvalidUtf8)
        } else {
            Ok((decode_utf8(s.subrange(4, 4 + le_u32(s))), (4 + le_u32(s)) as nat))
        }
    }

    proof fn lemma_parse_len(s: Seq<u8>) {
    }

    proof fn lemma_parse_encoded(v: Seq<char>, rest: Seq<u8>) {
        lemma_auto_spec_u32_to_from_le_bytes();
        encode_utf8_valid_utf8(v);
        encode_utf8_decode_utf8(v);
        let b = encode_utf8(v);
        let s = spec_u32_to_le_bytes(b.len() as u32) + b + rest;
        assert(s.take(4) =~= spec_u32_to_le_bytes(b.len() as u32));
        assert(s.subrange(4, 4 + b.len() as int) =~= b);
        assert(s == Self::wire_bytes(v) + rest);
    }

    fn decode_from(data: &[u8], pos: usize) -> (r: Result<(String, usize), DecodeError>) {
        let len = data.len();
        if len - pos < 4 {
            return Err(DecodeError::BufferTooSmall);
        }
        let n = read_u32_le(data, pos) as usize;
        if len - pos - 4 < n {
            return Err(DecodeError::BufferTooSmall);
        }
        let bytes = slice_subrange(data, pos + 4, pos + 4 + n);
        assert(bytes@ =~= data@.skip(pos as int).subrange(4, 4 + n));
        match str_from_utf8(bytes) {
            Some(s) => {
                proof {
                    encode_utf8_decode_utf8(s@);
                }
                let owned = s.to_owned();
                Ok((owned, 4 + n))
            },
            None => Err(DecodeError::InvalidUtf8),
        }
    }
}

/// The encodings of `vs`, one after another.
pub open spec fn encode_elems<T: WireEncode>(vs: Seq<<T as DeepView>::V>) -> Seq<u8>
    decreases vs.len(),
{
    if vs.len() == 0 {
        Seq::empty()
    } else {
        encode_elems::<T>(vs.drop_last()) + T::wire_bytes(vs.last())
    }
}

/// Reads `count` values one after another from the front of `s`; gives them with the
/// number of bytes used, or the first error met.
pub open spec fn parse_elems<T: WireDecode>(s: Seq<u8>, count: nat) -> Result<
    (Seq<<T as DeepView>::V>, nat),
    DecodeError,
>
    decreases count,
{
    if count == 0 {
        Ok((Seq::empty(), 0))
    } else {
        match parse_elems::<T>(s, (count - 1) as nat) {
            Ok((vs, m)) => match T::wire_parse(s.skip(m as int)) {
                Ok((v, k)) => Ok((vs.push(v), m + k)),
                Err(e) => Err(e),
            },
            Err(e) => Err(e),
        }
    }
}

proof fn lemma_encode_elems_take<T: WireEncode>(vs: Seq<<T as DeepView>::V>, i: int)
    requires
        0 <= i < vs.len(),
    ensures
        encode_elems::<T>(vs.take(i + 1)) == encode_elems::<T>(vs.take(i)) + T::wire_bytes(vs[i]),
{
    assert(vs.take(i + 1).drop_last() =~= vs.take(i));
}

proof fn lemma_encode_elems_take_len<T: WireEncode>(vs: Seq<<T as DeepView>::V>, i: int)
    requires
        0 <= i <= vs.len(),
    ensures
        encode_elems::<T>(vs.take(i)).len() <= encode_elems::<T>(vs).len(),
    decreases vs.len() - i,
{
    if i == vs.len() {
        assert(vs.take(i) =~= vs);
    } else {
        lemma_encode_elems_take::<T>(vs, i);
        lemma_encode_elems_take_len::<T>(vs, i + 1);
    }
}

proof fn lemma_encode_elems_len<T: WireEncode>(vs: Seq<<T as DeepView>::V>)
    ensures
        encode_elems::<T>(vs).len() >= vs.len(),
    decreases vs.len(),
{
    if vs.len() > 0 {
        lemma_encode_elems_len::<T>(vs.drop_last());
        T::lemma_wire_bytes_nonempty(vs.last());
    }
}

proof fn lemma_parse_elems_len<T: WireDecode>(s: Seq<u8>, count: nat)
    ensures
        parse_elems::<T>(s, count) matches Ok((vs, m)) ==> m <= s.len() && vs.len() == count,
    decreases count,
{
    if count > 0 {
        lemma_parse_elems_len::<T>(s, (count - 1) as nat);
        if let Ok((vs, m)) = parse_elems::<T>(s, (count - 1) as nat) {
            T::lemma_parse_len(s.skip(m as int));
        }
    }
}

proof fn lemma_parse_elems_err<T: WireDecode>(s: Seq<u8>, i: nat, n: nat)
    requires
        i <= n,
        parse_elems::<T>(s, i) is Err,
    ensures
        parse_elems::<T>(s, n) == parse_elems::<T>(s, i),
    decreases n - i,
{
    if i < n {
        lemma_parse_elems_err::<T>(s, i, (n - 1) as nat);
    }
}

proof fn lemma_parse_elems_encoded<T: WireDecode>(vs: Seq<<T as DeepView>::V>, rest: Seq<u8>)
    requires
        encode_elems::<T>(vs).len() <= u32::MAX,
    ensures
        parse_elems::<T>(encode_elems::<T>(vs) + rest, vs.len()) == Ok::<_, DecodeError>(
            (vs, encode_elems::<T>(vs).len()),
        ),
    decreases vs.len(),
{
    if vs.len() > 0 {
        let init = vs.drop_last();
        let last = vs.last();
        let tail = T::wire_bytes(last) + rest;
        assert(encode_elems::<T>(vs) + rest =~= encode_elems::<T>(init) + tail);
        lemma_parse_elems_encoded::<T>(init, tail);
        let m = encode_elems::<T>(init).len();
        assert((encode_elems::<T>(init) + tail).skip(m as int) =~= tail);
        T::lemma_parse_encoded(last, rest);
        assert(init.push(last) =~= vs);
    } else {
        assert(vs =~= Seq::<<T as DeepView>::V>::empty());
    }
}

impl<T: WireEncode> WireEncode for Vec<T> {
    /// A `u32` element count followed by the elements' encodings.
    open spec fn wire_bytes(v: Seq<<T as DeepView>::V>) -> Seq<u8> {
        spec_u32_to_le_bytes(v.len() as u32) + encode_elems::<T>(v)
    }

    proof fn lemma_wire_bytes_nonempty(v: Seq<<T as DeepView>::V>) {
        lemma_auto_spec_u32_to_from_le_bytes();
    }

    fn wire_size(&self) -> (n: usize) {
        proof {
            lemma_auto_spec_u32_to_from_le_bytes();
        }
        let ghost dv = self.deep_view();
        let mut total: usize = 4;
        let mut i: usize = 0;
        while i < self.len()
            invariant
                dv == self.deep_view(),
                i <= self.len(),
                total == 4 + encode_elems::<T>(dv.take(i as int)).len(),
                4 + encode_elems::<T>(dv).len() <= usize::MAX,
            decreases self.len() - i,
        {
            proof {
                lemma_encode_elems_take::<T>(dv, i as int);
                lemma_encode_elems_take_len::<T>(dv, i as int + 1);
            }
            let n = self[i].wire_size();
            total = total + n;
            i = i + 1;
        }
        assert(dv.take(i as int) =~= dv);
        total
    }

    fn encode_to(&self, buf: &mut Vec<u8>) {
        proof {
            lemma_auto_spec_u32_to_from_le_bytes();
        }
        let ghost dv = self.deep_view();
        let ghost start = buf@;
        push_u32_le(buf, self.len() as u32);
        let mut i: usize = 0;
        while i < self.len()
            invariant
                dv == self.deep_view(),
                i <= self.len(),
                buf@ == start + spec_u32_to_le_bytes(dv.len() as u32) + encode_elems::<T>(
                    dv.take(i as int),
                ),
                start.len() + 4 + encode_elems::<T>(dv).len() <= usize::MAX,
            decreases self.len() - i,
        {
            proof {
                lemma_auto_spec_u32_to_from_le_bytes();
                lemma_encode_elems_take::<T>(dv, i as int);
                lemma_encode_elems_take_len::<T>(dv, i as int + 1);
            }
            assert(dv[i as int] == self[i as int].deep_view());
            self[i].encode_to(buf);
            i = i + 1;
            assert(buf@ =~= start + spec_u32_to_le_bytes(dv.len() as u32) + encode_elems::<T>(
                dv.take(i as int),
            ));
        }
        assert(dv.take(i as int) =~= dv);
        assert(buf@ =~= start + Self::wire_bytes(dv));
    }
}

impl<T: WireDecode> WireDecode for Vec<T> {
    open spec fn wire_parse(s: Seq<u8>) -> Result<(Seq<<T as DeepView>::V>, nat), DecodeError> {
        if s.len() < 4 {
            Err(DecodeError::BufferTooSmall)
        } else {
            match parse_elems::<T>(s.skip(4), le_u32(s) as nat) {
                Ok((vs, m)) => Ok((vs, 4 + m)),
                Err(e) => Err(e),
            }
        }
    }

    proof fn lemma_parse_len(s: Seq<u8>) {
        if s.len() >= 4 {
            lemma_parse_elems_len::<T>(s.skip(4), le_u32(s) as nat);
        }
    }

    proof fn lemma_parse_encoded(v: Seq<<T as DeepView>::V>, rest: Seq<u8>) {
        lemma_auto_spec_u32_to_from_le_bytes();
        lemma_encode_elems_len::<T>(v);
        let s = Self::wire_bytes(v) + rest;
        assert(s.take(4) =~= spec_u32_to_le_bytes(v.len() as u32));
        assert(s.skip(4) =~= encode_elems::<T>(v) + rest);
        lemma_parse_elems_encoded::<T>(v, rest);
    }

    fn decode_from(data: &[u8], pos: usize) -> (r: Result<(Vec<T>, usize), DecodeError>) {
        let len = data.len();
        if len - pos < 4 {
            return Err(DecodeError::BufferTooSmall);
        }
        let count = read_u32_le(data, pos);
        let ghost s = data@.skip(pos as int).skip(4);
        let mut items: Vec<T> = Vec::new();
        let mut cur: usize = pos + 4;
        let mut i: u32 = 0;
        assert(items.deep_view() =~= Seq::<<T as DeepView>::V>::empty());
        while i < count
            invariant
                len == data@.len(),
                pos + 4 <= cur <= len,
                i <= count,
                count == le_u32(data@.skip(pos as int)),
                s == data@.skip(pos as int).skip(4),
                parse_elems::<T>(s, i as nat) == Ok::<_, DecodeError>(
                    (items.deep_view(), (cur - pos - 4) as nat),
                ),
            decreases count - i,
        {
            assert(data@.skip(cur as int) =~= s.skip(cur - pos - 4));
            match T::decode_from(data, cur) {
                Ok((v, n)) => {
                    proof {
                        T::lemma_parse_len(data@.skip(cur as int));
                    }
                    let ghost old_items = items.deep_view();
                    items.push(v);
                    assert(items.deep_view() =~= old_items.push(v.deep_view()));
                    cur = cur + n;
                    i = i + 1;
                },
                Err(e) => {
                    proof {
                        lemma_parse_elems_err::<T>(s, (i + 1) as nat, count as nat);
                    }
                    return Err(e);
                },
            }
        }
        Ok((items, cur - pos))
    }
}

impl<T: WireEncode> WireEncode for Option<T> {
    /// A tag byte, 0 for `None` and 1 for `Some`, followed by the payload's encoding.
    open spec fn wire_bytes(v: Option<<T as DeepView>::V>) -> Seq<u8> {
        match v {
            Some(x) => seq![1u8] + T::wire_bytes(x),
            None => seq![0u8],
        }
    }

    proof fn lemma_wire_bytes_nonempty(v: Option<<T as DeepView>::V>) {
    }

    fn wire_size(&self) -> (n: usize) {
        match self {
            Some(x) => 1 + x.wire_size(),
            None => 1,
        }
    }

    fn encode_to(&self, buf: &mut Vec<u8>) {
        match self {
            Some(x) => {
                buf.push(1u8);
                x.encode_to(buf);
                assert(buf@ =~= old(buf)@ + Self::wire_bytes(self.deep_view()));
            },
            None => {
                buf.push(0u8);
                assert(buf@ =~= old(buf)@ + Self::wire_bytes(self.deep_view()));
            },
        }
    }
}

impl<T: WireDecode> WireDecode for Option<T> {
    open spec fn wire_parse(s: Seq<u8>) -> Result<(Option<<T as DeepView>::V>, nat), DecodeError> {
        if s.len() < 1 {
            Err(DecodeError::BufferTooSmall)
        } else if s[0] == 0 {
            Ok((None, 1))
        } else if s[0] == 1 {
            match T::wire_parse(s.skip(1)) {
                Ok((v, n)) => Ok((Some(v), 1 + n)),
                Err(e) => Err(e),
            }
        } else {
            Err(DecodeError::InvalidTag)
        }
    }

    proof fn lemma_parse_len(s: Seq<u8>) {
        if s.len() >= 1 {
            T::lemma_parse_len(s.skip(1));
        }
    }

    proof fn lemma_parse_encoded(v: Option<<T as DeepView>::V>, rest: Seq<u8>) {
        let s = Self::wire_bytes(v) + rest;
        match v {
            Some(x) => {
                assert(s[0] == 1u8);
                assert(s.skip(1) =~= T::wire_bytes(x) + rest);
                T::lemma_parse_encoded(x, rest);
            },
            None => {
                assert(s[0] == 0u8);
            },
        }
    }

    fn decode_from(data: &[u8], pos: usize) -> (r: Result<(Option<T>, usize), DecodeError>) {
        if pos >= data.len() {
            return Err(DecodeError::BufferTooSmall);
        }
        let tag = data[pos];
        assert(data@.skip(pos as int)[0] == tag);
        if tag == 0 {
            Ok((None, 1))
        } else if tag == 1 {
            assert(data@.skip(pos as int).skip(1) =~= data@.skip(pos + 1));
            match T::decode_from(data, pos + 1) {
                Ok((v, n)) => {
                    proof {
                        T::lemma_parse_len(data@.skip(pos + 1));
                    }
                    Ok((Some(v), 1 + n))
                },
                Err(e) => Err(e),
            }
        } else {
            Err(DecodeError::InvalidTag)
        }
    }
}

} // verus!
