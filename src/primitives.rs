//! Fixed-width big-endian integers, the building block of most wire fields.
use vstd::prelude::*;
use vstd::string::StringSliceAdditionalSpecFns;
use vstd::utf8::{decode_utf8, encode_utf8, valid_utf8};
use crate::codec::EncodeError;
use crate::varint::{VarIntError, VarIntRead, decode_var_int, encode_var_int, var_int_decode_spec, var_int_spec};

verus! {

/// Why a value could not be read from a buffer.
#[derive(Debug, Clone, Copy, PartialEq, Eq, Structural)]
pub enum DecodeError {
    /// The input ended before the value was complete.
    UnexpectedEnd,
    /// The input holds a value that the type does not allow.
    Malformed,
}

/// The eight big-endian bytes of `w`.
pub open spec fn be_bytes_u64(w: u64) -> Seq<u8> {
    seq![
        (w >> 56u64) as u8,
        (w >> 48u64) as u8,
        (w >> 40u64) as u8,
        (w >> 32u64) as u8,
        (w >> 24u64) as u8,
        (w >> 16u64) as u8,
        (w >> 8u64) as u8,
        w as u8,
    ]
}

/// The value of eight big-endian bytes.
pub open spec fn be_value_u64(b0: u8, b1: u8, b2: u8, b3: u8, b4: u8, b5: u8, b6: u8, b7: u8) -> u64 {
    ((b0 as u64) << 56u64) | ((b1 as u64) << 48u64) | ((b2 as u64) << 40u64) | ((b3 as u64)
        << 32u64) | ((b4 as u64) << 24u64) | ((b5 as u64) << 16u64) | ((b6 as u64) << 8u64) | (
    b7 as u64)
}

/// The value of the eight bytes of `s` that start at `i`.
pub open spec fn be_u64_at(s: Seq<u8>, i: int) -> u64 {
    be_value_u64(s[i], s[i + 1], s[i + 2], s[i + 3], s[i + 4], s[i + 5], s[i + 6], s[i + 7])
}

/// Eight bytes written for `w` are read back as `w`.
pub proof fn lemma_be_u64_round_trip(w: u64)
    ensures
        be_value_u64(
            (w >> 56u64) as u8,
            (w >> 48u64) as u8,
            (w >> 40u64) as u8,
            (w >> 32u64) as u8,
            (w >> 24u64) as u8,
            (w >> 16u64) as u8,
            (w >> 8u64) as u8,
            w as u8,
        ) == w,
{
    assert(((((w >> 56u64) as u8) as u64) << 56u64) | ((((w >> 48u64) as u8) as u64) << 48u64)
        | ((((w >> 40u64) as u8) as u64) << 40u64) | ((((w >> 32u64) as u8) as u64) << 32u64)
        | ((((w >> 24u64) as u8) as u64) << 24u64) | ((((w >> 16u64) as u8) as u64) << 16u64)
        | ((((w >> 8u64) as u8) as u64) << 8u64) | ((w as u8) as u64) == w) by (bit_vector);
}

/// Appends the eight big-endian bytes of `w`.
pub fn encode_u64(w: u64, bytes: &mut Vec<u8>)
    ensures
        final(bytes)@ == old(bytes)@ + be_bytes_u64(w),
{
    bytes.push((w >> 56u64) as u8);
    bytes.push((w >> 48u64) as u8);
    bytes.push((w >> 40u64) as u8);
    bytes.push((w >> 32u64) as u8);
    bytes.push((w >> 24u64) as u8);
    bytes.push((w >> 16u64) as u8);
    bytes.push((w >> 8u64) as u8);
    bytes.push(w as u8);
    assert(final(bytes)@ =~= old(bytes)@ + be_bytes_u64(w));
}

/// Reads eight big-endian bytes at `*index` and moves `*index` past them.
pub fn decode_u64(bytes: &Vec<u8>, index: &mut usize) -> (r: Result<u64, DecodeError>)
    ensures
        *old(index) + 8 <= bytes@.len() ==> r == Ok::<u64, DecodeError>(
            be_u64_at(bytes@, *old(index) as int),
        ) && *final(index) == *old(index) + 8,
        *old(index) + 8 > bytes@.len() ==> r == Err::<u64, DecodeError>(DecodeError::UnexpectedEnd)
            && *final(index) == *old(index),
{
    let i: usize = *index;
    if i >= bytes.len() || bytes.len() - i < 8 {
        return Err(DecodeError::UnexpectedEnd);
    }
    let w: u64 = ((bytes[i] as u64) << 56u64) | ((bytes[i + 1] as u64) << 48u64) | ((bytes[i
        + 2] as u64) << 40u64) | ((bytes[i + 3] as u64) << 32u64) | ((bytes[i + 4] as u64)
        << 24u64) | ((bytes[i + 5] as u64) << 16u64) | ((bytes[i + 6] as u64) << 8u64) | (bytes[i
        + 7] as u64);
    *index = i + 8;
    Ok(w)
}

/// Appends the eight big-endian bytes of the signed `v`.
pub fn encode_i64(v: i64, bytes: &mut Vec<u8>)
    ensures
        final(bytes)@ == old(bytes)@ + be_bytes_u64(v as u64),
{
    encode_u64(v as u64, bytes);
}

/// Reads a signed big-endian 64-bit value at `*index`.
pub fn decode_i64(bytes: &Vec<u8>, index: &mut usize) -> (r: Result<i64, DecodeError>)
    ensures
        *old(index) + 8 <= bytes@.len() ==> r == Ok::<i64, DecodeError>(
            be_u64_at(bytes@, *old(index) as int) as i64,
        ) && *final(index) == *old(index) + 8,
        *old(index) + 8 > bytes@.len() ==> r == Err::<i64, DecodeError>(DecodeError::UnexpectedEnd)
            && *final(index) == *old(index),
{
    match decode_u64(bytes, index) {
        Ok(w) => Ok(w as i64),
        Err(e) => Err(e),
    }
}

/// A signed value written with `encode_i64` is read back unchanged.
pub proof fn lemma_i64_round_trip(v: i64, s: Seq<u8>, i: int)
    requires
        0 <= i,
        i + 8 <= s.len(),
        s.subrange(i, i + 8) == be_bytes_u64(v as u64),
    ensures
        be_u64_at(s, i) as i64 == v,
{
    let w = v as u64;
    assert forall|k: int| 0 <= k < 8 implies s[i + k] == be_bytes_u64(w)[k] by {
        assert(s.subrange(i, i + 8)[k] == s[i + k]);
    }
    lemma_be_u64_round_trip(w);
    assert(w as i64 == v) by (bit_vector)
        requires
            w == v as u64,
    ;
}

/// The four big-endian bytes of `w`.
pub open spec fn be_bytes_u32(w: u32) -> Seq<u8> {
    seq![(w >> 24u32) as u8, (w >> 16u32) as u8, (w >> 8u32) as u8, w as u8]
}

/// Appends the four big-endian bytes of `w`.
pub fn encode_u32(w: u32, bytes: &mut Vec<u8>)
    ensures
        final(bytes)@ == old(bytes)@ + be_bytes_u32(w),
{
    bytes.push((w >> 24u32) as u8);
    bytes.push((w >> 16u32) as u8);
    bytes.push((w >> 8u32) as u8);
    bytes.push(w as u8);
    assert(final(bytes)@ =~= old(bytes)@ + be_bytes_u32(w));
}

/// Appends the four big-endian bytes of the signed `v`.
pub fn encode_i32(v: i32, bytes: &mut Vec<u8>)
    ensures
        final(bytes)@ == old(bytes)@ + be_bytes_u32(v as u32),
{
    encode_u32(v as u32, bytes);
}

/// Whether a byte string is short enough for a length prefix.
pub open spec fn prefixable(b: Seq<u8>) -> bool {
    b.len() <= i32::MAX
}

/// A byte string after its length as a variable-length integer.
pub open spec fn prefixed(b: Seq<u8>) -> Seq<u8> {
    var_int_spec(b.len()) + b
}

/// Appends `b` verbatim.
pub fn append_bytes(b: &[u8], bytes: &mut Vec<u8>)
    ensures
        final(bytes)@ == old(bytes)@ + b@,
{
    let ghost start = bytes@;
    let mut k: usize = 0;
    while k < b.len()
        invariant
            k <= b@.len(),
            bytes@ == start + b@.subrange(0, k as int),
        decreases b@.len() - k,
    {
        bytes.push(b[k]);
        assert(b@.subrange(0, k + 1) =~= b@.subrange(0, k as int).push(b@[k as int]));
        k = k + 1;
    }
    assert(b@.subrange(0, k as int) =~= b@);
}

/// Appends `b` after its length; fails, leaving `bytes` as it was, when the
/// length does not fit the prefix.
pub fn encode_prefixed(b: &[u8], bytes: &mut Vec<u8>) -> (r: Result<(), EncodeError>)
    ensures
        prefixable(b@) ==> r is Ok && final(bytes)@ == old(bytes)@ + prefixed(b@),
        !prefixable(b@) ==> r is Err && final(bytes)@ == old(bytes)@,
{
    if b.len() > i32::MAX as usize {
        return Err(EncodeError::TooLong);
    }
    let ghost start = bytes@;
    encode_var_int(b.len() as i32, bytes);
    assert(b.len() as i32 as u32 as nat == b@.len());
    append_bytes(b, bytes);
    assert(bytes@ =~= start + prefixed(b@));
    Ok(())
}

/// The wire form of a string: its UTF-8 bytes after their length.
pub open spec fn string_bytes(s: Seq<char>) -> Seq<u8> {
    prefixed(encode_utf8(s))
}

/// Whether a string is short enough for the wire.
pub open spec fn string_encodable(s: Seq<char>) -> bool {
    prefixable(encode_utf8(s))
}

/// Appends the wire form of `s`; fails, leaving `bytes` as it was, when it
/// is too long.
pub fn encode_string(s: &String, bytes: &mut Vec<u8>) -> (r: Result<(), EncodeError>)
    ensures
        string_encodable(s@) ==> r is Ok && final(bytes)@ == old(bytes)@ + string_bytes(s@),
        !string_encodable(s@) ==> r is Err && final(bytes)@ == old(bytes)@,
{
    let b = s.as_str().as_bytes();
    encode_prefixed(b, bytes)
}

/// Outcome of reading a length-prefixed byte string.
pub enum PrefixedRead {
    /// The bytes and the number of input bytes they took with their prefix.
    Done(Seq<u8>, nat),
    End,
    Malformed,
}

/// How a length-prefixed byte string is read from `s` at `i`.
pub open spec fn prefixed_read_spec(s: Seq<u8>, i: int) -> PrefixedRead {
    match var_int_decode_spec(s, i) {
        VarIntRead::TooLong => PrefixedRead::Malformed,
        VarIntRead::End => PrefixedRead::End,
        VarIntRead::Done(v, n) => {
            let len = (v as u32 as i32) as int;
            if len < 0 {
                PrefixedRead::Malformed
            } else if i + n + len > s.len() {
                PrefixedRead::End
            } else {
                PrefixedRead::Done(s.subrange(i + n, i + n + len), (n + len) as nat)
            }
        },
    }
}

/// Reads a length-prefixed byte string at `*index`, moving past it.
pub fn decode_prefixed(bytes: &Vec<u8>, index: &mut usize) -> (r: Result<Vec<u8>, DecodeError>)
    ensures
        match prefixed_read_spec(bytes@, *old(index) as int) {
            PrefixedRead::Done(b, n) => (r matches Ok(v) && v@ == b && *final(index) == *old(
                index,
            ) + n),
            PrefixedRead::End => r == Err::<Vec<u8>, DecodeError>(DecodeError::UnexpectedEnd),
            PrefixedRead::Malformed => r == Err::<Vec<u8>, DecodeError>(DecodeError::Malformed),
        },
{
    let mut pos: usize = *index;
    let len: i32 = match decode_var_int(bytes, &mut pos) {
        Ok(v) => v,
        Err(VarIntError::UnexpectedEnd) => {
            return Err(DecodeError::UnexpectedEnd);
        },
        Err(VarIntError::TooLong) => {
            return Err(DecodeError::Malformed);
        },
    };
    if len < 0 {
        return Err(DecodeError::Malformed);
    }
    let n: usize = len as usize;
    if pos > bytes.len() || bytes.len() - pos < n {
        return Err(DecodeError::UnexpectedEnd);
    }
    let end: usize = pos + n;
    let mut data: Vec<u8> = Vec::new();
    let mut k: usize = pos;
    while k < end
        invariant
            end == pos + n,
            end <= bytes@.len(),
            pos <= k <= end,
            data@ == bytes@.subrange(pos as int, k as int),
        decreases end - k,
    {
        data.push(bytes[k]);
        assert(bytes@.subrange(pos as int, k + 1) =~= bytes@.subrange(pos as int, k as int).push(
            bytes@[k as int],
        ));
        k = k + 1;
    }
    *index = end;
    Ok(data)
}

/// Reads a length-prefixed UTF-8 string at `*index`, moving past it.
pub fn decode_string(bytes: &Vec<u8>, index: &mut usize) -> (r: Result<String, DecodeError>)
    ensures
        match prefixed_read_spec(bytes@, *old(index) as int) {
            PrefixedRead::Done(b, n) => {
                &&& valid_utf8(b) ==> (r matches Ok(s) && s@ == decode_utf8(b) && *final(index)
                    == *old(index) + n)
                &&& !valid_utf8(b) ==> r == Err::<String, DecodeError>(DecodeError::Malformed)
            },
            PrefixedRead::End => r == Err::<String, DecodeError>(DecodeError::UnexpectedEnd),
            PrefixedRead::Malformed => r == Err::<String, DecodeError>(DecodeError::Malformed),
        },
{
    let b = decode_prefixed(bytes, index)?;
    match string_from_utf8(b) {
        Some(s) => Ok(s),
        None => Err(DecodeError::Malformed),
    }
}

/// Relies on `String::from_utf8`: it succeeds exactly on valid UTF-8 and
/// then holds the characters those bytes encode.
#[verifier::external_body]
fn string_from_utf8(b: Vec<u8>) -> (r: Option<String>)
    ensures
        r is Some <==> valid_utf8(b@),
        r matches Some(s) ==> s@ == decode_utf8(b@),
{
    String::from_utf8(b).ok()
}

} // verus!
