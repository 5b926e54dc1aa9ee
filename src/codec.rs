//! The capabilities of wire types: encoding into bytes, decoding from bytes,
//! and the symbolic name a packet is registered under.
use vstd::prelude::*;
use crate::primitives::DecodeError;
use crate::varint::{encode_var_int, var_int_spec};

verus! {

/// Why a value could not be encoded.
#[derive(Debug, Clone, Copy, PartialEq, Eq, Structural)]
pub enum EncodeError {
    /// A length does not fit the wire's length prefix.
    TooLong,
}

/// A value that encodes itself as a packet payload.
pub trait EncodePacket: Sized {
    /// The payload bytes, or nothing when the value cannot be represented.
    spec fn encoded(&self) -> Option<Seq<u8>>;

    fn encode(&self) -> (r: Result<Vec<u8>, EncodeError>)
        ensures
            match self.encoded() {
                Some(b) => r matches Ok(v) && v@ == b,
                None => r is Err,
            },
    ;
}

/// A packet payload that can be read from bytes.
pub trait DecodePacket: Sized + View {
    /// Whether the bytes hold a valid encoding.
    spec fn decodable(bytes: Seq<u8>) -> bool;

    /// The value that valid bytes encode, as seen through its view.
    spec fn decoded(bytes: Seq<u8>) -> Self::V;

    fn decode(bytes: &Vec<u8>) -> (r: Result<Self, DecodeError>)
        ensures
            r is Ok <==> Self::decodable(bytes@),
            r matches Ok(v) ==> v@ == Self::decoded(bytes@),
    ;
}

/// A packet registered under a symbolic name of the form
/// `<state>/<direction>/<namespace>:<name>`.
pub trait PacketId {
    spec fn packet_name(&self) -> Seq<char>;

    fn get_packet_name(&self) -> (r: String)
        ensures
            r@ == self.packet_name(),
    ;
}

/// The encodings of the items one after another, or nothing when one of
/// them cannot be encoded.
pub open spec fn concat_encoded<T: EncodePacket>(xs: Seq<T>) -> Option<Seq<u8>>
    decreases xs.len(),
{
    if xs.len() == 0 {
        Some(Seq::empty())
    } else {
        match (concat_encoded(xs.drop_last()), xs.last().encoded()) {
            (Some(a), Some(b)) => Some(a + b),
            _ => None,
        }
    }
}

/// A sequence: its item count as a variable-length integer, then each item.
pub open spec fn length_padded<T: EncodePacket>(xs: Seq<T>) -> Option<Seq<u8>> {
    if xs.len() > i32::MAX {
        None
    } else {
        match concat_encoded(xs) {
            Some(b) => Some(var_int_spec(xs.len()) + b),
            None => None,
        }
    }
}

proof fn lemma_concat_none_extends<T: EncodePacket>(xs: Seq<T>, k: int)
    requires
        0 <= k <= xs.len(),
        concat_encoded(xs.subrange(0, k)) is None,
    ensures
        concat_encoded(xs) is None,
    decreases xs.len(),
{
    if k == xs.len() {
        assert(xs.subrange(0, k) =~= xs);
    } else {
        assert(xs.drop_last().subrange(0, k) =~= xs.subrange(0, k));
        lemma_concat_none_extends(xs.drop_last(), k);
    }
}

/// Appends the encodings of the items, in order.
pub fn encode_all<T: EncodePacket>(xs: &Vec<T>, bytes: &mut Vec<u8>) -> (r: Result<(), EncodeError>)
    ensures
        r is Ok <==> concat_encoded(xs@) is Some,
        r is Ok ==> final(bytes)@ == old(bytes)@ + concat_encoded(xs@)->Some_0,
{
    let ghost start = bytes@;
    let mut k: usize = 0;
    while k < xs.len()
        invariant
            k <= xs@.len(),
            concat_encoded(xs@.subrange(0, k as int)) is Some,
            bytes@ == start + concat_encoded(xs@.subrange(0, k as int))->Some_0,
        decreases xs@.len() - k,
    {
        let ghost pre = xs@.subrange(0, k as int);
        let ghost next = xs@.subrange(0, k + 1);
        assert(next.drop_last() =~= pre);
        match xs[k].encode() {
            Ok(b) => {
                append_vec(&b, bytes);
                assert(bytes@ =~= start + concat_encoded(next)->Some_0);
            },
            Err(e) => {
                proof {
                    lemma_concat_none_extends(xs@, k + 1);
                }
                return Err(e);
            },
        }
        k = k + 1;
    }
    assert(xs@.subrange(0, k as int) =~= xs@);
    Ok(())
}

/// Appends the item count and then the items.
pub fn encode_length_padded<T: EncodePacket>(xs: &Vec<T>, bytes: &mut Vec<u8>) -> (r: Result<
    (),
    EncodeError,
>)
    ensures
        r is Ok <==> length_padded(xs@) is Some,
        r is Ok ==> final(bytes)@ == old(bytes)@ + length_padded(xs@)->Some_0,
{
    if xs.len() > i32::MAX as usize {
        return Err(EncodeError::TooLong);
    }
    let ghost start = bytes@;
    encode_var_int(xs.len() as i32, bytes);
    assert(xs.len() as i32 as u32 as nat == xs@.len());
    let r = encode_all(xs, bytes);
    proof {
        if r is Ok {
            assert(bytes@ =~= start + length_padded(xs@)->Some_0);
        }
    }
    r
}

/// Appends the bytes of `b`.
pub fn append_vec(b: &Vec<u8>, bytes: &mut Vec<u8>)
    ensures
        final(bytes)@ == old(bytes)@ + b@,
{
    crate::primitives::append_bytes(b.as_slice(), bytes);
}

} // verus!
