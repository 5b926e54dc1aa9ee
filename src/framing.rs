//! Length-delimited frames: `VarInt(1 + payload length)`, one id byte, then
//! the payload.
use vstd::prelude::*;
use crate::codec::{EncodeError, EncodePacket};
use crate::varint::{
    VarIntError, VarIntRead, decode_var_int, encode_var_int, lemma_var_int_round_trip,
    lemma_var_int_u32_len, var_int_decode_spec, var_int_spec,
};

verus! {

/// A packet as it travels: its numeric id and its encoded payload.
#[derive(Clone, Debug)]
pub struct RawPacket {
    pub id: u8,
    pub data: Vec<u8>,
}

impl RawPacket {
    pub fn new(id: u8, data: Vec<u8>) -> (r: Self)
        ensures
            r.id == id,
            r.data@ == data@,
    {
        RawPacket { id, data }
    }

    /// Encodes `packet` as the payload of a packet with id `id`; fails
    /// exactly when the value's own encoding fails.
    pub fn from_packet<P: EncodePacket>(id: u8, packet: &P) -> (r: Result<Self, EncodeError>)
        ensures
            match packet.encoded() {
                Some(b) => r matches Ok(p) && p.id == id && p.data@ == b,
                None => r is Err,
            },
    {
        match packet.encode() {
            Ok(data) => Ok(RawPacket { id, data }),
            Err(e) => Err(e),
        }
    }

    pub fn packet_id(&self) -> (r: u8)
        ensures
            r == self.id,
    {
        self.id
    }

    pub fn data(&self) -> (r: &Vec<u8>)
        ensures
            r@ == self.data@,
    {
        &self.data
    }
}

/// Why a frame could not be read.
#[derive(Debug, Clone, Copy, PartialEq, Eq, Structural)]
pub enum PacketStreamError {
    /// The input ended before the frame was complete.
    UnexpectedEnd,
    /// The length prefix is over-long or declares no id byte.
    Malformed,
}

/// The bytes of the frame for a packet.
pub open spec fn frame_spec(id: u8, payload: Seq<u8>) -> Seq<u8> {
    var_int_spec((payload.len() + 1) as nat) + seq![id] + payload
}

/// Outcome of reading a frame.
pub enum FrameRead {
    /// Id, payload and the number of bytes the frame took.
    Done(u8, Seq<u8>, nat),
    End,
    Malformed,
}

/// How a frame is read from `s` at `i`.
pub open spec fn frame_read_spec(s: Seq<u8>, i: int) -> FrameRead {
    match var_int_decode_spec(s, i) {
        VarIntRead::TooLong => FrameRead::Malformed,
        VarIntRead::End => FrameRead::End,
        VarIntRead::Done(v, n) => {
            let len = (v as u32 as i32) as int;
            if len <= 0 {
                FrameRead::Malformed
            } else if i + n + len > s.len() {
                FrameRead::End
            } else {
                FrameRead::Done(s[i + n], s.subrange(i + n + 1, i + n + len), (n + len) as nat)
            }
        },
    }
}

/// Serializes a packet as one frame.
pub fn write_packet(packet: &RawPacket) -> (r: Vec<u8>)
    requires
        packet.data@.len() + 1 <= i32::MAX,
    ensures
        r@ == frame_spec(packet.id, packet.data@),
{
    let mut out: Vec<u8> = Vec::new();
    let len: i32 = (packet.data.len() + 1) as i32;
    encode_var_int(len, &mut out);
    assert(len as u32 as nat == (packet.data@.len() + 1) as nat);
    out.push(packet.id);
    let mut k: usize = 0;
    let ghost head = out@;
    while k < packet.data.len()
        invariant
            k <= packet.data@.len(),
            out@ == head + packet.data@.subrange(0, k as int),
        decreases packet.data@.len() - k,
    {
        out.push(packet.data[k]);
        assert(packet.data@.subrange(0, k + 1) =~= packet.data@.subrange(0, k as int).push(
            packet.data@[k as int],
        ));
        k = k + 1;
    }
    assert(packet.data@.subrange(0, k as int) =~= packet.data@);
    out
}

/// Reads one frame at `*index` and moves `*index` past it.
pub fn read_packet(bytes: &Vec<u8>, index: &mut usize) -> (r: Result<RawPacket, PacketStreamError>)
    ensures
        match frame_read_spec(bytes@, *old(index) as int) {
            FrameRead::Done(id, payload, n) => {
                &&& r matches Ok(p)
                &&& p.id == id
                &&& p.data@ == payload
                &&& *final(index) == *old(index) + n
            },
            FrameRead::End => r == Err::<RawPacket, PacketStreamError>(
                PacketStreamError::UnexpectedEnd,
            ),
            FrameRead::Malformed => r == Err::<RawPacket, PacketStreamError>(
                PacketStreamError::Malformed,
            ),
        },
{
    let start: usize = *index;
    let mut pos: usize = start;
    let len: i32 = match decode_var_int(bytes, &mut pos) {
        Ok(v) => v,
        Err(VarIntError::UnexpectedEnd) => {
            return Err(PacketStreamError::UnexpectedEnd);
        },
        Err(VarIntError::TooLong) => {
            return Err(PacketStreamError::Malformed);
        },
    };
    if len <= 0 {
        return Err(PacketStreamError::Malformed);
    }
    let n: usize = len as usize;
    if pos > bytes.len() || bytes.len() - pos < n {
        return Err(PacketStreamError::UnexpectedEnd);
    }
    let id: u8 = bytes[pos];
    let mut data: Vec<u8> = Vec::new();
    let end: usize = pos + n;
    let mut k: usize = pos + 1;
    while k < end
        invariant
            end == pos + n,
            pos + n <= bytes@.len(),
            pos + 1 <= k <= pos + n,
            data@ == bytes@.subrange(pos + 1, k as int),
        decreases end - k,
    {
        data.push(bytes[k]);
        assert(bytes@.subrange(pos + 1, k + 1) =~= bytes@.subrange(pos + 1, k as int).push(
            bytes@[k as int],
        ));
        k = k + 1;
    }
    *index = end;
    Ok(RawPacket { id, data })
}

/// A frame written for a packet is read back, from any buffer that holds
/// it at `i`, as the same id and payload, taking exactly the frame's bytes.
pub proof fn lemma_frame_round_trip(id: u8, payload: Seq<u8>, s: Seq<u8>, i: int)
    requires
        payload.len() + 1 <= i32::MAX,
        0 <= i,
        i + frame_spec(id, payload).len() <= s.len(),
        s.subrange(i, i + frame_spec(id, payload).len()) == frame_spec(id, payload),
    ensures
        frame_read_spec(s, i) == FrameRead::Done(id, payload, frame_spec(id, payload).len()),
{
    let len = (payload.len() + 1) as i32;
    let e = var_int_spec(len as u32 as nat);
    let f = frame_spec(id, payload);
    assert(len as u32 as nat == (payload.len() + 1) as nat);
    lemma_var_int_u32_len(len as u32);
    assert(s.subrange(i, i + e.len()) =~= e) by {
        assert forall|j: int| 0 <= j < e.len() implies s.subrange(i, i + e.len())[j] == e[j] by {
            assert(s.subrange(i, i + f.len())[j] == f[j]);
        }
    }
    lemma_var_int_round_trip(len, s, i);
    let n = e.len() as int;
    assert(s[i + n] == id) by {
        assert(s.subrange(i, i + f.len())[n] == f[n]);
    }
    assert(s.subrange(i + n + 1, i + n + len) =~= payload) by {
        assert forall|j: int| 0 <= j < payload.len() implies s.subrange(
            i + n + 1,
            i + n + len,
        )[j] == payload[j] by {
            assert(s.subrange(i, i + f.len())[n + 1 + j] == f[n + 1 + j]);
        }
    }
}

} // verus!
