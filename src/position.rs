//! Block positions packed into one 64-bit word: X in bits 38-63, Z in bits
//! 12-37 and Y in bits 0-11, each field two's complement.
use vstd::prelude::*;
use crate::primitives::{DecodeError, be_bytes_u64, be_u64_at, decode_u64, encode_u64, lemma_be_u64_round_trip};

verus! {

/// A block coordinate.
#[derive(Debug, Clone, Copy, PartialEq, Eq, Structural)]
pub struct Position {
    pub x: i32,
    pub y: i32,
    pub z: i32,
}

/// The packed word for a coordinate; components outside the field widths
/// keep only their low bits.
pub open spec fn pack_position(x: i32, y: i32, z: i32) -> u64 {
    (((x as u64) & 0x3FFFFFFu64) << 38u64) | (((z as u64) & 0x3FFFFFFu64) << 12u64) | ((y as u64)
        & 0xFFFu64)
}

/// X of a packed word, sign-extended from 26 bits.
pub open spec fn unpack_x(w: u64) -> i32 {
    ((w as i64) >> 38u64) as i32
}

/// Y of a packed word, sign-extended from 12 bits.
pub open spec fn unpack_y(w: u64) -> i32 {
    (((w << 52u64) as i64) >> 52u64) as i32
}

/// Z of a packed word, sign-extended from 26 bits.
pub open spec fn unpack_z(w: u64) -> i32 {
    (((w << 26u64) as i64) >> 38u64) as i32
}

/// X and Z fit in 26 bits, Y in 12 bits.
pub open spec fn position_in_range(x: i32, y: i32, z: i32) -> bool {
    &&& -33554432 <= x <= 33554431
    &&& -33554432 <= z <= 33554431
    &&& -2048 <= y <= 2047
}

impl Position {
    pub fn new(x: i32, y: i32, z: i32) -> (r: Self)
        ensures
            r == (Position { x, y, z }),
    {
        Position { x, y, z }
    }

    /// The packed word of this position.
    pub fn packed(&self) -> (r: u64)
        ensures
            r == pack_position(self.x, self.y, self.z),
    {
        (((self.x as u64) & 0x3FFFFFFu64) << 38u64) | (((self.z as u64) & 0x3FFFFFFu64) << 12u64)
            | ((self.y as u64) & 0xFFFu64)
    }

    /// The position a packed word stands for.
    pub fn from_packed(w: u64) -> (r: Self)
        ensures
            r == (Position { x: unpack_x(w), y: unpack_y(w), z: unpack_z(w) }),
    {
        let x: i32 = ((w as i64) >> 38u64) as i32;
        let y: i32 = (((w << 52u64) as i64) >> 52u64) as i32;
        let z: i32 = (((w << 26u64) as i64) >> 38u64) as i32;
        Position { x, y, z }
    }

    /// Appends the packed word, big-endian.
    pub fn encode(&self, bytes: &mut Vec<u8>)
        ensures
            final(bytes)@ == old(bytes)@ + be_bytes_u64(pack_position(self.x, self.y, self.z)),
    {
        let w = self.packed();
        encode_u64(w, bytes);
    }

    /// Reads a packed word at `*index` and unpacks it.
    pub fn decode(bytes: &Vec<u8>, index: &mut usize) -> (r: Result<Self, DecodeError>)
        ensures
            *old(index) + 8 <= bytes@.len() ==> {
                let w = be_u64_at(bytes@, *old(index) as int);
                &&& r == Ok::<Position, DecodeError>(
                    Position { x: unpack_x(w), y: unpack_y(w), z: unpack_z(w) },
                )
                &&& *final(index) == *old(index) + 8
            },
            *old(index) + 8 > bytes@.len() ==> r == Err::<Position, DecodeError>(
                DecodeError::UnexpectedEnd,
            ) && *final(index) == *old(index),
    {
        match decode_u64(bytes, index) {
            Ok(w) => Ok(Position::from_packed(w)),
            Err(e) => Err(e),
        }
    }
}

/// Unpacking a packed in-range coordinate gives back its components.
pub proof fn lemma_pack_unpack(x: i32, y: i32, z: i32)
    requires
        position_in_range(x, y, z),
    ensures
        unpack_x(pack_position(x, y, z)) == x,
        unpack_y(pack_position(x, y, z)) == y,
        unpack_z(pack_position(x, y, z)) == z,
{
    let w = pack_position(x, y, z);
    assert(unpack_x(w) == x) by (bit_vector)
        requires
            w == pack_position(x, y, z),
            -33554432 <= x <= 33554431,
    ;
    assert(unpack_y(w) == y) by (bit_vector)
        requires
            w == pack_position(x, y, z),
            -2048 <= y <= 2047,
    ;
    assert(unpack_z(w) == z) by (bit_vector)
        requires
            w == pack_position(x, y, z),
            -33554432 <= z <= 33554431,
    ;
}

/// Every in-range coordinate, encoded into a buffer at `i`, decodes there
/// to the same position.
pub proof fn lemma_position_round_trip(p: Position, s: Seq<u8>, i: int)
    requires
        position_in_range(p.x, p.y, p.z),
        0 <= i,
        i + 8 <= s.len(),
        s.subrange(i, i + 8) == be_bytes_u64(pack_position(p.x, p.y, p.z)),
    ensures
        ({
            let w = be_u64_at(s, i);
            Position { x: unpack_x(w), y: unpack_y(w), z: unpack_z(w) } == p
        }),
{
    let w = pack_position(p.x, p.y, p.z);
    assert forall|k: int| 0 <= k < 8 implies s[i + k] == be_bytes_u64(w)[k] by {
        assert(s.subrange(i, i + 8)[k] == s[i + k]);
    }
    lemma_be_u64_round_trip(w);
    lemma_pack_unpack(p.x, p.y, p.z);
}

} // verus!
