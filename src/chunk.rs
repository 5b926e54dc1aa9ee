//! The chunk packet and the composite types it carries: an embedded binary
//! document, bit-sets and light arrays.
use vstd::prelude::*;
use crate::codec::{EncodeError, EncodePacket, PacketId, append_vec, encode_length_padded, length_padded};
use crate::primitives::{be_bytes_u32, be_bytes_u64, encode_i32, encode_u64};
use crate::varint::{encode_var_int, var_int_spec};

verus! {

/// Why an embedded document could not be written.
#[derive(Debug, Clone, Copy, PartialEq, Eq, Structural)]
pub enum NbtEncodeError {
    Io,
    Infallible,
}

/// An embedded tree-structured document, held in its own serialized form.
/// It is written verbatim, with no length prefix: it must stand last or
/// delimit itself.
#[derive(Debug, Clone)]
pub struct Nbt {
    pub bytes: Vec<u8>,
}

impl Nbt {
    pub fn from_bytes(bytes: Vec<u8>) -> (r: Self)
        ensures
            r.bytes@ == bytes@,
    {
        Nbt { bytes }
    }

    /// Appends the document's bytes verbatim.
    pub fn encode(&self, bytes: &mut Vec<u8>) -> (r: Result<(), NbtEncodeError>)
        ensures
            r is Ok,
            final(bytes)@ == old(bytes)@ + self.bytes@,
    {
        append_vec(&self.bytes, bytes);
        Ok(())
    }
}

/// A bit vector in 64-bit words; bit `i` is bit `i % 64` of word `i / 64`.
#[derive(Debug, Clone)]
pub struct BitSet {
    pub words: Vec<u64>,
}

/// The words one after another, eight big-endian bytes each.
pub open spec fn words_bytes(ws: Seq<u64>) -> Seq<u8>
    decreases ws.len(),
{
    if ws.len() == 0 {
        Seq::empty()
    } else {
        words_bytes(ws.drop_last()) + be_bytes_u64(ws.last())
    }
}

impl BitSet {
    pub fn new() -> (r: Self)
        ensures
            r.words@.len() == 0,
    {
        BitSet { words: Vec::new() }
    }

    /// Whether bit `i` is set; bits past the last word are clear.
    pub fn get(&self, i: usize) -> (r: bool)
        ensures
            i / 64 < self.words@.len() ==> r == ((self.words@[(i / 64) as int] >> ((i % 64) as u64)) & 1u64
                == 1u64),
            i / 64 >= self.words@.len() ==> !r,
    {
        let w = i / 64;
        if w < self.words.len() {
            (self.words[w] >> ((i % 64) as u64)) & 1u64 == 1u64
        } else {
            false
        }
    }
}

impl EncodePacket for BitSet {
    open spec fn encoded(&self) -> Option<Seq<u8>> {
        if self.words@.len() <= i32::MAX {
            Some(var_int_spec(self.words@.len()) + words_bytes(self.words@))
        } else {
            None
        }
    }

    fn encode(&self) -> (r: Result<Vec<u8>, EncodeError>) {
        if self.words.len() > i32::MAX as usize {
            return Err(EncodeError::TooLong);
        }
        let mut bytes: Vec<u8> = Vec::new();
        encode_var_int(self.words.len() as i32, &mut bytes);
        assert(self.words.len() as i32 as u32 as nat == self.words@.len());
        let ghost head = bytes@;
        let mut k: usize = 0;
        while k < self.words.len()
            invariant
                k <= self.words@.len(),
                bytes@ == head + words_bytes(self.words@.subrange(0, k as int)),
            decreases self.words@.len() - k,
        {
            encode_u64(self.words[k], &mut bytes);
            assert(self.words@.subrange(0, k + 1).drop_last() =~= self.words@.subrange(0, k as int));
            assert(bytes@ =~= head + words_bytes(self.words@.subrange(0, k + 1)));
            k = k + 1;
        }
        assert(self.words@.subrange(0, k as int) =~= self.words@);
        Ok(bytes)
    }
}

/// A block entity of a chunk; it carries nothing on the wire yet.
#[derive(Debug, Clone)]
pub struct BlockEntity {}

impl EncodePacket for BlockEntity {
    open spec fn encoded(&self) -> Option<Seq<u8>> {
        Some(Seq::empty())
    }

    fn encode(&self) -> (r: Result<Vec<u8>, EncodeError>) {
        Ok(Vec::new())
    }
}

/// One light array: half a byte per light value.
#[derive(Debug, Clone)]
pub struct Light {
    pub block_light_array: Vec<i8>,
}

/// Signed bytes as they go on the wire.
pub open spec fn signed_bytes(vs: Seq<i8>) -> Seq<u8> {
    Seq::new(vs.len(), |k: int| vs[k] as u8)
}

impl EncodePacket for Light {
    open spec fn encoded(&self) -> Option<Seq<u8>> {
        if self.block_light_array@.len() <= i32::MAX {
            Some(
                var_int_spec(self.block_light_array@.len()) + signed_bytes(
                    self.block_light_array@,
                ),
            )
        } else {
            None
        }
    }

    fn encode(&self) -> (r: Result<Vec<u8>, EncodeError>) {
        if self.block_light_array.len() > i32::MAX as usize {
            return Err(EncodeError::TooLong);
        }
        let mut bytes: Vec<u8> = Vec::new();
        encode_var_int(self.block_light_array.len() as i32, &mut bytes);
        assert(self.block_light_array.len() as i32 as u32 as nat
            == self.block_light_array@.len());
        let ghost head = bytes@;
        let mut k: usize = 0;
        while k < self.block_light_array.len()
            invariant
                k <= self.block_light_array@.len(),
                bytes@ == head + signed_bytes(self.block_light_array@.subrange(0, k as int)),
            decreases self.block_light_array@.len() - k,
        {
            bytes.push(self.block_light_array[k] as u8);
            assert(bytes@ =~= head + signed_bytes(self.block_light_array@.subrange(0, k + 1)));
            k = k + 1;
        }
        assert(self.block_light_array@.subrange(0, k as int) =~= self.block_light_array@);
        Ok(bytes)
    }
}

/// A chunk column with its light data.
#[derive(Debug, Clone)]
pub struct ChunkDataAndUpdateLightPacket {
    pub chunk_x: i32,
    pub chunk_z: i32,
    pub height_maps: Nbt,
    /// Size of `data` in bytes.
    pub size: i32,
    /// The encoded chunk sections.
    pub data: Vec<u8>,
    pub block_entities: Vec<BlockEntity>,
    pub sky_light_mask: BitSet,
    pub block_light_mask: BitSet,
    pub empty_sky_light_mask: BitSet,
    pub empty_block_light_mask: BitSet,
    pub sky_light_arrays: Vec<Light>,
    pub block_light_arrays: Vec<Light>,
}

/// Concatenates encodings that may be missing.
pub open spec fn join(a: Option<Seq<u8>>, b: Option<Seq<u8>>) -> Option<Seq<u8>> {
    match (a, b) {
        (Some(x), Some(y)) => Some(x + y),
        _ => None,
    }
}

impl ChunkDataAndUpdateLightPacket {
    /// A chunk at (`chunk_x`, `chunk_z`) with the given height maps and
    /// encoded sections, no block entities and no light data.
    pub fn new(chunk_x: i32, chunk_z: i32, height_maps: Nbt, data: Vec<u8>) -> (r: Self)
        requires
            data@.len() <= i32::MAX,
        ensures
            r.chunk_x == chunk_x,
            r.chunk_z == chunk_z,
            r.height_maps.bytes@ == height_maps.bytes@,
            r.size == data@.len(),
            r.data@ == data@,
            r.block_entities@.len() == 0,
            r.sky_light_mask.words@.len() == 0,
            r.block_light_mask.words@.len() == 0,
            r.empty_sky_light_mask.words@.len() == 0,
            r.empty_block_light_mask.words@.len() == 0,
            r.sky_light_arrays@.len() == 0,
            r.block_light_arrays@.len() == 0,
    {
        let size = data.len() as i32;
        ChunkDataAndUpdateLightPacket {
            chunk_x,
            chunk_z,
            height_maps,
            size,
            data,
            block_entities: Vec::new(),
            sky_light_mask: BitSet::new(),
            block_light_mask: BitSet::new(),
            empty_sky_light_mask: BitSet::new(),
            empty_block_light_mask: BitSet::new(),
            sky_light_arrays: Vec::new(),
            block_light_arrays: Vec::new(),
        }
    }
}

impl EncodePacket for ChunkDataAndUpdateLightPacket {
    /// Each field in declaration order; the sections are written as they
    /// are, after `size`.
    open spec fn encoded(&self) -> Option<Seq<u8>> {
        let head = be_bytes_u32(self.chunk_x as u32) + be_bytes_u32(self.chunk_z as u32)
            + self.height_maps.bytes@ + var_int_spec(self.size as u32 as nat) + self.data@;
        join(
            join(
                join(
                    join(
                        join(
                            join(Some(head), length_padded(self.block_entities@)),
                            self.sky_light_mask.encoded(),
                        ),
                        self.block_light_mask.encoded(),
                    ),
                    join(self.empty_sky_light_mask.encoded(), self.empty_block_light_mask.encoded()),
                ),
                length_padded(self.sky_light_arrays@),
            ),
            length_padded(self.block_light_arrays@),
        )
    }

    fn encode(&self) -> (r: Result<Vec<u8>, EncodeError>) {
        let mut bytes: Vec<u8> = Vec::new();
        encode_i32(self.chunk_x, &mut bytes);
        encode_i32(self.chunk_z, &mut bytes);
        let _ = self.height_maps.encode(&mut bytes);
        encode_var_int(self.size, &mut bytes);
        append_vec(&self.data, &mut bytes);
        let ghost head = bytes@;
        assert(head =~= be_bytes_u32(self.chunk_x as u32) + be_bytes_u32(self.chunk_z as u32)
            + self.height_maps.bytes@ + var_int_spec(self.size as u32 as nat) + self.data@);
        encode_length_padded(&self.block_entities, &mut bytes)?;
        let m1 = self.sky_light_mask.encode()?;
        append_vec(&m1, &mut bytes);
        let m2 = self.block_light_mask.encode()?;
        append_vec(&m2, &mut bytes);
        let m3 = self.empty_sky_light_mask.encode()?;
        let m4 = self.empty_block_light_mask.encode()?;
        append_vec(&m3, &mut bytes);
        append_vec(&m4, &mut bytes);
        encode_length_padded(&self.sky_light_arrays, &mut bytes)?;
        encode_length_padded(&self.block_light_arrays, &mut bytes)?;
        assert(bytes@ =~= self.encoded()->Some_0);
        Ok(bytes)
    }
}

impl PacketId for ChunkDataAndUpdateLightPacket {
    open spec fn packet_name(&self) -> Seq<char> {
        "play/clientbound/minecraft:level_chunk_with_light"@
    }

    fn get_packet_name(&self) -> (r: String) {
        "play/clientbound/minecraft:level_chunk_with_light".to_owned()
    }
}

} // verus!
