//! The records that cross to the shader program: the constants pushed with
//! every draw call and the per-instance record of the quad kind, with their
//! layouts as 32-bit words and as bytes.

use vstd::prelude::*;
use crate::scalar::{Scalar, Vec2, Vec4};

verus! {

/// Words in the pushed constants.
pub const CONSTANTS_WORDS: usize = 8;

/// Bytes in the pushed constants.
pub const CONSTANTS_BYTES: u32 = 32;

/// Words in one quad instance: nine that carry data and three that pad the
/// record to a multiple of sixteen bytes, the alignment of its colour.
pub const INSTANCE_WORDS: usize = 12;

/// Bytes in one quad instance.
pub const INSTANCE_BYTES: u64 = 48;

/// Vertices drawn for each instance: two triangles, expanded by the vertex
/// stage from the instance record alone.
pub const VERTICES_PER_INSTANCE: u32 = 6;

/// What every draw call is given besides its instances.
#[derive(Clone, Copy, Debug, PartialEq, Eq, Structural)]
pub struct ShaderConstants {
    /// Width and height of the surface in pixels.
    pub surface_size: Vec2,
    /// Width and height of the sprite and glyph atlas.
    pub atlas_size: Vec2,
    /// Reserved.
    pub clip: Vec4,
}

/// One rectangle as the quad pipeline reads it.
#[derive(Clone, Copy, Debug, PartialEq, Eq, Structural)]
pub struct InstancedQuad {
    pub top_left: Vec2,
    pub size: Vec2,
    pub color: Vec4,
    pub blur: Scalar,
}

impl ShaderConstants {
    /// The constants as words, in field order.
    pub open spec fn words(self) -> Seq<u32> {
        seq![
            self.surface_size.x.bits,
            self.surface_size.y.bits,
            self.atlas_size.x.bits,
            self.atlas_size.y.bits,
            self.clip.x.bits,
            self.clip.y.bits,
            self.clip.z.bits,
            self.clip.w.bits,
        ]
    }

    /// The constants as words, in field order.
    pub fn to_words(&self) -> (words: Vec<u32>)
        ensures
            words@ == self.words(),
            words@.len() == CONSTANTS_WORDS,
    {
        let mut words: Vec<u32> = Vec::with_capacity(CONSTANTS_WORDS);
        words.push(self.surface_size.x.bits);
        words.push(self.surface_size.y.bits);
        words.push(self.atlas_size.x.bits);
        words.push(self.atlas_size.y.bits);
        words.push(self.clip.x.bits);
        words.push(self.clip.y.bits);
        words.push(self.clip.z.bits);
        words.push(self.clip.w.bits);
        assert(words@ =~= self.words());
        words
    }

    /// The constants as the bytes to push: four bytes for each word of
    /// [`ShaderConstants::words`], in the machine's byte order.
    pub fn to_bytes(&self) -> (bytes: Vec<u8>)
        ensures
            bytes@.len() == CONSTANTS_BYTES,
            bytes@ == bytes_le(self.words()) || bytes@ == bytes_be(self.words()),
    {
        let words = self.to_words();
        words_to_bytes(&words)
    }
}

impl InstancedQuad {
    /// The record as words: corner, extent, colour, blur, padding.
    pub open spec fn words(self) -> Seq<u32> {
        seq![
            self.top_left.x.bits,
            self.top_left.y.bits,
            self.size.x.bits,
            self.size.y.bits,
            self.color.x.bits,
            self.color.y.bits,
            self.color.z.bits,
            self.color.w.bits,
            self.blur.bits,
            0u32,
            0u32,
            0u32,
        ]
    }

    /// Appends the record's words to `out`.
    pub fn write_words(&self, out: &mut Vec<u32>)
        ensures
            final(out)@ == old(out)@ + self.words(),
    {
        out.push(self.top_left.x.bits);
        out.push(self.top_left.y.bits);
        out.push(self.size.x.bits);
        out.push(self.size.y.bits);
        out.push(self.color.x.bits);
        out.push(self.color.y.bits);
        out.push(self.color.z.bits);
        out.push(self.color.w.bits);
        out.push(self.blur.bits);
        out.push(0);
        out.push(0);
        out.push(0);
        assert(out@ =~= old(out)@ + self.words());
    }
}

/// The words of a list of instances: those of each record, one after another.
pub open spec fn packed(instances: Seq<InstancedQuad>) -> Seq<u32>
    decreases instances.len(),
{
    if instances.len() == 0 {
        Seq::empty()
    } else {
        packed(instances.drop_last()) + instances.last().words()
    }
}

/// A packed list holds twelve words for each instance.
pub proof fn lemma_packed_len(instances: Seq<InstancedQuad>)
    ensures
        packed(instances).len() == INSTANCE_WORDS * instances.len(),
    decreases instances.len(),
{
    if instances.len() > 0 {
        lemma_packed_len(instances.drop_last());
    }
}

/// In a packed list, instance `i` occupies the twelve words from `12 * i`.
pub proof fn lemma_packed_index(instances: Seq<InstancedQuad>, i: int, j: int)
    requires
        0 <= i < instances.len(),
        0 <= j < INSTANCE_WORDS,
    ensures
        INSTANCE_WORDS * i + j < packed(instances).len(),
        packed(instances)[INSTANCE_WORDS * i + j] == instances[i].words()[j],
    decreases instances.len(),
{
    lemma_packed_len(instances);
    lemma_packed_len(instances.drop_last());
    if i < instances.len() - 1 {
        lemma_packed_index(instances.drop_last(), i, j);
    }
}

/// The words of a list of instances.
pub fn pack_instances(instances: &Vec<InstancedQuad>) -> (words: Vec<u32>)
    ensures
        words@ == packed(instances@),
        words@.len() == INSTANCE_WORDS * instances@.len(),
{
    let mut words: Vec<u32> = Vec::new();
    let n = instances.len();
    let mut i: usize = 0;
    while i < n
        invariant
            i <= n,
            n == instances@.len(),
            words@ == packed(instances@.take(i as int)),
        decreases n - i,
    {
        let record = instances[i];
        record.write_words(&mut words);
        proof {
            let next = instances@.take(i + 1);
            assert(next.drop_last() =~= instances@.take(i as int));
            assert(next.last() == instances@[i as int]);
        }
        i = i + 1;
    }
    proof {
        assert(instances@.take(n as int) =~= instances@);
        lemma_packed_len(instances@);
    }
    words
}

/// The weight of byte `k` of a word: 256 to the power `k`.
pub open spec fn byte_weight(k: int) -> int {
    if k == 0 {
        1
    } else if k == 1 {
        0x100
    } else if k == 2 {
        0x1_0000
    } else {
        0x100_0000
    }
}

/// Byte `k` of a word, counted from the least significant.
pub open spec fn word_byte(word: u32, k: int) -> u8 {
    ((word as int / byte_weight(k)) % 0x100) as u8
}

/// Words as bytes, the least significant byte of each word first.
pub open spec fn bytes_le(words: Seq<u32>) -> Seq<u8> {
    Seq::new(4 * words.len(), |i: int| word_byte(words[i / 4], i % 4))
}

/// Words as bytes, the most significant byte of each word first.
pub open spec fn bytes_be(words: Seq<u32>) -> Seq<u8> {
    Seq::new(4 * words.len(), |i: int| word_byte(words[i / 4], 3 - i % 4))
}

/// `bytemuck::cast_slice`, from 32-bit words to bytes, copied into a vector.
/// The cast hands back the same memory seen as bytes, so there are four for
/// each word, in the byte order of the machine: little-endian or big-endian.
/// From words to bytes it cannot fail: a byte needs no alignment and any
/// number of bytes makes a whole number of them.
#[verifier::external_body]
pub(crate) fn words_to_bytes(words: &Vec<u32>) -> (bytes: Vec<u8>)
    ensures
        bytes@.len() == 4 * words@.len(),
        bytes@ == bytes_le(words@) || bytes@ == bytes_be(words@),
{
    bytemuck::cast_slice::<u32, u8>(words.as_slice()).to_vec()
}

} // verus!
