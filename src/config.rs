//! The per-frame uniform block and its byte image for the staging upload.

use vstd::prelude::*;

use crate::status::CONFIG_BUFFER_SIZE;

verus! {

/// Byte `k` (0 = least significant) of a 32-bit word.
pub open spec fn word_byte(w: u32, k: int) -> u8 {
    (if k == 0 {
        w % 0x100
    } else if k == 1 {
        (w / 0x100) % 0x100
    } else if k == 2 {
        (w / 0x1_0000) % 0x100
    } else {
        (w / 0x100_0000) % 0x100
    }) as u8
}

/// The words laid out least significant byte first.
pub open spec fn le_bytes(words: Seq<u32>) -> Seq<u8> {
    Seq::new(4 * words.len(), |i: int| word_byte(words[i / 4], i % 4))
}

/// The words laid out most significant byte first.
pub open spec fn be_bytes(words: Seq<u32>) -> Seq<u8> {
    Seq::new(4 * words.len(), |i: int| word_byte(words[i / 4], 3 - i % 4))
}

/// The in-memory image of the words: four bytes each, in the byte order of
/// the machine, which is one of the two.
pub open spec fn is_memory_image(bytes: Seq<u8>, words: Seq<u32>) -> bool {
    bytes == le_bytes(words) || bytes == be_bytes(words)
}

/// Relies on `bytemuck::cast_slice::<u32, u8>`: it reinterprets the words'
/// memory as bytes, which for `u8` targets never fails (`u8` has alignment 1
/// and divides every size), so each word gives its four bytes in native order.
#[verifier::external_body]
fn words_as_bytes(words: &Vec<u32>) -> (r: Vec<u8>)
    ensures
        is_memory_image(r@, words@),
{
    bytemuck::cast_slice::<u32, u8>(words.as_slice()).to_vec()
}

/// The uniform record the kernels read: surface size, frame index, a
/// reserved word and the bits of a 32-bit float time value.
#[derive(Debug, Copy, Clone, PartialEq, Eq, Structural)]
pub struct ConfigBlock {
    pub width: u32,
    pub height: u32,
    pub frame_index: u32,
    pub reserved: u32,
    pub time_bits: u32,
}

impl ConfigBlock {
    /// The record as the sequence of its five words, in field order.
    pub open spec fn words_spec(&self) -> Seq<u32> {
        seq![self.width, self.height, self.frame_index, self.reserved, self.time_bits]
    }

    /// The block of one frame. The reserved word is zero, and so is the time
    /// word: the bits of `0.0`.
    pub fn for_frame(width: u32, height: u32, frame_index: u32) -> (r: ConfigBlock)
        ensures
            r == (ConfigBlock { width, height, frame_index, reserved: 0, time_bits: 0 }),
    {
        ConfigBlock { width, height, frame_index, reserved: 0, time_bits: 0 }
    }

    /// The five words, in field order.
    pub fn words(&self) -> (r: Vec<u32>)
        ensures
            r@ == self.words_spec(),
    {
        let r = vec![self.width, self.height, self.frame_index, self.reserved, self.time_bits];
        assert(r@ =~= self.words_spec());
        r
    }

    /// The bytes uploaded to the staging buffer: the memory image of the
    /// five words, as many bytes as the device-side copy moves.
    pub fn to_bytes(&self) -> (r: Vec<u8>)
        ensures
            is_memory_image(r@, self.words_spec()),
            r@.len() == CONFIG_BUFFER_SIZE,
    {
        let words = self.words();
        words_as_bytes(&words)
    }
}

} // verus!
