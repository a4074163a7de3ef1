//! The time uniform: the record through which an effect program receives the
//! animation time.
//!
//! The record is four 32-bit words long. The first word is the time in
//! seconds as a 32-bit IEEE 754 number; the other three are padding that
//! brings the record to the 16 bytes that uniform buffers are aligned to, and
//! are always zero.

use vstd::prelude::*;
use vstd::slice::slice_to_vec;

verus! {

/// The size of the time uniform in bytes.
pub const UNIFORM_SIZE: usize = 16;

/// The `k`-th byte of `word`, counted from the least significant one.
pub open spec fn byte_of(word: u32, k: int) -> u8 {
    if k == 0 {
        (word % 0x100) as u8
    } else if k == 1 {
        (word / 0x100 % 0x100) as u8
    } else if k == 2 {
        (word / 0x1_0000 % 0x100) as u8
    } else {
        (word / 0x100_0000 % 0x100) as u8
    }
}

/// The bytes of `words` with the least significant byte of each word first.
pub open spec fn little_endian(words: Seq<u32>) -> Seq<u8> {
    Seq::new(4 * words.len(), |i: int| byte_of(words[i / 4], i % 4))
}

/// The bytes of `words` with the most significant byte of each word first.
pub open spec fn big_endian(words: Seq<u32>) -> Seq<u8> {
    Seq::new(4 * words.len(), |i: int| byte_of(words[i / 4], 3 - i % 4))
}

/// `bytes` are the bytes of `words` as a machine holds them in memory: in
/// little-endian order on some machines, in big-endian order on the others.
pub open spec fn in_memory_order(words: Seq<u32>, bytes: Seq<u8>) -> bool {
    bytes == little_endian(words) || bytes == big_endian(words)
}

/// `bytemuck::cast_slice`, from 32-bit words to bytes. The cast reads the
/// memory of the words as bytes: there are four bytes for each word, in the
/// byte order of the machine. From words to bytes the cast cannot fail.
#[verifier::external_body]
fn words_as_bytes(words: &[u32]) -> (bytes: &[u8])
    ensures
        in_memory_order(words@, bytes@),
{
    bytemuck::cast_slice(words)
}

/// The time uniform of one frame.
#[derive(Clone, Copy, Debug, PartialEq, Eq, Structural)]
pub struct TimeUniform {
    /// The bits of the effective animation time in seconds, a 32-bit IEEE 754
    /// number.
    pub time: u32,
}

impl TimeUniform {
    /// The record as words: the time, then three words of zero padding.
    pub open spec fn words(self) -> Seq<u32> {
        seq![self.time, 0u32, 0u32, 0u32]
    }

    /// The record as the bytes that are written to the uniform buffer.
    ///
    /// The first four bytes hold the time in the byte order of the machine;
    /// the twelve bytes of padding are zero.
    pub fn to_bytes(&self) -> (bytes: Vec<u8>)
        ensures
            bytes@.len() == UNIFORM_SIZE,
            in_memory_order(self.words(), bytes@),
            forall|i: int| 4 <= i < UNIFORM_SIZE ==> bytes@[i] == 0,
    {
        let words: [u32; 4] = [self.time, 0, 0, 0];
        assert(words@ =~= self.words());
        let bytes = words_as_bytes(words.as_slice());
        slice_to_vec(bytes)
    }
}

} // verus!
