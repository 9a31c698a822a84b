//! The view as the shader receives it: sixteen bytes, four for each
//! coordinate.

use crate::viewport::ViewRectangle;
use vstd::prelude::*;

verus! {

/// How many bytes the uniform buffer holds.
pub const UNIFORM_SIZE: usize = 16;

/// The byte of `word` at `place`, counted from the least significant byte,
/// which is at place 0.
pub open spec fn byte_at(word: u32, place: int) -> u8 {
    if place == 0 {
        (word % 0x100) as u8
    } else if place == 1 {
        (word / 0x100 % 0x100) as u8
    } else if place == 2 {
        (word / 0x1_0000 % 0x100) as u8
    } else {
        (word / 0x100_0000) as u8
    }
}

/// The bytes of `words` in turn, each word with its least significant byte
/// first.
pub open spec fn little_endian(words: Seq<u32>) -> Seq<u8> {
    Seq::new(4 * words.len(), |i: int| byte_at(words[i / 4], i % 4))
}

/// The bytes of `words` in turn, each word with its most significant byte
/// first.
pub open spec fn big_endian(words: Seq<u32>) -> Seq<u8> {
    Seq::new(4 * words.len(), |i: int| byte_at(words[i / 4], 3 - i % 4))
}

/// Whether `bytes` is how some machine holds `words` in memory: one byte
/// order for all the words, either of the two.
pub open spec fn in_memory(words: Seq<u32>, bytes: Seq<u8>) -> bool {
    bytes == little_endian(words) || bytes == big_endian(words)
}

/// Reads four words as the bytes that hold them in memory, by
/// `bytemuck::cast_slice` from `u32` to `u8`. Nothing here is proved: the
/// contract claims that the cast gives the sixteen bytes of the words in the
/// order of the words, each word in the machine's byte order. A cast to
/// bytes cannot fail for want of alignment or of a whole number of elements,
/// so the call does not panic.
#[verifier::external_body]
fn words_as_bytes(words: &[u32; 4]) -> (bytes: Vec<u8>)
    ensures
        in_memory(words@, bytes@),
{
    bytemuck::cast_slice::<u32, u8>(words).to_vec()
}

impl ViewRectangle {
    /// Returns the contents of the uniform buffer for this view: the
    /// coordinates `min.x`, `min.y`, `max.x`, `max.y`, four bytes each, as
    /// the machine holds them in memory.
    pub fn payload_bytes(&self) -> (bytes: Vec<u8>)
        ensures
            in_memory(self.layout(), bytes@),
            bytes@.len() == UNIFORM_SIZE,
    {
        let words = self.uniform_payload();
        words_as_bytes(&words)
    }
}

/// Returns what the uniform buffer holds before the first frame: sixteen
/// zero bytes, which is four times the number zero.
pub fn initial_payload() -> (bytes: Vec<u8>)
    ensures
        bytes@ == Seq::new(UNIFORM_SIZE as nat, |i: int| 0u8),
{
    let words: [u32; 4] = [0, 0, 0, 0];
    let bytes = words_as_bytes(&words);
    assert(bytes@ =~= Seq::new(UNIFORM_SIZE as nat, |i: int| 0u8));
    bytes
}

} // verus!
