//! SPIR-V code as a shader module takes it: the embedded bytes read as
//! 32-bit words.

use vstd::prelude::*;

verus! {

/// The word four bytes spell, first byte lowest.
pub open spec fn little_endian_word(b0: u8, b1: u8, b2: u8, b3: u8) -> int {
    b0 + 256 * b1 + 65536 * b2 + 16777216 * b3
}

/// Whether `w` is the word four bytes spell in one of the two byte orders.
pub open spec fn word_of_bytes(w: u32, b0: u8, b1: u8, b2: u8, b3: u8) -> bool {
    w == little_endian_word(b0, b1, b2, b3) || w == little_endian_word(b3, b2, b1, b0)
}

/// `bytemuck::cast` from four bytes to a `u32`: the bytes reinterpreted as a
/// word. The sizes match, so the cast never fails. Which of the two byte
/// orders spells the word is the machine's: little-endian or big-endian.
#[verifier::external_body]
fn word_from_bytes(bytes: [u8; 4]) -> (r: u32)
    ensures
        word_of_bytes(r, bytes[0], bytes[1], bytes[2], bytes[3]),
{
    bytemuck::cast::<[u8; 4], u32>(bytes)
}

/// The words of a SPIR-V module whose length is a whole number of words: one
/// word per four bytes of `spv`, in order, each read from its four bytes in
/// the machine's byte order.
pub fn spirv_words(spv: &Vec<u8>) -> (r: Vec<u32>)
    requires
        spv@.len() % 4 == 0,
    ensures
        r@.len() * 4 == spv@.len(),
        forall|i: int|
            0 <= i < r@.len() ==> word_of_bytes(
                #[trigger] r@[i],
                spv@[4 * i],
                spv@[4 * i + 1],
                spv@[4 * i + 2],
                spv@[4 * i + 3],
            ),
{
    let len = spv.len();
    let n = len / 4;
    let mut out: Vec<u32> = Vec::new();
    let mut i: usize = 0;
    while i < n
        invariant
            n * 4 == spv@.len(),
            len == spv@.len(),
            i <= n,
            out@.len() == i,
            forall|k: int|
                0 <= k < i ==> word_of_bytes(
                    #[trigger] out@[k],
                    spv@[4 * k],
                    spv@[4 * k + 1],
                    spv@[4 * k + 2],
                    spv@[4 * k + 3],
                ),
        decreases n - i,
    {
        assert(4 * i + 3 < len) by (nonlinear_arith)
            requires
                i < n,
                n * 4 == len,
        ;
        let b = 4 * i;
        let word = word_from_bytes([spv[b], spv[b + 1], spv[b + 2], spv[b + 3]]);
        out.push(word);
        i = i + 1;
    }
    out
}

} // verus!
