//! Little-endian assembly and disassembly of halfwords and words from
//! byte memory, shared by the BIOS and RAM models.

use vstd::prelude::*;

verus! {

/// The 16-bit value stored little-endian as the bytes `b0`, `b1`.
pub open spec fn word16_of(b0: u8, b1: u8) -> u16 {
    (b0 as u16) | ((b1 as u16) << 8)
}

/// The 32-bit value stored little-endian as the bytes `b0` .. `b3`.
pub open spec fn word32_of(b0: u8, b1: u8, b2: u8, b3: u8) -> u32 {
    (b0 as u32) | ((b1 as u32) << 8) | ((b2 as u32) << 16) | ((b3 as u32) << 24)
}

/// `m` with the 16-bit value `v` stored little-endian at offset `o`.
pub open spec fn store16_spec(m: Seq<u8>, o: int, v: u16) -> Seq<u8> {
    m.update(o, v as u8).update(o + 1, (v >> 8) as u8)
}

/// `m` with the 32-bit value `v` stored little-endian at offset `o`.
pub open spec fn store32_spec(m: Seq<u8>, o: int, v: u32) -> Seq<u8> {
    m.update(o, v as u8).update(o + 1, (v >> 8) as u8).update(o + 2, (v >> 16) as u8).update(
        o + 3,
        (v >> 24) as u8,
    )
}

/// The 16-bit value read little-endian from `m` at offset `o`.
pub open spec fn load16_spec(m: Seq<u8>, o: int) -> u16 {
    word16_of(m[o], m[o + 1])
}

/// The 32-bit value read little-endian from `m` at offset `o`.
pub open spec fn load32_spec(m: Seq<u8>, o: int) -> u32 {
    word32_of(m[o], m[o + 1], m[o + 2], m[o + 3])
}

/// Splitting a 16-bit value into its little-endian bytes and reassembling
/// them gives the value back.
pub proof fn lemma_word16_roundtrip(v: u16)
    ensures
        word16_of(v as u8, (v >> 8) as u8) == v,
{
    assert((v as u8) as u16 | (((v >> 8) as u8) as u16) << 8 == v) by (bit_vector);
}

/// Splitting a 32-bit value into its little-endian bytes and reassembling
/// them gives the value back.
pub proof fn lemma_word32_roundtrip(v: u32)
    ensures
        word32_of(v as u8, (v >> 8) as u8, (v >> 16) as u8, (v >> 24) as u8) == v,
{
    assert((v as u8) as u32 | (((v >> 8) as u8) as u32) << 8 | (((v >> 16) as u8) as u32) << 16 | ((
    (v >> 24) as u8) as u32) << 24 == v) by (bit_vector);
}

/// Storing a 16-bit value and loading it back from the same offset gives
/// the value, and no byte outside the two written ones changes.
pub proof fn lemma_store16_load16(m: Seq<u8>, o: int, v: u16)
    requires
        0 <= o,
        o + 2 <= m.len(),
    ensures
        load16_spec(store16_spec(m, o, v), o) == v,
        store16_spec(m, o, v).len() == m.len(),
        forall|i: int| 0 <= i < m.len() && !(o <= i < o + 2) ==> store16_spec(m, o, v)[i] == m[i],
{
    lemma_word16_roundtrip(v);
}

/// Storing a 32-bit value and loading it back from the same offset gives
/// the value, and no byte outside the four written ones changes.
pub proof fn lemma_store32_load32(m: Seq<u8>, o: int, v: u32)
    requires
        0 <= o,
        o + 4 <= m.len(),
    ensures
        load32_spec(store32_spec(m, o, v), o) == v,
        store32_spec(m, o, v).len() == m.len(),
        forall|i: int| 0 <= i < m.len() && !(o <= i < o + 4) ==> store32_spec(m, o, v)[i] == m[i],
{
    lemma_word32_roundtrip(v);
}

} // verus!
