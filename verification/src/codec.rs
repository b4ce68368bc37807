//! The 8-byte staging buffer and the 64-bit value it holds.
//!
//! The buffer is always interpreted least-significant byte first, the byte
//! order of the processors whose registers the device exposes, so the
//! conversions here are a lossless bijection between an 8-byte buffer and a
//! `u64`. `store_word` models what a positioned 8-byte write leaves on the
//! device.

use vstd::prelude::*;

verus! {

/// The 64-bit value held by an 8-byte buffer, least significant byte first.
pub open spec fn word_of(s: Seq<u8>) -> u64
    recommends
        s.len() == 8,
{
    ((s[0] as u64) | ((s[1] as u64) << 8) | ((s[2] as u64) << 16) | ((s[3] as u64) << 24) | ((
    s[4] as u64) << 32) | ((s[5] as u64) << 40) | ((s[6] as u64) << 48) | ((s[7] as u64) << 56))
}

/// The 8-byte buffer holding `v`, least significant byte first.
pub open spec fn bytes_of(v: u64) -> Seq<u8> {
    seq![
        (v & 0xff) as u8,
        ((v >> 8) & 0xff) as u8,
        ((v >> 16) & 0xff) as u8,
        ((v >> 24) & 0xff) as u8,
        ((v >> 32) & 0xff) as u8,
        ((v >> 40) & 0xff) as u8,
        ((v >> 48) & 0xff) as u8,
        ((v >> 56) & 0xff) as u8,
    ]
}

/// Decoding the encoding of any 64-bit value gives the value back.
pub proof fn lemma_word_of_bytes_of(v: u64)
    ensures
        word_of(bytes_of(v)) == v,
{
    assert(((v & 0xff) as u8 as u64) | ((((v >> 8) & 0xff) as u8 as u64) << 8) | ((((v >> 16)
        & 0xff) as u8 as u64) << 16) | ((((v >> 24) & 0xff) as u8 as u64) << 24) | ((((v >> 32)
        & 0xff) as u8 as u64) << 32) | ((((v >> 40) & 0xff) as u8 as u64) << 40) | ((((v >> 48)
        & 0xff) as u8 as u64) << 48) | ((((v >> 56) & 0xff) as u8 as u64) << 56) == v)
        by (bit_vector);
}

/// Encoding the decoding of any 8-byte buffer gives the buffer back.
pub proof fn lemma_bytes_of_word_of(s: Seq<u8>)
    requires
        s.len() == 8,
    ensures
        bytes_of(word_of(s)) == s,
{
    let b0 = s[0];
    let b1 = s[1];
    let b2 = s[2];
    let b3 = s[3];
    let b4 = s[4];
    let b5 = s[5];
    let b6 = s[6];
    let b7 = s[7];
    let v = word_of(s);
    assert(v == (b0 as u64) | ((b1 as u64) << 8) | ((b2 as u64) << 16) | ((b3 as u64) << 24) | ((
    b4 as u64) << 32) | ((b5 as u64) << 40) | ((b6 as u64) << 48) | ((b7 as u64) << 56));
    let w = (b0 as u64) | ((b1 as u64) << 8) | ((b2 as u64) << 16) | ((b3 as u64) << 24) | ((
    b4 as u64) << 32) | ((b5 as u64) << 40) | ((b6 as u64) << 48) | ((b7 as u64) << 56);
    assert((w & 0xff) as u8 == b0 && ((w >> 8) & 0xff) as u8 == b1 && ((w >> 16) & 0xff) as u8 == b2
        && ((w >> 24) & 0xff) as u8 == b3 && ((w >> 32) & 0xff) as u8 == b4 && ((w >> 40)
        & 0xff) as u8 == b5 && ((w >> 48) & 0xff) as u8 == b6 && ((w >> 56) & 0xff) as u8 == b7)
        by (bit_vector)
        requires
            w == (b0 as u64) | ((b1 as u64) << 8) | ((b2 as u64) << 16) | ((b3 as u64) << 24) | ((
            b4 as u64) << 32) | ((b5 as u64) << 40) | ((b6 as u64) << 48) | ((b7 as u64) << 56),
    ;
    assert(bytes_of(v) =~= s);
}

/// Contents of a device after an 8-byte word `w` lands at offset `off`:
/// the eight bytes from `off` are replaced, everything else is untouched.
pub open spec fn store_word(contents: Seq<u8>, off: int, w: Seq<u8>) -> Seq<u8>
    recommends
        0 <= off,
        off + 8 <= contents.len(),
        w.len() == 8,
{
    Seq::new(
        contents.len(),
        |i: int|
            if off <= i < off + 8 {
                w[i - off]
            } else {
                contents[i]
            },
    )
}

/// Reading back the eight bytes a write just stored gives the stored word.
pub proof fn lemma_store_then_load(contents: Seq<u8>, off: int, w: Seq<u8>)
    requires
        0 <= off,
        off + 8 <= contents.len(),
        w.len() == 8,
    ensures
        store_word(contents, off, w).subrange(off, off + 8) == w,
{
    assert(store_word(contents, off, w).subrange(off, off + 8) =~= w);
}

/// Writing a value at a register and decoding the eight bytes read back at
/// the same register yields that value.
pub proof fn lemma_write_then_read(contents: Seq<u8>, off: int, v: u64)
    requires
        0 <= off,
        off + 8 <= contents.len(),
    ensures
        word_of(store_word(contents, off, bytes_of(v)).subrange(off, off + 8)) == v,
{
    lemma_store_then_load(contents, off, bytes_of(v));
    lemma_word_of_bytes_of(v);
}

/// A write at one register leaves the bytes of any non-overlapping register
/// exactly as they were.
pub proof fn lemma_store_preserves_disjoint(contents: Seq<u8>, a: int, b: int, w: Seq<u8>)
    requires
        0 <= a,
        a + 8 <= contents.len(),
        0 <= b,
        b + 8 <= contents.len(),
        a + 8 <= b || b + 8 <= a,
        w.len() == 8,
    ensures
        store_word(contents, b, w).subrange(a, a + 8) == contents.subrange(a, a + 8),
{
    assert(store_word(contents, b, w).subrange(a, a + 8) =~= contents.subrange(a, a + 8));
}

} // verus!
