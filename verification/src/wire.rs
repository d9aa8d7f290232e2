//! Byte-level building blocks shared by the codecs: big-endian 16- and
//! 32-bit fields, and in-place writes of a byte string into a buffer.
//!
//! All multi-byte wire fields of the protocol are big-endian.

use vstd::prelude::*;

verus! {

/// The 16-bit value encoded big-endian by the bytes `hi`, `lo`.
pub open spec fn spec_be16(hi: u8, lo: u8) -> u16 {
    (((hi as u16) << 8u16) | (lo as u16)) as u16
}

/// The high byte of the big-endian encoding of `x`.
pub open spec fn spec_be16_hi(x: u16) -> u8 {
    ((x >> 8u16) & 0xFF) as u8
}

/// The low byte of the big-endian encoding of `x`.
pub open spec fn spec_be16_lo(x: u16) -> u8 {
    (x & 0xFF) as u8
}

/// The 32-bit value encoded big-endian by four bytes.
pub open spec fn spec_be32(b0: u8, b1: u8, b2: u8, b3: u8) -> u32 {
    (((b0 as u32) << 24u32) | ((b1 as u32) << 16u32) | ((b2 as u32) << 8u32) | (b3 as u32)) as u32
}

pub proof fn lemma_be16_of_parts(x: u16)
    by (bit_vector)
    ensures
        spec_be16(spec_be16_hi(x), spec_be16_lo(x)) == x,
{
}

/// Read the big-endian 16-bit field at `off` in `b`.
pub fn read_be16(b: &[u8], off: usize) -> (x: u16)
    requires
        off + 2 <= b@.len(),
    ensures
        x == spec_be16(b@[off as int], b@[off as int + 1]),
{
    let hi: u8 = b[off];
    let lo: u8 = b[off + 1];
    ((hi as u16) << 8u16) | (lo as u16)
}

/// Read the big-endian 32-bit field at `off` in `b`.
pub fn read_be32(b: &[u8], off: usize) -> (x: u32)
    requires
        off + 4 <= b@.len(),
    ensures
        x == spec_be32(b@[off as int], b@[off as int + 1], b@[off as int + 2], b@[off as int + 3]),
{
    let b0: u8 = b[off];
    let b1: u8 = b[off + 1];
    let b2: u8 = b[off + 2];
    let b3: u8 = b[off + 3];
    ((b0 as u32) << 24u32) | ((b1 as u32) << 16u32) | ((b2 as u32) << 8u32) | (b3 as u32)
}


/// The four bytes of the big-endian encoding of `x`.
pub open spec fn spec_be32_bytes(x: u32) -> Seq<u8> {
    seq![
        ((x >> 24u32) & 0xFF) as u8,
        ((x >> 16u32) & 0xFF) as u8,
        ((x >> 8u32) & 0xFF) as u8,
        (x & 0xFF) as u8,
    ]
}

/// `s` with the bytes `w` written in place starting at `off`; everything
/// outside that span is unchanged.
pub open spec fn seq_write(s: Seq<u8>, off: int, w: Seq<u8>) -> Seq<u8>
    recommends
        0 <= off,
        off + w.len() <= s.len(),
{
    s.subrange(0, off) + w + s.subrange(off + w.len(), s.len() as int)
}

pub proof fn lemma_seq_write_index(s: Seq<u8>, off: int, w: Seq<u8>)
    requires
        0 <= off,
        off + w.len() <= s.len(),
    ensures
        forall|i: int|
            0 <= i < s.len() ==> #[trigger] seq_write(s, off, w)[i] == if off <= i < off + w.len() {
                w[i - off]
            } else {
                s[i]
            },
{
}

/// Writing two byte strings back to back is one write of their concatenation.
pub proof fn lemma_seq_write_concat(s: Seq<u8>, off: int, w1: Seq<u8>, w2: Seq<u8>)
    requires
        0 <= off,
        off + w1.len() + w2.len() <= s.len(),
    ensures
        seq_write(seq_write(s, off, w1), off + w1.len(), w2) == seq_write(s, off, w1 + w2),
{
    lemma_seq_write_index(s, off, w1);
    lemma_seq_write_index(seq_write(s, off, w1), off + w1.len(), w2);
    lemma_seq_write_index(s, off, w1 + w2);
    assert(seq_write(seq_write(s, off, w1), off + w1.len(), w2) =~= seq_write(s, off, w1 + w2));
}

/// A zero-filled send buffer: at least the wire size of the message to
/// marshal into it, and at least the 60-byte minimum Ethernet payload.
pub fn prealloc_buffer(wire_size: usize) -> (buf: Vec<u8>)
    ensures
        buf@.len() == if wire_size > 60 {
            wire_size
        } else {
            60
        },
        forall|i: int| 0 <= i < buf@.len() ==> buf@[i] == 0u8,
{
    let len: usize = if wire_size > 60 {
        wire_size
    } else {
        60
    };
    let mut buf: Vec<u8> = Vec::new();
    buf.resize(len, 0u8);
    buf
}

} // verus!
