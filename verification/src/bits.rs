//! Bit-field slicing and packing on 8- and 16-bit register values.
//!
//! Every register field in the protocol is described by a (length, shift)
//! pair; these helpers extract and insert such fields.  A field must lie
//! entirely inside the integer and is at least one bit wide; insertion
//! masks the value to the field width and ORs it into the base, so callers
//! composing several fields into one byte must keep them disjoint.

use vstd::prelude::*;

verus! {

/// A mask with the low `len` bits set.
pub open spec fn spec_mask_u8(len: u8) -> u8
    recommends
        len <= 8,
{
    (((1u16 << (len as u16)) - 1) as u8)
}

/// A mask with the low `len` bits set.
pub open spec fn spec_mask_u16(len: u8) -> u16
    recommends
        len <= 16,
{
    (((1u32 << (len as u32)) - 1) as u16)
}

pub open spec fn spec_get_bits_u8(value: u8, len: u8, shift: u8) -> u8
    recommends
        1 <= len,
        len + shift <= 8,
{
    (value >> shift) & spec_mask_u8(len)
}

pub open spec fn spec_get_bits_u16(value: u16, len: u8, shift: u8) -> u16
    recommends
        1 <= len,
        len + shift <= 16,
{
    (value >> (shift as u16)) & spec_mask_u16(len)
}

pub open spec fn spec_set_bits_u8(base: u8, value: u8, len: u8, shift: u8) -> u8
    recommends
        1 <= len,
        len + shift <= 8,
{
    base | ((value & spec_mask_u8(len)) << shift)
}

pub open spec fn spec_set_bits_u16(base: u16, value: u16, len: u8, shift: u8) -> u16
    recommends
        1 <= len,
        len + shift <= 16,
{
    base | ((value & spec_mask_u16(len)) << (shift as u16))
}

/// Extract the `len`-bit field of `value` that starts at bit `shift`.
pub fn get_bits_u8(value: u8, len: u8, shift: u8) -> (r: u8)
    requires
        1 <= len,
        len + shift <= 8,
    ensures
        r == spec_get_bits_u8(value, len, shift),
{
    proof {
        assert(len <= 8 ==> 1 <= (1u16 << (len as u16)) <= 256) by (bit_vector);
    }
    let mask: u8 = ((1u16 << (len as u16)) - 1) as u8;
    (value >> shift) & mask
}

/// Extract the `len`-bit field of `value` that starts at bit `shift`.
pub fn get_bits_u16(value: u16, len: u8, shift: u8) -> (r: u16)
    requires
        1 <= len,
        len + shift <= 16,
    ensures
        r == spec_get_bits_u16(value, len, shift),
{
    proof {
        assert(len <= 16 ==> 1 <= (1u32 << (len as u32)) <= 0x1_0000) by (bit_vector);
    }
    let mask: u16 = ((1u32 << (len as u32)) - 1) as u16;
    (value >> (shift as u16)) & mask
}

/// OR the low `len` bits of `value` into `base` at bit position `shift`.
pub fn set_bits_u8(base: u8, value: u8, len: u8, shift: u8) -> (r: u8)
    requires
        1 <= len,
        len + shift <= 8,
    ensures
        r == spec_set_bits_u8(base, value, len, shift),
{
    proof {
        assert(len <= 8 ==> 1 <= (1u16 << (len as u16)) <= 256) by (bit_vector);
    }
    let mask: u8 = ((1u16 << (len as u16)) - 1) as u8;
    base | ((value & mask) << shift)
}

/// OR the low `len` bits of `value` into `base` at bit position `shift`.
pub fn set_bits_u16(base: u16, value: u16, len: u8, shift: u8) -> (r: u16)
    requires
        1 <= len,
        len + shift <= 16,
    ensures
        r == spec_set_bits_u16(base, value, len, shift),
{
    proof {
        assert(len <= 16 ==> 1 <= (1u32 << (len as u32)) <= 0x1_0000) by (bit_vector);
    }
    let mask: u16 = ((1u32 << (len as u32)) - 1) as u16;
    base | ((value & mask) << (shift as u16))
}

/// Whether every (value, len, shift) triple describes a field inside a byte.
pub open spec fn fields_in_range_u8(fields: Seq<(u8, u8, u8)>) -> bool {
    forall|i: int|
        0 <= i < fields.len() ==> 1 <= #[trigger] fields[i].1 && fields[i].1 + fields[i].2 <= 8
}

pub open spec fn spec_set_bits_n_u8(base: u8, fields: Seq<(u8, u8, u8)>) -> u8
    recommends
        fields_in_range_u8(fields),
    decreases fields.len(),
{
    if fields.len() == 0 {
        base
    } else {
        spec_set_bits_n_u8(
            spec_set_bits_u8(base, fields[0].0, fields[0].1, fields[0].2),
            fields.skip(1),
        )
    }
}

/// Apply a list of field writes to `base`, first entry first.
pub fn set_bits_n_u8(base: u8, fields: &Vec<(u8, u8, u8)>) -> (r: u8)
    requires
        fields_in_range_u8(fields@),
    ensures
        r == spec_set_bits_n_u8(base, fields@),
{
    let mut acc: u8 = base;
    let mut i: usize = 0;
    proof {
        assert(fields@.skip(0) =~= fields@);
    }
    while i < fields.len()
        invariant
            i <= fields@.len(),
            fields_in_range_u8(fields@),
            spec_set_bits_n_u8(base, fields@) == spec_set_bits_n_u8(acc, fields@.skip(i as int)),
        decreases fields@.len() - i,
    {
        let (value, len, shift) = fields[i];
        proof {
            assert(fields@.skip(i as int)[0] == fields@[i as int]);
            assert(fields@.skip(i as int).skip(1) =~= fields@.skip(i as int + 1));
        }
        acc = set_bits_u8(acc, value, len, shift);
        i = i + 1;
    }
    proof {
        assert(fields@.skip(fields@.len() as int).len() == 0);
    }
    acc
}

/// A named register field: `len` bits starting at bit `shift`.
#[derive(Clone, Copy, Debug, PartialEq)]
pub struct BitInfo {
    pub len: u8,
    pub shift: u8,
}

impl BitInfo {
    /// Whether the field lies inside a 16-bit register.
    pub open spec fn in_range(self) -> bool {
        1 <= self.len && self.len + self.shift <= 16
    }
}

/// Extract the field described by `info` from a 16-bit register value.
pub fn u16_get_bits(base: u16, info: BitInfo) -> (r: u16)
    requires
        info.in_range(),
    ensures
        r == spec_get_bits_u16(base, info.len, info.shift),
{
    get_bits_u16(base, info.len, info.shift)
}

/// OR `val` into the field of `base` described by `info`.
pub fn u16_set_bits(base: u16, val: u16, info: BitInfo) -> (r: u16)
    requires
        info.in_range(),
    ensures
        r == spec_set_bits_u16(base, val, info.len, info.shift),
{
    set_bits_u16(base, val, info.len, info.shift)
}

pub open spec fn spec_get_bit_u16(value: u16, n: u8) -> u16
    recommends
        n < 16,
{
    (value >> (n as u16)) & 1
}

/// Extract the single bit at position `n` of `value`.
pub fn get_bit_u16(value: u16, n: u8) -> (r: u16)
    requires
        n < 16,
    ensures
        r == spec_get_bit_u16(value, n),
{
    (value >> (n as u16)) & 1
}

} // verus!
