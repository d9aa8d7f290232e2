//! Codec for 4-byte register-operation entries and the sentinel-terminated
//! lists built from them.
//!
//! Each entry packs a 4-bit op-type (read/write = 0, wait-on-bit = 1) and
//! a 2-bit op-code (read = 2, write = 1, wait-on-bit-0 = 0,
//! wait-on-bit-1 = 3) into byte 0 together with the top two bits of the
//! 5-bit device address; byte 1 carries the low three address bits and the
//! 5-bit register number.  Bytes 2–3 hold the 16-bit data word for
//! read/write entries, or the 5-bit bit index and (in responses) the
//! result byte for wait entries.  A list is the concatenation of its
//! entries followed by the all-ones sentinel.
//!
//! Decoding a response list stops early immediately after a wait entry
//! whose result byte is `0xFF`: the device failed to satisfy the wait
//! condition and answered no further operations.  That outcome is a
//! first-class decode result, not an error.

use vstd::prelude::*;

use crate::error::RmuError;
use crate::wire::{
    lemma_be16_of_parts, lemma_seq_write_index, seq_write, spec_be16, spec_be16_hi, spec_be16_lo,
};
use vstd::slice::slice_subrange;

verus! {

/// Every register-operation entry occupies exactly this many bytes.
pub const OP_WIRE_SIZE: usize = 4;

/// The four sentinel bytes that terminate a list on the wire.
pub open spec fn spec_sentinel() -> Seq<u8> {
    seq![0xFFu8, 0xFFu8, 0xFFu8, 0xFFu8]
}

#[derive(Clone, Copy, Debug, PartialEq, Eq, Structural)]
pub enum RegOpRequest {
    Read { addr: u8, reg: u8 },
    Write { addr: u8, reg: u8, data: u16 },
    WaitOnBit1 { addr: u8, reg: u8, bit: u8 },
    WaitOnBit0 { addr: u8, reg: u8, bit: u8 },
    EndOfList,
}

#[derive(Clone, Copy, Debug, PartialEq, Eq, Structural)]
pub enum RegOpResponse {
    Read { addr: u8, reg: u8, data: u16 },
    Write { addr: u8, reg: u8, data: u16 },
    WaitOnBit1 { addr: u8, reg: u8, bit: u8, result: u8 },
    WaitOnBit0 { addr: u8, reg: u8, bit: u8, result: u8 },
    EndOfList,
}

/// Whether the fields of a request entry fit their wire bit widths:
/// addresses and registers are 5 bits, a wait bit index is 5 bits.
pub open spec fn regop_request_in_range(op: RegOpRequest) -> bool {
    match op {
        RegOpRequest::Read { addr, reg } => addr < 32 && reg < 32,
        RegOpRequest::Write { addr, reg, data } => addr < 32 && reg < 32,
        RegOpRequest::WaitOnBit1 { addr, reg, bit } => addr < 32 && reg < 32 && bit < 32,
        RegOpRequest::WaitOnBit0 { addr, reg, bit } => addr < 32 && reg < 32 && bit < 32,
        RegOpRequest::EndOfList => true,
    }
}

/// Whether the fields of a response entry fit their wire bit widths.
pub open spec fn regop_response_in_range(op: RegOpResponse) -> bool {
    match op {
        RegOpResponse::Read { addr, reg, data } => addr < 32 && reg < 32,
        RegOpResponse::Write { addr, reg, data } => addr < 32 && reg < 32,
        RegOpResponse::WaitOnBit1 { addr, reg, bit, result } => addr < 32 && reg < 32 && bit < 32,
        RegOpResponse::WaitOnBit0 { addr, reg, bit, result } => addr < 32 && reg < 32 && bit < 32,
        RegOpResponse::EndOfList => true,
    }
}

/// The 4 bytes that a request entry encodes to.
pub open spec fn spec_regop_request_bytes(op: RegOpRequest) -> Seq<u8> {
    match op {
        RegOpRequest::Read { addr, reg } => seq![
            0x08 | ((addr >> 3u8) & 0x03),
            ((addr & 0x07) << 5u8) | (reg & 0x1F),
            0u8,
            0u8,
        ],
        RegOpRequest::Write { addr, reg, data } => seq![
            0x04 | ((addr >> 3u8) & 0x03),
            ((addr & 0x07) << 5u8) | (reg & 0x1F),
            spec_be16_hi(data),
            spec_be16_lo(data),
        ],
        RegOpRequest::WaitOnBit0 { addr, reg, bit } => seq![
            0x10 | ((addr >> 3u8) & 0x03),
            ((addr & 0x07) << 5u8) | (reg & 0x1F),
            bit & 0x1F,
            0u8,
        ],
        RegOpRequest::WaitOnBit1 { addr, reg, bit } => seq![
            0x1C | ((addr >> 3u8) & 0x03),
            ((addr & 0x07) << 5u8) | (reg & 0x1F),
            bit & 0x1F,
            0u8,
        ],
        RegOpRequest::EndOfList => spec_sentinel(),
    }
}

/// The 4 bytes that a response entry encodes to.
pub open spec fn spec_regop_response_bytes(op: RegOpResponse) -> Seq<u8> {
    match op {
        RegOpResponse::Read { addr, reg, data } => seq![
            0x08 | ((addr >> 3u8) & 0x03),
            ((addr & 0x07) << 5u8) | (reg & 0x1F),
            spec_be16_hi(data),
            spec_be16_lo(data),
        ],
        RegOpResponse::Write { addr, reg, data } => seq![
            0x04 | ((addr >> 3u8) & 0x03),
            ((addr & 0x07) << 5u8) | (reg & 0x1F),
            spec_be16_hi(data),
            spec_be16_lo(data),
        ],
        RegOpResponse::WaitOnBit0 { addr, reg, bit, result } => seq![
            0x10 | ((addr >> 3u8) & 0x03),
            ((addr & 0x07) << 5u8) | (reg & 0x1F),
            bit & 0x1F,
            result,
        ],
        RegOpResponse::WaitOnBit1 { addr, reg, bit, result } => seq![
            0x1C | ((addr >> 3u8) & 0x03),
            ((addr & 0x07) << 5u8) | (reg & 0x1F),
            bit & 0x1F,
            result,
        ],
        RegOpResponse::EndOfList => spec_sentinel(),
    }
}

/// Decode one request entry from the first 4 bytes of `b`.
pub open spec fn spec_parse_regop_request(b: Seq<u8>) -> Result<RegOpRequest, RmuError>
    recommends
        b.len() >= 4,
{
    let optype = (b[0] >> 4u8) & 0x0F;
    let opcode = (b[0] >> 2u8) & 0x03;
    let addr = ((b[0] & 0x03) << 3u8) | ((b[1] >> 5u8) & 0x07);
    let reg = b[1] & 0x1F;
    if optype == 0x00 {
        if opcode == 0x01 {
            Ok(RegOpRequest::Write { addr, reg, data: spec_be16(b[2], b[3]) })
        } else if opcode == 0x02 {
            Ok(RegOpRequest::Read { addr, reg })
        } else {
            Err(RmuError::UnknownOpCode { value: opcode })
        }
    } else if optype == 0x01 {
        if opcode == 0x00 {
            Ok(RegOpRequest::WaitOnBit0 { addr, reg, bit: b[2] & 0x1F })
        } else if opcode == 0x03 {
            Ok(RegOpRequest::WaitOnBit1 { addr, reg, bit: b[2] & 0x1F })
        } else {
            Err(RmuError::UnknownOpCode { value: opcode })
        }
    } else if optype == 0x0F {
        if b[0] == 0xFF && b[1] == 0xFF && b[2] == 0xFF && b[3] == 0xFF {
            Ok(RegOpRequest::EndOfList)
        } else {
            Err(RmuError::UnknownOpType { value: optype })
        }
    } else {
        Err(RmuError::UnknownOpType { value: optype })
    }
}

/// Decode one response entry from the first 4 bytes of `b`.
pub open spec fn spec_parse_regop_response(b: Seq<u8>) -> Result<RegOpResponse, RmuError>
    recommends
        b.len() >= 4,
{
    let optype = (b[0] >> 4u8) & 0x0F;
    let opcode = (b[0] >> 2u8) & 0x03;
    let addr = ((b[0] & 0x03) << 3u8) | ((b[1] >> 5u8) & 0x07);
    let reg = b[1] & 0x1F;
    if optype == 0x00 {
        if opcode == 0x01 {
            Ok(RegOpResponse::Write { addr, reg, data: spec_be16(b[2], b[3]) })
        } else if opcode == 0x02 {
            Ok(RegOpResponse::Read { addr, reg, data: spec_be16(b[2], b[3]) })
        } else {
            Err(RmuError::UnknownOpCode { value: opcode })
        }
    } else if optype == 0x01 {
        if opcode == 0x00 {
            Ok(RegOpResponse::WaitOnBit0 { addr, reg, bit: b[2] & 0x1F, result: b[3] })
        } else if opcode == 0x03 {
            Ok(RegOpResponse::WaitOnBit1 { addr, reg, bit: b[2] & 0x1F, result: b[3] })
        } else {
            Err(RmuError::UnknownOpCode { value: opcode })
        }
    } else if optype == 0x0F {
        if b[0] == 0xFF && b[1] == 0xFF && b[2] == 0xFF && b[3] == 0xFF {
            Ok(RegOpResponse::EndOfList)
        } else {
            Err(RmuError::UnknownOpType { value: optype })
        }
    } else {
        Err(RmuError::UnknownOpType { value: optype })
    }
}

/// The data word carried by a read response entry, if the entry is one.
pub open spec fn spec_read_data(op: RegOpResponse) -> Option<u16> {
    match op {
        RegOpResponse::Read { data, .. } => Some(data),
        _ => None,
    }
}

/// Whether a response entry is a wait whose result byte reports failure.
pub open spec fn spec_is_failed_wait(op: RegOpResponse) -> bool {
    match op {
        RegOpResponse::WaitOnBit0 { result, .. } => result == 0xFF,
        RegOpResponse::WaitOnBit1 { result, .. } => result == 0xFF,
        _ => false,
    }
}

impl RegOpRequest {
    pub fn wire_size(&self) -> (n: usize)
        ensures
            n == OP_WIRE_SIZE,
    {
        OP_WIRE_SIZE
    }

    /// Encode the entry into `buf` at `offset`.
    pub fn marshal(&self, buf: &mut Vec<u8>, offset: usize) -> (n: usize)
        requires
            offset + 4 <= old(buf)@.len(),
        ensures
            n == OP_WIRE_SIZE,
            final(buf)@ == seq_write(old(buf)@, offset as int, spec_regop_request_bytes(*self)),
    {
        let _cap: usize = buf.len();
        match *self {
            RegOpRequest::Read { addr, reg } => {
                buf.set(offset, 0x08 | ((addr >> 3u8) & 0x03));
                buf.set(offset + 1, ((addr & 0x07) << 5u8) | (reg & 0x1F));
                buf.set(offset + 2, 0x00);
                buf.set(offset + 3, 0x00);
            },
            RegOpRequest::Write { addr, reg, data } => {
                buf.set(offset, 0x04 | ((addr >> 3u8) & 0x03));
                buf.set(offset + 1, ((addr & 0x07) << 5u8) | (reg & 0x1F));
                buf.set(offset + 2, ((data >> 8u16) & 0xFF) as u8);
                buf.set(offset + 3, (data & 0xFF) as u8);
            },
            RegOpRequest::WaitOnBit0 { addr, reg, bit } => {
                buf.set(offset, 0x10 | ((addr >> 3u8) & 0x03));
                buf.set(offset + 1, ((addr & 0x07) << 5u8) | (reg & 0x1F));
                buf.set(offset + 2, bit & 0x1F);
                buf.set(offset + 3, 0x00);
            },
            RegOpRequest::WaitOnBit1 { addr, reg, bit } => {
                buf.set(offset, 0x1C | ((addr >> 3u8) & 0x03));
                buf.set(offset + 1, ((addr & 0x07) << 5u8) | (reg & 0x1F));
                buf.set(offset + 2, bit & 0x1F);
                buf.set(offset + 3, 0x00);
            },
            RegOpRequest::EndOfList => {
                buf.set(offset, 0xFF);
                buf.set(offset + 1, 0xFF);
                buf.set(offset + 2, 0xFF);
                buf.set(offset + 3, 0xFF);
            },
        }
        proof {
            lemma_seq_write_index(old(buf)@, offset as int, spec_regop_request_bytes(*self));
            assert(buf@ =~= seq_write(old(buf)@, offset as int, spec_regop_request_bytes(*self)));
        }
        OP_WIRE_SIZE
    }

    /// Decode one entry from the front of `buffer`.
    pub fn unmarshal(buffer: &[u8]) -> (r: Result<RegOpRequest, RmuError>)
        ensures
            buffer@.len() >= 4 ==> r == spec_parse_regop_request(buffer@),
            buffer@.len() < 4 ==> r == Err::<RegOpRequest, RmuError>(RmuError::MalformedBuffer),
    {
        if buffer.len() < 4 {
            return Err(RmuError::MalformedBuffer);
        }
        let b0 = buffer[0];
        let b1 = buffer[1];
        let b2 = buffer[2];
        let b3 = buffer[3];
        let optype = (b0 >> 4u8) & 0x0F;
        let opcode = (b0 >> 2u8) & 0x03;
        let addr = ((b0 & 0x03) << 3u8) | ((b1 >> 5u8) & 0x07);
        let reg = b1 & 0x1F;
        if optype == 0x00 {
            let data = ((b2 as u16) << 8u16) | (b3 as u16);
            if opcode == 0x01 {
                Ok(RegOpRequest::Write { addr, reg, data })
            } else if opcode == 0x02 {
                Ok(RegOpRequest::Read { addr, reg })
            } else {
                Err(RmuError::UnknownOpCode { value: opcode })
            }
        } else if optype == 0x01 {
            let bit = b2 & 0x1F;
            if opcode == 0x00 {
                Ok(RegOpRequest::WaitOnBit0 { addr, reg, bit })
            } else if opcode == 0x03 {
                Ok(RegOpRequest::WaitOnBit1 { addr, reg, bit })
            } else {
                Err(RmuError::UnknownOpCode { value: opcode })
            }
        } else if optype == 0x0F {
            if b0 == 0xFF && b1 == 0xFF && b2 == 0xFF && b3 == 0xFF {
                Ok(RegOpRequest::EndOfList)
            } else {
                Err(RmuError::UnknownOpType { value: optype })
            }
        } else {
            Err(RmuError::UnknownOpType { value: optype })
        }
    }
}

impl RegOpResponse {
    pub fn wire_size(&self) -> (n: usize)
        ensures
            n == OP_WIRE_SIZE,
    {
        OP_WIRE_SIZE
    }

    /// The data word carried by a read entry, if this is one.
    pub fn read_data(&self) -> (r: Option<u16>)
        ensures
            r == spec_read_data(*self),
    {
        match *self {
            RegOpResponse::Read { data, .. } => Some(data),
            _ => None,
        }
    }

    /// Whether this entry is a wait whose result byte reports failure.
    pub fn is_failed_wait(&self) -> (r: bool)
        ensures
            r == spec_is_failed_wait(*self),
    {
        match *self {
            RegOpResponse::WaitOnBit0 { result, .. } => result == 0xFF,
            RegOpResponse::WaitOnBit1 { result, .. } => result == 0xFF,
            _ => false,
        }
    }

    /// Encode the entry into `buf` at `offset`.
    pub fn marshal(&self, buf: &mut Vec<u8>, offset: usize) -> (n: usize)
        requires
            offset + 4 <= old(buf)@.len(),
        ensures
            n == OP_WIRE_SIZE,
            final(buf)@ == seq_write(old(buf)@, offset as int, spec_regop_response_bytes(*self)),
    {
        let _cap: usize = buf.len();
        match *self {
            RegOpResponse::Read { addr, reg, data } => {
                buf.set(offset, 0x08 | ((addr >> 3u8) & 0x03));
                buf.set(offset + 1, ((addr & 0x07) << 5u8) | (reg & 0x1F));
                buf.set(offset + 2, ((data >> 8u16) & 0xFF) as u8);
                buf.set(offset + 3, (data & 0xFF) as u8);
            },
            RegOpResponse::Write { addr, reg, data } => {
                buf.set(offset, 0x04 | ((addr >> 3u8) & 0x03));
                buf.set(offset + 1, ((addr & 0x07) << 5u8) | (reg & 0x1F));
                buf.set(offset + 2, ((data >> 8u16) & 0xFF) as u8);
                buf.set(offset + 3, (data & 0xFF) as u8);
            },
            RegOpResponse::WaitOnBit0 { addr, reg, bit, result } => {
                buf.set(offset, 0x10 | ((addr >> 3u8) & 0x03));
                buf.set(offset + 1, ((addr & 0x07) << 5u8) | (reg & 0x1F));
                buf.set(offset + 2, bit & 0x1F);
                buf.set(offset + 3, result);
            },
            RegOpResponse::WaitOnBit1 { addr, reg, bit, result } => {
                buf.set(offset, 0x1C | ((addr >> 3u8) & 0x03));
                buf.set(offset + 1, ((addr & 0x07) << 5u8) | (reg & 0x1F));
                buf.set(offset + 2, bit & 0x1F);
                buf.set(offset + 3, result);
            },
            RegOpResponse::EndOfList => {
                buf.set(offset, 0xFF);
                buf.set(offset + 1, 0xFF);
                buf.set(offset + 2, 0xFF);
                buf.set(offset + 3, 0xFF);
            },
        }
        proof {
            lemma_seq_write_index(old(buf)@, offset as int, spec_regop_response_bytes(*self));
            assert(buf@ =~= seq_write(old(buf)@, offset as int, spec_regop_response_bytes(*self)));
        }
        OP_WIRE_SIZE
    }

    /// Decode one entry from the front of `buffer`.
    pub fn unmarshal(buffer: &[u8]) -> (r: Result<RegOpResponse, RmuError>)
        ensures
            buffer@.len() >= 4 ==> r == spec_parse_regop_response(buffer@),
            buffer@.len() < 4 ==> r == Err::<RegOpResponse, RmuError>(RmuError::MalformedBuffer),
    {
        if buffer.len() < 4 {
            return Err(RmuError::MalformedBuffer);
        }
        let b0 = buffer[0];
        let b1 = buffer[1];
        let b2 = buffer[2];
        let b3 = buffer[3];
        let optype = (b0 >> 4u8) & 0x0F;
        let opcode = (b0 >> 2u8) & 0x03;
        let addr = ((b0 & 0x03) << 3u8) | ((b1 >> 5u8) & 0x07);
        let reg = b1 & 0x1F;
        if optype == 0x00 {
            let data = ((b2 as u16) << 8u16) | (b3 as u16);
            if opcode == 0x01 {
                Ok(RegOpResponse::Write { addr, reg, data })
            } else if opcode == 0x02 {
                Ok(RegOpResponse::Read { addr, reg, data })
            } else {
                Err(RmuError::UnknownOpCode { value: opcode })
            }
        } else if optype == 0x01 {
            let bit = b2 & 0x1F;
            let result = b3;
            if opcode == 0x00 {
                Ok(RegOpResponse::WaitOnBit0 { addr, reg, bit, result })
            } else if opcode == 0x03 {
                Ok(RegOpResponse::WaitOnBit1 { addr, reg, bit, result })
            } else {
                Err(RmuError::UnknownOpCode { value: opcode })
            }
        } else if optype == 0x0F {
            if b0 == 0xFF && b1 == 0xFF && b2 == 0xFF && b3 == 0xFF {
                Ok(RegOpResponse::EndOfList)
            } else {
                Err(RmuError::UnknownOpType { value: optype })
            }
        } else {
            Err(RmuError::UnknownOpType { value: optype })
        }
    }
}

/// Round trip for request entries: every variant whose fields fit their
/// wire bit widths is recovered exactly by decoding its own encoding.
pub proof fn lemma_regop_request_roundtrip(op: RegOpRequest)
    requires
        regop_request_in_range(op),
    ensures
        spec_parse_regop_request(spec_regop_request_bytes(op)) == Ok::<RegOpRequest, RmuError>(op),
{
    match op {
        RegOpRequest::Read { addr, reg } => {
            let a = addr;
            let r = reg;
            assert(a < 32 && r < 32 ==> (((0x08 | ((a >> 3u8) & 0x03)) >> 4u8) & 0x0F) == 0x00 && ((
            (0x08 | ((a >> 3u8) & 0x03)) >> 2u8) & 0x03) == 0x02 && ((((0x08 | ((a >> 3u8) & 0x03))
                & 0x03) << 3u8) | (((((a & 0x07) << 5u8) | (r & 0x1F)) >> 5u8) & 0x07)) == a && ((((
            a & 0x07) << 5u8) | (r & 0x1F)) & 0x1F) == r) by (bit_vector);
        },
        RegOpRequest::Write { addr, reg, data } => {
            let a = addr;
            let r = reg;
            assert(a < 32 && r < 32 ==> (((0x04 | ((a >> 3u8) & 0x03)) >> 4u8) & 0x0F) == 0x00 && ((
            (0x04 | ((a >> 3u8) & 0x03)) >> 2u8) & 0x03) == 0x01 && ((((0x04 | ((a >> 3u8) & 0x03))
                & 0x03) << 3u8) | (((((a & 0x07) << 5u8) | (r & 0x1F)) >> 5u8) & 0x07)) == a && ((((
            a & 0x07) << 5u8) | (r & 0x1F)) & 0x1F) == r) by (bit_vector);
            lemma_be16_of_parts(data);
        },
        RegOpRequest::WaitOnBit0 { addr, reg, bit } => {
            let a = addr;
            let r = reg;
            let t = bit;
            assert(a < 32 && r < 32 && t < 32 ==> (((0x10 | ((a >> 3u8) & 0x03)) >> 4u8) & 0x0F)
                == 0x01 && (((0x10 | ((a >> 3u8) & 0x03)) >> 2u8) & 0x03) == 0x00 && ((((0x10 | ((a
                >> 3u8) & 0x03)) & 0x03) << 3u8) | (((((a & 0x07) << 5u8) | (r & 0x1F)) >> 5u8)
                & 0x07)) == a && ((((a & 0x07) << 5u8) | (r & 0x1F)) & 0x1F) == r && ((t & 0x1F)
                & 0x1F) == t) by (bit_vector);
        },
        RegOpRequest::WaitOnBit1 { addr, reg, bit } => {
            let a = addr;
            let r = reg;
            let t = bit;
            assert(a < 32 && r < 32 && t < 32 ==> (((0x1C | ((a >> 3u8) & 0x03)) >> 4u8) & 0x0F)
                == 0x01 && (((0x1C | ((a >> 3u8) & 0x03)) >> 2u8) & 0x03) == 0x03 && ((((0x1C | ((a
                >> 3u8) & 0x03)) & 0x03) << 3u8) | (((((a & 0x07) << 5u8) | (r & 0x1F)) >> 5u8)
                & 0x07)) == a && ((((a & 0x07) << 5u8) | (r & 0x1F)) & 0x1F) == r && ((t & 0x1F)
                & 0x1F) == t) by (bit_vector);
        },
        RegOpRequest::EndOfList => {
            assert(((0xFFu8 >> 4u8) & 0x0F) == 0x0F) by (bit_vector);
        },
    }
}

/// Round trip for response entries.
pub proof fn lemma_regop_response_roundtrip(op: RegOpResponse)
    requires
        regop_response_in_range(op),
    ensures
        spec_parse_regop_response(spec_regop_response_bytes(op)) == Ok::<
            RegOpResponse,
            RmuError,
        >(op),
{
    match op {
        RegOpResponse::Read { addr, reg, data } => {
            let a = addr;
            let r = reg;
            assert(a < 32 && r < 32 ==> (((0x08 | ((a >> 3u8) & 0x03)) >> 4u8) & 0x0F) == 0x00 && ((
            (0x08 | ((a >> 3u8) & 0x03)) >> 2u8) & 0x03) == 0x02 && ((((0x08 | ((a >> 3u8) & 0x03))
                & 0x03) << 3u8) | (((((a & 0x07) << 5u8) | (r & 0x1F)) >> 5u8) & 0x07)) == a && ((((
            a & 0x07) << 5u8) | (r & 0x1F)) & 0x1F) == r) by (bit_vector);
            lemma_be16_of_parts(data);
        },
        RegOpResponse::Write { addr, reg, data } => {
            let a = addr;
            let r = reg;
            assert(a < 32 && r < 32 ==> (((0x04 | ((a >> 3u8) & 0x03)) >> 4u8) & 0x0F) == 0x00 && ((
            (0x04 | ((a >> 3u8) & 0x03)) >> 2u8) & 0x03) == 0x01 && ((((0x04 | ((a >> 3u8) & 0x03))
                & 0x03) << 3u8) | (((((a & 0x07) << 5u8) | (r & 0x1F)) >> 5u8) & 0x07)) == a && ((((
            a & 0x07) << 5u8) | (r & 0x1F)) & 0x1F) == r) by (bit_vector);
            lemma_be16_of_parts(data);
        },
        RegOpResponse::WaitOnBit0 { addr, reg, bit, result } => {
            let a = addr;
            let r = reg;
            let t = bit;
            assert(a < 32 && r < 32 && t < 32 ==> (((0x10 | ((a >> 3u8) & 0x03)) >> 4u8) & 0x0F)
                == 0x01 && (((0x10 | ((a >> 3u8) & 0x03)) >> 2u8) & 0x03) == 0x00 && ((((0x10 | ((a
                >> 3u8) & 0x03)) & 0x03) << 3u8) | (((((a & 0x07) << 5u8) | (r & 0x1F)) >> 5u8)
                & 0x07)) == a && ((((a & 0x07) << 5u8) | (r & 0x1F)) & 0x1F) == r && ((t & 0x1F)
                & 0x1F) == t) by (bit_vector);
        },
        RegOpResponse::WaitOnBit1 { addr, reg, bit, result } => {
            let a = addr;
            let r = reg;
            let t = bit;
            assert(a < 32 && r < 32 && t < 32 ==> (((0x1C | ((a >> 3u8) & 0x03)) >> 4u8) & 0x0F)
                == 0x01 && (((0x1C | ((a >> 3u8) & 0x03)) >> 2u8) & 0x03) == 0x03 && ((((0x1C | ((a
                >> 3u8) & 0x03)) & 0x03) << 3u8) | (((((a & 0x07) << 5u8) | (r & 0x1F)) >> 5u8)
                & 0x07)) == a && ((((a & 0x07) << 5u8) | (r & 0x1F)) & 0x1F) == r && ((t & 0x1F)
                & 0x1F) == t) by (bit_vector);
        },
        RegOpResponse::EndOfList => {
            assert(((0xFFu8 >> 4u8) & 0x0F) == 0x0F) by (bit_vector);
        },
    }
}

/// The all-ones pattern is the only 4-byte string that decodes to the
/// end-of-list sentinel, in either direction.
pub proof fn lemma_sentinel_unique(b: Seq<u8>)
    requires
        b.len() >= 4,
    ensures
        (spec_parse_regop_request(b) == Ok::<RegOpRequest, RmuError>(RegOpRequest::EndOfList)) <==> (
        b[0] == 0xFF && b[1] == 0xFF && b[2] == 0xFF && b[3] == 0xFF),
        (spec_parse_regop_response(b) == Ok::<RegOpResponse, RmuError>(RegOpResponse::EndOfList))
            <==> (b[0] == 0xFF && b[1] == 0xFF && b[2] == 0xFF && b[3] == 0xFF),
{
    let b0 = b[0];
    assert(b0 == 0xFF ==> ((b0 >> 4u8) & 0x0F) == 0x0F) by (bit_vector);
}

/// The concatenation of the entry encodings of `ops`, without sentinel.
pub open spec fn spec_request_ops_bytes(ops: Seq<RegOpRequest>) -> Seq<u8>
    decreases ops.len(),
{
    if ops.len() == 0 {
        Seq::empty()
    } else {
        spec_regop_request_bytes(ops[0]) + spec_request_ops_bytes(ops.skip(1))
    }
}

/// The concatenation of the entry encodings of `ops`, without sentinel.
pub open spec fn spec_response_ops_bytes(ops: Seq<RegOpResponse>) -> Seq<u8>
    decreases ops.len(),
{
    if ops.len() == 0 {
        Seq::empty()
    } else {
        spec_regop_response_bytes(ops[0]) + spec_response_ops_bytes(ops.skip(1))
    }
}

/// The full wire image of a request list: entries then sentinel.
pub open spec fn spec_request_list_bytes(ops: Seq<RegOpRequest>) -> Seq<u8> {
    spec_request_ops_bytes(ops) + spec_sentinel()
}

/// The full wire image of a response list: entries then sentinel.
pub open spec fn spec_response_list_bytes(ops: Seq<RegOpResponse>) -> Seq<u8> {
    spec_response_ops_bytes(ops) + spec_sentinel()
}

/// Entry encodings are 4 bytes long, so the concatenation of `ops` is
/// `4 * ops.len()` bytes, and byte `4k + j` of it is byte `j` of entry `k`.
pub proof fn lemma_request_ops_bytes_index(ops: Seq<RegOpRequest>)
    ensures
        spec_request_ops_bytes(ops).len() == 4 * ops.len(),
        forall|k: int, j: int|
            0 <= k < ops.len() && 0 <= j < 4 ==> #[trigger] spec_request_ops_bytes(ops)[4 * k + j]
                == spec_regop_request_bytes(ops[k])[j],
    decreases ops.len(),
{
    if ops.len() > 0 {
        lemma_request_ops_bytes_index(ops.skip(1));
        assert forall|k: int, j: int| 0 <= k < ops.len() && 0 <= j < 4 implies #[trigger] spec_request_ops_bytes(
            ops,
        )[4 * k + j] == spec_regop_request_bytes(ops[k])[j] by {
            if k > 0 {
                assert(spec_request_ops_bytes(ops.skip(1))[4 * (k - 1) + j]
                    == spec_regop_request_bytes(ops.skip(1)[k - 1])[j]);
            }
        }
    }
}

/// The response-direction counterpart of `lemma_request_ops_bytes_index`.
pub proof fn lemma_response_ops_bytes_index(ops: Seq<RegOpResponse>)
    ensures
        spec_response_ops_bytes(ops).len() == 4 * ops.len(),
        forall|k: int, j: int|
            0 <= k < ops.len() && 0 <= j < 4 ==> #[trigger] spec_response_ops_bytes(ops)[4 * k + j]
                == spec_regop_response_bytes(ops[k])[j],
    decreases ops.len(),
{
    if ops.len() > 0 {
        lemma_response_ops_bytes_index(ops.skip(1));
        assert forall|k: int, j: int| 0 <= k < ops.len() && 0 <= j < 4 implies #[trigger] spec_response_ops_bytes(
            ops,
        )[4 * k + j] == spec_regop_response_bytes(ops[k])[j] by {
            if k > 0 {
                assert(spec_response_ops_bytes(ops.skip(1))[4 * (k - 1) + j]
                    == spec_regop_response_bytes(ops.skip(1)[k - 1])[j]);
            }
        }
    }
}

/// Decode a request list: entries accumulate until the sentinel is met or
/// fewer than 4 bytes remain.
pub open spec fn spec_parse_request_list(b: Seq<u8>) -> Result<Seq<RegOpRequest>, RmuError>
    decreases b.len(),
{
    if b.len() < 4 {
        Ok(Seq::empty())
    } else {
        match spec_parse_regop_request(b) {
            Err(e) => Err(e),
            Ok(op) => {
                if op == RegOpRequest::EndOfList {
                    Ok(Seq::empty())
                } else {
                    match spec_parse_request_list(b.skip(4)) {
                        Err(e) => Err(e),
                        Ok(rest) => Ok(seq![op] + rest),
                    }
                }
            },
        }
    }
}

/// Decode a response list: as for requests, but additionally stop, after
/// keeping the entry, when a wait entry reports result `0xFF`.
pub open spec fn spec_parse_response_list(b: Seq<u8>) -> Result<Seq<RegOpResponse>, RmuError>
    decreases b.len(),
{
    if b.len() < 4 {
        Ok(Seq::empty())
    } else {
        match spec_parse_regop_response(b) {
            Err(e) => Err(e),
            Ok(op) => {
                if op == RegOpResponse::EndOfList {
                    Ok(Seq::empty())
                } else if spec_is_failed_wait(op) {
                    Ok(seq![op])
                } else {
                    match spec_parse_response_list(b.skip(4)) {
                        Err(e) => Err(e),
                        Ok(rest) => Ok(seq![op] + rest),
                    }
                }
            },
        }
    }
}

/// An ordered list of register operations for the request direction.
#[derive(Clone, Debug, PartialEq)]
pub struct RegOpRequestList {
    inner: Vec<RegOpRequest>,
}

/// An ordered list of register operations for the response direction.
#[derive(Clone, Debug, PartialEq)]
pub struct RegOpResponseList {
    inner: Vec<RegOpResponse>,
}

impl View for RegOpRequestList {
    type V = Seq<RegOpRequest>;

    closed spec fn view(&self) -> Seq<RegOpRequest> {
        self.inner@
    }
}

impl View for RegOpResponseList {
    type V = Seq<RegOpResponse>;

    closed spec fn view(&self) -> Seq<RegOpResponse> {
        self.inner@
    }
}

impl RegOpRequestList {
    pub fn new() -> (r: Self)
        ensures
            r@ == Seq::<RegOpRequest>::empty(),
    {
        let r = RegOpRequestList { inner: Vec::new() };
        proof {
            assert(r@ =~= Seq::<RegOpRequest>::empty());
        }
        r
    }

    /// Append one operation at the end of the list.
    pub fn add_regop(&mut self, regop: RegOpRequest)
        ensures
            final(self)@ == old(self)@.push(regop),
    {
        self.inner.push(regop);
    }

    pub fn len(&self) -> (n: usize)
        ensures
            n == self@.len(),
    {
        self.inner.len()
    }

    /// The operation at position `i`.
    pub fn op(&self, i: usize) -> (r: &RegOpRequest)
        requires
            i < self@.len(),
        ensures
            *r == self@[i as int],
    {
        &self.inner[i]
    }

    /// The operations as a plain vector.
    pub fn entries(&self) -> (r: &Vec<RegOpRequest>)
        ensures
            r@ == self@,
    {
        &self.inner
    }

    /// The wire size of the list: 4 bytes per entry plus the sentinel.
    pub fn wire_size(&self) -> (n: usize)
        requires
            4 * self@.len() + 4 <= usize::MAX,
        ensures
            n == 4 * (self@.len() + 1),
    {
        (self.inner.len() + 1) * 4
    }

    /// Encode the list into `buf` at `offset`: the entries in order,
    /// then the sentinel.
    pub fn marshal(&self, buf: &mut Vec<u8>, offset: usize) -> (n: usize)
        requires
            offset + 4 * self@.len() + 4 <= old(buf)@.len(),
        ensures
            n == 4 * (self@.len() + 1),
            final(buf)@ == seq_write(old(buf)@, offset as int, spec_request_list_bytes(self@)),
    {
        let n0: usize = buf.len();
        let _cap: usize = buf.len();
        let mut i: usize = 0;
        while i < self.inner.len()
            invariant
                i <= self@.len(),
                offset + 4 * self@.len() + 4 <= buf@.len(),
                buf@.len() == old(buf)@.len(),
                _cap == buf@.len(),
                _cap == buf@.len(),
                forall|t: int| 0 <= t < offset ==> buf@[t] == old(buf)@[t],
                forall|t: int| offset + 4 * i <= t < buf@.len() ==> buf@[t] == old(buf)@[t],
                forall|k: int, j: int|
                    0 <= k < i && 0 <= j < 4 ==> buf@[offset + 4 * k + j]
                        == spec_regop_request_bytes(self@[k])[j],
            decreases self@.len() - i,
        {
            let ghost pre = buf@;
            let op = self.inner[i];
            op.marshal(buf, offset + 4 * i);
            proof {
                lemma_seq_write_index(pre, offset as int + 4 * i as int, spec_regop_request_bytes(op));
            }
            i = i + 1;
        }
        let base = offset + 4 * i;
        let ghost pre = buf@;
        buf.set(base, 0xFF);
        buf.set(base + 1, 0xFF);
        buf.set(base + 2, 0xFF);
        buf.set(base + 3, 0xFF);
        proof {
            lemma_request_ops_bytes_index(self@);
            let target = seq_write(old(buf)@, offset as int, spec_request_list_bytes(self@));
            lemma_seq_write_index(old(buf)@, offset as int, spec_request_list_bytes(self@));
            assert forall|t: int| 0 <= t < buf@.len() implies buf@[t] == target[t] by {
                let off = offset as int;
                let nops = self@.len() as int;
                if off <= t < off + 4 * nops {
                    let d = t - off;
                    let k = d / 4;
                    let j = d % 4;
                    assert(d == 4 * k + j && 0 <= j < 4 && 0 <= k < nops);
                    assert(buf@[off + 4 * k + j] == spec_regop_request_bytes(self@[k])[j]);
                    assert(spec_request_ops_bytes(self@)[4 * k + j] == spec_regop_request_bytes(
                        self@[k],
                    )[j]);
                }
            };
            assert(buf@ =~= target);
        }
        4 * i + 4
    }

    /// Decode a request list from `buffer`, stopping at the sentinel or
    /// when fewer than 4 bytes remain.
    pub fn unmarshal(buffer: &[u8]) -> (r: Result<RegOpRequestList, RmuError>)
        ensures
            match r {
                Ok(l) => spec_parse_request_list(buffer@) == Ok::<Seq<RegOpRequest>, RmuError>(l@),
                Err(e) => spec_parse_request_list(buffer@) == Err::<Seq<RegOpRequest>, RmuError>(e),
            },
        decreases buffer@.len(),
    {
        if buffer.len() < 4 {
            let l = RegOpRequestList { inner: Vec::new() };
            proof {
                assert(l@ =~= Seq::<RegOpRequest>::empty());
            }
            return Ok(l);
        }
        match RegOpRequest::unmarshal(buffer) {
            Err(e) => Err(e),
            Ok(op) => {
                if op == RegOpRequest::EndOfList {
                    let l = RegOpRequestList { inner: Vec::new() };
                    proof {
                        assert(l@ =~= Seq::<RegOpRequest>::empty());
                    }
                    Ok(l)
                } else {
                    let rest = slice_subrange(buffer, 4, buffer.len());
                    proof {
                        assert(rest@ =~= buffer@.skip(4));
                    }
                    match Self::unmarshal(rest) {
                        Err(e) => Err(e),
                        Ok(mut l) => {
                            let ghost tail = l@;
                            l.inner.insert(0, op);
                            proof {
                                assert(l@ =~= seq![op] + tail);
                            }
                            Ok(l)
                        },
                    }
                }
            },
        }
    }
}

impl RegOpResponseList {
    pub fn new() -> (r: Self)
        ensures
            r@ == Seq::<RegOpResponse>::empty(),
    {
        let r = RegOpResponseList { inner: Vec::new() };
        proof {
            assert(r@ =~= Seq::<RegOpResponse>::empty());
        }
        r
    }

    /// Append one operation at the end of the list.
    pub fn add_regop(&mut self, regop: RegOpResponse)
        ensures
            final(self)@ == old(self)@.push(regop),
    {
        self.inner.push(regop);
    }

    pub fn len(&self) -> (n: usize)
        ensures
            n == self@.len(),
    {
        self.inner.len()
    }

    /// The operation at position `i`.
    pub fn op(&self, i: usize) -> (r: &RegOpResponse)
        requires
            i < self@.len(),
        ensures
            *r == self@[i as int],
    {
        &self.inner[i]
    }

    /// The operations as a plain vector.
    pub fn entries(&self) -> (r: &Vec<RegOpResponse>)
        ensures
            r@ == self@,
    {
        &self.inner
    }

    /// The wire size of the list: 4 bytes per entry plus the sentinel.
    pub fn wire_size(&self) -> (n: usize)
        requires
            4 * self@.len() + 4 <= usize::MAX,
        ensures
            n == 4 * (self@.len() + 1),
    {
        (self.inner.len() + 1) * 4
    }

    /// Encode the list into `buf` at `offset`: the entries in order,
    /// then the sentinel.
    pub fn marshal(&self, buf: &mut Vec<u8>, offset: usize) -> (n: usize)
        requires
            offset + 4 * self@.len() + 4 <= old(buf)@.len(),
        ensures
            n == 4 * (self@.len() + 1),
            final(buf)@ == seq_write(old(buf)@, offset as int, spec_response_list_bytes(self@)),
    {
        let _cap: usize = buf.len();
        let mut i: usize = 0;
        while i < self.inner.len()
            invariant
                i <= self@.len(),
                offset + 4 * self@.len() + 4 <= buf@.len(),
                buf@.len() == old(buf)@.len(),
                _cap == buf@.len(),
                forall|t: int| 0 <= t < offset ==> buf@[t] == old(buf)@[t],
                forall|t: int| offset + 4 * i <= t < buf@.len() ==> buf@[t] == old(buf)@[t],
                forall|k: int, j: int|
                    0 <= k < i && 0 <= j < 4 ==> buf@[offset + 4 * k + j]
                        == spec_regop_response_bytes(self@[k])[j],
            decreases self@.len() - i,
        {
            let ghost pre = buf@;
            let op = self.inner[i];
            op.marshal(buf, offset + 4 * i);
            proof {
                lemma_seq_write_index(pre, offset as int + 4 * i as int, spec_regop_response_bytes(op));
            }
            i = i + 1;
        }
        let base = offset + 4 * i;
        buf.set(base, 0xFF);
        buf.set(base + 1, 0xFF);
        buf.set(base + 2, 0xFF);
        buf.set(base + 3, 0xFF);
        proof {
            lemma_response_ops_bytes_index(self@);
            let target = seq_write(old(buf)@, offset as int, spec_response_list_bytes(self@));
            lemma_seq_write_index(old(buf)@, offset as int, spec_response_list_bytes(self@));
            assert forall|t: int| 0 <= t < buf@.len() implies buf@[t] == target[t] by {
                let off = offset as int;
                let nops = self@.len() as int;
                if off <= t < off + 4 * nops {
                    let d = t - off;
                    let k = d / 4;
                    let j = d % 4;
                    assert(d == 4 * k + j && 0 <= j < 4 && 0 <= k < nops);
                    assert(buf@[off + 4 * k + j] == spec_regop_response_bytes(self@[k])[j]);
                    assert(spec_response_ops_bytes(self@)[4 * k + j] == spec_regop_response_bytes(
                        self@[k],
                    )[j]);
                }
            };
            assert(buf@ =~= target);
        }
        4 * i + 4
    }

    /// Decode a response list from `buffer`: stop at the sentinel, when
    /// fewer than 4 bytes remain, or right after a failed wait entry.
    pub fn unmarshal(buffer: &[u8]) -> (r: Result<RegOpResponseList, RmuError>)
        ensures
            match r {
                Ok(l) => spec_parse_response_list(buffer@) == Ok::<Seq<RegOpResponse>, RmuError>(
                    l@,
                ),
                Err(e) => spec_parse_response_list(buffer@) == Err::<Seq<RegOpResponse>, RmuError>(
                    e,
                ),
            },
        decreases buffer@.len(),
    {
        if buffer.len() < 4 {
            let l = RegOpResponseList { inner: Vec::new() };
            proof {
                assert(l@ =~= Seq::<RegOpResponse>::empty());
            }
            return Ok(l);
        }
        match RegOpResponse::unmarshal(buffer) {
            Err(e) => Err(e),
            Ok(op) => {
                if op == RegOpResponse::EndOfList {
                    let l = RegOpResponseList { inner: Vec::new() };
                    proof {
                        assert(l@ =~= Seq::<RegOpResponse>::empty());
                    }
                    Ok(l)
                } else if op.is_failed_wait() {
                    let mut inner: Vec<RegOpResponse> = Vec::new();
                    inner.push(op);
                    let l = RegOpResponseList { inner };
                    proof {
                        assert(l@ =~= seq![op]);
                    }
                    Ok(l)
                } else {
                    let rest = slice_subrange(buffer, 4, buffer.len());
                    proof {
                        assert(rest@ =~= buffer@.skip(4));
                    }
                    match Self::unmarshal(rest) {
                        Err(e) => Err(e),
                        Ok(mut l) => {
                            let ghost tail = l@;
                            l.inner.insert(0, op);
                            proof {
                                assert(l@ =~= seq![op] + tail);
                            }
                            Ok(l)
                        },
                    }
                }
            },
        }
    }
}

/// Round trip for request lists: a list of in-range entries, none of
/// them the sentinel, is recovered exactly by decoding its own encoding.
pub proof fn lemma_request_list_roundtrip(ops: Seq<RegOpRequest>)
    requires
        forall|i: int|
            0 <= i < ops.len() ==> regop_request_in_range(#[trigger] ops[i]) && ops[i]
                != RegOpRequest::EndOfList,
    ensures
        spec_parse_request_list(spec_request_list_bytes(ops)) == Ok::<
            Seq<RegOpRequest>,
            RmuError,
        >(ops),
    decreases ops.len(),
{
    let b = spec_request_list_bytes(ops);
    lemma_request_ops_bytes_index(ops);
    if ops.len() == 0 {
        assert(b =~= spec_sentinel());
        lemma_sentinel_unique(b);
        assert(ops =~= Seq::<RegOpRequest>::empty());
    } else {
        let head = spec_regop_request_bytes(ops[0]);
        assert(head.len() == 4);
        assert(b[0] == head[0] && b[1] == head[1] && b[2] == head[2] && b[3] == head[3]) by {
            assert(spec_request_ops_bytes(ops)[4 * 0int + 0] == head[0]);
            assert(spec_request_ops_bytes(ops)[4 * 0int + 1] == head[1]);
            assert(spec_request_ops_bytes(ops)[4 * 0int + 2] == head[2]);
            assert(spec_request_ops_bytes(ops)[4 * 0int + 3] == head[3]);
        };
        lemma_regop_request_roundtrip(ops[0]);
        assert(spec_parse_regop_request(b) == spec_parse_regop_request(head));
        assert(b.skip(4) =~= spec_request_list_bytes(ops.skip(1))) by {
            lemma_request_ops_bytes_index(ops.skip(1));
            assert forall|t: int| 0 <= t < b.len() - 4 implies b.skip(4)[t]
                == spec_request_list_bytes(ops.skip(1))[t] by {
                if t < 4 * (ops.len() - 1) {
                    let k = t / 4;
                    let j = t % 4;
                    assert(t == 4 * k + j && 0 <= j < 4 && 0 <= k < ops.len() - 1);
                    assert(spec_request_ops_bytes(ops)[4 * (k + 1) + j]
                        == spec_regop_request_bytes(ops[k + 1])[j]);
                    assert(spec_request_ops_bytes(ops.skip(1))[4 * k + j]
                        == spec_regop_request_bytes(ops.skip(1)[k])[j]);
                }
            };
        };
        lemma_request_list_roundtrip(ops.skip(1));
        assert(seq![ops[0]] + ops.skip(1) =~= ops);
    }
}

/// Round trip for response lists: a list of in-range entries with no
/// sentinel and no failed wait is recovered exactly by decoding its own
/// encoding.  (A list holding a failed wait decodes to the prefix that
/// ends right after it: that truncation is part of the decode contract.)
pub proof fn lemma_response_list_roundtrip(ops: Seq<RegOpResponse>)
    requires
        forall|i: int|
            0 <= i < ops.len() ==> regop_response_in_range(#[trigger] ops[i]) && ops[i]
                != RegOpResponse::EndOfList && !spec_is_failed_wait(ops[i]),
    ensures
        spec_parse_response_list(spec_response_list_bytes(ops)) == Ok::<
            Seq<RegOpResponse>,
            RmuError,
        >(ops),
    decreases ops.len(),
{
    let b = spec_response_list_bytes(ops);
    lemma_response_ops_bytes_index(ops);
    if ops.len() == 0 {
        assert(b =~= spec_sentinel());
        lemma_sentinel_unique(b);
        assert(ops =~= Seq::<RegOpResponse>::empty());
    } else {
        let head = spec_regop_response_bytes(ops[0]);
        assert(head.len() == 4);
        assert(b[0] == head[0] && b[1] == head[1] && b[2] == head[2] && b[3] == head[3]) by {
            assert(spec_response_ops_bytes(ops)[4 * 0int + 0] == head[0]);
            assert(spec_response_ops_bytes(ops)[4 * 0int + 1] == head[1]);
            assert(spec_response_ops_bytes(ops)[4 * 0int + 2] == head[2]);
            assert(spec_response_ops_bytes(ops)[4 * 0int + 3] == head[3]);
        };
        lemma_regop_response_roundtrip(ops[0]);
        assert(spec_parse_regop_response(b) == spec_parse_regop_response(head));
        assert(b.skip(4) =~= spec_response_list_bytes(ops.skip(1))) by {
            lemma_response_ops_bytes_index(ops.skip(1));
            assert forall|t: int| 0 <= t < b.len() - 4 implies b.skip(4)[t]
                == spec_response_list_bytes(ops.skip(1))[t] by {
                if t < 4 * (ops.len() - 1) {
                    let k = t / 4;
                    let j = t % 4;
                    assert(t == 4 * k + j && 0 <= j < 4 && 0 <= k < ops.len() - 1);
                    assert(spec_response_ops_bytes(ops)[4 * (k + 1) + j]
                        == spec_regop_response_bytes(ops[k + 1])[j]);
                    assert(spec_response_ops_bytes(ops.skip(1))[4 * k + j]
                        == spec_regop_response_bytes(ops.skip(1)[k])[j]);
                }
            };
        };
        lemma_response_list_roundtrip(ops.skip(1));
        assert(seq![ops[0]] + ops.skip(1) =~= ops);
    }
}

} // verus!
