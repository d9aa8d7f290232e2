//! Codec for the fixed 28-byte request and response frame headers.
//!
//! Both directions share one skeleton; they differ in a few byte
//! positions: the request direction sets a constant tag in the device-id
//! byte and a fixed `0xFA` marker, while the response direction carries a
//! `dsa_code` split across bytes 17 and 18 and a product number in place
//! of the second reserved field.  `device_id` is masked to 5 bits and
//! `priority` to 3 bits on both encode and decode; reserved positions are
//! zero-filled on encode and ignored on decode.

use vstd::prelude::*;

use crate::error::RmuError;
use crate::message_code::MessageCode;
use crate::wire::{
    lemma_be16_of_parts, lemma_seq_write_index, read_be16, seq_write, spec_be16, spec_be16_hi,
    spec_be16_lo,
};

verus! {

broadcast use vstd::array::group_array_axioms;

/// Both header variants occupy exactly this many bytes on the wire.
pub const HEADER_WIRE_SIZE: usize = 28;

#[derive(Clone, Copy, Debug, PartialEq)]
pub struct RequestHeader {
    pub destination_address: [u8; 6],
    pub source_address: [u8; 6],
    pub ether_type: u16,
    pub device_id: u8,
    pub priority: u8,
    pub sequence_number: u8,
    pub length_type: u16,
    pub format: u16,
    pub code: u16,
}

/// The 28 bytes that `RequestHeader::marshal` writes.
pub open spec fn spec_request_header_bytes(h: RequestHeader) -> Seq<u8> {
    seq![
        h.destination_address@[0],
        h.destination_address@[1],
        h.destination_address@[2],
        h.destination_address@[3],
        h.destination_address@[4],
        h.destination_address@[5],
        h.source_address@[0],
        h.source_address@[1],
        h.source_address@[2],
        h.source_address@[3],
        h.source_address@[4],
        h.source_address@[5],
        spec_be16_hi(h.ether_type),
        spec_be16_lo(h.ether_type),
        0u8,
        0u8,
        (h.device_id & 0x1F) | 0x40,
        0xFAu8,
        ((h.priority & 0x07) << 5u8) | 0x0F,
        h.sequence_number,
        spec_be16_hi(h.length_type),
        spec_be16_lo(h.length_type),
        spec_be16_hi(h.format),
        spec_be16_lo(h.format),
        0u8,
        0u8,
        spec_be16_hi(h.code),
        spec_be16_lo(h.code),
    ]
}

/// What each field of a decoded request header is, as a function of the
/// first 28 bytes of `b`.
pub open spec fn parses_as_request_header(b: Seq<u8>, h: RequestHeader) -> bool
    recommends
        b.len() >= 28,
{
    &&& h.destination_address@ == b.subrange(0, 6)
    &&& h.source_address@ == b.subrange(6, 12)
    &&& h.ether_type == spec_be16(b[12], b[13])
    &&& h.device_id == b[16] & 0x1F
    &&& h.priority == (b[18] & 0xE0) >> 5u8
    &&& h.sequence_number == b[19]
    &&& h.length_type == spec_be16(b[20], b[21])
    &&& h.format == spec_be16(b[22], b[23])
    &&& h.code == spec_be16(b[26], b[27])
}

impl RequestHeader {
    pub fn destination_address(&self) -> (r: [u8; 6])
        ensures
            r == self.destination_address,
    {
        self.destination_address
    }

    pub fn set_destination_address(&mut self, addr: &[u8; 6])
        ensures
            *final(self) == (RequestHeader { destination_address: *addr, ..*old(self) }),
    {
        self.destination_address = *addr;
    }

    pub fn source_address(&self) -> (r: [u8; 6])
        ensures
            r == self.source_address,
    {
        self.source_address
    }

    pub fn set_source_address(&mut self, addr: &[u8; 6])
        ensures
            *final(self) == (RequestHeader { source_address: *addr, ..*old(self) }),
    {
        self.source_address = *addr;
    }

    pub fn ether_type(&self) -> (r: u16)
        ensures
            r == self.ether_type,
    {
        self.ether_type
    }

    pub fn set_ether_type(&mut self, val: u16)
        ensures
            *final(self) == (RequestHeader { ether_type: val, ..*old(self) }),
    {
        self.ether_type = val;
    }

    pub fn device_id(&self) -> (r: u8)
        ensures
            r == self.device_id,
    {
        self.device_id
    }

    pub fn set_device_id(&mut self, val: u8)
        ensures
            *final(self) == (RequestHeader { device_id: val, ..*old(self) }),
    {
        self.device_id = val;
    }

    pub fn priority(&self) -> (r: u8)
        ensures
            r == self.priority,
    {
        self.priority
    }

    pub fn set_priority(&mut self, val: u8)
        ensures
            *final(self) == (RequestHeader { priority: val, ..*old(self) }),
    {
        self.priority = val;
    }

    pub fn sequence_number(&self) -> (r: u8)
        ensures
            r == self.sequence_number,
    {
        self.sequence_number
    }

    pub fn set_sequence_number(&mut self, val: u8)
        ensures
            *final(self) == (RequestHeader { sequence_number: val, ..*old(self) }),
    {
        self.sequence_number = val;
    }

    pub fn length_type(&self) -> (r: u16)
        ensures
            r == self.length_type,
    {
        self.length_type
    }

    pub fn set_length_type(&mut self, val: u16)
        ensures
            *final(self) == (RequestHeader { length_type: val, ..*old(self) }),
    {
        self.length_type = val;
    }

    pub fn format(&self) -> (r: u16)
        ensures
            r == self.format,
    {
        self.format
    }

    pub fn set_format(&mut self, val: u16)
        ensures
            *final(self) == (RequestHeader { format: val, ..*old(self) }),
    {
        self.format = val;
    }

    pub fn code(&self) -> (r: u16)
        ensures
            r == self.code,
    {
        self.code
    }

    pub fn set_code(&mut self, val: u16)
        ensures
            *final(self) == (RequestHeader { code: val, ..*old(self) }),
    {
        self.code = val;
    }

    /// The message code named by the header's `code` field.
    pub fn message_code(&self) -> (r: Result<MessageCode, RmuError>)
        ensures
            match r {
                Ok(c) => MessageCode::spec_is_known(self.code) && c.spec_value() == self.code,
                Err(e) => !MessageCode::spec_is_known(self.code) && e
                    == (RmuError::UnknownMessageCode { code: self.code }),
            },
    {
        MessageCode::from_u16(self.code)
    }

    pub fn wire_size(&self) -> (n: usize)
        ensures
            n == HEADER_WIRE_SIZE,
    {
        HEADER_WIRE_SIZE
    }

    /// Encode the header into the first 28 bytes of `buffer`.
    pub fn marshal(&self, buffer: &mut Vec<u8>) -> (n: usize)
        requires
            old(buffer)@.len() >= 28,
        ensures
            n == HEADER_WIRE_SIZE,
            final(buffer)@ == seq_write(old(buffer)@, 0, spec_request_header_bytes(*self)),
    {
        let mut i: usize = 0;
        while i < 6
            invariant
                i <= 6,
                buffer@.len() == old(buffer)@.len() >= 28,
                forall|j: int| 0 <= j < i ==> buffer@[j] == self.destination_address@[j],
                forall|j: int| i <= j < buffer@.len() ==> buffer@[j] == old(buffer)@[j],
            decreases 6 - i,
        {
            buffer.set(i, self.destination_address[i]);
            i = i + 1;
        }
        let mut i: usize = 0;
        while i < 6
            invariant
                i <= 6,
                buffer@.len() == old(buffer)@.len() >= 28,
                forall|j: int| 0 <= j < 6 ==> buffer@[j] == self.destination_address@[j],
                forall|j: int| 0 <= j < i ==> buffer@[6 + j] == self.source_address@[j],
                forall|j: int| 6 + i <= j < buffer@.len() ==> buffer@[j] == old(buffer)@[j],
            decreases 6 - i,
        {
            buffer.set(6 + i, self.source_address[i]);
            i = i + 1;
        }
        buffer.set(12, ((self.ether_type >> 8u16) & 0xFF) as u8);
        buffer.set(13, (self.ether_type & 0xFF) as u8);
        buffer.set(14, 0x00);
        buffer.set(15, 0x00);
        buffer.set(16, (self.device_id & 0x1F) | 0x40);
        buffer.set(17, 0xFA);
        buffer.set(18, ((self.priority & 0x07) << 5u8) | 0x0F);
        buffer.set(19, self.sequence_number);
        buffer.set(20, ((self.length_type >> 8u16) & 0xFF) as u8);
        buffer.set(21, (self.length_type & 0xFF) as u8);
        buffer.set(22, ((self.format >> 8u16) & 0xFF) as u8);
        buffer.set(23, (self.format & 0xFF) as u8);
        buffer.set(24, 0x00);
        buffer.set(25, 0x00);
        buffer.set(26, ((self.code >> 8u16) & 0xFF) as u8);
        buffer.set(27, (self.code & 0xFF) as u8);
        proof {
            lemma_seq_write_index(old(buffer)@, 0, spec_request_header_bytes(*self));
            assert(buffer@ =~= seq_write(old(buffer)@, 0, spec_request_header_bytes(*self)));
        }
        HEADER_WIRE_SIZE
    }

    /// Decode a request header from the first 28 bytes of `buffer`.
    pub fn unmarshal(buffer: &[u8]) -> (r: Result<RequestHeader, RmuError>)
        ensures
            match r {
                Ok(h) => buffer@.len() >= 28 && parses_as_request_header(buffer@, h),
                Err(e) => buffer@.len() < 28 && e == RmuError::MalformedBuffer,
            },
    {
        if buffer.len() < 28 {
            return Err(RmuError::MalformedBuffer);
        }
        let destination_address: [u8; 6] = [
            buffer[0],
            buffer[1],
            buffer[2],
            buffer[3],
            buffer[4],
            buffer[5],
        ];
        let source_address: [u8; 6] = [
            buffer[6],
            buffer[7],
            buffer[8],
            buffer[9],
            buffer[10],
            buffer[11],
        ];
        proof {
            assert(destination_address@ =~= buffer@.subrange(0, 6));
            assert(source_address@ =~= buffer@.subrange(6, 12));
        }
        let ether_type = read_be16(buffer, 12);
        let device_id = buffer[16] & 0x1F;
        let priority = (buffer[18] & 0xE0) >> 5u8;
        let sequence_number = buffer[19];
        let length_type = read_be16(buffer, 20);
        let format = read_be16(buffer, 22);
        let code = read_be16(buffer, 26);
        Ok(
            RequestHeader {
                destination_address,
                source_address,
                ether_type,
                device_id,
                priority,
                sequence_number,
                length_type,
                format,
                code,
            },
        )
    }
}

impl Default for RequestHeader {
    /// The neutral request header: zero addresses, the protocol
    /// EtherType, the base length of 6, and format 1.
    fn default() -> (r: Self)
        ensures
            r.destination_address@ == seq![0u8, 0u8, 0u8, 0u8, 0u8, 0u8],
            r.source_address@ == seq![0u8, 0u8, 0u8, 0u8, 0u8, 0u8],
            r.ether_type == 0x9101,
            r.device_id == 0,
            r.priority == 0,
            r.sequence_number == 0,
            r.length_type == 0x0006,
            r.format == 0x0001,
            r.code == 0x0000,
    {
        let r = RequestHeader {
            destination_address: [0u8, 0u8, 0u8, 0u8, 0u8, 0u8],
            source_address: [0u8, 0u8, 0u8, 0u8, 0u8, 0u8],
            ether_type: 0x9101,
            device_id: 0x00,
            priority: 0x00,
            sequence_number: 0x00,
            length_type: 0x0006,
            format: 0x0001,
            code: 0x0000,
        };
        proof {
            assert(r.destination_address@ =~= seq![0u8, 0u8, 0u8, 0u8, 0u8, 0u8]);
            assert(r.source_address@ =~= seq![0u8, 0u8, 0u8, 0u8, 0u8, 0u8]);
        }
        r
    }
}

/// Round trip for request headers: a header whose fields are within their
/// wire bit widths is recovered exactly by decoding its own encoding.
pub proof fn lemma_request_header_roundtrip(h: RequestHeader, h2: RequestHeader)
    requires
        h.device_id < 32,
        h.priority < 8,
        parses_as_request_header(spec_request_header_bytes(h), h2),
    ensures
        h2 == h,
{
    let b = spec_request_header_bytes(h);
    assert(b.subrange(0, 6) =~= h.destination_address@);
    assert(b.subrange(6, 12) =~= h.source_address@);
    lemma_be16_of_parts(h.ether_type);
    lemma_be16_of_parts(h.length_type);
    lemma_be16_of_parts(h.format);
    lemma_be16_of_parts(h.code);
    let d = h.device_id;
    assert(d < 32 ==> ((d & 0x1F) | 0x40) & 0x1F == d) by (bit_vector);
    let p = h.priority;
    assert(p < 8 ==> ((((p & 0x07) << 5u8) | 0x0F) & 0xE0) >> 5u8 == p) by (bit_vector);
    assert(h2.destination_address =~= h.destination_address);
    assert(h2.source_address =~= h.source_address);
}

#[derive(Clone, Copy, Debug, PartialEq)]
pub struct ResponseHeader {
    pub destination_address: [u8; 6],
    pub source_address: [u8; 6],
    pub ether_type: u16,
    pub device_id: u8,
    pub dsa_code: u8,
    pub priority: u8,
    pub sequence_number: u8,
    pub length_type: u16,
    pub product_number: u16,
    pub format: u16,
    pub code: u16,
}

/// The 28 bytes that `ResponseHeader::marshal` writes.
pub open spec fn spec_response_header_bytes(h: ResponseHeader) -> Seq<u8> {
    seq![
        h.destination_address@[0],
        h.destination_address@[1],
        h.destination_address@[2],
        h.destination_address@[3],
        h.destination_address@[4],
        h.destination_address@[5],
        h.source_address@[0],
        h.source_address@[1],
        h.source_address@[2],
        h.source_address@[3],
        h.source_address@[4],
        h.source_address@[5],
        spec_be16_hi(h.ether_type),
        spec_be16_lo(h.ether_type),
        0u8,
        0u8,
        h.device_id & 0x1F,
        h.dsa_code & 0x06,
        ((h.priority & 0x07) << 5u8) | ((h.dsa_code & 0x01) << 4u8) | 0x0F,
        h.sequence_number,
        spec_be16_hi(h.length_type),
        spec_be16_lo(h.length_type),
        spec_be16_hi(h.format),
        spec_be16_lo(h.format),
        spec_be16_hi(h.product_number),
        spec_be16_lo(h.product_number),
        spec_be16_hi(h.code),
        spec_be16_lo(h.code),
    ]
}

/// What each field of a decoded response header is, as a function of the
/// first 28 bytes of `b`.
pub open spec fn parses_as_response_header(b: Seq<u8>, h: ResponseHeader) -> bool
    recommends
        b.len() >= 28,
{
    &&& h.destination_address@ == b.subrange(0, 6)
    &&& h.source_address@ == b.subrange(6, 12)
    &&& h.ether_type == spec_be16(b[12], b[13])
    &&& h.device_id == b[16] & 0x1F
    &&& h.dsa_code == (b[17] & 0x06) | ((b[18] & 0x10) >> 4u8)
    &&& h.priority == (b[18] & 0xE0) >> 5u8
    &&& h.sequence_number == b[19]
    &&& h.length_type == spec_be16(b[20], b[21])
    &&& h.format == spec_be16(b[22], b[23])
    &&& h.product_number == spec_be16(b[24], b[25])
    &&& h.code == spec_be16(b[26], b[27])
}

impl ResponseHeader {
    pub fn destination_address(&self) -> (r: [u8; 6])
        ensures
            r == self.destination_address,
    {
        self.destination_address
    }

    pub fn set_destination_address(&mut self, addr: &[u8; 6])
        ensures
            *final(self) == (ResponseHeader { destination_address: *addr, ..*old(self) }),
    {
        self.destination_address = *addr;
    }

    pub fn source_address(&self) -> (r: [u8; 6])
        ensures
            r == self.source_address,
    {
        self.source_address
    }

    pub fn set_source_address(&mut self, addr: &[u8; 6])
        ensures
            *final(self) == (ResponseHeader { source_address: *addr, ..*old(self) }),
    {
        self.source_address = *addr;
    }

    pub fn ether_type(&self) -> (r: u16)
        ensures
            r == self.ether_type,
    {
        self.ether_type
    }

    pub fn set_ether_type(&mut self, val: u16)
        ensures
            *final(self) == (ResponseHeader { ether_type: val, ..*old(self) }),
    {
        self.ether_type = val;
    }

    pub fn device_id(&self) -> (r: u8)
        ensures
            r == self.device_id,
    {
        self.device_id
    }

    pub fn set_device_id(&mut self, val: u8)
        ensures
            *final(self) == (ResponseHeader { device_id: val, ..*old(self) }),
    {
        self.device_id = val;
    }

    pub fn dsa_code(&self) -> (r: u8)
        ensures
            r == self.dsa_code,
    {
        self.dsa_code
    }

    pub fn set_dsa_code(&mut self, val: u8)
        ensures
            *final(self) == (ResponseHeader { dsa_code: val, ..*old(self) }),
    {
        self.dsa_code = val;
    }

    pub fn priority(&self) -> (r: u8)
        ensures
            r == self.priority,
    {
        self.priority
    }

    pub fn set_priority(&mut self, val: u8)
        ensures
            *final(self) == (ResponseHeader { priority: val, ..*old(self) }),
    {
        self.priority = val;
    }

    pub fn sequence_number(&self) -> (r: u8)
        ensures
            r == self.sequence_number,
    {
        self.sequence_number
    }

    pub fn set_sequence_number(&mut self, val: u8)
        ensures
            *final(self) == (ResponseHeader { sequence_number: val, ..*old(self) }),
    {
        self.sequence_number = val;
    }

    pub fn length_type(&self) -> (r: u16)
        ensures
            r == self.length_type,
    {
        self.length_type
    }

    pub fn set_length_type(&mut self, val: u16)
        ensures
            *final(self) == (ResponseHeader { length_type: val, ..*old(self) }),
    {
        self.length_type = val;
    }

    pub fn product_number(&self) -> (r: u16)
        ensures
            r == self.product_number,
    {
        self.product_number
    }

    pub fn set_product_number(&mut self, val: u16)
        ensures
            *final(self) == (ResponseHeader { product_number: val, ..*old(self) }),
    {
        self.product_number = val;
    }

    pub fn format(&self) -> (r: u16)
        ensures
            r == self.format,
    {
        self.format
    }

    pub fn set_format(&mut self, val: u16)
        ensures
            *final(self) == (ResponseHeader { format: val, ..*old(self) }),
    {
        self.format = val;
    }

    pub fn code(&self) -> (r: u16)
        ensures
            r == self.code,
    {
        self.code
    }

    pub fn set_code(&mut self, val: u16)
        ensures
            *final(self) == (ResponseHeader { code: val, ..*old(self) }),
    {
        self.code = val;
    }

    /// The message code named by the header's `code` field.
    pub fn message_code(&self) -> (r: Result<MessageCode, RmuError>)
        ensures
            match r {
                Ok(c) => MessageCode::spec_is_known(self.code) && c.spec_value() == self.code,
                Err(e) => !MessageCode::spec_is_known(self.code) && e
                    == (RmuError::UnknownMessageCode { code: self.code }),
            },
    {
        MessageCode::from_u16(self.code)
    }

    pub fn wire_size(&self) -> (n: usize)
        ensures
            n == HEADER_WIRE_SIZE,
    {
        HEADER_WIRE_SIZE
    }

    /// Encode the header into the first 28 bytes of `buffer`.
    pub fn marshal(&self, buffer: &mut Vec<u8>) -> (n: usize)
        requires
            old(buffer)@.len() >= 28,
        ensures
            n == HEADER_WIRE_SIZE,
            final(buffer)@ == seq_write(old(buffer)@, 0, spec_response_header_bytes(*self)),
    {
        let mut i: usize = 0;
        while i < 6
            invariant
                i <= 6,
                buffer@.len() == old(buffer)@.len() >= 28,
                forall|j: int| 0 <= j < i ==> buffer@[j] == self.destination_address@[j],
                forall|j: int| i <= j < buffer@.len() ==> buffer@[j] == old(buffer)@[j],
            decreases 6 - i,
        {
            buffer.set(i, self.destination_address[i]);
            i = i + 1;
        }
        let mut i: usize = 0;
        while i < 6
            invariant
                i <= 6,
                buffer@.len() == old(buffer)@.len() >= 28,
                forall|j: int| 0 <= j < 6 ==> buffer@[j] == self.destination_address@[j],
                forall|j: int| 0 <= j < i ==> buffer@[6 + j] == self.source_address@[j],
                forall|j: int| 6 + i <= j < buffer@.len() ==> buffer@[j] == old(buffer)@[j],
            decreases 6 - i,
        {
            buffer.set(6 + i, self.source_address[i]);
            i = i + 1;
        }
        buffer.set(12, ((self.ether_type >> 8u16) & 0xFF) as u8);
        buffer.set(13, (self.ether_type & 0xFF) as u8);
        buffer.set(14, 0x00);
        buffer.set(15, 0x00);
        buffer.set(16, self.device_id & 0x1F);
        buffer.set(17, self.dsa_code & 0x06);
        buffer.set(18, ((self.priority & 0x07) << 5u8) | ((self.dsa_code & 0x01) << 4u8) | 0x0F);
        buffer.set(19, self.sequence_number);
        buffer.set(20, ((self.length_type >> 8u16) & 0xFF) as u8);
        buffer.set(21, (self.length_type & 0xFF) as u8);
        buffer.set(22, ((self.format >> 8u16) & 0xFF) as u8);
        buffer.set(23, (self.format & 0xFF) as u8);
        buffer.set(24, ((self.product_number >> 8u16) & 0xFF) as u8);
        buffer.set(25, (self.product_number & 0xFF) as u8);
        buffer.set(26, ((self.code >> 8u16) & 0xFF) as u8);
        buffer.set(27, (self.code & 0xFF) as u8);
        proof {
            lemma_seq_write_index(old(buffer)@, 0, spec_response_header_bytes(*self));
            assert(buffer@ =~= seq_write(old(buffer)@, 0, spec_response_header_bytes(*self)));
        }
        HEADER_WIRE_SIZE
    }

    /// Decode a response header from the first 28 bytes of `buffer`.
    pub fn unmarshal(buffer: &[u8]) -> (r: Result<ResponseHeader, RmuError>)
        ensures
            match r {
                Ok(h) => buffer@.len() >= 28 && parses_as_response_header(buffer@, h),
                Err(e) => buffer@.len() < 28 && e == RmuError::MalformedBuffer,
            },
    {
        if buffer.len() < 28 {
            return Err(RmuError::MalformedBuffer);
        }
        let destination_address: [u8; 6] = [
            buffer[0],
            buffer[1],
            buffer[2],
            buffer[3],
            buffer[4],
            buffer[5],
        ];
        let source_address: [u8; 6] = [
            buffer[6],
            buffer[7],
            buffer[8],
            buffer[9],
            buffer[10],
            buffer[11],
        ];
        proof {
            assert(destination_address@ =~= buffer@.subrange(0, 6));
            assert(source_address@ =~= buffer@.subrange(6, 12));
        }
        let ether_type = read_be16(buffer, 12);
        let device_id = buffer[16] & 0x1F;
        let dsa_code = (buffer[17] & 0x06) | ((buffer[18] & 0x10) >> 4u8);
        let priority = (buffer[18] & 0xE0) >> 5u8;
        let sequence_number = buffer[19];
        let length_type = read_be16(buffer, 20);
        let format = read_be16(buffer, 22);
        let product_number = read_be16(buffer, 24);
        let code = read_be16(buffer, 26);
        Ok(
            ResponseHeader {
                destination_address,
                source_address,
                ether_type,
                device_id,
                dsa_code,
                priority,
                sequence_number,
                length_type,
                product_number,
                format,
                code,
            },
        )
    }
}

impl Default for ResponseHeader {
    /// The neutral response header: zero addresses, the protocol
    /// EtherType, dsa code 1, the base length of 6, and format 1.
    fn default() -> (r: Self)
        ensures
            r.destination_address@ == seq![0u8, 0u8, 0u8, 0u8, 0u8, 0u8],
            r.source_address@ == seq![0u8, 0u8, 0u8, 0u8, 0u8, 0u8],
            r.ether_type == 0x9101,
            r.device_id == 0,
            r.dsa_code == 1,
            r.priority == 0,
            r.sequence_number == 0,
            r.length_type == 0x0006,
            r.product_number == 0,
            r.format == 0x0001,
            r.code == 0x0000,
    {
        let r = ResponseHeader {
            destination_address: [0u8, 0u8, 0u8, 0u8, 0u8, 0u8],
            source_address: [0u8, 0u8, 0u8, 0u8, 0u8, 0u8],
            ether_type: 0x9101,
            device_id: 0,
            dsa_code: 1,
            priority: 0,
            sequence_number: 0,
            length_type: 0x0006,
            product_number: 0,
            format: 0x0001,
            code: 0,
        };
        proof {
            assert(r.destination_address@ =~= seq![0u8, 0u8, 0u8, 0u8, 0u8, 0u8]);
            assert(r.source_address@ =~= seq![0u8, 0u8, 0u8, 0u8, 0u8, 0u8]);
        }
        r
    }
}

/// Round trip for response headers: a header whose fields are within
/// their wire bit widths is recovered exactly by decoding its own
/// encoding.
pub proof fn lemma_response_header_roundtrip(h: ResponseHeader, h2: ResponseHeader)
    requires
        h.device_id < 32,
        h.priority < 8,
        h.dsa_code < 4,
        parses_as_response_header(spec_response_header_bytes(h), h2),
    ensures
        h2 == h,
{
    let b = spec_response_header_bytes(h);
    assert(b.subrange(0, 6) =~= h.destination_address@);
    assert(b.subrange(6, 12) =~= h.source_address@);
    lemma_be16_of_parts(h.ether_type);
    lemma_be16_of_parts(h.length_type);
    lemma_be16_of_parts(h.format);
    lemma_be16_of_parts(h.product_number);
    lemma_be16_of_parts(h.code);
    let d = h.device_id;
    assert(d < 32 ==> (d & 0x1F) & 0x1F == d) by (bit_vector);
    let p = h.priority;
    let c = h.dsa_code;
    assert(p < 8 && c < 4 ==> ((((p & 0x07) << 5u8) | ((c & 0x01) << 4u8) | 0x0F) & 0xE0) >> 5u8
        == p) by (bit_vector);
    assert(c < 4 ==> ((c & 0x06) & 0x06) | (((((p & 0x07) << 5u8) | ((c & 0x01) << 4u8) | 0x0F)
        & 0x10) >> 4u8) == c) by (bit_vector);
    assert(h2.destination_address =~= h.destination_address);
    assert(h2.source_address =~= h.source_address);
}

} // verus!
