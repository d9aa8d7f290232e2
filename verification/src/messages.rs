//! The concrete message types: a typed header plus a payload whose shape
//! is fixed by the message code.
//!
//! Every type follows one discipline: `wire_size` is the exact number of
//! bytes `marshal` writes, `marshal` writes them at the front of the
//! caller's buffer and touches nothing else, `unmarshal` recovers each
//! field as a stated function of the input bytes, and `finalize` patches
//! the header's `length_type` by exactly the payload's wire size, so that
//! repeated finalization over different payload types composes.

use vstd::prelude::*;

use crate::error::RmuError;
use crate::header::{
    parses_as_request_header, parses_as_response_header, spec_request_header_bytes,
    spec_response_header_bytes, RequestHeader, ResponseHeader, HEADER_WIRE_SIZE,
};
use crate::message_code::MessageCode;
use crate::regop::{
    spec_parse_request_list, spec_parse_response_list, spec_request_list_bytes,
    spec_response_list_bytes, RegOpRequestList, RegOpResponseList,
};
use crate::wire::{
    lemma_seq_write_concat, lemma_seq_write_index, read_be32, seq_write, spec_be16, spec_be32,
    spec_be32_bytes,
};
use vstd::slice::slice_subrange;

verus! {

/// A request that carries no payload: identify the devices listening on
/// a destination address.
#[derive(Clone, Copy, Debug, PartialEq)]
pub struct GetIdRequest {
    pub header: RequestHeader,
}

impl GetIdRequest {
    pub fn message_code() -> (c: MessageCode)
        ensures
            c == MessageCode::GetId,
    {
        MessageCode::GetId
    }

    pub fn header(&self) -> (r: &RequestHeader)
        ensures
            *r == self.header,
    {
        &self.header
    }

    pub fn wire_size(&self) -> (n: usize)
        ensures
            n == HEADER_WIRE_SIZE,
    {
        HEADER_WIRE_SIZE
    }

    /// Encode the message into the front of `buffer`.
    pub fn marshal(&self, buffer: &mut Vec<u8>) -> (n: usize)
        requires
            old(buffer)@.len() >= 28,
        ensures
            n == HEADER_WIRE_SIZE,
            final(buffer)@ == seq_write(old(buffer)@, 0, spec_request_header_bytes(self.header)),
    {
        self.header.marshal(buffer)
    }

    /// Decode a message from the front of `buffer`.
    pub fn unmarshal(buffer: &[u8]) -> (r: Result<GetIdRequest, RmuError>)
        ensures
            match r {
                Ok(m) => buffer@.len() >= 28 && parses_as_request_header(buffer@, m.header),
                Err(e) => buffer@.len() < 28 && e == RmuError::MalformedBuffer,
            },
    {
        match RequestHeader::unmarshal(buffer) {
            Ok(header) => Ok(GetIdRequest { header }),
            Err(e) => Err(e),
        }
    }

    /// There is no payload, so finalization leaves the header unchanged.
    pub fn finalize(&mut self)
        ensures
            *final(self) == *old(self),
    {
    }

    /// A ready-to-finalize identification request aimed at one device id.
    pub fn build(dmac: &[u8; 6], smac: &[u8; 6], device_id: u8, sequence_number: u8) -> (r:
        GetIdRequest)
        ensures
            r.header.destination_address == *dmac,
            r.header.source_address == *smac,
            r.header.ether_type == 0x9101,
            r.header.device_id == device_id,
            r.header.priority == 0,
            r.header.sequence_number == sequence_number,
            r.header.length_type == 0x0006,
            r.header.format == 0x0000,
            r.header.code == 0x0000,
    {
        let mut m = GetIdRequest::default();
        m.header.set_destination_address(dmac);
        m.header.set_source_address(smac);
        m.header.set_device_id(device_id);
        m.header.set_sequence_number(sequence_number);
        m.finalize();
        m
    }
}

impl Default for GetIdRequest {
    /// The identification request uses format 0, unlike every other
    /// request kind.
    fn default() -> (r: Self)
        ensures
            r.header.destination_address@ == seq![0u8, 0u8, 0u8, 0u8, 0u8, 0u8],
            r.header.source_address@ == seq![0u8, 0u8, 0u8, 0u8, 0u8, 0u8],
            r.header.ether_type == 0x9101,
            r.header.device_id == 0,
            r.header.priority == 0,
            r.header.sequence_number == 0,
            r.header.length_type == 0x0006,
            r.header.format == 0x0000,
            r.header.code == 0x0000,
    {
        let mut header = RequestHeader::default();
        header.set_format(0x0000);
        GetIdRequest { header }
    }
}

/// The identification answer: everything of interest (source address,
/// device id, product number) lives in the response header.
#[derive(Clone, Copy, Debug, PartialEq)]
pub struct GetIdResponse {
    pub header: ResponseHeader,
}

impl GetIdResponse {
    pub fn message_code() -> (c: MessageCode)
        ensures
            c == MessageCode::GetId,
    {
        MessageCode::GetId
    }

    pub fn header(&self) -> (r: &ResponseHeader)
        ensures
            *r == self.header,
    {
        &self.header
    }

    pub fn wire_size(&self) -> (n: usize)
        ensures
            n == HEADER_WIRE_SIZE,
    {
        HEADER_WIRE_SIZE
    }

    /// Encode the message into the front of `buffer`.
    pub fn marshal(&self, buffer: &mut Vec<u8>) -> (n: usize)
        requires
            old(buffer)@.len() >= 28,
        ensures
            n == HEADER_WIRE_SIZE,
            final(buffer)@ == seq_write(old(buffer)@, 0, spec_response_header_bytes(self.header)),
    {
        self.header.marshal(buffer)
    }

    /// Decode a message from the front of `buffer`.
    pub fn unmarshal(buffer: &[u8]) -> (r: Result<GetIdResponse, RmuError>)
        ensures
            match r {
                Ok(m) => buffer@.len() >= 28 && parses_as_response_header(buffer@, m.header),
                Err(e) => buffer@.len() < 28 && e == RmuError::MalformedBuffer,
            },
    {
        match ResponseHeader::unmarshal(buffer) {
            Ok(header) => Ok(GetIdResponse { header }),
            Err(e) => Err(e),
        }
    }

    /// There is no payload, so finalization leaves the header unchanged.
    pub fn finalize(&mut self)
        ensures
            *final(self) == *old(self),
    {
    }
}

impl Default for GetIdResponse {
    fn default() -> (r: Self)
        ensures
            r.header.destination_address@ == seq![0u8, 0u8, 0u8, 0u8, 0u8, 0u8],
            r.header.source_address@ == seq![0u8, 0u8, 0u8, 0u8, 0u8, 0u8],
            r.header.ether_type == 0x9101,
            r.header.device_id == 0,
            r.header.dsa_code == 1,
            r.header.priority == 0,
            r.header.sequence_number == 0,
            r.header.length_type == 0x0006,
            r.header.product_number == 0,
            r.header.format == 0x0001,
            r.header.code == 0x0000,
    {
        GetIdResponse { header: ResponseHeader::default() }
    }
}

/// A request that carries no payload: read the firmware image checksum.
#[derive(Clone, Copy, Debug, PartialEq)]
pub struct VersionReadRequest {
    pub header: RequestHeader,
}

impl VersionReadRequest {
    pub fn message_code() -> (c: MessageCode)
        ensures
            c == MessageCode::VersionRead,
    {
        MessageCode::VersionRead
    }

    pub fn header(&self) -> (r: &RequestHeader)
        ensures
            *r == self.header,
    {
        &self.header
    }

    pub fn wire_size(&self) -> (n: usize)
        ensures
            n == HEADER_WIRE_SIZE,
    {
        HEADER_WIRE_SIZE
    }

    /// Encode the message into the front of `buffer`.
    pub fn marshal(&self, buffer: &mut Vec<u8>) -> (n: usize)
        requires
            old(buffer)@.len() >= 28,
        ensures
            n == HEADER_WIRE_SIZE,
            final(buffer)@ == seq_write(old(buffer)@, 0, spec_request_header_bytes(self.header)),
    {
        self.header.marshal(buffer)
    }

    /// Decode a message from the front of `buffer`.
    pub fn unmarshal(buffer: &[u8]) -> (r: Result<VersionReadRequest, RmuError>)
        ensures
            match r {
                Ok(m) => buffer@.len() >= 28 && parses_as_request_header(buffer@, m.header),
                Err(e) => buffer@.len() < 28 && e == RmuError::MalformedBuffer,
            },
    {
        match RequestHeader::unmarshal(buffer) {
            Ok(header) => Ok(VersionReadRequest { header }),
            Err(e) => Err(e),
        }
    }

    /// There is no payload, so finalization leaves the header unchanged.
    pub fn finalize(&mut self)
        ensures
            *final(self) == *old(self),
    {
    }

    /// A ready-to-finalize version-read request.
    pub fn build(dmac: &[u8; 6], smac: &[u8; 6], device_id: u8, sequence_number: u8) -> (r:
        VersionReadRequest)
        ensures
            r.header.destination_address == *dmac,
            r.header.source_address == *smac,
            r.header.ether_type == 0x9101,
            r.header.device_id == device_id,
            r.header.priority == 0,
            r.header.sequence_number == sequence_number,
            r.header.length_type == 0x0006,
            r.header.format == 0x0001,
            r.header.code == 0xF270,
    {
        let mut m = VersionReadRequest::default();
        m.header.set_destination_address(dmac);
        m.header.set_source_address(smac);
        m.header.set_device_id(device_id);
        m.header.set_sequence_number(sequence_number);
        m.finalize();
        m
    }
}

impl Default for VersionReadRequest {
    fn default() -> (r: Self)
        ensures
            r.header.destination_address@ == seq![0u8, 0u8, 0u8, 0u8, 0u8, 0u8],
            r.header.source_address@ == seq![0u8, 0u8, 0u8, 0u8, 0u8, 0u8],
            r.header.ether_type == 0x9101,
            r.header.device_id == 0,
            r.header.priority == 0,
            r.header.sequence_number == 0,
            r.header.length_type == 0x0006,
            r.header.format == 0x0001,
            r.header.code == 0xF270,
    {
        let mut header = RequestHeader::default();
        header.set_code(0xF270);
        VersionReadRequest { header }
    }
}

/// The version-read answer: the header followed by a 4-byte big-endian
/// checksum of the firmware image.
#[derive(Clone, Copy, Debug, PartialEq)]
pub struct VersionReadResponse {
    pub header: ResponseHeader,
    pub crc32: u32,
}

/// What each field of a decoded version-read response is.
pub open spec fn parses_as_version_read_response(b: Seq<u8>, m: VersionReadResponse) -> bool
    recommends
        b.len() >= 32,
{
    &&& parses_as_response_header(b, m.header)
    &&& m.crc32 == spec_be32(b[28], b[29], b[30], b[31])
}

impl VersionReadResponse {
    pub fn message_code() -> (c: MessageCode)
        ensures
            c == MessageCode::VersionRead,
    {
        MessageCode::VersionRead
    }

    pub fn header(&self) -> (r: &ResponseHeader)
        ensures
            *r == self.header,
    {
        &self.header
    }

    pub fn payload_wire_size(&self) -> (n: usize)
        ensures
            n == 4,
    {
        4
    }

    pub fn wire_size(&self) -> (n: usize)
        ensures
            n == 32,
    {
        32
    }

    /// Encode the message into the front of `buffer`.
    pub fn marshal(&self, buffer: &mut Vec<u8>) -> (n: usize)
        requires
            old(buffer)@.len() >= 32,
        ensures
            n == 32,
            final(buffer)@ == seq_write(
                old(buffer)@,
                0,
                spec_response_header_bytes(self.header) + spec_be32_bytes(self.crc32),
            ),
    {
        self.header.marshal(buffer);
        let ghost mid = buffer@;
        buffer.set(28, ((self.crc32 >> 24u32) & 0xFF) as u8);
        buffer.set(29, ((self.crc32 >> 16u32) & 0xFF) as u8);
        buffer.set(30, ((self.crc32 >> 8u32) & 0xFF) as u8);
        buffer.set(31, (self.crc32 & 0xFF) as u8);
        proof {
            let w = spec_response_header_bytes(self.header) + spec_be32_bytes(self.crc32);
            lemma_seq_write_index(old(buffer)@, 0, spec_response_header_bytes(self.header));
            lemma_seq_write_index(old(buffer)@, 0, w);
            assert(buffer@ =~= seq_write(old(buffer)@, 0, w));
        }
        32
    }

    /// Decode a message from the front of `buffer`.
    pub fn unmarshal(buffer: &[u8]) -> (r: Result<VersionReadResponse, RmuError>)
        ensures
            match r {
                Ok(m) => buffer@.len() >= 32 && parses_as_version_read_response(buffer@, m),
                Err(e) => buffer@.len() < 32 && e == RmuError::MalformedBuffer,
            },
    {
        if buffer.len() < 32 {
            return Err(RmuError::MalformedBuffer);
        }
        let header = match ResponseHeader::unmarshal(buffer) {
            Ok(h) => h,
            Err(e) => {
                return Err(e);
            },
        };
        let crc32 = read_be32(buffer, 28);
        Ok(VersionReadResponse { header, crc32 })
    }

    /// Add the 4-byte payload to the header's length accumulator.
    pub fn finalize(&mut self)
        requires
            old(self).header.length_type + 4 <= u16::MAX,
        ensures
            final(self).header == (ResponseHeader {
                length_type: (old(self).header.length_type + 4) as u16,
                ..old(self).header
            }),
            final(self).crc32 == old(self).crc32,
    {
        let len = self.header.length_type() + 4;
        self.header.set_length_type(len);
    }
}

impl Default for VersionReadResponse {
    fn default() -> (r: Self)
        ensures
            r.header.ether_type == 0x9101,
            r.header.device_id == 0,
            r.header.dsa_code == 1,
            r.header.length_type == 0x0006,
            r.header.format == 0x0001,
            r.header.code == 0xF270,
            r.crc32 == 0,
    {
        let mut header = ResponseHeader::default();
        header.set_code(0xF270);
        VersionReadResponse { header, crc32: 0 }
    }
}

/// The position of the first zero byte of `b`, if any.
pub open spec fn spec_first_nul(b: Seq<u8>) -> Option<int>
    decreases b.len(),
{
    if b.len() == 0 {
        None
    } else if b[0] == 0 {
        Some(0)
    } else {
        match spec_first_nul(b.skip(1)) {
            None => None,
            Some(k) => Some(k + 1),
        }
    }
}

/// `spec_first_nul` names the unique position of the first zero byte:
/// the byte there is zero and every byte before it is not.
pub proof fn lemma_first_nul_char(b: Seq<u8>)
    ensures
        match spec_first_nul(b) {
            Some(k) => 0 <= k < b.len() && b[k] == 0 && forall|j: int| 0 <= j < k ==> b[j] != 0,
            None => forall|j: int| 0 <= j < b.len() ==> b[j] != 0,
        },
    decreases b.len(),
{
    if b.len() > 0 && b[0] != 0 {
        lemma_first_nul_char(b.skip(1));
        let t = b.skip(1);
        match spec_first_nul(t) {
            Some(k) => {
                assert(t[k] == b[k + 1]);
                assert forall|j: int| 0 <= j < k + 1 implies b[j] != 0 by {
                    if j > 0 {
                        assert(t[j - 1] == b[j]);
                    }
                }
            },
            None => {
                assert forall|j: int| 0 <= j < b.len() implies b[j] != 0 by {
                    if j > 0 {
                        assert(t[j - 1] == b[j]);
                    }
                }
            },
        }
    }
}

/// The prefix of `b` before its first zero byte, or all of `b` if it has
/// none.
pub open spec fn spec_nul_prefix(b: Seq<u8>) -> Seq<u8> {
    match spec_first_nul(b) {
        Some(k) => b.take(k),
        None => b,
    }
}

/// A request that carries no payload: read the customer information
/// string.
#[derive(Clone, Copy, Debug, PartialEq)]
pub struct CustomerInfoReadRequest {
    pub header: RequestHeader,
}

impl CustomerInfoReadRequest {
    pub fn message_code() -> (c: MessageCode)
        ensures
            c == MessageCode::CustomerInfoRead,
    {
        MessageCode::CustomerInfoRead
    }

    pub fn header(&self) -> (r: &RequestHeader)
        ensures
            *r == self.header,
    {
        &self.header
    }

    pub fn wire_size(&self) -> (n: usize)
        ensures
            n == HEADER_WIRE_SIZE,
    {
        HEADER_WIRE_SIZE
    }

    /// Encode the message into the front of `buffer`.
    pub fn marshal(&self, buffer: &mut Vec<u8>) -> (n: usize)
        requires
            old(buffer)@.len() >= 28,
        ensures
            n == HEADER_WIRE_SIZE,
            final(buffer)@ == seq_write(old(buffer)@, 0, spec_request_header_bytes(self.header)),
    {
        self.header.marshal(buffer)
    }

    /// Decode a message from the front of `buffer`.
    pub fn unmarshal(buffer: &[u8]) -> (r: Result<CustomerInfoReadRequest, RmuError>)
        ensures
            match r {
                Ok(m) => buffer@.len() >= 28 && parses_as_request_header(buffer@, m.header),
                Err(e) => buffer@.len() < 28 && e == RmuError::MalformedBuffer,
            },
    {
        match RequestHeader::unmarshal(buffer) {
            Ok(header) => Ok(CustomerInfoReadRequest { header }),
            Err(e) => Err(e),
        }
    }

    /// There is no payload, so finalization leaves the header unchanged.
    pub fn finalize(&mut self)
        ensures
            *final(self) == *old(self),
    {
    }

    /// A ready-to-finalize customer-info request.
    pub fn build(dmac: &[u8; 6], smac: &[u8; 6], device_id: u8, sequence_number: u8) -> (r:
        CustomerInfoReadRequest)
        ensures
            r.header.destination_address == *dmac,
            r.header.source_address == *smac,
            r.header.ether_type == 0x9101,
            r.header.device_id == device_id,
            r.header.priority == 0,
            r.header.sequence_number == sequence_number,
            r.header.length_type == 0x0006,
            r.header.format == 0x0001,
            r.header.code == 0xF278,
    {
        let mut m = CustomerInfoReadRequest::default();
        m.header.set_destination_address(dmac);
        m.header.set_source_address(smac);
        m.header.set_device_id(device_id);
        m.header.set_sequence_number(sequence_number);
        m.finalize();
        m
    }
}

impl Default for CustomerInfoReadRequest {
    fn default() -> (r: Self)
        ensures
            r.header.destination_address@ == seq![0u8, 0u8, 0u8, 0u8, 0u8, 0u8],
            r.header.source_address@ == seq![0u8, 0u8, 0u8, 0u8, 0u8, 0u8],
            r.header.ether_type == 0x9101,
            r.header.device_id == 0,
            r.header.priority == 0,
            r.header.sequence_number == 0,
            r.header.length_type == 0x0006,
            r.header.format == 0x0001,
            r.header.code == 0xF278,
    {
        let mut header = RequestHeader::default();
        header.set_code(0xF278);
        CustomerInfoReadRequest { header }
    }
}

/// The customer-info answer: a nul-terminated byte string in a fixed
/// 32-byte payload slot.  The string is held without its terminator and
/// truncated to 31 bytes on encode.
#[derive(Clone, Debug, PartialEq)]
pub struct CustomerInfoReadResponse {
    pub header: ResponseHeader,
    pub info: Vec<u8>,
}

/// The fixed 32-byte payload slot: the info bytes (truncated to 31),
/// then the nul terminator, then zero fill.
pub open spec fn spec_customer_info_payload(info: Seq<u8>) -> Seq<u8> {
    Seq::new(
        32,
        |i: int|
            if i < info.len() && i < 31 {
                info[i]
            } else {
                0u8
            },
    )
}

/// What each field of a decoded customer-info response is.  The info
/// string is everything up to the first zero byte of the payload; a
/// payload with no zero byte does not decode.
pub open spec fn parses_as_customer_info_response(b: Seq<u8>, m: CustomerInfoReadResponse) -> bool
    recommends
        b.len() >= 28,
{
    &&& parses_as_response_header(b, m.header)
    &&& match spec_first_nul(b.skip(28)) {
        Some(k) => m.info@ == b.skip(28).take(k),
        None => false,
    }
}

impl CustomerInfoReadResponse {
    pub fn message_code() -> (c: MessageCode)
        ensures
            c == MessageCode::CustomerInfoRead,
    {
        MessageCode::CustomerInfoRead
    }

    pub fn header(&self) -> (r: &ResponseHeader)
        ensures
            *r == self.header,
    {
        &self.header
    }

    pub fn payload_wire_size(&self) -> (n: usize)
        ensures
            n == 32,
    {
        32
    }

    pub fn wire_size(&self) -> (n: usize)
        ensures
            n == 60,
    {
        60
    }

    /// Replace the info string.
    pub fn set_info(&mut self, val: &[u8])
        ensures
            final(self).header == old(self).header,
            final(self).info@ == val@,
    {
        self.info = vstd::slice::slice_to_vec(val);
    }

    /// Encode the message into the front of `buffer`.
    pub fn marshal(&self, buffer: &mut Vec<u8>) -> (n: usize)
        requires
            old(buffer)@.len() >= 60,
        ensures
            n == 60,
            final(buffer)@ == seq_write(
                old(buffer)@,
                0,
                spec_response_header_bytes(self.header) + spec_customer_info_payload(self.info@),
            ),
    {
        self.header.marshal(buffer);
        let ghost mid = buffer@;
        let mut i: usize = 0;
        while i < 32
            invariant
                i <= 32,
                buffer@.len() == mid.len() == old(buffer)@.len(),
                old(buffer)@.len() >= 60,
                mid == seq_write(old(buffer)@, 0, spec_response_header_bytes(self.header)),
                forall|t: int| 0 <= t < 28 ==> buffer@[t] == mid[t],
                forall|t: int|
                    28 <= t < 28 + i ==> buffer@[t] == spec_customer_info_payload(self.info@)[t
                        - 28],
                forall|t: int| 28 + i <= t < buffer@.len() ==> buffer@[t] == mid[t],
            decreases 32 - i,
        {
            let v: u8 = if i < self.info.len() && i < 31 {
                self.info[i]
            } else {
                0u8
            };
            buffer.set(28 + i, v);
            i = i + 1;
        }
        proof {
            let hb = spec_response_header_bytes(self.header);
            let pb = spec_customer_info_payload(self.info@);
            let w = hb + pb;
            assert(hb.len() == 28);
            assert(pb.len() == 32);
            lemma_seq_write_index(old(buffer)@, 0, hb);
            lemma_seq_write_index(old(buffer)@, 0, w);
            assert forall|t: int| 0 <= t < buffer@.len() implies buffer@[t] == seq_write(
                old(buffer)@,
                0,
                w,
            )[t] by {
                assert(w.len() == 60);
                if t < 28 {
                    assert(buffer@[t] == mid[t]);
                    assert(mid[t] == hb[t]);
                    assert(w[t] == hb[t]);
                    assert(seq_write(old(buffer)@, 0, w)[t] == w[t]);
                } else if t < 60 {
                    assert(buffer@[t] == pb[t - 28]);
                    assert(w[t] == pb[t - 28]);
                    assert(seq_write(old(buffer)@, 0, w)[t] == w[t]);
                } else {
                    assert(buffer@[t] == mid[t]);
                    assert(mid[t] == old(buffer)@[t]);
                    assert(seq_write(old(buffer)@, 0, w)[t] == old(buffer)@[t]);
                }
            };
            assert(buffer@ =~= seq_write(old(buffer)@, 0, w));
        }
        60
    }

    /// Decode a message from the front of `buffer`.  The info string is
    /// read up to the first zero byte after the header.
    pub fn unmarshal(buffer: &[u8]) -> (r: Result<CustomerInfoReadResponse, RmuError>)
        ensures
            match r {
                Ok(m) => buffer@.len() >= 28 && parses_as_customer_info_response(buffer@, m),
                Err(e) => e == RmuError::MalformedBuffer && (buffer@.len() < 28 || spec_first_nul(
                    buffer@.skip(28),
                ) is None),
            },
    {
        let header = match ResponseHeader::unmarshal(buffer) {
            Ok(h) => h,
            Err(e) => {
                return Err(e);
            },
        };
        let len = buffer.len();
        let mut i: usize = 28;
        while i < len
            invariant
                28 <= i <= len,
                len == buffer@.len(),
                buffer@.len() >= 28,
                parses_as_response_header(buffer@, header),
                forall|j: int| 0 <= j < i - 28 ==> buffer@.skip(28)[j] != 0,
            decreases len - i,
        {
            if buffer[i] == 0 {
                proof {
                    let p = buffer@.skip(28);
                    assert(p[i - 28] == buffer@[i as int]);
                    lemma_first_nul_char(p);
                    match spec_first_nul(p) {
                        Some(k) => {
                            if k < i - 28 {
                                assert(p[k] != 0);
                            }
                            if k > i - 28 {
                                assert(p[i - 28] != 0);
                            }
                        },
                        None => {
                            assert(p[i - 28] != 0);
                        },
                    }
                    assert(spec_first_nul(p) == Some(i - 28));
                }
                let prefix = slice_subrange(buffer, 28, i);
                let info = vstd::slice::slice_to_vec(prefix);
                proof {
                    assert(info@ =~= buffer@.skip(28).take(i - 28));
                }
                return Ok(CustomerInfoReadResponse { header, info });
            }
            proof {
                assert(buffer@.skip(28)[i - 28] == buffer@[i as int]);
            }
            i = i + 1;
        }
        proof {
            lemma_first_nul_char(buffer@.skip(28));
        }
        Err(RmuError::MalformedBuffer)
    }

    /// Add the 32-byte payload slot to the header's length accumulator.
    pub fn finalize(&mut self)
        requires
            old(self).header.length_type + 32 <= u16::MAX,
        ensures
            final(self).header == (ResponseHeader {
                length_type: (old(self).header.length_type + 32) as u16,
                ..old(self).header
            }),
            final(self).info == old(self).info,
    {
        let len = self.header.length_type() + 32;
        self.header.set_length_type(len);
    }
}

impl Default for CustomerInfoReadResponse {
    fn default() -> (r: Self)
        ensures
            r.header.ether_type == 0x9101,
            r.header.device_id == 0,
            r.header.dsa_code == 1,
            r.header.length_type == 0x0006,
            r.header.format == 0x0001,
            r.header.code == 0xF278,
            r.info@ == Seq::<u8>::empty(),
    {
        let mut header = ResponseHeader::default();
        header.set_code(0xF278);
        let r = CustomerInfoReadResponse { header, info: Vec::new() };
        proof {
            assert(r.info@ =~= Seq::<u8>::empty());
        }
        r
    }
}

/// A request that carries no payload: read the firmware version record.
#[derive(Clone, Copy, Debug, PartialEq)]
pub struct FwVersionRequest {
    pub header: RequestHeader,
}

impl FwVersionRequest {
    pub fn message_code() -> (c: MessageCode)
        ensures
            c == MessageCode::FwVersionGet,
    {
        MessageCode::FwVersionGet
    }

    pub fn header(&self) -> (r: &RequestHeader)
        ensures
            *r == self.header,
    {
        &self.header
    }

    pub fn wire_size(&self) -> (n: usize)
        ensures
            n == HEADER_WIRE_SIZE,
    {
        HEADER_WIRE_SIZE
    }

    /// Encode the message into the front of `buffer`.
    pub fn marshal(&self, buffer: &mut Vec<u8>) -> (n: usize)
        requires
            old(buffer)@.len() >= 28,
        ensures
            n == HEADER_WIRE_SIZE,
            final(buffer)@ == seq_write(old(buffer)@, 0, spec_request_header_bytes(self.header)),
    {
        self.header.marshal(buffer)
    }

    /// Decode a message from the front of `buffer`.
    pub fn unmarshal(buffer: &[u8]) -> (r: Result<FwVersionRequest, RmuError>)
        ensures
            match r {
                Ok(m) => buffer@.len() >= 28 && parses_as_request_header(buffer@, m.header),
                Err(e) => buffer@.len() < 28 && e == RmuError::MalformedBuffer,
            },
    {
        match RequestHeader::unmarshal(buffer) {
            Ok(header) => Ok(FwVersionRequest { header }),
            Err(e) => Err(e),
        }
    }

    /// There is no payload, so finalization leaves the header unchanged.
    pub fn finalize(&mut self)
        ensures
            *final(self) == *old(self),
    {
    }

    /// A ready-to-finalize firmware-version request.
    pub fn build(dmac: &[u8; 6], smac: &[u8; 6], device_id: u8, sequence_number: u8) -> (r:
        FwVersionRequest)
        ensures
            r.header.destination_address == *dmac,
            r.header.source_address == *smac,
            r.header.ether_type == 0x9101,
            r.header.device_id == device_id,
            r.header.priority == 0,
            r.header.sequence_number == sequence_number,
            r.header.length_type == 0x0006,
            r.header.format == 0x0001,
            r.header.code == 0xF293,
    {
        let mut m = FwVersionRequest::default();
        m.header.set_destination_address(dmac);
        m.header.set_source_address(smac);
        m.header.set_device_id(device_id);
        m.header.set_sequence_number(sequence_number);
        m.finalize();
        m
    }
}

impl Default for FwVersionRequest {
    fn default() -> (r: Self)
        ensures
            r.header.destination_address@ == seq![0u8, 0u8, 0u8, 0u8, 0u8, 0u8],
            r.header.source_address@ == seq![0u8, 0u8, 0u8, 0u8, 0u8, 0u8],
            r.header.ether_type == 0x9101,
            r.header.device_id == 0,
            r.header.priority == 0,
            r.header.sequence_number == 0,
            r.header.length_type == 0x0006,
            r.header.format == 0x0001,
            r.header.code == 0xF293,
    {
        let mut header = RequestHeader::default();
        header.set_code(0xF293);
        FwVersionRequest { header }
    }
}

/// The firmware-version answer: three 16-bit numbers and a fixed
/// 256-byte nul-terminated build string.
#[derive(Clone, Debug, PartialEq)]
pub struct FwVersionResponse {
    pub header: ResponseHeader,
    pub api_number: u16,
    pub variant_number: u16,
    pub release_number: u16,
    pub build_string: Vec<u8>,
}

/// The build-string slot holds exactly 256 bytes.
pub open spec fn fw_version_wf(m: FwVersionResponse) -> bool {
    m.build_string@.len() == 256
}

/// What each field of a decoded firmware-version response is.
pub open spec fn parses_as_fw_version_response(b: Seq<u8>, m: FwVersionResponse) -> bool
    recommends
        b.len() >= 290,
{
    &&& parses_as_response_header(b, m.header)
    &&& m.api_number == spec_be16(b[28], b[29])
    &&& m.variant_number == spec_be16(b[30], b[31])
    &&& m.release_number == spec_be16(b[32], b[33])
    &&& m.build_string@ == b.subrange(34, 290)
}

/// The 256-byte slot after writing `val` into it: the first
/// `min(|val|, 255)` bytes of `val`, a nul terminator, and the previous
/// contents beyond that.
pub open spec fn spec_build_string_set(prev: Seq<u8>, val: Seq<u8>) -> Seq<u8> {
    let m = if val.len() < 255 {
        val.len() as int
    } else {
        255
    };
    Seq::new(
        256,
        |i: int|
            if i < m {
                val[i]
            } else if i == m {
                0u8
            } else {
                prev[i]
            },
    )
}

impl FwVersionResponse {
    pub fn message_code() -> (c: MessageCode)
        ensures
            c == MessageCode::FwVersionGet,
    {
        MessageCode::FwVersionGet
    }

    pub fn header(&self) -> (r: &ResponseHeader)
        ensures
            *r == self.header,
    {
        &self.header
    }

    pub fn api_number(&self) -> (r: u16)
        ensures
            r == self.api_number,
    {
        self.api_number
    }

    pub fn set_api_number(&mut self, val: u16)
        ensures
            *final(self) == (FwVersionResponse { api_number: val, ..*old(self) }),
    {
        self.api_number = val;
    }

    pub fn variant_number(&self) -> (r: u16)
        ensures
            r == self.variant_number,
    {
        self.variant_number
    }

    pub fn set_variant_number(&mut self, val: u16)
        ensures
            *final(self) == (FwVersionResponse { variant_number: val, ..*old(self) }),
    {
        self.variant_number = val;
    }

    pub fn release_number(&self) -> (r: u16)
        ensures
            r == self.release_number,
    {
        self.release_number
    }

    pub fn set_release_number(&mut self, val: u16)
        ensures
            *final(self) == (FwVersionResponse { release_number: val, ..*old(self) }),
    {
        self.release_number = val;
    }

    /// The build string up to its first nul byte.
    pub fn build_string(&self) -> (r: Vec<u8>)
        ensures
            r@ == spec_nul_prefix(self.build_string@),
    {
        let len = self.build_string.len();
        let mut i: usize = 0;
        while i < len
            invariant
                i <= len,
                len == self.build_string@.len(),
                forall|j: int| 0 <= j < i ==> self.build_string@[j] != 0,
            decreases len - i,
        {
            if self.build_string[i] == 0 {
                proof {
                    lemma_first_nul_char(self.build_string@);
                    match spec_first_nul(self.build_string@) {
                        Some(k) => {
                            if k < i {
                                assert(self.build_string@[k] != 0);
                            }
                            if k > i {
                                assert(self.build_string@[i as int] != 0);
                            }
                        },
                        None => {
                            assert(self.build_string@[i as int] != 0);
                        },
                    }
                }
                let prefix = slice_subrange(self.build_string.as_slice(), 0, i);
                let r = vstd::slice::slice_to_vec(prefix);
                proof {
                    assert(r@ =~= self.build_string@.take(i as int));
                }
                return r;
            }
            i = i + 1;
        }
        proof {
            lemma_first_nul_char(self.build_string@);
        }
        let r = vstd::slice::slice_to_vec(self.build_string.as_slice());
        proof {
            assert(r@ =~= self.build_string@);
        }
        r
    }

    /// Write `val` into the build-string slot, truncated to 255 bytes
    /// and nul-terminated; bytes beyond the terminator keep their
    /// previous values.
    pub fn set_build_string(&mut self, val: &[u8])
        requires
            fw_version_wf(*old(self)),
        ensures
            final(self).header == old(self).header,
            final(self).api_number == old(self).api_number,
            final(self).variant_number == old(self).variant_number,
            final(self).release_number == old(self).release_number,
            final(self).build_string@ == spec_build_string_set(old(self).build_string@, val@),
    {
        let m: usize = if val.len() < 255 {
            val.len()
        } else {
            255
        };
        let ghost prev = self.build_string@;
        let mut i: usize = 0;
        while i < m
            invariant
                i <= m,
                m == if val@.len() < 255 {
                    val@.len() as int
                } else {
                    255
                },
                self.header == old(self).header,
                self.api_number == old(self).api_number,
                self.variant_number == old(self).variant_number,
                self.release_number == old(self).release_number,
                self.build_string@.len() == prev.len() == 256,
                forall|j: int| 0 <= j < i ==> self.build_string@[j] == val@[j],
                forall|j: int| i <= j < 256 ==> self.build_string@[j] == prev[j],
            decreases m - i,
        {
            let b = val[i];
            self.build_string.set(i, b);
            i = i + 1;
        }
        self.build_string.set(m, 0);
        proof {
            assert(self.build_string@ =~= spec_build_string_set(prev, val@));
        }
    }

    pub fn payload_wire_size(&self) -> (n: usize)
        ensures
            n == 262,
    {
        262
    }

    pub fn wire_size(&self) -> (n: usize)
        ensures
            n == 290,
    {
        290
    }

    /// Encode the message into the front of `buffer`.
    pub fn marshal(&self, buffer: &mut Vec<u8>) -> (n: usize)
        requires
            fw_version_wf(*self),
            old(buffer)@.len() >= 290,
        ensures
            n == 290,
            final(buffer)@ == seq_write(
                old(buffer)@,
                0,
                spec_response_header_bytes(self.header) + seq![
                    crate::wire::spec_be16_hi(self.api_number),
                    crate::wire::spec_be16_lo(self.api_number),
                    crate::wire::spec_be16_hi(self.variant_number),
                    crate::wire::spec_be16_lo(self.variant_number),
                    crate::wire::spec_be16_hi(self.release_number),
                    crate::wire::spec_be16_lo(self.release_number),
                ] + self.build_string@,
            ),
    {
        self.header.marshal(buffer);
        buffer.set(28, ((self.api_number >> 8u16) & 0xFF) as u8);
        buffer.set(29, (self.api_number & 0xFF) as u8);
        buffer.set(30, ((self.variant_number >> 8u16) & 0xFF) as u8);
        buffer.set(31, (self.variant_number & 0xFF) as u8);
        buffer.set(32, ((self.release_number >> 8u16) & 0xFF) as u8);
        buffer.set(33, (self.release_number & 0xFF) as u8);
        let ghost mid = buffer@;
        let mut i: usize = 0;
        while i < 256
            invariant
                i <= 256,
                fw_version_wf(*self),
                buffer@.len() == mid.len() == old(buffer)@.len(),
                old(buffer)@.len() >= 290,
                forall|t: int| 0 <= t < 34 ==> buffer@[t] == mid[t],
                forall|t: int| 34 <= t < 34 + i ==> buffer@[t] == self.build_string@[t - 34],
                forall|t: int| 34 + i <= t < buffer@.len() ==> buffer@[t] == mid[t],
            decreases 256 - i,
        {
            let b = self.build_string[i];
            buffer.set(34 + i, b);
            i = i + 1;
        }
        proof {
            let hb = spec_response_header_bytes(self.header);
            let nums = seq![
                crate::wire::spec_be16_hi(self.api_number),
                crate::wire::spec_be16_lo(self.api_number),
                crate::wire::spec_be16_hi(self.variant_number),
                crate::wire::spec_be16_lo(self.variant_number),
                crate::wire::spec_be16_hi(self.release_number),
                crate::wire::spec_be16_lo(self.release_number),
            ];
            let w = hb + nums + self.build_string@;
            assert(hb.len() == 28);
            assert(nums.len() == 6);
            assert(w.len() == 290);
            lemma_seq_write_index(old(buffer)@, 0, hb);
            lemma_seq_write_index(old(buffer)@, 0, w);
            assert forall|t: int| 0 <= t < buffer@.len() implies buffer@[t] == seq_write(
                old(buffer)@,
                0,
                w,
            )[t] by {
                if t < 28 {
                    assert(buffer@[t] == mid[t]);
                    assert(w[t] == hb[t]);
                    assert(seq_write(old(buffer)@, 0, w)[t] == w[t]);
                } else if t < 34 {
                    assert(buffer@[t] == mid[t]);
                    assert(w[t] == nums[t - 28]);
                    assert(seq_write(old(buffer)@, 0, w)[t] == w[t]);
                } else if t < 290 {
                    assert(buffer@[t] == self.build_string@[t - 34]);
                    assert(w[t] == self.build_string@[t - 34]);
                    assert(seq_write(old(buffer)@, 0, w)[t] == w[t]);
                } else {
                    assert(buffer@[t] == mid[t]);
                    assert(mid[t] == old(buffer)@[t]);
                    assert(seq_write(old(buffer)@, 0, w)[t] == old(buffer)@[t]);
                }
            };
            assert(buffer@ =~= seq_write(old(buffer)@, 0, w));
        }
        290
    }

    /// Decode a message from the front of `buffer`.
    pub fn unmarshal(buffer: &[u8]) -> (r: Result<FwVersionResponse, RmuError>)
        ensures
            match r {
                Ok(m) => buffer@.len() >= 290 && fw_version_wf(m) && parses_as_fw_version_response(
                    buffer@,
                    m,
                ),
                Err(e) => buffer@.len() < 290 && e == RmuError::MalformedBuffer,
            },
    {
        if buffer.len() < 290 {
            return Err(RmuError::MalformedBuffer);
        }
        let header = match ResponseHeader::unmarshal(buffer) {
            Ok(h) => h,
            Err(e) => {
                return Err(e);
            },
        };
        let api_number = crate::wire::read_be16(buffer, 28);
        let variant_number = crate::wire::read_be16(buffer, 30);
        let release_number = crate::wire::read_be16(buffer, 32);
        let slot = slice_subrange(buffer, 34, 290);
        let build_string = vstd::slice::slice_to_vec(slot);
        proof {
            assert(build_string@ =~= buffer@.subrange(34, 290));
        }
        Ok(FwVersionResponse { header, api_number, variant_number, release_number, build_string })
    }

    /// Add the 262-byte payload to the header's length accumulator.
    pub fn finalize(&mut self)
        requires
            old(self).header.length_type + 262 <= u16::MAX,
        ensures
            final(self).header == (ResponseHeader {
                length_type: (old(self).header.length_type + 262) as u16,
                ..old(self).header
            }),
            final(self).api_number == old(self).api_number,
            final(self).variant_number == old(self).variant_number,
            final(self).release_number == old(self).release_number,
            final(self).build_string == old(self).build_string,
    {
        let len = self.header.length_type() + 262;
        self.header.set_length_type(len);
    }
}

impl Default for FwVersionResponse {
    fn default() -> (r: Self)
        ensures
            r.header.ether_type == 0x9101,
            r.header.device_id == 0,
            r.header.dsa_code == 1,
            r.header.length_type == 0x0006,
            r.header.format == 0x0001,
            r.header.code == 0xF293,
            r.api_number == 0,
            r.variant_number == 0,
            r.release_number == 0,
            fw_version_wf(r),
            forall|i: int| 0 <= i < 256 ==> r.build_string@[i] == 0u8,
    {
        let mut header = ResponseHeader::default();
        header.set_code(0xF293);
        let mut build_string: Vec<u8> = Vec::new();
        build_string.resize(256, 0u8);
        FwVersionResponse { header, api_number: 0, variant_number: 0, release_number: 0, build_string }
    }
}

/// A register-access request: the header and a sentinel-terminated list
/// of operations for the device to perform in order.
#[derive(Clone, Debug, PartialEq)]
pub struct RegisterRequest {
    pub header: RequestHeader,
    pub regops: RegOpRequestList,
}

/// What each field of a decoded register request is.
pub open spec fn parses_as_register_request(b: Seq<u8>, m: RegisterRequest) -> bool
    recommends
        b.len() >= 28,
{
    &&& parses_as_request_header(b, m.header)
    &&& spec_parse_request_list(b.skip(28)) == Ok::<Seq<crate::regop::RegOpRequest>, RmuError>(
        m.regops@,
    )
}

impl RegisterRequest {
    pub fn message_code() -> (c: MessageCode)
        ensures
            c == MessageCode::RwRegister,
    {
        MessageCode::RwRegister
    }

    pub fn header(&self) -> (r: &RequestHeader)
        ensures
            *r == self.header,
    {
        &self.header
    }

    pub fn wire_size(&self) -> (n: usize)
        requires
            28 + 4 * self.regops@.len() + 4 <= usize::MAX,
        ensures
            n == 28 + 4 * (self.regops@.len() + 1),
    {
        28 + self.regops.wire_size()
    }

    /// Encode the message into the front of `buffer`: the header, the
    /// operations in order, the sentinel.
    pub fn marshal(&self, buffer: &mut Vec<u8>) -> (n: usize)
        requires
            28 + 4 * self.regops@.len() + 4 <= old(buffer)@.len(),
        ensures
            n == 28 + 4 * (self.regops@.len() + 1),
            final(buffer)@ == seq_write(
                old(buffer)@,
                0,
                spec_request_header_bytes(self.header) + spec_request_list_bytes(self.regops@),
            ),
    {
        let _cap: usize = buffer.len();
        self.header.marshal(buffer);
        let n = self.regops.marshal(buffer, 28);
        proof {
            crate::regop::lemma_request_ops_bytes_index(self.regops@);
            lemma_seq_write_concat(
                old(buffer)@,
                0,
                spec_request_header_bytes(self.header),
                spec_request_list_bytes(self.regops@),
            );
        }
        28 + n
    }

    /// Decode a message from the front of `buffer`.
    pub fn unmarshal(buffer: &[u8]) -> (r: Result<RegisterRequest, RmuError>)
        ensures
            match r {
                Ok(m) => buffer@.len() >= 28 && parses_as_register_request(buffer@, m),
                Err(e) => (buffer@.len() < 28 && e == RmuError::MalformedBuffer) || (buffer@.len()
                    >= 28 && spec_parse_request_list(buffer@.skip(28)) == Err::<
                    Seq<crate::regop::RegOpRequest>,
                    RmuError,
                >(e)),
            },
    {
        let header = match RequestHeader::unmarshal(buffer) {
            Ok(h) => h,
            Err(e) => {
                return Err(e);
            },
        };
        let payload = slice_subrange(buffer, 28, buffer.len());
        proof {
            assert(payload@ =~= buffer@.skip(28));
        }
        match RegOpRequestList::unmarshal(payload) {
            Ok(regops) => Ok(RegisterRequest { header, regops }),
            Err(e) => Err(e),
        }
    }

    /// Add the list's wire size to the header's length accumulator.
    pub fn finalize(&mut self)
        requires
            old(self).header.length_type + 4 * old(self).regops@.len() + 4 <= u16::MAX,
        ensures
            final(self).header == (RequestHeader {
                length_type: (old(self).header.length_type + 4 * (old(self).regops@.len() + 1)) as u16,
                ..old(self).header
            }),
            final(self).regops@ == old(self).regops@,
    {
        let sz = self.regops.wire_size();
        let len = self.header.length_type() + (sz as u16);
        self.header.set_length_type(len);
    }

    /// A finalized register request carrying `regops`, aimed at one
    /// device.
    pub fn build(
        dmac: &[u8; 6],
        smac: &[u8; 6],
        device_id: u8,
        sequence_number: u8,
        regops: RegOpRequestList,
    ) -> (r: RegisterRequest)
        requires
            6 + 4 * regops@.len() + 4 <= u16::MAX,
        ensures
            r.header.destination_address == *dmac,
            r.header.source_address == *smac,
            r.header.ether_type == 0x9101,
            r.header.device_id == device_id,
            r.header.priority == 0,
            r.header.sequence_number == sequence_number,
            r.header.length_type == 6 + 4 * (regops@.len() + 1),
            r.header.format == 0x0001,
            r.header.code == 0x2000,
            r.regops@ == regops@,
    {
        let mut m = RegisterRequest::default();
        m.header.set_destination_address(dmac);
        m.header.set_source_address(smac);
        m.header.set_device_id(device_id);
        m.header.set_sequence_number(sequence_number);
        m.regops = regops;
        m.finalize();
        m
    }
}

impl Default for RegisterRequest {
    fn default() -> (r: Self)
        ensures
            r.header.destination_address@ == seq![0u8, 0u8, 0u8, 0u8, 0u8, 0u8],
            r.header.source_address@ == seq![0u8, 0u8, 0u8, 0u8, 0u8, 0u8],
            r.header.ether_type == 0x9101,
            r.header.device_id == 0,
            r.header.priority == 0,
            r.header.sequence_number == 0,
            r.header.length_type == 0x0006,
            r.header.format == 0x0001,
            r.header.code == 0x2000,
            r.regops@ == Seq::<crate::regop::RegOpRequest>::empty(),
    {
        let mut header = RequestHeader::default();
        header.set_code(0x2000);
        RegisterRequest { header, regops: RegOpRequestList::new() }
    }
}

/// A register-access answer: the header and the list of operations the
/// device actually performed, which may be shorter than the request if a
/// wait failed.
#[derive(Clone, Debug, PartialEq)]
pub struct RegisterResponse {
    pub header: ResponseHeader,
    pub regops: RegOpResponseList,
}

/// What each field of a decoded register response is.
pub open spec fn parses_as_register_response(b: Seq<u8>, m: RegisterResponse) -> bool
    recommends
        b.len() >= 28,
{
    &&& parses_as_response_header(b, m.header)
    &&& spec_parse_response_list(b.skip(28)) == Ok::<Seq<crate::regop::RegOpResponse>, RmuError>(
        m.regops@,
    )
}

impl RegisterResponse {
    pub fn message_code() -> (c: MessageCode)
        ensures
            c == MessageCode::RwRegister,
    {
        MessageCode::RwRegister
    }

    pub fn header(&self) -> (r: &ResponseHeader)
        ensures
            *r == self.header,
    {
        &self.header
    }

    pub fn wire_size(&self) -> (n: usize)
        requires
            28 + 4 * self.regops@.len() + 4 <= usize::MAX,
        ensures
            n == 28 + 4 * (self.regops@.len() + 1),
    {
        28 + self.regops.wire_size()
    }

    /// Encode the message into the front of `buffer`: the header, the
    /// operations in order, the sentinel.
    pub fn marshal(&self, buffer: &mut Vec<u8>) -> (n: usize)
        requires
            28 + 4 * self.regops@.len() + 4 <= old(buffer)@.len(),
        ensures
            n == 28 + 4 * (self.regops@.len() + 1),
            final(buffer)@ == seq_write(
                old(buffer)@,
                0,
                spec_response_header_bytes(self.header) + spec_response_list_bytes(self.regops@),
            ),
    {
        let _cap: usize = buffer.len();
        self.header.marshal(buffer);
        let n = self.regops.marshal(buffer, 28);
        proof {
            crate::regop::lemma_response_ops_bytes_index(self.regops@);
            lemma_seq_write_concat(
                old(buffer)@,
                0,
                spec_response_header_bytes(self.header),
                spec_response_list_bytes(self.regops@),
            );
        }
        28 + n
    }

    /// Decode a message from the front of `buffer`.
    pub fn unmarshal(buffer: &[u8]) -> (r: Result<RegisterResponse, RmuError>)
        ensures
            match r {
                Ok(m) => buffer@.len() >= 28 && parses_as_register_response(buffer@, m),
                Err(e) => (buffer@.len() < 28 && e == RmuError::MalformedBuffer) || (buffer@.len()
                    >= 28 && spec_parse_response_list(buffer@.skip(28)) == Err::<
                    Seq<crate::regop::RegOpResponse>,
                    RmuError,
                >(e)),
            },
    {
        let header = match ResponseHeader::unmarshal(buffer) {
            Ok(h) => h,
            Err(e) => {
                return Err(e);
            },
        };
        let payload = slice_subrange(buffer, 28, buffer.len());
        proof {
            assert(payload@ =~= buffer@.skip(28));
        }
        match RegOpResponseList::unmarshal(payload) {
            Ok(regops) => Ok(RegisterResponse { header, regops }),
            Err(e) => Err(e),
        }
    }

    /// Add the list's wire size to the header's length accumulator.
    pub fn finalize(&mut self)
        requires
            old(self).header.length_type + 4 * old(self).regops@.len() + 4 <= u16::MAX,
        ensures
            final(self).header == (ResponseHeader {
                length_type: (old(self).header.length_type + 4 * (old(self).regops@.len() + 1)) as u16,
                ..old(self).header
            }),
            final(self).regops@ == old(self).regops@,
    {
        let sz = self.regops.wire_size();
        let len = self.header.length_type() + (sz as u16);
        self.header.set_length_type(len);
    }
}

impl Default for RegisterResponse {
    fn default() -> (r: Self)
        ensures
            r.header.ether_type == 0x9101,
            r.header.device_id == 0,
            r.header.dsa_code == 1,
            r.header.length_type == 0x0006,
            r.header.format == 0x0001,
            r.header.code == 0x2000,
            r.regops@ == Seq::<crate::regop::RegOpResponse>::empty(),
    {
        let mut header = ResponseHeader::default();
        header.set_code(0x2000);
        RegisterResponse { header, regops: RegOpResponseList::new() }
    }
}

} // verus!
