use rmu_client::bits::{get_bit_u16, get_bits_u16, get_bits_u8, set_bits_n_u8, set_bits_u16,
    set_bits_u8, u16_get_bits, u16_set_bits, BitInfo};
use rmu_client::envelope::{message_code_of, unmarshal_register_response,
    unmarshal_version_read_response, validate_code};
use rmu_client::error::RmuError;
use rmu_client::header::{RequestHeader, ResponseHeader};
use rmu_client::message_code::MessageCode;
use rmu_client::messages::{CustomerInfoReadRequest, CustomerInfoReadResponse, FwVersionRequest,
    FwVersionResponse, GetIdRequest, RegisterRequest, RegisterResponse,
    VersionReadRequest, VersionReadResponse};
use rmu_client::regop::{RegOpRequest, RegOpRequestList, RegOpResponse, RegOpResponseList};
use rmu_client::transact::close_window;
use rmu_client::wire::prealloc_buffer;

#[test]
fn bits_get_set() {
    assert_eq!(get_bits_u8(0b1011_0100, 3, 2), 0b101);
    assert_eq!(get_bits_u8(0xFF, 8, 0), 0xFF);
    assert_eq!(set_bits_u8(0, 0b111, 3, 3), 0b11_1000);
    assert_eq!(set_bits_u8(0b1, 0xFF, 2, 4), 0b0011_0001);
    assert_eq!(get_bits_u16(0xC000, 2, 14), 0b11);
    assert_eq!(set_bits_u16(0, 0xFFF, 12, 0), 0x0FFF);
    assert_eq!(get_bit_u16(0x1000, 12), 1);
    assert_eq!(get_bit_u16(0x1000, 13), 0);
    let fields = vec![(0x1Du8, 5u8, 0u8), (0b111u8, 3u8, 5u8)];
    assert_eq!(set_bits_n_u8(0, &fields), 0b1111_1101);
}

#[test]
fn bitinfo_fields() {
    let speed = BitInfo { len: 2, shift: 8 };
    assert_eq!(u16_get_bits(0x0300, speed), 0b11);
    let link = BitInfo { len: 1, shift: 11 };
    assert_eq!(u16_get_bits(0x0800, link), 1);
    assert_eq!(u16_set_bits(0, 1, link), 0x0800);
}

#[test]
fn request_header_roundtrip() {
    let h = RequestHeader {
        destination_address: [0x01, 0x50, 0x43, 0x00, 0x00, 0x03],
        source_address: [0x10, 0x20, 0x30, 0x40, 0x50, 0x60],
        ether_type: 0x9101,
        device_id: 0x15,
        priority: 5,
        sequence_number: 42,
        length_type: 0x0102,
        format: 0x0001,
        code: 0x2000,
    };
    let mut buf = prealloc_buffer(28);
    let n = h.marshal(&mut buf);
    assert_eq!(n, 28);
    assert_eq!(buf[12], 0x91);
    assert_eq!(buf[13], 0x01);
    assert_eq!(buf[16], 0x15 | 0x40);
    assert_eq!(buf[17], 0xFA);
    assert_eq!(buf[18], (5 << 5) | 0x0F);
    let h2 = RequestHeader::unmarshal(&buf).unwrap();
    assert_eq!(h2, h);
}

#[test]
fn response_header_roundtrip() {
    let h = ResponseHeader {
        destination_address: [1, 2, 3, 4, 5, 6],
        source_address: [0xAA, 0xBB, 0xCC, 0xDD, 0xEE, 0xFF],
        ether_type: 0x9101,
        device_id: 7,
        dsa_code: 3,
        priority: 2,
        sequence_number: 9,
        length_type: 0x000A,
        product_number: 0x1234,
        format: 0x0001,
        code: 0x0000,
    };
    let mut buf = prealloc_buffer(28);
    let n = h.marshal(&mut buf);
    assert_eq!(n, 28);
    let h2 = ResponseHeader::unmarshal(&buf).unwrap();
    assert_eq!(h2, h);
}

#[test]
fn header_masks_device_id_and_priority() {
    let mut h = RequestHeader::default();
    h.set_device_id(0xFF);
    h.set_priority(0xFF);
    let mut buf = prealloc_buffer(28);
    h.marshal(&mut buf);
    let h2 = RequestHeader::unmarshal(&buf).unwrap();
    assert_eq!(h2.device_id, 0x1F);
    assert_eq!(h2.priority, 0x07);
}

#[test]
fn header_too_short() {
    let buf = [0u8; 27];
    assert_eq!(RequestHeader::unmarshal(&buf), Err(RmuError::MalformedBuffer));
    assert_eq!(ResponseHeader::unmarshal(&buf).unwrap_err(), RmuError::MalformedBuffer);
}

#[test]
fn regop_request_roundtrip_all_variants() {
    let ops = vec![
        RegOpRequest::Read { addr: 0x1B, reg: 0x0B },
        RegOpRequest::Write { addr: 0x1B, reg: 0x0D, data: 0xC0DE },
        RegOpRequest::WaitOnBit0 { addr: 0x1B, reg: 0x0B, bit: 15 },
        RegOpRequest::WaitOnBit1 { addr: 0x05, reg: 0x1F, bit: 3 },
        RegOpRequest::EndOfList,
    ];
    for op in ops {
        let mut buf = vec![0u8; 4];
        let n = op.marshal(&mut buf, 0);
        assert_eq!(n, 4);
        let back = RegOpRequest::unmarshal(&buf).unwrap();
        assert_eq!(back, op);
    }
}

#[test]
fn regop_response_roundtrip_all_variants() {
    let ops = vec![
        RegOpResponse::Read { addr: 0x1B, reg: 0x0C, data: 0x00E5 },
        RegOpResponse::Write { addr: 0x1B, reg: 0x0D, data: 0xBEEF },
        RegOpResponse::WaitOnBit0 { addr: 0x1B, reg: 0x0B, bit: 15, result: 0x00 },
        RegOpResponse::WaitOnBit1 { addr: 0x02, reg: 0x11, bit: 7, result: 0xFF },
        RegOpResponse::EndOfList,
    ];
    for op in ops {
        let mut buf = vec![0u8; 4];
        let n = op.marshal(&mut buf, 0);
        assert_eq!(n, 4);
        let back = RegOpResponse::unmarshal(&buf).unwrap();
        assert_eq!(back, op);
    }
}

#[test]
fn sentinel_decodes_to_end_of_list_and_only_it() {
    let sentinel = [0xFFu8, 0xFF, 0xFF, 0xFF];
    assert_eq!(RegOpRequest::unmarshal(&sentinel).unwrap(), RegOpRequest::EndOfList);
    assert_eq!(RegOpResponse::unmarshal(&sentinel).unwrap(), RegOpResponse::EndOfList);
    // An op-type nibble of 0xF without the full all-ones pattern is not
    // a sentinel.
    let almost = [0xF0u8, 0xFF, 0xFF, 0xFF];
    assert_eq!(
        RegOpRequest::unmarshal(&almost),
        Err(RmuError::UnknownOpType { value: 0x0F })
    );
    let almost2 = [0xFFu8, 0xFF, 0xFF, 0xFE];
    assert_eq!(
        RegOpResponse::unmarshal(&almost2),
        Err(RmuError::UnknownOpType { value: 0x0F })
    );
}

#[test]
fn regop_unknown_encodings() {
    // op-type 2 names no variant
    let b = [0x20u8, 0x00, 0x00, 0x00];
    assert_eq!(RegOpRequest::unmarshal(&b), Err(RmuError::UnknownOpType { value: 2 }));
    // op-type 0 with op-code 0 names no read/write variant
    let b = [0x00u8, 0x00, 0x00, 0x00];
    assert_eq!(RegOpRequest::unmarshal(&b), Err(RmuError::UnknownOpCode { value: 0 }));
    // op-type 1 with op-code 1 names no wait variant
    let b = [0x14u8, 0x00, 0x00, 0x00];
    assert_eq!(RegOpResponse::unmarshal(&b), Err(RmuError::UnknownOpCode { value: 1 }));
    // fewer than 4 bytes
    let b = [0x08u8, 0x00];
    assert_eq!(RegOpRequest::unmarshal(&b), Err(RmuError::MalformedBuffer));
}

#[test]
fn response_list_truncates_after_failed_wait() {
    let mut list = RegOpResponseList::new();
    list.add_regop(RegOpResponse::Write { addr: 1, reg: 2, data: 3 });
    list.add_regop(RegOpResponse::WaitOnBit0 { addr: 1, reg: 2, bit: 4, result: 0xFF });
    list.add_regop(RegOpResponse::Read { addr: 1, reg: 2, data: 5 });
    let mut buf = vec![0u8; list.wire_size()];
    list.marshal(&mut buf, 0);
    let back = RegOpResponseList::unmarshal(&buf).unwrap();
    assert_eq!(back.len(), 2);
    assert_eq!(*back.op(0), RegOpResponse::Write { addr: 1, reg: 2, data: 3 });
    assert_eq!(
        *back.op(1),
        RegOpResponse::WaitOnBit0 { addr: 1, reg: 2, bit: 4, result: 0xFF }
    );
}

#[test]
fn response_list_successful_wait_continues() {
    let mut list = RegOpResponseList::new();
    list.add_regop(RegOpResponse::WaitOnBit0 { addr: 1, reg: 2, bit: 4, result: 0x00 });
    list.add_regop(RegOpResponse::Read { addr: 1, reg: 2, data: 5 });
    let mut buf = vec![0u8; list.wire_size()];
    list.marshal(&mut buf, 0);
    let back = RegOpResponseList::unmarshal(&buf).unwrap();
    assert_eq!(back.len(), 2);
}

#[test]
fn request_list_roundtrip_and_wire_size() {
    let mut list = RegOpRequestList::new();
    assert_eq!(list.wire_size(), 4);
    list.add_regop(RegOpRequest::Read { addr: 0x1B, reg: 0x0B });
    list.add_regop(RegOpRequest::Write { addr: 0x1B, reg: 0x0D, data: 0xFFFF });
    assert_eq!(list.wire_size(), 12);
    let mut buf = vec![0u8; list.wire_size()];
    let n = list.marshal(&mut buf, 0);
    assert_eq!(n, 12);
    assert_eq!(&buf[8..12], &[0xFF, 0xFF, 0xFF, 0xFF]);
    let back = RegOpRequestList::unmarshal(&buf).unwrap();
    assert_eq!(back.entries(), list.entries());
}

#[test]
fn empty_list_is_just_the_sentinel() {
    let list = RegOpRequestList::new();
    let mut buf = vec![0u8; 4];
    list.marshal(&mut buf, 0);
    assert_eq!(buf, vec![0xFF, 0xFF, 0xFF, 0xFF]);
    let back = RegOpRequestList::unmarshal(&buf).unwrap();
    assert_eq!(back.len(), 0);
}

#[test]
fn finalize_adds_payload_wire_size() {
    let mut list = RegOpRequestList::new();
    list.add_regop(RegOpRequest::Read { addr: 1, reg: 2 });
    list.add_regop(RegOpRequest::Read { addr: 1, reg: 3 });
    let mut req = RegisterRequest::default();
    req.regops = list;
    assert_eq!(req.header.length_type, 6);
    req.finalize();
    assert_eq!(req.header.length_type, 6 + 12);

    let mut vr = VersionReadResponse::default();
    vr.finalize();
    assert_eq!(vr.header.length_type, 6 + 4);

    let mut ci = CustomerInfoReadResponse::default();
    ci.finalize();
    assert_eq!(ci.header.length_type, 6 + 32);

    let mut fw = FwVersionResponse::default();
    fw.finalize();
    assert_eq!(fw.header.length_type, 6 + 262);

    let mut gi = GetIdRequest::default();
    gi.finalize();
    assert_eq!(gi.header.length_type, 6);
}

#[test]
fn code_mismatch_on_version_read() {
    // A register response marshalled and then decoded as a version-read
    // response must fail with a code mismatch on 0x2000.
    let resp = RegisterResponse::default();
    let mut buf = prealloc_buffer(resp.wire_size());
    resp.marshal(&mut buf);
    assert_eq!(
        unmarshal_version_read_response(&buf),
        Err(RmuError::CodeMismatch { found: 0x2000 })
    );
}

#[test]
fn error_response_codes_are_reported_as_unsupported() {
    let mut resp = RegisterResponse::default();
    resp.header.set_code(0xFFFF);
    let mut buf = prealloc_buffer(resp.wire_size());
    resp.marshal(&mut buf);
    assert_eq!(
        unmarshal_register_response(&buf),
        Err(RmuError::UnsupportedErrorResponse { found: 0xFFFF })
    );
    assert_eq!(
        validate_code(0xFFFE, MessageCode::RwRegister),
        Err(RmuError::UnsupportedErrorResponse { found: 0xFFFE })
    );
    assert_eq!(validate_code(0x2000, MessageCode::RwRegister), Ok(()));
}

#[test]
fn message_code_mapping() {
    assert_eq!(MessageCode::from_u16(0x0000).unwrap(), MessageCode::GetId);
    assert_eq!(MessageCode::from_u16(0x2000).unwrap(), MessageCode::RwRegister);
    assert_eq!(MessageCode::from_u16(0xF270).unwrap(), MessageCode::VersionRead);
    assert_eq!(MessageCode::from_u16(0xF278).unwrap(), MessageCode::CustomerInfoRead);
    assert_eq!(MessageCode::from_u16(0xF293).unwrap(), MessageCode::FwVersionGet);
    assert_eq!(MessageCode::from_u16(0xFFFE).unwrap(), MessageCode::ErrorResponseEx);
    assert_eq!(MessageCode::from_u16(0xFFFF).unwrap(), MessageCode::ErrorResponse);
    assert_eq!(
        MessageCode::from_u16(0x1234),
        Err(RmuError::UnknownMessageCode { code: 0x1234 })
    );
    assert_eq!(MessageCode::RwRegister.value(), 0x2000);
}

#[test]
fn message_code_of_reads_bytes_26_27() {
    let req = VersionReadRequest::default();
    let mut buf = prealloc_buffer(28);
    req.marshal(&mut buf);
    assert_eq!(message_code_of(&buf), Ok(0xF270));
    assert_eq!(message_code_of(&buf[..10]), Err(RmuError::MalformedBuffer));
}

#[test]
fn version_read_response_roundtrip() {
    let mut m = VersionReadResponse::default();
    m.crc32 = 0xDEADBEEF;
    let mut buf = prealloc_buffer(m.wire_size());
    m.marshal(&mut buf);
    let back = unmarshal_version_read_response(&buf).unwrap();
    assert_eq!(back.crc32, 0xDEADBEEF);
    assert_eq!(back.header, m.header);
}

#[test]
fn customer_info_roundtrip_and_truncation() {
    let mut m = CustomerInfoReadResponse::default();
    m.set_info(b"hello switch");
    let mut buf = prealloc_buffer(m.wire_size());
    m.marshal(&mut buf);
    let back = CustomerInfoReadResponse::unmarshal(&buf).unwrap();
    assert_eq!(back.info, b"hello switch".to_vec());

    // 40 info bytes are capped at 31 on the wire.
    let long = [0x41u8; 40];
    m.set_info(&long);
    let mut buf = prealloc_buffer(m.wire_size());
    m.marshal(&mut buf);
    let back = CustomerInfoReadResponse::unmarshal(&buf).unwrap();
    assert_eq!(back.info.len(), 31);
    assert_eq!(back.info, vec![0x41u8; 31]);
}

#[test]
fn customer_info_without_nul_is_malformed() {
    let mut buf = prealloc_buffer(28);
    let h = ResponseHeader::default();
    h.marshal(&mut buf);
    for i in 28..60 {
        buf[i] = 0x41;
    }
    assert_eq!(
        CustomerInfoReadResponse::unmarshal(&buf),
        Err(RmuError::MalformedBuffer)
    );
}

#[test]
fn fw_version_roundtrip() {
    let mut m = FwVersionResponse::default();
    m.set_api_number(0x0102);
    m.set_variant_number(0x0304);
    m.set_release_number(0x0506);
    m.set_build_string(b"build-2024.1");
    let mut buf = prealloc_buffer(m.wire_size());
    m.marshal(&mut buf);
    let back = FwVersionResponse::unmarshal(&buf).unwrap();
    assert_eq!(back.api_number(), 0x0102);
    assert_eq!(back.variant_number(), 0x0304);
    assert_eq!(back.release_number(), 0x0506);
    assert_eq!(back.build_string(), b"build-2024.1".to_vec());
}

#[test]
fn fw_version_too_short_is_malformed() {
    let buf = [0u8; 100];
    assert_eq!(FwVersionResponse::unmarshal(&buf), Err(RmuError::MalformedBuffer));
}

#[test]
fn builders_fill_headers() {
    let smac = [1, 2, 3, 4, 5, 6];
    let dmac = [7, 8, 9, 10, 11, 12];
    let gi = GetIdRequest::build(&dmac, &smac, 9, 1);
    assert_eq!(gi.header.format, 0x0000);
    assert_eq!(gi.header.code, 0x0000);
    assert_eq!(gi.header.device_id, 9);
    let vr = VersionReadRequest::build(&dmac, &smac, 3, 0);
    assert_eq!(vr.header.code, 0xF270);
    let ci = CustomerInfoReadRequest::build(&dmac, &smac, 3, 0);
    assert_eq!(ci.header.code, 0xF278);
    let fw = FwVersionRequest::build(&dmac, &smac, 3, 0);
    assert_eq!(fw.header.code, 0xF293);
    let mut ops = RegOpRequestList::new();
    ops.add_regop(RegOpRequest::Read { addr: 1, reg: 0 });
    let rr = RegisterRequest::build(&dmac, &smac, 3, 7, ops);
    assert_eq!(rr.header.code, 0x2000);
    assert_eq!(rr.header.sequence_number, 7);
    assert_eq!(rr.header.length_type, 6 + 8);
    assert_eq!(rr.header.destination_address, dmac);
    assert_eq!(rr.header.source_address, smac);
}

#[test]
fn register_message_roundtrip_through_bytes() {
    let smac = [1, 2, 3, 4, 5, 6];
    let dmac = [7, 8, 9, 10, 11, 12];
    let mut ops = RegOpRequestList::new();
    ops.add_regop(RegOpRequest::Write { addr: 0x1B, reg: 0x0B, data: 0xC000 });
    ops.add_regop(RegOpRequest::Read { addr: 0x1B, reg: 0x0C });
    let req = RegisterRequest::build(&dmac, &smac, 5, 0, ops);
    let mut buf = prealloc_buffer(req.wire_size());
    assert_eq!(buf.len(), 60);
    let n = req.marshal(&mut buf);
    assert_eq!(n, 28 + 12);
    let back = RegisterRequest::unmarshal(&buf).unwrap();
    assert_eq!(back.header, req.header);
    assert_eq!(back.regops.entries(), req.regops.entries());
}

#[test]
fn prealloc_buffer_has_ethernet_minimum() {
    assert_eq!(prealloc_buffer(28).len(), 60);
    assert_eq!(prealloc_buffer(60).len(), 60);
    assert_eq!(prealloc_buffer(290).len(), 290);
    assert!(prealloc_buffer(290).iter().all(|b| *b == 0));
}

#[test]
fn close_window_policy() {
    assert_eq!(close_window(0, false, 3), Ok(()));
    assert_eq!(close_window(2, true, 3), Ok(()));
    assert_eq!(close_window(0, true, 3), Err(RmuError::NoResponse { device_id: 3 }));
}
