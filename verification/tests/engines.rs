use rmu_client::atu;
use rmu_client::atu::{AtuStep, AtuWalk};
use rmu_client::envelope::unmarshal_register_response;
use rmu_client::error::RmuError;
use rmu_client::header::ResponseHeader;
use rmu_client::messages::{GetIdResponse, RegisterResponse};
use rmu_client::regop::{RegOpRequest, RegOpResponse, RegOpResponseList};
use rmu_client::scan::ScanEngine;
use rmu_client::vtu;
use rmu_client::vtu::{VtuStep, VtuWalk};
use rmu_client::wire::prealloc_buffer;

/// A scripted ATU poll answer: the eight operations of the poll request,
/// echoed with the given register words.
fn atu_poll_response(atu_op: u16, atu_fid: u16, atu_data: u16, mac: [u8; 6]) -> RegisterResponse {
    let mut list = RegOpResponseList::new();
    list.add_regop(RegOpResponse::Write { addr: 0x1B, reg: 0x0B, data: 0xC000 });
    list.add_regop(RegOpResponse::WaitOnBit0 { addr: 0x1B, reg: 0x0B, bit: 15, result: 0 });
    list.add_regop(RegOpResponse::Read { addr: 0x1B, reg: 0x0B, data: atu_op });
    list.add_regop(RegOpResponse::Read { addr: 0x1B, reg: 0x01, data: atu_fid });
    list.add_regop(RegOpResponse::Read { addr: 0x1B, reg: 0x0C, data: atu_data });
    list.add_regop(RegOpResponse::Read {
        addr: 0x1B,
        reg: 0x0D,
        data: u16::from_be_bytes([mac[0], mac[1]]),
    });
    list.add_regop(RegOpResponse::Read {
        addr: 0x1B,
        reg: 0x0E,
        data: u16::from_be_bytes([mac[2], mac[3]]),
    });
    list.add_regop(RegOpResponse::Read {
        addr: 0x1B,
        reg: 0x0F,
        data: u16::from_be_bytes([mac[4], mac[5]]),
    });
    let mut resp = RegisterResponse::default();
    resp.regops = list;
    resp
}

/// A scripted VTU poll answer: the six operations of the poll request,
/// echoed with the given register words.
fn vtu_poll_response(vtu_fid: u16, vtu_vid: u16, p0p7: u16, p8p9: u16) -> RegisterResponse {
    let mut list = RegOpResponseList::new();
    list.add_regop(RegOpResponse::Write { addr: 0x1B, reg: 0x05, data: 0xC000 });
    list.add_regop(RegOpResponse::WaitOnBit0 { addr: 0x1B, reg: 0x05, bit: 15, result: 0 });
    list.add_regop(RegOpResponse::Read { addr: 0x1B, reg: 0x02, data: vtu_fid });
    list.add_regop(RegOpResponse::Read { addr: 0x1B, reg: 0x06, data: vtu_vid });
    list.add_regop(RegOpResponse::Read { addr: 0x1B, reg: 0x07, data: p0p7 });
    list.add_regop(RegOpResponse::Read { addr: 0x1B, reg: 0x08, data: p8p9 });
    let mut resp = RegisterResponse::default();
    resp.regops = list;
    resp
}

#[test]
fn atu_request_lists_have_expected_shape() {
    let prep = atu::build_prepare_requests(0x12);
    assert_eq!(prep.len(), 5);
    assert_eq!(
        *prep.op(4),
        RegOpRequest::Write { addr: 0x1B, reg: 0x01, data: 0x12 }
    );
    let poll = atu::build_requests();
    assert_eq!(poll.len(), 8);
    assert_eq!(*poll.op(0), RegOpRequest::Write { addr: 0x1B, reg: 0x0B, data: 0xC000 });
    assert_eq!(*poll.op(7), RegOpRequest::Read { addr: 0x1B, reg: 0x0F });
}

#[test]
fn atu_walk_stops_after_two_consecutive_empty_entries() {
    // Three valid entries, then an empty entry state twice in a row:
    // exactly three records come out, then the walk ends.
    let mac1 = [0x02, 0x00, 0x00, 0x00, 0x00, 0x01];
    let mac2 = [0x02, 0x00, 0x00, 0x00, 0x00, 0x02];
    let mac3 = [0x02, 0x00, 0x00, 0x00, 0x00, 0x03];
    let script = vec![
        atu_poll_response(0x0000, 0x0000, 0x00E7, mac1),
        atu_poll_response(0x0000, 0x0000, 0x00E7, mac2),
        atu_poll_response(0x0000, 0x0000, 0x00E7, mac3),
        atu_poll_response(0x0000, 0x0000, 0x0000, [0; 6]),
        atu_poll_response(0x0000, 0x0000, 0x0000, [0; 6]),
    ];
    let mut walk = AtuWalk::new();
    let mut records = Vec::new();
    for resp in &script {
        match walk.step(resp).unwrap() {
            AtuStep::Record(e) => records.push(e),
            AtuStep::Skip => {}
            AtuStep::Done => break,
        }
    }
    assert_eq!(records.len(), 3);
    assert_eq!(records[0].mac, mac1);
    assert_eq!(records[1].mac, mac2);
    assert_eq!(records[2].mac, mac3);
    assert_eq!(records[0].entry_state, 0x7);
    assert_eq!(records[0].portvec, 0x00E);
}

#[test]
fn atu_walk_resets_empty_count_on_valid_entry() {
    // One empty entry between valid entries does not end the walk.
    let mac = [0x02, 0, 0, 0, 0, 0x09];
    let mut walk = AtuWalk::new();
    assert_eq!(
        walk.step(&atu_poll_response(0, 0, 0x0000, [0; 6])).unwrap(),
        AtuStep::Skip
    );
    match walk.step(&atu_poll_response(0, 0, 0x00E5, mac)).unwrap() {
        AtuStep::Record(e) => assert_eq!(e.mac, mac),
        other => panic!("expected a record, got {:?}", other),
    }
    assert_eq!(
        walk.step(&atu_poll_response(0, 0, 0x0000, [0; 6])).unwrap(),
        AtuStep::Skip
    );
    assert_eq!(
        walk.step(&atu_poll_response(0, 0, 0x0000, [0; 6])).unwrap(),
        AtuStep::Done
    );
}

#[test]
fn atu_walk_field_extraction() {
    // atu_op carries the priorities, atu_fid the filtering id, atu_data
    // the entry state and port vector.
    let resp = atu_poll_response(0x0305, 0x0ABC, 0x1234, [1, 2, 3, 4, 5, 6]);
    let mut walk = AtuWalk::new();
    match walk.step(&resp).unwrap() {
        AtuStep::Record(e) => {
            assert_eq!(e.entry_state, 0x4);
            assert_eq!(e.portvec, 0x123);
            assert_eq!(e.qpri, 0x3);
            assert_eq!(e.fpri, 0x5);
            assert_eq!(e.fid, 0xABC);
            assert_eq!(e.mac, [1, 2, 3, 4, 5, 6]);
        }
        other => panic!("expected a record, got {:?}", other),
    }
}

#[test]
fn atu_walk_short_response_is_an_error() {
    let mut resp = RegisterResponse::default();
    let mut list = RegOpResponseList::new();
    list.add_regop(RegOpResponse::Write { addr: 0x1B, reg: 0x0B, data: 0xC000 });
    resp.regops = list;
    let mut walk = AtuWalk::new();
    assert_eq!(
        walk.step(&resp),
        Err(RmuError::ShortResponse { expected: 8, got: 1 })
    );
}

#[test]
fn atu_walk_wrong_op_kind_is_an_error() {
    // Slot 4 must be a read; a write there is a protocol error.
    let mut list = RegOpResponseList::new();
    for _ in 0..8 {
        list.add_regop(RegOpResponse::Write { addr: 0x1B, reg: 0x0B, data: 0 });
    }
    let mut resp = RegisterResponse::default();
    resp.regops = list;
    let mut walk = AtuWalk::new();
    assert_eq!(walk.step(&resp), Err(RmuError::UnexpectedOp { index: 4 }));
}

#[test]
fn atu_walk_through_marshalled_bytes() {
    // Drive one step through the full byte path: marshal the scripted
    // response, decode it with the checked envelope, then step.
    let resp = atu_poll_response(0x0000, 0x0001, 0x00E5, [9, 8, 7, 6, 5, 4]);
    let mut buf = prealloc_buffer(resp.wire_size());
    resp.marshal(&mut buf);
    let decoded = unmarshal_register_response(&buf).unwrap();
    assert_eq!(decoded.regops.len(), 8);
    let mut walk = AtuWalk::new();
    match walk.step(&decoded).unwrap() {
        AtuStep::Record(e) => assert_eq!(e.mac, [9, 8, 7, 6, 5, 4]),
        other => panic!("expected a record, got {:?}", other),
    }
}

#[test]
fn vtu_request_lists_have_expected_shape() {
    let prep = vtu::build_prepare_requests();
    assert_eq!(prep.len(), 2);
    assert_eq!(*prep.op(1), RegOpRequest::Write { addr: 0x1B, reg: 0x06, data: 0x2FFF });
    let poll = vtu::build_requests();
    assert_eq!(poll.len(), 6);
    assert_eq!(*poll.op(3), RegOpRequest::Read { addr: 0x1B, reg: 0x06 });
}

#[test]
fn vtu_walk_stops_on_first_vid_repeat() {
    // The VLAN id sequence 10, 20, 10 yields records for 10 and 20 only:
    // the repeat of the first id means the circular cursor wrapped.
    let valid = 1u16 << 12;
    let script = vec![
        vtu_poll_response(0x0001, valid | 10, 0x1111, 0x0001),
        vtu_poll_response(0x0002, valid | 20, 0x2222, 0x0002),
        vtu_poll_response(0x0003, valid | 10, 0x3333, 0x0003),
    ];
    let mut walk = VtuWalk::new();
    let mut records = Vec::new();
    for resp in &script {
        match walk.step(resp).unwrap() {
            VtuStep::Record(e) => records.push(e),
            VtuStep::Done => break,
        }
    }
    assert_eq!(records.len(), 2);
    assert_eq!(records[0].vid, 10);
    assert_eq!(records[1].vid, 20);
    assert_eq!(records[0].fid, 1);
    assert_eq!(records[1].data_p0p7, 0x2222);
}

#[test]
fn vtu_walk_stops_on_invalid_entry() {
    // A clear valid bit ends the walk at once.
    let mut walk = VtuWalk::new();
    assert_eq!(
        walk.step(&vtu_poll_response(0, 10, 0, 0)).unwrap(),
        VtuStep::Done
    );
}

#[test]
fn vtu_walk_reads_page_bit() {
    let valid = 1u16 << 12;
    let page = 1u16 << 13;
    let mut walk = VtuWalk::new();
    match walk.step(&vtu_poll_response(0, valid | page | 7, 0, 0)).unwrap() {
        VtuStep::Record(e) => {
            assert_eq!(e.vid, 7);
            assert_eq!(e.page, 1);
        }
        other => panic!("expected a record, got {:?}", other),
    }
}

#[test]
fn vtu_walk_short_response_is_an_error() {
    let resp = RegisterResponse::default();
    let mut walk = VtuWalk::new();
    assert_eq!(
        walk.step(&resp),
        Err(RmuError::ShortResponse { expected: 6, got: 0 })
    );
}

/// The identification answer one scripted device sends.
fn getid_frame(mac: [u8; 6], devid: u8, prodno: u16) -> Vec<u8> {
    let mut resp = GetIdResponse::default();
    resp.header.set_source_address(&mac);
    resp.header.set_device_id(devid);
    resp.header.set_product_number(prodno);
    let mut buf = prealloc_buffer(resp.wire_size());
    resp.marshal(&mut buf);
    buf
}

#[test]
fn discovery_finds_the_one_answering_device() {
    // Probing device ids 0-31 against a transport where only id 7
    // answers, with one frame, yields exactly one device record.
    let smac = [0x10, 0x20, 0x30, 0x40, 0x50, 0x60];
    let mut engine = ScanEngine::new();
    let mut probes: u8 = 0;
    loop {
        let req = engine.current_request(&smac);
        assert_eq!(req.header.device_id, probes);
        assert_eq!(
            req.header.destination_address,
            [0x01, 0x50, 0x43, 0x00, 0x00, 0x03]
        );
        if probes == 7 {
            let frame = getid_frame([0xAA, 0xBB, 0xCC, 0xDD, 0xEE, 0xFF], 7, 0x1234);
            engine.on_frame(&frame).unwrap();
        }
        probes += 1;
        if !engine.on_timeout() {
            break;
        }
    }
    assert_eq!(probes, 32);
    let devs = engine.devices();
    assert_eq!(devs.len(), 1);
    assert_eq!(devs[0].mac, [0xAA, 0xBB, 0xCC, 0xDD, 0xEE, 0xFF]);
    assert_eq!(devs[0].devid, 7);
    assert_eq!(devs[0].prodno, 0x1234);
}

#[test]
fn discovery_drops_duplicate_answers() {
    let smac = [1, 2, 3, 4, 5, 6];
    let mut engine = ScanEngine::new();
    let frame = getid_frame([0xAA, 0xBB, 0xCC, 0xDD, 0xEE, 0xFF], 3, 0x0001);
    engine.on_frame(&frame).unwrap();
    engine.on_frame(&frame).unwrap();
    let other = getid_frame([0xAA, 0xBB, 0xCC, 0xDD, 0xEE, 0x01], 3, 0x0001);
    engine.on_frame(&other).unwrap();
    assert_eq!(engine.devices().len(), 2);
}

#[test]
fn discovery_rejects_short_frames() {
    let mut engine = ScanEngine::new();
    let short = [0u8; 10];
    assert_eq!(engine.on_frame(&short), Err(RmuError::MalformedBuffer));
    assert_eq!(engine.devices().len(), 0);
}
