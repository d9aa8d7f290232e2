//! The VTU (hardware VLAN table) walk: a protocol-level state machine
//! that enumerates the switch's VLAN membership table one entry per
//! register transaction.
//!
//! The hardware iteration cursor is circular, so the walk records the
//! first VLAN id it yields and stops when that id comes round again, or
//! as soon as an entry with a clear valid bit is read — a
//! device-behaviour workaround observed on real hardware, not a
//! documented protocol rule.
//!
//! The caller owns the transport, as for the address-table walk, and
//! hands each decoded `RegisterResponse` to `step`.

use vstd::prelude::*;

use crate::bits::{get_bit_u16, get_bits_u16, spec_get_bit_u16, spec_get_bits_u16};
use crate::error::RmuError;
use crate::messages::RegisterResponse;
use crate::regop::{spec_read_data, RegOpRequest, RegOpRequestList, RegOpResponse};

verus! {

/// One harvested VLAN-table entry.
#[derive(Clone, Copy, Debug, PartialEq)]
pub struct VtuEntry {
    pub fid: u16,
    pub vid: u16,
    pub page: u16,
    pub raw_fid: u16,
    pub raw_vid: u16,
    pub data_p0p7: u16,
    pub data_p8p9: u16,
}

/// What one poll produced: a record or the end of the table.
#[derive(Clone, Copy, Debug, PartialEq)]
pub enum VtuStep {
    Record(VtuEntry),
    Done,
}

/// The walk's state between polls.
#[derive(Clone, Copy, Debug, PartialEq)]
pub struct VtuWalk {
    /// The first VLAN id yielded by this walk, used to detect the
    /// cursor wrapping around.
    pub first_vid: Option<u16>,
    /// Whether the walk has terminated.
    pub done: bool,
}

/// The operations that arm the hardware iteration cursor: wait for the
/// busy bit to clear, then seed the VID register with the all-ones
/// starting position.
pub fn build_prepare_requests() -> (l: RegOpRequestList)
    ensures
        l@ == seq![
            (RegOpRequest::WaitOnBit0 { addr: 0x1B, reg: 0x05, bit: 15 }),
            (RegOpRequest::Write { addr: 0x1B, reg: 0x06, data: 0x2FFF }),
        ],
{
    let mut l = RegOpRequestList::new();
    l.add_regop(RegOpRequest::WaitOnBit0 { addr: 0x1B, reg: 0x05, bit: 15 });
    l.add_regop(RegOpRequest::Write { addr: 0x1B, reg: 0x06, data: 0x2FFF });
    proof {
        assert(l@ =~= seq![
            (RegOpRequest::WaitOnBit0 { addr: 0x1B, reg: 0x05, bit: 15 }),
            (RegOpRequest::Write { addr: 0x1B, reg: 0x06, data: 0x2FFF }),
        ]);
    }
    l
}

/// The fixed per-poll operation list: trigger get-next, wait for the
/// busy bit, then read VTU_FID, VTU_VID and the two port-data registers.
pub fn build_requests() -> (l: RegOpRequestList)
    ensures
        l@ == seq![
            (RegOpRequest::Write { addr: 0x1B, reg: 0x05, data: 0xC000 }),
            (RegOpRequest::WaitOnBit0 { addr: 0x1B, reg: 0x05, bit: 15 }),
            (RegOpRequest::Read { addr: 0x1B, reg: 0x02 }),
            (RegOpRequest::Read { addr: 0x1B, reg: 0x06 }),
            (RegOpRequest::Read { addr: 0x1B, reg: 0x07 }),
            (RegOpRequest::Read { addr: 0x1B, reg: 0x08 }),
        ],
{
    let mut l = RegOpRequestList::new();
    l.add_regop(RegOpRequest::Write { addr: 0x1B, reg: 0x05, data: 0xC000 });
    l.add_regop(RegOpRequest::WaitOnBit0 { addr: 0x1B, reg: 0x05, bit: 15 });
    l.add_regop(RegOpRequest::Read { addr: 0x1B, reg: 0x02 });
    l.add_regop(RegOpRequest::Read { addr: 0x1B, reg: 0x06 });
    l.add_regop(RegOpRequest::Read { addr: 0x1B, reg: 0x07 });
    l.add_regop(RegOpRequest::Read { addr: 0x1B, reg: 0x08 });
    proof {
        assert(l@ =~= seq![
            (RegOpRequest::Write { addr: 0x1B, reg: 0x05, data: 0xC000 }),
            (RegOpRequest::WaitOnBit0 { addr: 0x1B, reg: 0x05, bit: 15 }),
            (RegOpRequest::Read { addr: 0x1B, reg: 0x02 }),
            (RegOpRequest::Read { addr: 0x1B, reg: 0x06 }),
            (RegOpRequest::Read { addr: 0x1B, reg: 0x07 }),
            (RegOpRequest::Read { addr: 0x1B, reg: 0x08 }),
        ]);
    }
    l
}

/// The exact outcome of handing a poll response with operations `ops` to
/// a walk in state `w`: the step result `r` and the state `w2` after.
pub open spec fn vtu_step_post(
    w: VtuWalk,
    ops: Seq<RegOpResponse>,
    r: Result<VtuStep, RmuError>,
    w2: VtuWalk,
) -> bool {
    if ops.len() != 6 {
        r == Err::<VtuStep, RmuError>(
            RmuError::ShortResponse { expected: 6, got: ops.len() as usize },
        ) && w2 == w
    } else if spec_read_data(ops[3]) is None {
        r == Err::<VtuStep, RmuError>(RmuError::UnexpectedOp { index: 3 }) && w2 == w
    } else {
        let raw_vid = spec_read_data(ops[3]).unwrap();
        let vid = spec_get_bits_u16(raw_vid, 12, 0);
        let valid = spec_get_bit_u16(raw_vid, 12);
        let page = spec_get_bit_u16(raw_vid, 13);
        if valid == 0 || w.first_vid == Some(vid) {
            r == Ok::<VtuStep, RmuError>(VtuStep::Done) && w2 == (VtuWalk { done: true, ..w })
        } else if spec_read_data(ops[2]) is None {
            r == Err::<VtuStep, RmuError>(RmuError::UnexpectedOp { index: 2 }) && w2 == w
        } else if spec_read_data(ops[4]) is None {
            r == Err::<VtuStep, RmuError>(RmuError::UnexpectedOp { index: 4 }) && w2 == w
        } else if spec_read_data(ops[5]) is None {
            r == Err::<VtuStep, RmuError>(RmuError::UnexpectedOp { index: 5 }) && w2 == w
        } else {
            let raw_fid = spec_read_data(ops[2]).unwrap();
            &&& r matches Ok(VtuStep::Record(e))
            &&& e.fid == spec_get_bits_u16(raw_fid, 12, 0)
            &&& e.vid == vid
            &&& e.page == page
            &&& e.raw_fid == raw_fid
            &&& e.raw_vid == raw_vid
            &&& e.data_p0p7 == spec_read_data(ops[4]).unwrap()
            &&& e.data_p8p9 == spec_read_data(ops[5]).unwrap()
            &&& w2 == (VtuWalk {
                first_vid: if w.first_vid is None {
                    Some(vid)
                } else {
                    w.first_vid
                },
                done: false,
            })
        }
    }
}

impl VtuWalk {
    /// A walk that has seen nothing yet.
    pub fn new() -> (w: VtuWalk)
        ensures
            w.first_vid is None,
            !w.done,
    {
        VtuWalk { first_vid: None, done: false }
    }

    /// Interpret one poll response: yield a record, or terminate on an
    /// invalid entry or on the first VLAN id coming round again.
    pub fn step(&mut self, resp: &RegisterResponse) -> (r: Result<VtuStep, RmuError>)
        requires
            !old(self).done,
        ensures
            vtu_step_post(*old(self), resp.regops@, r, *final(self)),
    {
        let got = resp.regops.len();
        if got != 6 {
            return Err(RmuError::ShortResponse { expected: 6, got });
        }
        let raw_vid = match resp.regops.op(3).read_data() {
            Some(d) => d,
            None => {
                return Err(RmuError::UnexpectedOp { index: 3 });
            },
        };
        let vid = get_bits_u16(raw_vid, 12, 0);
        let valid = get_bit_u16(raw_vid, 12);
        let page = get_bit_u16(raw_vid, 13);
        let wrapped = match self.first_vid {
            Some(first) => first == vid,
            None => false,
        };
        if valid == 0 || wrapped {
            self.done = true;
            return Ok(VtuStep::Done);
        }
        let raw_fid = match resp.regops.op(2).read_data() {
            Some(d) => d,
            None => {
                return Err(RmuError::UnexpectedOp { index: 2 });
            },
        };
        let data_p0p7 = match resp.regops.op(4).read_data() {
            Some(d) => d,
            None => {
                return Err(RmuError::UnexpectedOp { index: 4 });
            },
        };
        let data_p8p9 = match resp.regops.op(5).read_data() {
            Some(d) => d,
            None => {
                return Err(RmuError::UnexpectedOp { index: 5 });
            },
        };
        if self.first_vid.is_none() {
            self.first_vid = Some(vid);
        }
        self.done = false;
        let entry = VtuEntry {
            fid: get_bits_u16(raw_fid, 12, 0),
            vid,
            page,
            raw_fid,
            raw_vid,
            data_p0p7,
            data_p8p9,
        };
        Ok(VtuStep::Record(entry))
    }
}

} // verus!
