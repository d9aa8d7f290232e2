//! The ATU (hardware address table) walk: a protocol-level state machine
//! that enumerates the switch's MAC forwarding table one entry per
//! register transaction.
//!
//! A walk is armed once by a prepare transaction, then polled: each poll
//! issues a fixed eight-operation list (trigger get-next, wait for the
//! busy bit, read the control, FID, data and three MAC registers) and
//! yields one record per valid entry.  The device is observed to report
//! one spurious empty entry before the genuine end of the table, so the
//! walk stops only after seeing an empty entry state twice in a row —
//! a device-behaviour workaround, not a protocol rule.
//!
//! The caller owns the transport: it sends the marshalled requests,
//! collects each response, and hands the decoded `RegisterResponse` to
//! `step`.  A response carrying fewer operations than were requested is
//! a hard error for the walk, never a silent skip.

use vstd::prelude::*;

use crate::bits::{spec_get_bits_u16, get_bits_u16};
use crate::error::RmuError;
use crate::messages::RegisterResponse;
use crate::regop::{spec_read_data, RegOpRequest, RegOpRequestList, RegOpResponse};
use crate::wire::{spec_be16_hi, spec_be16_lo};

verus! {

broadcast use vstd::array::group_array_axioms;

/// One harvested address-table entry.
#[derive(Clone, Copy, Debug, PartialEq)]
pub struct AtuEntry {
    pub mac: [u8; 6],
    pub entry_state: u16,
    pub portvec: u16,
    pub qpri: u16,
    pub fpri: u16,
    pub fid: u16,
}

/// What one poll produced: a record, a skipped empty entry, or the end
/// of the table.
#[derive(Clone, Copy, Debug, PartialEq)]
pub enum AtuStep {
    Record(AtuEntry),
    Skip,
    Done,
}

/// The walk's state between polls.
#[derive(Clone, Copy, Debug, PartialEq)]
pub struct AtuWalk {
    /// Whether the previous poll reported an empty entry state.
    pub empty_seen: bool,
    /// Whether the walk has terminated.
    pub done: bool,
}

/// The operations that arm the hardware iteration cursor: wait for the
/// busy bit to clear, seed the MAC registers with all-ones and load the
/// filtering id.
pub fn build_prepare_requests(fid: u8) -> (l: RegOpRequestList)
    ensures
        l@ == seq![
            (RegOpRequest::WaitOnBit0 { addr: 0x1B, reg: 0x0B, bit: 15 }),
            (RegOpRequest::Write { addr: 0x1B, reg: 0x0D, data: 0xFFFF }),
            (RegOpRequest::Write { addr: 0x1B, reg: 0x0E, data: 0xFFFF }),
            (RegOpRequest::Write { addr: 0x1B, reg: 0x0F, data: 0x0FFF }),
            (RegOpRequest::Write { addr: 0x1B, reg: 0x01, data: fid as u16 }),
        ],
{
    let mut l = RegOpRequestList::new();
    l.add_regop(RegOpRequest::WaitOnBit0 { addr: 0x1B, reg: 0x0B, bit: 15 });
    l.add_regop(RegOpRequest::Write { addr: 0x1B, reg: 0x0D, data: 0xFFFF });
    l.add_regop(RegOpRequest::Write { addr: 0x1B, reg: 0x0E, data: 0xFFFF });
    l.add_regop(RegOpRequest::Write { addr: 0x1B, reg: 0x0F, data: 0x0FFF });
    l.add_regop(RegOpRequest::Write { addr: 0x1B, reg: 0x01, data: fid as u16 });
    proof {
        assert(l@ =~= seq![
            (RegOpRequest::WaitOnBit0 { addr: 0x1B, reg: 0x0B, bit: 15 }),
            (RegOpRequest::Write { addr: 0x1B, reg: 0x0D, data: 0xFFFF }),
            (RegOpRequest::Write { addr: 0x1B, reg: 0x0E, data: 0xFFFF }),
            (RegOpRequest::Write { addr: 0x1B, reg: 0x0F, data: 0x0FFF }),
            (RegOpRequest::Write { addr: 0x1B, reg: 0x01, data: fid as u16 }),
        ]);
    }
    l
}

/// The fixed per-poll operation list: trigger get-next, wait for the
/// busy bit, then read ATU_OP, ATU_FID, ATU_DATA and the three MAC
/// registers.
pub fn build_requests() -> (l: RegOpRequestList)
    ensures
        l@ == seq![
            (RegOpRequest::Write { addr: 0x1B, reg: 0x0B, data: 0xC000 }),
            (RegOpRequest::WaitOnBit0 { addr: 0x1B, reg: 0x0B, bit: 15 }),
            (RegOpRequest::Read { addr: 0x1B, reg: 0x0B }),
            (RegOpRequest::Read { addr: 0x1B, reg: 0x01 }),
            (RegOpRequest::Read { addr: 0x1B, reg: 0x0C }),
            (RegOpRequest::Read { addr: 0x1B, reg: 0x0D }),
            (RegOpRequest::Read { addr: 0x1B, reg: 0x0E }),
            (RegOpRequest::Read { addr: 0x1B, reg: 0x0F }),
        ],
{
    let mut l = RegOpRequestList::new();
    l.add_regop(RegOpRequest::Write { addr: 0x1B, reg: 0x0B, data: 0xC000 });
    l.add_regop(RegOpRequest::WaitOnBit0 { addr: 0x1B, reg: 0x0B, bit: 15 });
    l.add_regop(RegOpRequest::Read { addr: 0x1B, reg: 0x0B });
    l.add_regop(RegOpRequest::Read { addr: 0x1B, reg: 0x01 });
    l.add_regop(RegOpRequest::Read { addr: 0x1B, reg: 0x0C });
    l.add_regop(RegOpRequest::Read { addr: 0x1B, reg: 0x0D });
    l.add_regop(RegOpRequest::Read { addr: 0x1B, reg: 0x0E });
    l.add_regop(RegOpRequest::Read { addr: 0x1B, reg: 0x0F });
    proof {
        assert(l@ =~= seq![
            (RegOpRequest::Write { addr: 0x1B, reg: 0x0B, data: 0xC000 }),
            (RegOpRequest::WaitOnBit0 { addr: 0x1B, reg: 0x0B, bit: 15 }),
            (RegOpRequest::Read { addr: 0x1B, reg: 0x0B }),
            (RegOpRequest::Read { addr: 0x1B, reg: 0x01 }),
            (RegOpRequest::Read { addr: 0x1B, reg: 0x0C }),
            (RegOpRequest::Read { addr: 0x1B, reg: 0x0D }),
            (RegOpRequest::Read { addr: 0x1B, reg: 0x0E }),
            (RegOpRequest::Read { addr: 0x1B, reg: 0x0F }),
        ]);
    }
    l
}

/// The exact outcome of handing a poll response with operations `ops` to
/// a walk in state `w`: the step result `r` and the state `w2` after.
pub open spec fn atu_step_post(
    w: AtuWalk,
    ops: Seq<RegOpResponse>,
    r: Result<AtuStep, RmuError>,
    w2: AtuWalk,
) -> bool {
    if ops.len() != 8 {
        r == Err::<AtuStep, RmuError>(
            RmuError::ShortResponse { expected: 8, got: ops.len() as usize },
        ) && w2 == w
    } else if spec_read_data(ops[4]) is None {
        r == Err::<AtuStep, RmuError>(RmuError::UnexpectedOp { index: 4 }) && w2 == w
    } else {
        let atu_data = spec_read_data(ops[4]).unwrap();
        let entry_state = spec_get_bits_u16(atu_data, 4, 0);
        if entry_state == 0 {
            if w.empty_seen {
                r == Ok::<AtuStep, RmuError>(AtuStep::Done) && w2 == (AtuWalk { done: true, ..w })
            } else {
                r == Ok::<AtuStep, RmuError>(AtuStep::Skip) && w2 == (AtuWalk {
                    empty_seen: true,
                    ..w
                })
            }
        } else if spec_read_data(ops[2]) is None {
            r == Err::<AtuStep, RmuError>(RmuError::UnexpectedOp { index: 2 }) && w2 == w
        } else if spec_read_data(ops[3]) is None {
            r == Err::<AtuStep, RmuError>(RmuError::UnexpectedOp { index: 3 }) && w2 == w
        } else if spec_read_data(ops[5]) is None {
            r == Err::<AtuStep, RmuError>(RmuError::UnexpectedOp { index: 5 }) && w2 == w
        } else if spec_read_data(ops[6]) is None {
            r == Err::<AtuStep, RmuError>(RmuError::UnexpectedOp { index: 6 }) && w2 == w
        } else if spec_read_data(ops[7]) is None {
            r == Err::<AtuStep, RmuError>(RmuError::UnexpectedOp { index: 7 }) && w2 == w
        } else {
            let atu_op = spec_read_data(ops[2]).unwrap();
            let atu_fid = spec_read_data(ops[3]).unwrap();
            let mac01 = spec_read_data(ops[5]).unwrap();
            let mac23 = spec_read_data(ops[6]).unwrap();
            let mac45 = spec_read_data(ops[7]).unwrap();
            &&& r matches Ok(AtuStep::Record(e))
            &&& e.entry_state == entry_state
            &&& e.portvec == spec_get_bits_u16(atu_data, 10, 4)
            &&& e.qpri == spec_get_bits_u16(atu_op, 3, 8)
            &&& e.fpri == spec_get_bits_u16(atu_op, 3, 0)
            &&& e.fid == spec_get_bits_u16(atu_fid, 12, 0)
            &&& e.mac@ == seq![
                spec_be16_hi(mac01),
                spec_be16_lo(mac01),
                spec_be16_hi(mac23),
                spec_be16_lo(mac23),
                spec_be16_hi(mac45),
                spec_be16_lo(mac45),
            ]
            &&& w2 == (AtuWalk { empty_seen: false, done: false })
        }
    }
}

impl AtuWalk {
    /// A walk that has seen nothing yet.
    pub fn new() -> (w: AtuWalk)
        ensures
            !w.empty_seen,
            !w.done,
    {
        AtuWalk { empty_seen: false, done: false }
    }

    /// Interpret one poll response: yield a record, skip one empty
    /// entry, or terminate after the second consecutive empty entry.
    pub fn step(&mut self, resp: &RegisterResponse) -> (r: Result<AtuStep, RmuError>)
        requires
            !old(self).done,
        ensures
            atu_step_post(*old(self), resp.regops@, r, *final(self)),
    {
        let got = resp.regops.len();
        if got != 8 {
            return Err(RmuError::ShortResponse { expected: 8, got });
        }
        let atu_data = match resp.regops.op(4).read_data() {
            Some(d) => d,
            None => {
                return Err(RmuError::UnexpectedOp { index: 4 });
            },
        };
        let entry_state = get_bits_u16(atu_data, 4, 0);
        if entry_state == 0 {
            if self.empty_seen {
                self.done = true;
                return Ok(AtuStep::Done);
            }
            self.empty_seen = true;
            return Ok(AtuStep::Skip);
        }
        let atu_op = match resp.regops.op(2).read_data() {
            Some(d) => d,
            None => {
                return Err(RmuError::UnexpectedOp { index: 2 });
            },
        };
        let atu_fid = match resp.regops.op(3).read_data() {
            Some(d) => d,
            None => {
                return Err(RmuError::UnexpectedOp { index: 3 });
            },
        };
        let mac01 = match resp.regops.op(5).read_data() {
            Some(d) => d,
            None => {
                return Err(RmuError::UnexpectedOp { index: 5 });
            },
        };
        let mac23 = match resp.regops.op(6).read_data() {
            Some(d) => d,
            None => {
                return Err(RmuError::UnexpectedOp { index: 6 });
            },
        };
        let mac45 = match resp.regops.op(7).read_data() {
            Some(d) => d,
            None => {
                return Err(RmuError::UnexpectedOp { index: 7 });
            },
        };
        self.empty_seen = false;
        self.done = false;
        let mac: [u8; 6] = [
            ((mac01 >> 8u16) & 0xFF) as u8,
            (mac01 & 0xFF) as u8,
            ((mac23 >> 8u16) & 0xFF) as u8,
            (mac23 & 0xFF) as u8,
            ((mac45 >> 8u16) & 0xFF) as u8,
            (mac45 & 0xFF) as u8,
        ];
        let entry = AtuEntry {
            mac,
            entry_state,
            portvec: get_bits_u16(atu_data, 10, 4),
            qpri: get_bits_u16(atu_op, 3, 8),
            fpri: get_bits_u16(atu_op, 3, 0),
            fid: get_bits_u16(atu_fid, 12, 0),
        };
        proof {
            assert(entry.mac@ =~= seq![
                spec_be16_hi(mac01),
                spec_be16_lo(mac01),
                spec_be16_hi(mac23),
                spec_be16_lo(mac23),
                spec_be16_hi(mac45),
                spec_be16_lo(mac45),
            ]);
        }
        Ok(AtuStep::Record(entry))
    }
}

} // verus!
