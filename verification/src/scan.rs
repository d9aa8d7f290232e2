//! Device discovery: probe every device id on the multicast address and
//! collect the distinct devices that answer.
//!
//! The engine steps through device ids 0–31.  For each id the caller
//! sends the engine's current request and then runs a collection window:
//! every frame received before the window's first timeout is handed to
//! `on_frame`, and the timeout itself to `on_timeout`, which moves the
//! engine to the next id.  Each identification answer contributes one
//! (MAC, device id, product number) triple; duplicates are dropped.

use vstd::prelude::*;

use crate::error::RmuError;
use crate::messages::{GetIdRequest, GetIdResponse};

verus! {

broadcast use vstd::array::group_array_axioms;

/// The fixed multicast address used when probing for unknown devices.
pub const RMU_MULTICAST_ADDR: [u8; 6] = [0x01, 0x50, 0x43, 0x00, 0x00, 0x03];

/// One discovered device: a distinct (MAC, device id, product number)
/// triple.
#[derive(Clone, Copy, Debug, PartialEq)]
pub struct DevInfo {
    pub mac: [u8; 6],
    pub devid: u8,
    pub prodno: u16,
}

/// Whether `d` is the device described by the identification answer
/// `b`: its MAC is the frame's source address, its device id the masked
/// id byte, its product number the 16-bit field at bytes 24-25.
pub open spec fn dev_from_frame(d: DevInfo, b: Seq<u8>) -> bool {
    &&& d.mac@ == b.subrange(6, 12)
    &&& d.devid == b[16] & 0x1F
    &&& d.prodno == crate::wire::spec_be16(b[24], b[25])
}

/// How one identification answer `b` changes the collected device list:
/// nothing if the described triple is already present, else that triple
/// is appended.
pub open spec fn scan_frame_post(b: Seq<u8>, devs: Seq<DevInfo>, devs2: Seq<DevInfo>) -> bool {
    if exists|i: int| 0 <= i < devs.len() && #[trigger] dev_from_frame(devs[i], b) {
        devs2 == devs
    } else {
        &&& devs2.len() == devs.len() + 1
        &&& devs2.take(devs.len() as int) == devs
        &&& dev_from_frame(devs2[devs.len() as int], b)
    }
}

/// The discovery engine's state: the device id currently probed, the
/// running sequence number, and the devices collected so far.
#[derive(Clone, Debug, PartialEq)]
pub struct ScanEngine {
    pub devid: u8,
    pub seqno: u8,
    pub devs: Vec<DevInfo>,
    pub done: bool,
}

impl ScanEngine {
    /// An engine about to probe device id 0.
    pub fn new() -> (s: ScanEngine)
        ensures
            s.devid == 0,
            s.seqno == 0,
            s.devs@ == Seq::<DevInfo>::empty(),
            !s.done,
    {
        let s = ScanEngine { devid: 0, seqno: 0, devs: Vec::new(), done: false };
        proof {
            assert(s.devs@ =~= Seq::<DevInfo>::empty());
        }
        s
    }

    /// The probe for the device id currently under scan.
    pub fn current_request(&self, smac: &[u8; 6]) -> (r: GetIdRequest)
        requires
            !self.done,
        ensures
            r.header.destination_address == RMU_MULTICAST_ADDR,
            r.header.source_address == *smac,
            r.header.ether_type == 0x9101,
            r.header.device_id == self.devid,
            r.header.sequence_number == self.seqno,
            r.header.length_type == 0x0006,
            r.header.format == 0x0000,
            r.header.code == 0x0000,
    {
        GetIdRequest::build(&RMU_MULTICAST_ADDR, smac, self.devid, self.seqno)
    }

    /// Record one identification answer received inside the current
    /// collection window.  A triple already collected is not added
    /// again.
    pub fn on_frame(&mut self, frame: &[u8]) -> (r: Result<(), RmuError>)
        ensures
            match r {
                Ok(_) => frame@.len() >= 28 && scan_frame_post(
                    frame@,
                    old(self).devs@,
                    final(self).devs@,
                ),
                Err(e) => frame@.len() < 28 && e == RmuError::MalformedBuffer && *final(self)
                    == *old(self),
            },
            final(self).devid == old(self).devid,
            final(self).seqno == old(self).seqno,
            final(self).done == old(self).done,
    {
        let resp = match GetIdResponse::unmarshal(frame) {
            Ok(m) => m,
            Err(e) => {
                return Err(e);
            },
        };
        let dev = DevInfo {
            mac: resp.header.source_address,
            devid: resp.header.device_id,
            prodno: resp.header.product_number,
        };
        proof {
            assert(dev_from_frame(dev, frame@));
        }
        let n = self.devs.len();
        let mut i: usize = 0;
        while i < n
            invariant
                i <= n,
                n == self.devs@.len(),
                *self == *old(self),
                dev_from_frame(dev, frame@),
                frame@.len() >= 28,
                forall|j: int| 0 <= j < i ==> self.devs@[j] != dev,
            decreases n - i,
        {
            let known = self.devs[i];
            if known.devid == dev.devid && known.prodno == dev.prodno && known.mac[0] == dev.mac[0]
                && known.mac[1] == dev.mac[1] && known.mac[2] == dev.mac[2] && known.mac[3]
                == dev.mac[3] && known.mac[4] == dev.mac[4] && known.mac[5] == dev.mac[5] {
                proof {
                    assert(known.mac =~= dev.mac);
                    assert(self.devs@[i as int] == dev);
                    assert(dev_from_frame(self.devs@[i as int], frame@));
                }
                return Ok(());
            }
            proof {
                if self.devs@[i as int] == dev {
                    assert(self.devs@[i as int].mac@[0] == dev.mac@[0]);
                }
            }
            i = i + 1;
        }
        let ghost prev = self.devs@;
        self.devs.push(dev);
        proof {
            assert forall|j: int| 0 <= j < prev.len() implies !dev_from_frame(
                prev[j],
                frame@,
            ) by {
                if dev_from_frame(prev[j], frame@) {
                    assert(prev[j].mac =~= dev.mac);
                    assert(prev[j] == dev);
                }
            };
            assert(self.devs@.take(prev.len() as int) =~= prev);
            assert(self.devs@[prev.len() as int] == dev);
        }
        Ok(())
    }

    /// Close the current collection window: advance to the next device
    /// id, bumping the sequence number.  Returns whether another probe
    /// is owed.
    pub fn on_timeout(&mut self) -> (more: bool)
        requires
            !old(self).done,
        ensures
            final(self).devs@ == old(self).devs@,
            if old(self).devid < 0x1F {
                &&& more
                &&& final(self).devid == old(self).devid + 1
                &&& final(self).seqno == (if old(self).seqno == 0xFF {
                    0u8
                } else {
                    (old(self).seqno + 1) as u8
                })
                &&& !final(self).done
            } else {
                &&& !more
                &&& final(self).devid == old(self).devid
                &&& final(self).seqno == old(self).seqno
                &&& final(self).done
            },
    {
        if self.devid < 0x1F {
            self.devid = self.devid + 1;
            self.seqno = if self.seqno == 0xFF {
                0
            } else {
                self.seqno + 1
            };
            true
        } else {
            self.done = true;
            false
        }
    }

    /// The devices collected so far.
    pub fn devices(&self) -> (r: &Vec<DevInfo>)
        ensures
            r@ == self.devs@,
    {
        &self.devs
    }
}

} // verus!
