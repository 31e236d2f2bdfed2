//! Receive-path decisions: ancillary-data parsing and the readiness loop.
//!
//! Each datagram read from the routing socket comes with a chain of
//! control-message records; the arrival interface hides in the record of
//! level `IPPROTO_IP` and type `IP_PKTINFO`, possibly interleaved with
//! records of other kinds.  And each non-blocking read ends in one of
//! three ways — data, would-block, or a real error — of which only the
//! first carries a packet and only the last is fatal: would-block means
//! re-arm the readiness wait and try again, losing nothing.

use crate::dispatcher::ReceivedPacket;
use vstd::prelude::*;

verus! {

/// The control-message level that carries IP-layer records
/// (IPPROTO_IP of the Linux ABI).
pub const CMSG_LEVEL_IP: i32 = 0;

/// The control-message type of the packet-information record
/// (IP_PKTINFO of the Linux ABI).
pub const CMSG_TYPE_PKTINFO: i32 = 8;

/// One record of an ancillary control-message chain, reduced to plain
/// values: its level, its type, and the interface index its data carries
/// when it is a packet-information record.  For records of other kinds
/// `ifindex` is meaningless and never read.
#[derive(Debug, Clone, Copy, PartialEq, Eq, Structural)]
pub struct CmsgRecord {
    /// Originating protocol level of the record.
    pub level: i32,
    /// Protocol-specific record type within that level.
    pub rtype: i32,
    /// The arrival interface index, for packet-information records.
    pub ifindex: i32,
}

/// Whether a record is the packet-information record the receive path
/// looks for.
pub open spec fn is_pktinfo(rec: CmsgRecord) -> bool {
    rec.level == CMSG_LEVEL_IP && rec.rtype == CMSG_TYPE_PKTINFO
}

/// The arrival interface the chain reports: the index carried by the
/// last packet-information record, or `None` when the chain has none.
pub open spec fn spec_pktinfo_ifindex(chain: Seq<CmsgRecord>) -> Option<i32>
    decreases chain.len(),
{
    if chain.len() == 0 {
        None
    } else if is_pktinfo(chain.last()) {
        Some(chain.last().ifindex)
    } else {
        spec_pktinfo_ifindex(chain.drop_last())
    }
}

/// Walk a control-message chain and recover the arrival interface
/// index, if any packet-information record is present.  Records of
/// other levels or types may be interleaved and are passed over.
pub fn parse_cmsgs(chain: &Vec<CmsgRecord>) -> (r: Option<i32>)
    ensures
        r == spec_pktinfo_ifindex(chain@),
{
    let mut found: Option<i32> = None;
    let mut i: usize = 0;
    while i < chain.len()
        invariant
            i <= chain@.len(),
            found == spec_pktinfo_ifindex(chain@.subrange(0, i as int)),
        decreases chain@.len() - i,
    {
        let rec = chain[i];
        if rec.level == CMSG_LEVEL_IP && rec.rtype == CMSG_TYPE_PKTINFO {
            found = Some(rec.ifindex);
        }
        proof {
            assert(chain@.subrange(0, i + 1).drop_last() =~= chain@.subrange(0, i as int));
            assert(chain@.subrange(0, i + 1).last() == chain@[i as int]);
        }
        i += 1;
    }
    proof {
        assert(chain@.subrange(0, chain@.len() as int) =~= chain@);
    }
    found
}

/// How one non-blocking read of the routing socket ended, as the
/// receive loop reports it: a datagram with the arrival interface its
/// control data named, a benign would-block, or an operating-system
/// error code.
pub enum RecvOutcome {
    /// A datagram arrived: its bytes and, when the ancillary data named
    /// one, its arrival interface index.
    Data {
        /// The datagram's bytes.
        data: Vec<u8>,
        /// The arrival interface, when recovered from ancillary data.
        ifindex: Option<i32>,
    },
    /// The socket had nothing after all: a benign race with readiness
    /// notification, not an error.
    WouldBlock,
    /// Any other operating-system error, carried by its code.
    Error {
        /// The operating-system error code.
        code: i32,
    },
}

/// What the receive loop does next: hand a packet on, wait for
/// readiness again, or stop with a fatal error.
pub enum RecvStep {
    /// Hand this packet to the dispatcher, synchronously.
    Deliver {
        /// The packet to hand on.
        pkt: ReceivedPacket,
    },
    /// Re-arm the readiness wait and try again; nothing was lost.
    Rewait,
    /// Stop the pipeline: the error is fatal and propagates.
    Fail {
        /// The operating-system error code that ends the pipeline.
        code: i32,
    },
}

/// The receive loop's one decision, made after every read attempt.
///
/// Data is always delivered, with payload and arrival interface carried
/// through unchanged; would-block always re-arms the wait — it is never
/// treated as data and never as fatal; every other error is fatal.
pub fn classify_recv(outcome: RecvOutcome) -> (r: RecvStep)
    ensures
        outcome matches RecvOutcome::Data { data, ifindex } ==> (r matches RecvStep::Deliver { pkt }
            && pkt.data@ == data@ && pkt.ifindex == ifindex),
        outcome is WouldBlock ==> r is Rewait,
        outcome matches RecvOutcome::Error { code } ==> (r matches RecvStep::Fail {
            code: fatal_code,
        } && fatal_code == code),
{
    match outcome {
        RecvOutcome::Data { data, ifindex } => RecvStep::Deliver {
            pkt: ReceivedPacket { ifindex, data },
        },
        RecvOutcome::WouldBlock => RecvStep::Rewait,
        RecvOutcome::Error { code } => RecvStep::Fail { code },
    }
}

} // verus!
