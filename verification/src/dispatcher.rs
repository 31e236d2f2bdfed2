//! Per-interface packet dispatch.
//!
//! The dispatcher owns a registry from interface index to packet sink
//! and routes every received packet to the sink of its arrival
//! interface.  A packet whose arrival interface is unknown, or has no
//! registered sink, is counted and discarded — never delivered
//! elsewhere and never a crash.  Deliveries to one sink happen in
//! submission order, whatever traffic other interfaces see.

use std::collections::HashMap;
use vstd::prelude::*;

verus! {

broadcast use vstd::std_specs::hash::group_hash_axioms;

/// A packet as the receive path hands it over: its bytes and, when the
/// ancillary data named one, the kernel index of the interface it
/// arrived on.  An absent arrival interface is a valid state, not an
/// error.
#[derive(Debug)]
pub struct ReceivedPacket {
    /// Arrival interface index, when one was recovered.
    pub ifindex: Option<i32>,
    /// The datagram's bytes.
    pub data: Vec<u8>,
}

/// Where one packet went.
#[derive(Debug, Clone, Copy, PartialEq, Eq, Structural)]
pub enum DispatchOutcome {
    /// The packet was queued for the sink of this interface index.
    Delivered {
        /// The interface index whose sink took the packet.
        ifindex: i32,
    },
    /// No sink was registered for the packet's arrival interface, or
    /// the arrival interface was unknown; the packet was counted and
    /// dropped.
    Discarded,
}

/// A discard counter one higher, held at the ceiling rather than
/// wrapped.
pub open spec fn spec_count_discard(discarded: u64) -> u64 {
    if discarded == u64::MAX {
        discarded
    } else {
        (discarded + 1) as u64
    }
}

/// One dispatch step over the abstract state — the registry of sink
/// queues and the discard counter.  A packet tagged with a registered
/// interface joins the tail of that sink's queue; any other packet
/// bumps the counter and changes no queue.
pub open spec fn spec_dispatch(
    sinks: Map<i32, Seq<ReceivedPacket>>,
    discarded: u64,
    pkt: ReceivedPacket,
) -> (Map<i32, Seq<ReceivedPacket>>, u64) {
    if pkt.ifindex is Some && sinks.contains_key(pkt.ifindex->0) {
        (sinks.insert(pkt.ifindex->0, sinks[pkt.ifindex->0].push(pkt)), discarded)
    } else {
        (sinks, spec_count_discard(discarded))
    }
}

/// Repeated dispatch of a whole packet sequence, in order.
pub open spec fn spec_dispatch_all(
    sinks: Map<i32, Seq<ReceivedPacket>>,
    discarded: u64,
    pkts: Seq<ReceivedPacket>,
) -> (Map<i32, Seq<ReceivedPacket>>, u64)
    decreases pkts.len(),
{
    if pkts.len() == 0 {
        (sinks, discarded)
    } else {
        let (s2, d2) = spec_dispatch(sinks, discarded, pkts[0]);
        spec_dispatch_all(s2, d2, pkts.subrange(1, pkts.len() as int))
    }
}

/// The subsequence of `pkts` tagged with arrival interface `i`, in
/// order.
pub open spec fn tagged_for(pkts: Seq<ReceivedPacket>, i: i32) -> Seq<ReceivedPacket>
    decreases pkts.len(),
{
    if pkts.len() == 0 {
        Seq::empty()
    } else {
        let rest = tagged_for(pkts.subrange(1, pkts.len() as int), i);
        if pkts[0].ifindex == Some(i) {
            seq![pkts[0]] + rest
        } else {
            rest
        }
    }
}

/// Packets tagged for a registered interface reach that interface's
/// sink in submission order, however packets for other interfaces are
/// interleaved: after dispatching `pkts`, sink `i` holds its old queue
/// followed by exactly the packets tagged `i`, in order.
pub proof fn lemma_dispatch_preserves_per_sink_order(
    sinks: Map<i32, Seq<ReceivedPacket>>,
    discarded: u64,
    pkts: Seq<ReceivedPacket>,
    i: i32,
)
    requires
        sinks.contains_key(i),
    ensures
        ({
            let (s2, _) = spec_dispatch_all(sinks, discarded, pkts);
            &&& s2.contains_key(i)
            &&& s2[i] == sinks[i] + tagged_for(pkts, i)
        }),
    decreases pkts.len(),
{
    if pkts.len() == 0 {
        assert(sinks[i] + tagged_for(pkts, i) =~= sinks[i]);
    } else {
        let p0 = pkts[0];
        let rest = pkts.subrange(1, pkts.len() as int);
        let (s2, d2) = spec_dispatch(sinks, discarded, p0);
        lemma_dispatch_preserves_per_sink_order(s2, d2, rest, i);
        if p0.ifindex is Some && sinks.contains_key(p0.ifindex->0) {
            let j = p0.ifindex->0;
            if j == i {
                assert(s2[i] == sinks[i].push(p0));
                assert(sinks[i].push(p0) + tagged_for(rest, i) =~= sinks[i] + (seq![p0]
                    + tagged_for(rest, i)));
            } else {
                assert(s2[i] == sinks[i]);
            }
        }
    }
}

/// How many packets of `pkts` have no resolvable sink in `sinks`:
/// those whose arrival interface is unknown or not a key of the
/// registry.
pub open spec fn unrouted_count(
    sinks: Map<i32, Seq<ReceivedPacket>>,
    pkts: Seq<ReceivedPacket>,
) -> nat
    decreases pkts.len(),
{
    if pkts.len() == 0 {
        0
    } else {
        let here: nat = if pkts[0].ifindex is Some && sinks.contains_key(pkts[0].ifindex->0) {
            0
        } else {
            1
        };
        here + unrouted_count(sinks, pkts.subrange(1, pkts.len() as int))
    }
}

/// Which packets are routable is decided by the registry's key set
/// alone, not by what the queues hold.
proof fn lemma_unrouted_count_same_dom(
    a: Map<i32, Seq<ReceivedPacket>>,
    b: Map<i32, Seq<ReceivedPacket>>,
    pkts: Seq<ReceivedPacket>,
)
    requires
        a.dom() == b.dom(),
    ensures
        unrouted_count(a, pkts) == unrouted_count(b, pkts),
    decreases pkts.len(),
{
    if pkts.len() > 0 {
        lemma_unrouted_count_same_dom(a, b, pkts.subrange(1, pkts.len() as int));
    }
}

/// A dispatch run neither registers nor removes a sink, and its
/// discard counter rises by exactly the number of unroutable packets
/// — every discard is counted, and nothing else is (stated below the
/// counter's ceiling, where no saturation intervenes).
pub proof fn lemma_dispatch_counts_every_discard(
    sinks: Map<i32, Seq<ReceivedPacket>>,
    discarded: u64,
    pkts: Seq<ReceivedPacket>,
)
    requires
        discarded + unrouted_count(sinks, pkts) <= u64::MAX,
    ensures
        ({
            let (s2, d2) = spec_dispatch_all(sinks, discarded, pkts);
            &&& s2.dom() == sinks.dom()
            &&& d2 == discarded + unrouted_count(sinks, pkts)
        }),
    decreases pkts.len(),
{
    if pkts.len() > 0 {
        let p0 = pkts[0];
        let rest = pkts.subrange(1, pkts.len() as int);
        let (s1, d1) = spec_dispatch(sinks, discarded, p0);
        assert(s1.dom() =~= sinks.dom());
        lemma_unrouted_count_same_dom(s1, sinks, rest);
        lemma_dispatch_counts_every_discard(s1, d1, rest);
    }
}

/// A packet with no resolvable sink — its arrival interface unknown,
/// or without a registered sink — is counted and delivered nowhere:
/// dispatching it raises the discard counter and leaves every queue,
/// of every interface, exactly as it was.
pub proof fn lemma_unroutable_packet_counted_never_delivered(
    sinks: Map<i32, Seq<ReceivedPacket>>,
    discarded: u64,
    pkt: ReceivedPacket,
)
    requires
        !(pkt.ifindex is Some && sinks.contains_key(pkt.ifindex->0)),
    ensures
        (spec_dispatch(sinks, discarded, pkt)).0 == sinks,
        (spec_dispatch(sinks, discarded, pkt)).1 == spec_count_discard(discarded),
{
}

/// The sink registry and discard counter of the dispatch stage.
///
/// Each registered interface index owns one queue of packets delivered
/// to it and not yet drained by its consumer.
pub struct Dispatcher {
    sinks: HashMap<i32, Vec<ReceivedPacket>>,
    discarded: u64,
}

impl Dispatcher {
    /// The queued packets of every registered sink, by interface index.
    pub closed spec fn queues(&self) -> Map<i32, Seq<ReceivedPacket>> {
        self.sinks@.map_values(|q: Vec<ReceivedPacket>| q@)
    }

    /// How many packets were discarded for want of a resolvable sink.
    pub closed spec fn discard_count(&self) -> u64 {
        self.discarded
    }

    /// A dispatcher with no sinks and nothing discarded.
    pub fn new() -> (r: Dispatcher)
        ensures
            r.queues() == Map::<i32, Seq<ReceivedPacket>>::empty(),
            r.discard_count() == 0,
    {
        let d = Dispatcher { sinks: HashMap::new(), discarded: 0 };
        proof {
            assert(d.queues() =~= Map::<i32, Seq<ReceivedPacket>>::empty());
        }
        d
    }

    /// Register a sink for an interface index, with an empty queue.  A
    /// sink already registered under that index is replaced, and
    /// whatever it still held is gone with it.
    pub fn add_sink(&mut self, ifindex: i32)
        ensures
            final(self).queues() == old(self).queues().insert(
                ifindex,
                Seq::<ReceivedPacket>::empty(),
            ),
            final(self).discard_count() == old(self).discard_count(),
    {
        self.sinks.insert(ifindex, Vec::new());
        proof {
            assert(self.queues() =~= old(self).queues().insert(
                ifindex,
                Seq::<ReceivedPacket>::empty(),
            ));
        }
    }

    /// Deregister the sink of an interface index, discarding whatever
    /// it still held.  Unknown indices are a no-op.
    pub fn remove_sink(&mut self, ifindex: i32)
        ensures
            final(self).queues() == old(self).queues().remove(ifindex),
            final(self).discard_count() == old(self).discard_count(),
    {
        self.sinks.remove(&ifindex);
        proof {
            assert(self.queues() =~= old(self).queues().remove(ifindex));
        }
    }

    /// Whether an interface index has a registered sink.
    pub fn has_sink(&self, ifindex: i32) -> (r: bool)
        ensures
            r == self.queues().contains_key(ifindex),
    {
        self.sinks.contains_key(&ifindex)
    }

    /// How many packets were counted as discarded so far.
    pub fn discarded_so_far(&self) -> (r: u64)
        ensures
            r == self.discard_count(),
    {
        self.discarded
    }

    /// Route one packet: append it to the queue of its arrival
    /// interface's sink, or — when the arrival interface is unknown or
    /// has no sink — count it and drop it, touching no queue.
    pub fn dispatch(&mut self, pkt: ReceivedPacket) -> (r: DispatchOutcome)
        ensures
            (final(self).queues(), final(self).discard_count()) == spec_dispatch(
                old(self).queues(),
                old(self).discard_count(),
                pkt,
            ),
            r is Delivered <==> (pkt.ifindex is Some && old(self).queues().contains_key(
                pkt.ifindex->0,
            )),
            r matches DispatchOutcome::Delivered { ifindex } ==> pkt.ifindex == Some(ifindex),
    {
        let i = match pkt.ifindex {
            Some(i) => i,
            None => {
                self.count_discard();
                return DispatchOutcome::Discarded;
            },
        };
        match self.sinks.remove(&i) {
            Some(mut q) => {
                q.push(pkt);
                self.sinks.insert(i, q);
                proof {
                    assert(self.queues() =~= old(self).queues().insert(
                        i,
                        old(self).queues()[i].push(pkt),
                    ));
                }
                DispatchOutcome::Delivered { ifindex: i }
            },
            None => {
                self.count_discard();
                DispatchOutcome::Discarded
            },
        }
    }

    /// Hand out everything queued for an interface's sink, in delivery
    /// order, leaving the sink registered with an empty queue.  `None`
    /// exactly when the interface has no sink.
    pub fn take_queued(&mut self, ifindex: i32) -> (r: Option<Vec<ReceivedPacket>>)
        ensures
            old(self).queues().contains_key(ifindex) ==> (r matches Some(v) && v@ == old(
                self,
            ).queues()[ifindex] && final(self).queues() == old(self).queues().insert(
                ifindex,
                Seq::<ReceivedPacket>::empty(),
            )),
            !old(self).queues().contains_key(ifindex) ==> r is None && final(self).queues() == old(
                self,
            ).queues(),
            final(self).discard_count() == old(self).discard_count(),
    {
        match self.sinks.remove(&ifindex) {
            Some(q) => {
                self.sinks.insert(ifindex, Vec::new());
                proof {
                    assert(self.queues() =~= old(self).queues().insert(
                        ifindex,
                        Seq::<ReceivedPacket>::empty(),
                    ));
                }
                Some(q)
            },
            None => None,
        }
    }

    fn count_discard(&mut self)
        ensures
            final(self).queues() == old(self).queues(),
            final(self).discard_count() == spec_count_discard(old(self).discard_count()),
    {
        if self.discarded < u64::MAX {
            self.discarded = self.discarded + 1;
        }
    }
}

} // verus!
