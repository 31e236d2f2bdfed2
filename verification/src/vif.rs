//! Interface classification and virtual-interface (VIF) registration.
//!
//! The host's interfaces arrive as plain records; only multicast-capable,
//! non-loopback ones take part in multicast routing.  Each retained
//! interface is then registered with the kernel forwarding subsystem as a
//! VIF; VIF indices are handed out densely, in catalog order, starting at
//! zero, and the kernel caps their number.

use vstd::prelude::*;

verus! {

/// Bit set in an interface's flags word when the interface is
/// multicast-capable (the IFF_MULTICAST bit of the Linux ABI).
pub const FLAG_MULTICAST: i16 = 0x1000;

/// Bit set in an interface's flags word when the interface is a loopback
/// device (the IFF_LOOPBACK bit of the Linux ABI).
pub const FLAG_LOOPBACK: i16 = 0x8;

/// The kernel registers at most this many VIFs on one routing socket.
pub const MAX_VIFS: usize = 32;

/// The address-family tag of IPv4 socket addresses (AF_INET of the
/// Linux ABI).
pub const FAMILY_INET: i32 = 2;

/// The primary-address policy of enumeration: a reported address
/// counts only when its family tag is IPv4; any other family yields no
/// address — not an error.
pub fn address_for_family(family: i32, addr: u32) -> (r: Option<u32>)
    ensures
        family == FAMILY_INET ==> r == Some(addr),
        family != FAMILY_INET ==> r is None,
{
    if family == FAMILY_INET {
        Some(addr)
    } else {
        None
    }
}

/// One host network interface as enumeration reports it.
///
/// Addresses are IPv4 values as 32-bit integers in the byte order the
/// address bytes spell (most significant byte first).  `None` stands for
/// a field that a per-interface follow-up query could not fill; a kernel
/// index of `-1` means the index query failed.  Neither degrades the
/// record as a whole.
#[derive(Debug)]
pub struct InterfaceInfo {
    /// Interface name, as the kernel reports it.
    pub name: String,
    /// Kernel interface index, or `-1` when unknown.
    pub ifindex: i32,
    /// Primary IPv4 address, when one was reported.
    pub addr: Option<u32>,
    /// IPv4 netmask, when one was reported.
    pub netmask: Option<u32>,
    /// Interface flags word.
    pub flags: i16,
}

/// The retention policy: an interface takes part in multicast routing
/// exactly when its multicast flag is set and its loopback flag is clear.
pub open spec fn keep_interface(flags: i16) -> bool {
    (flags & FLAG_MULTICAST) != 0 && (flags & FLAG_LOOPBACK) == 0
}

/// The subsequence of `s` that the retention policy keeps, in order.
pub open spec fn kept_interfaces(s: Seq<InterfaceInfo>) -> Seq<InterfaceInfo>
    decreases s.len(),
{
    if s.len() == 0 {
        Seq::empty()
    } else {
        let rest = kept_interfaces(s.drop_last());
        if keep_interface(s.last().flags) {
            rest.push(s.last())
        } else {
            rest
        }
    }
}

/// Every interface the policy keeps has the multicast flag set and the
/// loopback flag clear, whatever list the host reported.
pub proof fn lemma_kept_interfaces_sound(s: Seq<InterfaceInfo>)
    ensures
        forall|i: int|
            0 <= i < kept_interfaces(s).len() ==> keep_interface(
                #[trigger] kept_interfaces(s)[i].flags,
            ),
    decreases s.len(),
{
    if s.len() > 0 {
        lemma_kept_interfaces_sound(s.drop_last());
    }
}

/// Keep only the multicast-capable, non-loopback interfaces of `list`,
/// in their original order.
pub fn filter_interfaces(list: Vec<InterfaceInfo>) -> (r: Vec<InterfaceInfo>)
    ensures
        r@ == kept_interfaces(list@),
        forall|i: int| 0 <= i < r@.len() ==> keep_interface(#[trigger] r@[i].flags),
{
    let ghost orig: Seq<InterfaceInfo> = list@;
    let mut rest = list;
    let mut kept: Vec<InterfaceInfo> = Vec::new();
    while rest.len() > 0
        invariant
            rest@.len() <= orig.len(),
            rest@ == orig.subrange(orig.len() - rest@.len(), orig.len() as int),
            kept@ == kept_interfaces(orig.subrange(0, orig.len() - rest@.len())),
        decreases rest@.len(),
    {
        let ghost k: int = orig.len() - rest@.len();
        let it = rest.remove(0);
        proof {
            assert(it == orig[k]);
            assert(rest@ =~= orig.subrange(k + 1, orig.len() as int));
        }
        if (it.flags & FLAG_MULTICAST) != 0 && (it.flags & FLAG_LOOPBACK) == 0 {
            kept.push(it);
        }
        proof {
            assert(orig.subrange(0, k + 1).drop_last() =~= orig.subrange(0, k));
            assert(orig.subrange(0, k + 1).last() == orig[k]);
        }
    }
    proof {
        assert(orig.subrange(0, orig.len() as int) =~= orig);
        lemma_kept_interfaces_sound(orig);
    }
    kept
}

/// One virtual interface as registered with the kernel forwarding
/// subsystem.
#[derive(Debug, Clone, Copy, PartialEq, Eq, Structural)]
pub struct VifRegistration {
    /// The dense VIF index the registration was issued under.
    pub vif_index: u16,
    /// The kernel index of the interface the VIF stands for.
    pub interface_index: i32,
    /// The interface's IPv4 address, carried in the registration.
    pub address: u32,
}

/// Why an interface could not be registered as a VIF.  Each variant
/// names the offending interface by its kernel index.
#[derive(Debug, Clone, Copy, PartialEq, Eq, Structural)]
pub enum VifError {
    /// The interface's kernel index is already registered.
    DuplicateInterface {
        /// Kernel index of the interface that was refused.
        ifindex: i32,
    },
    /// The kernel's VIF table is full.
    CapacityExceeded {
        /// Kernel index of the interface that was refused.
        ifindex: i32,
    },
    /// The interface carries no IPv4 address to register with.
    InterfaceNotAddressable {
        /// Kernel index of the interface that was refused.
        ifindex: i32,
    },
}

/// Whether some registration in `regs` already covers kernel index
/// `ifindex`.
pub open spec fn has_ifindex(regs: Seq<VifRegistration>, ifindex: i32) -> bool {
    exists|j: int| 0 <= j < regs.len() && regs[j].interface_index == ifindex
}

/// What one registration step yields: the table grown by the next dense
/// VIF index, or the error that refuses the interface.  At most one VIF
/// per interface; the table is capacity-bounded; a registration carries
/// the interface's address.
pub open spec fn spec_add_vif(regs: Seq<VifRegistration>, it: InterfaceInfo) -> Result<
    Seq<VifRegistration>,
    VifError,
> {
    if has_ifindex(regs, it.ifindex) {
        Err(VifError::DuplicateInterface { ifindex: it.ifindex })
    } else if regs.len() >= MAX_VIFS {
        Err(VifError::CapacityExceeded { ifindex: it.ifindex })
    } else if it.addr is None {
        Err(VifError::InterfaceNotAddressable { ifindex: it.ifindex })
    } else {
        Ok(
            regs.push(
                VifRegistration {
                    vif_index: regs.len() as u16,
                    interface_index: it.ifindex,
                    address: it.addr->0,
                },
            ),
        )
    }
}

/// Registration of a whole interface list, one interface at a time, in
/// list order.  The first refusal stops the run and is reported; the
/// registrations made before it stand — registration is not
/// transactional.
pub open spec fn spec_register_all(regs: Seq<VifRegistration>, ifs: Seq<InterfaceInfo>) -> (Seq<
    VifRegistration,
>, Option<VifError>)
    decreases ifs.len(),
{
    if ifs.len() == 0 {
        (regs, None)
    } else {
        match spec_add_vif(regs, ifs[0]) {
            Ok(grown) => spec_register_all(grown, ifs.subrange(1, ifs.len() as int)),
            Err(e) => (regs, Some(e)),
        }
    }
}

/// A well-formed table: VIF indices are exactly the positions (dense,
/// in registration order), the capacity bound holds, and no kernel
/// interface index appears twice.
pub open spec fn table_wf(regs: Seq<VifRegistration>) -> bool {
    &&& regs.len() <= MAX_VIFS
    &&& forall|i: int| 0 <= i < regs.len() ==> (#[trigger] regs[i].vif_index) == i
    &&& forall|i: int, j: int|
        0 <= i < j < regs.len() ==> (#[trigger] regs[i].interface_index) != (
        #[trigger] regs[j].interface_index)
}

/// The VIF registrations issued so far, in issue order.
pub struct VifTable {
    /// The registrations, position `i` holding VIF index `i`.
    pub regs: Vec<VifRegistration>,
}

impl VifTable {
    /// An empty table, the state before any registration.
    pub fn new() -> (r: VifTable)
        ensures
            r.regs@ == Seq::<VifRegistration>::empty(),
            table_wf(r.regs@),
    {
        VifTable { regs: Vec::new() }
    }

    /// Whether kernel index `ifindex` is already registered.
    pub fn contains_ifindex(&self, ifindex: i32) -> (r: bool)
        ensures
            r == has_ifindex(self.regs@, ifindex),
    {
        let mut i: usize = 0;
        while i < self.regs.len()
            invariant
                i <= self.regs@.len(),
                forall|j: int| 0 <= j < i ==> (#[trigger] self.regs@[j].interface_index) != ifindex,
            decreases self.regs@.len() - i,
        {
            if self.regs[i].interface_index == ifindex {
                return true;
            }
            i += 1;
        }
        false
    }

    /// Register one interface, assigning it the next dense VIF index, or
    /// refuse it and leave the table as it was.
    pub fn add_vif(&mut self, it: &InterfaceInfo) -> (r: Result<u16, VifError>)
        requires
            table_wf(old(self).regs@),
        ensures
            table_wf(final(self).regs@),
            match spec_add_vif(old(self).regs@, *it) {
                Ok(grown) => r == Ok::<u16, VifError>(old(self).regs@.len() as u16)
                    && final(self).regs@ == grown,
                Err(e) => r == Err::<u16, VifError>(e) && final(self).regs@ == old(self).regs@,
            },
    {
        if self.contains_ifindex(it.ifindex) {
            return Err(VifError::DuplicateInterface { ifindex: it.ifindex });
        }
        if self.regs.len() >= MAX_VIFS {
            return Err(VifError::CapacityExceeded { ifindex: it.ifindex });
        }
        let address = match it.addr {
            Some(a) => a,
            None => {
                return Err(VifError::InterfaceNotAddressable { ifindex: it.ifindex });
            },
        };
        let vif_index = self.regs.len() as u16;
        self.regs.push(
            VifRegistration { vif_index, interface_index: it.ifindex, address },
        );
        Ok(vif_index)
    }

    /// Register every interface of `list`, in list order.  On the first
    /// refusal the run stops and reports the error; earlier
    /// registrations stand.
    pub fn register_vifs(&mut self, list: &Vec<InterfaceInfo>) -> (r: Result<(), VifError>)
        requires
            table_wf(old(self).regs@),
        ensures
            table_wf(final(self).regs@),
            ({
                let (regs, err) = spec_register_all(old(self).regs@, list@);
                &&& final(self).regs@ == regs
                &&& match err {
                    None => r == Ok::<(), VifError>(()),
                    Some(e) => r == Err::<(), VifError>(e),
                }
            }),
    {
        proof {
            assert(list@.subrange(0, list@.len() as int) =~= list@);
        }
        let mut i: usize = 0;
        while i < list.len()
            invariant
                i <= list@.len(),
                table_wf(self.regs@),
                spec_register_all(old(self).regs@, list@) == spec_register_all(
                    self.regs@,
                    list@.subrange(i as int, list@.len() as int),
                ),
            decreases list@.len() - i,
        {
            let ghost pending = list@.subrange(i as int, list@.len() as int);
            match self.add_vif(&list[i]) {
                Ok(_) => (),
                Err(e) => {
                    proof {
                        assert(pending[0] == list@[i as int]);
                    }
                    return Err(e);
                },
            }
            proof {
                assert(pending[0] == list@[i as int]);
                assert(pending.subrange(1, pending.len() as int) =~= list@.subrange(
                    i + 1,
                    list@.len() as int,
                ));
            }
            i += 1;
        }
        proof {
            assert(list@.subrange(list@.len() as int, list@.len() as int) =~= Seq::<
                InterfaceInfo,
            >::empty());
        }
        Ok(())
    }
}

/// VIF assignment is a function of the starting table and the interface
/// list alone: over equal lists, registration yields the same table and
/// the same outcome — re-running it cannot assign different indices.
pub proof fn lemma_vif_assignment_deterministic(
    regs: Seq<VifRegistration>,
    a: Seq<InterfaceInfo>,
    b: Seq<InterfaceInfo>,
)
    requires
        a == b,
    ensures
        spec_register_all(regs, a) == spec_register_all(regs, b),
{
}

/// A successful registration run from an empty table assigns VIF index
/// `k` to the `k`-th interface of the list, and carries that
/// interface's kernel index and address.
pub proof fn lemma_vif_indices_follow_catalog_order(ifs: Seq<InterfaceInfo>)
    requires
        (spec_register_all(Seq::<VifRegistration>::empty(), ifs)).1 is None,
    ensures
        ({
            let regs = (spec_register_all(Seq::<VifRegistration>::empty(), ifs)).0;
            &&& regs.len() == ifs.len()
            &&& forall|k: int|
                0 <= k < ifs.len() ==> {
                    &&& (#[trigger] regs[k]).vif_index == k
                    &&& regs[k].interface_index == ifs[k].ifindex
                    &&& ifs[k].addr == Some(regs[k].address)
                }
        }),
{
    let empty = Seq::<VifRegistration>::empty();
    lemma_register_all_extends(empty, ifs);
    let regs = (spec_register_all(empty, ifs)).0;
    assert forall|k: int|
        0 <= k < ifs.len() implies {
        &&& (#[trigger] regs[k]).vif_index == k
        &&& regs[k].interface_index == ifs[k].ifindex
        &&& ifs[k].addr == Some(regs[k].address)
    } by {
        assert(regs[empty.len() + k].vif_index == empty.len() + k);
        assert(regs[empty.len() + k].interface_index == ifs[k].ifindex);
        assert(ifs[k].addr == Some(regs[empty.len() + k].address));
    };
}

/// A successful registration run appends one registration per listed
/// interface, in list order, each under the next dense index.
proof fn lemma_register_all_extends(regs: Seq<VifRegistration>, ifs: Seq<InterfaceInfo>)
    requires
        (spec_register_all(regs, ifs)).1 is None,
    ensures
        ({
            let out = (spec_register_all(regs, ifs)).0;
            &&& out.len() == regs.len() + ifs.len()
            &&& forall|i: int| 0 <= i < regs.len() ==> out[i] == regs[i]
            &&& forall|k: int|
                0 <= k < ifs.len() ==> {
                    &&& (#[trigger] out[regs.len() + k]).vif_index == regs.len() + k
                    &&& out[regs.len() + k].interface_index == ifs[k].ifindex
                    &&& ifs[k].addr == Some(out[regs.len() + k].address)
                }
        }),
    decreases ifs.len(),
{
    if ifs.len() > 0 {
        match spec_add_vif(regs, ifs[0]) {
            Ok(grown) => {
                let sub = ifs.subrange(1, ifs.len() as int);
                lemma_register_all_extends(grown, sub);
                let out = (spec_register_all(regs, ifs)).0;
                assert(out == (spec_register_all(grown, sub)).0);
                assert(regs.len() < MAX_VIFS);
                assert(grown.len() == regs.len() + 1);
                assert forall|k: int|
                    0 <= k < ifs.len() implies {
                    &&& (#[trigger] out[regs.len() + k]).vif_index == regs.len() + k
                    &&& out[regs.len() + k].interface_index == ifs[k].ifindex
                    &&& ifs[k].addr == Some(out[regs.len() + k].address)
                } by {
                    if k == 0 {
                        assert(out[regs.len() as int] == grown[regs.len() as int]);
                    } else {
                        assert(sub[k - 1] == ifs[k]);
                        assert(out[grown.len() + (k - 1)].interface_index == sub[k - 1].ifindex);
                    }
                };
            },
            Err(_) => (),
        }
    }
}

} // verus!
